//! System-prompt composition.
//!
//! The assembled prompt is a pure function of the agent's configuration:
//! the base prompt text, then — when at least one tool capability is
//! enabled — the tool list and the usage guidance that biases the model
//! toward conservative tool use, and finally the pre-configured static
//! parameters (website URL, command) of the enabled capabilities, spelled
//! out so the model knows what is available without asking.

use vstd::prelude::*;
use crate::strutil::{contains_substring, lemma_concat_contains_middle};
use crate::types::AgentApp;

verus! {

/// The bullet line offering the notification tool.
pub open spec fn notification_bullet() -> Seq<char> {
    "• send_notification(message: string) - Send a notification ONLY when user's conditions are met or critical info needs reporting\n"@
}

/// The bullet line offering the run-command tool.
pub open spec fn run_command_bullet() -> Seq<char> {
    "• run_command(command: string) - Execute a system command and get its output\n"@
}

/// The usage guidance for the notification tool.
pub open spec fn notification_guidance() -> Seq<char> {
    "NOTIFICATION: Use send_notification ONLY when the user's specified conditions are met or when there's critical information to report.\nDO NOT send notifications for negative results (e.g., 'product not available', 'no changes found') unless the user explicitly asks for them.\nExamples of when to send notifications:\n  - User says 'notify if product is available' AND product IS available → send_notification({\"message\": \"Product is now in stock!\"})\n  - User says 'notify if product is available' AND product is NOT available → DO NOT send notification\n  - User says 'check website and notify me' → send_notification with findings (always notify)\n  - Error occurs → send_notification({\"message\": \"Error: Unable to access the website\"})\n\n"@
}

/// The usage guidance for the run-command tool.
pub open spec fn run_command_guidance() -> Seq<char> {
    "RUN COMMAND: Use run_command to execute system commands when you need to perform actions or gather additional information.\nYou can run any valid system command. The command will be executed and you will receive its stdout, stderr, and exit code.\nExamples of when to use run_command:\n  - User says 'create a file' → run_command({\"command\": \"touch /path/to/file\"})\n  - User says 'check disk space' → run_command({\"command\": \"df -h\"})\n  - User says 'list files' → run_command({\"command\": \"ls -la\"})\n  - Need to gather system information → run_command with appropriate command\n\n"@
}

/// Whether any model-invokable tool is enabled.
pub open spec fn has_tools(a: AgentApp) -> bool {
    a.tool_notification || a.tool_run_command
}

/// The tools section of the prompt: the offered tools and their usage
/// guidance; empty when no tool is enabled.
pub open spec fn tools_section(a: AgentApp) -> Seq<char> {
    if has_tools(a) {
        "\n\n=== AVAILABLE TOOLS ===\n"@ + (if a.tool_notification {
            notification_bullet()
        } else {
            Seq::<char>::empty()
        }) + (if a.tool_run_command {
            run_command_bullet()
        } else {
            Seq::<char>::empty()
        }) + "\n=== TOOL USAGE INSTRUCTIONS ===\n"@ + (if a.tool_notification {
            notification_guidance()
        } else {
            Seq::<char>::empty()
        }) + (if a.tool_run_command {
            run_command_guidance()
        } else {
            Seq::<char>::empty()
        })
            + "IMPORTANT: Only use tools when necessary to fulfill the user's request or when there's critical information to report!\n"@
    } else {
        Seq::<char>::empty()
    }
}

/// The line naming the pre-configured website URL, present exactly when
/// the scrape capability is enabled and a URL is configured.
pub open spec fn url_line(a: AgentApp) -> Seq<char> {
    if a.tool_website_scrape && a.website_url is Some {
        "\n\nPre-configured website URL: "@ + (a.website_url->0)@ + "\n"@
    } else {
        Seq::<char>::empty()
    }
}

/// The line naming the pre-configured command, present exactly when the
/// run-command capability is enabled and a command is configured.
pub open spec fn command_line(a: AgentApp) -> Seq<char> {
    if a.tool_run_command && a.command is Some {
        "\n\nPre-configured command: "@ + (a.command->0)@ + "\n"@
    } else {
        Seq::<char>::empty()
    }
}

/// The whole system prompt of an agent.
pub open spec fn system_prompt_of(a: AgentApp) -> Seq<char> {
    a.prompt@ + tools_section(a) + url_line(a) + command_line(a)
}

/// Assemble the system prompt of an agent.
#[verifier::rlimit(60)]
pub fn build_system_prompt(agent: &AgentApp) -> (r: String)
    ensures
        r@ == system_prompt_of(*agent),
{
    let mut out = agent.prompt.clone();
    if agent.tool_notification || agent.tool_run_command {
        out.append("\n\n=== AVAILABLE TOOLS ===\n");
        if agent.tool_notification {
            out.append(
                "• send_notification(message: string) - Send a notification ONLY when user's conditions are met or critical info needs reporting\n",
            );
        }
        if agent.tool_run_command {
            out.append(
                "• run_command(command: string) - Execute a system command and get its output\n",
            );
        }
        out.append("\n=== TOOL USAGE INSTRUCTIONS ===\n");
        if agent.tool_notification {
            out.append(
                "NOTIFICATION: Use send_notification ONLY when the user's specified conditions are met or when there's critical information to report.\nDO NOT send notifications for negative results (e.g., 'product not available', 'no changes found') unless the user explicitly asks for them.\nExamples of when to send notifications:\n  - User says 'notify if product is available' AND product IS available → send_notification({\"message\": \"Product is now in stock!\"})\n  - User says 'notify if product is available' AND product is NOT available → DO NOT send notification\n  - User says 'check website and notify me' → send_notification with findings (always notify)\n  - Error occurs → send_notification({\"message\": \"Error: Unable to access the website\"})\n\n",
            );
        }
        if agent.tool_run_command {
            out.append(
                "RUN COMMAND: Use run_command to execute system commands when you need to perform actions or gather additional information.\nYou can run any valid system command. The command will be executed and you will receive its stdout, stderr, and exit code.\nExamples of when to use run_command:\n  - User says 'create a file' → run_command({\"command\": \"touch /path/to/file\"})\n  - User says 'check disk space' → run_command({\"command\": \"df -h\"})\n  - User says 'list files' → run_command({\"command\": \"ls -la\"})\n  - Need to gather system information → run_command with appropriate command\n\n",
            );
        }
        out.append(
            "IMPORTANT: Only use tools when necessary to fulfill the user's request or when there's critical information to report!\n",
        );
    }
    if agent.tool_website_scrape {
        match &agent.website_url {
            Some(url) => {
                out.append("\n\nPre-configured website URL: ");
                out.append(url.as_str());
                out.append("\n");
            },
            None => {},
        }
    }
    if agent.tool_run_command {
        match &agent.command {
            Some(cmd) => {
                out.append("\n\nPre-configured command: ");
                out.append(cmd.as_str());
                out.append("\n");
            },
            None => {},
        }
    }
    assert(out@ =~= system_prompt_of(*agent));
    out
}

/// Prompt-composition law, positive side: with the run-command capability
/// on and a command configured, the assembled prompt names the command
/// verbatim, under its "Pre-configured command" label.
pub proof fn lemma_prompt_contains_command(a: AgentApp)
    requires
        a.tool_run_command,
        a.command is Some,
    ensures
        contains_substring(system_prompt_of(a), (a.command->0)@),
        contains_substring(system_prompt_of(a), "\n\nPre-configured command: "@),
{
    let p = system_prompt_of(a);
    let pre = a.prompt@ + tools_section(a) + url_line(a);
    let label = "\n\nPre-configured command: "@;
    let c = (a.command->0)@;
    assert(p =~= (pre + label) + c + "\n"@);
    lemma_concat_contains_middle(pre + label, c, "\n"@);
    assert(p =~= pre + label + (c + "\n"@));
    lemma_concat_contains_middle(pre, label, c + "\n"@);
}

/// Prompt-composition law, negative side: with the run-command capability
/// off, the assembled prompt does not depend on the configured command —
/// two configurations that differ only in the command text yield the same
/// prompt, which also carries neither the run-command tool line nor any
/// command guidance beyond what the base prompt itself holds.
pub proof fn lemma_prompt_independent_of_command(a1: AgentApp, a2: AgentApp)
    requires
        !a1.tool_run_command,
        a2 == (AgentApp { command: a2.command, ..a1 }),
    ensures
        system_prompt_of(a1) == system_prompt_of(a2),
{
    assert(tools_section(a1) == tools_section(a2));
    assert(url_line(a1) == url_line(a2));
}

/// The same independence holds for the website URL when the scrape
/// capability is off.
pub proof fn lemma_prompt_independent_of_url(a1: AgentApp, a2: AgentApp)
    requires
        !a1.tool_website_scrape,
        a2 == (AgentApp { website_url: a2.website_url, ..a1 }),
    ensures
        system_prompt_of(a1) == system_prompt_of(a2),
{
    assert(tools_section(a1) == tools_section(a2));
    assert(command_line(a1) == command_line(a2));
}

} // verus!

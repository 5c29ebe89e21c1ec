//! The decision core of agent execution.
//!
//! One invocation runs: prepare (check the master switch, resolve the
//! model, assemble prompt, tools and the initial conversation) → inject
//! pre-execution context (scrape output, input-command output) → enqueue
//! and await a slot → first chat call → either finish with its content, or
//! execute each requested tool, assemble the follow-up conversation, and
//! finish with the second call's content.  Every step that decides or
//! composes lives here; the surrounding application only moves bytes:
//! HTTP round trips, process spawning, persistence, and the polling sleep.

use vstd::prelude::*;
use crate::chat::{
    msgs_view, tools_view, ChatCompletionResponse, ChatMessage, ChatMessageView, ToolCall,
    ToolDefinition,
};
use crate::errors::{AgentError, ToolError};
use crate::tools::command_report_spec;
use crate::types::{AISettings, AgentApp};

verus! {

/// The text of an optional content field; a missing content reads as the
/// empty string.
pub open spec fn content_or_empty(c: Option<String>) -> Seq<char> {
    match c {
        Option::Some(s) => s@,
        Option::None => Seq::<char>::empty(),
    }
}

/// Resolve the model to use: the agent's own override, else the global
/// default, else no model is configured.
pub fn resolve_model(agent: &AgentApp, settings: &AISettings) -> (r: Result<String, AgentError>)
    ensures
        agent.model matches Some(m) ==> (r matches Ok(s) && s@ == m@),
        (agent.model is None && settings.default_model is Some) ==> (r matches Ok(s) && s@ == (
        settings.default_model->0)@),
        agent.model is None && settings.default_model is None ==> (r matches Err(e)
            && e is NoModelConfigured),
{
    match &agent.model {
        Some(m) => Ok(m.clone()),
        None => match &settings.default_model {
            Some(m) => Ok(m.clone()),
            None => Err(AgentError::NoModelConfigured),
        },
    }
}

/// Everything one invocation needs after preparation: the resolved model,
/// the initial conversation, the tools to offer, and the pre-execution
/// work still owed (a URL to scrape, an input command to run).
#[derive(Debug)]
pub struct AgentRun {
    pub model: String,
    pub messages: Vec<ChatMessage>,
    pub tools: Vec<ToolDefinition>,
    pub scrape_url: Option<String>,
    pub input_command: Option<String>,
}

/// The view of an optional owned string.
pub open spec fn opt_view(o: Option<String>) -> Option<Seq<char>> {
    match o {
        Option::None => None,
        Option::Some(s) => Some(s@),
    }
}

/// Prepare one agent invocation: fail fast with `AiDisabled` before any
/// queue or network work when the master switch is off, resolve the
/// model, assemble the system prompt and the offered tools, and name the
/// pre-execution work.
pub fn prepare_agent_run(agent: &AgentApp, settings: &AISettings) -> (r: Result<
    AgentRun,
    AgentError,
>)
    ensures
        !settings.enabled ==> (r matches Err(e) && e is AiDisabled),
        settings.enabled && agent.model is None && settings.default_model is None ==> (r matches Err(
            e,
        ) && e is NoModelConfigured),
        settings.enabled && (agent.model is Some || settings.default_model is Some) ==> (r matches Ok(
            run,
        ) && {
            &&& agent.model matches Some(m) ==> run.model@ == m@
            &&& agent.model is None ==> run.model@ == (settings.default_model->0)@
            &&& msgs_view(run.messages@) == seq![
                (ChatMessageView {
                    role: "system"@,
                    content: crate::prompt::system_prompt_of(*agent),
                }),
            ]
            &&& tools_view(run.tools@) == tool_defs_of(*agent)
            &&& opt_view(run.scrape_url) == (if agent.tool_website_scrape {
                opt_view(agent.website_url)
            } else {
                None::<Seq<char>>
            })
            &&& opt_view(run.input_command) == opt_view(agent.command)
        }),
{
    if !settings.enabled {
        return Err(AgentError::AiDisabled);
    }
    let model = match resolve_model(agent, settings) {
        Ok(m) => m,
        Err(e) => {
            return Err(e);
        },
    };
    let system_prompt = crate::prompt::build_system_prompt(agent);
    let tools = build_tool_definitions(agent);
    let mut messages: Vec<ChatMessage> = Vec::new();
    messages.push(ChatMessage { role: "system".to_owned(), content: system_prompt });
    proof {
        assert(msgs_view(messages@) =~= seq![
            (ChatMessageView {
                role: "system"@,
                content: crate::prompt::system_prompt_of(*agent),
            }),
        ]);
    }
    let scrape_url: Option<String> = if agent.tool_website_scrape {
        match &agent.website_url {
            Some(u) => Some(u.clone()),
            None => None,
        }
    } else {
        None
    };
    let input_command: Option<String> = match &agent.command {
        Some(c) => Some(c.clone()),
        None => None,
    };
    Ok(AgentRun { model, messages, tools, scrape_url, input_command })
}

/// The tools offered for a configuration: the notification tool, then the
/// run-command tool, each exactly when its capability flag is on.
pub open spec fn tool_defs_of(a: AgentApp) -> Seq<crate::chat::ToolDefinitionView> {
    (if a.tool_notification {
        seq![crate::chat::notification_def()]
    } else {
        Seq::empty()
    }) + (if a.tool_run_command {
        seq![crate::chat::run_command_def()]
    } else {
        Seq::empty()
    })
}

/// Build the tool definitions offered to the model for a configuration.
pub fn build_tool_definitions(agent: &AgentApp) -> (r: Vec<ToolDefinition>)
    ensures
        tools_view(r@) == tool_defs_of(*agent),
{
    let mut tools: Vec<ToolDefinition> = Vec::new();
    if agent.tool_notification {
        tools.push(ToolDefinition::notification());
    }
    if agent.tool_run_command {
        tools.push(ToolDefinition::run_command());
    }
    proof {
        assert(tools_view(tools@) =~= tool_defs_of(*agent));
    }
    tools
}

/// The user message carrying pre-fetched website content, with its
/// provenance header naming the source URL.
pub open spec fn scrape_context_spec(url: Seq<char>, content: Seq<char>) -> Seq<char> {
    "Please analyze the following website content from "@ + url + ":\n\n"@ + content
}

/// Append the user message carrying scraped website content.  A failed
/// scrape is swallowed: the caller simply does not call this.
pub fn add_scrape_context(messages: &mut Vec<ChatMessage>, url: &str, content: &str)
    ensures
        msgs_view(final(messages)@) == msgs_view(old(messages)@).push(
            (ChatMessageView { role: "user"@, content: scrape_context_spec(url@, content@) }),
        ),
{
    let mut text = "Please analyze the following website content from ".to_owned();
    text.append(url);
    text.append(":\n\n");
    text.append(content);
    messages.push(ChatMessage { role: "user".to_owned(), content: text });
    proof {
        assert(msgs_view(messages@) =~= msgs_view(old(messages)@).push(
            (ChatMessageView { role: "user"@, content: scrape_context_spec(url@, content@) }),
        ));
    }
}

/// What became of the pre-configured input command outside the library.
#[derive(Debug, Clone)]
pub enum CommandOutcome {
    /// The process ran; its captured streams and exit code (absent when
    /// the process was ended by a signal).
    Ran { stdout: String, stderr: String, exit_code: Option<i32> },
    /// The process could not be started.
    SpawnFailed { detail: String },
}

/// The user message carrying an input command's captured output.
pub open spec fn input_command_report_spec(
    cmd: Seq<char>,
    stdout: Seq<char>,
    stderr: Seq<char>,
    exit_code: Option<int>,
) -> Seq<char> {
    "Input command execution result for '"@ + cmd + "':\n\n"@ + command_report_spec(
        stdout,
        stderr,
        exit_code,
    )
}

/// The user message reporting that the input command could not run.
pub open spec fn input_command_error_spec(cmd: Seq<char>, detail: Seq<char>) -> Seq<char> {
    "Error executing input command '"@ + cmd + "': "@ + detail
}

/// The spec-level exit code of an outcome.
pub open spec fn exit_code_view(c: Option<i32>) -> Option<int> {
    match c {
        Option::Some(v) => Some(v as int),
        Option::None => None,
    }
}

/// Append the user message for the input command's outcome: its labeled
/// output report when it ran, or the error text when it could not be
/// started — the invocation proceeds either way.
pub fn add_command_context(messages: &mut Vec<ChatMessage>, command: &str, outcome: &CommandOutcome)
    ensures
        msgs_view(final(messages)@) == msgs_view(old(messages)@).push(
            (ChatMessageView {
                role: "user"@,
                content: (match *outcome {
                    CommandOutcome::Ran { stdout, stderr, exit_code } => input_command_report_spec(
                        command@,
                        stdout@,
                        stderr@,
                        exit_code_view(exit_code),
                    ),
                    CommandOutcome::SpawnFailed { detail } => input_command_error_spec(
                        command@,
                        detail@,
                    ),
                }),
            }),
        ),
{
    let text: String = match outcome {
        CommandOutcome::Ran { stdout, stderr, exit_code } => {
            let mut t = "Input command execution result for '".to_owned();
            t.append(command);
            t.append("':\n\n");
            let report = crate::tools::command_report(
                stdout.as_str(),
                stderr.as_str(),
                *exit_code,
            );
            t.append(report.as_str());
            t
        },
        CommandOutcome::SpawnFailed { detail } => {
            let mut t = "Error executing input command '".to_owned();
            t.append(command);
            t.append("': ");
            t.append(detail.as_str());
            t
        },
    };
    messages.push(ChatMessage { role: "user".to_owned(), content: text });
    proof {
        assert(msgs_view(messages@) =~= msgs_view(old(messages)@).push(
            (ChatMessageView {
                role: "user"@,
                content: (match *outcome {
                    CommandOutcome::Ran { stdout, stderr, exit_code } => input_command_report_spec(
                        command@,
                        stdout@,
                        stderr@,
                        exit_code_view(exit_code),
                    ),
                    CommandOutcome::SpawnFailed { detail } => input_command_error_spec(
                        command@,
                        detail@,
                    ),
                }),
            }),
        ));
    }
}

/// What the first response asks for: finish with its content, or execute
/// its tool calls first.
#[derive(Debug)]
pub enum FirstStep {
    /// No tool calls: the first choice's content (empty when null) is the
    /// final answer.
    Finish { content: String },
    /// Tool calls are present: execute them in order, then make the
    /// follow-up call; `content` is the first response's own text.
    RunTools { content: Option<String>, calls: Vec<ToolCall> },
}

/// Classify the first response: no choice at all is an error; a first
/// choice without tool calls finishes with its content; one with tool
/// calls demands the tool phase.
pub fn classify_first_response(resp: &ChatCompletionResponse) -> (r: Result<FirstStep, AgentError>)
    ensures
        resp.choices@.len() == 0 ==> (r matches Err(e) && e is NoChoices),
        resp.choices@.len() > 0 ==> (match resp.choices@[0].message.tool_calls {
            Option::Some(calls) => r matches Ok(s) && s matches (FirstStep::RunTools {
                content,
                calls: cs,
            }) && content == resp.choices@[0].message.content && cs@ == calls@,
            Option::None => r matches Ok(s) && s matches (FirstStep::Finish { content })
                && content@ == content_or_empty(resp.choices@[0].message.content),
        }),
{
    if resp.choices.len() == 0 {
        return Err(AgentError::NoChoices);
    }
    let message = &resp.choices[0].message;
    match &message.tool_calls {
        Some(calls) => {
            let content: Option<String> = match &message.content {
                Some(c) => Some(c.clone()),
                None => None,
            };
            let cs = clone_tool_calls(calls);
            Ok(FirstStep::RunTools { content, calls: cs })
        },
        None => {
            let content: String = match &message.content {
                Some(c) => c.clone(),
                None => String::new(),
            };
            proof {
                reveal_strlit("");
            }
            Ok(FirstStep::Finish { content })
        },
    }
}

fn clone_tool_calls(calls: &Vec<ToolCall>) -> (r: Vec<ToolCall>)
    ensures
        r@ == calls@,
{
    let mut out: Vec<ToolCall> = Vec::new();
    let n = calls.len();
    let mut i: usize = 0;
    while i < n
        invariant
            n == calls@.len(),
            i <= n,
            out@ == calls@.take(i as int),
        decreases n - i,
    {
        let c = &calls[i];
        out.push(
            ToolCall {
                id: c.id.clone(),
                tool_type: c.tool_type.clone(),
                function: crate::chat::ToolCallFunction {
                    name: c.function.name.clone(),
                    arguments: c.function.arguments.clone(),
                },
            },
        );
        proof {
            assert(out@ =~= calls@.take(i as int + 1));
        }
        i = i + 1;
    }
    proof {
        assert(calls@.take(n as int) =~= calls@);
    }
    out
}

/// The tool-role message for one executed call: the tool's textual result
/// on success, `Error: {message}` on a tool failure — the model sees its
/// own tool failures and may adapt.
pub fn tool_message(outcome: &Result<String, ToolError>) -> (r: ChatMessage)
    ensures
        r.role@ == "tool"@,
        outcome matches Ok(s) ==> r.content@ == s@,
        outcome matches Err(e) ==> r.content@ == "Error: "@ + e.message_spec(),
{
    let content: String = match outcome {
        Ok(s) => s.clone(),
        Err(e) => {
            let mut t = "Error: ".to_owned();
            let m = e.message();
            t.append(m.as_str());
            t
        },
    };
    ChatMessage { role: "tool".to_owned(), content }
}

/// Assemble the follow-up conversation: the original messages, then one
/// assistant message carrying the first response's own content (empty
/// when null), then the tool-role results in the order the model
/// requested the calls.
pub fn assemble_followup_messages(
    original: &Vec<ChatMessage>,
    first_content: &Option<String>,
    tool_results: &Vec<ChatMessage>,
) -> (r: Vec<ChatMessage>)
    ensures
        msgs_view(r@) == msgs_view(original@) + seq![
            (ChatMessageView { role: "assistant"@, content: content_or_empty(*first_content) }),
        ] + msgs_view(tool_results@),
{
    let mut out: Vec<ChatMessage> = Vec::new();
    let n = original.len();
    let mut i: usize = 0;
    while i < n
        invariant
            n == original@.len(),
            i <= n,
            out@ == original@.take(i as int),
        decreases n - i,
    {
        out.push(original[i].clone_message());
        proof {
            assert(out@ =~= original@.take(i as int + 1));
        }
        i = i + 1;
    }
    proof {
        assert(original@.take(n as int) =~= original@);
    }
    let assistant_content: String = match first_content {
        Some(c) => c.clone(),
        None => String::new(),
    };
    let assistant = ChatMessage { role: "assistant".to_owned(), content: assistant_content };
    let ghost am = assistant;
    proof {
        reveal_strlit("");
        assert(am@ =~~= (ChatMessageView {
            role: "assistant"@,
            content: content_or_empty(*first_content),
        }));
    }
    out.push(assistant);
    let m = tool_results.len();
    let mut j: usize = 0;
    while j < m
        invariant
            m == tool_results@.len(),
            j <= m,
            out@ == original@.push(am) + tool_results@.take(j as int),
        decreases m - j,
    {
        out.push(tool_results[j].clone_message());
        proof {
            assert(out@ =~= original@.push(am) + tool_results@.take(j as int + 1));
        }
        j = j + 1;
    }
    proof {
        assert(tool_results@.take(m as int) =~= tool_results@);
        assert(original@.push(am) =~= original@ + seq![am]);
        lemma_msgs_view_concat(original@ + seq![am], tool_results@);
        lemma_msgs_view_concat(original@, seq![am]);
        assert(msgs_view(seq![am]) =~~= seq![
            (ChatMessageView { role: "assistant"@, content: content_or_empty(*first_content) }),
        ]);
    }
    out
}

/// The view of a concatenation of message lists is the concatenation of
/// their views.
proof fn lemma_msgs_view_concat(a: Seq<ChatMessage>, b: Seq<ChatMessage>)
    ensures
        msgs_view(a + b) == msgs_view(a) + msgs_view(b),
{
    assert(msgs_view(a + b) =~~= msgs_view(a) + msgs_view(b));
}

/// Conversation round-trip law: the follow-up request's message list is
/// exactly the original messages, then the one assistant message, then
/// one tool message per executed call, in that order and nothing else.
pub proof fn lemma_followup_message_order(
    ms: Seq<ChatMessageView>,
    assistant: ChatMessageView,
    tools: Seq<ChatMessageView>,
    r: Seq<ChatMessageView>,
)
    requires
        r == ms + seq![assistant] + tools,
    ensures
        r.len() == ms.len() + 1 + tools.len(),
        forall|i: int| 0 <= i < ms.len() ==> r[i] == ms[i],
        r[ms.len() as int] == assistant,
        forall|j: int| 0 <= j < tools.len() ==> r[ms.len() + 1 + j] == tools[j],
{
}

/// The final answer of the follow-up response: its first choice's content
/// (empty when null); no choice at all is an error.
pub fn final_content(resp: &ChatCompletionResponse) -> (r: Result<String, AgentError>)
    ensures
        resp.choices@.len() == 0 ==> (r matches Err(e) && e is NoFinalResponse),
        resp.choices@.len() > 0 ==> (r matches Ok(s) && s@ == content_or_empty(
            resp.choices@[0].message.content,
        )),
{
    if resp.choices.len() == 0 {
        return Err(AgentError::NoFinalResponse);
    }
    let content: String = match &resp.choices[0].message.content {
        Some(c) => c.clone(),
        None => String::new(),
    };
    proof {
        reveal_strlit("");
    }
    Ok(content)
}

/// The failure text persisted when the first chat call fails.
pub open spec fn first_call_failure_spec(e: AgentError) -> Seq<char> {
    "LLM request failed: "@ + e.message_spec()
}

/// Render the failure text persisted when the first chat call fails.
pub fn first_call_failure_text(e: &AgentError) -> (r: String)
    ensures
        r@ == first_call_failure_spec(*e),
{
    let mut out = "LLM request failed: ".to_owned();
    let m = e.message();
    out.append(m.as_str());
    out
}

} // verus!

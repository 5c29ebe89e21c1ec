//! Tool-call planning and result rendering.
//!
//! The model hands back a tool name and a JSON argument string; planning
//! turns them into a concrete action — a notification to raise or a
//! command to spawn — or into a tool error.  Argument parsing is lenient:
//! malformed JSON counts as an object without fields, so a missing field
//! is reported rather than the turn aborted.  The side effects themselves
//! (persisting the notification, spawning the process) happen outside the
//! library, which then renders the textual result from plain values.

use vstd::prelude::*;
use crate::errors::ToolError;
use crate::shell_words::{shell_split, split, words_view};
use crate::strutil::dec_int;
use crate::trusted::{json_string_field, string_field_of};
use crate::types::str_eq;

verus! {

/// A side-effecting action planned from one tool call.
#[derive(Debug, Clone)]
pub enum ToolAction {
    /// Persist and surface a notification with this text.
    SendNotification { message: String },
    /// Spawn this program with these arguments, directly and without a
    /// shell, and capture its output.
    RunCommand { program: String, args: Vec<String> },
}

/// Parse a command string into a run-command action: shell-like word
/// splitting, the first word naming the program, the rest its arguments.
/// A string without words is an empty command.
pub fn parse_command(command: &str) -> (r: Result<ToolAction, ToolError>)
    ensures
        shell_split(command@).len() == 0 ==> (r matches Err(e) && e is EmptyCommand),
        shell_split(command@).len() > 0 ==> (r matches Ok(a) && a matches (ToolAction::RunCommand {
            program,
            args,
        }) && program@ == shell_split(command@)[0] && words_view(args@) == shell_split(
            command@,
        ).drop_first()),
{
    let words_opt = split(command);
    match words_opt {
        Some(mut words) => {
            if words.len() == 0 {
                Err(ToolError::EmptyCommand)
            } else {
                let program = words.remove(0);
                proof {
                    assert(words_view(words@) =~= shell_split(command@).drop_first());
                }
                Ok(ToolAction::RunCommand { program, args: words })
            }
        },
        None => {
            proof {
                assert(false);
            }
            Err(ToolError::EmptyCommand)
        },
    }
}

/// Plan one tool call: dispatch on the tool's name, read its required
/// string argument leniently, and return the action to perform or the
/// error to surface to the model.
pub fn plan_tool_call(tool_name: &str, arguments: &str) -> (r: Result<ToolAction, ToolError>)
    ensures
        tool_name@ == "send_notification"@ ==> (match string_field_of(arguments@, "message"@) {
            Option::Some(m) => r matches Ok(a) && a matches (ToolAction::SendNotification {
                message,
            }) && message@ == m,
            Option::None => r matches Err(e) && e matches (ToolError::MissingArgument { name })
                && name@ == "message"@,
        }),
        tool_name@ == "run_command"@ ==> (match string_field_of(arguments@, "command"@) {
            Option::Some(c) => {
                &&& shell_split(c).len() == 0 ==> (r matches Err(e) && e is EmptyCommand)
                &&& shell_split(c).len() > 0 ==> (r matches Ok(a) && a matches (
                ToolAction::RunCommand { program, args }) && program@ == shell_split(c)[0]
                    && words_view(args@) == shell_split(c).drop_first())
            },
            Option::None => r matches Err(e) && e matches (ToolError::MissingArgument { name })
                && name@ == "command"@,
        }),
        tool_name@ != "send_notification"@ && tool_name@ != "run_command"@ ==> (r matches Err(e)
            && e matches (ToolError::UnknownTool { name }) && name@ == tool_name@),
{
    proof {
        // revealing the two names lets the solver tell them apart (their
        // lengths differ), so only one ensures branch applies
        reveal_strlit("send_notification");
        reveal_strlit("run_command");
        assert("send_notification"@.len() == 17);
        assert("run_command"@.len() == 11);
        assert("send_notification"@ != "run_command"@);
    }
    if str_eq(tool_name, "send_notification") {
        match json_string_field(arguments, "message") {
            Some(message) => Ok(ToolAction::SendNotification { message }),
            None => Err(ToolError::MissingArgument { name: "message".to_owned() }),
        }
    } else if str_eq(tool_name, "run_command") {
        match json_string_field(arguments, "command") {
            Some(command) => parse_command(command.as_str()),
            None => Err(ToolError::MissingArgument { name: "command".to_owned() }),
        }
    } else {
        Err(ToolError::UnknownTool { name: tool_name.to_owned() })
    }
}

/// The confirmation text returned after a notification was raised.
pub open spec fn notification_result_spec(message: Seq<char>) -> Seq<char> {
    "Notification sent: "@ + message
}

/// Render the confirmation text for a raised notification.
pub fn notification_result(message: &str) -> (r: String)
    ensures
        r@ == notification_result_spec(message@),
{
    let mut out = "Notification sent: ".to_owned();
    out.append(message);
    out
}

/// The labeled report of a finished command: its stdout and stderr when
/// non-empty, and its exit code when the process was not killed by a
/// signal.
pub open spec fn command_report_spec(
    stdout: Seq<char>,
    stderr: Seq<char>,
    exit_code: Option<int>,
) -> Seq<char> {
    (if stdout.len() > 0 {
        "STDOUT:\n"@ + stdout + "\n"@
    } else {
        Seq::<char>::empty()
    }) + (if stderr.len() > 0 {
        "STDERR:\n"@ + stderr + "\n"@
    } else {
        Seq::<char>::empty()
    }) + (match exit_code {
        Option::Some(c) => "Exit code: "@ + dec_int(c) + "\n"@,
        Option::None => Seq::<char>::empty(),
    })
}

/// Render the labeled report of a finished command.
pub fn command_report(stdout: &str, stderr: &str, exit_code: Option<i32>) -> (r: String)
    ensures
        r@ == command_report_spec(
            stdout@,
            stderr@,
            (match exit_code {
                Option::Some(c) => Some(c as int),
                Option::None => None::<int>,
            }),
        ),
{
    let mut out = String::new();
    if !stdout.is_empty() {
        out.append("STDOUT:\n");
        out.append(stdout);
        out.append("\n");
    }
    if !stderr.is_empty() {
        out.append("STDERR:\n");
        out.append(stderr);
        out.append("\n");
    }
    match exit_code {
        Some(c) => {
            out.append("Exit code: ");
            let digits = crate::strutil::i32_to_string(c);
            out.append(digits.as_str());
            out.append("\n");
        },
        None => {},
    }
    proof {
        reveal_strlit("");
    }
    assert(out@ =~= command_report_spec(
        stdout@,
        stderr@,
        (match exit_code {
            Option::Some(c) => Some(c as int),
            Option::None => None::<int>,
        }),
    ));
    out
}

} // verus!

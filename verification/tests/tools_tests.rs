use jvlauncher::errors::ToolError;
use jvlauncher::tools::{command_report, notification_result, plan_tool_call, ToolAction};

#[test]
fn test_tool_argument_leniency() {
    // malformed JSON is treated as an object without fields, so the
    // required argument is reported missing rather than the call crashing
    match plan_tool_call("send_notification", "{not valid json}") {
        Err(ToolError::MissingArgument { name }) => assert_eq!(name, "message"),
        other => panic!("unexpected result: {:?}", other),
    }
}

#[test]
fn test_plan_notification() {
    match plan_tool_call("send_notification", "{\"message\": \"Product is now in stock!\"}") {
        Ok(ToolAction::SendNotification { message }) => {
            assert_eq!(message, "Product is now in stock!");
        }
        other => panic!("unexpected result: {:?}", other),
    }
}

#[test]
fn test_plan_run_command_splits_words() {
    match plan_tool_call("run_command", "{\"command\": \"echo \\\"hello world\\\"\"}") {
        Ok(ToolAction::RunCommand { program, args }) => {
            assert_eq!(program, "echo");
            assert_eq!(args, vec!["hello world".to_string()]);
        }
        other => panic!("unexpected result: {:?}", other),
    }
}

#[test]
fn test_plan_run_command_missing_and_empty() {
    match plan_tool_call("run_command", "{}") {
        Err(ToolError::MissingArgument { name }) => assert_eq!(name, "command"),
        other => panic!("unexpected result: {:?}", other),
    }
    match plan_tool_call("run_command", "{\"command\": \"\"}") {
        Err(ToolError::EmptyCommand) => {}
        other => panic!("unexpected result: {:?}", other),
    }
}

#[test]
fn test_plan_unknown_tool() {
    match plan_tool_call("open_portal", "{}") {
        Err(ToolError::UnknownTool { name }) => assert_eq!(name, "open_portal"),
        other => panic!("unexpected result: {:?}", other),
    }
    assert_eq!(
        ToolError::UnknownTool { name: "open_portal".to_string() }.message(),
        "Unknown tool: open_portal"
    );
}

#[test]
fn test_command_report_rendering() {
    assert_eq!(
        command_report("out\n", "err\n", Some(0)),
        "STDOUT:\nout\n\nSTDERR:\nerr\n\nExit code: 0\n"
    );
    assert_eq!(command_report("", "", Some(-17)), "Exit code: -17\n");
    assert_eq!(command_report("only\n", "", None), "STDOUT:\nonly\n\n");
}

#[test]
fn test_notification_result() {
    assert_eq!(notification_result("hi"), "Notification sent: hi");
}

#[test]
fn test_tool_error_messages() {
    assert_eq!(
        ToolError::MissingArgument { name: "message".to_string() }.message(),
        "Missing 'message' argument"
    );
    assert_eq!(ToolError::EmptyCommand.message(), "Empty command");
    assert_eq!(
        ToolError::SpawnError { detail: "no such file".to_string() }.message(),
        "Failed to execute command: no such file"
    );
}

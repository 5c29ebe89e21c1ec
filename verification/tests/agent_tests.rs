use jvlauncher::agent::{
    add_command_context, add_scrape_context, assemble_followup_messages, classify_first_response,
    final_content, first_call_failure_text, prepare_agent_run, resolve_model, tool_message,
    CommandOutcome, FirstStep,
};
use jvlauncher::chat::{
    ChatCompletionResponse, ChatMessage, Choice, ResponseMessage, ToolCall, ToolCallFunction,
};
use jvlauncher::errors::{AgentError, ToolError};
use jvlauncher::prompt::build_system_prompt;
use jvlauncher::queue::QueueManager;
use jvlauncher::types::{AISettings, AgentApp};

fn agent_base() -> AgentApp {
    AgentApp {
        app_id: 1,
        model: None,
        prompt: "You watch disks.".to_string(),
        tool_notification: false,
        tool_website_scrape: false,
        tool_run_command: false,
        website_url: None,
        website_scrape_mode: None,
        command: None,
    }
}

fn enabled_settings() -> AISettings {
    AISettings {
        enabled: true,
        endpoint_url: "http://host:1".to_string(),
        api_key: String::new(),
        default_model: Some("default-model".to_string()),
        max_concurrent_agents: 1,
    }
}

fn response_with(content: Option<&str>, tool_calls: Option<Vec<ToolCall>>) -> ChatCompletionResponse {
    ChatCompletionResponse {
        choices: vec![Choice {
            message: ResponseMessage {
                role: "assistant".to_string(),
                content: content.map(|c| c.to_string()),
                tool_calls,
            },
        }],
    }
}

#[test]
fn test_prompt_contains_configured_command() {
    let mut agent = agent_base();
    agent.tool_run_command = true;
    agent.command = Some("df -h".to_string());
    let prompt = build_system_prompt(&agent);
    assert!(prompt.contains("df -h"));
    assert!(prompt.contains("Pre-configured command: df -h"));
    assert!(prompt.contains("run_command(command: string)"));
}

#[test]
fn test_prompt_without_command_capability() {
    let mut agent = agent_base();
    agent.command = Some("df -h".to_string());
    // capability off: the prompt is the base prompt alone, with neither
    // the tool line nor the command text
    let prompt = build_system_prompt(&agent);
    assert_eq!(prompt, "You watch disks.");
    assert!(!prompt.contains("df -h"));
    assert!(!prompt.contains("Pre-configured command"));
    assert!(!prompt.contains("run_command"));
}

#[test]
fn test_prompt_is_deterministic() {
    let mut agent = agent_base();
    agent.tool_notification = true;
    let once = build_system_prompt(&agent);
    let twice = build_system_prompt(&agent);
    assert_eq!(once, twice);
    assert!(once.contains("=== AVAILABLE TOOLS ==="));
    assert!(once.contains("send_notification(message: string)"));
    assert!(!once.contains("run_command(command: string)"));
}

#[test]
fn test_resolve_model_precedence() {
    let mut agent = agent_base();
    let mut settings = enabled_settings();
    assert_eq!(resolve_model(&agent, &settings).unwrap(), "default-model");
    agent.model = Some("override".to_string());
    assert_eq!(resolve_model(&agent, &settings).unwrap(), "override");
    agent.model = None;
    settings.default_model = None;
    assert!(matches!(
        resolve_model(&agent, &settings),
        Err(AgentError::NoModelConfigured)
    ));
}

#[test]
fn test_execute_agent_ai_disabled() {
    // AI disabled: the invocation fails before any queue mutation
    let qm = QueueManager::new(1);
    let settings = AISettings::default();
    let agent = agent_base();
    let before = qm.queue_len();
    match prepare_agent_run(&agent, &settings) {
        Err(AgentError::AiDisabled) => {}
        other => panic!("unexpected result: {:?}", other),
    }
    assert_eq!(qm.queue_len(), before);
    assert_eq!(
        AgentError::AiDisabled.message(),
        "AI features are not enabled"
    );
}

#[test]
fn test_execute_agent_completes_without_tools() {
    // the model answers without tool calls: the item ends completed with
    // the answer and no tool runs
    let mut qm = QueueManager::new(1);
    let settings = enabled_settings();
    let mut agent = agent_base();
    agent.tool_notification = true;

    let run = prepare_agent_run(&agent, &settings).unwrap();
    assert_eq!(run.model, "default-model");
    assert_eq!(run.tools.len(), 1);
    assert_eq!(run.tools[0].name, "send_notification");

    let snapshot = jvlauncher::chat::serialize_messages(&run.messages);
    let id = qm.enqueue(snapshot, Some("agent one".to_string()), 100);
    assert!(qm.can_process());
    qm.start_processing(id, 100);

    let resp = response_with(Some("All good"), None);
    match classify_first_response(&resp).unwrap() {
        FirstStep::Finish { content } => {
            assert_eq!(content, "All good");
            qm.complete(id, &content, 101);
        }
        other => panic!("unexpected step: {:?}", other),
    }

    let item = qm.get_queue_item(id).unwrap();
    assert_eq!(item.status, "completed");
    assert_eq!(item.response.as_deref(), Some("All good"));
    assert_eq!(item.completed_at, Some(101));
}

#[test]
fn test_followup_round_trip_with_two_tool_calls() {
    let original = vec![
        ChatMessage { role: "system".to_string(), content: "s".to_string() },
        ChatMessage { role: "user".to_string(), content: "u".to_string() },
    ];
    let calls = vec![
        ToolCall {
            id: "c1".to_string(),
            tool_type: "function".to_string(),
            function: ToolCallFunction {
                name: "send_notification".to_string(),
                arguments: "{\"message\":\"m\"}".to_string(),
            },
        },
        ToolCall {
            id: "c2".to_string(),
            tool_type: "function".to_string(),
            function: ToolCallFunction {
                name: "nonexistent".to_string(),
                arguments: "{}".to_string(),
            },
        },
    ];
    let resp = response_with(Some("working on it"), Some(calls));
    let (first_content, calls) = match classify_first_response(&resp).unwrap() {
        FirstStep::RunTools { content, calls } => (content, calls),
        other => panic!("unexpected step: {:?}", other),
    };
    assert_eq!(calls.len(), 2);

    let results = vec![
        tool_message(&Ok("Notification sent: m".to_string())),
        tool_message(&Err(ToolError::UnknownTool { name: "nonexistent".to_string() })),
    ];
    let followup = assemble_followup_messages(&original, &first_content, &results);

    assert_eq!(followup.len(), 5);
    assert_eq!(followup[0].role, "system");
    assert_eq!(followup[0].content, "s");
    assert_eq!(followup[1].role, "user");
    assert_eq!(followup[1].content, "u");
    assert_eq!(followup[2].role, "assistant");
    assert_eq!(followup[2].content, "working on it");
    assert_eq!(followup[3].role, "tool");
    assert_eq!(followup[3].content, "Notification sent: m");
    assert_eq!(followup[4].role, "tool");
    assert_eq!(followup[4].content, "Error: Unknown tool: nonexistent");
}

#[test]
fn test_classify_no_choices_and_final_content() {
    let empty = ChatCompletionResponse { choices: vec![] };
    assert!(matches!(
        classify_first_response(&empty),
        Err(AgentError::NoChoices)
    ));
    assert!(matches!(final_content(&empty), Err(AgentError::NoFinalResponse)));
    assert_eq!(AgentError::NoChoices.message(), "No choices in response");
    assert_eq!(AgentError::NoFinalResponse.message(), "No response from LLM");

    let resp = response_with(None, None);
    assert_eq!(final_content(&resp).unwrap(), "");
}

#[test]
fn test_context_injection_messages() {
    let mut messages = vec![ChatMessage { role: "system".to_string(), content: "s".to_string() }];
    add_scrape_context(&mut messages, "https://example.com", "page text");
    assert_eq!(messages.len(), 2);
    assert_eq!(messages[1].role, "user");
    assert_eq!(
        messages[1].content,
        "Please analyze the following website content from https://example.com:\n\npage text"
    );

    add_command_context(
        &mut messages,
        "df -h",
        &CommandOutcome::Ran {
            stdout: "disk ok\n".to_string(),
            stderr: String::new(),
            exit_code: Some(0),
        },
    );
    assert_eq!(
        messages[2].content,
        "Input command execution result for 'df -h':\n\nSTDOUT:\ndisk ok\n\nExit code: 0\n"
    );

    add_command_context(
        &mut messages,
        "nosuch",
        &CommandOutcome::SpawnFailed { detail: "not found".to_string() },
    );
    assert_eq!(
        messages[3].content,
        "Error executing input command 'nosuch': not found"
    );
}

#[test]
fn test_first_call_failure_text() {
    let e = AgentError::HttpError { status: 503, body: "overloaded".to_string() };
    assert_eq!(
        first_call_failure_text(&e),
        "LLM request failed: Failed to get chat completion: 503 - overloaded"
    );
}

//! The OpenAI-compatible chat wire format: conversation messages, tool
//! definitions, response shapes, and the verified construction of request
//! bodies and endpoint URLs.
//!
//! The surrounding application performs the HTTP round trip; it takes the
//! prepared URL, bearer key and body from here and hands the decoded
//! response back as plain values.

use vstd::prelude::*;
use crate::json::{append_json_string, json_string};
use crate::types::AISettings;
use crate::errors::AgentError;

verus! {

/// One conversation message; `role` is `system`, `user`, `assistant` or
/// `tool`, and ordering in a conversation is significant.
#[derive(Debug, Clone)]
pub struct ChatMessage {
    pub role: String,
    pub content: String,
}

/// The mathematical value of a message: its two texts.
#[verifier::ext_equal]
pub struct ChatMessageView {
    pub role: Seq<char>,
    pub content: Seq<char>,
}

impl View for ChatMessage {
    type V = ChatMessageView;

    open spec fn view(&self) -> ChatMessageView {
        ChatMessageView { role: self.role@, content: self.content@ }
    }
}

impl ChatMessage {
    /// An explicit copy of the message.
    pub fn clone_message(&self) -> (r: Self)
        ensures
            r == *self,
    {
        ChatMessage { role: self.role.clone(), content: self.content.clone() }
    }
}

/// The messages of a conversation, as mathematical values, in order.
pub open spec fn msgs_view(s: Seq<ChatMessage>) -> Seq<ChatMessageView> {
    s.map_values(|m: ChatMessage| m@)
}

/// A tool offered to the model: its name, the description that biases the
/// model toward conservative use, and its JSON-schema parameters held as
/// JSON text.
#[derive(Debug, Clone)]
pub struct ToolDefinition {
    pub name: String,
    pub description: String,
    pub parameters: String,
}

/// The mathematical value of a tool definition.
#[verifier::ext_equal]
pub struct ToolDefinitionView {
    pub name: Seq<char>,
    pub description: Seq<char>,
    pub parameters: Seq<char>,
}

impl View for ToolDefinition {
    type V = ToolDefinitionView;

    open spec fn view(&self) -> ToolDefinitionView {
        ToolDefinitionView {
            name: self.name@,
            description: self.description@,
            parameters: self.parameters@,
        }
    }
}

/// The tool definitions of a request, as mathematical values, in order.
pub open spec fn tools_view(s: Seq<ToolDefinition>) -> Seq<ToolDefinitionView> {
    s.map_values(|t: ToolDefinition| t@)
}

/// The notification tool's definition, as a mathematical value.
pub open spec fn notification_def() -> ToolDefinitionView {
    ToolDefinitionView {
        name: "send_notification"@,
        description:
            "Send a notification to the user to inform them about important events, findings, or errors. ONLY use this tool when the user's specified conditions are met or when there's critical information to report. Do NOT send notifications for negative results unless explicitly requested. Examples: 'Product is now in stock', 'Error: Unable to access the website', 'New article found matching your criteria'."@,
        parameters:
            "{\"type\":\"object\",\"properties\":{\"message\":{\"type\":\"string\",\"description\":\"The notification message to display to the user. Should be clear, concise, and informative.\"}},\"required\":[\"message\"]}"@,
    }
}

/// The run-command tool's definition, as a mathematical value.
pub open spec fn run_command_def() -> ToolDefinitionView {
    ToolDefinitionView {
        name: "run_command"@,
        description:
            "Execute a system command and get its output. Use this when you need to perform actions or gather additional information by running commands. The command will be executed and you will receive its stdout, stderr, and exit code. You can run any valid system command."@,
        parameters:
            "{\"type\":\"object\",\"properties\":{\"command\":{\"type\":\"string\",\"description\":\"The system command to execute (e.g., 'ls -la', 'df -h', 'touch /path/to/file')\"}},\"required\":[\"command\"]}"@,
    }
}

impl ToolDefinition {
    /// An explicit copy of the definition.
    pub fn clone_def(&self) -> (r: Self)
        ensures
            r == *self,
    {
        ToolDefinition {
            name: self.name.clone(),
            description: self.description.clone(),
            parameters: self.parameters.clone(),
        }
    }

    /// The notification tool offered when the agent's notification
    /// capability is enabled.
    pub fn notification() -> (r: Self)
        ensures
            r@ == notification_def(),
    {
        ToolDefinition {
            name: "send_notification".to_owned(),
            description:
                "Send a notification to the user to inform them about important events, findings, or errors. ONLY use this tool when the user's specified conditions are met or when there's critical information to report. Do NOT send notifications for negative results unless explicitly requested. Examples: 'Product is now in stock', 'Error: Unable to access the website', 'New article found matching your criteria'.".to_owned(),
            parameters:
                "{\"type\":\"object\",\"properties\":{\"message\":{\"type\":\"string\",\"description\":\"The notification message to display to the user. Should be clear, concise, and informative.\"}},\"required\":[\"message\"]}".to_owned(),
        }
    }

    /// The command tool offered when the agent's run-command capability is
    /// enabled.
    pub fn run_command() -> (r: Self)
        ensures
            r@ == run_command_def(),
    {
        ToolDefinition {
            name: "run_command".to_owned(),
            description:
                "Execute a system command and get its output. Use this when you need to perform actions or gather additional information by running commands. The command will be executed and you will receive its stdout, stderr, and exit code. You can run any valid system command.".to_owned(),
            parameters:
                "{\"type\":\"object\",\"properties\":{\"command\":{\"type\":\"string\",\"description\":\"The system command to execute (e.g., 'ls -la', 'df -h', 'touch /path/to/file')\"}},\"required\":[\"command\"]}".to_owned(),
        }
    }
}

/// One function call requested by the model.
#[derive(Debug, Clone)]
pub struct ToolCallFunction {
    pub name: String,
    pub arguments: String,
}

/// One tool call of a model response.
#[derive(Debug, Clone)]
pub struct ToolCall {
    pub id: String,
    pub tool_type: String,
    pub function: ToolCallFunction,
}

/// The message of one response choice: optional text and optional tool
/// calls.
#[derive(Debug, Clone)]
pub struct ResponseMessage {
    pub role: String,
    pub content: Option<String>,
    pub tool_calls: Option<Vec<ToolCall>>,
}

/// One choice of a chat-completion response; callers consult the first.
#[derive(Debug, Clone)]
pub struct Choice {
    pub message: ResponseMessage,
}

/// A decoded chat-completion response.
#[derive(Debug, Clone)]
pub struct ChatCompletionResponse {
    pub choices: Vec<Choice>,
}

/// The JSON object for one message on the wire.
pub open spec fn message_json(m: ChatMessageView) -> Seq<char> {
    "{\"role\":"@ + json_string(m.role) + ",\"content\":"@ + json_string(m.content) + "}"@
}

/// The comma-separated message objects of a conversation.
pub open spec fn messages_json_items(ms: Seq<ChatMessageView>) -> Seq<char>
    decreases ms.len(),
{
    if ms.len() == 0 {
        Seq::empty()
    } else if ms.len() == 1 {
        message_json(ms[0])
    } else {
        messages_json_items(ms.drop_last()) + seq![','] + message_json(ms.last())
    }
}

/// The JSON array of a conversation's messages.
pub open spec fn messages_json(ms: Seq<ChatMessageView>) -> Seq<char> {
    seq!['['] + messages_json_items(ms) + seq![']']
}

/// The JSON object for one tool on the wire; the parameter schema is
/// already JSON text and is written as it stands.
pub open spec fn tool_json(t: ToolDefinitionView) -> Seq<char> {
    "{\"type\":\"function\",\"function\":{\"name\":"@ + json_string(t.name) + ",\"description\":"@
        + json_string(t.description) + ",\"parameters\":"@ + t.parameters + "}}"@
}

/// The comma-separated tool objects of a request.
pub open spec fn tools_json_items(ts: Seq<ToolDefinitionView>) -> Seq<char>
    decreases ts.len(),
{
    if ts.len() == 0 {
        Seq::empty()
    } else if ts.len() == 1 {
        tool_json(ts[0])
    } else {
        tools_json_items(ts.drop_last()) + seq![','] + tool_json(ts.last())
    }
}

/// The JSON array of a request's tools.
pub open spec fn tools_json(ts: Seq<ToolDefinitionView>) -> Seq<char> {
    seq!['['] + tools_json_items(ts) + seq![']']
}

/// The whole chat-completion request body; `tools` is omitted when no
/// tool is offered.
pub open spec fn chat_request_json(
    model: Seq<char>,
    ms: Seq<ChatMessageView>,
    tools: Option<Seq<ToolDefinitionView>>,
) -> Seq<char> {
    "{\"model\":"@ + json_string(model) + ",\"messages\":"@ + messages_json(ms) + (match tools {
        Option::None => Seq::<char>::empty(),
        Option::Some(ts) => ",\"tools\":"@ + tools_json(ts),
    }) + "}"@
}

fn append_message_json(out: &mut String, m: &ChatMessage)
    ensures
        final(out)@ == old(out)@ + message_json(m@),
{
    out.append("{\"role\":");
    append_json_string(out, m.role.as_str());
    out.append(",\"content\":");
    append_json_string(out, m.content.as_str());
    out.append("}");
    assert(out@ =~= old(out)@ + message_json(m@));
}

fn append_tool_json(out: &mut String, t: &ToolDefinition)
    ensures
        final(out)@ == old(out)@ + tool_json(t@),
{
    out.append("{\"type\":\"function\",\"function\":{\"name\":");
    append_json_string(out, t.name.as_str());
    out.append(",\"description\":");
    append_json_string(out, t.description.as_str());
    out.append(",\"parameters\":");
    out.append(t.parameters.as_str());
    out.append("}}");
    assert(out@ =~= old(out)@ + tool_json(t@));
}

/// Serialize a conversation as the JSON array sent on the wire and stored
/// as the queue item's message snapshot.
pub fn serialize_messages(messages: &Vec<ChatMessage>) -> (r: String)
    ensures
        r@ == messages_json(msgs_view(messages@)),
{
    let ghost vs = msgs_view(messages@);
    let mut out = String::new();
    out.push('[');
    let n = messages.len();
    let mut i: usize = 0;
    while i < n
        invariant
            n == messages@.len(),
            vs == msgs_view(messages@),
            vs.len() == n,
            i <= n,
            out@ == seq!['['] + messages_json_items(vs.take(i as int)),
        decreases n - i,
    {
        if i > 0 {
            out.push(',');
        }
        append_message_json(&mut out, &messages[i]);
        proof {
            assert(vs.take(i as int + 1).drop_last() =~= vs.take(i as int));
            assert(vs.take(i as int + 1).last() == vs[i as int]);
            assert(out@ =~= seq!['['] + messages_json_items(vs.take(i as int + 1)));
        }
        i = i + 1;
    }
    proof {
        assert(vs.take(n as int) =~= vs);
    }
    out.push(']');
    assert(out@ =~= messages_json(vs));
    out
}

fn tools_json_of(tools: &Vec<ToolDefinition>) -> (r: String)
    ensures
        r@ == tools_json(tools_view(tools@)),
{
    let ghost vs = tools_view(tools@);
    let mut out = String::new();
    out.push('[');
    let n = tools.len();
    let mut i: usize = 0;
    while i < n
        invariant
            n == tools@.len(),
            vs == tools_view(tools@),
            vs.len() == n,
            i <= n,
            out@ == seq!['['] + tools_json_items(vs.take(i as int)),
        decreases n - i,
    {
        if i > 0 {
            out.push(',');
        }
        append_tool_json(&mut out, &tools[i]);
        proof {
            assert(vs.take(i as int + 1).drop_last() =~= vs.take(i as int));
            assert(vs.take(i as int + 1).last() == vs[i as int]);
            assert(out@ =~= seq!['['] + tools_json_items(vs.take(i as int + 1)));
        }
        i = i + 1;
    }
    proof {
        assert(vs.take(n as int) =~= vs);
    }
    out.push(']');
    assert(out@ =~= tools_json(vs));
    out
}

/// Build the chat-completion request body for a model, a conversation and
/// the optionally offered tools.
pub fn build_chat_request_body(
    model: &str,
    messages: &Vec<ChatMessage>,
    tools: Option<&Vec<ToolDefinition>>,
) -> (r: String)
    ensures
        tools is None ==> r@ == chat_request_json(model@, msgs_view(messages@), None),
        tools matches Some(ts) ==> r@ == chat_request_json(
            model@,
            msgs_view(messages@),
            Some(tools_view(ts@)),
        ),
{
    let mut out = "{\"model\":".to_owned();
    append_json_string(&mut out, model);
    out.append(",\"messages\":");
    let ms = serialize_messages(messages);
    out.append(ms.as_str());
    match tools {
        None => {},
        Some(ts) => {
            out.append(",\"tools\":");
            let tj = tools_json_of(ts);
            out.append(tj.as_str());
        },
    }
    out.append("}");
    proof {
        if tools is Some {
            assert(out@ =~= chat_request_json(
                model@,
                msgs_view(messages@),
                Some(tools_view(tools->0@)),
            ));
        } else {
            assert(out@ =~= chat_request_json(model@, msgs_view(messages@), None));
        }
    }
    out
}

/// The endpoint with its trailing slashes removed.
pub open spec fn trimmed_endpoint(s: Seq<char>) -> Seq<char>
    decreases s.len(),
{
    if s.len() > 0 && s.last() == '/' {
        trimmed_endpoint(s.drop_last())
    } else {
        s
    }
}

/// Remove the trailing slashes of an endpoint URL.
pub fn trim_trailing_slashes(s: &str) -> (r: String)
    ensures
        r@ == trimmed_endpoint(s@),
{
    let n = s.unicode_len();
    let mut end: usize = n;
    proof {
        assert(s@.take(n as int) =~= s@);
    }
    while end > 0 && s.get_char(end - 1) == '/'
        invariant
            n == s@.len(),
            end <= n,
            trimmed_endpoint(s@) == trimmed_endpoint(s@.take(end as int)),
        decreases end,
    {
        proof {
            assert(s@.take(end as int).drop_last() =~= s@.take(end as int - 1));
        }
        end = end - 1;
    }
    proof {
        assert(s@.take(n as int) =~= s@);
    }
    let kept = s.substring_char(0, end);
    kept.to_owned()
}

/// The models-list URL of an endpoint.
pub open spec fn models_url_spec(endpoint: Seq<char>) -> Seq<char> {
    trimmed_endpoint(endpoint) + "/v1/models"@
}

/// The URL of the models listing under an endpoint.
pub fn models_url(endpoint: &str) -> (r: String)
    ensures
        r@ == models_url_spec(endpoint@),
{
    let mut out = trim_trailing_slashes(endpoint);
    out.append("/v1/models");
    out
}

/// The chat-completions URL of an endpoint.
pub open spec fn chat_completions_url_spec(endpoint: Seq<char>) -> Seq<char> {
    trimmed_endpoint(endpoint) + "/v1/chat/completions"@
}

/// The URL of the chat-completion call under an endpoint.
pub fn chat_completions_url(endpoint: &str) -> (r: String)
    ensures
        r@ == chat_completions_url_spec(endpoint@),
{
    let mut out = trim_trailing_slashes(endpoint);
    out.append("/v1/chat/completions");
    out
}

/// A prepared HTTP request: where to send it, the bearer key to attach
/// when non-empty, and the body.
#[derive(Debug, Clone)]
pub struct ChatRequest {
    pub url: String,
    pub api_key: String,
    pub body: String,
}

/// Prepare a chat-completion request: fail fast when AI is disabled, else
/// give the URL, key and the exact body to send.
pub fn prepare_chat_request(
    settings: &AISettings,
    model: &str,
    messages: &Vec<ChatMessage>,
    tools: Option<&Vec<ToolDefinition>>,
) -> (r: Result<ChatRequest, AgentError>)
    ensures
        !settings.enabled ==> (r matches Err(e) && e is AiDisabled),
        settings.enabled ==> (r matches Ok(req) && {
            &&& req.url@ == chat_completions_url_spec(settings.endpoint_url@)
            &&& req.api_key@ == settings.api_key@
            &&& tools is None ==> req.body@ == chat_request_json(
                model@,
                msgs_view(messages@),
                None,
            )
            &&& tools matches Some(ts) ==> req.body@ == chat_request_json(
                model@,
                msgs_view(messages@),
                Some(tools_view(ts@)),
            )
        }),
{
    if !settings.enabled {
        return Err(AgentError::AiDisabled);
    }
    let url = chat_completions_url(settings.endpoint_url.as_str());
    let body = build_chat_request_body(model, messages, tools);
    Ok(ChatRequest { url, api_key: settings.api_key.clone(), body })
}

/// Prepare a models-list request: fail fast when AI is disabled, else
/// give the URL and key; the fetch itself, like every HTTP round trip,
/// happens outside the library.
pub fn prepare_models_request(settings: &AISettings) -> (r: Result<ChatRequest, AgentError>)
    ensures
        !settings.enabled ==> (r matches Err(e) && e is AiDisabled),
        settings.enabled ==> (r matches Ok(req) && {
            &&& req.url@ == models_url_spec(settings.endpoint_url@)
            &&& req.api_key@ == settings.api_key@
            &&& req.body@ == Seq::<char>::empty()
        }),
{
    if !settings.enabled {
        return Err(AgentError::AiDisabled);
    }
    let url = models_url(settings.endpoint_url.as_str());
    Ok(ChatRequest { url, api_key: settings.api_key.clone(), body: String::new() })
}

} // verus!

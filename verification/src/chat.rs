//! Chat gateway data: conversation messages, content blocks, tool results,
//! and assembly of one chat completion request.
//!
//! The embedding application performs the HTTP POST; this module fixes
//! what the request must contain and how HTTP failures are reported.

use vstd::prelude::*;

verus! {

broadcast use vstd::string::group_string_axioms;

/// One unit of an assistant turn: free text, or a structured request to
/// invoke a tool. `input` holds the JSON text of the tool arguments.
#[derive(Debug)]
pub enum ContentBlock {
    Text { text: String },
    ToolUse { id: String, name: String, input: String },
}

/// The mathematical content of a content block.
#[verifier::ext_equal]
pub enum BlockV {
    Text { text: Seq<char> },
    ToolUse { id: Seq<char>, name: Seq<char>, input: Seq<char> },
}

impl View for ContentBlock {
    type V = BlockV;

    open spec fn view(&self) -> BlockV {
        match self {
            ContentBlock::Text { text } => BlockV::Text { text: text@ },
            ContentBlock::ToolUse { id, name, input } => BlockV::ToolUse {
                id: id@,
                name: name@,
                input: input@,
            },
        }
    }
}

/// The result of one tool call, fed back into the conversation. A result
/// with `is_error` false is serialized without an error marker.
#[derive(Debug)]
pub struct ToolResult {
    pub tool_use_id: String,
    pub content: String,
    pub is_error: bool,
}

/// The mathematical content of a tool result.
#[verifier::ext_equal]
pub struct ToolResultV {
    pub tool_use_id: Seq<char>,
    pub content: Seq<char>,
    pub is_error: bool,
}

impl View for ToolResult {
    type V = ToolResultV;

    open spec fn view(&self) -> ToolResultV {
        ToolResultV {
            tool_use_id: self.tool_use_id@,
            content: self.content@,
            is_error: self.is_error,
        }
    }
}

/// The content of one conversation message: plain text, assistant content
/// blocks, or tool results.
#[derive(Debug)]
pub enum MessageContent {
    Text(String),
    Blocks(Vec<ContentBlock>),
    Results(Vec<ToolResult>),
}

/// The mathematical content of a message body.
#[verifier::ext_equal]
pub enum MsgContentV {
    Text(Seq<char>),
    Blocks(Seq<BlockV>),
    Results(Seq<ToolResultV>),
}

/// The views of a block sequence.
pub open spec fn blocks_view(v: Seq<ContentBlock>) -> Seq<BlockV> {
    v.map_values(|b: ContentBlock| b@)
}

/// The views of a tool-result sequence.
pub open spec fn results_view(v: Seq<ToolResult>) -> Seq<ToolResultV> {
    v.map_values(|t: ToolResult| t@)
}

impl View for MessageContent {
    type V = MsgContentV;

    open spec fn view(&self) -> MsgContentV {
        match self {
            MessageContent::Text(t) => MsgContentV::Text(t@),
            MessageContent::Blocks(b) => MsgContentV::Blocks(blocks_view(b@)),
            MessageContent::Results(r) => MsgContentV::Results(results_view(r@)),
        }
    }
}

/// One conversation message.
#[derive(Debug)]
pub struct ChatMessage {
    pub role: String,
    pub content: MessageContent,
}

/// The mathematical content of a conversation message.
#[verifier::ext_equal]
pub struct MsgV {
    pub role: Seq<char>,
    pub content: MsgContentV,
}

impl View for ChatMessage {
    type V = MsgV;

    open spec fn view(&self) -> MsgV {
        MsgV { role: self.role@, content: self.content@ }
    }
}

/// The views of a message sequence.
pub open spec fn messages_view(v: Seq<ChatMessage>) -> Seq<MsgV> {
    v.map_values(|m: ChatMessage| m@)
}

/// Copy a content block.
pub fn clone_block(b: &ContentBlock) -> (r: ContentBlock)
    ensures
        r == *b,
{
    match b {
        ContentBlock::Text { text } => ContentBlock::Text { text: text.clone() },
        ContentBlock::ToolUse { id, name, input } => ContentBlock::ToolUse {
            id: id.clone(),
            name: name.clone(),
            input: input.clone(),
        },
    }
}

/// Copy a block sequence.
pub fn clone_blocks(v: &Vec<ContentBlock>) -> (r: Vec<ContentBlock>)
    ensures
        r@ == v@,
{
    let mut out: Vec<ContentBlock> = Vec::new();
    let mut i: usize = 0;
    while i < v.len()
        invariant
            0 <= i <= v@.len(),
            out@ =~= v@.take(i as int),
        decreases v@.len() - i,
    {
        out.push(clone_block(&v[i]));
        proof {
            assert(out@ =~= v@.take(i as int + 1));
        }
        i += 1;
    }
    proof {
        assert(v@.take(v@.len() as int) =~= v@);
    }
    out
}

/// Copy a tool result.
pub fn clone_result(t: &ToolResult) -> (r: ToolResult)
    ensures
        r == *t,
{
    ToolResult {
        tool_use_id: t.tool_use_id.clone(),
        content: t.content.clone(),
        is_error: t.is_error,
    }
}

/// Copy a tool-result sequence.
pub fn clone_results(v: &Vec<ToolResult>) -> (r: Vec<ToolResult>)
    ensures
        r@ == v@,
{
    let mut out: Vec<ToolResult> = Vec::new();
    let mut i: usize = 0;
    while i < v.len()
        invariant
            0 <= i <= v@.len(),
            out@ =~= v@.take(i as int),
        decreases v@.len() - i,
    {
        out.push(clone_result(&v[i]));
        proof {
            assert(out@ =~= v@.take(i as int + 1));
        }
        i += 1;
    }
    proof {
        assert(v@.take(v@.len() as int) =~= v@);
    }
    out
}

/// Copy a conversation message.
pub fn clone_message(m: &ChatMessage) -> (r: ChatMessage)
    ensures
        r@ == m@,
{
    let content = match &m.content {
        MessageContent::Text(t) => MessageContent::Text(t.clone()),
        MessageContent::Blocks(b) => MessageContent::Blocks(clone_blocks(b)),
        MessageContent::Results(rs) => MessageContent::Results(clone_results(rs)),
    };
    ChatMessage { role: m.role.clone(), content }
}

/// Copy a conversation; the copy carries the same messages.
pub fn clone_messages(v: &Vec<ChatMessage>) -> (r: Vec<ChatMessage>)
    ensures
        messages_view(r@) == messages_view(v@),
{
    let mut out: Vec<ChatMessage> = Vec::new();
    let mut i: usize = 0;
    while i < v.len()
        invariant
            0 <= i <= v@.len(),
            out@.len() == i,
            forall|k: int| 0 <= k < i ==> (#[trigger] out@[k])@ == v@[k]@,
        decreases v@.len() - i,
    {
        out.push(clone_message(&v[i]));
        i += 1;
    }
    proof {
        assert(messages_view(out@) =~= messages_view(v@));
    }
    out
}

/// The body of one chat completion request. `system` is present only when
/// a system prompt was given; `tools` only when a non-empty tool list was
/// given.
#[derive(Debug)]
pub struct ChatBody {
    pub model: String,
    pub messages: Vec<ChatMessage>,
    pub max_tokens: u32,
    pub system: Option<String>,
    pub tools: Option<Vec<String>>,
}

/// One assembled chat completion request: where to send it, with which
/// headers, and what.
#[derive(Debug)]
pub struct ChatRequest {
    pub endpoint: String,
    pub headers: Vec<(String, String)>,
    pub body: ChatBody,
}

/// Assemble a chat completion request for the given provider
/// configuration: the provider's chat endpoint, a JSON content-type header
/// followed by the provider's headers, and a body holding the model,
/// messages and token bound, plus the system prompt when given and the
/// tool list when non-empty.
pub fn build_chat_request(
    config: &crate::providers::ActiveProviderConfig,
    resolved_model: &str,
    messages: &Vec<ChatMessage>,
    system: &Option<String>,
    max_tokens: u32,
    tools: &Option<Vec<String>>,
) -> (r: ChatRequest)
    ensures
        r.endpoint@ == crate::providers::ProviderConfig::spec_endpoint(config),
        r.headers.deep_view() == seq![("content-type"@, "application/json"@)]
            + crate::providers::ProviderConfig::spec_headers(config),
        r.body.model@ == resolved_model@,
        messages_view(r.body.messages@) == messages_view(messages@),
        r.body.max_tokens == max_tokens,
        r.body.system == *system,
        match tools {
            None => r.body.tools is None,
            Some(t) => if t@.len() == 0 {
                r.body.tools is None
            } else {
                r.body.tools matches Some(x) && x@ == t@
            },
        },
{
    let endpoint = crate::providers::ProviderConfig::get_endpoint(config);
    let provider_headers = crate::providers::ProviderConfig::get_headers(config);
    let mut headers: Vec<(String, String)> = Vec::new();
    headers.push((String::from_str("content-type"), String::from_str("application/json")));
    let mut j: usize = 0;
    while j < provider_headers.len()
        invariant
            0 <= j <= provider_headers@.len(),
            headers@.len() == 1 + j,
            headers@[0].0@ == "content-type"@ && headers@[0].1@ == "application/json"@,
            forall|k: int|
                1 <= k < 1 + j ==> (#[trigger] headers@[k]).0@ == provider_headers@[k - 1].0@
                    && headers@[k].1@ == provider_headers@[k - 1].1@,
        decreases provider_headers@.len() - j,
    {
        headers.push((provider_headers[j].0.clone(), provider_headers[j].1.clone()));
        j += 1;
    }
    proof {
        let hs = headers.deep_view();
        let ps = provider_headers.deep_view();
        let expected = seq![("content-type"@, "application/json"@)] + ps;
        assert forall|k: int| 0 <= k < hs.len() implies hs[k] == expected[k] by {
            assert(hs[k] == headers@[k].deep_view());
            if k > 0 {
                assert(ps[k - 1] == provider_headers@[k - 1].deep_view());
            }
        }
        assert(hs =~= expected);
    }
    let system_copy: Option<String> = match system {
        Some(s) => Some(s.clone()),
        None => None,
    };
    let tools_copy: Option<Vec<String>> = match tools {
        Some(t) => {
            if t.len() == 0 {
                None
            } else {
                let mut out: Vec<String> = Vec::new();
                let mut i: usize = 0;
                while i < t.len()
                    invariant
                        0 <= i <= t@.len(),
                        out@ =~= t@.take(i as int),
                    decreases t@.len() - i,
                {
                    out.push(t[i].clone());
                    proof {
                        assert(out@ =~= t@.take(i as int + 1));
                    }
                    i += 1;
                }
                proof {
                    assert(t@.take(t@.len() as int) =~= t@);
                }
                Some(out)
            }
        },
        None => None,
    };
    ChatRequest {
        endpoint,
        headers,
        body: ChatBody {
            model: String::from_str(resolved_model),
            messages: clone_messages(messages),
            max_tokens,
            system: system_copy,
            tools: tools_copy,
        },
    }
}

/// The message reported when a connection test fails with the given HTTP
/// status: the common statuses get a human-readable cause, any other a
/// generic status-coded message. `status_display` is the status line as
/// the HTTP client renders it.
pub fn connection_error_message(status: u16, status_display: &str, body: &str) -> (r: String)
    ensures
        status == 401 ==> r@ == "Authentication failed. Check your API key."@,
        status == 403 ==> r@ == "Access denied. Your API key may lack the required permissions."@,
        status == 404 ==> r@ == "Endpoint not found. Check the base URL for your provider."@,
        status != 401 && status != 403 && status != 404 ==> r@ == "API returned an error (HTTP "@
            + status_display@ + "): "@ + body@,
{
    if status == 401 {
        String::from_str("Authentication failed. Check your API key.")
    } else if status == 403 {
        String::from_str("Access denied. Your API key may lack the required permissions.")
    } else if status == 404 {
        String::from_str("Endpoint not found. Check the base URL for your provider.")
    } else {
        let mut m = String::from_str("API returned an error (HTTP ");
        m.append(status_display);
        m.append("): ");
        m.append(body);
        proof {
            assert(m@ =~= "API returned an error (HTTP "@ + status_display@ + "): "@ + body@);
        }
        m
    }
}

/// The error reported when a chat completion request fails with a
/// non-success HTTP status.
pub fn api_error_message(status_display: &str, body: &str) -> (r: String)
    ensures
        r@ == "API error ("@ + status_display@ + "): "@ + body@,
{
    let mut m = String::from_str("API error (");
    m.append(status_display);
    m.append("): ");
    m.append(body);
    proof {
        assert(m@ =~= "API error ("@ + status_display@ + "): "@ + body@);
    }
    m
}

/// The error reported when a model-list request fails with a non-success
/// HTTP status.
pub fn models_api_error_message(status_display: &str, body: &str) -> (r: String)
    ensures
        r@ == "Models API error ("@ + status_display@ + "): "@ + body@,
{
    let mut m = String::from_str("Models API error (");
    m.append(status_display);
    m.append("): ");
    m.append(body);
    proof {
        assert(m@ =~= "Models API error ("@ + status_display@ + "): "@ + body@);
    }
    m
}

} // verus!

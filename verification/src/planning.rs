//! The AI planning workflow: response parsing, the planning agent's
//! configuration, and the bounded multi-turn tool-use state machine.
//!
//! One planning run is a state machine driven by the embedding
//! application: each call of [`PlanRun::step`] consumes the outcome of the
//! previous outside action (an event emission, a chat completion call, or
//! a subtask insertion) and decides the next action. All decisions — stop
//! reasons, tool-call validation, iteration bounds, progress reporting,
//! and the deterministic fallback plan — are made here.

use crate::chat::{
    blocks_view, clone_blocks, clone_messages, clone_results, BlockV, ChatMessage, ContentBlock,
    MessageContent, MsgContentV, MsgV, ToolResult, ToolResultV,
};
use crate::domain::{agents_view, clone_agents, Agent, AgentV};
use crate::numfmt::{dec_digits, dec_int, fmt_i32, fmt_i64, fmt_u64};
use vstd::prelude::*;

verus! {

broadcast use vstd::string::group_string_axioms;

// ---------------------------------------------------------------------------
// Model responses
// ---------------------------------------------------------------------------
/// Token accounting reported by the provider.
#[derive(Debug)]
pub struct Usage {
    pub input_tokens: u32,
    pub output_tokens: u32,
}

/// One parsed model response: its content blocks, why generation stopped,
/// and optional token accounting.
#[derive(Debug)]
pub struct ClaudeResponse {
    pub content: Vec<ContentBlock>,
    pub stop_reason: String,
    pub usage: Option<Usage>,
}

/// The mathematical content of a model response.
#[verifier::ext_equal]
pub struct ReplyV {
    pub content: Seq<BlockV>,
    pub stop_reason: Seq<char>,
    pub usage: Option<(u32, u32)>,
}

/// The token accounting of a response as a plain pair.
pub open spec fn usage_view(u: Option<Usage>) -> Option<(u32, u32)> {
    match u {
        Some(x) => Some((x.input_tokens, x.output_tokens)),
        None => None,
    }
}

impl View for ClaudeResponse {
    type V = ReplyV;

    open spec fn view(&self) -> ReplyV {
        ReplyV {
            content: blocks_view(self.content@),
            stop_reason: self.stop_reason@,
            usage: usage_view(self.usage),
        }
    }
}

/// What the response envelope holds: the stop reason, the JSON text of
/// each content block in order, and the token accounting — or the text of
/// the parse error.
pub uninterp spec fn reply_envelope_of(s: Seq<char>) -> Result<
    (Seq<char>, Seq<Seq<char>>, Option<(u32, u32)>),
    Seq<char>,
>;

/// Relies on serde_json::from_str and the Value accessors: the stop
/// reason, content-block texts and usage counters of a chat response
/// document depend on the text alone.
#[verifier::external_body]
fn parse_reply_envelope(s: &str) -> (r: Result<(String, Vec<String>, Option<Usage>), String>)
    ensures
        r is Ok <==> reply_envelope_of(s@) is Ok,
        r matches Ok(t) ==> (reply_envelope_of(s@) matches Ok(v) && t.0@ == v.0 && t.1.deep_view()
            == v.1 && usage_view(t.2) == v.2),
        r matches Err(e) ==> (reply_envelope_of(s@) matches Err(v) && e@ == v),
{
    let v: serde_json::Value = serde_json::from_str(s).map_err(|e| e.to_string())?;
    let stop = v.get("stop_reason").and_then(serde_json::Value::as_str).ok_or("missing stop_reason")?;
    let arr = v.get("content").and_then(serde_json::Value::as_array).ok_or("missing content")?;
    let usage = v.get("usage").and_then(|u| {
        let (i, o) = (u.get("input_tokens")?.as_u64()?, u.get("output_tokens")?.as_u64()?);
        Some(Usage { input_tokens: i as u32, output_tokens: o as u32 })
    });
    Ok((stop.to_string(), arr.iter().map(|b| b.to_string()).collect(), usage))
}

/// What one content-block document holds, or the text of the error that
/// rejects it.
pub uninterp spec fn block_of(s: Seq<char>) -> Result<BlockV, Seq<char>>;

/// Relies on serde_json::from_str and the Value accessors: the kind and
/// fields of a content-block document depend on the text alone.
#[verifier::external_body]
fn parse_block(s: &str) -> (r: Result<ContentBlock, String>)
    ensures
        r is Ok <==> block_of(s@) is Ok,
        r matches Ok(b) ==> (block_of(s@) matches Ok(v) && b@ == v),
        r matches Err(e) ==> (block_of(s@) matches Err(v) && e@ == v),
{
    let v: serde_json::Value = serde_json::from_str(s).map_err(|e| e.to_string())?;
    let text_at = |k: &str| v.get(k).and_then(serde_json::Value::as_str).map(str::to_string).ok_or(format!("missing {}", k));
    match v.get("type").and_then(serde_json::Value::as_str) {
        Some("text") => Ok(ContentBlock::Text { text: text_at("text")? }),
        Some("tool_use") => Ok(ContentBlock::ToolUse {
            id: text_at("id")?,
            name: text_at("name")?,
            input: v.get("input").unwrap_or(&serde_json::Value::Null).to_string(),
        }),
        _ => Err("unknown content block type".to_string()),
    }
}

/// The error of the first content block that does not parse, if any.
pub open spec fn first_block_error(blocks: Seq<Seq<char>>) -> Option<Seq<char>>
    decreases blocks.len(),
{
    if blocks.len() == 0 {
        None
    } else {
        match block_of(blocks.first()) {
            Err(e) => Some(e),
            Ok(_) => first_block_error(blocks.drop_first()),
        }
    }
}

/// What parsing a whole chat response yields: the response when the
/// envelope and every block parse, otherwise the first error.
pub open spec fn parsed_reply_of(s: Seq<char>) -> Result<ReplyV, Seq<char>> {
    match reply_envelope_of(s) {
        Err(e) => Err(e),
        Ok((stop, blocks, usage)) => match first_block_error(blocks) {
            Some(e) => Err(e),
            None => Ok(
                ReplyV {
                    content: blocks.map_values(|b: Seq<char>| block_of(b)->Ok_0),
                    stop_reason: stop,
                    usage,
                },
            ),
        },
    }
}

/// Parse the text of a chat response into its stop reason and content
/// blocks.
pub fn parse_agent_reply(s: &str) -> (r: Result<ClaudeResponse, String>)
    ensures
        r is Ok <==> parsed_reply_of(s@) is Ok,
        r matches Ok(resp) ==> (parsed_reply_of(s@) matches Ok(v) && resp@ == v),
        r matches Err(e) ==> (parsed_reply_of(s@) matches Err(v) && e@ == v),
{
    let (stop, block_texts, usage) = match parse_reply_envelope(s) {
        Ok(t) => t,
        Err(e) => {
            return Err(e);
        },
    };
    let ghost texts = block_texts.deep_view();
    proof {
        assert(texts.skip(0) =~= texts);
    }
    let mut content: Vec<ContentBlock> = Vec::new();
    let mut i: usize = 0;
    while i < block_texts.len()
        invariant
            reply_envelope_of(s@) is Ok,
            texts == reply_envelope_of(s@)->Ok_0.1,
            block_texts.deep_view() == texts,
            block_texts@.len() == texts.len(),
            0 <= i <= texts.len(),
            content@.len() == i,
            forall|k: int| 0 <= k < i ==> block_of(texts[k]) is Ok,
            forall|k: int|
                0 <= k < i ==> (#[trigger] content@[k])@ == block_of(texts[k])->Ok_0,
            first_block_error(texts.skip(i as int)) == first_block_error(texts),
        decreases texts.len() - i,
    {
        proof {
            assert(block_texts@[i as int].deep_view() == texts[i as int]);
            assert(texts.skip(i as int).first() == texts[i as int]);
            assert(texts.skip(i as int).drop_first() =~= texts.skip(i as int + 1));
        }
        match parse_block(block_texts[i].as_str()) {
            Ok(b) => {
                content.push(b);
            },
            Err(e) => {
                proof {
                    assert(first_block_error(texts.skip(i as int)) == Some(e@));
                    assert(reply_envelope_of(s@) is Ok);
                    assert(texts == reply_envelope_of(s@)->Ok_0.1);
                    assert(first_block_error(texts) == Some(e@));
                    assert(parsed_reply_of(s@) == Err::<ReplyV, Seq<char>>(e@));
                }
                return Err(e);
            },
        }
        i += 1;
    }
    proof {
        assert(texts.skip(texts.len() as int) =~= Seq::<Seq<char>>::empty());
        assert(first_block_error(texts) is None);
    }
    let resp = ClaudeResponse { content, stop_reason: stop, usage };
    proof {
        let expected = texts.map_values(|b: Seq<char>| block_of(b)->Ok_0);
        assert(blocks_view(resp.content@) =~= expected);
        assert(resp@ =~~= parsed_reply_of(s@)->Ok_0);
    }
    Ok(resp)
}

/// What the `title`, `description` and `agent_id` fields of a tool-input
/// document hold, where present with the expected type.
pub uninterp spec fn tool_args_of(s: Seq<char>) -> (
    Option<Seq<char>>,
    Option<Seq<char>>,
    Option<i64>,
);

/// Relies on serde_json::from_str and the Value accessors: the `title`,
/// `description` and `agent_id` fields of a tool input depend on its text
/// alone.
#[verifier::external_body]
fn parse_tool_args(s: &str) -> (r: (Option<String>, Option<String>, Option<i64>))
    ensures
        r.0.deep_view() == tool_args_of(s@).0,
        r.1.deep_view() == tool_args_of(s@).1,
        r.2 == tool_args_of(s@).2,
{
    let v: serde_json::Value = serde_json::from_str(s).unwrap_or(serde_json::Value::Null);
    (
        v.get("title").and_then(serde_json::Value::as_str).map(str::to_string),
        v.get("description").and_then(serde_json::Value::as_str).map(str::to_string),
        v.get("agent_id").and_then(serde_json::Value::as_i64),
    )
}

// ---------------------------------------------------------------------------
// The planning agent
// ---------------------------------------------------------------------------
/// The terminal summary of one planning run.
#[derive(Debug)]
pub struct PlanningResult {
    pub success: bool,
    pub subtasks_created: i32,
    pub message: String,
}

/// The mathematical content of a planning result.
#[verifier::ext_equal]
pub struct PlanningResultV {
    pub success: bool,
    pub subtasks_created: i32,
    pub message: Seq<char>,
}

impl View for PlanningResult {
    type V = PlanningResultV;

    open spec fn view(&self) -> PlanningResultV {
        PlanningResultV {
            success: self.success,
            subtasks_created: self.subtasks_created,
            message: self.message@,
        }
    }
}

/// One agent row as the storage layer hands it over: a `None` field could
/// not be read.
#[derive(Debug)]
pub struct AgentRow {
    pub id: Option<i32>,
    pub name: Option<String>,
    pub model_name: Option<String>,
    pub agent_prompt: Option<String>,
}

/// The worker agent a row yields: unreadable fields fall back to defaults
/// rather than failing the load.
pub open spec fn agent_of_row(row: AgentRow) -> AgentV {
    AgentV {
        id: match row.id {
            Some(v) => v,
            None => 0,
        },
        name: match row.name {
            Some(n) => n@,
            None => "Unknown"@,
        },
        model_name: match row.model_name {
            Some(m) => m@,
            None => "unknown"@,
        },
        agent_prompt: match row.agent_prompt {
            Some(p) => p@,
            None => Seq::empty(),
        },
        system_role: None,
    }
}

/// The planning orchestrator: the designated planning agent's prompt and
/// model, the task under planning, and the candidate worker pool.
#[derive(Debug)]
pub struct PlanningAgent {
    pub task_id: i32,
    pub agent_prompt: String,
    pub model_name: String,
    pub available_agents: Vec<Agent>,
}

/// One worker agent's entry in the selection context shown to the model.
pub open spec fn agent_entry(a: AgentV) -> Seq<char> {
    "**Agent ID "@ + dec_int(a.id as int) + ": "@ + a.name + " (Model: "@ + a.model_name
        + ")**\n"@ + a.agent_prompt + "\n"@
}

/// The selection context: every worker agent's entry, joined by blank
/// lines.
pub open spec fn agents_context(agents: Seq<AgentV>) -> Seq<char>
    decreases agents.len(),
{
    if agents.len() == 0 {
        Seq::empty()
    } else if agents.len() == 1 {
        agent_entry(agents[0])
    } else {
        agents_context(agents.drop_last()) + "\n\n"@ + agent_entry(agents.last())
    }
}

/// The description shown for a task without one.
pub open spec fn task_desc_text(d: Option<Seq<char>>) -> Seq<char> {
    match d {
        Some(t) => t,
        None => "No description provided"@,
    }
}

/// The system prompt of a planning run: the planning agent's own prompt,
/// the task, the worker-agent context, and the instructions.
pub open spec fn system_prompt_of(
    prompt: Seq<char>,
    task_id: i32,
    title: Seq<char>,
    desc: Option<Seq<char>>,
    agents: Seq<AgentV>,
) -> Seq<char> {
    prompt + "\n\n## Current Planning Task\n\n**Task ID**: "@ + dec_int(task_id as int)
        + "\n**Title**: "@ + title + "\n**Description**: "@ + task_desc_text(desc)
        + "\n\n## Available Agents for Assignment\n\n"@ + agents_context(agents)
        + "\n\n## Instructions\n\nAnalyze the task and create appropriate subtasks using the create_subtask tool. Each subtask should have a clear title, detailed description, and be assigned to the most suitable agent based on their capabilities."@
}

/// The JSON schema of the one supported tool.
pub open spec fn tool_schema_text() -> Seq<char> {
    "{\"name\":\"create_subtask\",\"description\":\"Create a new subtask for the task being planned\",\"input_schema\":{\"type\":\"object\",\"properties\":{\"task_id\":{\"type\":\"number\",\"description\":\"The ID of the parent task (will be auto-filled)\"},\"title\":{\"type\":\"string\",\"description\":\"Clear, action-oriented title for the subtask\"},\"description\":{\"type\":\"string\",\"description\":\"Detailed description of subtask scope, deliverables, and expectations\"},\"agent_id\":{\"type\":\"number\",\"description\":\"ID of the agent best suited for this subtask\"}},\"required\":[\"task_id\",\"title\",\"description\",\"agent_id\"]}}"@
}

/// The schema of the one supported tool, as JSON text.
fn tool_schema_string() -> (r: String)
    ensures
        r@ == tool_schema_text(),
{
    String::from_str(
        "{\"name\":\"create_subtask\",\"description\":\"Create a new subtask for the task being planned\",\"input_schema\":{\"type\":\"object\",\"properties\":{\"task_id\":{\"type\":\"number\",\"description\":\"The ID of the parent task (will be auto-filled)\"},\"title\":{\"type\":\"string\",\"description\":\"Clear, action-oriented title for the subtask\"},\"description\":{\"type\":\"string\",\"description\":\"Detailed description of subtask scope, deliverables, and expectations\"},\"agent_id\":{\"type\":\"number\",\"description\":\"ID of the agent best suited for this subtask\"}},\"required\":[\"task_id\",\"title\",\"description\",\"agent_id\"]}}",
    )
}

impl PlanningAgent {
    /// Load the planning orchestrator: the designated planning-agent row
    /// gives the prompt and model; the remaining rows give the worker
    /// pool, with per-field defaults for unreadable values.
    pub fn new(task_id: i32, planning_row: Option<AgentRow>, agent_rows: Vec<AgentRow>) -> (r:
        Result<PlanningAgent, String>)
        ensures
            planning_row is None ==> (r matches Err(m) && m@
                == "Planning agent not found in database. Please ensure a planning agent exists with system_role = 'planning'."@),
            planning_row matches Some(row) ==> match (row.agent_prompt, row.model_name) {
                (None, _) => r matches Err(m) && m@ == "Failed to get agent_prompt"@,
                (Some(_), None) => r matches Err(m) && m@ == "Failed to get model_name"@,
                (Some(p), Some(mn)) => r matches Ok(a) && a.task_id == task_id && a.agent_prompt@
                    == p@ && a.model_name@ == mn@ && agents_view(a.available_agents@)
                    == agent_rows@.map_values(|w: AgentRow| agent_of_row(w)),
            },
    {
        let row = match planning_row {
            Some(row) => row,
            None => {
                return Err(
                    String::from_str(
                        "Planning agent not found in database. Please ensure a planning agent exists with system_role = 'planning'.",
                    ),
                );
            },
        };
        let agent_prompt = match row.agent_prompt {
            Some(p) => p,
            None => {
                return Err(String::from_str("Failed to get agent_prompt"));
            },
        };
        let model_name = match row.model_name {
            Some(m) => m,
            None => {
                return Err(String::from_str("Failed to get model_name"));
            },
        };
        let mut available_agents: Vec<Agent> = Vec::new();
        let mut i: usize = 0;
        while i < agent_rows.len()
            invariant
                0 <= i <= agent_rows@.len(),
                available_agents@.len() == i,
                forall|k: int|
                    0 <= k < i ==> (#[trigger] available_agents@[k])@ == agent_of_row(
                        agent_rows@[k],
                    ),
            decreases agent_rows@.len() - i,
        {
            let w = &agent_rows[i];
            let agent = Agent {
                id: match w.id {
                    Some(v) => v,
                    None => 0,
                },
                name: match &w.name {
                    Some(n) => n.clone(),
                    None => String::from_str("Unknown"),
                },
                model_name: match &w.model_name {
                    Some(m) => m.clone(),
                    None => String::from_str("unknown"),
                },
                agent_prompt: match &w.agent_prompt {
                    Some(p) => p.clone(),
                    None => String::new(),
                },
                system_role: None,
            };
            available_agents.push(agent);
            i += 1;
        }
        proof {
            assert(agents_view(available_agents@) =~= agent_rows@.map_values(
                |w: AgentRow| agent_of_row(w),
            ));
        }
        Ok(PlanningAgent { task_id, agent_prompt, model_name, available_agents })
    }

    /// The schema of the one supported tool, as JSON text.
    pub fn get_tool_schemas(&self) -> (r: Vec<String>)
        ensures
            r@.len() == 1,
            r@[0]@ == tool_schema_text(),
    {
        let mut v: Vec<String> = Vec::new();
        v.push(tool_schema_string());
        v
    }

    /// The worker-agent selection context.
    fn build_agents_context(&self) -> (r: String)
        ensures
            r@ == agents_context(agents_view(self.available_agents@)),
    {
        let agents = &self.available_agents;
        let mut acc = String::new();
        let mut i: usize = 0;
        while i < agents.len()
            invariant
                0 <= i <= agents@.len(),
                acc@ == agents_context(agents_view(agents@).take(i as int)),
            decreases agents@.len() - i,
        {
            if i > 0 {
                acc.append("\n\n");
            }
            let a = &agents[i];
            acc.append("**Agent ID ");
            let id_text = fmt_i32(a.id);
            acc.append(id_text.as_str());
            acc.append(": ");
            acc.append(a.name.as_str());
            acc.append(" (Model: ");
            acc.append(a.model_name.as_str());
            acc.append(")**\n");
            acc.append(a.agent_prompt.as_str());
            acc.append("\n");
            proof {
                let av = agents_view(agents@);
                assert(av.take(i as int + 1).drop_last() =~= av.take(i as int));
                assert(av.take(i as int + 1).last() == av[i as int]);
                assert(av[i as int] == agents@[i as int]@);
                assert(acc@ =~= agents_context(av.take(i as int + 1)));
            }
            i += 1;
        }
        proof {
            assert(agents_view(agents@).take(agents@.len() as int) =~= agents_view(agents@));
        }
        acc
    }

    /// Build the system prompt for one planning run.
    pub fn build_system_prompt(&self, task_title: &str, task_description: &Option<String>) -> (r:
        String)
        ensures
            r@ == system_prompt_of(
                self.agent_prompt@,
                self.task_id,
                task_title@,
                task_description.deep_view(),
                agents_view(self.available_agents@),
            ),
    {
        let context = self.build_agents_context();
        let mut p = self.agent_prompt.clone();
        p.append("\n\n## Current Planning Task\n\n**Task ID**: ");
        let id_text = fmt_i32(self.task_id);
        p.append(id_text.as_str());
        p.append("\n**Title**: ");
        p.append(task_title);
        p.append("\n**Description**: ");
        match task_description {
            Some(d) => p.append(d.as_str()),
            None => p.append("No description provided"),
        }
        p.append("\n\n## Available Agents for Assignment\n\n");
        p.append(context.as_str());
        p.append(
            "\n\n## Instructions\n\nAnalyze the task and create appropriate subtasks using the create_subtask tool. Each subtask should have a clear title, detailed description, and be assigned to the most suitable agent based on their capabilities.",
        );
        proof {
            assert(p@ =~= system_prompt_of(
                self.agent_prompt@,
                self.task_id,
                task_title@,
                task_description.deep_view(),
                agents_view(self.available_agents@),
            ));
        }
        p
    }
}

// ---------------------------------------------------------------------------
// The planning run state machine: types and views
// ---------------------------------------------------------------------------
/// One tool-use request extracted from an assistant turn.
#[derive(Debug)]
pub struct ToolCall {
    pub id: String,
    pub name: String,
    pub input: String,
}

/// The mathematical content of a tool call.
#[verifier::ext_equal]
pub struct ToolCallV {
    pub id: Seq<char>,
    pub name: Seq<char>,
    pub input: Seq<char>,
}

impl View for ToolCall {
    type V = ToolCallV;

    open spec fn view(&self) -> ToolCallV {
        ToolCallV { id: self.id@, name: self.name@, input: self.input@ }
    }
}

/// The views of a tool-call sequence.
pub open spec fn calls_view(v: Seq<ToolCall>) -> Seq<ToolCallV> {
    v.map_values(|c: ToolCall| c@)
}

/// One progress event for the observing UI. `progress_permille` is the
/// progress in thousandths, always within 0..=1000.
#[derive(Debug)]
pub struct ProgressEvent {
    pub task_id: i32,
    pub status: String,
    pub message: String,
    pub progress_permille: u32,
    pub current_step: Option<String>,
}

/// The mathematical content of a progress event.
#[verifier::ext_equal]
pub struct ProgressEventV {
    pub task_id: i32,
    pub status: Seq<char>,
    pub message: Seq<char>,
    pub progress_permille: u32,
    pub current_step: Option<Seq<char>>,
}

impl View for ProgressEvent {
    type V = ProgressEventV;

    open spec fn view(&self) -> ProgressEventV {
        ProgressEventV {
            task_id: self.task_id,
            status: self.status@,
            message: self.message@,
            progress_permille: self.progress_permille,
            current_step: self.current_step.deep_view(),
        }
    }
}

/// Where a planning run stands: which outside action it awaits the
/// outcome of, or that it has ended.
#[derive(Clone, Copy)]
pub enum PlanPhase {
    /// Not yet begun.
    Start,
    /// The initialization event is being emitted.
    AwaitInitEmit,
    /// The analysis event is being emitted.
    AwaitAnalysisEmit,
    /// A chat completion call is in flight.
    AwaitChat,
    /// A subtask insertion is in flight.
    AwaitInsert,
    /// The per-subtask progress event is being emitted.
    AwaitCreatedEmit,
    /// The finalizing event is being emitted.
    AwaitFinalEmit,
    /// The fallback notice is being emitted.
    AwaitFallbackEmit,
    /// A fallback subtask insertion is in flight.
    AwaitFallbackInsert,
    /// The per-fallback-subtask progress event is being emitted.
    AwaitFallbackCreatedEmit,
    /// Ended successfully.
    Done,
    /// Ended in failure.
    Failed,
}

/// The outcome of the outside action a planning run waited for.
#[derive(Debug)]
pub enum PlanEvent {
    /// Start the run.
    Begin,
    /// The pending progress event was delivered.
    EmitOk,
    /// The pending progress event could not be delivered.
    EmitFailed(String),
    /// The chat completion call returned this body text.
    ChatOk(String),
    /// The chat completion call failed.
    ChatFailed(String),
    /// The pending subtask insertion succeeded.
    InsertOk,
    /// The pending subtask insertion failed.
    InsertFailed(String),
}

/// The mathematical content of an event.
#[verifier::ext_equal]
pub enum EventV {
    Begin,
    EmitOk,
    EmitFailed(Seq<char>),
    ChatOk(Seq<char>),
    ChatFailed(Seq<char>),
    InsertOk,
    InsertFailed(Seq<char>),
}

impl View for PlanEvent {
    type V = EventV;

    open spec fn view(&self) -> EventV {
        match self {
            PlanEvent::Begin => EventV::Begin,
            PlanEvent::EmitOk => EventV::EmitOk,
            PlanEvent::EmitFailed(m) => EventV::EmitFailed(m@),
            PlanEvent::ChatOk(t) => EventV::ChatOk(t@),
            PlanEvent::ChatFailed(m) => EventV::ChatFailed(m@),
            PlanEvent::InsertOk => EventV::InsertOk,
            PlanEvent::InsertFailed(m) => EventV::InsertFailed(m@),
        }
    }
}

/// The next outside action a planning run asks for.
#[derive(Debug)]
pub enum PlanAction {
    /// Emit this progress event, then report the outcome.
    Emit(ProgressEvent),
    /// Send this chat completion request, then report the outcome.
    CallChat {
        model: String,
        messages: Vec<ChatMessage>,
        system_prompt: String,
        max_tokens: u32,
        tools: Vec<String>,
    },
    /// Insert this subtask row, then report the outcome.
    InsertSubtask { task_id: i32, title: String, description: String, agent_id: i32 },
    /// The run ended with this result.
    Finish(PlanningResult),
    /// The run ended with this error.
    Fail(String),
}

/// The mathematical content of an action.
#[verifier::ext_equal]
pub enum ActionV {
    Emit(ProgressEventV),
    CallChat {
        model: Seq<char>,
        messages: Seq<MsgV>,
        system_prompt: Seq<char>,
        max_tokens: u32,
        tools: Seq<Seq<char>>,
    },
    InsertSubtask { task_id: i32, title: Seq<char>, description: Seq<char>, agent_id: i32 },
    Finish(PlanningResultV),
    Fail(Seq<char>),
}

impl View for PlanAction {
    type V = ActionV;

    open spec fn view(&self) -> ActionV {
        match self {
            PlanAction::Emit(e) => ActionV::Emit(e@),
            PlanAction::CallChat { model, messages, system_prompt, max_tokens, tools } => {
                ActionV::CallChat {
                    model: model@,
                    messages: crate::chat::messages_view(messages@),
                    system_prompt: system_prompt@,
                    max_tokens: *max_tokens,
                    tools: tools@.map_values(|t: String| t@),
                }
            },
            PlanAction::InsertSubtask { task_id, title, description, agent_id } => {
                ActionV::InsertSubtask {
                    task_id: *task_id,
                    title: title@,
                    description: description@,
                    agent_id: *agent_id,
                }
            },
            PlanAction::Finish(r) => ActionV::Finish(r@),
            PlanAction::Fail(m) => ActionV::Fail(m@),
        }
    }
}

/// The mathematical state of one planning run.
#[verifier::ext_equal]
pub struct RunV {
    pub task_id: i32,
    pub model_name: Seq<char>,
    pub system_prompt: Seq<char>,
    pub agents: Seq<AgentV>,
    pub fallback_enabled: bool,
    pub phase: PlanPhase,
    pub conversation: Seq<MsgV>,
    pub iterations: u32,
    pub created: u64,
    pub fb_created: u64,
    pub fb_index: int,
    pub turn_blocks: Seq<BlockV>,
    pub turn_calls: Seq<ToolCallV>,
    pub turn_idx: int,
    pub turn_results: Seq<ToolResultV>,
    pub cur_title: Seq<char>,
    pub last_error: Option<Seq<char>>,
    pub outcome: Option<Result<PlanningResultV, Seq<char>>>,
}

// ---------------------------------------------------------------------------
// The transition function
// ---------------------------------------------------------------------------
/// The tool-use requests of an assistant turn, in order of appearance.
pub open spec fn extract_calls(blocks: Seq<BlockV>) -> Seq<ToolCallV>
    decreases blocks.len(),
{
    if blocks.len() == 0 {
        Seq::empty()
    } else {
        let rest = extract_calls(blocks.drop_last());
        match blocks.last() {
            BlockV::ToolUse { id, name, input } => rest.push(ToolCallV { id, name, input }),
            BlockV::Text { .. } => rest,
        }
    }
}

/// The id of the first pool agent matching a requested id, if any.
pub open spec fn find_agent(agents: Seq<AgentV>, id: i64) -> Option<i32>
    decreases agents.len(),
{
    if agents.len() == 0 {
        None
    } else if agents[0].id as int == id as int {
        Some(agents[0].id)
    } else {
        find_agent(agents.drop_first(), id)
    }
}

/// The initialization progress event.
pub open spec fn init_event(task_id: i32) -> ProgressEventV {
    ProgressEventV {
        task_id,
        status: "analyzing"@,
        message: "Initializing AI planning agent..."@,
        progress_permille: 100,
        current_step: Some("Initialization"@),
    }
}

/// The analysis progress event.
pub open spec fn analysis_event(task_id: i32) -> ProgressEventV {
    ProgressEventV {
        task_id,
        status: "planning"@,
        message: "AI agent analyzing task..."@,
        progress_permille: 200,
        current_step: Some("Analysis"@),
    }
}

/// The finalizing progress event.
pub open spec fn finalizing_event(task_id: i32) -> ProgressEventV {
    ProgressEventV {
        task_id,
        status: "finalizing"@,
        message: "Planning complete, generating summary..."@,
        progress_permille: 900,
        current_step: Some("Finalization"@),
    }
}

/// The fallback-notice progress event.
pub open spec fn fallback_event(task_id: i32) -> ProgressEventV {
    ProgressEventV {
        task_id,
        status: "fallback"@,
        message: "AI planning unavailable, using fallback..."@,
        progress_permille: 300,
        current_step: Some("Fallback"@),
    }
}

/// The progress after `n` subtasks: scaled from 20% towards 80% in steps
/// of a fifth of the span, capped at 80%, in thousandths.
pub open spec fn created_progress(n: u64) -> u32 {
    if n >= 5 {
        800
    } else {
        (200 + 120 * n) as u32
    }
}

/// The per-subtask progress event of the AI path.
pub open spec fn created_event(task_id: i32, n: u64) -> ProgressEventV {
    ProgressEventV {
        task_id,
        status: "creating"@,
        message: "Created subtask "@ + dec_digits(n as int) + " of estimated 3-7..."@,
        progress_permille: created_progress(n),
        current_step: Some("Subtask Creation"@),
    }
}

/// The progress after `n` fallback subtasks: scaled from 30% to 80% over
/// the three steps, in thousandths, rounded down.
pub open spec fn fb_progress(n: u64) -> u32 {
    if n >= 3 {
        800
    } else {
        (300 + (500 * n) / 3) as u32
    }
}

/// The per-subtask progress event of the fallback path.
pub open spec fn fb_created_event(task_id: i32, n: u64) -> ProgressEventV {
    ProgressEventV {
        task_id,
        status: "fallback_creating"@,
        message: "Fallback: Created subtask "@ + dec_digits(n as int) + "/3"@,
        progress_permille: fb_progress(n),
        current_step: Some("Fallback Planning"@),
    }
}

/// The message wrapping an event-delivery failure.
pub open spec fn emit_failed_msg(e: Seq<char>) -> Seq<char> {
    "Failed to emit progress: "@ + e
}

/// The title of one fallback plan step.
pub open spec fn fb_title(i: int) -> Seq<char> {
    if i == 0 {
        "Research and plan approach"@
    } else if i == 1 {
        "Execute primary deliverables"@
    } else {
        "Review and finalize output"@
    }
}

/// The description of one fallback plan step.
pub open spec fn fb_desc(i: int) -> Seq<char> {
    if i == 0 {
        "Gather requirements, research best practices, and develop a comprehensive execution plan"@
    } else if i == 1 {
        "Complete the main task deliverables according to the researched plan and requirements"@
    } else {
        "Quality check, refinements, and final validation of deliverables"@
    }
}

/// The run count clamped into an `i32` for the result summary.
pub open spec fn created_i32(n: u64) -> i32 {
    if n <= i32::MAX as u64 {
        n as i32
    } else {
        i32::MAX
    }
}

/// What an AI-path failure leads to: the fallback notice when fallback is
/// enabled, the terminal failure otherwise.
pub open spec fn fail_path(s: RunV, e: Seq<char>) -> (RunV, ActionV) {
    if s.fallback_enabled {
        (
            RunV { phase: PlanPhase::AwaitFallbackEmit, last_error: Some(e), ..s },
            ActionV::Emit(fallback_event(s.task_id)),
        )
    } else {
        (
            RunV { phase: PlanPhase::Failed, last_error: Some(e), outcome: Some(Err(e)), ..s },
            ActionV::Fail(e),
        )
    }
}

/// What a failure beyond recovery leads to: the terminal failure.
pub open spec fn hard_fail(s: RunV, e: Seq<char>) -> (RunV, ActionV) {
    (
        RunV { phase: PlanPhase::Failed, last_error: Some(e), outcome: Some(Err(e)), ..s },
        ActionV::Fail(e),
    )
}

/// Guard and issue the next chat round-trip: at most twenty per run; the
/// twenty-first attempt fails the AI path.
pub open spec fn chat_guard(s: RunV) -> (RunV, ActionV) {
    if s.iterations >= 20 {
        fail_path(s, "Planning exceeded maximum iterations (20)"@)
    } else {
        (
            RunV { iterations: (s.iterations + 1) as u32, phase: PlanPhase::AwaitChat, ..s },
            ActionV::CallChat {
                model: s.model_name,
                messages: s.conversation,
                system_prompt: s.system_prompt,
                max_tokens: 4096,
                tools: seq![tool_schema_text()],
            },
        )
    }
}

/// Record the result of the current tool call and move to the next one.
pub open spec fn push_result(s: RunV, id: Seq<char>, content: Seq<char>, is_error: bool) -> RunV {
    RunV {
        turn_results: s.turn_results.push(
            ToolResultV { tool_use_id: id, content, is_error },
        ),
        turn_idx: s.turn_idx + 1,
        ..s
    }
}

/// Close the turn: append the assistant's blocks and the collected tool
/// results to the conversation, in order, then go for the next
/// round-trip.
pub open spec fn wrap_turn(s: RunV) -> (RunV, ActionV) {
    chat_guard(
        RunV {
            conversation: s.conversation + seq![
                MsgV { role: "assistant"@, content: MsgContentV::Blocks(s.turn_blocks) },
                MsgV { role: "user"@, content: MsgContentV::Results(s.turn_results) },
            ],
            turn_blocks: Seq::empty(),
            turn_calls: Seq::empty(),
            turn_idx: 0,
            turn_results: Seq::empty(),
            cur_title: Seq::empty(),
            ..s
        },
    )
}

/// Work through the turn's tool calls from the current one on: tool calls
/// that fail validation get error results at once; the first valid
/// `create_subtask` call asks for an insertion; when none remain the turn
/// is closed.
pub open spec fn drain(s: RunV) -> (RunV, ActionV)
    decreases s.turn_calls.len() - s.turn_idx
        when 0 <= s.turn_idx <= s.turn_calls.len()
{
    if s.turn_idx >= s.turn_calls.len() {
        wrap_turn(s)
    } else {
        let c = s.turn_calls[s.turn_idx];
        if c.name != "create_subtask"@ {
            drain(push_result(s, c.id, "Unknown tool: "@ + c.name, true))
        } else {
            let args = tool_args_of(c.input);
            if args.0 is None {
                drain(push_result(s, c.id, "Tool execution error: Missing title"@, true))
            } else if args.1 is None {
                drain(push_result(s, c.id, "Tool execution error: Missing description"@, true))
            } else if args.2 is None {
                drain(push_result(s, c.id, "Tool execution error: Missing agent_id"@, true))
            } else {
                match find_agent(s.agents, args.2.unwrap()) {
                    None => drain(
                        push_result(
                            s,
                            c.id,
                            "Tool execution error: Invalid agent_id: "@ + dec_int(
                                args.2.unwrap() as int,
                            ),
                            true,
                        ),
                    ),
                    Some(aid) => (
                        RunV { phase: PlanPhase::AwaitInsert, cur_title: args.0.unwrap(), ..s },
                        ActionV::InsertSubtask {
                            task_id: s.task_id,
                            title: args.0.unwrap(),
                            description: args.1.unwrap(),
                            agent_id: aid,
                        },
                    ),
                }
            }
        }
    }
}

/// What a chat response leads to: a parse failure or an unexpected stop
/// reason fails the AI path; `end_turn` finishes it; `tool_use` starts
/// working through the turn's tool calls.
pub open spec fn on_chat_ok(s: RunV, text: Seq<char>) -> (RunV, ActionV) {
    match parsed_reply_of(text) {
        Err(e) => fail_path(s, "Failed to parse model response: "@ + e),
        Ok(reply) => if reply.stop_reason == "end_turn"@ {
            (
                RunV { phase: PlanPhase::AwaitFinalEmit, ..s },
                ActionV::Emit(finalizing_event(s.task_id)),
            )
        } else if reply.stop_reason != "tool_use"@ {
            fail_path(s, "Unexpected stop reason: "@ + reply.stop_reason)
        } else {
            let calls = extract_calls(reply.content);
            if calls.len() == 0 {
                fail_path(s, "Agent requested tool_use but provided no tool calls"@)
            } else {
                drain(
                    RunV {
                        turn_blocks: reply.content,
                        turn_calls: calls,
                        turn_idx: 0,
                        turn_results: Seq::empty(),
                        ..s
                    },
                )
            }
        },
    }
}

/// What a successful insertion leads to: count it and report progress.
pub open spec fn on_insert_ok(s: RunV) -> (RunV, ActionV) {
    let n = if s.created == u64::MAX {
        s.created
    } else {
        (s.created + 1) as u64
    };
    (
        RunV { created: n, phase: PlanPhase::AwaitCreatedEmit, ..s },
        ActionV::Emit(created_event(s.task_id, n)),
    )
}

/// What the per-subtask progress emission leads to: record the success
/// result and move on.
pub open spec fn on_created_emit_ok(s: RunV) -> (RunV, ActionV) {
    let c = s.turn_calls[s.turn_idx];
    drain(
        push_result(s, c.id, "Successfully created subtask: '"@ + s.cur_title + "'"@, false),
    )
}

/// What a failed insertion leads to: an error result for this tool call
/// only; the run continues.
pub open spec fn on_insert_failed(s: RunV, e: Seq<char>) -> (RunV, ActionV) {
    let c = s.turn_calls[s.turn_idx];
    drain(
        push_result(
            s,
            c.id,
            "Tool execution error: Failed to create subtask: "@ + e,
            true,
        ),
    )
}

/// What the finalizing emission leads to: the successful result.
pub open spec fn on_final_emit_ok(s: RunV) -> (RunV, ActionV) {
    let res = PlanningResultV {
        success: true,
        subtasks_created: created_i32(s.created),
        message: "Successfully created "@ + dec_digits(s.created as int)
            + " subtasks using AI planning agent"@,
    };
    (
        RunV { phase: PlanPhase::Done, outcome: Some(Ok(res)), ..s },
        ActionV::Finish(res),
    )
}

/// Ask for fallback step `i`: round-robin over the worker pool; an empty
/// pool ends the run.
pub open spec fn fb_step(s: RunV, i: int) -> (RunV, ActionV) {
    if s.agents.len() == 0 {
        hard_fail(s, "No agents available for fallback planning"@)
    } else {
        let agent = s.agents[i % s.agents.len() as int];
        (
            RunV { phase: PlanPhase::AwaitFallbackInsert, fb_index: i, ..s },
            ActionV::InsertSubtask {
                task_id: s.task_id,
                title: fb_title(i),
                description: fb_desc(i),
                agent_id: agent.id,
            },
        )
    }
}

/// What a successful fallback insertion leads to: count it and report
/// progress.
pub open spec fn on_fb_insert_ok(s: RunV) -> (RunV, ActionV) {
    let n = if s.fb_created == u64::MAX {
        s.fb_created
    } else {
        (s.fb_created + 1) as u64
    };
    (
        RunV { fb_created: n, phase: PlanPhase::AwaitFallbackCreatedEmit, ..s },
        ActionV::Emit(fb_created_event(s.task_id, n)),
    )
}

/// What the per-fallback-subtask emission leads to: the next step, or the
/// fallback result after the third.
pub open spec fn on_fb_created_emit_ok(s: RunV) -> (RunV, ActionV) {
    if s.fb_index + 1 < 3 {
        fb_step(s, s.fb_index + 1)
    } else {
        let res = PlanningResultV {
            success: true,
            subtasks_created: created_i32(s.fb_created),
            message: "Created "@ + dec_digits(s.fb_created as int)
                + " subtasks using fallback planning (AI agent unavailable)"@,
        };
        (
            RunV { phase: PlanPhase::Done, outcome: Some(Ok(res)), ..s },
            ActionV::Finish(res),
        )
    }
}

/// The transition of one planning run: from the current state and the
/// outcome of the last action to the next state and action.
pub open spec fn step_spec(s: RunV, e: EventV) -> (RunV, ActionV) {
    match (s.phase, e) {
        (PlanPhase::Start, EventV::Begin) => (
            RunV { phase: PlanPhase::AwaitInitEmit, ..s },
            ActionV::Emit(init_event(s.task_id)),
        ),
        (PlanPhase::AwaitInitEmit, EventV::EmitOk) => (
            RunV { phase: PlanPhase::AwaitAnalysisEmit, ..s },
            ActionV::Emit(analysis_event(s.task_id)),
        ),
        (PlanPhase::AwaitInitEmit, EventV::EmitFailed(m)) => fail_path(s, emit_failed_msg(m)),
        (PlanPhase::AwaitAnalysisEmit, EventV::EmitOk) => chat_guard(s),
        (PlanPhase::AwaitAnalysisEmit, EventV::EmitFailed(m)) => fail_path(s, emit_failed_msg(m)),
        (PlanPhase::AwaitChat, EventV::ChatOk(text)) => on_chat_ok(s, text),
        (PlanPhase::AwaitChat, EventV::ChatFailed(m)) => fail_path(s, m),
        (PlanPhase::AwaitInsert, EventV::InsertOk) => on_insert_ok(s),
        (PlanPhase::AwaitInsert, EventV::InsertFailed(m)) => on_insert_failed(s, m),
        (PlanPhase::AwaitCreatedEmit, EventV::EmitOk) => on_created_emit_ok(s),
        (PlanPhase::AwaitCreatedEmit, EventV::EmitFailed(m)) => fail_path(s, emit_failed_msg(m)),
        (PlanPhase::AwaitFinalEmit, EventV::EmitOk) => on_final_emit_ok(s),
        (PlanPhase::AwaitFinalEmit, EventV::EmitFailed(m)) => fail_path(s, emit_failed_msg(m)),
        (PlanPhase::AwaitFallbackEmit, EventV::EmitOk) => fb_step(s, 0),
        (PlanPhase::AwaitFallbackEmit, EventV::EmitFailed(m)) => hard_fail(
            s,
            emit_failed_msg(m),
        ),
        (PlanPhase::AwaitFallbackInsert, EventV::InsertOk) => on_fb_insert_ok(s),
        (PlanPhase::AwaitFallbackInsert, EventV::InsertFailed(m)) => hard_fail(
            s,
            "Failed to create subtask: "@ + m,
        ),
        (PlanPhase::AwaitFallbackCreatedEmit, EventV::EmitOk) => on_fb_created_emit_ok(s),
        (PlanPhase::AwaitFallbackCreatedEmit, EventV::EmitFailed(m)) => hard_fail(
            s,
            emit_failed_msg(m),
        ),
        _ => (s, ActionV::Fail(Seq::empty())),
    }
}

/// The well-formedness of a run state: the turn bookkeeping is aligned
/// (one result per processed call, matching ids, calls drawn from the
/// turn's blocks), the round-trip count is within its bound, and the
/// fallback bookkeeping is within its three steps.
pub open spec fn wf_run(s: RunV) -> bool {
    &&& 0 <= s.turn_idx <= s.turn_calls.len()
    &&& s.turn_results.len() == s.turn_idx
    &&& forall|j: int|
        0 <= j < s.turn_results.len() ==> (#[trigger] s.turn_results[j]).tool_use_id
            == s.turn_calls[j].id
    &&& s.turn_calls == extract_calls(s.turn_blocks)
    &&& s.iterations <= 20
    &&& (s.phase is AwaitInsert ==> s.turn_idx < s.turn_calls.len())
    &&& (s.phase is AwaitCreatedEmit ==> s.turn_idx < s.turn_calls.len())
    &&& (s.phase is AwaitFallbackInsert ==> 0 <= s.fb_index < 3 && s.agents.len() > 0
        && s.fb_created == s.fb_index)
    &&& (s.phase is AwaitFallbackCreatedEmit ==> 0 <= s.fb_index < 3 && s.agents.len() > 0
        && s.fb_created == s.fb_index + 1)
    &&& (!(s.phase is AwaitFallbackInsert) && !(s.phase is AwaitFallbackCreatedEmit) && !(
    s.phase is Done) && !(s.phase is Failed) ==> s.fb_created == 0)
    &&& (s.phase is Done ==> (s.outcome matches Some(o) && o is Ok))
    &&& (s.phase is Failed ==> (s.outcome matches Some(o) && o is Err))
    &&& (!(s.phase is Done) && !(s.phase is Failed) ==> s.outcome is None)
}

/// Which events a state can take.
pub open spec fn expects(s: RunV, e: EventV) -> bool {
    match s.phase {
        PlanPhase::Start => e is Begin,
        PlanPhase::AwaitInitEmit
        | PlanPhase::AwaitAnalysisEmit
        | PlanPhase::AwaitCreatedEmit
        | PlanPhase::AwaitFinalEmit
        | PlanPhase::AwaitFallbackEmit
        | PlanPhase::AwaitFallbackCreatedEmit => e is EmitOk || e is EmitFailed,
        PlanPhase::AwaitChat => e is ChatOk || e is ChatFailed,
        PlanPhase::AwaitInsert | PlanPhase::AwaitFallbackInsert => e is InsertOk
            || e is InsertFailed,
        PlanPhase::Done | PlanPhase::Failed => false,
    }
}

// ---------------------------------------------------------------------------
// The executable planning run
// ---------------------------------------------------------------------------
/// One planning run in progress. The embedding application drives it: it
/// performs each returned action and reports the outcome through the next
/// [`PlanRun::step`] call.
pub struct PlanRun {
    task_id: i32,
    model_name: String,
    system_prompt: String,
    agents: Vec<Agent>,
    fallback_enabled: bool,
    phase: PlanPhase,
    conversation: Vec<ChatMessage>,
    iterations: u32,
    created: u64,
    fb_created: u64,
    fb_index: usize,
    turn_blocks: Vec<ContentBlock>,
    turn_calls: Vec<ToolCall>,
    turn_idx: usize,
    turn_results: Vec<ToolResult>,
    cur_title: String,
    last_error: Option<String>,
    outcome_ok: Option<PlanningResult>,
    outcome_err: Option<String>,
}

impl View for PlanRun {
    type V = RunV;

    closed spec fn view(&self) -> RunV {
        RunV {
            task_id: self.task_id,
            model_name: self.model_name@,
            system_prompt: self.system_prompt@,
            agents: agents_view(self.agents@),
            fallback_enabled: self.fallback_enabled,
            phase: self.phase,
            conversation: crate::chat::messages_view(self.conversation@),
            iterations: self.iterations,
            created: self.created,
            fb_created: self.fb_created,
            fb_index: self.fb_index as int,
            turn_blocks: blocks_view(self.turn_blocks@),
            turn_calls: calls_view(self.turn_calls@),
            turn_idx: self.turn_idx as int,
            turn_results: crate::chat::results_view(self.turn_results@),
            cur_title: self.cur_title@,
            last_error: self.last_error.deep_view(),
            outcome: match (&self.outcome_ok, &self.outcome_err) {
                (Some(r), _) => Some(Ok(r@)),
                (None, Some(e)) => Some(Err(e@)),
                (None, None) => None,
            },
        }
    }
}

/// The tool-use requests of a block list, in order.
fn extract_calls_exec(blocks: &Vec<ContentBlock>) -> (r: Vec<ToolCall>)
    ensures
        calls_view(r@) == extract_calls(blocks_view(blocks@)),
{
    let mut out: Vec<ToolCall> = Vec::new();
    let mut i: usize = 0;
    while i < blocks.len()
        invariant
            0 <= i <= blocks@.len(),
            calls_view(out@) == extract_calls(blocks_view(blocks@).take(i as int)),
        decreases blocks@.len() - i,
    {
        proof {
            let bv = blocks_view(blocks@);
            assert(bv.take(i as int + 1).drop_last() =~= bv.take(i as int));
            assert(bv.take(i as int + 1).last() == bv[i as int]);
            assert(bv[i as int] == blocks@[i as int]@);
        }
        match &blocks[i] {
            ContentBlock::ToolUse { id, name, input } => {
                out.push(ToolCall { id: id.clone(), name: name.clone(), input: input.clone() });
                proof {
                    assert(calls_view(out@) =~= extract_calls(
                        blocks_view(blocks@).take(i as int + 1),
                    ));
                }
            },
            ContentBlock::Text { .. } => {
                proof {
                    assert(calls_view(out@) =~= extract_calls(
                        blocks_view(blocks@).take(i as int + 1),
                    ));
                }
            },
        }
        i += 1;
    }
    proof {
        assert(blocks_view(blocks@).take(blocks@.len() as int) =~= blocks_view(blocks@));
    }
    out
}

/// The id of the first pool agent matching a requested id, if any.
fn find_agent_exec(agents: &Vec<Agent>, id: i64) -> (r: Option<i32>)
    ensures
        r == find_agent(agents_view(agents@), id),
{
    proof {
        assert(agents_view(agents@).skip(0) =~= agents_view(agents@));
    }
    let mut i: usize = 0;
    while i < agents.len()
        invariant
            0 <= i <= agents@.len(),
            find_agent(agents_view(agents@).skip(i as int), id) == find_agent(
                agents_view(agents@),
                id,
            ),
        decreases agents@.len() - i,
    {
        proof {
            assert(agents_view(agents@).skip(i as int).drop_first() =~= agents_view(
                agents@,
            ).skip(i as int + 1));
            assert(agents_view(agents@).skip(i as int)[0] == agents@[i as int]@);
        }
        if agents[i].id as i64 == id {
            return Some(agents[i].id);
        }
        i += 1;
    }
    proof {
        assert(agents_view(agents@).skip(agents@.len() as int) =~= Seq::<AgentV>::empty());
    }
    None
}

impl PlanRun {
    /// The parent task of this run.
    pub fn task_id(&self) -> (r: i32)
        ensures
            r == self@.task_id,
    {
        self.task_id
    }

    /// Whether the run has ended, successfully or not.
    pub fn is_over(&self) -> (r: bool)
        ensures
            r == (self@.phase is Done || self@.phase is Failed),
    {
        match self.phase {
            PlanPhase::Done => true,
            PlanPhase::Failed => true,
            _ => false,
        }
    }

    /// The error of the AI path, kept for logging when the fallback path
    /// takes over.
    pub fn last_error(&self) -> (r: &Option<String>)
        ensures
            r.deep_view() == self@.last_error,
    {
        &self.last_error
    }

    fn do_fail_path(&mut self, e: String) -> (r: PlanAction)
        requires
            old(self)@.outcome is None,
        ensures
            final(self)@ == fail_path(old(self)@, e@).0,
            r@ == fail_path(old(self)@, e@).1,
    {
        if self.fallback_enabled {
            self.phase = PlanPhase::AwaitFallbackEmit;
            self.last_error = Some(e);
            let ev = ProgressEvent {
                task_id: self.task_id,
                status: String::from_str("fallback"),
                message: String::from_str("AI planning unavailable, using fallback..."),
                progress_permille: 300,
                current_step: Some(String::from_str("Fallback")),
            };
            let r = PlanAction::Emit(ev);
            proof {
                assert(self@ =~~= fail_path(old(self)@, e@).0);
                assert(r@ =~~= fail_path(old(self)@, e@).1);
            }
            r
        } else {
            self.phase = PlanPhase::Failed;
            self.last_error = Some(e.clone());
            self.outcome_err = Some(e.clone());
            let r = PlanAction::Fail(e);
            proof {
                assert(self@ =~~= fail_path(old(self)@, e@).0);
                assert(r@ =~~= fail_path(old(self)@, e@).1);
            }
            r
        }
    }

    fn do_hard_fail(&mut self, e: String) -> (r: PlanAction)
        requires
            old(self)@.outcome is None,
        ensures
            final(self)@ == hard_fail(old(self)@, e@).0,
            r@ == hard_fail(old(self)@, e@).1,
    {
        self.phase = PlanPhase::Failed;
        self.last_error = Some(e.clone());
        self.outcome_err = Some(e.clone());
        let r = PlanAction::Fail(e);
        proof {
            assert(self@ =~~= hard_fail(old(self)@, e@).0);
            assert(r@ =~~= hard_fail(old(self)@, e@).1);
        }
        r
    }

    fn do_chat_guard(&mut self) -> (r: PlanAction)
        requires
            old(self)@.outcome is None,
        ensures
            final(self)@ == chat_guard(old(self)@).0,
            r@ == chat_guard(old(self)@).1,
    {
        if self.iterations >= 20 {
            self.do_fail_path(String::from_str("Planning exceeded maximum iterations (20)"))
        } else {
            self.iterations = self.iterations + 1;
            self.phase = PlanPhase::AwaitChat;
            let mut tools: Vec<String> = Vec::new();
            tools.push(tool_schema_string());
            let r = PlanAction::CallChat {
                model: self.model_name.clone(),
                messages: clone_messages(&self.conversation),
                system_prompt: self.system_prompt.clone(),
                max_tokens: 4096,
                tools,
            };
            proof {
                assert(self@ =~~= chat_guard(old(self)@).0);
                assert(r@ =~~= chat_guard(old(self)@).1);
            }
            r
        }
    }

    fn exec_push_result(&mut self, id: String, content: String, is_error: bool)
        requires
            old(self)@.turn_idx < old(self)@.turn_calls.len(),
        ensures
            final(self)@ == push_result(old(self)@, id@, content@, is_error),
    {
        self.turn_results.push(ToolResult { tool_use_id: id, content, is_error });
        let n = self.turn_calls.len();
        proof {
            assert(old(self)@.turn_calls.len() == n as int);
        }
        self.turn_idx = self.turn_idx + 1;
        proof {
            assert(crate::chat::results_view(self.turn_results@) =~= old(
                self,
            )@.turn_results.push(
                ToolResultV { tool_use_id: id@, content: content@, is_error },
            ));
            assert(self@ =~~= push_result(old(self)@, id@, content@, is_error));
        }
    }

    fn do_wrap_turn(&mut self) -> (r: PlanAction)
        requires
            old(self)@.outcome is None,
        ensures
            final(self)@ == wrap_turn(old(self)@).0,
            r@ == wrap_turn(old(self)@).1,
    {
        let blocks = clone_blocks(&self.turn_blocks);
        let results = clone_results(&self.turn_results);
        self.conversation.push(
            ChatMessage {
                role: String::from_str("assistant"),
                content: MessageContent::Blocks(blocks),
            },
        );
        self.conversation.push(
            ChatMessage { role: String::from_str("user"), content: MessageContent::Results(results) },
        );
        self.turn_blocks = Vec::new();
        self.turn_calls = Vec::new();
        self.turn_idx = 0;
        self.turn_results = Vec::new();
        self.cur_title = String::new();
        proof {
            let inner = RunV {
                conversation: old(self)@.conversation + seq![
                    MsgV {
                        role: "assistant"@,
                        content: MsgContentV::Blocks(old(self)@.turn_blocks),
                    },
                    MsgV { role: "user"@, content: MsgContentV::Results(old(self)@.turn_results) },
                ],
                turn_blocks: Seq::empty(),
                turn_calls: Seq::empty(),
                turn_idx: 0,
                turn_results: Seq::empty(),
                cur_title: Seq::empty(),
                ..old(self)@
            };
            assert(crate::chat::messages_view(self.conversation@) =~= inner.conversation);
            assert(blocks_view(self.turn_blocks@) =~= Seq::<BlockV>::empty());
            assert(calls_view(self.turn_calls@) =~= Seq::<ToolCallV>::empty());
            assert(crate::chat::results_view(self.turn_results@) =~= Seq::<ToolResultV>::empty());
            assert(self@ =~~= inner);
        }
        self.do_chat_guard()
    }

    fn do_drain(&mut self) -> (r: PlanAction)
        requires
            0 <= old(self)@.turn_idx <= old(self)@.turn_calls.len(),
            old(self)@.outcome is None,
        ensures
            final(self)@ == drain(old(self)@).0,
            r@ == drain(old(self)@).1,
    {
        while self.turn_idx < self.turn_calls.len()
            invariant
                0 <= self@.turn_idx <= self@.turn_calls.len(),
                self@.outcome is None,
                drain(self@) == drain(old(self)@),
            decreases self@.turn_calls.len() - self@.turn_idx,
        {
            let ghost s_iter = self@;
            let i = self.turn_idx;
            let is_create = self.turn_calls[i].name == String::from_str("create_subtask");
            if !is_create {
                let id = self.turn_calls[i].id.clone();
                let mut content = String::from_str("Unknown tool: ");
                content.append(self.turn_calls[i].name.as_str());
                self.exec_push_result(id, content, true);
                proof {
                    assert(drain(self@) == drain(s_iter));
                }
            } else {
                let (title_opt, desc_opt, agent_opt) = parse_tool_args(
                    self.turn_calls[i].input.as_str(),
                );
                match (title_opt, desc_opt, agent_opt) {
                    (None, _, _) => {
                        let id = self.turn_calls[i].id.clone();
                        self.exec_push_result(
                            id,
                            String::from_str("Tool execution error: Missing title"),
                            true,
                        );
                        proof {
                            assert(drain(self@) == drain(s_iter));
                        }
                    },
                    (Some(_), None, _) => {
                        let id = self.turn_calls[i].id.clone();
                        self.exec_push_result(
                            id,
                            String::from_str("Tool execution error: Missing description"),
                            true,
                        );
                        proof {
                            assert(drain(self@) == drain(s_iter));
                        }
                    },
                    (Some(_), Some(_), None) => {
                        let id = self.turn_calls[i].id.clone();
                        self.exec_push_result(
                            id,
                            String::from_str("Tool execution error: Missing agent_id"),
                            true,
                        );
                        proof {
                            assert(drain(self@) == drain(s_iter));
                        }
                    },
                    (Some(title), Some(desc), Some(agent_id)) => {
                        match find_agent_exec(&self.agents, agent_id) {
                            None => {
                                let id = self.turn_calls[i].id.clone();
                                let mut content = String::from_str(
                                    "Tool execution error: Invalid agent_id: ",
                                );
                                let id_text = fmt_i64(agent_id);
                                content.append(id_text.as_str());
                                self.exec_push_result(id, content, true);
                                proof {
                                    assert(drain(self@) == drain(s_iter));
                                }
                            },
                            Some(aid) => {
                                self.phase = PlanPhase::AwaitInsert;
                                self.cur_title = title.clone();
                                let r = PlanAction::InsertSubtask {
                                    task_id: self.task_id,
                                    title,
                                    description: desc,
                                    agent_id: aid,
                                };
                                proof {
                                    assert(self@ =~~= drain(s_iter).0);
                                    assert(r@ =~~= drain(s_iter).1);
                                }
                                return r;
                            },
                        }
                    },
                }
            }
        }
        proof {
            assert(drain(self@) == wrap_turn(self@));
        }
        self.do_wrap_turn()
    }

    fn do_on_chat_ok(&mut self, text: String) -> (r: PlanAction)
        requires
            old(self)@.outcome is None,
        ensures
            final(self)@ == on_chat_ok(old(self)@, text@).0,
            r@ == on_chat_ok(old(self)@, text@).1,
    {
        match parse_agent_reply(text.as_str()) {
            Err(e) => {
                let mut m = String::from_str("Failed to parse model response: ");
                m.append(e.as_str());
                proof {
                    assert(m@ =~= "Failed to parse model response: "@ + e@);
                }
                self.do_fail_path(m)
            },
            Ok(resp) => {
                if resp.stop_reason == String::from_str("end_turn") {
                    self.phase = PlanPhase::AwaitFinalEmit;
                    let ev = ProgressEvent {
                        task_id: self.task_id,
                        status: String::from_str("finalizing"),
                        message: String::from_str("Planning complete, generating summary..."),
                        progress_permille: 900,
                        current_step: Some(String::from_str("Finalization")),
                    };
                    let r = PlanAction::Emit(ev);
                    proof {
                        assert(self@ =~~= on_chat_ok(old(self)@, text@).0);
                        assert(r@ =~~= on_chat_ok(old(self)@, text@).1);
                    }
                    r
                } else if !(resp.stop_reason == String::from_str("tool_use")) {
                    let mut m = String::from_str("Unexpected stop reason: ");
                    m.append(resp.stop_reason.as_str());
                    proof {
                        assert(m@ =~= "Unexpected stop reason: "@ + resp.stop_reason@);
                    }
                    self.do_fail_path(m)
                } else {
                    let calls = extract_calls_exec(&resp.content);
                    if calls.len() == 0 {
                        proof {
                            assert(extract_calls(resp@.content).len() == 0);
                        }
                        self.do_fail_path(
                            String::from_str(
                                "Agent requested tool_use but provided no tool calls",
                            ),
                        )
                    } else {
                        self.turn_blocks = resp.content;
                        self.turn_calls = calls;
                        self.turn_idx = 0;
                        self.turn_results = Vec::new();
                        proof {
                            let reply = parsed_reply_of(text@)->Ok_0;
                            assert(crate::chat::results_view(self.turn_results@)
                                =~= Seq::<ToolResultV>::empty());
                            assert(self@ =~~= RunV {
                                turn_blocks: reply.content,
                                turn_calls: extract_calls(reply.content),
                                turn_idx: 0,
                                turn_results: Seq::empty(),
                                ..old(self)@
                            });
                        }
                        self.do_drain()
                    }
                }
            },
        }
    }

    fn do_insert_ok(&mut self) -> (r: PlanAction)
        ensures
            final(self)@ == on_insert_ok(old(self)@).0,
            r@ == on_insert_ok(old(self)@).1,
    {
        let n: u64 = if self.created == u64::MAX {
            self.created
        } else {
            self.created + 1
        };
        self.created = n;
        self.phase = PlanPhase::AwaitCreatedEmit;
        let mut message = String::from_str("Created subtask ");
        let n_text = fmt_u64(n);
        message.append(n_text.as_str());
        message.append(" of estimated 3-7...");
        let progress: u32 = if n >= 5 {
            800
        } else {
            200 + 120 * (n as u32)
        };
        let ev = ProgressEvent {
            task_id: self.task_id,
            status: String::from_str("creating"),
            message,
            progress_permille: progress,
            current_step: Some(String::from_str("Subtask Creation")),
        };
        let r = PlanAction::Emit(ev);
        proof {
            assert(ev@.message =~= created_event(old(self)@.task_id, n).message);
            assert(self@ =~~= on_insert_ok(old(self)@).0);
            assert(r@ =~~= on_insert_ok(old(self)@).1);
        }
        r
    }

    fn do_created_emit_ok(&mut self) -> (r: PlanAction)
        requires
            old(self)@.turn_idx < old(self)@.turn_calls.len(),
            old(self)@.outcome is None,
        ensures
            final(self)@ == on_created_emit_ok(old(self)@).0,
            r@ == on_created_emit_ok(old(self)@).1,
    {
        let i = self.turn_idx;
        let id = self.turn_calls[i].id.clone();
        let mut content = String::from_str("Successfully created subtask: '");
        content.append(self.cur_title.as_str());
        content.append("'");
        proof {
            assert(content@ =~= "Successfully created subtask: '"@ + old(self)@.cur_title + "'"@);
        }
        self.exec_push_result(id, content, false);
        self.do_drain()
    }

    fn do_insert_failed(&mut self, e: String) -> (r: PlanAction)
        requires
            old(self)@.turn_idx < old(self)@.turn_calls.len(),
            old(self)@.outcome is None,
        ensures
            final(self)@ == on_insert_failed(old(self)@, e@).0,
            r@ == on_insert_failed(old(self)@, e@).1,
    {
        let i = self.turn_idx;
        let id = self.turn_calls[i].id.clone();
        let mut content = String::from_str("Tool execution error: Failed to create subtask: ");
        content.append(e.as_str());
        proof {
            assert(content@ =~= "Tool execution error: Failed to create subtask: "@ + e@);
        }
        self.exec_push_result(id, content, true);
        self.do_drain()
    }

    fn do_final_emit_ok(&mut self) -> (r: PlanAction)
        requires
            old(self)@.outcome is None,
        ensures
            final(self)@ == on_final_emit_ok(old(self)@).0,
            r@ == on_final_emit_ok(old(self)@).1,
    {
        let count: i32 = if self.created <= i32::MAX as u64 {
            self.created as i32
        } else {
            i32::MAX
        };
        let mut message = String::from_str("Successfully created ");
        let n_text = fmt_u64(self.created);
        message.append(n_text.as_str());
        message.append(" subtasks using AI planning agent");
        let res = PlanningResult { success: true, subtasks_created: count, message };
        self.phase = PlanPhase::Done;
        self.outcome_ok = Some(
            PlanningResult {
                success: res.success,
                subtasks_created: res.subtasks_created,
                message: res.message.clone(),
            },
        );
        let r = PlanAction::Finish(res);
        proof {
            assert(res@.message =~= on_final_emit_ok(old(self)@).0.outcome->Some_0->Ok_0.message);
            assert(self@ =~~= on_final_emit_ok(old(self)@).0);
            assert(r@ =~~= on_final_emit_ok(old(self)@).1);
        }
        r
    }

    fn do_fb_step(&mut self, i: usize) -> (r: PlanAction)
        requires
            old(self)@.outcome is None,
            0 <= i < 3,
        ensures
            final(self)@ == fb_step(old(self)@, i as int).0,
            r@ == fb_step(old(self)@, i as int).1,
    {
        let pool = self.agents.len();
        if pool == 0 {
            proof {
                assert(old(self)@.agents.len() == 0);
            }
            self.do_hard_fail(String::from_str("No agents available for fallback planning"))
        } else {
            let k = i % pool;
            let agent_id = self.agents[k].id;
            self.phase = PlanPhase::AwaitFallbackInsert;
            self.fb_index = i;
            let title = if i == 0 {
                String::from_str("Research and plan approach")
            } else if i == 1 {
                String::from_str("Execute primary deliverables")
            } else {
                String::from_str("Review and finalize output")
            };
            let description = if i == 0 {
                String::from_str(
                    "Gather requirements, research best practices, and develop a comprehensive execution plan",
                )
            } else if i == 1 {
                String::from_str(
                    "Complete the main task deliverables according to the researched plan and requirements",
                )
            } else {
                String::from_str(
                    "Quality check, refinements, and final validation of deliverables",
                )
            };
            let r = PlanAction::InsertSubtask {
                task_id: self.task_id,
                title,
                description,
                agent_id,
            };
            proof {
                assert(old(self)@.agents[i as int % old(self)@.agents.len() as int]
                    == old(self)@.agents[k as int]);
                assert(self@ =~~= fb_step(old(self)@, i as int).0);
                assert(r@ =~~= fb_step(old(self)@, i as int).1);
            }
            r
        }
    }

    fn do_fb_insert_ok(&mut self) -> (r: PlanAction)
        ensures
            final(self)@ == on_fb_insert_ok(old(self)@).0,
            r@ == on_fb_insert_ok(old(self)@).1,
    {
        let n: u64 = if self.fb_created == u64::MAX {
            self.fb_created
        } else {
            self.fb_created + 1
        };
        self.fb_created = n;
        self.phase = PlanPhase::AwaitFallbackCreatedEmit;
        let mut message = String::from_str("Fallback: Created subtask ");
        let n_text = fmt_u64(n);
        message.append(n_text.as_str());
        message.append("/3");
        let progress: u32 = if n >= 3 {
            800
        } else {
            300 + (500 * (n as u32)) / 3
        };
        let ev = ProgressEvent {
            task_id: self.task_id,
            status: String::from_str("fallback_creating"),
            message,
            progress_permille: progress,
            current_step: Some(String::from_str("Fallback Planning")),
        };
        let r = PlanAction::Emit(ev);
        proof {
            assert(ev@.message =~= fb_created_event(old(self)@.task_id, n).message);
            assert(self@ =~~= on_fb_insert_ok(old(self)@).0);
            assert(r@ =~~= on_fb_insert_ok(old(self)@).1);
        }
        r
    }

    fn do_fb_created_emit_ok(&mut self) -> (r: PlanAction)
        requires
            old(self)@.outcome is None,
            0 <= old(self)@.fb_index < 3,
        ensures
            final(self)@ == on_fb_created_emit_ok(old(self)@).0,
            r@ == on_fb_created_emit_ok(old(self)@).1,
    {
        if self.fb_index + 1 < 3 {
            self.do_fb_step(self.fb_index + 1)
        } else {
            let count: i32 = if self.fb_created <= i32::MAX as u64 {
                self.fb_created as i32
            } else {
                i32::MAX
            };
            let mut message = String::from_str("Created ");
            let n_text = fmt_u64(self.fb_created);
            message.append(n_text.as_str());
            message.append(" subtasks using fallback planning (AI agent unavailable)");
            let res = PlanningResult { success: true, subtasks_created: count, message };
            self.phase = PlanPhase::Done;
            self.outcome_ok = Some(
                PlanningResult {
                    success: res.success,
                    subtasks_created: res.subtasks_created,
                    message: res.message.clone(),
                },
            );
            let r = PlanAction::Finish(res);
            proof {
                assert(res@.message =~= on_fb_created_emit_ok(
                    old(self)@,
                ).0.outcome->Some_0->Ok_0.message);
                assert(self@ =~~= on_fb_created_emit_ok(old(self)@).0);
                assert(r@ =~~= on_fb_created_emit_ok(old(self)@).1);
            }
            r
        }
    }

    /// Take one step of the run: consume the outcome of the pending
    /// outside action and decide the next one.
    pub fn step(&mut self, event: PlanEvent) -> (r: PlanAction)
        requires
            wf_run(old(self)@),
            expects(old(self)@, event@),
        ensures
            wf_run(final(self)@),
            final(self)@ == step_spec(old(self)@, event@).0,
            r@ == step_spec(old(self)@, event@).1,
    {
        proof {
            lemma_step_wf(old(self)@, event@);
        }
        let phase = self.phase;
        match (phase, event) {
            (PlanPhase::Start, PlanEvent::Begin) => {
                self.phase = PlanPhase::AwaitInitEmit;
                let ev = ProgressEvent {
                    task_id: self.task_id,
                    status: String::from_str("analyzing"),
                    message: String::from_str("Initializing AI planning agent..."),
                    progress_permille: 100,
                    current_step: Some(String::from_str("Initialization")),
                };
                let r = PlanAction::Emit(ev);
                proof {
                    assert(self@ =~~= step_spec(old(self)@, event@).0);
                    assert(r@ =~~= step_spec(old(self)@, event@).1);
                }
                r
            },
            (PlanPhase::AwaitInitEmit, PlanEvent::EmitOk) => {
                self.phase = PlanPhase::AwaitAnalysisEmit;
                let ev = ProgressEvent {
                    task_id: self.task_id,
                    status: String::from_str("planning"),
                    message: String::from_str("AI agent analyzing task..."),
                    progress_permille: 200,
                    current_step: Some(String::from_str("Analysis")),
                };
                let r = PlanAction::Emit(ev);
                proof {
                    assert(self@ =~~= step_spec(old(self)@, event@).0);
                    assert(r@ =~~= step_spec(old(self)@, event@).1);
                }
                r
            },
            (PlanPhase::AwaitInitEmit, PlanEvent::EmitFailed(m)) => self.do_emit_failed_soft(m),
            (PlanPhase::AwaitAnalysisEmit, PlanEvent::EmitOk) => self.do_chat_guard(),
            (PlanPhase::AwaitAnalysisEmit, PlanEvent::EmitFailed(m)) => self.do_emit_failed_soft(
                m,
            ),
            (PlanPhase::AwaitChat, PlanEvent::ChatOk(text)) => self.do_on_chat_ok(text),
            (PlanPhase::AwaitChat, PlanEvent::ChatFailed(m)) => self.do_fail_path(m),
            (PlanPhase::AwaitInsert, PlanEvent::InsertOk) => self.do_insert_ok(),
            (PlanPhase::AwaitInsert, PlanEvent::InsertFailed(m)) => self.do_insert_failed(m),
            (PlanPhase::AwaitCreatedEmit, PlanEvent::EmitOk) => self.do_created_emit_ok(),
            (PlanPhase::AwaitCreatedEmit, PlanEvent::EmitFailed(m)) => self.do_emit_failed_soft(
                m,
            ),
            (PlanPhase::AwaitFinalEmit, PlanEvent::EmitOk) => self.do_final_emit_ok(),
            (PlanPhase::AwaitFinalEmit, PlanEvent::EmitFailed(m)) => self.do_emit_failed_soft(m),
            (PlanPhase::AwaitFallbackEmit, PlanEvent::EmitOk) => self.do_fb_step(0),
            (PlanPhase::AwaitFallbackEmit, PlanEvent::EmitFailed(m)) => self.do_emit_failed_hard(
                m,
            ),
            (PlanPhase::AwaitFallbackInsert, PlanEvent::InsertOk) => self.do_fb_insert_ok(),
            (PlanPhase::AwaitFallbackInsert, PlanEvent::InsertFailed(m)) => {
                let mut msg = String::from_str("Failed to create subtask: ");
                msg.append(m.as_str());
                proof {
                    assert(msg@ =~= "Failed to create subtask: "@ + m@);
                }
                self.do_hard_fail(msg)
            },
            (PlanPhase::AwaitFallbackCreatedEmit, PlanEvent::EmitOk) => self.do_fb_created_emit_ok(
            ),
            (PlanPhase::AwaitFallbackCreatedEmit, PlanEvent::EmitFailed(m)) => self
                .do_emit_failed_hard(m),
            _ => {
                proof {
                    assert(false);
                }
                PlanAction::Fail(String::new())
            },
        }
    }

    fn do_emit_failed_soft(&mut self, m: String) -> (r: PlanAction)
        requires
            old(self)@.outcome is None,
        ensures
            final(self)@ == fail_path(old(self)@, emit_failed_msg(m@)).0,
            r@ == fail_path(old(self)@, emit_failed_msg(m@)).1,
    {
        let mut msg = String::from_str("Failed to emit progress: ");
        msg.append(m.as_str());
        proof {
            assert(msg@ =~= emit_failed_msg(m@));
        }
        self.do_fail_path(msg)
    }

    fn do_emit_failed_hard(&mut self, m: String) -> (r: PlanAction)
        requires
            old(self)@.outcome is None,
        ensures
            final(self)@ == hard_fail(old(self)@, emit_failed_msg(m@)).0,
            r@ == hard_fail(old(self)@, emit_failed_msg(m@)).1,
    {
        let mut msg = String::from_str("Failed to emit progress: ");
        msg.append(m.as_str());
        proof {
            assert(msg@ =~= emit_failed_msg(m@));
        }
        self.do_hard_fail(msg)
    }
}

// ---------------------------------------------------------------------------
// Preservation of well-formedness
// ---------------------------------------------------------------------------
proof fn lemma_drain_wf(s: RunV)
    requires
        0 <= s.turn_idx <= s.turn_calls.len(),
        s.turn_results.len() == s.turn_idx,
        forall|j: int|
            0 <= j < s.turn_results.len() ==> (#[trigger] s.turn_results[j]).tool_use_id
                == s.turn_calls[j].id,
        s.turn_calls == extract_calls(s.turn_blocks),
        s.iterations <= 20,
        s.fb_created == 0,
        s.outcome is None,
    ensures
        wf_run(drain(s).0),
    decreases s.turn_calls.len() - s.turn_idx,
{
    if s.turn_idx >= s.turn_calls.len() {
        assert(extract_calls(Seq::<BlockV>::empty()) =~= Seq::<ToolCallV>::empty());
    } else {
        let c = s.turn_calls[s.turn_idx];
        if c.name != "create_subtask"@ {
            lemma_drain_wf(push_result(s, c.id, "Unknown tool: "@ + c.name, true));
        } else {
            let args = tool_args_of(c.input);
            if args.0 is None {
                lemma_drain_wf(
                    push_result(s, c.id, "Tool execution error: Missing title"@, true),
                );
            } else if args.1 is None {
                lemma_drain_wf(
                    push_result(s, c.id, "Tool execution error: Missing description"@, true),
                );
            } else if args.2 is None {
                lemma_drain_wf(
                    push_result(s, c.id, "Tool execution error: Missing agent_id"@, true),
                );
            } else if find_agent(s.agents, args.2.unwrap()) is None {
                lemma_drain_wf(
                    push_result(
                        s,
                        c.id,
                        "Tool execution error: Invalid agent_id: "@ + dec_int(
                            args.2.unwrap() as int,
                        ),
                        true,
                    ),
                );
            } else {
            }
        }
    }
}

// ---------------------------------------------------------------------------
// Starting a run
// ---------------------------------------------------------------------------
/// The fixed instructional text that seeds every planning conversation.
pub open spec fn seed_text() -> Seq<char> {
    "Please analyze the task and create a comprehensive breakdown using the create_subtask tool. Create 3-7 subtasks that cover the complete workflow, and assign each to the most appropriate agent."@
}

/// The state a planning run starts from.
pub open spec fn initial_run(
    prompt: Seq<char>,
    model_name: Seq<char>,
    task_id: i32,
    title: Seq<char>,
    desc: Option<Seq<char>>,
    agents: Seq<AgentV>,
    fallback_enabled: bool,
) -> RunV {
    RunV {
        task_id,
        model_name,
        system_prompt: system_prompt_of(prompt, task_id, title, desc, agents),
        agents,
        fallback_enabled,
        phase: PlanPhase::Start,
        conversation: seq![MsgV { role: "user"@, content: MsgContentV::Text(seed_text()) }],
        iterations: 0,
        created: 0,
        fb_created: 0,
        fb_index: 0,
        turn_blocks: Seq::empty(),
        turn_calls: Seq::empty(),
        turn_idx: 0,
        turn_results: Seq::empty(),
        cur_title: Seq::empty(),
        last_error: None,
        outcome: None,
    }
}

impl PlanningAgent {
    fn start_run(
        &self,
        task_title: &str,
        task_description: &Option<String>,
        fallback_enabled: bool,
    ) -> (r: PlanRun)
        ensures
            r@ == initial_run(
                self.agent_prompt@,
                self.model_name@,
                self.task_id,
                task_title@,
                task_description.deep_view(),
                agents_view(self.available_agents@),
                fallback_enabled,
            ),
            wf_run(r@),
    {
        let system_prompt = self.build_system_prompt(task_title, task_description);
        let mut conversation: Vec<ChatMessage> = Vec::new();
        conversation.push(
            ChatMessage {
                role: String::from_str("user"),
                content: MessageContent::Text(
                    String::from_str(
                        "Please analyze the task and create a comprehensive breakdown using the create_subtask tool. Create 3-7 subtasks that cover the complete workflow, and assign each to the most appropriate agent.",
                    ),
                ),
            },
        );
        let r = PlanRun {
            task_id: self.task_id,
            model_name: self.model_name.clone(),
            system_prompt,
            agents: clone_agents(&self.available_agents),
            fallback_enabled,
            phase: PlanPhase::Start,
            conversation,
            iterations: 0,
            created: 0,
            fb_created: 0,
            fb_index: 0,
            turn_blocks: Vec::new(),
            turn_calls: Vec::new(),
            turn_idx: 0,
            turn_results: Vec::new(),
            cur_title: String::new(),
            last_error: None,
            outcome_ok: None,
            outcome_err: None,
        };
        proof {
            assert(crate::chat::messages_view(r.conversation@) =~= seq![
                MsgV { role: "user"@, content: MsgContentV::Text(seed_text()) },
            ]);
            assert(blocks_view(r.turn_blocks@) =~= Seq::<BlockV>::empty());
            assert(calls_view(r.turn_calls@) =~= Seq::<ToolCallV>::empty());
            assert(crate::chat::results_view(r.turn_results@) =~= Seq::<ToolResultV>::empty());
            assert(extract_calls(Seq::<BlockV>::empty()) =~= Seq::<ToolCallV>::empty());
            assert(r@ =~~= initial_run(
                self.agent_prompt@,
                self.model_name@,
                self.task_id,
                task_title@,
                task_description.deep_view(),
                agents_view(self.available_agents@),
                fallback_enabled,
            ));
        }
        r
    }

    /// Begin one AI planning run for a task, with no recovery when the AI
    /// path fails.
    pub fn plan_task(&self, task_title: &str, task_description: &Option<String>) -> (r: PlanRun)
        ensures
            r@ == initial_run(
                self.agent_prompt@,
                self.model_name@,
                self.task_id,
                task_title@,
                task_description.deep_view(),
                agents_view(self.available_agents@),
                false,
            ),
            wf_run(r@),
    {
        self.start_run(task_title, task_description, false)
    }

    /// Begin one AI planning run for a task; when the AI path fails the
    /// run continues with the fixed three-step fallback plan.
    pub fn plan_task_with_fallback(
        &self,
        task_title: &str,
        task_description: &Option<String>,
    ) -> (r: PlanRun)
        ensures
            r@ == initial_run(
                self.agent_prompt@,
                self.model_name@,
                self.task_id,
                task_title@,
                task_description.deep_view(),
                agents_view(self.available_agents@),
                true,
            ),
            wf_run(r@),
    {
        self.start_run(task_title, task_description, true)
    }
}

/// One step from a well-formed state leaves a well-formed state, whatever
/// the event.
pub proof fn lemma_step_wf(s: RunV, e: EventV)
    requires
        wf_run(s),
    ensures
        wf_run(step_spec(s, e).0),
{
    match (s.phase, e) {
        (PlanPhase::AwaitChat, EventV::ChatOk(text)) => {
            match parsed_reply_of(text) {
                Err(_) => {},
                Ok(reply) => {
                    if reply.stop_reason == "end_turn"@ {
                    } else if reply.stop_reason != "tool_use"@ {
                    } else {
                        let calls = extract_calls(reply.content);
                        if calls.len() == 0 {
                        } else {
                            lemma_drain_wf(
                                RunV {
                                    turn_blocks: reply.content,
                                    turn_calls: calls,
                                    turn_idx: 0,
                                    turn_results: Seq::empty(),
                                    ..s
                                },
                            );
                        }
                    }
                },
            }
        },
        (PlanPhase::AwaitInsert, EventV::InsertFailed(m)) => {
            let c = s.turn_calls[s.turn_idx];
            lemma_drain_wf(
                push_result(
                    s,
                    c.id,
                    "Tool execution error: Failed to create subtask: "@ + m,
                    true,
                ),
            );
        },
        (PlanPhase::AwaitCreatedEmit, EventV::EmitOk) => {
            let c = s.turn_calls[s.turn_idx];
            lemma_drain_wf(
                push_result(
                    s,
                    c.id,
                    "Successfully created subtask: '"@ + s.cur_title + "'"@,
                    false,
                ),
            );
        },
        _ => {},
    }
}

// ---------------------------------------------------------------------------
// The round-trip bound
// ---------------------------------------------------------------------------
/// The number of chat round-trips a run takes over a sequence of events.
pub open spec fn chat_calls_in(s: RunV, events: Seq<EventV>) -> int
    decreases events.len(),
{
    if events.len() == 0 {
        0
    } else {
        let next = step_spec(s, events.first());
        (if next.1 is CallChat {
            1int
        } else {
            0int
        }) + chat_calls_in(next.0, events.drop_first())
    }
}

proof fn lemma_drain_iter(s: RunV)
    requires
        0 <= s.turn_idx <= s.turn_calls.len(),
    ensures
        drain(s).0.iterations >= s.iterations,
        drain(s).1 is CallChat ==> drain(s).0.iterations == s.iterations + 1 && drain(
            s,
        ).0.iterations <= 20,
    decreases s.turn_calls.len() - s.turn_idx,
{
    if s.turn_idx >= s.turn_calls.len() {
    } else {
        let c = s.turn_calls[s.turn_idx];
        if c.name != "create_subtask"@ {
            lemma_drain_iter(push_result(s, c.id, "Unknown tool: "@ + c.name, true));
        } else {
            let args = tool_args_of(c.input);
            if args.0 is None {
                lemma_drain_iter(
                    push_result(s, c.id, "Tool execution error: Missing title"@, true),
                );
            } else if args.1 is None {
                lemma_drain_iter(
                    push_result(s, c.id, "Tool execution error: Missing description"@, true),
                );
            } else if args.2 is None {
                lemma_drain_iter(
                    push_result(s, c.id, "Tool execution error: Missing agent_id"@, true),
                );
            } else if find_agent(s.agents, args.2.unwrap()) is None {
                lemma_drain_iter(
                    push_result(
                        s,
                        c.id,
                        "Tool execution error: Invalid agent_id: "@ + dec_int(
                            args.2.unwrap() as int,
                        ),
                        true,
                    ),
                );
            } else {
            }
        }
    }
}

proof fn lemma_step_iterations(s: RunV, e: EventV)
    requires
        wf_run(s),
    ensures
        step_spec(s, e).0.iterations >= s.iterations,
        step_spec(s, e).1 is CallChat ==> step_spec(s, e).0.iterations == s.iterations + 1
            && step_spec(s, e).0.iterations <= 20,
{
    match (s.phase, e) {
        (PlanPhase::AwaitChat, EventV::ChatOk(text)) => {
            match parsed_reply_of(text) {
                Err(_) => {},
                Ok(reply) => {
                    if reply.stop_reason == "end_turn"@ {
                    } else if reply.stop_reason != "tool_use"@ {
                    } else {
                        let calls = extract_calls(reply.content);
                        if calls.len() == 0 {
                        } else {
                            lemma_drain_iter(
                                RunV {
                                    turn_blocks: reply.content,
                                    turn_calls: calls,
                                    turn_idx: 0,
                                    turn_results: Seq::empty(),
                                    ..s
                                },
                            );
                        }
                    }
                },
            }
        },
        (PlanPhase::AwaitInsert, EventV::InsertFailed(m)) => {
            let c = s.turn_calls[s.turn_idx];
            lemma_drain_iter(
                push_result(
                    s,
                    c.id,
                    "Tool execution error: Failed to create subtask: "@ + m,
                    true,
                ),
            );
        },
        (PlanPhase::AwaitCreatedEmit, EventV::EmitOk) => {
            let c = s.turn_calls[s.turn_idx];
            lemma_drain_iter(
                push_result(
                    s,
                    c.id,
                    "Successfully created subtask: '"@ + s.cur_title + "'"@,
                    false,
                ),
            );
        },
        _ => {},
    }
}

/// A planning run never exceeds twenty chat round-trips: however a
/// well-formed run is driven, the chat calls it takes stay within what
/// remains of the bound of twenty.
pub proof fn lemma_round_trip_bound(s: RunV, events: Seq<EventV>)
    requires
        wf_run(s),
    ensures
        chat_calls_in(s, events) <= 20 - s.iterations,
    decreases events.len(),
{
    if events.len() == 0 {
    } else {
        let e = events.first();
        lemma_step_wf(s, e);
        lemma_step_iterations(s, e);
        lemma_round_trip_bound(step_spec(s, e).0, events.drop_first());
    }
}

/// The twenty-first round-trip is refused: a run that has already made
/// twenty chat calls fails with the iteration-cap error instead of
/// calling out again.
pub proof fn lemma_iteration_cap(s: RunV)
    requires
        s.iterations == 20,
    ensures
        chat_guard(s) == fail_path(s, "Planning exceeded maximum iterations (20)"@),
{
}

// ---------------------------------------------------------------------------
// The bounds of reported progress
// ---------------------------------------------------------------------------
proof fn lemma_drain_action(s: RunV)
    requires
        0 <= s.turn_idx <= s.turn_calls.len(),
    ensures
        ({
            let a = drain(s).1;
            a matches ActionV::Emit(ev) ==> ev == fallback_event(s.task_id)
        }),
    decreases s.turn_calls.len() - s.turn_idx,
{
    if s.turn_idx >= s.turn_calls.len() {
    } else {
        let c = s.turn_calls[s.turn_idx];
        if c.name != "create_subtask"@ {
            lemma_drain_action(push_result(s, c.id, "Unknown tool: "@ + c.name, true));
        } else {
            let args = tool_args_of(c.input);
            if args.0 is None {
                lemma_drain_action(
                    push_result(s, c.id, "Tool execution error: Missing title"@, true),
                );
            } else if args.1 is None {
                lemma_drain_action(
                    push_result(s, c.id, "Tool execution error: Missing description"@, true),
                );
            } else if args.2 is None {
                lemma_drain_action(
                    push_result(s, c.id, "Tool execution error: Missing agent_id"@, true),
                );
            } else if find_agent(s.agents, args.2.unwrap()) is None {
                lemma_drain_action(
                    push_result(
                        s,
                        c.id,
                        "Tool execution error: Invalid agent_id: "@ + dec_int(
                            args.2.unwrap() as int,
                        ),
                        true,
                    ),
                );
            } else {
            }
        }
    }
}

/// Reported progress stays within its range: every progress event a step
/// emits carries a value between 0 and 1 (held in thousandths, 0 to
/// 1000).
pub proof fn lemma_progress_bounded(s: RunV, e: EventV)
    requires
        wf_run(s),
    ensures
        ({
            let a = step_spec(s, e).1;
            a matches ActionV::Emit(ev) ==> 0 <= ev.progress_permille <= 1000
        }),
{
    match (s.phase, e) {
        (PlanPhase::AwaitChat, EventV::ChatOk(text)) => {
            match parsed_reply_of(text) {
                Err(_) => {},
                Ok(reply) => {
                    if reply.stop_reason == "end_turn"@ {
                    } else if reply.stop_reason != "tool_use"@ {
                    } else {
                        let calls = extract_calls(reply.content);
                        if calls.len() == 0 {
                        } else {
                            lemma_drain_action(
                                RunV {
                                    turn_blocks: reply.content,
                                    turn_calls: calls,
                                    turn_idx: 0,
                                    turn_results: Seq::empty(),
                                    ..s
                                },
                            );
                        }
                    }
                },
            }
        },
        (PlanPhase::AwaitInsert, EventV::InsertFailed(m)) => {
            let c = s.turn_calls[s.turn_idx];
            lemma_drain_action(
                push_result(
                    s,
                    c.id,
                    "Tool execution error: Failed to create subtask: "@ + m,
                    true,
                ),
            );
        },
        (PlanPhase::AwaitCreatedEmit, EventV::EmitOk) => {
            let c = s.turn_calls[s.turn_idx];
            lemma_drain_action(
                push_result(
                    s,
                    c.id,
                    "Successfully created subtask: '"@ + s.cur_title + "'"@,
                    false,
                ),
            );
        },
        _ => {},
    }
}

// ---------------------------------------------------------------------------
// The order of tool results
// ---------------------------------------------------------------------------
proof fn lemma_drain_conv(s: RunV)
    requires
        0 <= s.turn_idx <= s.turn_calls.len(),
        s.turn_results.len() == s.turn_idx,
        forall|j: int|
            0 <= j < s.turn_results.len() ==> (#[trigger] s.turn_results[j]).tool_use_id
                == s.turn_calls[j].id,
    ensures
        ({
            let s2 = drain(s).0;
            ||| s2.conversation == s.conversation
            ||| {
                &&& s2.conversation.len() == s.conversation.len() + 2
                &&& s2.conversation[s.conversation.len() as int] == MsgV {
                    role: "assistant"@,
                    content: MsgContentV::Blocks(s.turn_blocks),
                }
                &&& s2.conversation.last().role == "user"@
                &&& (s2.conversation.last().content matches MsgContentV::Results(rs)
                    && rs.len() == s.turn_calls.len() && forall|j: int|
                    0 <= j < rs.len() ==> (#[trigger] rs[j]).tool_use_id == s.turn_calls[j].id)
            }
        }),
    decreases s.turn_calls.len() - s.turn_idx,
{
    if s.turn_idx >= s.turn_calls.len() {
    } else {
        let c = s.turn_calls[s.turn_idx];
        if c.name != "create_subtask"@ {
            lemma_drain_conv(push_result(s, c.id, "Unknown tool: "@ + c.name, true));
        } else {
            let args = tool_args_of(c.input);
            if args.0 is None {
                lemma_drain_conv(
                    push_result(s, c.id, "Tool execution error: Missing title"@, true),
                );
            } else if args.1 is None {
                lemma_drain_conv(
                    push_result(s, c.id, "Tool execution error: Missing description"@, true),
                );
            } else if args.2 is None {
                lemma_drain_conv(
                    push_result(s, c.id, "Tool execution error: Missing agent_id"@, true),
                );
            } else if find_agent(s.agents, args.2.unwrap()) is None {
                lemma_drain_conv(
                    push_result(
                        s,
                        c.id,
                        "Tool execution error: Invalid agent_id: "@ + dec_int(
                            args.2.unwrap() as int,
                        ),
                        true,
                    ),
                );
            } else {
            }
        }
    }
}

/// Tool results are fed back in the order of the tool-use requests: when a
/// step closes a turn, it appends the assistant's content blocks and then
/// one user message whose results answer the turn's tool-use requests one
/// for one, in order of appearance.
pub proof fn lemma_tool_results_order(s: RunV, e: EventV)
    requires
        wf_run(s),
        expects(s, e),
    ensures
        ({
            let s2 = step_spec(s, e).0;
            s2.conversation.len() > s.conversation.len() ==> {
                &&& s2.conversation.len() == s.conversation.len() + 2
                &&& (s2.conversation[s.conversation.len() as int].content
                    matches MsgContentV::Blocks(bs) && s2.conversation.last().content
                    matches MsgContentV::Results(rs) && rs.len() == extract_calls(bs).len()
                    && forall|j: int|
                    0 <= j < rs.len() ==> (#[trigger] rs[j]).tool_use_id == extract_calls(
                        bs,
                    )[j].id)
                &&& s2.conversation[s.conversation.len() as int].role == "assistant"@
                &&& s2.conversation.last().role == "user"@
            }
        }),
{
    match (s.phase, e) {
        (PlanPhase::AwaitChat, EventV::ChatOk(text)) => {
            match parsed_reply_of(text) {
                Err(_) => {},
                Ok(reply) => {
                    if reply.stop_reason == "end_turn"@ {
                    } else if reply.stop_reason != "tool_use"@ {
                    } else {
                        let calls = extract_calls(reply.content);
                        if calls.len() == 0 {
                        } else {
                            lemma_drain_conv(
                                RunV {
                                    turn_blocks: reply.content,
                                    turn_calls: calls,
                                    turn_idx: 0,
                                    turn_results: Seq::empty(),
                                    ..s
                                },
                            );
                        }
                    }
                },
            }
        },
        (PlanPhase::AwaitInsert, EventV::InsertFailed(m)) => {
            let c = s.turn_calls[s.turn_idx];
            lemma_drain_conv(
                push_result(
                    s,
                    c.id,
                    "Tool execution error: Failed to create subtask: "@ + m,
                    true,
                ),
            );
        },
        (PlanPhase::AwaitCreatedEmit, EventV::EmitOk) => {
            let c = s.turn_calls[s.turn_idx];
            lemma_drain_conv(
                push_result(
                    s,
                    c.id,
                    "Successfully created subtask: '"@ + s.cur_title + "'"@,
                    false,
                ),
            );
        },
        _ => {},
    }
}

} // verus!

//! The agent loop as a state machine.
//!
//! A run alternates between asking the model for its next turn and running the tools
//! the model asked for. Both are outside work; this module holds every decision in
//! between. The caller performs the action that each step returns (call the model,
//! run a tool) and feeds the outcome back, until the machine finishes or fails.

use vstd::prelude::*;
use vstd::string::*;

use crate::error::{prefixed, MiniMaxError};
use crate::jsontext::{json_string_member, opt_view, string_member};
use crate::lexorder::{compare_str, StrOrder};
use crate::text::{decimal, join, joined, truncate, truncated, u64_to_string, views, TRUNCATION_MARK};
use super::catalog::RUN_SUBAGENT_NAME;
use super::types::{LoopResult, SubagentDef, ToolCallRecord};

verus! {

/// Model calls per run when the definition sets no limit.
pub const DEFAULT_MAX_ITERATIONS: u32 = 10;
/// `max_tokens` per model call when the definition sets none.
pub const DEFAULT_MAX_TOKENS: i32 = 16384;
/// Recursion depth allowed when the definition sets none.
pub const DEFAULT_MAX_DEPTH: u32 = 3;
/// Model used when the definition names none.
pub const DEFAULT_MODEL: &'static str = "MiniMax-M3";
/// Characters of a tool's output kept in its record.
pub const OUTPUT_PREVIEW_CHARS: usize = 300;

// ------------------------------------------------------------------
// Messages
// ------------------------------------------------------------------

/// One block of a model reply as received: its type tag and whichever fields it had.
/// `input` is the JSON text of a tool call's arguments.
#[derive(Debug)]
pub struct ReplyBlock {
    pub block_type: String,
    pub text: Option<String>,
    pub id: Option<String>,
    pub name: Option<String>,
    pub input: Option<String>,
}

/// A tool call the model asked for.
#[derive(Debug)]
pub struct ToolUse {
    pub id: String,
    pub name: String,
    pub input: String,
}

/// One block of a message in the conversation.
#[derive(Debug)]
pub enum ContentBlock {
    Text { text: String },
    ToolUse { id: String, name: String, input: String },
    ToolResult { tool_use_id: String, content: String, is_error: bool },
}

/// The content of a message: plain text, or a list of blocks.
#[derive(Debug)]
pub enum MessageContent {
    Text(String),
    Blocks(Vec<ContentBlock>),
}

/// A message of the conversation sent to the model.
#[derive(Debug)]
pub struct AgentMessage {
    pub role: String,
    pub content: MessageContent,
}

/// A tool call, by its character sequences.
pub struct UseView {
    pub id: Seq<char>,
    pub name: Seq<char>,
    pub input: Seq<char>,
}

/// A block, by its character sequences.
pub enum BlockView {
    Text(Seq<char>),
    ToolUse(UseView),
    ToolResult { id: Seq<char>, content: Seq<char>, is_error: bool },
}

/// Message content, by its character sequences.
pub enum ContentView {
    Text(Seq<char>),
    Blocks(Seq<BlockView>),
}

/// A message, by its character sequences.
pub struct MessageView {
    pub role: Seq<char>,
    pub content: ContentView,
}

pub open spec fn use_view(u: ToolUse) -> UseView {
    UseView { id: u.id@, name: u.name@, input: u.input@ }
}

pub open spec fn uses_view(v: Seq<ToolUse>) -> Seq<UseView> {
    v.map_values(|u: ToolUse| use_view(u))
}

pub open spec fn block_view(b: ContentBlock) -> BlockView {
    match b {
        ContentBlock::Text { text } => BlockView::Text(text@),
        ContentBlock::ToolUse { id, name, input } => BlockView::ToolUse(
            UseView { id: id@, name: name@, input: input@ },
        ),
        ContentBlock::ToolResult { tool_use_id, content, is_error } => BlockView::ToolResult {
            id: tool_use_id@,
            content: content@,
            is_error,
        },
    }
}

pub open spec fn blocks_view(v: Seq<ContentBlock>) -> Seq<BlockView> {
    v.map_values(|b: ContentBlock| block_view(b))
}

pub open spec fn message_view(m: AgentMessage) -> MessageView {
    MessageView {
        role: m.role@,
        content: match m.content {
            MessageContent::Text(t) => ContentView::Text(t@),
            MessageContent::Blocks(bs) => ContentView::Blocks(blocks_view(bs@)),
        },
    }
}

/// The conversation, by its character sequences.
pub open spec fn conversation_of(ms: Seq<AgentMessage>) -> Seq<MessageView> {
    ms.map_values(|m: AgentMessage| message_view(m))
}

// ------------------------------------------------------------------
// Reading a reply
// ------------------------------------------------------------------

/// A text block that carries text.
pub open spec fn is_text_block(b: ReplyBlock) -> bool {
    b.block_type@ == "text"@ && b.text is Some
}

/// A tool-call block that carries an id, a tool name and arguments.
pub open spec fn is_use_block(b: ReplyBlock) -> bool {
    b.block_type@ == "tool_use"@ && b.id is Some && b.name is Some && b.input is Some
}

/// The texts of a reply, in order. Other blocks, and text blocks without text, are skipped.
pub open spec fn reply_texts(b: Seq<ReplyBlock>) -> Seq<Seq<char>>
    decreases b.len(),
{
    if b.len() == 0 {
        Seq::empty()
    } else if is_text_block(b.last()) {
        reply_texts(b.drop_last()).push(b.last().text->Some_0@)
    } else {
        reply_texts(b.drop_last())
    }
}

/// The tool calls of a reply, in order. Incomplete tool-call blocks are skipped.
pub open spec fn reply_uses(b: Seq<ReplyBlock>) -> Seq<UseView>
    decreases b.len(),
{
    if b.len() == 0 {
        Seq::empty()
    } else if is_use_block(b.last()) {
        reply_uses(b.drop_last()).push(
            UseView {
                id: b.last().id->Some_0@,
                name: b.last().name->Some_0@,
                input: b.last().input->Some_0@,
            },
        )
    } else {
        reply_uses(b.drop_last())
    }
}

/// Whether a reply block is a complete tool-call block.
pub open spec fn use_block_filter() -> spec_fn(ReplyBlock) -> bool {
    |b: ReplyBlock| is_use_block(b)
}

/// Whether a reply block is a text block that carries text.
pub open spec fn text_block_filter() -> spec_fn(ReplyBlock) -> bool {
    |b: ReplyBlock| is_text_block(b)
}

/// The tool call each block asks for, by its id, tool name and arguments.
pub open spec fn block_calls(s: Seq<ReplyBlock>) -> Seq<UseView> {
    s.map_values(|b: ReplyBlock| UseView { id: b.id->Some_0@, name: b.name->Some_0@, input: b.input->Some_0@ })
}

/// The text each block carries.
pub open spec fn block_texts(s: Seq<ReplyBlock>) -> Seq<Seq<char>> {
    s.map_values(|b: ReplyBlock| b.text->Some_0@)
}

/// The tool calls taken from a reply are exactly its complete tool-call blocks, every
/// one of them, in order, each with its own id, name and arguments; likewise its texts
/// are exactly the texts of its text blocks. So a reply with two complete tool-call
/// blocks leaves two calls pending.
pub proof fn law_reply_calls_are_its_tool_use_blocks(b: Seq<ReplyBlock>)
    ensures
        reply_uses(b) == block_calls(b.filter(use_block_filter())),
        reply_uses(b).len() == b.filter(use_block_filter()).len(),
        reply_texts(b) == block_texts(b.filter(text_block_filter())),
    decreases b.len(),
{
    reveal_with_fuel(Seq::<ReplyBlock>::filter, 1);
    if b.len() == 0 {
        assert(b.filter(use_block_filter()) =~= Seq::<ReplyBlock>::empty());
        assert(b.filter(text_block_filter()) =~= Seq::<ReplyBlock>::empty());
        assert(block_calls(Seq::<ReplyBlock>::empty()) =~= Seq::<UseView>::empty());
        assert(block_texts(Seq::<ReplyBlock>::empty()) =~= Seq::<Seq<char>>::empty());
    } else {
        law_reply_calls_are_its_tool_use_blocks(b.drop_last());
        let fu = b.drop_last().filter(use_block_filter());
        let ft = b.drop_last().filter(text_block_filter());
        assert(block_calls(fu.push(b.last())) =~= block_calls(fu).push(
            UseView { id: b.last().id->Some_0@, name: b.last().name->Some_0@, input: b.last().input->Some_0@ },
        ));
        assert(block_texts(ft.push(b.last())) =~= block_texts(ft).push(b.last().text->Some_0@));
    }
}

/// The assistant message that records a reply with tool calls: its texts, then its calls.
pub open spec fn assistant_turn(texts: Seq<Seq<char>>, uses: Seq<UseView>) -> MessageView {
    MessageView {
        role: "assistant"@,
        content: ContentView::Blocks(
            texts.map_values(|t: Seq<char>| BlockView::Text(t)) + uses.map_values(
                |u: UseView| BlockView::ToolUse(u),
            ),
        ),
    }
}

/// The user message that answers a turn's tool calls.
pub open spec fn results_turn(rs: Seq<BlockView>) -> MessageView {
    MessageView { role: "user"@, content: ContentView::Blocks(rs) }
}

/// The ids of the tool calls among some blocks, in order.
pub open spec fn use_ids(bs: Seq<BlockView>) -> Seq<Seq<char>>
    decreases bs.len(),
{
    if bs.len() == 0 {
        Seq::empty()
    } else {
        match bs.last() {
            BlockView::ToolUse(u) => use_ids(bs.drop_last()).push(u.id),
            _ => use_ids(bs.drop_last()),
        }
    }
}

/// The ids that some tool results answer, in order.
pub open spec fn result_ids(bs: Seq<BlockView>) -> Seq<Seq<char>>
    decreases bs.len(),
{
    if bs.len() == 0 {
        Seq::empty()
    } else {
        match bs.last() {
            BlockView::ToolResult { id, .. } => result_ids(bs.drop_last()).push(id),
            _ => result_ids(bs.drop_last()),
        }
    }
}

/// Every block is a tool result.
pub open spec fn all_results(bs: Seq<BlockView>) -> bool {
    forall|i: int| 0 <= i < bs.len() ==> (#[trigger] bs[i]) is ToolResult
}

/// Message `u` answers message `a`: it consists of tool results, one for each tool call
/// of `a`, with the same ids in the same order.
pub open spec fn answers(a: MessageView, u: MessageView) -> bool {
    &&& a.content is Blocks
    &&& u.content is Blocks
    &&& all_results(u.content->Blocks_0)
    &&& result_ids(u.content->Blocks_0) == use_ids(a.content->Blocks_0)
}

/// The role of message `i`: the conversation opens with the user and then alternates.
pub open spec fn role_at(i: int) -> Seq<char> {
    if i % 2 == 0 {
        "user"@
    } else {
        "assistant"@
    }
}

/// A conversation that opens with the task, alternates user and assistant, and in which
/// every assistant turn that is followed by a user turn has all its tool calls answered.
pub open spec fn well_formed_conversation(c: Seq<MessageView>, task: Seq<char>) -> bool {
    &&& c.len() >= 1
    &&& c[0] == (MessageView { role: "user"@, content: ContentView::Text(task) })
    &&& forall|i: int| 0 <= i < c.len() ==> (#[trigger] c[i]).role == role_at(i)
    &&& forall|i: int| 1 <= i && i + 1 < c.len() && i % 2 == 1 ==> answers(#[trigger] c[i], c[i + 1])
}

// ------------------------------------------------------------------
// Outcomes
// ------------------------------------------------------------------

/// The final output of a run: the model's last answer when it ended its turn
/// (`Some`), or the marker of a run that reached its bound of model calls (`None`).
pub open spec fn final_text(answer: Option<Seq<char>>, max_iterations: nat) -> Seq<char> {
    match answer {
        Some(a) => a,
        None => "[max_iterations="@ + decimal(max_iterations)
            + " reached; see tool_calls for partial progress]"@,
    }
}

/// The warning of a run that reached its bound of model calls without the model
/// ending its turn.
pub open spec fn max_iterations_warning(name: Seq<char>, max_iterations: nat) -> Seq<char> {
    "subagent '"@ + name + "' hit max_iterations="@ + decimal(max_iterations)
        + " without end_turn"@
}

/// `res` is the result of the run of `name` at `depth`, after `iterations` model calls
/// (out of `max_iterations`), with tool calls `records`; `answer` is the model's last
/// answer when it ended its turn, `None` when the run reached its bound instead.
pub open spec fn finished_with(
    res: LoopResult,
    name: Seq<char>,
    answer: Option<Seq<char>>,
    iterations: nat,
    max_iterations: nat,
    depth: nat,
    records: Seq<ToolCallRecord>,
) -> bool {
    &&& res.subagent@ == name
    &&& res.final_output@ == final_text(answer, max_iterations)
    &&& res.iterations == iterations
    &&& res.depth == depth
    &&& res.tool_calls@ == records
    &&& match res.warning {
        None => answer is Some,
        Some(w) => answer is None && w@ == max_iterations_warning(name, max_iterations),
    }
}

/// The message of the error that stops a run at an unknown tool.
pub open spec fn unknown_tool_message(name: Seq<char>) -> Seq<char> {
    "unknown tool '"@ + name + "' — not in subagent tool catalog"@
}

/// What a step does about the tool call named `name`: run the first tool of that name,
/// or fail when the subagent has none.
pub open spec fn tool_action(names: Seq<Seq<char>>, name: Seq<char>, a: LoopAction) -> bool {
    match a {
        LoopAction::RunTool { tool_index } => {
            &&& tool_index < names.len()
            &&& names[tool_index as int] == name
            &&& forall|j: int| 0 <= j < tool_index ==> names[j] != name
        },
        LoopAction::Fail(e) => !names.contains(name) && (e matches MiniMaxError::Config(m) && m@
            == unknown_tool_message(name)),
        _ => false,
    }
}

/// `r` records the call `u`, made in iteration `iteration`, that returned `output`.
pub open spec fn record_of(
    r: ToolCallRecord,
    iteration: nat,
    u: UseView,
    output: Seq<char>,
    is_error: bool,
) -> bool {
    &&& r.iteration == iteration
    &&& r.tool@ == u.name
    &&& r.input@ == u.input
    &&& r.output_preview@ == truncated(output, OUTPUT_PREVIEW_CHARS as nat, TRUNCATION_MARK@)
    &&& r.is_error == is_error
    &&& if u.name == RUN_SUBAGENT_NAME@ {
        &&& (r.subagent is Some <==> json_string_member(u.input, "name"@) is Some)
        &&& (r.subagent matches Some(s) ==> json_string_member(u.input, "name"@) == Some(s@))
    } else {
        r.subagent is None
    }
}

/// Record iterations lie in `1..=iterations` and never decrease.
pub open spec fn records_ordered(rs: Seq<ToolCallRecord>, iterations: nat) -> bool {
    &&& forall|i: int| 0 <= i < rs.len() ==> 1 <= (#[trigger] rs[i]).iteration <= iterations
    &&& forall|i: int, j: int| 0 <= i <= j < rs.len() ==> (#[trigger] rs[i]).iteration <= (
    #[trigger] rs[j]).iteration
}

/// What the caller must do next.
#[derive(Debug)]
pub enum LoopAction {
    /// Send the conversation to the model and feed its reply to `on_model_reply`.
    CallModel,
    /// Run tool `tool_index` of the subagent's tools on `current_tool_input()` and feed
    /// its output to `on_tool_output`.
    RunTool { tool_index: usize },
    /// The run is over.
    Finish(LoopResult),
    /// The run failed.
    Fail(MiniMaxError),
}

/// Where the machine stands.
#[derive(PartialEq, Eq, Structural)]
pub enum Phase {
    AwaitModel,
    AwaitTool,
    Done,
}

// ------------------------------------------------------------------
// The machine
// ------------------------------------------------------------------

/// The state of one run of a subagent.
#[derive(Debug)]
pub struct AgentLoop {
    subagent: String,
    task: String,
    system: String,
    model: String,
    max_tokens: i32,
    temperature_bits: Option<u64>,
    max_iterations: u32,
    depth: u32,
    tool_names: Vec<String>,
    messages: Vec<AgentMessage>,
    tool_calls: Vec<ToolCallRecord>,
    iterations: u32,
    pending: Vec<ToolUse>,
    next: usize,
    results: Vec<ContentBlock>,
    finished: bool,
}

/// Finds the first tool named `name`.
fn find_tool(names: &Vec<String>, name: &str) -> (r: Option<usize>)
    ensures
        r matches Some(i) ==> i < names@.len() && names@[i as int]@ == name@ && forall|j: int|
            0 <= j < i ==> (#[trigger] names@[j])@ != name@,
        r is None ==> !views(names@).contains(name@),
{
    let n = names.len();
    let mut i: usize = 0;
    while i < n
        invariant
            n == names@.len(),
            i <= n,
            forall|j: int| 0 <= j < i ==> (#[trigger] names@[j])@ != name@,
        decreases n - i,
    {
        if compare_str(names[i].as_str(), name) == StrOrder::Equal {
            return Some(i);
        }
        i = i + 1;
    }
    assert forall|j: int| 0 <= j < views(names@).len() implies #[trigger] views(names@)[j] != name@ by {
        assert(views(names@)[j] == names@[j]@);
    }
    None
}

/// The tool calls of a conversation's assistant turn: its texts first, then its calls.
proof fn lemma_use_ids_of_turn(texts: Seq<Seq<char>>, uses: Seq<UseView>)
    ensures
        use_ids(
            texts.map_values(|t: Seq<char>| BlockView::Text(t)) + uses.map_values(
                |u: UseView| BlockView::ToolUse(u),
            ),
        ) == uses.map_values(|u: UseView| u.id),
    decreases texts.len() + uses.len(),
{
    let tb = texts.map_values(|t: Seq<char>| BlockView::Text(t));
    let ub = uses.map_values(|u: UseView| BlockView::ToolUse(u));
    if uses.len() > 0 {
        let us = uses.drop_last();
        lemma_use_ids_of_turn(texts, us);
        assert((tb + ub).drop_last() =~= tb + us.map_values(|u: UseView| BlockView::ToolUse(u)));
        assert(uses.map_values(|u: UseView| u.id) =~= us.map_values(|u: UseView| u.id).push(
            uses.last().id,
        ));
    } else if texts.len() > 0 {
        let ts = texts.drop_last();
        lemma_use_ids_of_turn(ts, uses);
        assert((tb + ub).drop_last() =~= ts.map_values(|t: Seq<char>| BlockView::Text(t)) + ub);
    } else {
        assert(tb + ub =~= Seq::<BlockView>::empty());
    }
}

impl AgentLoop {
    /// The conversation so far.
    pub closed spec fn conversation(&self) -> Seq<MessageView> {
        conversation_of(self.messages@)
    }

    /// The task the run was started with.
    pub closed spec fn task(&self) -> Seq<char> {
        self.task@
    }

    /// The subagent being run.
    pub closed spec fn name(&self) -> Seq<char> {
        self.subagent@
    }

    /// The system prompt sent with every model call.
    pub closed spec fn system_prompt(&self) -> Seq<char> {
        self.system@
    }

    /// The model every call goes to.
    pub closed spec fn model_name(&self) -> Seq<char> {
        self.model@
    }

    /// `max_tokens` of every model call.
    pub closed spec fn token_limit(&self) -> i32 {
        self.max_tokens
    }

    /// The sampling temperature of every model call, as the bits of an `f64`.
    pub closed spec fn temperature_setting(&self) -> Option<u64> {
        self.temperature_bits
    }

    /// Recursion depth of the run.
    pub closed spec fn depth(&self) -> nat {
        self.depth as nat
    }

    /// Model calls made so far (the current one included).
    pub closed spec fn iterations(&self) -> nat {
        self.iterations as nat
    }

    /// Upper bound on model calls.
    pub closed spec fn max_iterations(&self) -> nat {
        self.max_iterations as nat
    }

    /// The names of the tools the subagent may call, in order.
    pub closed spec fn tool_names(&self) -> Seq<Seq<char>> {
        views(self.tool_names@)
    }

    /// Records of the tool calls made so far.
    pub closed spec fn records(&self) -> Seq<ToolCallRecord> {
        self.tool_calls@
    }

    /// The tool calls of the model's last reply.
    pub closed spec fn pending(&self) -> Seq<UseView> {
        uses_view(self.pending@)
    }

    /// How many of the pending calls have run.
    pub closed spec fn next(&self) -> nat {
        self.next as nat
    }

    /// The results of the pending calls that have run.
    pub closed spec fn results(&self) -> Seq<BlockView> {
        blocks_view(self.results@)
    }

    /// Where the machine stands.
    pub closed spec fn phase(&self) -> Phase {
        if self.finished {
            Phase::Done
        } else if self.pending@.len() > 0 {
            Phase::AwaitTool
        } else {
            Phase::AwaitModel
        }
    }

    /// The machine's state is consistent.
    pub closed spec fn wf(&self) -> bool {
        &&& self.phase() != Phase::Done ==> {
            &&& 1 <= self.iterations <= self.max_iterations
            &&& records_ordered(self.tool_calls@, self.iterations as nat)
            &&& well_formed_conversation(self.conversation(), self.task@)
        }
        &&& self.phase() == Phase::AwaitModel ==> {
            &&& self.conversation().len() % 2 == 1
            &&& self.results@.len() == 0
            &&& self.next == 0
        }
        &&& self.phase() == Phase::AwaitTool ==> {
            &&& self.conversation().len() % 2 == 0
            &&& self.next < self.pending@.len()
            &&& self.conversation().last().content is Blocks
            &&& use_ids(self.conversation().last().content->Blocks_0) == self.pending().map_values(
                |u: UseView| u.id,
            )
            &&& self.results@.len() == self.next
            &&& all_results(self.results())
            &&& result_ids(self.results()) == self.pending().take(self.next as int).map_values(
                |u: UseView| u.id,
            )
        }
    }

    /// Starts a run of `subagent` on `task` at recursion `depth`, with the tools named
    /// `tool_names` (already filtered for the subagent).
    ///
    /// A run deeper than the subagent's `max_depth` (3 by default) is refused. With a
    /// bound of zero model calls the run finishes at once; otherwise the first action is
    /// to call the model with the task as the only message.
    pub fn start(subagent: &SubagentDef, task: &str, depth: u32, tool_names: Vec<String>) -> (r:
        Result<(AgentLoop, LoopAction), MiniMaxError>)
        ensures
            ({
                let max_depth = match subagent.max_depth {
                    Some(d) => d,
                    None => DEFAULT_MAX_DEPTH,
                };
                let max_it = match subagent.max_iterations {
                    Some(m) => m,
                    None => DEFAULT_MAX_ITERATIONS,
                };
                &&& r is Err <==> depth > max_depth
                &&& r matches Err(e) ==> (e matches MiniMaxError::Config(m) && m@ == "subagent '"@
                    + subagent.name@ + "' exceeded max_depth="@ + decimal(max_depth as nat)
                    + " (current depth="@ + decimal(depth as nat) + ")"@)
                &&& r matches Ok((st, a)) ==> {
                    &&& st.wf()
                    &&& st.name() == subagent.name@
                    &&& st.task() == task@
                    &&& st.depth() == depth
                    &&& st.max_iterations() == max_it
                    &&& st.tool_names() == views(tool_names@)
                    &&& st.system_prompt() == subagent.system@
                    &&& st.model_name() == match subagent.model {
                        Some(m) => m@,
                        None => DEFAULT_MODEL@,
                    }
                    &&& st.token_limit() == match subagent.max_tokens {
                        Some(t) => t,
                        None => DEFAULT_MAX_TOKENS,
                    }
                    &&& st.temperature_setting() == subagent.temperature_bits
                    &&& st.records().len() == 0
                    &&& st.conversation() == seq![
                        MessageView { role: "user"@, content: ContentView::Text(task@) },
                    ]
                    &&& max_it == 0 ==> st.phase() == Phase::Done && (a matches LoopAction::Finish(
                        res,
                    ) && finished_with(
                        res,
                        subagent.name@,
                        None,
                        0,
                        0,
                        depth as nat,
                        Seq::empty(),
                    ))
                    &&& max_it > 0 ==> st.phase() == Phase::AwaitModel && a is CallModel
                        && st.iterations() == 1
                }
            }),
    {
        let max_iterations = match subagent.max_iterations {
            Some(m) => m,
            None => DEFAULT_MAX_ITERATIONS,
        };
        let max_depth = match subagent.max_depth {
            Some(d) => d,
            None => DEFAULT_MAX_DEPTH,
        };
        if depth > max_depth {
            let mut m = prefixed("subagent '", subagent.name.as_str());
            m.append("' exceeded max_depth=");
            m.append(u64_to_string(max_depth as u64).as_str());
            m.append(" (current depth=");
            m.append(u64_to_string(depth as u64).as_str());
            m.append(")");
            return Err(MiniMaxError::Config(m));
        }
        let model = match &subagent.model {
            Some(m) => m.clone(),
            None => String::from_str(DEFAULT_MODEL),
        };
        let max_tokens = match subagent.max_tokens {
            Some(t) => t,
            None => DEFAULT_MAX_TOKENS,
        };
        let mut messages: Vec<AgentMessage> = Vec::new();
        messages.push(
            AgentMessage {
                role: String::from_str("user"),
                content: MessageContent::Text(String::from_str(task)),
            },
        );
        let mut st = AgentLoop {
            subagent: subagent.name.clone(),
            task: String::from_str(task),
            system: subagent.system.clone(),
            model,
            max_tokens,
            temperature_bits: subagent.temperature_bits,
            max_iterations,
            depth,
            tool_names,
            messages,
            tool_calls: Vec::new(),
            iterations: 0,
            pending: Vec::new(),
            next: 0,
            results: Vec::new(),
            finished: false,
        };
        proof {
            reveal_strlit("user");
            assert(st.conversation() =~= seq![
                MessageView { role: "user"@, content: ContentView::Text(task@) },
            ]);
        }
        if max_iterations == 0 {
            let ghost st0 = st;
            let res = st.finish(None);
            assert(st0.records() =~= Seq::<ToolCallRecord>::empty());
            return Ok((st, LoopAction::Finish(res)));
        }
        st.iterations = 1;
        Ok((st, LoopAction::CallModel))
    }

    /// Ends the run: the result takes the records and, when the model ended its turn,
    /// its last text `answer`; a run that reached its bound (`None`) gets the marker
    /// text and the warning instead.
    fn finish(&mut self, answer: Option<String>) -> (res: LoopResult)
        ensures
            final(self).phase() == Phase::Done,
            final(self).wf(),
            final(self).name() == old(self).name(),
            final(self).task() == old(self).task(),
            final(self).depth() == old(self).depth(),
            final(self).max_iterations() == old(self).max_iterations(),
            final(self).tool_names() == old(self).tool_names(),
            final(self).system_prompt() == old(self).system_prompt(),
            final(self).model_name() == old(self).model_name(),
            final(self).token_limit() == old(self).token_limit(),
            final(self).temperature_setting() == old(self).temperature_setting(),
            final(self).conversation() == old(self).conversation(),
            final(self).iterations() == old(self).iterations(),
            final(self).records().len() == 0,
            finished_with(
                res,
                old(self).name(),
                opt_view(answer),
                old(self).iterations(),
                old(self).max_iterations(),
                old(self).depth(),
                old(self).records(),
            ),
    {
        self.finished = true;
        let mut records: Vec<ToolCallRecord> = Vec::new();
        std::mem::swap(&mut records, &mut self.tool_calls);
        let (final_output, warning) = match answer {
            Some(a) => (a, None),
            None => {
                let mut out = prefixed("[max_iterations=", u64_to_string(self.max_iterations as u64).as_str());
                out.append(" reached; see tool_calls for partial progress]");
                let mut w = prefixed("subagent '", self.subagent.as_str());
                w.append("' hit max_iterations=");
                w.append(u64_to_string(self.max_iterations as u64).as_str());
                w.append(" without end_turn");
                (out, Some(w))
            },
        };
        LoopResult {
            subagent: self.subagent.clone(),
            final_output,
            iterations: self.iterations,
            depth: self.depth,
            tool_calls: records,
            warning,
        }
    }

    /// The conversation to send to the model.
    pub fn messages(&self) -> (r: &Vec<AgentMessage>)
        ensures
            conversation_of(r@) == self.conversation(),
    {
        &self.messages
    }

    /// The subagent's system prompt.
    pub fn system(&self) -> (r: &String)
        ensures
            r@ == self.system_prompt(),
    {
        &self.system
    }

    /// The model to call: the subagent's, or `MiniMax-M3`.
    pub fn model(&self) -> (r: &String)
        ensures
            r@ == self.model_name(),
    {
        &self.model
    }

    /// `max_tokens` for each model call: the subagent's, or 16384.
    pub fn max_tokens(&self) -> (r: i32)
        ensures
            r == self.token_limit(),
    {
        self.max_tokens
    }

    /// The subagent's sampling temperature, as the bits of an `f64`.
    pub fn temperature_bits(&self) -> (r: Option<u64>)
        ensures
            r == self.temperature_setting(),
    {
        self.temperature_bits
    }

    /// The JSON arguments of the tool call to run now.
    pub fn current_tool_input(&self) -> (r: &String)
        requires
            self.wf(),
            self.phase() == Phase::AwaitTool,
        ensures
            r@ == self.pending()[self.next() as int].input,
    {
        &self.pending[self.next].input
    }

    /// Decides what to do about the pending call at `next`: run the first tool of its
    /// name, or stop the run when the subagent has no such tool.
    fn dispatch_current(&mut self) -> (a: LoopAction)
        requires
            !old(self).finished,
            old(self).next < old(self).pending@.len(),
        ensures
            tool_action(old(self).tool_names(), old(self).pending()[old(self).next() as int].name, a),
            a is RunTool ==> *final(self) == *old(self),
            a is Fail ==> final(self).phase() == Phase::Done,
            final(self).name() == old(self).name(),
            final(self).task() == old(self).task(),
            final(self).depth() == old(self).depth(),
            final(self).max_iterations() == old(self).max_iterations(),
            final(self).tool_names() == old(self).tool_names(),
            final(self).system_prompt() == old(self).system_prompt(),
            final(self).model_name() == old(self).model_name(),
            final(self).token_limit() == old(self).token_limit(),
            final(self).temperature_setting() == old(self).temperature_setting(),
            final(self).conversation() == old(self).conversation(),
            final(self).iterations() == old(self).iterations(),
            final(self).records() == old(self).records(),
            final(self).pending() == old(self).pending(),
            final(self).next() == old(self).next(),
            final(self).results() == old(self).results(),
    {
        let found = find_tool(&self.tool_names, self.pending[self.next].name.as_str());
        match found {
            Some(i) => LoopAction::RunTool { tool_index: i },
            None => {
                let mut m = prefixed("unknown tool '", self.pending[self.next].name.as_str());
                m.append("' — not in subagent tool catalog");
                self.finished = true;
                LoopAction::Fail(MiniMaxError::Config(m))
            },
        }
    }

    /// Takes a model reply apart into its texts and its tool calls.
    fn read_reply(blocks: Vec<ReplyBlock>) -> (r: (Vec<String>, Vec<ToolUse>))
        ensures
            views(r.0@) == reply_texts(blocks@),
            uses_view(r.1@) == reply_uses(blocks@),
    {
        let ghost bs = blocks@;
        let mut rest = blocks;
        let mut texts: Vec<String> = Vec::new();
        let mut uses: Vec<ToolUse> = Vec::new();
        let n = rest.len();
        let mut i: usize = 0;
        proof {
            reveal_strlit("text");
            reveal_strlit("tool_use");
            assert("text"@.len() != "tool_use"@.len());
        }
        while i < n
            invariant
                bs == blocks@,
                n == bs.len(),
                i <= n,
                rest@ == bs.skip(i as int),
                views(texts@) == reply_texts(bs.take(i as int)),
                uses_view(uses@) == reply_uses(bs.take(i as int)),
                "text"@ != "tool_use"@,
            decreases n - i,
        {
            let b = rest.remove(0);
            assert(b == bs[i as int]);
            assert(bs.take(i + 1).drop_last() =~= bs.take(i as int));
            assert(bs.take(i + 1).last() == b);
            let ghost t0 = texts@;
            let ghost u0 = uses@;
            let ReplyBlock { block_type, text, id, name, input } = b;
            if compare_str(block_type.as_str(), "text") == StrOrder::Equal {
                match text {
                    Some(t) => {
                        texts.push(t);
                        assert(views(texts@) =~= views(t0).push(b.text->Some_0@));
                    },
                    None => {},
                }
            } else if compare_str(block_type.as_str(), "tool_use") == StrOrder::Equal {
                match (id, name, input) {
                    (Some(id), Some(name), Some(input)) => {
                        uses.push(ToolUse { id, name, input });
                        assert(uses_view(uses@) =~= uses_view(u0).push(
                            UseView {
                                id: b.id->Some_0@,
                                name: b.name->Some_0@,
                                input: b.input->Some_0@,
                            },
                        ));
                    },
                    _ => {},
                }
            }
            i = i + 1;
        }
        assert(bs.take(n as int) =~= bs);
        (texts, uses)
    }

    /// Handles the model's reply to the current conversation.
    ///
    /// A reply without tool calls ends the run, its texts joined by newlines being the
    /// final answer. Otherwise the reply (its texts, then its calls) joins the
    /// conversation and the first call is dispatched.
    pub fn on_model_reply(&mut self, blocks: Vec<ReplyBlock>) -> (a: LoopAction)
        requires
            old(self).wf(),
            old(self).phase() == Phase::AwaitModel,
        ensures
            final(self).wf(),
            final(self).name() == old(self).name(),
            final(self).task() == old(self).task(),
            final(self).depth() == old(self).depth(),
            final(self).max_iterations() == old(self).max_iterations(),
            final(self).tool_names() == old(self).tool_names(),
            final(self).system_prompt() == old(self).system_prompt(),
            final(self).model_name() == old(self).model_name(),
            final(self).token_limit() == old(self).token_limit(),
            final(self).temperature_setting() == old(self).temperature_setting(),
            final(self).iterations() == old(self).iterations(),
            ({
                let texts = reply_texts(blocks@);
                let uses = reply_uses(blocks@);
                &&& uses.len() == 0 ==> {
                    &&& final(self).phase() == Phase::Done
                    &&& a matches LoopAction::Finish(res) && finished_with(
                        res,
                        old(self).name(),
                        Some(joined(texts, "\n"@)),
                        old(self).iterations(),
                        old(self).max_iterations(),
                        old(self).depth(),
                        old(self).records(),
                    )
                }
                &&& uses.len() > 0 ==> {
                    &&& final(self).conversation() == old(self).conversation().push(
                        assistant_turn(texts, uses),
                    )
                    &&& final(self).records() == old(self).records()
                    &&& final(self).pending() == uses
                    &&& final(self).next() == 0
                    &&& final(self).results().len() == 0
                    &&& tool_action(old(self).tool_names(), uses[0].name, a)
                    &&& a is RunTool ==> final(self).phase() == Phase::AwaitTool
                    &&& a is Fail ==> final(self).phase() == Phase::Done
                }
            }),
    {
        let (texts, uses) = Self::read_reply(blocks);
        if uses.len() == 0 {
            let answer = join(&texts, "\n");
            let res = self.finish(Some(answer));
            return LoopAction::Finish(res);
        }
        let ghost tv = views(texts@);
        let ghost uv = uses_view(uses@);
        let mut content: Vec<ContentBlock> = Vec::new();
        let nt = texts.len();
        let mut i: usize = 0;
        while i < nt
            invariant
                nt == texts@.len(),
                i <= nt,
                blocks_view(content@) == tv.take(i as int).map_values(|t: Seq<char>| BlockView::Text(t)),
                tv == views(texts@),
            decreases nt - i,
        {
            let ghost c0 = content@;
            content.push(ContentBlock::Text { text: texts[i].clone() });
            assert(blocks_view(content@) =~= blocks_view(c0).push(BlockView::Text(tv[i as int])));
            assert(tv.take(i + 1) =~= tv.take(i as int).push(tv[i as int]));
            assert(tv.take(i + 1).map_values(|t: Seq<char>| BlockView::Text(t)) =~= tv.take(
                i as int,
            ).map_values(|t: Seq<char>| BlockView::Text(t)).push(BlockView::Text(tv[i as int])));
            i = i + 1;
        }
        assert(tv.take(nt as int) =~= tv);
        let nu = uses.len();
        let mut j: usize = 0;
        while j < nu
            invariant
                nu == uses@.len(),
                j <= nu,
                uv == uses_view(uses@),
                blocks_view(content@) == tv.map_values(|t: Seq<char>| BlockView::Text(t)) + uv.take(
                    j as int,
                ).map_values(|u: UseView| BlockView::ToolUse(u)),
            decreases nu - j,
        {
            let ghost c0 = content@;
            content.push(
                ContentBlock::ToolUse {
                    id: uses[j].id.clone(),
                    name: uses[j].name.clone(),
                    input: uses[j].input.clone(),
                },
            );
            assert(blocks_view(content@) =~= blocks_view(c0).push(BlockView::ToolUse(uv[j as int])));
            assert(uv.take(j + 1) =~= uv.take(j as int).push(uv[j as int]));
            assert(uv.take(j + 1).map_values(|u: UseView| BlockView::ToolUse(u)) =~= uv.take(
                j as int,
            ).map_values(|u: UseView| BlockView::ToolUse(u)).push(BlockView::ToolUse(uv[j as int])));
            j = j + 1;
        }
        assert(uv.take(nu as int) =~= uv);
        let ghost old_conv = self.conversation();
        let ghost old_msgs = self.messages@;
        self.messages.push(
            AgentMessage {
                role: String::from_str("assistant"),
                content: MessageContent::Blocks(content),
            },
        );
        self.pending = uses;
        self.next = 0;
        proof {
            reveal_strlit("assistant");
            assert(self.conversation() =~= old_conv.push(assistant_turn(tv, uv)));
            lemma_use_ids_of_turn(tv, uv);
            assert(uv.take(0).map_values(|u: UseView| u.id) =~= Seq::<Seq<char>>::empty());
            assert(self.results() =~= Seq::<BlockView>::empty());
            let c = self.conversation();
            assert forall|k: int| 1 <= k && k + 1 < c.len() && k % 2 == 1 implies answers(
                #[trigger] c[k],
                c[k + 1],
            ) by {
                assert(c[k] == old_conv[k]);
                assert(c[k + 1] == old_conv[k + 1]);
            }
            assert forall|k: int| 0 <= k < c.len() implies (#[trigger] c[k]).role == role_at(k) by {
                if k < old_conv.len() {
                    assert(c[k] == old_conv[k]);
                }
            }
        }
        self.dispatch_current()
    }

    /// Handles the output of the tool call that was dispatched.
    ///
    /// The call is recorded and answered. When more calls of the same reply are pending,
    /// the next is dispatched; otherwise the answers join the conversation and the model is
    /// called again, unless the bound on model calls is reached, which ends the run.
    pub fn on_tool_output(&mut self, output: String, is_error: bool) -> (a: LoopAction)
        requires
            old(self).wf(),
            old(self).phase() == Phase::AwaitTool,
        ensures
            final(self).wf(),
            final(self).name() == old(self).name(),
            final(self).task() == old(self).task(),
            final(self).depth() == old(self).depth(),
            final(self).max_iterations() == old(self).max_iterations(),
            final(self).tool_names() == old(self).tool_names(),
            final(self).system_prompt() == old(self).system_prompt(),
            final(self).model_name() == old(self).model_name(),
            final(self).token_limit() == old(self).token_limit(),
            final(self).temperature_setting() == old(self).temperature_setting(),
            ({
                let u = old(self).pending()[old(self).next() as int];
                let k = old(self).iterations();
                let rs = old(self).results().push(
                    BlockView::ToolResult { id: u.id, content: output@, is_error },
                );
                let last = old(self).next() + 1 == old(self).pending().len();
                &&& !last ==> {
                    &&& final(self).records().len() == old(self).records().len() + 1
                    &&& final(self).records().drop_last() == old(self).records()
                    &&& record_of(final(self).records().last(), k, u, output@, is_error)
                    &&& final(self).conversation() == old(self).conversation()
                    &&& final(self).pending() == old(self).pending()
                    &&& final(self).next() == old(self).next() + 1
                    &&& final(self).results() == rs
                    &&& final(self).iterations() == k
                    &&& tool_action(old(self).tool_names(), old(self).pending()[old(self).next() + 1int].name, a)
                    &&& a is RunTool ==> final(self).phase() == Phase::AwaitTool
                    &&& a is Fail ==> final(self).phase() == Phase::Done
                }
                &&& last && k < old(self).max_iterations() ==> {
                    &&& final(self).records().len() == old(self).records().len() + 1
                    &&& final(self).records().drop_last() == old(self).records()
                    &&& record_of(final(self).records().last(), k, u, output@, is_error)
                    &&& final(self).conversation() == old(self).conversation().push(results_turn(rs))
                    &&& final(self).iterations() == k + 1
                    &&& final(self).phase() == Phase::AwaitModel
                    &&& a is CallModel
                }
                &&& last && k == old(self).max_iterations() ==> {
                    &&& final(self).conversation() == old(self).conversation().push(results_turn(rs))
                    &&& final(self).phase() == Phase::Done
                    &&& a matches LoopAction::Finish(res) && {
                        &&& res.tool_calls@.len() == old(self).records().len() + 1
                        &&& res.tool_calls@.drop_last() == old(self).records()
                        &&& record_of(res.tool_calls@.last(), k, u, output@, is_error)
                        &&& finished_with(
                            res,
                            old(self).name(),
                            None,
                            k,
                            old(self).max_iterations(),
                            old(self).depth(),
                            res.tool_calls@,
                        )
                    }
                }
            }),
    {
        let ghost old_self = *self;
        let ghost u = self.pending()[self.next as int];
        let idx = self.next;
        let plen = self.pending.len();
        assert(idx < plen);
        let subagent = if compare_str(self.pending[idx].name.as_str(), RUN_SUBAGENT_NAME)
            == StrOrder::Equal {
            string_member(self.pending[idx].input.as_str(), "name")
        } else {
            None
        };
        let preview = truncate(output.as_str(), OUTPUT_PREVIEW_CHARS);
        let rec = ToolCallRecord {
            iteration: self.iterations,
            tool: self.pending[idx].name.clone(),
            subagent,
            input: self.pending[idx].input.clone(),
            output_preview: preview,
            is_error,
        };
        let ghost r0 = self.tool_calls@;
        self.tool_calls.push(rec);
        let ghost res0 = self.results@;
        self.results.push(
            ContentBlock::ToolResult {
                tool_use_id: self.pending[idx].id.clone(),
                content: output,
                is_error,
            },
        );
        self.next = idx + 1;
        let ghost rs = old_self.results().push(
            BlockView::ToolResult { id: u.id, content: output@, is_error },
        );
        proof {
            assert(self.tool_calls@.drop_last() =~= r0);
            assert(self.results() =~= rs);
            assert(rs.drop_last() =~= old_self.results());
            assert(result_ids(rs) == result_ids(old_self.results()).push(u.id));
            assert(self.pending().take(self.next as int) =~= old_self.pending().take(idx as int).push(u));
            assert(self.pending().take(self.next as int).map_values(|w: UseView| w.id) =~= old_self.pending().take(
                idx as int,
            ).map_values(|w: UseView| w.id).push(u.id));
            assert forall|i: int| 0 <= i < rs.len() implies (#[trigger] rs[i]) is ToolResult by {
                if i < rs.len() - 1 {
                    assert(rs[i] == old_self.results()[i]);
                }
            }
            assert forall|i: int, j: int| 0 <= i <= j < self.tool_calls@.len() implies (
            #[trigger] self.tool_calls@[i]).iteration <= (#[trigger] self.tool_calls@[j]).iteration by {
                if j < self.tool_calls@.len() - 1 {
                    assert(self.tool_calls@[i] == r0[i]);
                    assert(self.tool_calls@[j] == r0[j]);
                } else if i < self.tool_calls@.len() - 1 {
                    assert(self.tool_calls@[i] == r0[i]);
                }
            }
            assert forall|i: int| 0 <= i < self.tool_calls@.len() implies 1 <= (
            #[trigger] self.tool_calls@[i]).iteration <= self.iterations by {
                if i < self.tool_calls@.len() - 1 {
                    assert(self.tool_calls@[i] == r0[i]);
                }
            }
        }
        if self.next < self.pending.len() {
            return self.dispatch_current();
        }
        let mut done: Vec<ContentBlock> = Vec::new();
        std::mem::swap(&mut done, &mut self.results);
        let ghost old_conv = self.conversation();
        self.messages.push(
            AgentMessage { role: String::from_str("user"), content: MessageContent::Blocks(done) },
        );
        self.pending = Vec::new();
        self.next = 0;
        proof {
            reveal_strlit("user");
            assert(self.conversation() =~= old_conv.push(results_turn(rs)));
            assert(old_self.pending().take(old_self.pending().len() as int) =~= old_self.pending());
            let c = self.conversation();
            assert(answers(c[c.len() - 2], c[c.len() - 1]));
            assert forall|k: int| 1 <= k && k + 1 < c.len() && k % 2 == 1 implies answers(
                #[trigger] c[k],
                c[k + 1],
            ) by {
                if k + 1 < c.len() - 1 {
                    assert(c[k] == old_conv[k]);
                    assert(c[k + 1] == old_conv[k + 1]);
                }
            }
            assert forall|k: int| 0 <= k < c.len() implies (#[trigger] c[k]).role == role_at(k) by {
                if k < old_conv.len() {
                    assert(c[k] == old_conv[k]);
                }
            }
            assert(self.results() =~= Seq::<BlockView>::empty());
        }
        if self.iterations < self.max_iterations {
            self.iterations = self.iterations + 1;
            LoopAction::CallModel
        } else {
            let ghost recs = self.tool_calls@;
            let res = self.finish(None);
            assert(res.tool_calls@ == recs);
            LoopAction::Finish(res)
        }
    }

    /// While a run goes on, the model calls made stay within the bound.
    pub proof fn lemma_iterations_bounded(&self)
        requires
            self.wf(),
            self.phase() != Phase::Done,
        ensures
            1 <= self.iterations() <= self.max_iterations(),
    {
    }

    /// While a run goes on, the conversation opens with the task, alternates between
    /// user and assistant, and each assistant turn followed by a user turn has every
    /// tool call answered, by id and in order.
    pub proof fn lemma_conversation_well_formed(&self)
        requires
            self.wf(),
            self.phase() != Phase::Done,
        ensures
            well_formed_conversation(self.conversation(), self.task()),
    {
    }

    /// While a run goes on, tool calls are recorded in the order of the model calls
    /// that asked for them.
    pub proof fn lemma_records_ordered(&self)
        requires
            self.wf(),
            self.phase() != Phase::Done,
        ensures
            records_ordered(self.records(), self.iterations()),
    {
    }
}

} // verus!

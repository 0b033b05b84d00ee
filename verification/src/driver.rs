//! The conversation driver: a state machine over one query cycle.
//!
//! The driver is fed plain events — an input line, end of input, a model
//! response or failure, a tool result or failure — and answers with the next
//! action to perform: prompt again, query the model, invoke a tool, show a
//! line of text, or stop. The outside loop performs the action and hands the
//! outcome back as the next event; the driver itself does no I/O.

use vstd::prelude::*;

use crate::text::{
    build_error_line, build_trace_line, check_quit, error_line, is_quit, join_lines, joined,
    trace_line, trim_line, trimmed_of,
};
use crate::json::{clone_value, json_text, json_text_of};

verus! {

/// A tool invocation requested by the model: a correlation identifier, the
/// tool's name, and structured arguments.
pub struct ToolCall {
    pub id: String,
    pub name: String,
    pub arguments: serde_json::Value,
}

/// Mathematical model of a [`ToolCall`].
#[verifier::ext_equal]
pub ghost struct ToolCallV {
    pub id: Seq<char>,
    pub name: Seq<char>,
    pub arguments: serde_json::Value,
}

impl View for ToolCall {
    type V = ToolCallV;

    open spec fn view(&self) -> ToolCallV {
        ToolCallV { id: self.id@, name: self.name@, arguments: self.arguments }
    }
}

impl DeepView for ToolCall {
    type V = ToolCallV;

    open spec fn deep_view(&self) -> ToolCallV {
        self.view()
    }
}

impl ToolCall {
    /// A copy of this call, equal to the original.
    pub fn clone_call(&self) -> (r: ToolCall)
        ensures
            r@ == self@,
    {
        ToolCall {
            id: self.id.clone(),
            name: self.name.clone(),
            arguments: clone_value(&self.arguments),
        }
    }
}

/// The serialized outcome of one tool invocation, correlated by the call's
/// identifier.
pub struct ToolResult {
    pub id: String,
    pub payload: String,
}

/// Mathematical model of a [`ToolResult`].
#[verifier::ext_equal]
pub ghost struct ToolResultV {
    pub id: Seq<char>,
    pub payload: Seq<char>,
}

impl View for ToolResult {
    type V = ToolResultV;

    open spec fn view(&self) -> ToolResultV {
        ToolResultV { id: self.id@, payload: self.payload@ }
    }
}

impl DeepView for ToolResult {
    type V = ToolResultV;

    open spec fn deep_view(&self) -> ToolResultV {
        self.view()
    }
}

/// One part of a model response, in the order the model produced it.
pub enum ContentItem {
    /// A text segment.
    Text(String),
    /// A requested tool invocation.
    Call(ToolCall),
}

/// Mathematical model of a [`ContentItem`].
#[verifier::ext_equal]
pub ghost enum ContentItemV {
    Text(Seq<char>),
    Call(ToolCallV),
}

impl View for ContentItem {
    type V = ContentItemV;

    open spec fn view(&self) -> ContentItemV {
        match self {
            ContentItem::Text(t) => ContentItemV::Text(t@),
            ContentItem::Call(c) => ContentItemV::Call(c@),
        }
    }
}

impl DeepView for ContentItem {
    type V = ContentItemV;

    open spec fn deep_view(&self) -> ContentItemV {
        self.view()
    }
}

/// One turn of the conversation history.
pub enum Message {
    /// Text submitted by the user.
    User(String),
    /// A model response carried over verbatim, interleaved structure intact.
    Assistant(Vec<ContentItem>),
    /// The combined results of one batch of tool invocations.
    ToolResults(Vec<ToolResult>),
}

/// Mathematical model of a [`Message`].
#[verifier::ext_equal]
pub ghost enum MessageV {
    User(Seq<char>),
    Assistant(Seq<ContentItemV>),
    ToolResults(Seq<ToolResultV>),
}

impl View for Message {
    type V = MessageV;

    open spec fn view(&self) -> MessageV {
        match self {
            Message::User(t) => MessageV::User(t@),
            Message::Assistant(items) => MessageV::Assistant(items.deep_view()),
            Message::ToolResults(results) => MessageV::ToolResults(results.deep_view()),
        }
    }
}

impl DeepView for Message {
    type V = MessageV;

    open spec fn deep_view(&self) -> MessageV {
        self.view()
    }
}

/// How a tool invocation failed.
pub enum ToolFailure {
    /// The tool process reported an execution error.
    Execution,
    /// The result could not be serialized into a flat payload.
    Serialization,
}

/// What the driver is told.
pub enum Event {
    /// A line was read from input.
    Line(String),
    /// Input ended.
    Eof,
    /// The model answered with these content items, in order.
    ModelReply(Vec<ContentItem>),
    /// The model request failed with this message.
    ModelFailed(String),
    /// The pending tool invocation returned this serialized payload.
    ToolReply(String),
    /// The pending tool invocation failed.
    ToolFailed(ToolFailure),
}

/// Mathematical model of an [`Event`].
#[verifier::ext_equal]
pub ghost enum EventV {
    Line(Seq<char>),
    Eof,
    ModelReply(Seq<ContentItemV>),
    ModelFailed(Seq<char>),
    ToolReply(Seq<char>),
    ToolFailed(ToolFailure),
}

impl View for Event {
    type V = EventV;

    open spec fn view(&self) -> EventV {
        match self {
            Event::Line(s) => EventV::Line(s@),
            Event::Eof => EventV::Eof,
            Event::ModelReply(items) => EventV::ModelReply(items.deep_view()),
            Event::ModelFailed(msg) => EventV::ModelFailed(msg@),
            Event::ToolReply(payload) => EventV::ToolReply(payload@),
            Event::ToolFailed(f) => EventV::ToolFailed(*f),
        }
    }
}

/// What the driver asks the outside loop to do next.
pub enum Action {
    /// Read the next input line.
    Prompt,
    /// Show this text, then read the next input line.
    Show(String),
    /// Send the history to the model; with the tool list attached when the
    /// flag is set.
    QueryModel(bool),
    /// Invoke the named tool with these arguments.
    InvokeTool(String, serde_json::Value),
    /// Terminate the loop.
    Stop,
}

/// Mathematical model of an [`Action`].
#[verifier::ext_equal]
pub ghost enum ActionV {
    Prompt,
    Show(Seq<char>),
    QueryModel(bool),
    InvokeTool(Seq<char>, serde_json::Value),
    Stop,
}

impl View for Action {
    type V = ActionV;

    open spec fn view(&self) -> ActionV {
        match self {
            Action::Prompt => ActionV::Prompt,
            Action::Show(s) => ActionV::Show(s@),
            Action::QueryModel(with_tools) => ActionV::QueryModel(*with_tools),
            Action::InvokeTool(name, args) => ActionV::InvokeTool(name@, *args),
            Action::Stop => ActionV::Stop,
        }
    }
}

/// Where the driver stands within a query cycle.
pub enum Phase {
    /// Between cycles, waiting for input.
    Idle,
    /// The first model request of a cycle is in flight; `out` holds the text
    /// accumulated so far.
    AwaitingFirst { out: Vec<String> },
    /// Tool call `next` of `calls` is in flight; `results` holds the results
    /// of the calls already completed.
    AwaitingTool { out: Vec<String>, calls: Vec<ToolCall>, next: usize, results: Vec<ToolResult> },
    /// The follow-up model request after a tool batch is in flight.
    AwaitingSecond { out: Vec<String> },
    /// The loop has ended.
    Stopped,
}

/// Mathematical model of a [`Phase`].
#[verifier::ext_equal]
pub ghost enum PhaseV {
    Idle,
    AwaitingFirst { out: Seq<Seq<char>> },
    AwaitingTool { out: Seq<Seq<char>>, calls: Seq<ToolCallV>, next: int, results: Seq<ToolResultV> },
    AwaitingSecond { out: Seq<Seq<char>> },
    Stopped,
}

impl View for Phase {
    type V = PhaseV;

    open spec fn view(&self) -> PhaseV {
        match self {
            Phase::Idle => PhaseV::Idle,
            Phase::AwaitingFirst { out } => PhaseV::AwaitingFirst { out: out.deep_view() },
            Phase::AwaitingTool { out, calls, next, results } => PhaseV::AwaitingTool {
                out: out.deep_view(),
                calls: calls.deep_view(),
                next: *next as int,
                results: results.deep_view(),
            },
            Phase::AwaitingSecond { out } => PhaseV::AwaitingSecond { out: out.deep_view() },
            Phase::Stopped => PhaseV::Stopped,
        }
    }
}

/// A phase the driver can actually be in: while a tool call is in flight, the
/// pending index is within the batch and exactly the earlier calls have
/// results.
pub open spec fn wf_phase(p: PhaseV) -> bool {
    match p {
        PhaseV::AwaitingTool { calls, next, results, .. } => {
            &&& 0 <= next < calls.len()
            &&& results.len() == next
        },
        _ => true,
    }
}

/// The text segments of a model response, in order.
pub open spec fn texts_of(items: Seq<ContentItemV>) -> Seq<Seq<char>>
    decreases items.len(),
{
    if items.len() == 0 {
        Seq::empty()
    } else {
        let rest = texts_of(items.drop_last());
        match items.last() {
            ContentItemV::Text(t) => rest.push(t),
            ContentItemV::Call(_) => rest,
        }
    }
}

/// The tool calls of a model response, in order.
pub open spec fn calls_of(items: Seq<ContentItemV>) -> Seq<ToolCallV>
    decreases items.len(),
{
    if items.len() == 0 {
        Seq::empty()
    } else {
        let rest = calls_of(items.drop_last());
        match items.last() {
            ContentItemV::Text(_) => rest,
            ContentItemV::Call(c) => rest.push(c),
        }
    }
}

/// The trace line announcing one tool invocation.
pub open spec fn call_trace(c: ToolCallV) -> Seq<char> {
    trace_line(c.name, json_text_of(c.arguments))
}

/// The message shown when a tool invocation fails.
pub open spec fn failure_text(name: Seq<char>, f: ToolFailure) -> Seq<char> {
    match f {
        ToolFailure::Execution => "Tool call "@ + name + " failed"@,
        ToolFailure::Serialization => "Failed to serialize tool result"@,
    }
}

/// Builds the message shown when a tool invocation fails.
pub fn build_failure_text(name: &str, f: &ToolFailure) -> (r: String)
    ensures
        r@ == failure_text(name@, *f),
{
    match f {
        ToolFailure::Execution => {
            let mut r = String::new();
            r.append("Tool call ");
            r.append(name);
            r.append(" failed");
            proof {
                assert(r@ =~= failure_text(name@, *f));
            }
            r
        },
        ToolFailure::Serialization => {
            String::from_str("Failed to serialize tool result")
        },
    }
}

/// Extracts the text segments of a response, in order.
pub fn extract_texts(items: &Vec<ContentItem>) -> (r: Vec<String>)
    ensures
        r.deep_view() == texts_of(items.deep_view()),
{
    let ghost all = items.deep_view();
    let mut r: Vec<String> = Vec::new();
    let mut i: usize = 0;
    while i < items.len()
        invariant
            i <= items.len(),
            all == items.deep_view(),
            all.len() == items.len(),
            r.deep_view() == texts_of(all.take(i as int)),
        decreases items.len() - i,
    {
        let ghost prev = r.deep_view();
        match &items[i] {
            ContentItem::Text(t) => {
                r.push(t.clone());
                proof {
                    assert(r.deep_view() =~= prev.push(t@));
                }
            },
            ContentItem::Call(_) => {},
        }
        proof {
            assert(all.take(i + 1 as int).drop_last() =~= all.take(i as int));
            assert(all.take(i + 1 as int).last() == all[i as int]);
            assert(r.deep_view() =~= texts_of(all.take(i + 1 as int)));
        }
        i = i + 1;
    }
    proof {
        assert(all.take(items.len() as int) =~= all);
    }
    r
}

/// Extracts the tool calls of a response, in order.
pub fn extract_calls(items: &Vec<ContentItem>) -> (r: Vec<ToolCall>)
    ensures
        r.deep_view() == calls_of(items.deep_view()),
{
    let ghost all = items.deep_view();
    let mut r: Vec<ToolCall> = Vec::new();
    let mut i: usize = 0;
    while i < items.len()
        invariant
            i <= items.len(),
            all == items.deep_view(),
            all.len() == items.len(),
            r.deep_view() == calls_of(all.take(i as int)),
        decreases items.len() - i,
    {
        let ghost prev = r.deep_view();
        match &items[i] {
            ContentItem::Text(_) => {},
            ContentItem::Call(c) => {
                r.push(c.clone_call());
                proof {
                    assert(r.deep_view() =~= prev.push(c@));
                }
            },
        }
        proof {
            assert(all.take(i + 1 as int).drop_last() =~= all.take(i as int));
            assert(all.take(i + 1 as int).last() == all[i as int]);
            assert(r.deep_view() =~= calls_of(all.take(i + 1 as int)));
        }
        i = i + 1;
    }
    proof {
        assert(all.take(items.len() as int) =~= all);
    }
    r
}

/// Mathematical model of a [`Driver`].
#[verifier::ext_equal]
pub ghost struct DriverV {
    pub history: Seq<MessageV>,
    pub phase: PhaseV,
}

/// The conversation driver: the running message history and the phase of the
/// current query cycle.
pub struct Driver {
    history: Vec<Message>,
    phase: Phase,
}

impl View for Driver {
    type V = DriverV;

    closed spec fn view(&self) -> DriverV {
        DriverV { history: self.history.deep_view(), phase: self.phase@ }
    }
}

/// The driver's transition function: from a state and an event to the next
/// state and the action the outside loop must perform.
///
/// A non-empty, non-quit input line at idle appends the trimmed line to
/// history as a user turn and asks for the first model request of the cycle,
/// with the tool list attached. The quit command or end of input stops the
/// loop; an empty line asks for the next prompt. A model reply without tool
/// calls ends the cycle: its text is joined and shown, and history is not
/// touched further. A reply with tool calls appends the whole response as an
/// assistant turn and invokes the calls one at a time, in order, each
/// announced by a trace line; each result is recorded, and after the last
/// one the combined results are appended as a single turn and the follow-up
/// model request is asked for, without the tool list. The follow-up reply
/// only contributes text, even if it requests tools. A model failure or a
/// tool failure aborts the cycle: an error line is shown and the driver is
/// idle again; a tool failure still appends the results completed so far as
/// the combined turn. An event that does not fit the phase stops the loop.
pub open spec fn spec_step(d: DriverV, ev: EventV) -> (DriverV, ActionV) {
    match (d.phase, ev) {
        (PhaseV::Idle, EventV::Line(s)) => {
            let t = trimmed_of(s);
            if is_quit(t) {
                (DriverV { history: d.history, phase: PhaseV::Stopped }, ActionV::Stop)
            } else if t.len() == 0 {
                (d, ActionV::Prompt)
            } else {
                (
                    DriverV {
                        history: d.history.push(MessageV::User(t)),
                        phase: PhaseV::AwaitingFirst { out: Seq::empty() },
                    },
                    ActionV::QueryModel(true),
                )
            }
        },
        (PhaseV::Idle, EventV::Eof) => (
            DriverV { history: d.history, phase: PhaseV::Stopped },
            ActionV::Stop,
        ),
        (PhaseV::AwaitingFirst { out }, EventV::ModelReply(items)) => {
            let out1 = out + texts_of(items);
            let cs = calls_of(items);
            if cs.len() == 0 {
                (DriverV { history: d.history, phase: PhaseV::Idle }, ActionV::Show(joined(out1)))
            } else {
                (
                    DriverV {
                        history: d.history.push(MessageV::Assistant(items)),
                        phase: PhaseV::AwaitingTool {
                            out: out1.push(call_trace(cs[0])),
                            calls: cs,
                            next: 0,
                            results: Seq::empty(),
                        },
                    },
                    ActionV::InvokeTool(cs[0].name, cs[0].arguments),
                )
            }
        },
        (PhaseV::AwaitingFirst { .. }, EventV::ModelFailed(msg)) => (
            DriverV { history: d.history, phase: PhaseV::Idle },
            ActionV::Show(error_line(msg)),
        ),
        (PhaseV::AwaitingTool { out, calls, next, results }, EventV::ToolReply(payload)) => {
            let results1 = results.push(ToolResultV { id: calls[next].id, payload });
            if next + 1 < calls.len() {
                (
                    DriverV {
                        history: d.history,
                        phase: PhaseV::AwaitingTool {
                            out: out.push(call_trace(calls[next + 1])),
                            calls,
                            next: next + 1,
                            results: results1,
                        },
                    },
                    ActionV::InvokeTool(calls[next + 1].name, calls[next + 1].arguments),
                )
            } else {
                (
                    DriverV {
                        history: d.history.push(MessageV::ToolResults(results1)),
                        phase: PhaseV::AwaitingSecond { out },
                    },
                    ActionV::QueryModel(false),
                )
            }
        },
        (PhaseV::AwaitingTool { calls, next, results, .. }, EventV::ToolFailed(f)) => (
            DriverV {
                history: d.history.push(MessageV::ToolResults(results)),
                phase: PhaseV::Idle,
            },
            ActionV::Show(error_line(failure_text(calls[next].name, f))),
        ),
        (PhaseV::AwaitingSecond { out }, EventV::ModelReply(items)) => (
            DriverV { history: d.history, phase: PhaseV::Idle },
            ActionV::Show(joined(out + texts_of(items))),
        ),
        (PhaseV::AwaitingSecond { .. }, EventV::ModelFailed(msg)) => (
            DriverV { history: d.history, phase: PhaseV::Idle },
            ActionV::Show(error_line(msg)),
        ),
        _ => (DriverV { history: d.history, phase: PhaseV::Stopped }, ActionV::Stop),
    }
}

impl Driver {
    /// A fresh driver: empty history, idle.
    pub fn new() -> (r: Driver)
        ensures
            r@.history == Seq::<MessageV>::empty(),
            r@.phase is Idle,
            wf_phase(r@.phase),
    {
        let r = Driver { history: Vec::new(), phase: Phase::Idle };
        proof {
            assert(r@.history =~= Seq::<MessageV>::empty());
        }
        r
    }

    /// The running message history, for building chat requests.
    pub fn history(&self) -> (r: &Vec<Message>)
        ensures
            r.deep_view() == self@.history,
    {
        &self.history
    }

    /// Feeds one event to the driver and returns the next action, exactly as
    /// [`spec_step`] describes.
    pub fn step(&mut self, ev: Event) -> (r: Action)
        requires
            wf_phase(old(self)@.phase),
        ensures
            final(self)@ == spec_step(old(self)@, ev@).0,
            r@ == spec_step(old(self)@, ev@).1,
            wf_phase(final(self)@.phase),
    {
        let ghost d0 = self@;
        let mut phase = Phase::Idle;
        core::mem::swap(&mut phase, &mut self.phase);
        match (phase, ev) {
            (Phase::Idle, Event::Line(s)) => {
                let t = trim_line(s.as_str());
                if check_quit(t.as_str()) {
                    self.phase = Phase::Stopped;
                    Action::Stop
                } else if t.as_str().is_empty() {
                    self.phase = Phase::Idle;
                    Action::Prompt
                } else {
                    let ghost prev = self.history.deep_view();
                    let ghost tv = t@;
                    self.history.push(Message::User(t));
                    proof {
                        assert(self.history.deep_view() =~= prev.push(MessageV::User(tv)));
                    }
                    self.phase = Phase::AwaitingFirst { out: Vec::new() };
                    proof {
                        assert(self@.phase =~= (PhaseV::AwaitingFirst { out: Seq::empty() }));
                        assert(self@ =~= spec_step(d0, EventV::Line(s@)).0);
                    }
                    Action::QueryModel(true)
                }
            },
            (Phase::Idle, Event::Eof) => {
                self.phase = Phase::Stopped;
                Action::Stop
            },
            (Phase::AwaitingFirst { out }, Event::ModelReply(items)) => {
                let mut out = out;
                let ghost out0 = out.deep_view();
                let mut texts = extract_texts(&items);
                out.append(&mut texts);
                proof {
                    assert(out.deep_view() =~= out0 + texts_of(items.deep_view()));
                }
                let calls = extract_calls(&items);
                if calls.len() == 0 {
                    let shown = join_lines(&out);
                    self.phase = Phase::Idle;
                    proof {
                        assert(self@ =~= spec_step(d0, EventV::ModelReply(items.deep_view())).0);
                    }
                    Action::Show(shown)
                } else {
                    let ghost prevh = self.history.deep_view();
                    let ghost itemsv = items.deep_view();
                    self.history.push(Message::Assistant(items));
                    proof {
                        assert(self.history.deep_view() =~= prevh.push(
                            MessageV::Assistant(itemsv),
                        ));
                    }
                    let args_text = json_text(&calls[0].arguments);
                    let trace = build_trace_line(calls[0].name.as_str(), args_text.as_str());
                    let ghost out1 = out.deep_view();
                    out.push(trace);
                    proof {
                        assert(out.deep_view() =~= out1.push(call_trace(calls.deep_view()[0])));
                    }
                    let act = Action::InvokeTool(
                        calls[0].name.clone(),
                        clone_value(&calls[0].arguments),
                    );
                    self.phase = Phase::AwaitingTool { out, calls, next: 0, results: Vec::new() };
                    proof {
                        let (dt, at) = spec_step(d0, EventV::ModelReply(itemsv));
                        assert(self@.phase =~= dt.phase);
                        assert(self@ =~= dt);
                        assert(act@ =~= at);
                    }
                    act
                }
            },
            (Phase::AwaitingFirst { .. }, Event::ModelFailed(msg)) => {
                self.phase = Phase::Idle;
                Action::Show(build_error_line(msg.as_str()))
            },
            (Phase::AwaitingTool { out, calls, next, results }, Event::ToolReply(payload)) => {
                let mut out = out;
                let mut results = results;
                let ghost results0 = results.deep_view();
                let ghost callsv = calls.deep_view();
                let ghost payloadv = payload@;
                proof {
                    assert(wf_phase(d0.phase));
                    assert((next as int) < callsv.len());
                    assert(callsv.len() == calls@.len());
                }
                let result = ToolResult { id: calls[next].id.clone(), payload };
                results.push(result);
                proof {
                    assert(results.deep_view() =~= results0.push(
                        ToolResultV { id: callsv[next as int].id, payload: payloadv },
                    ));
                }
                let len = calls.len();
                proof {
                    assert(len >= 1);
                }
                if next < len - 1 {
                    let c = &calls[next + 1];
                    let args_text = json_text(&c.arguments);
                    let trace = build_trace_line(c.name.as_str(), args_text.as_str());
                    let ghost out0 = out.deep_view();
                    out.push(trace);
                    proof {
                        assert(out.deep_view() =~= out0.push(call_trace(callsv[next + 1 as int])));
                    }
                    let act = Action::InvokeTool(c.name.clone(), clone_value(&c.arguments));
                    self.phase = Phase::AwaitingTool { out, calls, next: next + 1, results };
                    proof {
                        let (dt, at) = spec_step(d0, EventV::ToolReply(payloadv));
                        assert(self@.phase =~= dt.phase);
                        assert(self@ =~= dt);
                        assert(act@ =~= at);
                    }
                    act
                } else {
                    let ghost prevh = self.history.deep_view();
                    let ghost resultsv = results.deep_view();
                    self.history.push(Message::ToolResults(results));
                    proof {
                        assert(self.history.deep_view() =~= prevh.push(
                            MessageV::ToolResults(resultsv),
                        ));
                    }
                    self.phase = Phase::AwaitingSecond { out };
                    proof {
                        let (dt, _) = spec_step(d0, EventV::ToolReply(payloadv));
                        assert(self@ =~= dt);
                    }
                    Action::QueryModel(false)
                }
            },
            (Phase::AwaitingTool { calls, next, results, .. }, Event::ToolFailed(f)) => {
                let msg = build_failure_text(calls[next].name.as_str(), &f);
                let ghost prevh = self.history.deep_view();
                let ghost resultsv = results.deep_view();
                self.history.push(Message::ToolResults(results));
                self.phase = Phase::Idle;
                proof {
                    assert(self.history.deep_view() =~= prevh.push(
                        MessageV::ToolResults(resultsv),
                    ));
                    let (dt, _) = spec_step(d0, EventV::ToolFailed(f));
                    assert(self@ =~= dt);
                }
                Action::Show(build_error_line(msg.as_str()))
            },
            (Phase::AwaitingSecond { out }, Event::ModelReply(items)) => {
                let mut out = out;
                let ghost out0 = out.deep_view();
                let mut texts = extract_texts(&items);
                out.append(&mut texts);
                proof {
                    assert(out.deep_view() =~= out0 + texts_of(items.deep_view()));
                }
                let shown = join_lines(&out);
                self.phase = Phase::Idle;
                Action::Show(shown)
            },
            (Phase::AwaitingSecond { .. }, Event::ModelFailed(msg)) => {
                self.phase = Phase::Idle;
                Action::Show(build_error_line(msg.as_str()))
            },
            (_, _) => {
                self.phase = Phase::Stopped;
                Action::Stop
            },
        }
    }
}

} // verus!

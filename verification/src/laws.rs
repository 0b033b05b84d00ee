//! Properties of the conversation driver, proved over [`spec_step`]: what a
//! whole query cycle does, as a function of the events the outside loop feeds
//! back.

use vstd::prelude::*;

use crate::driver::{
    ActionV, ContentItemV, DriverV, EventV, MessageV, PhaseV, ToolCallV, ToolFailure, ToolResultV,
    call_trace, calls_of, failure_text, spec_step, texts_of, wf_phase,
};
use crate::text::{error_line, is_quit, joined, trimmed_of};

verus! {

/// Runs the driver over a sequence of events: the final state and the actions
/// answered, one per event, in order.
pub open spec fn run(d: DriverV, evs: Seq<EventV>) -> (DriverV, Seq<ActionV>)
    decreases evs.len(),
{
    if evs.len() == 0 {
        (d, Seq::empty())
    } else {
        let first = spec_step(d, evs[0]);
        let rest = run(first.0, evs.drop_first());
        (rest.0, seq![first.1] + rest.1)
    }
}

/// Running one event is one step.
pub proof fn lemma_run_one(d: DriverV, ev: EventV)
    ensures
        run(d, seq![ev]).0 == spec_step(d, ev).0,
        run(d, seq![ev]).1 == seq![spec_step(d, ev).1],
{
    reveal_with_fuel(run, 2);
    let evs = seq![ev];
    assert(evs.drop_first() =~= Seq::<EventV>::empty());
    assert(run(spec_step(d, ev).0, evs.drop_first()).1 =~= Seq::<ActionV>::empty());
    assert(run(d, evs).1 =~= seq![spec_step(d, ev).1]);
}

/// Running a concatenation of event sequences runs one after the other.
pub proof fn lemma_run_append(d: DriverV, a: Seq<EventV>, b: Seq<EventV>)
    ensures
        run(d, a + b).0 == run(run(d, a).0, b).0,
        run(d, a + b).1 == run(d, a).1 + run(run(d, a).0, b).1,
    decreases a.len(),
{
    if a.len() == 0 {
        assert(a + b =~= b);
        assert(run(d, a).1 + run(run(d, a).0, b).1 =~= run(d, b).1);
    } else {
        let first = spec_step(d, a[0]);
        assert((a + b)[0] == a[0]);
        assert((a + b).drop_first() =~= a.drop_first() + b);
        lemma_run_append(first.0, a.drop_first(), b);
        assert(run(d, a + b).1 =~= run(d, a).1 + run(run(d, a).0, b).1);
    }
}

/// For every non-empty, non-quit input line received at idle, a query cycle
/// starts: the trimmed line is appended to history as a user turn, exactly
/// once, and the one resulting action is the first model request of the
/// cycle, with the tool list attached — so the user turn is in history before
/// any model call of the cycle.
pub proof fn lemma_input_starts_cycle(d: DriverV, s: Seq<char>)
    requires
        d.phase is Idle,
    ensures
        ({
            let t = trimmed_of(s);
            (!is_quit(t) && t.len() > 0) ==> spec_step(d, EventV::Line(s)) == (
                DriverV {
                    history: d.history.push(MessageV::User(t)),
                    phase: PhaseV::AwaitingFirst { out: Seq::empty() },
                },
                ActionV::QueryModel(true),
            )
        }),
{
}

/// End of input at idle stops the loop without any error being shown: the one
/// action is `Stop`, and history is untouched, so the outside loop falls
/// through to its cleanup.
pub proof fn lemma_eof_stops_cleanly(d: DriverV)
    requires
        d.phase is Idle,
    ensures
        run(d, seq![EventV::Eof]).0 == (DriverV { history: d.history, phase: PhaseV::Stopped }),
        run(d, seq![EventV::Eof]).1 == seq![ActionV::Stop],
{
    lemma_run_one(d, EventV::Eof);
}

/// If the model's response contains zero tool calls, exactly one model
/// request is sent for the query — the actions of the cycle are the one
/// request and the final text — and no tool-result turn is ever appended:
/// history grows by the user turn alone.
pub proof fn lemma_reply_without_tool_calls(d: DriverV, s: Seq<char>, items: Seq<ContentItemV>)
    requires
        d.phase is Idle,
        calls_of(items).len() == 0,
    ensures
        ({
            let t = trimmed_of(s);
            let r = run(d, seq![EventV::Line(s), EventV::ModelReply(items)]);
            (!is_quit(t) && t.len() > 0) ==> {
                &&& r.1 == seq![
                    ActionV::QueryModel(true),
                    ActionV::Show(joined(texts_of(items))),
                ]
                &&& r.0.history == d.history.push(MessageV::User(t))
                &&& r.0.phase is Idle
            }
        }),
{
    let t = trimmed_of(s);
    if !is_quit(t) && t.len() > 0 {
        let evs = seq![EventV::Line(s), EventV::ModelReply(items)];
        let d1 = spec_step(d, EventV::Line(s)).0;
        assert(evs.drop_first() =~= seq![EventV::ModelReply(items)]);
        lemma_run_one(d1, EventV::ModelReply(items));
        assert(Seq::<Seq<char>>::empty() + texts_of(items) =~= texts_of(items));
        assert(run(d, evs).1 =~= seq![
            ActionV::QueryModel(true),
            ActionV::Show(joined(texts_of(items))),
        ]);
    }
}

/// The results of the batch `payloads`, answered for `calls[next..]` in order.
pub open spec fn batch_results(calls: Seq<ToolCallV>, next: int, payloads: Seq<Seq<char>>) -> Seq<
    ToolResultV,
> {
    Seq::new(
        payloads.len(),
        |i: int| ToolResultV { id: calls[next + i].id, payload: payloads[i] },
    )
}

/// The invocation actions for `calls[from..from + n]`, in order.
pub open spec fn invocations(calls: Seq<ToolCallV>, from: int, n: int) -> Seq<ActionV> {
    Seq::new(n as nat, |i: int| ActionV::InvokeTool(calls[from + i].name, calls[from + i].arguments))
}

/// The trace lines for `calls[from..from + n]`, in order.
pub open spec fn batch_traces(calls: Seq<ToolCallV>, from: int, n: int) -> Seq<Seq<char>> {
    Seq::new(n as nat, |i: int| call_trace(calls[from + i]))
}

/// The payloads as tool-reply events, in order.
pub open spec fn tool_replies(payloads: Seq<Seq<char>>) -> Seq<EventV> {
    Seq::new(payloads.len(), |i: int| EventV::ToolReply(payloads[i]))
}

/// Feeding the replies for every remaining call of the batch invokes the
/// following calls one at a time, in order, then appends the combined
/// tool-result turn — exactly one — and asks for exactly one second model
/// request.
pub proof fn lemma_tool_batch(d: DriverV, payloads: Seq<Seq<char>>)
    requires
        wf_phase(d.phase),
        d.phase matches PhaseV::AwaitingTool { calls, next, .. } && payloads.len() == calls.len()
            - next,
    ensures
        ({
            let r = run(d, tool_replies(payloads));
            match d.phase {
                PhaseV::AwaitingTool { out, calls, next, results } => {
                    &&& r.1 == invocations(calls, next + 1, calls.len() - next - 1).push(
                        ActionV::QueryModel(false),
                    )
                    &&& r.0.history == d.history.push(
                        MessageV::ToolResults(results + batch_results(calls, next, payloads)),
                    )
                    &&& r.0.phase == (PhaseV::AwaitingSecond {
                        out: out + batch_traces(calls, next + 1, calls.len() - next - 1),
                    })
                },
                _ => true,
            }
        }),
    decreases payloads.len(),
{
    let evs = tool_replies(payloads);
    match d.phase {
        PhaseV::AwaitingTool { out, calls, next, results } => {
            let step1 = spec_step(d, EventV::ToolReply(payloads[0]));
            let r0 = ToolResultV { id: calls[next].id, payload: payloads[0] };
            if payloads.len() == 1 {
                lemma_run_one(d, EventV::ToolReply(payloads[0]));
                assert(evs =~= seq![EventV::ToolReply(payloads[0])]);
                assert(results.push(r0) =~= results + batch_results(calls, next, payloads));
                assert(invocations(calls, next + 1, 0).push(ActionV::QueryModel(false)) =~= seq![
                    ActionV::QueryModel(false),
                ]);
                assert(out + batch_traces(calls, next + 1, 0) =~= out);
                assert(run(d, evs).1 =~= seq![ActionV::QueryModel(false)]);
            } else {
                let d1 = step1.0;
                let rest = payloads.drop_first();
                lemma_tool_batch(d1, rest);
                assert(evs.drop_first() =~= tool_replies(rest));
                assert(evs[0] == EventV::ToolReply(payloads[0]));
                // the state after the first reply
                assert(d1.phase == (PhaseV::AwaitingTool {
                    out: out.push(call_trace(calls[next + 1])),
                    calls,
                    next: next + 1,
                    results: results.push(r0),
                }));
                // results compose across the first reply
                assert(results.push(r0) + batch_results(calls, next + 1, rest) =~= results
                    + batch_results(calls, next, payloads));
                // trace lines compose across the first reply
                assert(out.push(call_trace(calls[next + 1])) + batch_traces(
                    calls,
                    next + 2,
                    calls.len() - next - 2,
                ) =~= out + batch_traces(calls, next + 1, calls.len() - next - 1));
                // actions compose across the first reply
                assert(seq![step1.1] + invocations(calls, next + 2, calls.len() - next - 2).push(
                    ActionV::QueryModel(false),
                ) =~= invocations(calls, next + 1, calls.len() - next - 1).push(
                    ActionV::QueryModel(false),
                ));
            }
        },
        _ => {},
    }
}

/// Feeding the replies for part of the batch invokes the following calls, in
/// order, and leaves the driver awaiting the next reply, with the completed
/// results recorded and history untouched.
pub proof fn lemma_tool_batch_partial(d: DriverV, payloads: Seq<Seq<char>>)
    requires
        wf_phase(d.phase),
        d.phase matches PhaseV::AwaitingTool { calls, next, .. } && payloads.len() < calls.len()
            - next,
    ensures
        ({
            let r = run(d, tool_replies(payloads));
            match d.phase {
                PhaseV::AwaitingTool { out, calls, next, results } => {
                    let k = payloads.len() as int;
                    &&& r.1 == invocations(calls, next + 1, k)
                    &&& r.0.history == d.history
                    &&& r.0.phase == (PhaseV::AwaitingTool {
                        out: out + batch_traces(calls, next + 1, k),
                        calls,
                        next: next + k,
                        results: results + batch_results(calls, next, payloads),
                    })
                },
                _ => true,
            }
        }),
    decreases payloads.len(),
{
    let evs = tool_replies(payloads);
    match d.phase {
        PhaseV::AwaitingTool { out, calls, next, results } => {
            if payloads.len() == 0 {
                assert(evs =~= Seq::<EventV>::empty());
                assert(invocations(calls, next + 1, 0) =~= Seq::<ActionV>::empty());
                assert(out + batch_traces(calls, next + 1, 0) =~= out);
                assert(results + batch_results(calls, next, payloads) =~= results);
                assert(run(d, evs).0.phase =~= (PhaseV::AwaitingTool { out, calls, next, results }));
            } else {
                let step1 = spec_step(d, EventV::ToolReply(payloads[0]));
                let r0 = ToolResultV { id: calls[next].id, payload: payloads[0] };
                let d1 = step1.0;
                let rest = payloads.drop_first();
                let k = payloads.len() as int;
                lemma_tool_batch_partial(d1, rest);
                assert(evs.drop_first() =~= tool_replies(rest));
                assert(evs[0] == EventV::ToolReply(payloads[0]));
                assert(d1.phase == (PhaseV::AwaitingTool {
                    out: out.push(call_trace(calls[next + 1])),
                    calls,
                    next: next + 1,
                    results: results.push(r0),
                }));
                assert(results.push(r0) + batch_results(calls, next + 1, rest) =~= results
                    + batch_results(calls, next, payloads));
                assert(out.push(call_trace(calls[next + 1])) + batch_traces(calls, next + 2, k - 1)
                    =~= out + batch_traces(calls, next + 1, k));
                assert(seq![step1.1] + invocations(calls, next + 2, k - 1) =~= invocations(
                    calls,
                    next + 1,
                    k,
                ));
            }
        },
        _ => {},
    }
}

/// If a response contains `N >= 1` tool calls, the cycle makes exactly `N`
/// tool invocations, in the order the response listed them, appends exactly
/// one combined tool-result turn — after the assistant turn — and sends
/// exactly one second model request, without the tool list; the cycle's
/// actions and history growth are exactly these and nothing else.
pub proof fn lemma_tool_calls_cycle(
    d: DriverV,
    s: Seq<char>,
    items: Seq<ContentItemV>,
    payloads: Seq<Seq<char>>,
    items2: Seq<ContentItemV>,
)
    requires
        d.phase is Idle,
        calls_of(items).len() >= 1,
        payloads.len() == calls_of(items).len(),
    ensures
        ({
            let t = trimmed_of(s);
            let calls = calls_of(items);
            let n = calls.len() as int;
            let evs = seq![EventV::Line(s), EventV::ModelReply(items)] + tool_replies(payloads)
                + seq![EventV::ModelReply(items2)];
            let r = run(d, evs);
            (!is_quit(t) && t.len() > 0) ==> {
                &&& r.1 == seq![ActionV::QueryModel(true)] + invocations(calls, 0, n) + seq![
                    ActionV::QueryModel(false),
                    ActionV::Show(
                        joined(texts_of(items) + batch_traces(calls, 0, n) + texts_of(items2)),
                    ),
                ]
                &&& r.0.history == d.history + seq![
                    MessageV::User(t),
                    MessageV::Assistant(items),
                    MessageV::ToolResults(batch_results(calls, 0, payloads)),
                ]
                &&& r.0.phase is Idle
            }
        }),
{
    let t = trimmed_of(s);
    if !is_quit(t) && t.len() > 0 {
        let calls = calls_of(items);
        let n = calls.len() as int;
        let a = seq![EventV::Line(s), EventV::ModelReply(items)];
        let b = tool_replies(payloads);
        let c = seq![EventV::ModelReply(items2)];
        let evs = a + b + c;
        assert(evs =~= a + (b + c));

        // the first two steps: the user turn, then the assistant turn and the
        // first invocation
        let d1 = spec_step(d, EventV::Line(s)).0;
        let step2 = spec_step(d1, EventV::ModelReply(items));
        let d2 = step2.0;
        let out2 = (Seq::<Seq<char>>::empty() + texts_of(items)).push(call_trace(calls[0]));
        assert(d2.phase == (PhaseV::AwaitingTool {
            out: out2,
            calls,
            next: 0,
            results: Seq::empty(),
        }));
        reveal_with_fuel(run, 3);
        assert(a.drop_first() =~= seq![EventV::ModelReply(items)]);
        lemma_run_one(d1, EventV::ModelReply(items));
        assert(run(d, a).0 == d2);
        assert(run(d, a).1 =~= seq![ActionV::QueryModel(true), step2.1]);

        // the batch of tool replies
        lemma_run_append(d, a, b + c);
        lemma_run_append(d2, b, c);
        lemma_tool_batch(d2, payloads);
        let d3 = run(d2, b).0;
        assert(d3.phase == (PhaseV::AwaitingSecond {
            out: out2 + batch_traces(calls, 1, n - 1),
        }));

        // the follow-up model reply
        lemma_run_one(d3, EventV::ModelReply(items2));
        let out3 = (out2 + batch_traces(calls, 1, n - 1)) + texts_of(items2);
        assert(out3 =~= texts_of(items) + batch_traces(calls, 0, n) + texts_of(items2));

        let r = run(d, evs);
        assert(r.1 =~= seq![ActionV::QueryModel(true)] + invocations(calls, 0, n) + seq![
            ActionV::QueryModel(false),
            ActionV::Show(joined(texts_of(items) + batch_traces(calls, 0, n) + texts_of(items2))),
        ]);
        assert(r.0.history =~= d.history + seq![
            MessageV::User(t),
            MessageV::Assistant(items),
            MessageV::ToolResults(batch_results(calls, 0, payloads)),
        ]);
    }
}

/// A tool-execution failure aborts the remaining calls of the batch and is
/// reported as an error line: with `j` calls already completed, exactly
/// `j + 1` invocations occur, history contains the assistant turn and the `j`
/// completed results — as the one combined turn — and no second model request
/// is made.
pub proof fn lemma_tool_failure_aborts(
    d: DriverV,
    s: Seq<char>,
    items: Seq<ContentItemV>,
    payloads: Seq<Seq<char>>,
    f: ToolFailure,
)
    requires
        d.phase is Idle,
        calls_of(items).len() >= 1,
        payloads.len() < calls_of(items).len(),
    ensures
        ({
            let t = trimmed_of(s);
            let calls = calls_of(items);
            let j = payloads.len() as int;
            let evs = seq![EventV::Line(s), EventV::ModelReply(items)] + tool_replies(payloads)
                + seq![EventV::ToolFailed(f)];
            let r = run(d, evs);
            (!is_quit(t) && t.len() > 0) ==> {
                &&& r.1 == seq![ActionV::QueryModel(true)] + invocations(calls, 0, j + 1) + seq![
                    ActionV::Show(error_line(failure_text(calls[j].name, f))),
                ]
                &&& r.0.history == d.history + seq![
                    MessageV::User(t),
                    MessageV::Assistant(items),
                    MessageV::ToolResults(batch_results(calls, 0, payloads)),
                ]
                &&& r.0.phase is Idle
            }
        }),
{
    let t = trimmed_of(s);
    if !is_quit(t) && t.len() > 0 {
        let calls = calls_of(items);
        let j = payloads.len() as int;
        let a = seq![EventV::Line(s), EventV::ModelReply(items)];
        let b = tool_replies(payloads);
        let c = seq![EventV::ToolFailed(f)];
        let evs = a + b + c;
        assert(evs =~= a + (b + c));

        let d1 = spec_step(d, EventV::Line(s)).0;
        let step2 = spec_step(d1, EventV::ModelReply(items));
        let d2 = step2.0;
        let out2 = (Seq::<Seq<char>>::empty() + texts_of(items)).push(call_trace(calls[0]));
        assert(d2.phase == (PhaseV::AwaitingTool {
            out: out2,
            calls,
            next: 0,
            results: Seq::empty(),
        }));
        reveal_with_fuel(run, 3);
        assert(a.drop_first() =~= seq![EventV::ModelReply(items)]);
        lemma_run_one(d1, EventV::ModelReply(items));
        assert(run(d, a).0 == d2);
        assert(run(d, a).1 =~= seq![ActionV::QueryModel(true), step2.1]);

        lemma_run_append(d, a, b + c);
        lemma_run_append(d2, b, c);
        lemma_tool_batch_partial(d2, payloads);
        let d3 = run(d2, b).0;
        assert(d3.phase == (PhaseV::AwaitingTool {
            out: out2 + batch_traces(calls, 1, j),
            calls,
            next: j,
            results: Seq::<ToolResultV>::empty() + batch_results(calls, 0, payloads),
        }));

        lemma_run_one(d3, EventV::ToolFailed(f));
        assert(Seq::<ToolResultV>::empty() + batch_results(calls, 0, payloads) =~= batch_results(
            calls,
            0,
            payloads,
        ));

        let r = run(d, evs);
        assert(r.1 =~= seq![ActionV::QueryModel(true)] + invocations(calls, 0, j + 1) + seq![
            ActionV::Show(error_line(failure_text(calls[j].name, f))),
        ]);
        assert(r.0.history =~= d.history + seq![
            MessageV::User(t),
            MessageV::Assistant(items),
            MessageV::ToolResults(batch_results(calls, 0, payloads)),
        ]);
    }
}

/// A model-request failure aborts the cycle and is reported as an error line;
/// the user turn already appended stays in history — the retained-context
/// policy — and nothing else is appended.
pub proof fn lemma_model_failure_keeps_user_turn(d: DriverV, s: Seq<char>, msg: Seq<char>)
    requires
        d.phase is Idle,
    ensures
        ({
            let t = trimmed_of(s);
            let r = run(d, seq![EventV::Line(s), EventV::ModelFailed(msg)]);
            (!is_quit(t) && t.len() > 0) ==> {
                &&& r.1 == seq![ActionV::QueryModel(true), ActionV::Show(error_line(msg))]
                &&& r.0.history == d.history.push(MessageV::User(t))
                &&& r.0.phase is Idle
            }
        }),
{
    let t = trimmed_of(s);
    if !is_quit(t) && t.len() > 0 {
        let evs = seq![EventV::Line(s), EventV::ModelFailed(msg)];
        let d1 = spec_step(d, EventV::Line(s)).0;
        assert(evs.drop_first() =~= seq![EventV::ModelFailed(msg)]);
        lemma_run_one(d1, EventV::ModelFailed(msg));
        assert(run(d, evs).1 =~= seq![ActionV::QueryModel(true), ActionV::Show(error_line(msg))]);
    }
}

} // verus!


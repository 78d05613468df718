//! The laws of the controller, stated over the ghost transition functions and
//! proved once for every request shape: what a whole request's trace of
//! signals and host actions looks like, and which route a body is assigned.

use vstd::prelude::*;
use crate::extract::signal_spec;
use crate::lifecycle::{
    body_step, headers_step, initial_ctx, is_built_in, route_header_name, route_spec, ActionView,
    ControlSignal, CtxModel, Phase, ProtocolError, RuleSet, StepView,
};
use crate::rules::{contains_chars, match_seq};

verus! {

/// One host callback, at the ghost level.
pub enum EventModel {
    Headers { end_of_stream: bool },
    BodyChunk { chunk: Seq<u8>, end_of_stream: bool },
}

/// A single event applied to a context: the next context and what the
/// callback hands back.
pub open spec fn step_event(c: CtxModel, e: EventModel, rules: RuleSet) -> (
    CtxModel,
    Result<StepView, ProtocolError>,
) {
    match e {
        EventModel::Headers { end_of_stream } => {
            let s = headers_step(c, end_of_stream, rules);
            (s.0, Result::Ok(s.1))
        },
        EventModel::BodyChunk { chunk, end_of_stream } => body_step(c, chunk, end_of_stream, rules),
    }
}

/// Runs the state machine over a sequence of events, collecting what each
/// callback hands back.
pub open spec fn run_steps(c: CtxModel, events: Seq<EventModel>, rules: RuleSet) -> (
    CtxModel,
    Seq<Result<StepView, ProtocolError>>,
)
    decreases events.len(),
{
    if events.len() == 0 {
        (c, Seq::empty())
    } else {
        let first = step_event(c, events[0], rules);
        let rest = run_steps(first.0, events.skip(1), rules);
        (rest.0, seq![first.1] + rest.1)
    }
}

/// The concatenation of body chunks in delivery order.
pub open spec fn concat_bytes(chunks: Seq<Seq<u8>>) -> Seq<u8>
    decreases chunks.len(),
{
    if chunks.len() == 0 {
        Seq::empty()
    } else {
        chunks[0] + concat_bytes(chunks.skip(1))
    }
}

/// The body events of a request whose body arrives as the given chunks, the
/// last one marked final.
pub open spec fn body_chunk_events(chunks: Seq<Seq<u8>>) -> Seq<EventModel> {
    Seq::new(
        chunks.len(),
        |i: int| EventModel::BodyChunk { chunk: chunks[i], end_of_stream: i == chunks.len() - 1 },
    )
}

/// The whole event sequence of a request with a body: a header event
/// announcing the body, then the chunks.
pub open spec fn body_request_events(chunks: Seq<Seq<u8>>) -> Seq<EventModel> {
    seq![EventModel::Headers { end_of_stream: false }] + body_chunk_events(chunks)
}

/// Law: a request announcing no body completes at the header event with the
/// default route; the callback signals plain continuation, never a pause, and
/// emits no host action — in particular no cache invalidation.
pub proof fn lemma_no_body_default_route(rules: RuleSet)
    ensures
        headers_step(initial_ctx(), true, rules).0.phase == Phase::Completed,
        headers_step(initial_ctx(), true, rules).0.decision == Option::Some(rules.default_route@),
        headers_step(initial_ctx(), true, rules).1.signal == ControlSignal::Proceed,
        headers_step(initial_ctx(), true, rules).1.actions.len() == 0,
{
}

/// Law: the decision is a pure function of the assembled body and the rules;
/// computing it twice over the same body yields the same route id.
pub proof fn lemma_decision_idempotent(
    body: Seq<u8>,
    rules: RuleSet,
    r1: Seq<char>,
    r2: Seq<char>,
)
    requires
        r1 == route_spec(body, rules),
        r2 == route_spec(body, rules),
    ensures
        r1 == r2,
{
}

/// Law: once a request has completed, any further event leaves the context —
/// the decision included — unchanged, and emits no signal but plain
/// continuation and no host action.
pub proof fn lemma_completed_stable(c: CtxModel, e: EventModel, rules: RuleSet)
    requires
        c.phase == Phase::Completed,
    ensures
        step_event(c, e, rules).0 == c,
        step_event(c, e, rules).1 matches Result::Ok(s) && s.signal == ControlSignal::Proceed
            && s.actions.len() == 0,
{
}

/// Helper for the trace law: from the buffering phase, a run of body chunks
/// whose last one is final assembles the concatenation of the chunks onto the
/// buffer, signals buffer-continue on every non-final chunk, and on the final
/// chunk decides, emits exactly the header write followed by the cache
/// invalidation, and resumes.
proof fn lemma_body_events_trace(c: CtxModel, chunks: Seq<Seq<u8>>, rules: RuleSet)
    requires
        c.phase == Phase::BufferingBody,
        chunks.len() >= 1,
    ensures
        ({
            let outcome = run_steps(c, body_chunk_events(chunks), rules);
            let assembled = c.buffer + concat_bytes(chunks);
            let route = route_spec(assembled, rules);
            &&& outcome.0.phase == Phase::Completed
            &&& outcome.0.buffer == assembled
            &&& outcome.0.decision == Option::Some(route)
            &&& outcome.1.len() == chunks.len()
            &&& forall|j: int|
                0 <= j < chunks.len() - 1 ==> (#[trigger] outcome.1[j] matches Result::Ok(s)
                    && s.signal == ControlSignal::PauseAndBuffer && s.actions.len() == 0)
            &&& outcome.1[chunks.len() - 1] matches Result::Ok(s) && s.signal
                == ControlSignal::Proceed && s.actions == seq![
                ActionView::SetHeader { name: route_header_name(), value: route },
                ActionView::Invalidate,
            ]
        }),
    decreases chunks.len(),
{
    reveal_with_fuel(run_steps, 3);
    let events = body_chunk_events(chunks);
    assert(events[0] == (EventModel::BodyChunk {
        chunk: chunks[0],
        end_of_stream: chunks.len() == 1,
    }));
    if chunks.len() == 1 {
        let step = body_step(c, chunks[0], true, rules);
        assert(events.skip(1).len() == 0);
        let outcome = run_steps(c, events, rules);
        assert(outcome.0 == step.0);
        assert(outcome.1 =~= seq![step.1]);
        assert(concat_bytes(chunks.skip(1)) =~= Seq::<u8>::empty());
        assert(c.buffer + chunks[0] =~= c.buffer + concat_bytes(chunks));
        assert(route_spec(c.buffer + chunks[0], rules) == route_spec(
            c.buffer + concat_bytes(chunks),
            rules,
        ));
    } else {
        let step = body_step(c, chunks[0], false, rules);
        let c1 = step.0;
        assert(c1.buffer =~= c.buffer + chunks[0]);
        lemma_body_events_trace(c1, chunks.skip(1), rules);
        assert(events.skip(1) =~= body_chunk_events(chunks.skip(1)));
        assert(c1.buffer + concat_bytes(chunks.skip(1)) =~= c.buffer + concat_bytes(chunks));
        let outcome = run_steps(c, events, rules);
        let rest = run_steps(c1, events.skip(1), rules);
        assert(outcome.0 == rest.0);
        assert(outcome.1 =~= seq![step.1] + rest.1);
        assert(route_spec(c1.buffer + concat_bytes(chunks.skip(1)), rules) == route_spec(
            c.buffer + concat_bytes(chunks),
            rules,
        ));
        assert forall|j: int| 0 <= j < chunks.len() - 1 implies #[trigger] outcome.1[j] matches
            Result::Ok(s) && s.signal == ControlSignal::PauseAndBuffer && s.actions.len() == 0 by {
            if j > 0 {
                assert(outcome.1[j] == rest.1[j - 1]);
            }
        }
        assert(outcome.1[chunks.len() - 1] == rest.1[chunks.len() - 2]);
    }
}

/// Law: for a request whose body arrives as `chunks` (one or more, the last
/// final), the controller pauses on the header event, signals buffer-continue
/// on every non-final chunk, and resumes exactly once, on the final chunk.
/// The body it decides over is the concatenation of the chunks in delivery
/// order, whatever their number, and the only host actions the whole request
/// ever emits are on the final chunk: the decision-header write, followed at
/// once by the route-cache invalidation.
pub proof fn lemma_body_request_trace(chunks: Seq<Seq<u8>>, rules: RuleSet)
    requires
        chunks.len() >= 1,
    ensures
        ({
            let outcome = run_steps(initial_ctx(), body_request_events(chunks), rules);
            let route = route_spec(concat_bytes(chunks), rules);
            &&& outcome.0.phase == Phase::Completed
            &&& outcome.0.buffer == concat_bytes(chunks)
            &&& outcome.0.decision == Option::Some(route)
            &&& outcome.1.len() == chunks.len() + 1
            &&& outcome.1[0] matches Result::Ok(s) && s.signal == ControlSignal::Pause
                && s.actions.len() == 0
            &&& forall|j: int|
                1 <= j < chunks.len() ==> (#[trigger] outcome.1[j] matches Result::Ok(s)
                    && s.signal == ControlSignal::PauseAndBuffer && s.actions.len() == 0)
            &&& outcome.1[chunks.len() as int] matches Result::Ok(s) && s.signal
                == ControlSignal::Proceed && s.actions == seq![
                ActionView::SetHeader { name: route_header_name(), value: route },
                ActionView::Invalidate,
            ]
        }),
{
    reveal_with_fuel(run_steps, 3);
    let events = body_request_events(chunks);
    assert(events[0] == (EventModel::Headers { end_of_stream: false }));
    let step = step_event(initial_ctx(), events[0], rules);
    let c1 = step.0;
    assert(c1.phase == Phase::BufferingBody);
    assert(events.skip(1) =~= body_chunk_events(chunks));
    lemma_body_events_trace(c1, chunks, rules);
    assert(c1.buffer + concat_bytes(chunks) =~= concat_bytes(chunks));
    let outcome = run_steps(initial_ctx(), events, rules);
    let rest = run_steps(c1, events.skip(1), rules);
    assert(outcome.1 =~= seq![step.1] + rest.1);
    assert forall|j: int| 1 <= j < chunks.len() implies #[trigger] outcome.1[j] matches Result::Ok(
        s,
    ) && s.signal == ControlSignal::PauseAndBuffer && s.actions.len() == 0 by {
        assert(outcome.1[j] == rest.1[j - 1]);
    }
    assert(outcome.1[chunks.len() as int] == rest.1[chunks.len() - 1]);
}

/// Law: a request whose concatenated body yields a `method` signal containing
/// `echo2` ends, under the built-in rules, with the decision `echo2` —
/// however the body was split into chunks.
pub proof fn lemma_chunked_echo2_request(chunks: Seq<Seq<u8>>, m: Seq<char>, rules: RuleSet)
    requires
        chunks.len() >= 1,
        is_built_in(rules),
        signal_spec(concat_bytes(chunks), rules.signal_field@) == Option::Some(m),
        contains_chars(m, "echo2"@),
    ensures
        run_steps(initial_ctx(), body_request_events(chunks), rules).0.decision == Option::Some(
            "echo2"@,
        ),
{
    lemma_body_request_trace(chunks, rules);
    lemma_echo2_signal_routes_to_echo2(concat_bytes(chunks), m, rules);
}

/// Law: under the built-in rules, a non-empty body that is a JSON document
/// whose `method` field is a string containing `echo2` is routed to `echo2`.
pub proof fn lemma_echo2_signal_routes_to_echo2(body: Seq<u8>, m: Seq<char>, rules: RuleSet)
    requires
        is_built_in(rules),
        signal_spec(body, rules.signal_field@) == Option::Some(m),
        contains_chars(m, "echo2"@),
    ensures
        route_spec(body, rules) == "echo2"@,
{
}

/// Law: under the built-in rules, a body yielding no signal — empty,
/// non-text, malformed, or without a string `method` field — is routed to the
/// default `echo1`.
pub proof fn lemma_no_signal_routes_to_default(body: Seq<u8>, rules: RuleSet)
    requires
        is_built_in(rules),
        signal_spec(body, rules.signal_field@) is None,
    ensures
        route_spec(body, rules) == "echo1"@,
{
}

/// Law: under the built-in rules, a signal that does not contain `echo2` is
/// routed to the default `echo1`.
pub proof fn lemma_other_signal_routes_to_default(body: Seq<u8>, m: Seq<char>, rules: RuleSet)
    requires
        is_built_in(rules),
        signal_spec(body, rules.signal_field@) == Option::Some(m),
        !contains_chars(m, "echo2"@),
    ensures
        route_spec(body, rules) == "echo1"@,
{
    assert(rules.rules@.skip(1).len() == 0);
    assert(match_seq(Option::Some(m), rules.rules@.skip(1), rules.default_route@)
        == rules.default_route@);
}

} // verus!


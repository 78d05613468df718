//! The request lifecycle controller: the state machine that coordinates
//! header-phase pausing, body buffering, decision emission and route-cache
//! invalidation against the host's per-request callback sequence.
//!
//! The controller never performs host effects itself: each callback returns a
//! flow-control signal together with the ordered list of actions the host
//! must perform before acting on the signal.

use vstd::prelude::*;
use crate::extract::{extract_field, signal_spec};
use crate::rules::{match_rules, match_seq, Rule};

verus! {

/// The lifecycle states of one in-flight request.
#[derive(Clone, Copy, PartialEq, Eq, Structural, Debug)]
pub enum Phase {
    /// Header processing has begun; no body event has been seen.
    AwaitingHeaders,
    /// A body is expected; the host is paused while chunks are buffered.
    BufferingBody,
    /// The decision has been made (or none was needed); terminal.
    Completed,
}

/// The flow-control outcome handed back to the host after each event.
#[derive(Clone, Copy, PartialEq, Eq, Structural, Debug)]
pub enum ControlSignal {
    /// Let processing continue.
    Proceed,
    /// Hold the request after headers until told to resume.
    Pause,
    /// Keep buffering body data; stay paused.
    PauseAndBuffer,
}

/// A side effect the host must perform, in the order given, before acting on
/// the accompanying flow signal.
#[derive(Debug, PartialEq, Eq)]
pub enum HostAction {
    /// Write (or overwrite) an outgoing request header.
    SetRequestHeader { name: String, value: String },
    /// Discard any previously computed upstream-selection result for this
    /// request, so route selection re-evaluates with the new header in place.
    InvalidateRouteCache,
}

/// The ghost image of a host action.
pub enum ActionView {
    SetHeader { name: Seq<char>, value: Seq<char> },
    Invalidate,
}

impl View for HostAction {
    type V = ActionView;

    open spec fn view(&self) -> ActionView {
        match self {
            HostAction::SetRequestHeader { name, value } => ActionView::SetHeader {
                name: name@,
                value: value@,
            },
            HostAction::InvalidateRouteCache => ActionView::Invalidate,
        }
    }
}

/// What one callback hands back to the host: the actions to perform, in
/// order, and then the flow signal to obey.
#[derive(Debug)]
pub struct StepResult {
    pub signal: ControlSignal,
    pub actions: Vec<HostAction>,
}

/// The ghost image of a step result.
#[verifier::ext_equal]
pub struct StepView {
    pub signal: ControlSignal,
    pub actions: Seq<ActionView>,
}

impl View for StepResult {
    type V = StepView;

    open spec fn view(&self) -> StepView {
        StepView { signal: self.signal, actions: self.actions@.map_values(|a: HostAction| a@) }
    }
}

/// The error reported for a body event that arrives before any header event.
#[derive(Clone, Copy, PartialEq, Eq, Structural, Debug)]
pub enum ProtocolError {
    BodyBeforeHeaders,
}

/// The ghost image of a body-callback outcome.
pub open spec fn outcome_view(r: Result<StepResult, ProtocolError>) -> Result<
    StepView,
    ProtocolError,
> {
    match r {
        Result::Ok(s) => Result::Ok(s@),
        Result::Err(e) => Result::Err(e),
    }
}

/// The configured rule set: which payload field carries the signal, the
/// ordered rules, and the default route. Shared read-only across requests.
pub struct RuleSet {
    pub signal_field: String,
    pub rules: Vec<Rule>,
    pub default_route: String,
}

/// The route a fully assembled body is assigned under a rule set.
pub open spec fn route_spec(body: Seq<u8>, rules: RuleSet) -> Seq<char> {
    match_seq(signal_spec(body, rules.signal_field@), rules.rules@, rules.default_route@)
}

/// A rule set of the built-in shape: the signal is the `method` field, a
/// signal containing `echo2` routes there, everything else takes `echo1`.
pub open spec fn is_built_in(rules: RuleSet) -> bool {
    &&& rules.signal_field@ == "method"@
    &&& rules.default_route@ == "echo1"@
    &&& rules.rules@.len() == 1
    &&& rules.rules@[0].needle@ == "echo2"@
    &&& rules.rules@[0].route_id@ == "echo2"@
}

impl RuleSet {
    /// The built-in rule set: route to `echo2` when the `method` field
    /// mentions it, and to `echo1` otherwise.
    pub fn built_in() -> (r: RuleSet)
        ensures
            is_built_in(r),
    {
        let mut rule_list: Vec<Rule> = Vec::new();
        rule_list.push(Rule { needle: "echo2".to_owned(), route_id: "echo2".to_owned() });
        RuleSet {
            signal_field: "method".to_owned(),
            rules: rule_list,
            default_route: "echo1".to_owned(),
        }
    }
}

/// The name of the outgoing header that carries the routing decision.
pub open spec fn route_header_name() -> Seq<char> {
    "x-route-to"@
}

/// Computes the route for a fully assembled body: extract the signal, then
/// evaluate the rules. Any extraction failure degrades to the default route;
/// the request is never rejected.
pub fn decide(body: &Vec<u8>, rules: &RuleSet) -> (r: String)
    ensures
        r@ == route_spec(body@, *rules),
{
    let signal = extract_field(body, rules.signal_field.as_str());
    match_rules(&signal, &rules.rules, &rules.default_route)
}

/// The ghost image of a request context.
#[verifier::ext_equal]
pub struct CtxModel {
    pub phase: Phase,
    pub buffer: Seq<u8>,
    pub decision: Option<Seq<char>>,
}

/// Per-request state: the lifecycle phase, the body accumulated so far, and
/// the routing decision once computed. One instance per in-flight request,
/// never shared across requests.
pub struct RequestContext {
    pub phase: Phase,
    pub buffer: Vec<u8>,
    pub decision: Option<String>,
}

impl View for RequestContext {
    type V = CtxModel;

    open spec fn view(&self) -> CtxModel {
        CtxModel { phase: self.phase, buffer: self.buffer@, decision: self.decision.deep_view() }
    }
}

/// The context of a request whose header processing is beginning.
pub open spec fn initial_ctx() -> CtxModel {
    CtxModel { phase: Phase::AwaitingHeaders, buffer: Seq::empty(), decision: Option::None }
}

/// The header-event transition. A request announcing no body completes at
/// once with the default route and no pause; one with a body moves to
/// buffering and pauses the host. Header events in any later phase are
/// observed but change nothing.
pub open spec fn headers_step(c: CtxModel, end_of_stream: bool, rules: RuleSet) -> (
    CtxModel,
    StepView,
) {
    if c.phase == Phase::AwaitingHeaders {
        if end_of_stream {
            (
                CtxModel {
                    phase: Phase::Completed,
                    buffer: c.buffer,
                    decision: Option::Some(rules.default_route@),
                },
                StepView { signal: ControlSignal::Proceed, actions: Seq::empty() },
            )
        } else {
            (
                CtxModel { phase: Phase::BufferingBody, buffer: c.buffer, decision: c.decision },
                StepView { signal: ControlSignal::Pause, actions: Seq::empty() },
            )
        }
    } else {
        (c, StepView { signal: ControlSignal::Proceed, actions: Seq::empty() })
    }
}

/// The body-event transition. A chunk is appended to the buffer; a non-final
/// chunk keeps the host paused and buffering; the final chunk triggers the
/// decision: the route header write followed by the cache invalidation, then
/// resumption. A body event before any header event is a protocol error; one
/// after completion changes nothing.
pub open spec fn body_step(c: CtxModel, chunk: Seq<u8>, end_of_stream: bool, rules: RuleSet) -> (
    CtxModel,
    Result<StepView, ProtocolError>,
) {
    match c.phase {
        Phase::AwaitingHeaders => (c, Result::Err(ProtocolError::BodyBeforeHeaders)),
        Phase::Completed => (
            c,
            Result::Ok(StepView { signal: ControlSignal::Proceed, actions: Seq::empty() }),
        ),
        Phase::BufferingBody => {
            let assembled = c.buffer + chunk;
            if end_of_stream {
                let route = route_spec(assembled, rules);
                (
                    CtxModel {
                        phase: Phase::Completed,
                        buffer: assembled,
                        decision: Option::Some(route),
                    },
                    Result::Ok(
                        StepView {
                            signal: ControlSignal::Proceed,
                            actions: seq![
                                ActionView::SetHeader { name: route_header_name(), value: route },
                                ActionView::Invalidate,
                            ],
                        },
                    ),
                )
            } else {
                (
                    CtxModel { phase: Phase::BufferingBody, buffer: assembled, decision: c.decision },
                    Result::Ok(
                        StepView { signal: ControlSignal::PauseAndBuffer, actions: Seq::empty() },
                    ),
                )
            }
        },
    }
}

impl RequestContext {
    /// A fresh context for a request whose header processing is beginning.
    pub fn new() -> (r: RequestContext)
        ensures
            r@ == initial_ctx(),
    {
        let r = RequestContext {
            phase: Phase::AwaitingHeaders,
            buffer: Vec::new(),
            decision: Option::None,
        };
        proof {
            assert(r@ =~= initial_ctx());
        }
        r
    }

    /// Handles the request-header event: pause when a body will follow,
    /// complete at once with the default route when none will.
    pub fn on_request_headers(&mut self, end_of_stream: bool, rules: &RuleSet) -> (r: StepResult)
        ensures
            final(self)@ == headers_step(old(self)@, end_of_stream, *rules).0,
            r@ == headers_step(old(self)@, end_of_stream, *rules).1,
    {
        let r = match self.phase {
            Phase::AwaitingHeaders => {
                if end_of_stream {
                    self.phase = Phase::Completed;
                    self.decision = Option::Some(rules.default_route.clone());
                    StepResult { signal: ControlSignal::Proceed, actions: Vec::new() }
                } else {
                    self.phase = Phase::BufferingBody;
                    StepResult { signal: ControlSignal::Pause, actions: Vec::new() }
                }
            },
            _ => StepResult { signal: ControlSignal::Proceed, actions: Vec::new() },
        };
        proof {
            assert(self@ =~= headers_step(old(self)@, end_of_stream, *rules).0);
            assert(r@ =~= headers_step(old(self)@, end_of_stream, *rules).1);
        }
        r
    }

    /// Handles a body-chunk event: append the chunk; on the final chunk,
    /// decide the route and hand the host the header write and the cache
    /// invalidation, in that order, before resuming.
    pub fn on_request_body(&mut self, chunk: &Vec<u8>, end_of_stream: bool, rules: &RuleSet) -> (r:
        Result<StepResult, ProtocolError>)
        ensures
            final(self)@ == body_step(old(self)@, chunk@, end_of_stream, *rules).0,
            outcome_view(r) == body_step(old(self)@, chunk@, end_of_stream, *rules).1,
    {
        let r = match self.phase {
            Phase::AwaitingHeaders => Result::Err(ProtocolError::BodyBeforeHeaders),
            Phase::Completed => Result::Ok(
                StepResult { signal: ControlSignal::Proceed, actions: Vec::new() },
            ),
            Phase::BufferingBody => {
                self.buffer.extend_from_slice(chunk.as_slice());
                if end_of_stream {
                    let route = decide(&self.buffer, rules);
                    self.phase = Phase::Completed;
                    self.decision = Option::Some(route.clone());
                    let mut actions: Vec<HostAction> = Vec::new();
                    actions.push(
                        HostAction::SetRequestHeader {
                            name: "x-route-to".to_owned(),
                            value: route,
                        },
                    );
                    actions.push(HostAction::InvalidateRouteCache);
                    Result::Ok(StepResult { signal: ControlSignal::Proceed, actions })
                } else {
                    Result::Ok(
                        StepResult { signal: ControlSignal::PauseAndBuffer, actions: Vec::new() },
                    )
                }
            },
        };
        proof {
            assert(self@ =~= body_step(old(self)@, chunk@, end_of_stream, *rules).0);
            match &r {
                Result::Ok(s) => {
                    assert(body_step(old(self)@, chunk@, end_of_stream, *rules).1 matches
                        Result::Ok(v) && s@ =~= v);
                },
                Result::Err(_) => {},
            }
        }
        r
    }
}

} // verus!

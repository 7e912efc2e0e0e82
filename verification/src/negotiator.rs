//! The reservation negotiator: a state machine that turns one edge request
//! into the ordered shell calls unregister, register, query, commit, and
//! tracks the per-window reservation state across requests.
//!
//! The shell calls themselves are input/output against the host operating
//! system, so the embedding program performs them: it asks the machine to
//! `begin` a request, hands each emitted [`ShellCall`] to the shell, and
//! feeds the shell's answer back through `on_reply` until the transaction
//! settles or fails. Every decision in between is verified here.

use vstd::prelude::*;

use crate::geometry::{
    desired_rect, desired_rect_spec, lemma_resnap_span, request_fits, resnap_fits,
    resnap_fits_now, resnap_rect, resnap_rect_spec, resolve_monitor, resolve_spec, vertical_span,
    Edge, MonitorGeometry, ReservedRect,
};

verus! {

/// One of the four ordered calls into the host shell's arbitration table.
#[derive(Clone, Copy, PartialEq, Eq, Structural, Debug)]
pub enum ShellCall {
    /// Drop any reservation the shell still holds for the window.
    Unregister,
    /// Announce the window as the owner of a new reservation.
    Register,
    /// Submit the desired rect for arbitration without committing it.
    Query(ReservedRect),
    /// Commit the final rect.
    Commit(ReservedRect),
}

/// What the host shell answered to the call last handed out.
#[derive(Clone, Copy, PartialEq, Eq, Structural, Debug)]
pub enum ShellReply {
    /// The call went through.
    Completed,
    /// The arbitration query returned this possibly adjusted rect.
    Adjusted(ReservedRect),
    /// The call failed at the shell boundary.
    Refused,
}

/// The negotiation step a failure is charged to.
#[derive(Clone, Copy, PartialEq, Eq, Structural, Debug)]
pub enum NegotiationStep {
    Unregister,
    Register,
    Query,
    Commit,
}

/// Why a reservation request failed.
#[derive(Clone, Copy, PartialEq, Eq, Structural, Debug)]
pub enum ReservationError {
    /// One of the four shell calls failed. The transaction is abandoned and
    /// the stored state rolled back to unregistered, so the next request
    /// starts from a clean baseline.
    StepFailed(NegotiationStep),
    /// The request carried a handle other than the one this service owns;
    /// the embedding program also maps a stale or destroyed handle to this
    /// error before making any shell call.
    InvalidHandle,
}

/// What the embedding program should do after feeding a reply in.
#[derive(Clone, Copy, PartialEq, Eq, Debug)]
pub enum Outcome {
    /// Hand this call to the shell next and report its reply.
    Next(ShellCall),
    /// The transaction is complete; a reservation yields its final rect,
    /// a tear-down yields none.
    Settled(Option<ReservedRect>),
}

/// A caller's request: reserve `thickness` pixels at `edge` for `window`,
/// or tear the reservation down when `edge` is `None`.
#[derive(Clone, Copy, PartialEq, Eq, Debug)]
pub struct EdgeRequest {
    pub window: isize,
    pub edge: Option<Edge>,
    pub thickness: u32,
}

/// Reads the caller's edge word: `"none"` asks for a tear-down, `"top"`
/// for the top edge, and any other word for the bottom edge.
pub fn parse_edge(s: &str) -> (r: Option<Edge>)
    ensures
        s@ == "none"@ ==> r is None,
        s@ == "top"@ ==> r == Some(Edge::Top),
        s@ != "none"@ && s@ != "top"@ ==> r == Some(Edge::Bottom),
{
    proof {
        reveal_strlit("none");
        reveal_strlit("top");
        assert("none"@.len() == 4);
        assert("top"@.len() == 3);
        assert("none"@ != "top"@);
    }
    let word = String::from_str(s);
    let none_word = String::from_str("none");
    let top_word = String::from_str("top");
    if word == none_word {
        None
    } else if word == top_word {
        Some(Edge::Top)
    } else {
        Some(Edge::Bottom)
    }
}

/// What the service remembers of the reservation between requests.
#[derive(Clone, Copy, PartialEq, Eq, Debug)]
pub struct ReservationState {
    pub registered: bool,
    pub edge: Option<Edge>,
    pub thickness: Option<u32>,
}

/// Where the machine stands inside a transaction. `Idle` between requests;
/// every other phase names the shell call whose reply is awaited.
#[derive(Clone, Copy, Debug)]
pub enum Phase {
    /// No transaction in flight.
    Idle,
    /// A tear-down request: the unregister call is out.
    Withdrawing,
    /// A reservation request: the withdraw-first unregister call is out.
    Clearing { edge: Edge, thickness: u32, geometry: MonitorGeometry },
    /// The register call is out.
    Registering { edge: Edge, thickness: u32, geometry: MonitorGeometry },
    /// The arbitration query is out.
    Querying { edge: Edge, thickness: u32 },
    /// The commit of the final rect is out.
    Committing { edge: Edge, thickness: u32, rect: ReservedRect },
}

/// The mathematical value of a service: its window, stored state, phase,
/// and the whole history of shell calls it has emitted.
pub struct ServiceModel {
    pub window: isize,
    pub state: ReservationState,
    pub phase: Phase,
    pub calls: Seq<ShellCall>,
}

/// The state after a tear-down or a roll-back: nothing registered.
pub open spec fn cleared_state() -> ReservationState {
    ReservationState { registered: false, edge: None, thickness: None }
}

/// A register call is still open: the history ends in a register with no
/// unregister after it.
pub open spec fn open_register(t: Seq<ShellCall>) -> bool
    decreases t.len(),
{
    if t.len() == 0 {
        false
    } else {
        match t.last() {
            ShellCall::Register => true,
            ShellCall::Unregister => false,
            _ => open_register(t.drop_last()),
        }
    }
}

/// The history never registers twice without an unregister in between:
/// every register call was emitted with no earlier register still open.
pub open spec fn never_double_register(t: Seq<ShellCall>) -> bool
    decreases t.len(),
{
    if t.len() == 0 {
        true
    } else {
        never_double_register(t.drop_last()) && (t.last() is Register
            ==> !open_register(t.drop_last()))
    }
}

/// The service's invariant, maintained by every operation.
pub open spec fn wf_model(m: ServiceModel) -> bool {
    &&& never_double_register(m.calls)
    &&& (m.phase is Withdrawing || m.phase matches Phase::Clearing { .. }) ==> (m.calls.len() > 0
        && m.calls.last() is Unregister)
    &&& (m.phase matches Phase::Clearing { edge, thickness, geometry }
        ==> request_fits(geometry, edge, thickness))
    &&& (m.phase matches Phase::Registering { edge, thickness, geometry }
        ==> request_fits(geometry, edge, thickness))
    &&& (m.phase matches Phase::Committing { edge, thickness, rect }
        ==> vertical_span(rect) == thickness)
}

/// A failed step: the transaction is dropped and the state forced back to
/// unregistered, so the next request re-negotiates from scratch.
pub open spec fn roll_back_model(m: ServiceModel) -> ServiceModel {
    ServiceModel { state: cleared_state(), phase: Phase::Idle, ..m }
}

/// What `begin` does: reject a foreign handle, otherwise clear the stored
/// state, enter the phase of the request, and emit the withdraw-first
/// unregister call.
pub open spec fn step_begin(m: ServiceModel, req: EdgeRequest, monitor: Option<MonitorGeometry>)
    -> (ServiceModel, Result<ShellCall, ReservationError>) {
    if req.window != m.window {
        (m, Err(ReservationError::InvalidHandle))
    } else {
        let phase = match req.edge {
            None => Phase::Withdrawing,
            Some(e) => Phase::Clearing {
                edge: e,
                thickness: req.thickness,
                geometry: resolve_spec(monitor),
            },
        };
        (
            ServiceModel {
                state: cleared_state(),
                phase,
                calls: m.calls.push(ShellCall::Unregister),
                ..m
            },
            Ok(ShellCall::Unregister),
        )
    }
}

/// Which shell replies can answer the call a phase has in flight.
pub open spec fn reply_expected(p: Phase, r: ShellReply) -> bool {
    match p {
        Phase::Idle => false,
        Phase::Withdrawing => true,
        Phase::Clearing { .. } => !(r is Adjusted),
        Phase::Registering { .. } => !(r is Adjusted),
        Phase::Querying { .. } => !(r is Completed),
        Phase::Committing { .. } => !(r is Adjusted),
    }
}

/// What `on_reply` does for each phase and reply. A tear-down settles
/// whatever the shell answered: its result is not consulted. A refused step
/// of a reservation rolls the state back and names the failed step. A
/// completed step emits the next call of the fixed order unregister,
/// register, query, commit; the query's answer is re-snapped to the
/// requested thickness before it is committed.
pub open spec fn step_reply(m: ServiceModel, r: ShellReply) -> (
    ServiceModel,
    Result<Outcome, ReservationError>,
) {
    match m.phase {
        Phase::Idle => (m, arbitrary()),
        Phase::Withdrawing => (
            ServiceModel { state: cleared_state(), phase: Phase::Idle, ..m },
            Ok(Outcome::Settled(None)),
        ),
        Phase::Clearing { edge, thickness, geometry } => match r {
            ShellReply::Completed => (
                ServiceModel {
                    phase: Phase::Registering { edge, thickness, geometry },
                    calls: m.calls.push(ShellCall::Register),
                    ..m
                },
                Ok(Outcome::Next(ShellCall::Register)),
            ),
            ShellReply::Refused => (
                roll_back_model(m),
                Err(ReservationError::StepFailed(NegotiationStep::Unregister)),
            ),
            ShellReply::Adjusted(_) => (m, arbitrary()),
        },
        Phase::Registering { edge, thickness, geometry } => match r {
            ShellReply::Completed => (
                ServiceModel {
                    phase: Phase::Querying { edge, thickness },
                    calls: m.calls.push(
                        ShellCall::Query(desired_rect_spec(geometry, edge, thickness)),
                    ),
                    ..m
                },
                Ok(Outcome::Next(ShellCall::Query(desired_rect_spec(geometry, edge, thickness)))),
            ),
            ShellReply::Refused => (
                roll_back_model(m),
                Err(ReservationError::StepFailed(NegotiationStep::Register)),
            ),
            ShellReply::Adjusted(_) => (m, arbitrary()),
        },
        Phase::Querying { edge, thickness } => match r {
            ShellReply::Adjusted(q) => if resnap_fits(q, edge, thickness) {
                (
                    ServiceModel {
                        phase: Phase::Committing {
                            edge,
                            thickness,
                            rect: resnap_rect_spec(q, edge, thickness),
                        },
                        calls: m.calls.push(
                            ShellCall::Commit(resnap_rect_spec(q, edge, thickness)),
                        ),
                        ..m
                    },
                    Ok(Outcome::Next(ShellCall::Commit(resnap_rect_spec(q, edge, thickness)))),
                )
            } else {
                (roll_back_model(m), Err(ReservationError::StepFailed(NegotiationStep::Query)))
            },
            ShellReply::Refused => (
                roll_back_model(m),
                Err(ReservationError::StepFailed(NegotiationStep::Query)),
            ),
            ShellReply::Completed => (m, arbitrary()),
        },
        Phase::Committing { edge, thickness, rect } => match r {
            ShellReply::Completed => (
                ServiceModel {
                    state: ReservationState {
                        registered: true,
                        edge: Some(edge),
                        thickness: Some(thickness),
                    },
                    phase: Phase::Idle,
                    ..m
                },
                Ok(Outcome::Settled(Some(rect))),
            ),
            ShellReply::Refused => (
                roll_back_model(m),
                Err(ReservationError::StepFailed(NegotiationStep::Commit)),
            ),
            ShellReply::Adjusted(_) => (m, arbitrary()),
        },
    }
}

/// Appending a call keeps the history well-formed, provided a register is
/// only appended while no register is open.
pub proof fn lemma_push_keeps_trace(t: Seq<ShellCall>, c: ShellCall)
    requires
        never_double_register(t),
        c is Register ==> !open_register(t),
    ensures
        never_double_register(t.push(c)),
        open_register(t.push(c)) == (match c {
            ShellCall::Register => true,
            ShellCall::Unregister => false,
            _ => open_register(t),
        }),
{
    assert(t.push(c).drop_last() =~= t);
    assert(t.push(c).last() == c);
}

/// The per-window reservation service. One lives for each window that
/// reserves an edge; the embedding program drives it one shell call at a
/// time and serializes requests, so at most one transaction is in flight.
pub struct ReservationService {
    pub window: isize,
    pub state: ReservationState,
    pub phase: Phase,
    pub calls: Ghost<Seq<ShellCall>>,
}

impl ReservationService {
    /// The service as a mathematical value.
    pub open spec fn model(self) -> ServiceModel {
        ServiceModel {
            window: self.window,
            state: self.state,
            phase: self.phase,
            calls: self.calls@,
        }
    }

    /// The service's invariant.
    pub open spec fn wf(self) -> bool {
        wf_model(self.model())
    }

    /// A fresh service for `window`: nothing registered, no transaction in
    /// flight, no shell call made yet.
    pub fn new(window: isize) -> (s: ReservationService)
        ensures
            s.wf(),
            s.window == window,
            s.phase is Idle,
            s.state == cleared_state(),
            s.calls@ == Seq::<ShellCall>::empty(),
    {
        ReservationService {
            window,
            state: ReservationState { registered: false, edge: None, thickness: None },
            phase: Phase::Idle,
            calls: Ghost(Seq::empty()),
        }
    }

    /// Opens a transaction for a request and hands out its first shell
    /// call, always the withdraw-first unregister. The caller must have
    /// checked, with `request_fits_now`, that the rect a reservation asks
    /// for fits the 32-bit screen coordinate space.
    pub fn begin(&mut self, req: EdgeRequest, monitor: Option<MonitorGeometry>) -> (r: Result<
        ShellCall,
        ReservationError,
    >)
        requires
            old(self).wf(),
            old(self).phase is Idle,
            req.edge matches Some(e) ==> (req.window != old(self).window || request_fits(
                resolve_spec(monitor),
                e,
                req.thickness,
            )),
        ensures
            final(self).wf(),
            final(self).model() == step_begin(old(self).model(), req, monitor).0,
            r == step_begin(old(self).model(), req, monitor).1,
    {
        if req.window != self.window {
            return Err(ReservationError::InvalidHandle);
        }
        let geometry = resolve_monitor(monitor);
        proof {
            lemma_push_keeps_trace(self.calls@, ShellCall::Unregister);
        }
        self.state = ReservationState { registered: false, edge: None, thickness: None };
        self.phase = match req.edge {
            None => Phase::Withdrawing,
            Some(e) => Phase::Clearing { edge: e, thickness: req.thickness, geometry },
        };
        self.calls = Ghost(self.calls@.push(ShellCall::Unregister));
        Ok(ShellCall::Unregister)
    }

    /// Rolls the transaction back after a failed step.
    fn roll_back(&mut self, step: NegotiationStep) -> (r: Result<Outcome, ReservationError>)
        ensures
            final(self).model() == roll_back_model(old(self).model()),
            r == Result::<Outcome, ReservationError>::Err(ReservationError::StepFailed(step)),
    {
        self.state = ReservationState { registered: false, edge: None, thickness: None };
        self.phase = Phase::Idle;
        Err(ReservationError::StepFailed(step))
    }

    /// Feeds the shell's reply to the call in flight back in, and either
    /// hands out the next call of the fixed order, settles the transaction,
    /// or reports which step failed and rolls back.
    pub fn on_reply(&mut self, reply: ShellReply) -> (r: Result<Outcome, ReservationError>)
        requires
            old(self).wf(),
            !(old(self).phase is Idle),
            reply_expected(old(self).phase, reply),
        ensures
            final(self).wf(),
            final(self).model() == step_reply(old(self).model(), reply).0,
            r == step_reply(old(self).model(), reply).1,
    {
        let ph = self.phase;
        match ph {
            Phase::Idle => unreached(),
            Phase::Withdrawing => {
                self.state = ReservationState { registered: false, edge: None, thickness: None };
                self.phase = Phase::Idle;
                Ok(Outcome::Settled(None))
            }
            Phase::Clearing { edge, thickness, geometry } => match reply {
                ShellReply::Completed => {
                    proof {
                        lemma_push_keeps_trace(self.calls@, ShellCall::Register);
                    }
                    self.phase = Phase::Registering { edge, thickness, geometry };
                    self.calls = Ghost(self.calls@.push(ShellCall::Register));
                    Ok(Outcome::Next(ShellCall::Register))
                }
                ShellReply::Refused => self.roll_back(NegotiationStep::Unregister),
                ShellReply::Adjusted(_) => unreached(),
            },
            Phase::Registering { edge, thickness, geometry } => match reply {
                ShellReply::Completed => {
                    let d = desired_rect(&geometry, edge, thickness);
                    proof {
                        lemma_push_keeps_trace(self.calls@, ShellCall::Query(d));
                    }
                    self.phase = Phase::Querying { edge, thickness };
                    self.calls = Ghost(self.calls@.push(ShellCall::Query(d)));
                    Ok(Outcome::Next(ShellCall::Query(d)))
                }
                ShellReply::Refused => self.roll_back(NegotiationStep::Register),
                ShellReply::Adjusted(_) => unreached(),
            },
            Phase::Querying { edge, thickness } => match reply {
                ShellReply::Adjusted(q) => {
                    if resnap_fits_now(&q, edge, thickness) {
                        let f = resnap_rect(&q, edge, thickness);
                        proof {
                            lemma_push_keeps_trace(self.calls@, ShellCall::Commit(f));
                            lemma_resnap_span(q, edge, thickness);
                        }
                        self.phase = Phase::Committing { edge, thickness, rect: f };
                        self.calls = Ghost(self.calls@.push(ShellCall::Commit(f)));
                        Ok(Outcome::Next(ShellCall::Commit(f)))
                    } else {
                        self.roll_back(NegotiationStep::Query)
                    }
                }
                ShellReply::Refused => self.roll_back(NegotiationStep::Query),
                ShellReply::Completed => unreached(),
            },
            Phase::Committing { edge, thickness, rect } => match reply {
                ShellReply::Completed => {
                    self.state = ReservationState {
                        registered: true,
                        edge: Some(edge),
                        thickness: Some(thickness),
                    };
                    self.phase = Phase::Idle;
                    Ok(Outcome::Settled(Some(rect)))
                }
                ShellReply::Refused => self.roll_back(NegotiationStep::Commit),
                ShellReply::Adjusted(_) => unreached(),
            },
        }
    }
}

} // verus!

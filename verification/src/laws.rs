//! The guarantees the reservation service gives across whole transactions,
//! stated over the negotiator's model and proved once and for all.

use vstd::prelude::*;

use crate::geometry::{
    desired_rect_spec, fallback_geometry, lemma_resnap_span, request_fits, resnap_fits,
    resolve_spec, vertical_span, Edge, MonitorGeometry, ReservedRect,
};
use crate::negotiator::{
    cleared_state, lemma_push_keeps_trace, never_double_register, open_register, step_begin,
    step_reply, wf_model, EdgeRequest, Outcome, Phase, ReservationError, ServiceModel, ShellCall,
    ShellReply,
};

verus! {

/// In a history with no open register, every register call is followed by
/// an unregister before the history ends.
proof fn lemma_closed_has_unregister(t: Seq<ShellCall>, i: int)
    requires
        !open_register(t),
        0 <= i < t.len(),
        t[i] is Register,
    ensures
        exists|k: int| i < k < t.len() && t[k] is Unregister,
    decreases t.len(),
{
    if t.last() is Register {
        assert(false);
    } else if t.last() is Unregister {
        assert(i < t.len() - 1);
        assert(t[t.len() - 1] is Unregister);
    } else {
        assert(i < t.len() - 1);
        assert(t.drop_last()[i] is Register);
        lemma_closed_has_unregister(t.drop_last(), i);
        let k = choose|k: int| i < k < t.drop_last().len() && t.drop_last()[k] is Unregister;
        assert(t[k] is Unregister);
    }
}

/// No call sequence registers twice without an intervening unregister: in a
/// well-formed history, between any two register calls stands an unregister.
pub proof fn lemma_register_separated(t: Seq<ShellCall>, i: int, j: int)
    requires
        never_double_register(t),
        0 <= i < j < t.len(),
        t[i] is Register,
        t[j] is Register,
    ensures
        exists|k: int| i < k < j && t[k] is Unregister,
    decreases t.len(),
{
    if j == t.len() - 1 {
        assert(!open_register(t.drop_last()));
        assert(t.drop_last()[i] is Register);
        lemma_closed_has_unregister(t.drop_last(), i);
        let k = choose|k: int| i < k < t.drop_last().len() && t.drop_last()[k] is Unregister;
        assert(t[k] is Unregister);
        assert(i < k < j);
    } else {
        assert(t.drop_last()[i] is Register);
        assert(t.drop_last()[j] is Register);
        lemma_register_separated(t.drop_last(), i, j);
        let k = choose|k: int| i < k < j && t.drop_last()[k] is Unregister;
        assert(t[k] is Unregister);
    }
}

/// A tear-down request is idempotent: from any idle state, asking for no
/// edge succeeds, leaves the state unregistered, and a second identical
/// request does exactly the same, whatever the shell answered either time.
pub proof fn lemma_none_idempotent(
    m0: ServiceModel,
    req: EdgeRequest,
    monitor1: Option<MonitorGeometry>,
    monitor2: Option<MonitorGeometry>,
    r1: ShellReply,
    r2: ShellReply,
)
    requires
        wf_model(m0),
        m0.phase is Idle,
        req.window == m0.window,
        req.edge is None,
    ensures
        ({
            let (m1, c1) = step_begin(m0, req, monitor1);
            let (m2, o1) = step_reply(m1, r1);
            let (m3, c2) = step_begin(m2, req, monitor2);
            let (m4, o2) = step_reply(m3, r2);
            &&& c1 == Ok::<ShellCall, ReservationError>(ShellCall::Unregister)
            &&& o1 == Ok::<Outcome, ReservationError>(Outcome::Settled(None))
            &&& m2.state == cleared_state()
            &&& m2.phase is Idle
            &&& c2 == Ok::<ShellCall, ReservationError>(ShellCall::Unregister)
            &&& o2 == Ok::<Outcome, ReservationError>(Outcome::Settled(None))
            &&& m4.state == cleared_state()
            &&& m4.phase is Idle
            &&& wf_model(m4)
        }),
{
    lemma_push_keeps_trace(m0.calls, ShellCall::Unregister);
    lemma_push_keeps_trace(m0.calls.push(ShellCall::Unregister), ShellCall::Unregister);
}

/// A reservation that completes honors the requested thickness: from any
/// idle state, a request for `thickness` pixels at an edge that steps
/// through all four shell calls settles on a rect exactly `thickness` tall,
/// whatever adjusted rect the arbitration returned, and records the edge
/// and thickness as registered.
pub proof fn lemma_thickness_honored(
    m0: ServiceModel,
    req: EdgeRequest,
    edge: Edge,
    monitor: Option<MonitorGeometry>,
    q: ReservedRect,
)
    requires
        wf_model(m0),
        m0.phase is Idle,
        req.window == m0.window,
        req.edge == Some(edge),
        request_fits(resolve_spec(monitor), edge, req.thickness),
        resnap_fits(q, edge, req.thickness),
    ensures
        ({
            let (m1, c1) = step_begin(m0, req, monitor);
            let (m2, o1) = step_reply(m1, ShellReply::Completed);
            let (m3, o2) = step_reply(m2, ShellReply::Completed);
            let (m4, o3) = step_reply(m3, ShellReply::Adjusted(q));
            let (m5, o4) = step_reply(m4, ShellReply::Completed);
            &&& c1 == Ok::<ShellCall, ReservationError>(ShellCall::Unregister)
            &&& o1 == Ok::<Outcome, ReservationError>(Outcome::Next(ShellCall::Register))
            &&& o2 matches Ok(Outcome::Next(ShellCall::Query(d)))
                && d == desired_rect_spec(resolve_spec(monitor), edge, req.thickness)
            &&& o4 matches Ok(Outcome::Settled(Some(rect))) && vertical_span(rect)
                == req.thickness
            &&& m5.phase is Idle
            &&& m5.state.registered
            &&& m5.state.edge == Some(edge)
            &&& m5.state.thickness == Some(req.thickness)
            &&& wf_model(m5)
        }),
{
    let (m1, c1) = step_begin(m0, req, monitor);
    lemma_push_keeps_trace(m0.calls, ShellCall::Unregister);
    let (m2, o1) = step_reply(m1, ShellReply::Completed);
    lemma_push_keeps_trace(m1.calls, ShellCall::Register);
    let (m3, o2) = step_reply(m2, ShellReply::Completed);
    lemma_push_keeps_trace(
        m2.calls,
        ShellCall::Query(desired_rect_spec(resolve_spec(monitor), edge, req.thickness)),
    );
    let (m4, o3) = step_reply(m3, ShellReply::Adjusted(q));
    lemma_push_keeps_trace(
        m3.calls,
        ShellCall::Commit(crate::geometry::resnap_rect_spec(q, edge, req.thickness)),
    );
    lemma_resnap_span(q, edge, req.thickness);
}

/// When monitor resolution fails, the whole transaction is computed against
/// the fallback geometry: the query emitted after the register step asks
/// for the rect derived from origin (0, 0) and size 1920 by 1080.
pub proof fn lemma_fallback_geometry_used(m0: ServiceModel, req: EdgeRequest, edge: Edge)
    requires
        wf_model(m0),
        m0.phase is Idle,
        req.window == m0.window,
        req.edge == Some(edge),
        request_fits(fallback_geometry(), edge, req.thickness),
    ensures
        ({
            let (m1, c1) = step_begin(m0, req, None);
            let (m2, o1) = step_reply(m1, ShellReply::Completed);
            let (m3, o2) = step_reply(m2, ShellReply::Completed);
            o2 == Ok::<Outcome, ReservationError>(
                Outcome::Next(
                    ShellCall::Query(desired_rect_spec(fallback_geometry(), edge, req.thickness)),
                ),
            )
        }),
{
}

} // verus!

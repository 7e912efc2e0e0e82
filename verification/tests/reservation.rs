use edgebar::geometry::{Edge, MonitorGeometry, ReservedRect};
use edgebar::greet;
use edgebar::negotiator::{
    EdgeRequest, NegotiationStep, Outcome, ReservationError, ReservationService, ShellCall,
    ShellReply, parse_edge,
};

fn monitor_full_hd() -> MonitorGeometry {
    MonitorGeometry { origin_x: 0, origin_y: 0, width: 1920, height: 1080 }
}

/// Runs one whole request against a shell that grants every call and
/// adjusts nothing, logging the calls the service emits.
fn drive(
    service: &mut ReservationService,
    req: EdgeRequest,
    monitor: Option<MonitorGeometry>,
    log: &mut Vec<ShellCall>,
) -> Result<Option<ReservedRect>, ReservationError> {
    let first = service.begin(req, monitor)?;
    log.push(first);
    let mut reply = match first {
        ShellCall::Query(r) => ShellReply::Adjusted(r),
        _ => ShellReply::Completed,
    };
    loop {
        match service.on_reply(reply)? {
            Outcome::Next(call) => {
                log.push(call);
                reply = match call {
                    ShellCall::Query(r) => ShellReply::Adjusted(r),
                    _ => ShellReply::Completed,
                };
            }
            Outcome::Settled(rect) => return Ok(rect),
        }
    }
}

#[test]
fn top_reservation_yields_requested_rect() {
    let mut service = ReservationService::new(7);
    let mut log: Vec<ShellCall> = Vec::new();
    let req = EdgeRequest { window: 7, edge: Some(Edge::Top), thickness: 40 };
    let rect = drive(&mut service, req, Some(monitor_full_hd()), &mut log).unwrap();
    assert_eq!(
        rect,
        Some(ReservedRect { left: 0, top: 0, right: 1920, bottom: 40 })
    );
    assert!(service.state.registered);
    assert_eq!(service.state.edge, Some(Edge::Top));
    assert_eq!(service.state.thickness, Some(40));
    assert_eq!(
        log,
        vec![
            ShellCall::Unregister,
            ShellCall::Register,
            ShellCall::Query(ReservedRect { left: 0, top: 0, right: 1920, bottom: 40 }),
            ShellCall::Commit(ReservedRect { left: 0, top: 0, right: 1920, bottom: 40 }),
        ]
    );
}

#[test]
fn bottom_reservation_yields_requested_rect() {
    let mut service = ReservationService::new(7);
    let mut log: Vec<ShellCall> = Vec::new();
    let req = EdgeRequest { window: 7, edge: Some(Edge::Bottom), thickness: 50 };
    let rect = drive(&mut service, req, Some(monitor_full_hd()), &mut log).unwrap();
    assert_eq!(
        rect,
        Some(ReservedRect { left: 0, top: 1030, right: 1920, bottom: 1080 })
    );
    assert_eq!(
        log[2],
        ShellCall::Query(ReservedRect { left: 0, top: 1030, right: 1920, bottom: 1080 })
    );
}

#[test]
fn tear_down_twice_is_idempotent() {
    let mut service = ReservationService::new(3);
    let mut log: Vec<ShellCall> = Vec::new();
    let none_req = EdgeRequest { window: 3, edge: None, thickness: 0 };
    let first = drive(&mut service, none_req, None, &mut log).unwrap();
    assert_eq!(first, None);
    assert!(!service.state.registered);
    assert_eq!(service.state.edge, None);
    assert_eq!(service.state.thickness, None);
    let second = drive(&mut service, none_req, None, &mut log).unwrap();
    assert_eq!(second, None);
    assert!(!service.state.registered);
    assert_eq!(log, vec![ShellCall::Unregister, ShellCall::Unregister]);
}

#[test]
fn reregistration_reproduces_first_rect() {
    let mut service = ReservationService::new(9);
    let mut log: Vec<ShellCall> = Vec::new();
    let top_req = EdgeRequest { window: 9, edge: Some(Edge::Top), thickness: 40 };
    let none_req = EdgeRequest { window: 9, edge: None, thickness: 0 };
    let first = drive(&mut service, top_req, Some(monitor_full_hd()), &mut log).unwrap();
    let torn = drive(&mut service, none_req, Some(monitor_full_hd()), &mut log).unwrap();
    assert_eq!(torn, None);
    assert!(!service.state.registered);
    let again = drive(&mut service, top_req, Some(monitor_full_hd()), &mut log).unwrap();
    assert_eq!(first, again);
    assert_eq!(
        again,
        Some(ReservedRect { left: 0, top: 0, right: 1920, bottom: 40 })
    );
}

#[test]
fn switching_edges_never_registers_twice_in_a_row() {
    let mut service = ReservationService::new(2);
    let mut log: Vec<ShellCall> = Vec::new();
    let top_req = EdgeRequest { window: 2, edge: Some(Edge::Top), thickness: 40 };
    let bottom_req = EdgeRequest { window: 2, edge: Some(Edge::Bottom), thickness: 40 };
    drive(&mut service, top_req, Some(monitor_full_hd()), &mut log).unwrap();
    drive(&mut service, bottom_req, Some(monitor_full_hd()), &mut log).unwrap();
    let mut open = false;
    for call in &log {
        match call {
            ShellCall::Register => {
                assert!(!open, "register emitted while an earlier register was still open");
                open = true;
            }
            ShellCall::Unregister => open = false,
            _ => {}
        }
    }
    assert_eq!(log.iter().filter(|c| matches!(c, ShellCall::Register)).count(), 2);
}

#[test]
fn missing_monitor_falls_back_to_full_hd() {
    let mut service = ReservationService::new(4);
    let mut log: Vec<ShellCall> = Vec::new();
    let req = EdgeRequest { window: 4, edge: Some(Edge::Top), thickness: 40 };
    let rect = drive(&mut service, req, None, &mut log).unwrap();
    assert_eq!(
        rect,
        Some(ReservedRect { left: 0, top: 0, right: 1920, bottom: 40 })
    );
    assert_eq!(
        log[2],
        ShellCall::Query(ReservedRect { left: 0, top: 0, right: 1920, bottom: 40 })
    );
}

#[test]
fn offset_monitor_is_respected() {
    let monitor = MonitorGeometry { origin_x: 1920, origin_y: 200, width: 2560, height: 1440 };
    let mut service = ReservationService::new(6);
    let mut log: Vec<ShellCall> = Vec::new();
    let req = EdgeRequest { window: 6, edge: Some(Edge::Bottom), thickness: 64 };
    let rect = drive(&mut service, req, Some(monitor), &mut log).unwrap();
    assert_eq!(
        rect,
        Some(ReservedRect { left: 1920, top: 1576, right: 4480, bottom: 1640 })
    );
}

#[test]
fn arbitration_adjustment_keeps_thickness() {
    let mut service = ReservationService::new(8);
    let req = EdgeRequest { window: 8, edge: Some(Edge::Top), thickness: 40 };
    service.begin(req, Some(monitor_full_hd())).unwrap();
    service.on_reply(ShellReply::Completed).unwrap();
    service.on_reply(ShellReply::Completed).unwrap();
    // Another bar already holds the first 30 pixels: the shell moves the
    // strip down and hands back a thinner rect.
    let adjusted = ReservedRect { left: 0, top: 30, right: 1920, bottom: 35 };
    let next = service.on_reply(ShellReply::Adjusted(adjusted)).unwrap();
    let expected = ReservedRect { left: 0, top: 30, right: 1920, bottom: 70 };
    assert_eq!(next, Outcome::Next(ShellCall::Commit(expected)));
    let done = service.on_reply(ShellReply::Completed).unwrap();
    assert_eq!(done, Outcome::Settled(Some(expected)));
    assert_eq!(expected.bottom - expected.top, 40);
}

#[test]
fn bottom_adjustment_keeps_thickness() {
    let mut service = ReservationService::new(8);
    let req = EdgeRequest { window: 8, edge: Some(Edge::Bottom), thickness: 50 };
    service.begin(req, Some(monitor_full_hd())).unwrap();
    service.on_reply(ShellReply::Completed).unwrap();
    service.on_reply(ShellReply::Completed).unwrap();
    let adjusted = ReservedRect { left: 0, top: 1040, right: 1920, bottom: 1060 };
    let next = service.on_reply(ShellReply::Adjusted(adjusted)).unwrap();
    let expected = ReservedRect { left: 0, top: 1010, right: 1920, bottom: 1060 };
    assert_eq!(next, Outcome::Next(ShellCall::Commit(expected)));
}

#[test]
fn refused_register_rolls_back_and_names_the_step() {
    let mut service = ReservationService::new(1);
    let req = EdgeRequest { window: 1, edge: Some(Edge::Top), thickness: 40 };
    service.begin(req, Some(monitor_full_hd())).unwrap();
    service.on_reply(ShellReply::Completed).unwrap();
    let err = service.on_reply(ShellReply::Refused).unwrap_err();
    assert_eq!(err, ReservationError::StepFailed(NegotiationStep::Register));
    assert!(!service.state.registered);
    // The next request starts over from a clean baseline.
    let mut log: Vec<ShellCall> = Vec::new();
    let rect = drive(&mut service, req, Some(monitor_full_hd()), &mut log).unwrap();
    assert_eq!(
        rect,
        Some(ReservedRect { left: 0, top: 0, right: 1920, bottom: 40 })
    );
}

#[test]
fn refused_unregister_of_a_reservation_fails() {
    let mut service = ReservationService::new(1);
    let req = EdgeRequest { window: 1, edge: Some(Edge::Bottom), thickness: 40 };
    service.begin(req, Some(monitor_full_hd())).unwrap();
    let err = service.on_reply(ShellReply::Refused).unwrap_err();
    assert_eq!(err, ReservationError::StepFailed(NegotiationStep::Unregister));
}

#[test]
fn refused_commit_fails() {
    let mut service = ReservationService::new(1);
    let req = EdgeRequest { window: 1, edge: Some(Edge::Top), thickness: 40 };
    service.begin(req, Some(monitor_full_hd())).unwrap();
    service.on_reply(ShellReply::Completed).unwrap();
    service.on_reply(ShellReply::Completed).unwrap();
    let q = ReservedRect { left: 0, top: 0, right: 1920, bottom: 40 };
    service.on_reply(ShellReply::Adjusted(q)).unwrap();
    let err = service.on_reply(ShellReply::Refused).unwrap_err();
    assert_eq!(err, ReservationError::StepFailed(NegotiationStep::Commit));
    assert!(!service.state.registered);
}

#[test]
fn unsnappable_adjustment_is_charged_to_query() {
    let mut service = ReservationService::new(1);
    let req = EdgeRequest { window: 1, edge: Some(Edge::Top), thickness: 40 };
    service.begin(req, Some(monitor_full_hd())).unwrap();
    service.on_reply(ShellReply::Completed).unwrap();
    service.on_reply(ShellReply::Completed).unwrap();
    // An absurd adjustment: re-snapping would leave 32-bit coordinates.
    let q = ReservedRect { left: 0, top: i32::MAX - 10, right: 1920, bottom: i32::MAX };
    let err = service.on_reply(ShellReply::Adjusted(q)).unwrap_err();
    assert_eq!(err, ReservationError::StepFailed(NegotiationStep::Query));
    assert!(!service.state.registered);
}

#[test]
fn foreign_window_handle_is_rejected() {
    let mut service = ReservationService::new(11);
    let req = EdgeRequest { window: 12, edge: Some(Edge::Top), thickness: 40 };
    let err = service.begin(req, Some(monitor_full_hd())).unwrap_err();
    assert_eq!(err, ReservationError::InvalidHandle);
    assert!(!service.state.registered);
}

#[test]
fn parse_edge_reads_the_three_words() {
    assert_eq!(parse_edge("none"), None);
    assert_eq!(parse_edge("top"), Some(Edge::Top));
    assert_eq!(parse_edge("bottom"), Some(Edge::Bottom));
    // Any word other than "top" and "none" asks for the bottom edge.
    assert_eq!(parse_edge("left"), Some(Edge::Bottom));
}

#[test]
fn greet_formats_the_greeting() {
    assert_eq!(greet("Ana"), "Hello, Ana! You've been greeted from Rust!");
}

use sidecar_supervisor::supervisor::{
    forward_events, Emission, SidecarEvent, Supervisor, SupervisorPhase,
};

fn expect_line(e: &Emission, want_topic: &str, want_payload: &str) {
    match e {
        Emission::Line { topic, payload } => {
            assert_eq!(topic, want_topic);
            assert_eq!(payload, want_payload);
        },
        _ => panic!("expected a line emission"),
    }
}

#[test]
fn sidecar_trace_forwards_three_events_in_order() {
    let events = vec![
        SidecarEvent::StdoutChunk { bytes: b"hello".to_vec() },
        SidecarEvent::StderrChunk { bytes: b"oops".to_vec() },
        SidecarEvent::Terminated { code: Some(0) },
    ];
    let out = forward_events(&events);
    assert_eq!(out.len(), 3);
    expect_line(&out[0], "backend-message", "'hello'");
    expect_line(&out[1], "backend-error", "'oops'");
    match &out[2] {
        Emission::Termination { topic, code } => {
            assert_eq!(topic, "backend-terminated");
            assert_eq!(*code, Some(0));
        },
        _ => panic!("expected the termination emission"),
    }
}

#[test]
fn nothing_is_forwarded_after_termination() {
    let events = vec![
        SidecarEvent::Terminated { code: None },
        SidecarEvent::StdoutChunk { bytes: b"late".to_vec() },
        SidecarEvent::StderrChunk { bytes: b"later".to_vec() },
    ];
    let out = forward_events(&events);
    assert_eq!(out.len(), 1);
    match &out[0] {
        Emission::Termination { topic, code } => {
            assert_eq!(topic, "backend-terminated");
            assert_eq!(*code, None);
        },
        _ => panic!("expected the termination emission"),
    }
}

#[test]
fn other_events_are_not_forwarded() {
    let events = vec![
        SidecarEvent::Other,
        SidecarEvent::StdoutChunk { bytes: b"one".to_vec() },
        SidecarEvent::Other,
    ];
    let out = forward_events(&events);
    assert_eq!(out.len(), 1);
    expect_line(&out[0], "backend-message", "'one'");
}

#[test]
fn malformed_output_is_repaired_not_fatal() {
    let events = vec![SidecarEvent::StdoutChunk { bytes: vec![0xFF, b'a'] }];
    let out = forward_events(&events);
    assert_eq!(out.len(), 1);
    expect_line(&out[0], "backend-message", "'\u{FFFD}a'");
}

#[test]
fn supervisor_phases_follow_the_lifecycle() {
    let mut sup = Supervisor::new();
    assert_eq!(sup.phase(), SupervisorPhase::NotStarted);
    sup.mark_started();
    assert_eq!(sup.phase(), SupervisorPhase::Running);
    let em = sup.on_event(&SidecarEvent::StdoutChunk { bytes: b"x".to_vec() });
    assert!(em.is_some());
    assert_eq!(sup.phase(), SupervisorPhase::Running);
    let em = sup.on_event(&SidecarEvent::Terminated { code: Some(3) });
    assert!(em.is_some());
    assert_eq!(sup.phase(), SupervisorPhase::Terminated);
}

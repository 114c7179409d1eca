use serial_terminal::pump::{read_event, Pump, PumpAction, PumpEvent, PumpState, INBOUND_CAPACITY};

#[test]
fn inbound_bytes_render_as_received() {
    let mut p = Pump::new();
    let mut buf = [0u8; INBOUND_CAPACITY];
    buf[0] = 0x48;
    buf[1] = 0x69;
    buf[2] = 0x21;
    let ev = read_event(&buf, Some(2));
    assert_eq!(p.step(ev), PumpAction::Render(vec![0x48, 0x69]));
    assert_eq!(p.state(), PumpState::Running);
}

#[test]
fn would_block_read_is_a_no_op() {
    let mut p = Pump::new();
    let buf = [0u8; INBOUND_CAPACITY];
    let ev = read_event(&buf, None);
    assert!(matches!(ev, PumpEvent::ReadWouldBlock));
    assert_eq!(p.step(ev), PumpAction::Wait);
    assert_eq!(p.state(), PumpState::Running);
    assert_eq!(p.step(PumpEvent::Dequeued(7)), PumpAction::Write(7));
    assert_eq!(p.step(PumpEvent::ReadWouldBlock), PumpAction::Wait);
    assert_eq!(p.state(), PumpState::Writing(7));
}

#[test]
fn full_buffer_and_empty_read() {
    let mut p = Pump::new();
    let buf = [0x55u8; INBOUND_CAPACITY];
    assert_eq!(p.step(read_event(&buf, Some(INBOUND_CAPACITY))), PumpAction::Render(vec![0x55; 32]));
    assert_eq!(p.step(read_event(&buf, Some(0))), PumpAction::Render(vec![]));
}

#[test]
fn write_is_retried_until_it_succeeds() {
    let mut p = Pump::new();
    assert_eq!(p.step(PumpEvent::Dequeued(0x41)), PumpAction::Write(0x41));
    assert_eq!(p.step(PumpEvent::WriteWouldBlock), PumpAction::Write(0x41));
    assert_eq!(p.step(PumpEvent::WriteWouldBlock), PumpAction::Write(0x41));
    assert_eq!(p.state(), PumpState::Writing(0x41));
    assert_eq!(p.step(PumpEvent::Written), PumpAction::Wait);
    assert_eq!(p.state(), PumpState::Running);
    // Nothing is pending any more: a late write outcome writes nothing again.
    assert_eq!(p.step(PumpEvent::Written), PumpAction::Wait);
    assert_eq!(p.state(), PumpState::Running);
}

#[test]
fn queue_is_not_read_while_writing() {
    let mut p = Pump::new();
    p.step(PumpEvent::Dequeued(1));
    assert!(!p.accepts(&PumpEvent::Dequeued(2)));
    assert!(!p.accepts(&PumpEvent::QueueClosed));
    assert!(p.accepts(&PumpEvent::Written));
    p.step(PumpEvent::Written);
    assert!(p.accepts(&PumpEvent::Dequeued(2)));
}

#[test]
fn bytes_go_out_in_queue_order() {
    let mut p = Pump::new();
    let mut out = Vec::new();
    for b in [0x1Bu8, 0x5B, 0x41, 0x03].iter() {
        match p.step(PumpEvent::Dequeued(*b)) {
            PumpAction::Write(x) => out.push(x),
            _ => panic!("expected a write"),
        }
        p.step(PumpEvent::Written);
    }
    assert_eq!(out, vec![0x1B, 0x5B, 0x41, 0x03]);
}

#[test]
fn control_c_byte_keeps_pump_running() {
    let mut p = Pump::new();
    assert_eq!(p.step(PumpEvent::Dequeued(0x03)), PumpAction::Write(0x03));
    assert_eq!(p.step(PumpEvent::Written), PumpAction::Wait);
    assert_eq!(p.state(), PumpState::Running);
}

#[test]
fn closed_queue_stops_the_pump() {
    let mut p = Pump::new();
    assert_eq!(p.step(PumpEvent::QueueClosed), PumpAction::Stop);
    assert_eq!(p.state(), PumpState::Terminating);
    assert!(p.finish());
    assert_eq!(p.state(), PumpState::Stopped);
}

#[test]
fn pending_inbound_data_does_not_delay_stop() {
    let mut p = Pump::new();
    p.step(PumpEvent::QueueClosed);
    assert_eq!(p.step(PumpEvent::Received(vec![0x48])), PumpAction::Stop);
    assert_eq!(p.state(), PumpState::Stopped);
    assert_eq!(p.step(PumpEvent::Received(vec![0x69])), PumpAction::Stop);
    assert_eq!(p.state(), PumpState::Stopped);
}

#[test]
fn finish_leaves_a_running_pump_alone() {
    let mut p = Pump::new();
    assert!(!p.finish());
    assert_eq!(p.state(), PumpState::Running);
}

use serial_terminal::capture::{CaptureAction, InputCapture};
use serial_terminal::keys::{KeyCode, KeyEvent, Modifier};
use serial_terminal::pump::{Pump, PumpAction, PumpEvent, PumpState};

/// Runs `keys` through the input side into a queue, then drains the queue
/// through the pump; returns the bytes written and the pump's final state.
fn run_session(keys: &[KeyEvent], blocked_writes: usize) -> (Vec<u8>, PumpState) {
    let mut capture = InputCapture::new();
    let mut queue: Vec<Option<u8>> = Vec::new();
    for k in keys {
        match capture.handle(k) {
            CaptureAction::Send(bytes) => queue.extend(bytes.into_iter().map(Some)),
            CaptureAction::Close => queue.push(None),
            CaptureAction::Finished => {}
        }
    }
    let mut pump = Pump::new();
    let mut written = Vec::new();
    for item in queue {
        let ev = match item {
            Some(b) => PumpEvent::Dequeued(b),
            None => PumpEvent::QueueClosed,
        };
        if let PumpAction::Write(b) = pump.step(ev) {
            for _ in 0..blocked_writes {
                assert_eq!(pump.step(PumpEvent::WriteWouldBlock), PumpAction::Write(b));
            }
            assert_eq!(pump.step(PumpEvent::Written), PumpAction::Wait);
            written.push(b);
        }
    }
    pump.finish();
    (written, pump.state())
}

#[test]
fn session_keeps_order_and_ends_on_control_a() {
    let keys = [
        KeyEvent::new(KeyCode::Char('o'), Modifier::Plain),
        KeyEvent::new(KeyCode::Char('k'), Modifier::Shift),
        KeyEvent::new(KeyCode::Up, Modifier::Plain),
        KeyEvent::new(KeyCode::Char('c'), Modifier::Control),
        KeyEvent::new(KeyCode::Char('a'), Modifier::Control),
        KeyEvent::new(KeyCode::Char('z'), Modifier::Plain),
    ];
    let (written, state) = run_session(&keys, 2);
    assert_eq!(written, vec![0x6F, 0x4B, 0x1B, 0x5B, 0x41, 0x03]);
    assert_eq!(state, PumpState::Stopped);
}

#[test]
fn session_without_end_keeps_running() {
    let keys = [KeyEvent::new(KeyCode::Char('c'), Modifier::Control)];
    let (written, state) = run_session(&keys, 0);
    assert_eq!(written, vec![0x03]);
    assert_eq!(state, PumpState::Running);
}

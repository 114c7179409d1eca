use serial_terminal::capture::{CaptureAction, InputCapture};
use serial_terminal::keys::{KeyCode, KeyEvent, Modifier};

#[test]
fn capture_sends_translations_in_order() {
    let mut c = InputCapture::new();
    assert_eq!(c.handle(&KeyEvent::new(KeyCode::Char('h'), Modifier::Plain)), CaptureAction::Send(vec![0x68]));
    assert_eq!(c.handle(&KeyEvent::new(KeyCode::Up, Modifier::Plain)), CaptureAction::Send(vec![0x1B, 0x5B, 0x41]));
    assert_eq!(c.handle(&KeyEvent::new(KeyCode::Other, Modifier::Plain)), CaptureAction::Send(vec![]));
    assert!(c.is_open());
}

#[test]
fn control_c_keeps_session_open() {
    let mut c = InputCapture::new();
    assert_eq!(c.handle(&KeyEvent::new(KeyCode::Char('c'), Modifier::Control)), CaptureAction::Send(vec![0x03]));
    assert!(c.is_open());
}

#[test]
fn control_a_closes_and_is_final() {
    let mut c = InputCapture::new();
    assert_eq!(c.handle(&KeyEvent::new(KeyCode::Char('a'), Modifier::Control)), CaptureAction::Close);
    assert!(!c.is_open());
    assert_eq!(c.handle(&KeyEvent::new(KeyCode::Char('x'), Modifier::Plain)), CaptureAction::Finished);
    assert_eq!(c.handle(&KeyEvent::new(KeyCode::Char('a'), Modifier::Control)), CaptureAction::Finished);
    assert!(!c.is_open());
}

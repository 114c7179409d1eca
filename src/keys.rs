//! Key events and their translation into serial bytes.
use vstd::prelude::*;

verus! {

/// The byte that starts every escape sequence (ESC).
pub const ESC: u8 = 0x1b;

/// The modifier bit for Shift, as the terminal driver reports it.
pub const SHIFT_BITS: u8 = 0b0000_0001;

/// The modifier bit for Control, as the terminal driver reports it.
pub const CONTROL_BITS: u8 = 0b0000_0010;

/// The key that was pressed.
#[derive(Clone, Copy, Debug, PartialEq, Eq, Structural)]
pub enum KeyCode {
    Char(char),
    Home,
    End,
    Backspace,
    Tab,
    Enter,
    Esc,
    Delete,
    Up,
    Down,
    Left,
    Right,
    /// Any key that the terminal does not translate.
    Other,
}

/// The modifier state of a key event. Combinations of several modifiers, and
/// modifiers other than Shift and Control, are all `Other`.
#[derive(Clone, Copy, Debug, PartialEq, Eq, Structural)]
pub enum Modifier {
    /// No modifier held.
    Plain,
    Shift,
    Control,
    Other,
}

/// One key press with its modifier state.
#[derive(Clone, Copy, Debug, PartialEq, Eq, Structural)]
pub struct KeyEvent {
    pub code: KeyCode,
    pub modifier: Modifier,
}

/// What a key event becomes: bytes for the serial peer (possibly none), or the
/// end of the session.
#[derive(Debug)]
pub enum Translation {
    Bytes(Vec<u8>),
    EndSession,
}

/// The mathematical value of a `Translation`.
pub enum TranslationModel {
    Bytes(Seq<u8>),
    EndSession,
}

impl View for Translation {
    type V = TranslationModel;

    open spec fn view(&self) -> TranslationModel {
        match self {
            Translation::Bytes(v) => TranslationModel::Bytes(v@),
            Translation::EndSession => TranslationModel::EndSession,
        }
    }
}

/// The byte sent for a character: its code point truncated to eight bits.
pub open spec fn char_byte(c: char) -> u8 {
    (c as u32 % 256) as u8
}

/// The byte sent for `c` with Shift held: an ASCII lower-case letter gives the
/// byte of its upper-case letter; every other character gives its own byte.
/// The terminal driver reports a shifted letter either way, and both give the
/// same byte.
pub open spec fn shifted_byte(c: char) -> u8 {
    if 'a' <= c && c <= 'z' {
        ((c as u32) - 32) as u8
    } else {
        char_byte(c)
    }
}

/// The modifier that a set of modifier bits stands for.
pub open spec fn modifier_of_bits(bits: u8) -> Modifier {
    if bits == 0 {
        Modifier::Plain
    } else if bits == SHIFT_BITS {
        Modifier::Shift
    } else if bits == CONTROL_BITS {
        Modifier::Control
    } else {
        Modifier::Other
    }
}

/// ESC `[` followed by `tail`: a control sequence.
pub open spec fn csi(tail: Seq<u8>) -> Seq<u8> {
    seq![ESC, 0x5bu8] + tail
}

/// The translation table: modifier and key to bytes, or the end of the session.
pub open spec fn translation_of(ev: KeyEvent) -> TranslationModel {
    match ev.modifier {
        Modifier::Control => match ev.code {
            KeyCode::Char('c') => TranslationModel::Bytes(seq![0x03u8]),
            KeyCode::Char('k') => TranslationModel::Bytes(seq![0x0bu8]),
            KeyCode::Char('u') => TranslationModel::Bytes(seq![0x15u8]),
            KeyCode::Char('a') => TranslationModel::EndSession,
            _ => TranslationModel::Bytes(seq![]),
        },
        Modifier::Shift => match ev.code {
            KeyCode::Char(c) => TranslationModel::Bytes(seq![shifted_byte(c)]),
            _ => TranslationModel::Bytes(seq![]),
        },
        Modifier::Plain => match ev.code {
            KeyCode::Home => TranslationModel::Bytes(seq![0x01u8]),
            KeyCode::End => TranslationModel::Bytes(seq![0x05u8]),
            KeyCode::Backspace => TranslationModel::Bytes(seq![0x08u8]),
            KeyCode::Tab => TranslationModel::Bytes(seq![0x09u8]),
            KeyCode::Enter => TranslationModel::Bytes(seq![0x0du8]),
            KeyCode::Esc => TranslationModel::Bytes(seq![ESC]),
            KeyCode::Delete => TranslationModel::Bytes(csi(seq![0x33u8, 0x7eu8])),
            KeyCode::Up => TranslationModel::Bytes(csi(seq![0x41u8])),
            KeyCode::Down => TranslationModel::Bytes(csi(seq![0x42u8])),
            KeyCode::Right => TranslationModel::Bytes(csi(seq![0x43u8])),
            KeyCode::Left => TranslationModel::Bytes(csi(seq![0x44u8])),
            KeyCode::Char(c) => TranslationModel::Bytes(seq![char_byte(c)]),
            KeyCode::Other => TranslationModel::Bytes(seq![]),
        },
        Modifier::Other => TranslationModel::Bytes(seq![]),
    }
}

impl Modifier {
    /// The modifier for a set of modifier bits: no bit is `Plain`, Shift alone
    /// is `Shift`, Control alone is `Control`, anything else is `Other`.
    pub fn from_bits(bits: u8) -> (r: Modifier)
        ensures
            r == modifier_of_bits(bits),
    {
        if bits == 0 {
            Modifier::Plain
        } else if bits == SHIFT_BITS {
            Modifier::Shift
        } else if bits == CONTROL_BITS {
            Modifier::Control
        } else {
            Modifier::Other
        }
    }
}

impl KeyEvent {
    pub fn new(code: KeyCode, modifier: Modifier) -> (r: KeyEvent)
        ensures
            r.code == code,
            r.modifier == modifier,
    {
        KeyEvent { code, modifier }
    }
}

fn byte_of_char(c: char) -> (r: u8)
    ensures
        r == char_byte(c),
{
    ((c as u32) % 256) as u8
}

fn shifted_byte_of(c: char) -> (r: u8)
    ensures
        r == shifted_byte(c),
{
    if 'a' <= c && c <= 'z' {
        ((c as u32) - 32) as u8
    } else {
        byte_of_char(c)
    }
}

/// A vector holding `b` alone.
fn single(b: u8) -> (r: Vec<u8>)
    ensures
        r@ == seq![b],
{
    let mut out: Vec<u8> = Vec::new();
    out.push(b);
    assert(out@ =~= seq![b]);
    out
}

fn nothing() -> (r: Vec<u8>)
    ensures
        r@ == Seq::<u8>::empty(),
{
    Vec::new()
}

/// ESC `[` followed by `tail`.
fn control_sequence(tail: Vec<u8>) -> (r: Vec<u8>)
    ensures
        r@ == csi(tail@),
{
    let mut out: Vec<u8> = Vec::new();
    out.push(ESC);
    out.push(0x5b);
    let mut rest = tail;
    out.append(&mut rest);
    assert(out@ =~= csi(tail@));
    out
}

/// Translates one key event. The function is total: every event gives bytes
/// (possibly none) or the end of the session.
pub fn translate(ev: &KeyEvent) -> (r: Translation)
    ensures
        r@ == translation_of(*ev),
{
    match ev.modifier {
        Modifier::Control => match ev.code {
            KeyCode::Char('c') => Translation::Bytes(single(0x03)),
            KeyCode::Char('k') => Translation::Bytes(single(0x0b)),
            KeyCode::Char('u') => Translation::Bytes(single(0x15)),
            KeyCode::Char('a') => Translation::EndSession,
            _ => Translation::Bytes(nothing()),
        },
        Modifier::Shift => match ev.code {
            KeyCode::Char(c) => Translation::Bytes(single(shifted_byte_of(c))),
            _ => Translation::Bytes(nothing()),
        },
        Modifier::Plain => match ev.code {
            KeyCode::Home => Translation::Bytes(single(0x01)),
            KeyCode::End => Translation::Bytes(single(0x05)),
            KeyCode::Backspace => Translation::Bytes(single(0x08)),
            KeyCode::Tab => Translation::Bytes(single(0x09)),
            KeyCode::Enter => Translation::Bytes(single(0x0d)),
            KeyCode::Esc => Translation::Bytes(single(ESC)),
            KeyCode::Delete => Translation::Bytes({
                let mut tail = single(0x33);
                tail.push(0x7e);
                assert(tail@ =~= seq![0x33u8, 0x7eu8]);
                control_sequence(tail)
            }),
            KeyCode::Up => Translation::Bytes(control_sequence(single(0x41))),
            KeyCode::Down => Translation::Bytes(control_sequence(single(0x42))),
            KeyCode::Right => Translation::Bytes(control_sequence(single(0x43))),
            KeyCode::Left => Translation::Bytes(control_sequence(single(0x44))),
            KeyCode::Char(c) => Translation::Bytes(single(byte_of_char(c))),
            KeyCode::Other => Translation::Bytes(nothing()),
        },
        Modifier::Other => Translation::Bytes(nothing()),
    }
}

} // verus!

verus! {

/// The translation is total: every event, whatever its modifier and key, gives
/// either at most four bytes or the end of the session, and only Control with
/// `a` ends the session.
pub proof fn lemma_translation_total(ev: KeyEvent)
    ensures
        translation_of(ev) is EndSession || translation_of(ev) is Bytes,
        translation_of(ev) is EndSession <==> (ev.modifier == Modifier::Control && ev.code
            == KeyCode::Char('a')),
        translation_of(ev) matches TranslationModel::Bytes(v) ==> v.len() <= 4,
{
}

/// The translation is a function of the event alone: two translations of equal
/// events are equal.
pub proof fn lemma_translation_deterministic(a: KeyEvent, b: KeyEvent, ra: Translation, rb: Translation)
    requires
        a == b,
        ra@ == translation_of(a),
        rb@ == translation_of(b),
    ensures
        ra@ == rb@,
{
}

} // verus!

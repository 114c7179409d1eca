//! The input side: each key event is translated and its bytes are handed to
//! the outbound queue, until the key that ends the session closes it.
//!
//! Reading key events and sending on the queue are left to the caller, which
//! performs the action that `handle` returns.
use vstd::prelude::*;
use crate::keys::{translate, translation_of, KeyEvent, Translation, TranslationModel};

verus! {

/// What the caller is to do with the queue.
#[derive(Debug, PartialEq, Eq)]
pub enum CaptureAction {
    /// Send these bytes on the queue, in order (possibly none).
    Send(Vec<u8>),
    /// Close the queue and stop reading key events.
    Close,
    /// The session already ended: nothing to do.
    Finished,
}

pub enum CaptureActionModel {
    Send(Seq<u8>),
    Close,
    Finished,
}

impl View for CaptureAction {
    type V = CaptureActionModel;

    open spec fn view(&self) -> CaptureActionModel {
        match self {
            CaptureAction::Send(v) => CaptureActionModel::Send(v@),
            CaptureAction::Close => CaptureActionModel::Close,
            CaptureAction::Finished => CaptureActionModel::Finished,
        }
    }
}

/// The input side as a mathematical value: whether the queue is still open,
/// and every byte sent on it so far, in order.
pub struct CaptureModel {
    pub open: bool,
    pub sent: Seq<u8>,
}

/// One key event: its bytes are sent while the queue is open; the event that
/// ends the session closes it; once closed, nothing more happens.
pub open spec fn capture_next(m: CaptureModel, ev: KeyEvent) -> (CaptureModel, CaptureActionModel) {
    if !m.open {
        (m, CaptureActionModel::Finished)
    } else {
        match translation_of(ev) {
            TranslationModel::Bytes(v) => (
                CaptureModel { open: true, sent: m.sent + v },
                CaptureActionModel::Send(v),
            ),
            TranslationModel::EndSession => (
                CaptureModel { open: false, sent: m.sent },
                CaptureActionModel::Close,
            ),
        }
    }
}

/// The input side after the key events `keys`, one after another, from `m`.
pub open spec fn capture_run(m: CaptureModel, keys: Seq<KeyEvent>) -> CaptureModel
    decreases keys.len(),
{
    if keys.len() == 0 {
        m
    } else {
        capture_run(capture_next(m, keys[0]).0, keys.drop_first())
    }
}

/// The bytes of the translations of `keys`, in order, up to the first event
/// that ends the session.
pub open spec fn key_stream(keys: Seq<KeyEvent>) -> Seq<u8>
    decreases keys.len(),
{
    if keys.len() == 0 {
        Seq::empty()
    } else {
        match translation_of(keys[0]) {
            TranslationModel::Bytes(v) => v + key_stream(keys.drop_first()),
            TranslationModel::EndSession => Seq::empty(),
        }
    }
}

/// Whether some event of `keys` ends the session.
pub open spec fn ends_session(keys: Seq<KeyEvent>) -> bool {
    exists|i: int| 0 <= i < keys.len() && translation_of(#[trigger] keys[i]) is EndSession
}

/// The input side before its first key event.
pub open spec fn initial_capture() -> CaptureModel {
    CaptureModel { open: true, sent: Seq::empty() }
}

/// The input side of a session.
pub struct InputCapture {
    open: bool,
    sent: Ghost<Seq<u8>>,
}

impl View for InputCapture {
    type V = CaptureModel;

    closed spec fn view(&self) -> CaptureModel {
        CaptureModel { open: self.open, sent: self.sent@ }
    }
}

impl InputCapture {
    /// An input side with the queue open and nothing sent.
    pub fn new() -> (r: InputCapture)
        ensures
            r@ == initial_capture(),
    {
        InputCapture { open: true, sent: Ghost(Seq::empty()) }
    }

    /// Whether the queue is still open.
    pub fn is_open(&self) -> (r: bool)
        ensures
            r == self@.open,
    {
        self.open
    }

    /// Takes one key event and says what to do with the queue.
    pub fn handle(&mut self, ev: &KeyEvent) -> (r: CaptureAction)
        ensures
            (final(self)@, r@) == capture_next(old(self)@, *ev),
    {
        if !self.open {
            return CaptureAction::Finished;
        }
        match translate(ev) {
            Translation::Bytes(v) => {
                self.sent = Ghost(self.sent@ + v@);
                CaptureAction::Send(v)
            },
            Translation::EndSession => {
                self.open = false;
                CaptureAction::Close
            },
        }
    }
}

/// What the input side sends: after any key events, the bytes sent are the
/// translations of the events in order, up to the one that ends the session,
/// and the queue is open exactly when no event ended the session.
pub proof fn lemma_capture_stream(keys: Seq<KeyEvent>)
    ensures
        capture_run(initial_capture(), keys).sent == key_stream(keys),
        capture_run(initial_capture(), keys).open == !ends_session(keys),
{
    lemma_capture_from(initial_capture(), keys);
    assert(Seq::<u8>::empty() + key_stream(keys) =~= key_stream(keys));
}

/// The end of the session is final: once the queue is closed, no key event
/// sends anything or opens it again.
pub proof fn lemma_closed_is_final(m: CaptureModel, keys: Seq<KeyEvent>)
    requires
        !m.open,
    ensures
        capture_run(m, keys) == m,
    decreases keys.len(),
{
    if keys.len() > 0 {
        lemma_closed_is_final(m, keys.drop_first());
    }
}

/// `lemma_capture_stream` from any open state.
pub proof fn lemma_capture_from(m: CaptureModel, keys: Seq<KeyEvent>)
    requires
        m.open,
    ensures
        capture_run(m, keys).sent == m.sent + key_stream(keys),
        capture_run(m, keys).open == !ends_session(keys),
    decreases keys.len(),
{
    if keys.len() == 0 {
        assert(m.sent + Seq::<u8>::empty() =~= m.sent);
    } else {
        let rest = keys.drop_first();
        let m1 = capture_next(m, keys[0]).0;
        match translation_of(keys[0]) {
            TranslationModel::Bytes(v) => {
                lemma_capture_from(m1, rest);
                assert(m.sent + v + key_stream(rest) =~= m.sent + (v + key_stream(rest)));
                if ends_session(rest) {
                    let i = choose|i: int| 0 <= i < rest.len() && translation_of(#[trigger] rest[i]) is EndSession;
                    assert(keys[i + 1] == rest[i]);
                }
                if ends_session(keys) {
                    let i = choose|i: int| 0 <= i < keys.len() && translation_of(#[trigger] keys[i]) is EndSession;
                    assert(i > 0);
                    assert(rest[i - 1] == keys[i]);
                }
            },
            TranslationModel::EndSession => {
                lemma_closed_is_final(m1, rest);
                assert(m.sent + Seq::<u8>::empty() =~= m.sent);
                assert(translation_of(keys[0]) is EndSession);
            },
        }
    }
}

} // verus!

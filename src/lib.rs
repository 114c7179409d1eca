//! An interactive serial-port terminal, reduced to its decisions: the
//! translation of key events into the bytes a serial peer expects, the input
//! side that feeds those bytes into an ordered queue, and the duplex pump that
//! moves bytes between the queue, the serial device and the console.
use vstd::prelude::*;

pub mod capture;
pub mod keys;
pub mod pump;

use crate::capture::{capture_run, initial_capture, lemma_capture_stream};
use crate::keys::KeyEvent;
use crate::pump::{accepted_run, initial_model, lemma_fifo, queue_bytes, run, EventModel};

verus! {

/// End to end order: when the queue hands the pump a prefix of what the input
/// side sent for `keys` (the queue keeps order), the bytes written to the
/// device are a prefix of the bytes sent, in the same order.
pub proof fn lemma_session_order(keys: Seq<KeyEvent>, es: Seq<EventModel>)
    requires
        accepted_run(initial_model(), es),
        queue_bytes(es).is_prefix_of(capture_run(initial_capture(), keys).sent),
    ensures
        run(initial_model(), es).written.is_prefix_of(capture_run(initial_capture(), keys).sent),
{
    lemma_fifo(es);
    lemma_capture_stream(keys);
    let w = run(initial_model(), es).written;
    let q = queue_bytes(es);
    let s = capture_run(initial_capture(), keys).sent;
    assert forall|i: int| 0 <= i < w.len() implies w[i] == s[i] by {
        assert(w[i] == q[i]);
    }
}

} // verus!

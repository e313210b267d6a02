//! The message forwarder: what is sent to the user interface for each MIDI
//! message that arrives on the open input connection.

use vstd::prelude::*;
use vstd::slice::slice_to_vec;

verus! {

/// The name of the event that carries an incoming message to the user interface.
pub const MIDI_MESSAGE_EVENT: &'static str = "midi_message";

/// The payload of that event: the raw bytes of one MIDI message.
///
/// The bytes are passed on as they came. Nothing checks that they form a
/// well-formed MIDI message.
#[derive(Clone, Debug, PartialEq, Eq)]
pub struct MidiMessage {
    pub message: Vec<u8>,
}

impl MidiMessage {
    /// Copies the bytes of an incoming message into a payload of its own.
    pub fn from_bytes(message: &[u8]) -> (payload: Self)
        ensures
            payload.message@ == message@,
    {
        MidiMessage { message: slice_to_vec(message) }
    }
}

} // verus!

//! The commands that the user interface can call, as far as they decide or
//! compute anything.

use crate::manager::{open_action, slot_after, MidiState, OpenAction, OpenEvent, DELUGE_PORT_NAME};
use vstd::prelude::*;

verus! {

/// A report of the driver, together with the direction that it is about.
pub enum MidiEvent<I, O> {
    Input(OpenEvent<I>),
    Output(OpenEvent<O>),
}

/// Opens the connections to the Deluge: takes one report of the driver and
/// answers what to do next for the direction that the report is about.
///
/// Both directions look for the port named [`DELUGE_PORT_NAME`]. The index
/// that the user interface sends along does not select the port.
pub fn open_midi_connection<I, O>(
    midi_state: &mut MidiState<I, O>,
    input_idx: usize,
    event: MidiEvent<I, O>,
) -> (action: OpenAction)
    ensures
        match event {
            MidiEvent::Input(report) => {
                &&& action == open_action(report, DELUGE_PORT_NAME@)
                &&& final(midi_state).input == slot_after(old(midi_state).input, report)
                &&& final(midi_state).output == old(midi_state).output
            },
            MidiEvent::Output(report) => {
                &&& action == open_action(report, DELUGE_PORT_NAME@)
                &&& final(midi_state).output == slot_after(old(midi_state).output, report)
                &&& final(midi_state).input == old(midi_state).input
            },
        },
{
    match event {
        MidiEvent::Input(report) => midi_state.open_input(DELUGE_PORT_NAME, report),
        MidiEvent::Output(report) => midi_state.open_output(DELUGE_PORT_NAME, report),
    }
}

/// The line that is logged when the user interface hands over a SysEx message.
pub fn sysex_receive(sysex_receive_message: &str) -> (line: String)
    ensures
        line@ == "SysEx message received: "@ + sysex_receive_message@,
{
    "SysEx message received: ".to_owned().concat(sysex_receive_message)
}

/// The reply to a request to send a SysEx message. Nothing is sent.
pub fn sysex_send() -> (reply: String)
    ensures
        reply@ == "SysEx message sent:"@,
{
    "SysEx message sent:".to_owned()
}

} // verus!

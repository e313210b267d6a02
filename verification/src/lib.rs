//! Port matching and connection lifecycle for a MIDI bridge between a Deluge
//! synthesizer and a graphical front-end.
//!
//! The library holds the decisions of the bridge and none of its I/O. A driver
//! talks to the MIDI subsystem and to the user interface; it reports what it
//! saw as plain values and carries out what the library answers.

pub mod commands;
pub mod manager;
pub mod message;
pub mod ports;

pub use commands::{open_midi_connection, sysex_receive, sysex_send, MidiEvent};
pub use manager::{
    on_open_event, MidiState, OpenAction, OpenEvent, OpenOutcome, CONNECTION_NAME,
    DELUGE_PORT_NAME, INPUT_CLIENT_NAME, OUTPUT_CLIENT_NAME,
};
pub use message::{MidiMessage, MIDI_MESSAGE_EVENT};
pub use ports::{find_port_index, list_midi_connections, Enumeration};

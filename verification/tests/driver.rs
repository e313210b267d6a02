use delugian::{
    list_midi_connections, open_midi_connection, Enumeration, MidiEvent, MidiMessage, MidiState,
    OpenAction, OpenEvent, OpenOutcome,
};
use std::sync::{Arc, Mutex};

/// A MIDI subsystem for one direction that exists only in memory.
struct FakeSubsystem {
    available: bool,
    names: Vec<Option<&'static str>>,
    refuses_connections: bool,
}

/// A connection of the fake subsystem: it remembers the port it was made to.
#[derive(Debug, PartialEq)]
struct FakeConnection {
    port_index: usize,
    serial: u32,
}

impl FakeSubsystem {
    fn enumerate(&self) -> Enumeration {
        if !self.available {
            return Enumeration::Unavailable;
        }
        Enumeration::Ports(
            self.names
                .iter()
                .map(|name| name.map(|name| name.to_string()))
                .collect(),
        )
    }

    fn connect(&self, port_index: usize, serial: u32) -> Option<FakeConnection> {
        if self.refuses_connections || port_index >= self.names.len() {
            return None;
        }
        Some(FakeConnection { port_index, serial })
    }
}

type Shared = Mutex<MidiState<FakeConnection, FakeConnection>>;

/// Drives the opening of one direction as a program does: enumerate, report,
/// and connect where the manager asks for it.
fn drive(shared: &Shared, subsystem: &FakeSubsystem, input: bool, serial: u32) -> OpenOutcome {
    let mut event = OpenEvent::Enumerated(subsystem.enumerate());
    loop {
        let directed = if input {
            MidiEvent::Input(event)
        } else {
            MidiEvent::Output(event)
        };
        let action = open_midi_connection(&mut *shared.lock().unwrap(), 0, directed);
        event = match action {
            OpenAction::Connect { port_index } => match subsystem.connect(port_index, serial) {
                Some(connection) => OpenEvent::Connected(connection),
                None => OpenEvent::ConnectFailed,
            },
            OpenAction::Done(outcome) => return outcome,
        };
    }
}

fn deluge_at_one() -> FakeSubsystem {
    FakeSubsystem {
        available: true,
        names: vec![Some("IAC Driver"), Some("Deluge Port 3"), Some("Deluge Port 5")],
        refuses_connections: false,
    }
}

#[test]
fn shared_manager_starts_closed() {
    let shared = Shared::default();
    let state = shared.lock().unwrap();
    assert_eq!(state.input, None);
    assert_eq!(state.output, None);
}

#[test]
fn open_connects_both_directions_to_the_deluge() {
    let shared = Shared::default();
    assert_eq!(drive(&shared, &deluge_at_one(), true, 1), OpenOutcome::Opened);
    assert_eq!(drive(&shared, &deluge_at_one(), false, 2), OpenOutcome::Opened);
    let state = shared.lock().unwrap();
    assert_eq!(state.input, Some(FakeConnection { port_index: 1, serial: 1 }));
    assert_eq!(state.output, Some(FakeConnection { port_index: 1, serial: 2 }));
}

#[test]
fn reopen_replaces_the_connection() {
    let shared = Shared::default();
    assert_eq!(drive(&shared, &deluge_at_one(), true, 1), OpenOutcome::Opened);
    let moved = FakeSubsystem {
        available: true,
        names: vec![Some("Deluge Port 3")],
        refuses_connections: false,
    };
    assert_eq!(drive(&shared, &moved, true, 2), OpenOutcome::Opened);
    let state = shared.lock().unwrap();
    assert_eq!(state.input, Some(FakeConnection { port_index: 0, serial: 2 }));
    assert_eq!(state.output, None);
}

#[test]
fn open_without_the_deluge_keeps_what_was_open() {
    let shared = Shared::default();
    assert_eq!(drive(&shared, &deluge_at_one(), false, 1), OpenOutcome::Opened);
    let unplugged = FakeSubsystem {
        available: true,
        names: vec![Some("IAC Driver")],
        refuses_connections: false,
    };
    assert_eq!(drive(&shared, &unplugged, true, 2), OpenOutcome::PortNotFound);
    assert_eq!(drive(&shared, &unplugged, false, 3), OpenOutcome::PortNotFound);
    let state = shared.lock().unwrap();
    assert_eq!(state.input, None);
    assert_eq!(state.output, Some(FakeConnection { port_index: 1, serial: 1 }));
}

#[test]
fn open_without_a_subsystem_changes_nothing() {
    let shared = Shared::default();
    let missing = FakeSubsystem {
        available: false,
        names: vec![Some("Deluge Port 3")],
        refuses_connections: false,
    };
    assert_eq!(drive(&shared, &missing, true, 1), OpenOutcome::SubsystemUnavailable);
    assert_eq!(drive(&shared, &missing, false, 2), OpenOutcome::SubsystemUnavailable);
    let state = shared.lock().unwrap();
    assert_eq!(state.input, None);
    assert_eq!(state.output, None);
}

#[test]
fn refused_connection_changes_nothing() {
    let shared = Shared::default();
    assert_eq!(drive(&shared, &deluge_at_one(), true, 1), OpenOutcome::Opened);
    let busy = FakeSubsystem {
        available: true,
        names: vec![Some("Deluge Port 3")],
        refuses_connections: true,
    };
    assert_eq!(drive(&shared, &busy, true, 2), OpenOutcome::ConnectFailed);
    assert_eq!(drive(&shared, &busy, false, 3), OpenOutcome::ConnectFailed);
    let state = shared.lock().unwrap();
    assert_eq!(state.input, Some(FakeConnection { port_index: 1, serial: 1 }));
    assert_eq!(state.output, None);
}

#[test]
fn port_with_unreadable_name_is_passed_over() {
    let shared = Shared::default();
    let subsystem = FakeSubsystem {
        available: true,
        names: vec![None, Some("IAC Driver"), None, Some("Deluge Port 3")],
        refuses_connections: false,
    };
    assert_eq!(drive(&shared, &subsystem, true, 1), OpenOutcome::Opened);
    assert_eq!(
        shared.lock().unwrap().input,
        Some(FakeConnection { port_index: 3, serial: 1 })
    );
    let listed = list_midi_connections(&subsystem.enumerate());
    assert_eq!(listed.len(), 2);
    assert_eq!(listed.get(&1).map(String::as_str), Some("IAC Driver"));
    assert_eq!(listed.get(&3).map(String::as_str), Some("Deluge Port 3"));
}

#[test]
fn each_arriving_message_gives_one_payload_with_its_bytes() {
    let sent: Arc<Mutex<Vec<MidiMessage>>> = Arc::new(Mutex::new(Vec::new()));
    let sink = Arc::clone(&sent);
    let mut callback = move |message: &[u8]| sink.lock().unwrap().push(MidiMessage::from_bytes(message));
    callback(&[0x90, 0x40, 0x7F]);
    let sent = sent.lock().unwrap();
    assert_eq!(sent.len(), 1);
    assert_eq!(sent[0].message, vec![0x90, 0x40, 0x7F]);
}

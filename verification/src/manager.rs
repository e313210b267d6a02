//! The connection manager: at most one open input connection and one open
//! output connection, replaced on every successful open.
//!
//! Opening a direction alternates between the driver, which talks to the MIDI
//! subsystem, and the manager, which decides. The driver enumerates the ports
//! and reports them; the manager answers with the port to connect to, or ends
//! the attempt. The driver connects and reports how that went; the manager
//! stores the new connection, or leaves its slot as it was.

use crate::ports::{
    absent_name_is_not_found, find_port_index, first_match, first_match_characterised,
    is_first_match, no_match, Enumeration,
};
use vstd::prelude::*;

verus! {

/// The name under which the input side registers with the MIDI subsystem.
pub const INPUT_CLIENT_NAME: &'static str = "delugian-input";

/// The name under which the output side registers with the MIDI subsystem.
pub const OUTPUT_CLIENT_NAME: &'static str = "delugian-output";

/// The display name of the port that is opened, for input and for output.
pub const DELUGE_PORT_NAME: &'static str = "Deluge Port 3";

/// The name given to each connection that is made.
pub const CONNECTION_NAME: &'static str = "Delugian";

/// What the driver reports to the manager while one direction is opened.
pub enum OpenEvent<C> {
    /// The ports of the direction were asked for.
    Enumerated(Enumeration),
    /// The connection asked for was made.
    Connected(C),
    /// The connection asked for could not be made.
    ConnectFailed,
}

/// How an attempt to open one direction ended.
#[derive(Clone, Copy, Debug, PartialEq, Eq, Structural)]
pub enum OpenOutcome {
    /// A new connection is stored.
    Opened,
    /// The MIDI subsystem could not be initialised.
    SubsystemUnavailable,
    /// No port carries the name asked for.
    PortNotFound,
    /// The port was there, but the connection could not be made.
    ConnectFailed,
}

/// What the manager asks of the driver next.
#[derive(Clone, Copy, Debug, PartialEq, Eq, Structural)]
pub enum OpenAction {
    /// Connect to the port at this index of the enumeration just reported.
    Connect { port_index: usize },
    /// Nothing more: the attempt is over.
    Done(OpenOutcome),
}

/// The manager's answer to `event` while it opens the port named `target`.
pub open spec fn open_action<C>(event: OpenEvent<C>, target: Seq<char>) -> OpenAction {
    match event {
        OpenEvent::Enumerated(Enumeration::Unavailable) => OpenAction::Done(
            OpenOutcome::SubsystemUnavailable,
        ),
        OpenEvent::Enumerated(Enumeration::Ports(readings)) => match first_match(
            readings@,
            target,
        ) {
            Some(k) => OpenAction::Connect { port_index: k as usize },
            None => OpenAction::Done(OpenOutcome::PortNotFound),
        },
        OpenEvent::Connected(_) => OpenAction::Done(OpenOutcome::Opened),
        OpenEvent::ConnectFailed => OpenAction::Done(OpenOutcome::ConnectFailed),
    }
}

/// What a slot holds after `event`: the new connection once one was made, and
/// otherwise what it held before.
pub open spec fn slot_after<C>(slot: Option<C>, event: OpenEvent<C>) -> Option<C> {
    match event {
        OpenEvent::Connected(connection) => Some(connection),
        _ => slot,
    }
}

/// Takes one report of the driver for the direction that `slot` belongs to.
///
/// A connection that was made takes the slot, and the one held before is
/// released. Every other report leaves the slot untouched.
pub fn on_open_event<C>(slot: &mut Option<C>, target_name: &str, event: OpenEvent<C>) -> (action:
    OpenAction)
    ensures
        action == open_action(event, target_name@),
        *final(slot) == slot_after(*old(slot), event),
{
    match event {
        OpenEvent::Enumerated(Enumeration::Unavailable) => OpenAction::Done(
            OpenOutcome::SubsystemUnavailable,
        ),
        OpenEvent::Enumerated(Enumeration::Ports(readings)) => {
            match find_port_index(&readings, target_name) {
                Some(port_index) => OpenAction::Connect { port_index },
                None => OpenAction::Done(OpenOutcome::PortNotFound),
            }
        },
        OpenEvent::Connected(connection) => {
            *slot = Some(connection);
            OpenAction::Done(OpenOutcome::Opened)
        },
        OpenEvent::ConnectFailed => OpenAction::Done(OpenOutcome::ConnectFailed),
    }
}

/// The connections that are open: one slot for each direction.
pub struct MidiState<I, O> {
    pub input: Option<I>,
    pub output: Option<O>,
}

impl<I, O> MidiState<I, O> {
    /// A manager with no connection open.
    pub fn new() -> (state: Self)
        ensures
            state.input is None,
            state.output is None,
    {
        MidiState { input: None, output: None }
    }

    /// Takes one report of the driver while the input direction is opened.
    pub fn open_input(&mut self, target_name: &str, event: OpenEvent<I>) -> (action: OpenAction)
        ensures
            action == open_action(event, target_name@),
            final(self).input == slot_after(old(self).input, event),
            final(self).output == old(self).output,
    {
        on_open_event(&mut self.input, target_name, event)
    }

    /// Takes one report of the driver while the output direction is opened.
    pub fn open_output(&mut self, target_name: &str, event: OpenEvent<O>) -> (action: OpenAction)
        ensures
            action == open_action(event, target_name@),
            final(self).output == slot_after(old(self).output, event),
            final(self).input == old(self).input,
    {
        on_open_event(&mut self.output, target_name, event)
    }
}

impl<I, O> Default for MidiState<I, O> {
    fn default() -> (state: Self)
        ensures
            state.input is None,
            state.output is None,
    {
        MidiState::new()
    }
}

/// After a successful open the slot is not empty: it holds the connection
/// that was made, whatever it held before.
pub proof fn opened_slot_holds_connection<C>(slot: Option<C>, connection: C, target: Seq<char>)
    ensures
        open_action(OpenEvent::Connected(connection), target) == OpenAction::Done(
            OpenOutcome::Opened,
        ),
        slot_after(slot, OpenEvent::Connected(connection)) == Some(connection),
{
}

/// After a second successful open the slot holds the second connection. The
/// first is no longer in it: the slot is what it would be had the first open
/// never happened.
pub proof fn reopened_slot_holds_new_connection<C>(slot: Option<C>, first: C, second: C)
    ensures
        slot_after(slot_after(slot, OpenEvent::Connected(first)), OpenEvent::Connected(second))
            == Some(second),
        slot_after(slot_after(slot, OpenEvent::Connected(first)), OpenEvent::Connected(second))
            == slot_after(slot, OpenEvent::Connected(second)),
{
}

/// An open that finds no port with the name asked for ends there, and the slot
/// keeps what it held: nothing, or the connection of an earlier open.
pub proof fn unmatched_open_keeps_slot<C>(
    slot: Option<C>,
    readings: Vec<Option<String>>,
    target: Seq<char>,
)
    requires
        no_match(readings@, target),
    ensures
        open_action::<C>(OpenEvent::Enumerated(Enumeration::Ports(readings)), target)
            == OpenAction::Done(OpenOutcome::PortNotFound),
        slot_after(slot, OpenEvent::Enumerated(Enumeration::Ports(readings))) == slot,
{
    absent_name_is_not_found(readings@, target);
}

/// Only a connection that was made changes a slot: after every other report
/// the slot holds what it held before.
pub proof fn failed_open_keeps_slot<C>(slot: Option<C>, event: OpenEvent<C>)
    requires
        !(event is Connected),
    ensures
        slot_after(slot, event) == slot,
{
}

/// The manager asks to connect only to a port of the enumeration just
/// reported, and only to the first one that carries the name asked for.
pub proof fn connect_is_asked_for_the_first_match<C>(
    readings: Vec<Option<String>>,
    target: Seq<char>,
    port_index: usize,
)
    requires
        open_action::<C>(OpenEvent::Enumerated(Enumeration::Ports(readings)), target)
            == (OpenAction::Connect { port_index }),
    ensures
        port_index < readings@.len(),
        is_first_match(readings@, target, port_index as int),
{
    first_match_characterised(readings@, target);
    assert(readings@.len() == readings.len());
}

} // verus!

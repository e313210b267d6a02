//! Port enumeration and port matching.
//!
//! A driver asks the MIDI subsystem for the ports of one direction and reads
//! the display name of each. What it hands over is a list of readings in
//! enumeration order: `Some(name)` for a port whose name could be read, `None`
//! for one whose name could not. The position of a reading is the index of the
//! port for as long as that enumeration is in use.

use std::collections::HashMap;
use vstd::prelude::*;
use vstd::std_specs::hash::*;

verus! {

broadcast use group_hash_axioms;

/// What the MIDI subsystem answered when asked for the ports of one direction.
#[derive(Debug)]
pub enum Enumeration {
    /// The subsystem could not be initialised.
    Unavailable,
    /// The ports in enumeration order, each with the reading of its name.
    Ports(Vec<Option<String>>),
}

/// The port behind `reading` carries exactly the display name `target`.
///
/// Names are compared character by character: case matters, and so does every
/// leading or trailing blank. A port whose name could not be read carries no
/// name at all.
pub open spec fn carries_name(reading: Option<String>, target: Seq<char>) -> bool {
    match reading {
        Some(name) => name@ == target,
        None => false,
    }
}

/// Position `k` holds the first port that carries `target`.
pub open spec fn is_first_match(readings: Seq<Option<String>>, target: Seq<char>, k: int) -> bool {
    &&& 0 <= k < readings.len()
    &&& carries_name(readings[k], target)
    &&& forall|j: int| 0 <= j < k ==> !carries_name(#[trigger] readings[j], target)
}

/// No port carries `target`.
pub open spec fn no_match(readings: Seq<Option<String>>, target: Seq<char>) -> bool {
    forall|j: int| 0 <= j < readings.len() ==> !carries_name(#[trigger] readings[j], target)
}

/// The position of the first port that carries `target`, if there is one.
pub open spec fn first_match(readings: Seq<Option<String>>, target: Seq<char>) -> Option<int> {
    if exists|k: int| is_first_match(readings, target, k) {
        Some(choose|k: int| is_first_match(readings, target, k))
    } else {
        None
    }
}

/// The mapping that a list of readings stands for: each index whose name could
/// be read, mapped to that name.
pub open spec fn listing(readings: Seq<Option<String>>) -> Map<usize, String> {
    Map::new(
        |i: usize| i < readings.len() && readings[i as int] is Some,
        |i: usize| readings[i as int]->Some_0,
    )
}

/// The mapping that the user interface is shown for an enumeration.
pub open spec fn connections_of(enumeration: Enumeration) -> Map<usize, String> {
    match enumeration {
        Enumeration::Unavailable => Map::empty(),
        Enumeration::Ports(readings) => listing(readings@),
    }
}

/// Finds the port to connect to: the index of the first port whose display
/// name equals `target_name`, or `None` when no port has that name.
///
/// Where several ports have the name, the first in enumeration order wins.
pub fn find_port_index(readings: &Vec<Option<String>>, target_name: &str) -> (found: Option<usize>)
    ensures
        match found {
            Some(k) => first_match(readings@, target_name@) == Some(k as int),
            None => first_match(readings@, target_name@) == None::<int>,
        },
{
    let target = target_name.to_owned();
    let mut i: usize = 0;
    while i < readings.len()
        invariant
            i <= readings.len(),
            target@ == target_name@,
            forall|j: int| 0 <= j < i ==> !carries_name(#[trigger] readings@[j], target_name@),
        decreases readings.len() - i,
    {
        match &readings[i] {
            Some(name) => {
                if *name == target {
                    proof {
                        first_match_is_first_occurrence(readings@, target_name@, i as int);
                    }
                    return Some(i);
                }
            },
            None => {},
        }
        i += 1;
    }
    proof {
        first_match_characterised(readings@, target_name@);
    }
    None
}

/// Lists the available ports for the user interface: a mapping from the index
/// of each port to its display name.
///
/// A subsystem that could not be initialised gives the empty mapping, not an
/// error. A port whose name could not be read is left out; the ports around
/// it keep their indices.
pub fn list_midi_connections(enumeration: &Enumeration) -> (connections: HashMap<usize, String>)
    ensures
        connections@ == connections_of(*enumeration),
{
    let mut connections: HashMap<usize, String> = HashMap::new();
    match enumeration {
        Enumeration::Unavailable => {},
        Enumeration::Ports(readings) => {
            let mut i: usize = 0;
            while i < readings.len()
                invariant
                    i <= readings.len(),
                    connections@ == listing(readings@.take(i as int)),
                decreases readings.len() - i,
            {
                match &readings[i] {
                    Some(name) => {
                        connections.insert(i, name.clone());
                    },
                    None => {},
                }
                assert(connections@ =~= listing(readings@.take(i + 1)));
                i += 1;
            }
            assert(readings@.take(i as int) == readings@);
        },
    }
    connections
}

/// What `first_match` yields, said without it: either the position it gives
/// holds the first port that carries `target`, or no port carries it.
pub proof fn first_match_characterised(readings: Seq<Option<String>>, target: Seq<char>)
    ensures
        match first_match(readings, target) {
            Some(k) => is_first_match(readings, target, k),
            None => no_match(readings, target),
        },
{
    if !no_match(readings, target) {
        let j = choose|j: int|
            0 <= j < readings.len() && carries_name(#[trigger] readings[j], target);
        earliest_match_exists(readings, target, j);
    }
}

/// A name that is present is found: where some port at position `k` carries
/// `target`, the matcher yields a position no later than `k`, and the port
/// there is the first that carries `target`.
pub proof fn present_name_is_found(readings: Seq<Option<String>>, target: Seq<char>, k: int)
    requires
        0 <= k < readings.len(),
        carries_name(readings[k], target),
    ensures
        first_match(readings, target) matches Some(m) && m <= k && is_first_match(
            readings,
            target,
            m,
        ),
{
    earliest_match_exists(readings, target, k);
    first_match_characterised(readings, target);
}

/// The matcher yields `k` where `k` is the first position whose port carries
/// `target`. With the name at an earlier position as well, the earlier one wins.
pub proof fn first_match_is_first_occurrence(
    readings: Seq<Option<String>>,
    target: Seq<char>,
    k: int,
)
    requires
        is_first_match(readings, target, k),
    ensures
        first_match(readings, target) == Some(k),
{
    let m = choose|m: int| is_first_match(readings, target, m);
    assert(is_first_match(readings, target, m));
    if m < k {
        assert(!carries_name(readings[m], target));
    } else if k < m {
        assert(!carries_name(readings[k], target));
    }
}

/// A name that no port carries is not found.
pub proof fn absent_name_is_not_found(readings: Seq<Option<String>>, target: Seq<char>)
    requires
        no_match(readings, target),
    ensures
        first_match(readings, target) == None::<int>,
{
    first_match_characterised(readings, target);
}

/// Matching is exact: the port that the matcher yields has a name of the same
/// length as `target` and with the same character at every place.
pub proof fn matched_name_is_exact(readings: Seq<Option<String>>, target: Seq<char>, k: int)
    requires
        first_match(readings, target) == Some(k),
    ensures
        0 <= k < readings.len(),
        readings[k] matches Some(name) && name@.len() == target.len() && (forall|i: int|
            0 <= i < target.len() ==> name@[i] == target[i]),
{
    first_match_characterised(readings, target);
}

/// Matching is case-sensitive and takes no partial name: a name that is longer
/// or shorter than `target`, or differs from it in one character, is not the
/// name looked for.
pub proof fn differing_name_is_no_match(name: String, target: Seq<char>)
    requires
        name@.len() != target.len() || (exists|i: int|
            0 <= i < target.len() && name@[i] != target[i]),
    ensures
        !carries_name(Some(name), target),
{
}

/// The matcher and the listing count alike: the index that the matcher yields
/// is listed, with the name looked for.
pub proof fn found_port_is_listed(readings: Seq<Option<String>>, target: Seq<char>, k: int)
    requires
        readings.len() <= usize::MAX,
        first_match(readings, target) == Some(k),
    ensures
        0 <= k < readings.len(),
        listing(readings).contains_key(k as usize),
        listing(readings)[k as usize]@ == target,
{
    first_match_characterised(readings, target);
}

/// With no port available the mapping is empty.
pub proof fn no_ports_no_connections(readings: Vec<Option<String>>)
    requires
        readings@.len() == 0,
    ensures
        connections_of(Enumeration::Ports(readings)) == Map::<usize, String>::empty(),
{
}

/// Among the positions up to `k` that carry `target` there is an earliest one.
proof fn earliest_match_exists(readings: Seq<Option<String>>, target: Seq<char>, k: int)
    requires
        0 <= k < readings.len(),
        carries_name(readings[k], target),
    ensures
        exists|m: int| 0 <= m <= k && is_first_match(readings, target, m),
    decreases k,
{
    if exists|j: int| 0 <= j < k && carries_name(#[trigger] readings[j], target) {
        let j = choose|j: int| 0 <= j < k && carries_name(#[trigger] readings[j], target);
        earliest_match_exists(readings, target, j);
    } else {
        assert(is_first_match(readings, target, k));
    }
}

} // verus!

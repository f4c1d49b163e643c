//! The registry: an ordered list of mappings, and the operations that read
//! and change it.
//!
//! Mappings are numbered from 1 in the order in which they were added. The
//! registry is a plain `Vec<Mapping>`; whoever calls these functions loads it
//! beforehand and stores it afterwards.

use crate::address::IpAddress;
use crate::error::{InputField, MappingError};
use crate::mapping::{mapping_views, Mapping, MappingView};
use crate::text::{bounded_numeral, decimal_string, decimal_text, parse_unsigned};
use vstd::prelude::*;

verus! {

/// The greatest port number.
pub const MAX_PORT: u16 = 65535;

/// The registry that a stored document stands for. A document that could not
/// be decoded, whatever the reason, stands for the empty registry: a damaged
/// store never keeps the caller from working.
pub fn read_mappings(decoded: Option<Vec<Mapping>>) -> (mappings: Vec<Mapping>)
    ensures
        match decoded {
            Some(stored) => mappings@ == stored@,
            None => mappings@.len() == 0,
        },
{
    match decoded {
        Some(stored) => stored,
        None => Vec::new(),
    }
}

/// The text of an optional answer.
pub open spec fn answer_text(answer: Option<&str>) -> Option<Seq<char>> {
    match answer {
        Some(text) => Some(text@),
        None => None,
    }
}

/// Which mapping an operation is about, as far as it is known.
#[derive(Clone, Copy, Debug, PartialEq, Eq, Structural)]
pub enum IndexChoice {
    /// No index was given and the user has not been asked yet.
    Ask,
    /// The index to use. It is not yet known to be within bounds.
    Index(usize),
}

/// How the index of an operation is found. An index given with the command is
/// used as it is. Without one the user is asked, and the answer has to be a
/// numeral that fits `usize`.
pub open spec fn index_choice(index: Option<usize>, answer: Option<Seq<char>>) -> Result<
    IndexChoice,
    MappingError,
> {
    match index {
        Some(i) => Ok(IndexChoice::Index(i)),
        None => match answer {
            None => Ok(IndexChoice::Ask),
            Some(text) => match bounded_numeral(text, usize::MAX as nat) {
                Some(i) => Ok(IndexChoice::Index(i as usize)),
                None => Err(MappingError::InputParse(InputField::Index)),
            },
        },
    }
}

/// Whether `index` names one of `len` mappings.
pub open spec fn in_bounds(index: usize, len: nat) -> bool {
    1 <= index <= len
}

/// Reads an index from text.
pub fn parse_index(text: &str) -> (r: Result<usize, MappingError>)
    ensures
        match bounded_numeral(text@, usize::MAX as nat) {
            Some(i) => r == Ok::<usize, MappingError>(i as usize),
            None => r == Err::<usize, MappingError>(MappingError::InputParse(InputField::Index)),
        },
{
    match parse_unsigned(text, usize::MAX as u64) {
        Some(i) => Ok(i as usize),
        None => Err(MappingError::InputParse(InputField::Index)),
    }
}

/// The port that `text` names when a user enters it: a numeral from 1 to
/// 65535. A mapping can hold 0, but 0 names no port and is not accepted as
/// input.
pub open spec fn port_value(text: Seq<char>) -> Option<u16> {
    match bounded_numeral(text, MAX_PORT as nat) {
        Some(port) => if port >= 1 {
            Some(port as u16)
        } else {
            None
        },
        None => None,
    }
}

/// Reads a port number that a user entered.
pub fn parse_port(text: &str) -> (r: Option<u16>)
    ensures
        r == port_value(text@),
{
    match parse_unsigned(text, MAX_PORT as u64) {
        Some(port) => if port >= 1 {
            Some(port as u16)
        } else {
            None
        },
        None => None,
    }
}

/// Finds the index of an operation from the index given with the command and
/// the user's answer, if there is one.
pub fn resolve_index(index: Option<usize>, answer: Option<&str>) -> (r: Result<
    IndexChoice,
    MappingError,
>)
    ensures
        r == index_choice(index, answer_text(answer)),
{
    match index {
        Some(i) => Ok(IndexChoice::Index(i)),
        None => match answer {
            None => Ok(IndexChoice::Ask),
            Some(text) => match parse_index(text) {
                Ok(i) => Ok(IndexChoice::Index(i)),
                Err(e) => Err(e),
            },
        },
    }
}

/// The mapping that the four inputs of an addition describe, or the first of
/// them that cannot be read: the address, then the destination port, then the
/// external port. Any description is accepted.
pub open spec fn new_mapping(
    dest_ip: Option<IpAddress>,
    dest_port: Seq<char>,
    ext_port: Seq<char>,
    description: Seq<char>,
) -> Result<MappingView, MappingError> {
    match dest_ip {
        None => Err(MappingError::InputParse(InputField::DestinationAddress)),
        Some(ip) => match port_value(dest_port) {
            None => Err(MappingError::InputParse(InputField::DestinationPort)),
            Some(dest) => match port_value(ext_port) {
                None => Err(MappingError::InputParse(InputField::ExternalPort)),
                Some(ext) => Ok(
                    MappingView { dest_ip: ip, dest_port: dest, ext_port: ext, description },
                ),
            },
        },
    }
}

/// Adds a mapping at the end of the registry.
///
/// `dest_ip` is the destination address as the caller read it, `None` where
/// the text entered was no IP address. The two ports are given as the user
/// typed them. If any of the three cannot be read, nothing is added.
pub fn add_mapping(
    mappings: &mut Vec<Mapping>,
    dest_ip: Option<IpAddress>,
    dest_port: &str,
    ext_port: &str,
    description: String,
) -> (r: Result<(), MappingError>)
    ensures
        match new_mapping(dest_ip, dest_port@, ext_port@, description@) {
            Ok(m) => r is Ok && mapping_views(final(mappings)@) == mapping_views(
                old(mappings)@,
            ).push(m),
            Err(e) => r == Err::<(), MappingError>(e) && final(mappings)@ == old(mappings)@,
        },
{
    let ip = match dest_ip {
        Some(ip) => ip,
        None => {
            return Err(MappingError::InputParse(InputField::DestinationAddress));
        },
    };
    let dest = match parse_port(dest_port) {
        Some(port) => port,
        None => {
            return Err(MappingError::InputParse(InputField::DestinationPort));
        },
    };
    let ext = match parse_port(ext_port) {
        Some(port) => port,
        None => {
            return Err(MappingError::InputParse(InputField::ExternalPort));
        },
    };
    let mapping = Mapping::new(ip, dest, ext, description);
    mappings.push(mapping);
    assert(mapping_views(mappings@) =~= mapping_views(old(mappings)@).push(mapping@));
    Ok(())
}

/// What a call of [`remove_mapping`] came to.
#[derive(Clone, Copy, Debug, PartialEq, Eq, Structural)]
pub enum RemoveStep {
    /// The registry is empty: there is nothing to remove.
    Nothing,
    /// No index is known yet: show the listing, ask the user for a number and
    /// call again with the answer.
    Ask,
    /// The mapping was removed. The registry is to be stored.
    Removed,
}

/// What removing from a registry of `len` mappings comes to.
pub open spec fn remove_step(len: nat, index: Option<usize>, answer: Option<Seq<char>>) -> Result<
    RemoveStep,
    MappingError,
> {
    if len == 0 {
        Ok(RemoveStep::Nothing)
    } else {
        match index_choice(index, answer) {
            Err(e) => Err(e),
            Ok(IndexChoice::Ask) => Ok(RemoveStep::Ask),
            Ok(IndexChoice::Index(i)) => if in_bounds(i, len) {
                Ok(RemoveStep::Removed)
            } else {
                Err(MappingError::OutOfBounds)
            },
        }
    }
}

/// The registry after a removal that came to `step`: without the mapping of
/// the chosen index where one was removed, as it was before in every other
/// case. The mappings behind the removed one move up by one place.
pub open spec fn after_remove(
    records: Seq<MappingView>,
    index: Option<usize>,
    answer: Option<Seq<char>>,
) -> Seq<MappingView> {
    match remove_step(records.len(), index, answer) {
        Ok(RemoveStep::Removed) => records.remove(index_choice(index, answer)->Ok_0->Index_0 - 1),
        _ => records,
    }
}

/// Removes the mapping with the given index from the registry.
///
/// `index` is the index given with the command, if any. `answer` is what the
/// user typed when asked for one; pass `None` on the first call.
pub fn remove_mapping(mappings: &mut Vec<Mapping>, index: Option<usize>, answer: Option<&str>) -> (r:
    Result<RemoveStep, MappingError>)
    ensures
        r == remove_step(old(mappings)@.len(), index, answer_text(answer)),
        mapping_views(final(mappings)@) == after_remove(
            mapping_views(old(mappings)@),
            index,
            answer_text(answer),
        ),
        !(r == Ok::<RemoveStep, MappingError>(RemoveStep::Removed)) ==> final(mappings)@ == old(
            mappings,
        )@,
{
    if mappings.len() == 0 {
        return Ok(RemoveStep::Nothing);
    }
    match resolve_index(index, answer) {
        Err(e) => Err(e),
        Ok(IndexChoice::Ask) => Ok(RemoveStep::Ask),
        Ok(IndexChoice::Index(i)) => {
            if 1 <= i && i <= mappings.len() {
                mappings.remove(i - 1);
                assert(mapping_views(mappings@) =~= mapping_views(old(mappings)@).remove(i - 1));
                Ok(RemoveStep::Removed)
            } else {
                Err(MappingError::OutOfBounds)
            }
        },
    }
}

/// One line of a listing: the number of the mapping, where its traffic goes,
/// and the gateway address and port it comes in by, then the description.
pub open spec fn listing_line(number: nat, m: MappingView, gateway: IpAddress) -> Seq<char> {
    decimal_text(number) + seq![':', ' '] + m.dest_ip.text() + seq![':'] + decimal_text(
        m.dest_port as nat,
    ) + seq![' ', '-', '>', ' '] + gateway.text() + seq![':'] + decimal_text(m.ext_port as nat)
        + seq![' ', ' '] + m.description
}

/// The listing of a registry: one line for each mapping, in order, numbered
/// from 1.
pub open spec fn listing(records: Seq<MappingView>, gateway: IpAddress) -> Seq<Seq<char>> {
    Seq::new(records.len(), |i: int| listing_line((i + 1) as nat, records[i], gateway))
}

/// Writes one line of a listing.
fn line_string(number: usize, mapping: &Mapping, gateway: &IpAddress) -> (line: String)
    ensures
        line@ == listing_line(number as nat, mapping@, *gateway),
{
    proof {
        reveal_strlit(": ");
        reveal_strlit(":");
        reveal_strlit(" -> ");
        reveal_strlit("  ");
    }
    let mut line = decimal_string(number as u64);
    line.append(": ");
    line.append(mapping.dest_ip.to_text().as_str());
    line.append(":");
    line.append(decimal_string(mapping.dest_port as u64).as_str());
    line.append(" -> ");
    line.append(gateway.to_text().as_str());
    line.append(":");
    line.append(decimal_string(mapping.ext_port as u64).as_str());
    line.append("  ");
    line.append(mapping.description.as_str());
    assert(": "@ =~= seq![':', ' ']);
    assert(":"@ =~= seq![':']);
    assert(" -> "@ =~= seq![' ', '-', '>', ' ']);
    assert("  "@ =~= seq![' ', ' ']);
    line
}

/// The lines that show the registry to the user, for a gateway with the given
/// external address. An empty registry gives no line.
pub fn list_mappings(mappings: &Vec<Mapping>, gateway: &IpAddress) -> (lines: Vec<String>)
    ensures
        lines.deep_view() == listing(mapping_views(mappings@), *gateway),
{
    let mut lines: Vec<String> = Vec::new();
    let mut i: usize = 0;
    while i < mappings.len()
        invariant
            i <= mappings.len(),
            lines@.len() == i,
            forall|j: int|
                0 <= j < i ==> (#[trigger] lines@[j])@ == listing_line(
                    (j + 1) as nat,
                    mappings@[j]@,
                    *gateway,
                ),
        decreases mappings.len() - i,
    {
        let line = line_string(i + 1, &mappings[i], gateway);
        lines.push(line);
        i = i + 1;
    }
    assert(lines.deep_view() =~= listing(mapping_views(mappings@), *gateway));
    lines
}

} // verus!

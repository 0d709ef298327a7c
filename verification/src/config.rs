//! The configuration that is written for the consumer of the addresses.
//!
//! It is a text of lines: a marker line with the version number, then eight
//! entries of a key, a type and a value each, one on a line.

use crate::slots::Slot;
use crate::text::{decimal, decimal_text, hex, hex_text};
use vstd::prelude::*;
use vstd::string::*;

verus! {

/// The addresses of all six functions.
#[derive(Clone, Copy, Debug, PartialEq, Eq, Structural)]
pub struct Addresses {
    pub update: u64,
    pub create: u64,
    pub shutdown: u64,
    pub notify: u64,
    pub wait: u64,
    pub get_instance: u64,
}

impl Addresses {
    /// The address of `slot`.
    pub open spec fn of(self, slot: Slot) -> u64 {
        match slot {
            Slot::Update => self.update,
            Slot::Create => self.create,
            Slot::Shutdown => self.shutdown,
            Slot::Notify => self.notify,
            Slot::Wait => self.wait,
            Slot::GetInstance => self.get_instance,
        }
    }

    /// The address of `slot`.
    pub fn get(&self, slot: Slot) -> (addr: u64)
        ensures
            addr == self.of(slot),
    {
        match slot {
            Slot::Update => self.update,
            Slot::Create => self.create,
            Slot::Shutdown => self.shutdown,
            Slot::Notify => self.notify,
            Slot::Wait => self.wait,
            Slot::GetInstance => self.get_instance,
        }
    }
}

/// The line of an address: the slot's name, the type `addr` and the address
/// in hexadecimal.
pub open spec fn address_line(slot: Slot, addr: u64) -> Seq<char> {
    slot.name_text() + " addr "@ + hex_text(addr)
}

/// The marker line: an exclamation mark and the version number in decimal.
pub open spec fn marker_line(version_number: u64) -> Seq<char> {
    "!"@ + decimal_text(version_number)
}

/// The eight entries of the configuration, in their order: the version
/// string, the update routine and the type of its argument, then the other
/// five routines.
pub open spec fn config_entries(version_string: Seq<char>, addresses: Addresses) -> Seq<Seq<char>> {
    seq![
        "version str "@ + version_string,
        address_line(Slot::Update, addresses.update),
        "updateType str QRect"@,
        address_line(Slot::Create, addresses.create),
        address_line(Slot::Shutdown, addresses.shutdown),
        address_line(Slot::Notify, addresses.notify),
        address_line(Slot::Wait, addresses.wait),
        address_line(Slot::GetInstance, addresses.get_instance),
    ]
}

/// The lines of the configuration: the marker line, then the eight entries.
pub open spec fn config_lines(
    version_number: u64,
    version_string: Seq<char>,
    addresses: Addresses,
) -> Seq<Seq<char>> {
    seq![marker_line(version_number)] + config_entries(version_string, addresses)
}

/// The text of some lines: each line with a line feed behind it.
pub open spec fn joined(lines: Seq<Seq<char>>) -> Seq<char>
    decreases lines.len(),
{
    if lines.len() == 0 {
        Seq::empty()
    } else {
        joined(lines.drop_last()) + lines.last() + seq!['\n']
    }
}

/// The text of the configuration.
pub open spec fn config_text(
    version_number: u64,
    version_string: Seq<char>,
    addresses: Addresses,
) -> Seq<char> {
    joined(config_lines(version_number, version_string, addresses))
}

fn render_address(slot: Slot, addr: u64) -> (line: String)
    ensures
        line@ == address_line(slot, addr),
{
    let mut line = String::from_str(slot.name());
    line.append(" addr ");
    line.append(hex(addr).as_str());
    line
}

/// The lines of the configuration.
pub fn render_lines(version_number: u64, version_string: &str, addresses: &Addresses) -> (lines:
    Vec<String>)
    ensures
        lines.deep_view() == config_lines(version_number, version_string@, *addresses),
{
    let mut lines: Vec<String> = Vec::new();
    let mut marker = String::from_str("!");
    marker.append(decimal(version_number).as_str());
    lines.push(marker);
    let mut version = String::from_str("version str ");
    version.append(version_string);
    lines.push(version);
    lines.push(render_address(Slot::Update, addresses.update));
    lines.push(String::from_str("updateType str QRect"));
    lines.push(render_address(Slot::Create, addresses.create));
    lines.push(render_address(Slot::Shutdown, addresses.shutdown));
    lines.push(render_address(Slot::Notify, addresses.notify));
    lines.push(render_address(Slot::Wait, addresses.wait));
    lines.push(render_address(Slot::GetInstance, addresses.get_instance));
    assert(lines.deep_view() =~= config_lines(version_number, version_string@, *addresses));
    lines
}

/// The text of `lines`: each line with a line feed behind it.
pub fn join_lines(lines: &Vec<String>) -> (text: String)
    ensures
        text@ == joined(lines.deep_view()),
{
    proof {
        reveal_strlit("\n");
    }
    let mut text = String::new();
    let mut i: usize = 0;
    while i < lines.len()
        invariant
            i <= lines.len(),
            "\n"@ == seq!['\n'],
            text@ == joined(lines.deep_view().take(i as int)),
        decreases lines.len() - i,
    {
        proof {
            let all = lines.deep_view();
            assert(all.take(i + 1).drop_last() =~= all.take(i as int));
            assert(all.take(i + 1).last() == lines[i as int]@);
        }
        text.append(lines[i].as_str());
        text.append("\n");
        i = i + 1;
    }
    assert(lines.deep_view().take(lines.len() as int) =~= lines.deep_view());
    text
}

/// The text of the configuration for a version and the six addresses.
pub fn render_config(version_number: u64, version_string: &str, addresses: &Addresses) -> (text:
    String)
    ensures
        text@ == config_text(version_number, version_string@, *addresses),
{
    let lines = render_lines(version_number, version_string, addresses);
    join_lines(&lines)
}

} // verus!

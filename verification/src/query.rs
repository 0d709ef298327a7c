//! The three questions that the backend is asked, and the commands that
//! put them.

use crate::text::{decimal, decimal_text};
use vstd::prelude::*;
use vstd::string::*;

verus! {

/// A question to the backend.
#[derive(Debug)]
pub enum Query {
    /// Which sites refer to `target`: a label, a function name or an address
    /// in decimal.
    References { target: String },
    /// The decompiled form of the function at `address`.
    Decompile { address: u64 },
    /// The import table of the binary.
    Imports,
}

/// The view of a [`Query`].
pub enum QueryView {
    References { target: Seq<char> },
    Decompile { address: u64 },
    Imports,
}

impl View for Query {
    type V = QueryView;

    open spec fn view(&self) -> QueryView {
        match self {
            Query::References { target } => QueryView::References { target: target@ },
            Query::Decompile { address } => QueryView::Decompile { address: *address },
            Query::Imports => QueryView::Imports,
        }
    }
}

/// The commands that are sent ahead of a query, and whose output is of no
/// use: a decompilation first moves the backend's cursor to the function.
pub open spec fn prelude_lines(query: QueryView) -> Seq<Seq<char>> {
    match query {
        QueryView::Decompile { address } => seq!["s "@ + decimal_text(address)],
        _ => Seq::empty(),
    }
}

/// The command that puts a query: the backend answers it with the record
/// asked for.
pub open spec fn command_line(query: QueryView) -> Seq<char> {
    match query {
        QueryView::References { target } => "axtj "@ + target,
        QueryView::Decompile { .. } => "pdgj"@,
        QueryView::Imports => "iij"@,
    }
}

/// The commands that start the backend's analysis of the whole binary and
/// its analysis by emulation, in this order.
pub open spec fn analysis_lines() -> Seq<Seq<char>> {
    seq!["aaaa"@, "aae"@]
}

impl Query {
    /// The commands to send ahead of the query, in their order.
    pub fn prelude(&self) -> (lines: Vec<String>)
        ensures
            lines.deep_view() == prelude_lines(self@),
    {
        let mut lines: Vec<String> = Vec::new();
        match self {
            Query::Decompile { address } => {
                let mut line = String::from_str("s ");
                line.append(decimal(*address).as_str());
                lines.push(line);
            },
            _ => {},
        }
        assert(lines.deep_view() =~= prelude_lines(self@));
        lines
    }

    /// The command that puts the query.
    pub fn command(&self) -> (line: String)
        ensures
            line@ == command_line(self@),
    {
        match self {
            Query::References { target } => {
                let mut line = String::from_str("axtj ");
                line.append(target.as_str());
                line
            },
            Query::Decompile { .. } => String::from_str("pdgj"),
            Query::Imports => String::from_str("iij"),
        }
    }
}

/// The commands that start the backend's analysis.
pub fn analysis_commands() -> (lines: Vec<String>)
    ensures
        lines.deep_view() == analysis_lines(),
{
    let mut lines: Vec<String> = Vec::new();
    lines.push(String::from_str("aaaa"));
    lines.push(String::from_str("aae"));
    assert(lines.deep_view() =~= analysis_lines());
    lines
}

} // verus!

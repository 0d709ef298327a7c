//! The steps of a resolution: what is asked next, and what a resolution
//! ends with.

use crate::error::ResolveError;
use crate::query::{Query, QueryView};
use crate::slots::{Anchor, Slot};
use crate::text::{decimal, decimal_text};
use vstd::prelude::*;
use vstd::string::*;

verus! {

/// The point that a heuristic has reached: the query whose answer it waits
/// for.
#[derive(Debug)]
pub enum Stage {
    /// The references to an anchor string.
    AnchorReferences { anchor: Anchor },
    /// The decompiled update routine, at the address `update`.
    Decompilation { update: u64 },
    /// The import table.
    ImportTable,
    /// The references to the call stub of the sleep primitive.
    SleepCallers { stub: u64 },
    /// The references to the wait routine, at the address `wait`.
    WaitCallers { wait: u64 },
    /// The references to one caller of the wait routine, by its name; `rest`
    /// holds the names of the callers that come after it.
    CallerProbe { current: String, rest: Vec<String> },
}

/// The view of a [`Stage`].
pub enum StageView {
    AnchorReferences { anchor: Anchor },
    Decompilation { update: u64 },
    ImportTable,
    SleepCallers { stub: u64 },
    WaitCallers { wait: u64 },
    CallerProbe { current: Seq<char>, rest: Seq<Seq<char>> },
}

impl View for Stage {
    type V = StageView;

    open spec fn view(&self) -> StageView {
        match self {
            Stage::AnchorReferences { anchor } => StageView::AnchorReferences { anchor: *anchor },
            Stage::Decompilation { update } => StageView::Decompilation { update: *update },
            Stage::ImportTable => StageView::ImportTable,
            Stage::SleepCallers { stub } => StageView::SleepCallers { stub: *stub },
            Stage::WaitCallers { wait } => StageView::WaitCallers { wait: *wait },
            Stage::CallerProbe { current, rest } => StageView::CallerProbe {
                current: current@,
                rest: rest.deep_view(),
            },
        }
    }
}

impl StageView {
    /// The slot whose heuristic the stage belongs to.
    pub open spec fn slot(self) -> Slot {
        match self {
            StageView::AnchorReferences { anchor } => anchor.slot_of(),
            StageView::Decompilation { .. } => Slot::Notify,
            StageView::ImportTable => Slot::Wait,
            StageView::SleepCallers { .. } => Slot::Wait,
            StageView::WaitCallers { .. } => Slot::GetInstance,
            StageView::CallerProbe { .. } => Slot::GetInstance,
        }
    }

    /// The query whose answer the stage waits for.
    pub open spec fn query(self) -> QueryView {
        match self {
            StageView::AnchorReferences { anchor } => QueryView::References {
                target: anchor.label_text(),
            },
            StageView::Decompilation { update } => QueryView::Decompile { address: update },
            StageView::ImportTable => QueryView::Imports,
            StageView::SleepCallers { stub } => QueryView::References {
                target: decimal_text(stub),
            },
            StageView::WaitCallers { wait } => QueryView::References {
                target: decimal_text(wait),
            },
            StageView::CallerProbe { current, .. } => QueryView::References { target: current },
        }
    }
}

impl Stage {
    /// The slot whose heuristic the stage belongs to.
    pub fn slot(&self) -> (slot: Slot)
        ensures
            slot == self@.slot(),
    {
        match self {
            Stage::AnchorReferences { anchor } => anchor.slot(),
            Stage::Decompilation { .. } => Slot::Notify,
            Stage::ImportTable => Slot::Wait,
            Stage::SleepCallers { .. } => Slot::Wait,
            Stage::WaitCallers { .. } => Slot::GetInstance,
            Stage::CallerProbe { .. } => Slot::GetInstance,
        }
    }

    /// The query whose answer the stage waits for.
    pub fn query(&self) -> (query: Query)
        ensures
            query@ == self@.query(),
    {
        match self {
            Stage::AnchorReferences { anchor } => Query::References {
                target: String::from_str(anchor.label()),
            },
            Stage::Decompilation { update } => Query::Decompile { address: *update },
            Stage::ImportTable => Query::Imports,
            Stage::SleepCallers { stub } => Query::References { target: decimal(*stub) },
            Stage::WaitCallers { wait } => Query::References { target: decimal(*wait) },
            Stage::CallerProbe { current, .. } => Query::References { target: current.clone() },
        }
    }
}

/// A resolution that waits for an answer: the slot that was asked for, and
/// the stage that was reached on the way to it.
#[derive(Debug)]
pub struct Pending {
    pub goal: Slot,
    pub stage: Stage,
}

/// The view of a [`Pending`].
pub struct PendingView {
    pub goal: Slot,
    pub stage: StageView,
}

impl View for Pending {
    type V = PendingView;

    open spec fn view(&self) -> PendingView {
        PendingView { goal: self.goal, stage: self.stage@ }
    }
}

impl Pending {
    /// The query that the resolution waits for.
    pub fn query(&self) -> (query: Query)
        ensures
            query@ == self@.stage.query(),
    {
        self.stage.query()
    }
}

/// Where a resolution stands after a call.
#[derive(Debug)]
pub enum Step {
    /// The slot is resolved to this address.
    Resolved(u64),
    /// The backend has to be asked; the answer goes to `Radare::resume`
    /// together with this value.
    Ask(Pending),
    /// The resolution has failed.
    Failed(ResolveError),
}

/// The view of a [`Step`].
pub enum StepView {
    Resolved(u64),
    Ask(PendingView),
    Failed(ResolveError),
}

impl View for Step {
    type V = StepView;

    open spec fn view(&self) -> StepView {
        match self {
            Step::Resolved(addr) => StepView::Resolved(*addr),
            Step::Ask(pending) => StepView::Ask(pending@),
            Step::Failed(error) => StepView::Failed(*error),
        }
    }
}

} // verus!

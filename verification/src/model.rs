//! The resolution engine as a function of the cache and the backend's
//! answer.
//!
//! `plan` says what a request for a slot leads to, `digest` what an answer
//! means to the stage that waited for it, and `resume` puts the two
//! together. The executable engine in the module `radare` computes exactly
//! these functions.

use crate::error::{ErrorKind, ResolveError};
use crate::heuristics::{
    first_function_of, holder_names_of, notify_candidate_of, sleep_stub_of, wait_candidate_of,
};
use crate::records::ReplyView;
use crate::slots::{lookup, stored, Anchor, Slot};
use crate::step::{PendingView, StageView, StepView};
use vstd::prelude::*;

verus! {

/// The stage at which the heuristic of `slot` starts, given what `cache`
/// holds: a slot that depends on another one starts with the other one's
/// heuristic until that one is resolved.
pub open spec fn opening(cache: Map<Slot, u64>, slot: Slot) -> StageView {
    match slot {
        Slot::Update => StageView::AnchorReferences { anchor: Anchor::Update },
        Slot::Create => StageView::AnchorReferences { anchor: Anchor::Create },
        Slot::Shutdown => StageView::AnchorReferences { anchor: Anchor::Shutdown },
        Slot::Notify => match lookup(cache, Slot::Update) {
            Some(update) => StageView::Decompilation { update },
            None => StageView::AnchorReferences { anchor: Anchor::Update },
        },
        Slot::Wait => StageView::ImportTable,
        Slot::GetInstance => match lookup(cache, Slot::Wait) {
            Some(wait) => StageView::WaitCallers { wait },
            None => StageView::ImportTable,
        },
    }
}

/// What a request for `goal` leads to: its address where the cache holds
/// one, else the first query on the way to it.
pub open spec fn plan(cache: Map<Slot, u64>, goal: Slot) -> StepView {
    match lookup(cache, goal) {
        Some(addr) => StepView::Resolved(addr),
        None => StepView::Ask(PendingView { goal, stage: opening(cache, goal) }),
    }
}

/// What an answer means to the stage that waited for it.
pub enum Outcome {
    /// The heuristic of `slot` has found `addr`.
    Learned { slot: Slot, addr: u64 },
    /// The heuristic goes on with another query.
    Next { stage: StageView },
    /// The heuristic has failed.
    Failed { error: ResolveError },
}

/// The failure of the heuristic of `slot` in `kind`.
pub open spec fn failure(slot: Slot, kind: ErrorKind) -> Outcome {
    Outcome::Failed { error: ResolveError { slot, kind } }
}

/// The kind of failure that a reply stands for when it is not the record
/// that the stage asked for.
pub open spec fn refusal(reply: ReplyView) -> ErrorKind {
    match reply {
        ReplyView::Unreachable => ErrorKind::BackendQueryError,
        _ => ErrorKind::DeserializationError,
    }
}

/// What `reply` means to `stage`.
pub open spec fn digest(stage: StageView, reply: ReplyView) -> Outcome {
    let slot = stage.slot();
    match (stage, reply) {
        (StageView::AnchorReferences { .. }, ReplyView::References(refs)) => match first_function_of(
            refs,
        ) {
            Some(addr) => Outcome::Learned { slot, addr },
            None => failure(slot, ErrorKind::NoReferencesFound),
        },
        (StageView::Decompilation { .. }, ReplyView::Decompilation(decompiled)) => match notify_candidate_of(
            decompiled.annotations,
        ) {
            Some(addr) => Outcome::Learned { slot, addr },
            None => failure(slot, ErrorKind::NoCandidateWithExpectedCount),
        },
        (StageView::ImportTable, ReplyView::Imports(imports)) => match sleep_stub_of(imports) {
            Some(stub) => Outcome::Next { stage: StageView::SleepCallers { stub } },
            None => failure(slot, ErrorKind::ImportNotFound),
        },
        (StageView::SleepCallers { .. }, ReplyView::References(refs)) => match wait_candidate_of(
            refs,
        ) {
            Some(addr) => Outcome::Learned { slot, addr },
            None => failure(slot, ErrorKind::NoCandidateFunctionsFound),
        },
        (StageView::WaitCallers { .. }, ReplyView::References(refs)) => probe(
            holder_names_of(refs),
        ),
        (StageView::CallerProbe { rest, .. }, ReplyView::References(refs)) => match first_function_of(
            refs,
        ) {
            Some(addr) => Outcome::Learned { slot, addr },
            None => probe(rest),
        },
        (_, other) => failure(slot, refusal(other)),
    }
}

/// The probe of the first of `callers`, the names of the callers of the
/// wait routine that are still to be asked about; a failure where none is
/// left.
pub open spec fn probe(callers: Seq<Seq<char>>) -> Outcome {
    if callers.len() == 0 {
        failure(Slot::GetInstance, ErrorKind::NoCallerChainFound)
    } else {
        Outcome::Next {
            stage: StageView::CallerProbe { current: callers.first(), rest: callers.drop_first() },
        }
    }
}

/// The cache and the step that follow from an outcome on the way to `goal`:
/// an address that was found enters the cache, unless its slot is resolved
/// already, and the resolution goes on towards the goal.
pub open spec fn conclude(cache: Map<Slot, u64>, goal: Slot, outcome: Outcome) -> (
    Map<Slot, u64>,
    StepView,
) {
    match outcome {
        Outcome::Learned { slot, addr } => {
            let learned = stored(cache, slot, addr);
            (learned, plan(learned, goal))
        },
        Outcome::Next { stage } => (cache, StepView::Ask(PendingView { goal, stage })),
        Outcome::Failed { error } => (cache, StepView::Failed(error)),
    }
}

/// The cache and the step after `reply` has answered the query of
/// `pending`.
pub open spec fn resume(cache: Map<Slot, u64>, pending: PendingView, reply: ReplyView) -> (
    Map<Slot, u64>,
    StepView,
) {
    conclude(cache, pending.goal, digest(pending.stage, reply))
}

} // verus!

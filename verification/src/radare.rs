//! The resolution engine.
//!
//! A [`Radare`] holds the addresses found so far. A request for a slot
//! returns a [`Step`]: the address, a failure, or a query for the backend.
//! The caller performs the query and hands the reply to
//! [`Radare::resume`], which returns the next step, until the resolution
//! ends.

use crate::config::Addresses;
use crate::error::{ErrorKind, ResolveError};
use crate::heuristics::{first_function, holder_names, notify_candidate, sleep_stub, wait_candidate};
use crate::model;
use crate::query::{analysis_commands, analysis_lines};
use crate::records::Reply;
use crate::slots::{first_missing, lookup, AddressCache, Anchor, Slot};
use crate::step::{Pending, Stage, Step, StepView};
use vstd::prelude::*;

verus! {

/// A session of resolutions on one binary.
pub struct Radare {
    cache: AddressCache,
}

impl View for Radare {
    type V = Map<Slot, u64>;

    /// The slots that are resolved, each with its address.
    closed spec fn view(&self) -> Map<Slot, u64> {
        self.cache@
    }
}

fn failed(slot: Slot, kind: ErrorKind) -> (step: Step)
    ensures
        step@ == StepView::Failed(ResolveError { slot, kind }),
{
    Step::Failed(ResolveError { slot, kind })
}

fn refused(slot: Slot, reply: &Reply) -> (step: Step)
    ensures
        step@ == StepView::Failed(ResolveError { slot, kind: model::refusal(reply@) }),
{
    match reply {
        Reply::Unreachable => failed(slot, ErrorKind::BackendQueryError),
        _ => failed(slot, ErrorKind::DeserializationError),
    }
}

fn probe(goal: Slot, callers: Vec<String>) -> (step: Step)
    ensures
        step@ == model::conclude(Map::empty(), goal, model::probe(callers.deep_view())).1,
{
    let mut rest = callers;
    if rest.len() == 0 {
        failed(Slot::GetInstance, ErrorKind::NoCallerChainFound)
    } else {
        let current = rest.remove(0);
        assert(rest.deep_view() =~= callers.deep_view().drop_first());
        Step::Ask(Pending { goal, stage: Stage::CallerProbe { current, rest } })
    }
}

impl Radare {
    /// A session in which no slot is resolved.
    pub fn new() -> (radare: Self)
        ensures
            radare@ == Map::<Slot, u64>::empty(),
    {
        Radare { cache: AddressCache::new() }
    }

    /// The commands that make the backend analyse the binary. They are sent
    /// once, in this order, before the first resolution.
    pub fn analyze(&self) -> (lines: Vec<String>)
        ensures
            lines.deep_view() == analysis_lines(),
    {
        analysis_commands()
    }

    /// The address of `slot`, if it is resolved.
    pub fn address(&self, slot: Slot) -> (addr: Option<u64>)
        ensures
            addr == lookup(self@, slot),
    {
        self.cache.get(slot)
    }

    /// The first slot, in the order update, create, shutdown, notify, wait,
    /// getInstance, that is not resolved.
    pub fn next_unresolved(&self) -> (slot: Option<Slot>)
        ensures
            slot == first_missing(self@),
    {
        self.cache.first_unresolved()
    }

    /// The six addresses, once every slot is resolved.
    pub fn addresses(&self) -> (all: Option<Addresses>)
        ensures
            all is None <==> first_missing(self@) is Some,
            all matches Some(found) ==> forall|slot: Slot|
                lookup(self@, slot) == Some(found.of(slot)),
    {
        match (
            self.cache.get(Slot::Update),
            self.cache.get(Slot::Create),
            self.cache.get(Slot::Shutdown),
            self.cache.get(Slot::Notify),
            self.cache.get(Slot::Wait),
            self.cache.get(Slot::GetInstance),
        ) {
            (
                Some(update),
                Some(create),
                Some(shutdown),
                Some(notify),
                Some(wait),
                Some(get_instance),
            ) => Some(Addresses { update, create, shutdown, notify, wait, get_instance }),
            _ => None,
        }
    }

    /// Asks for the address of `goal`. A resolved slot is answered from the
    /// cache, without a query.
    pub fn resolve(&self, goal: Slot) -> (step: Step)
        ensures
            step@ == model::plan(self@, goal),
    {
        match self.cache.get(goal) {
            Some(addr) => Step::Resolved(addr),
            None => {
                let stage = match goal {
                    Slot::Update => Stage::AnchorReferences { anchor: Anchor::Update },
                    Slot::Create => Stage::AnchorReferences { anchor: Anchor::Create },
                    Slot::Shutdown => Stage::AnchorReferences { anchor: Anchor::Shutdown },
                    Slot::Notify => match self.cache.get(Slot::Update) {
                        Some(update) => Stage::Decompilation { update },
                        None => Stage::AnchorReferences { anchor: Anchor::Update },
                    },
                    Slot::Wait => Stage::ImportTable,
                    Slot::GetInstance => match self.cache.get(Slot::Wait) {
                        Some(wait) => Stage::WaitCallers { wait },
                        None => Stage::ImportTable,
                    },
                };
                Step::Ask(Pending { goal, stage })
            },
        }
    }

    /// Asks for the address of the update routine.
    pub fn get_update_address(&self) -> (step: Step)
        ensures
            step@ == model::plan(self@, Slot::Update),
    {
        self.resolve(Slot::Update)
    }

    /// Asks for the address of the create routine.
    pub fn get_create_address(&self) -> (step: Step)
        ensures
            step@ == model::plan(self@, Slot::Create),
    {
        self.resolve(Slot::Create)
    }

    /// Asks for the address of the shutdown routine.
    pub fn get_shutdown_address(&self) -> (step: Step)
        ensures
            step@ == model::plan(self@, Slot::Shutdown),
    {
        self.resolve(Slot::Shutdown)
    }

    /// Asks for the address of the notify routine. The update routine is
    /// resolved on the way, where it is not yet.
    pub fn get_notify_address(&self) -> (step: Step)
        ensures
            step@ == model::plan(self@, Slot::Notify),
    {
        self.resolve(Slot::Notify)
    }

    /// Asks for the address of the wait routine.
    pub fn get_wait_address(&self) -> (step: Step)
        ensures
            step@ == model::plan(self@, Slot::Wait),
    {
        self.resolve(Slot::Wait)
    }

    /// Asks for the address of the singleton accessor. The wait routine is
    /// resolved on the way, where it is not yet.
    pub fn get_instance_address(&self) -> (step: Step)
        ensures
            step@ == model::plan(self@, Slot::GetInstance),
    {
        self.resolve(Slot::GetInstance)
    }

    fn learned(&mut self, goal: Slot, slot: Slot, addr: u64) -> (step: Step)
        ensures
            (final(self)@, step@) == model::conclude(
                old(self)@,
                goal,
                model::Outcome::Learned { slot, addr },
            ),
    {
        self.cache.store(slot, addr);
        self.resolve(goal)
    }

    /// Takes the backend's reply to the query of `pending` and returns the
    /// step that follows.
    pub fn resume(&mut self, pending: Pending, reply: Reply) -> (step: Step)
        ensures
            (final(self)@, step@) == model::resume(old(self)@, pending@, reply@),
    {
        let Pending { goal, stage } = pending;
        let slot = stage.slot();
        match (stage, reply) {
            (Stage::AnchorReferences { .. }, Reply::References(refs)) => match first_function(
                &refs,
            ) {
                Some(addr) => self.learned(goal, slot, addr),
                None => failed(slot, ErrorKind::NoReferencesFound),
            },
            (Stage::Decompilation { .. }, Reply::Decompilation(decompiled)) => match notify_candidate(
                &decompiled,
            ) {
                Some(addr) => self.learned(goal, slot, addr),
                None => failed(slot, ErrorKind::NoCandidateWithExpectedCount),
            },
            (Stage::ImportTable, Reply::Imports(imports)) => match sleep_stub(&imports) {
                Some(stub) => Step::Ask(Pending { goal, stage: Stage::SleepCallers { stub } }),
                None => failed(slot, ErrorKind::ImportNotFound),
            },
            (Stage::SleepCallers { .. }, Reply::References(refs)) => match wait_candidate(&refs) {
                Some(addr) => self.learned(goal, slot, addr),
                None => failed(slot, ErrorKind::NoCandidateFunctionsFound),
            },
            (Stage::WaitCallers { .. }, Reply::References(refs)) => probe(
                goal,
                holder_names(&refs),
            ),
            (Stage::CallerProbe { rest, .. }, Reply::References(refs)) => match first_function(
                &refs,
            ) {
                Some(addr) => self.learned(goal, slot, addr),
                None => probe(goal, rest),
            },
            (_, other) => refused(slot, &other),
        }
    }
}

} // verus!

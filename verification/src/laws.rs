//! What holds of every session, proved of the functions in the module
//! `model`.

use crate::error::{ErrorKind, ResolveError};
use crate::heuristics::{
    callee_sites_of, holder_names_of, holders_of, notify_candidate_of, sleep_name, sleep_stub_of,
    wait_candidate_of, NOTIFY_MENTIONS,
};
use crate::model::{digest, plan, resume, Outcome};
use crate::records::{AnnotationView, DecompileView, ImportView, ReferenceView, ReplyView};
use crate::slots::{Anchor, Slot};
use crate::step::{PendingView, StageView, StepView};
use crate::tally::{
    is_lowest_with_count, is_most_frequent, lemma_lowest_with_count_none,
    lemma_most_frequent_none, lemma_occurs_iff_counted, occurrences,
};
use vstd::prelude::*;

verus! {

/// A request for a slot that is resolved is answered with the address in
/// the cache: no query is made for it.
pub proof fn law_resolved_slot_needs_no_query(cache: Map<Slot, u64>, slot: Slot)
    requires
        cache.contains_key(slot),
    ensures
        plan(cache, slot) == StepView::Resolved(cache[slot]),
{
}

/// A request for a slot that is not resolved is answered with a query.
pub proof fn law_unresolved_slot_is_asked_for(cache: Map<Slot, u64>, slot: Slot)
    requires
        !cache.contains_key(slot),
    ensures
        plan(cache, slot) is Ask,
{
}

/// No step removes or replaces an address that the cache holds.
pub proof fn law_addresses_are_kept(
    cache: Map<Slot, u64>,
    pending: PendingView,
    reply: ReplyView,
    slot: Slot,
)
    requires
        cache.contains_key(slot),
    ensures
        resume(cache, pending, reply).0.contains_key(slot),
        resume(cache, pending, reply).0[slot] == cache[slot],
{
}

/// A resolution that has ended with an address has put it into the cache:
/// every later request for the slot is answered with the same address, and
/// without a query.
pub proof fn law_resolution_is_remembered(
    cache: Map<Slot, u64>,
    pending: PendingView,
    reply: ReplyView,
)
    requires
        resume(cache, pending, reply).1 is Resolved,
    ensures
        plan(resume(cache, pending, reply).0, pending.goal) == resume(cache, pending, reply).1,
{
}

/// A step that fails leaves the cache as it was, so that a later request
/// for the slot starts the resolution anew.
pub proof fn law_failure_changes_nothing(
    cache: Map<Slot, u64>,
    pending: PendingView,
    reply: ReplyView,
)
    requires
        resume(cache, pending, reply).1 is Failed,
    ensures
        resume(cache, pending, reply).0 == cache,
{
}

/// The references to an anchor string resolve its slot to the function that
/// holds the first of them; the resolution fails exactly where there is no
/// reference.
pub proof fn law_anchor_is_in_the_first_function(
    cache: Map<Slot, u64>,
    anchor: Anchor,
    refs: Seq<ReferenceView>,
)
    requires
        !cache.contains_key(anchor.slot_of()),
    ensures
        plan(cache, anchor.slot_of()) == StepView::Ask(
            PendingView { goal: anchor.slot_of(), stage: StageView::AnchorReferences { anchor } },
        ),
        resume(
            cache,
            PendingView { goal: anchor.slot_of(), stage: StageView::AnchorReferences { anchor } },
            ReplyView::References(refs),
        ) == (if refs.len() > 0 {
            (cache.insert(anchor.slot_of(), refs[0].fcn_addr), StepView::Resolved(refs[0].fcn_addr))
        } else {
            (
                cache,
                StepView::Failed(
                    ResolveError { slot: anchor.slot_of(), kind: ErrorKind::NoReferencesFound },
                ),
            )
        }),
{
}

/// A query that the backend does not answer, or answers with something else
/// than the record asked for, fails the resolution in the slot whose
/// heuristic asked.
pub proof fn law_unanswered_query_fails_its_step(cache: Map<Slot, u64>, pending: PendingView)
    ensures
        resume(cache, pending, ReplyView::Unreachable) == (
            cache,
            StepView::Failed(
                ResolveError { slot: pending.stage.slot(), kind: ErrorKind::BackendQueryError },
            ),
        ),
        resume(cache, pending, ReplyView::Malformed) == (
            cache,
            StepView::Failed(
                ResolveError { slot: pending.stage.slot(), kind: ErrorKind::DeserializationError },
            ),
        ),
{
}

/// A request for the notify routine, where the update routine is not
/// resolved either, starts with the query for the update routine. The
/// answer to it resolves the update routine and leads on to its
/// decompilation.
pub proof fn law_notify_resolves_update_first(cache: Map<Slot, u64>, refs: Seq<ReferenceView>)
    requires
        !cache.contains_key(Slot::Notify),
        !cache.contains_key(Slot::Update),
        refs.len() > 0,
    ensures
        plan(cache, Slot::Notify) == StepView::Ask(
            PendingView {
                goal: Slot::Notify,
                stage: StageView::AnchorReferences { anchor: Anchor::Update },
            },
        ),
        resume(
            cache,
            PendingView {
                goal: Slot::Notify,
                stage: StageView::AnchorReferences { anchor: Anchor::Update },
            },
            ReplyView::References(refs),
        ) == (
            cache.insert(Slot::Update, refs[0].fcn_addr),
            StepView::Ask(
                PendingView {
                    goal: Slot::Notify,
                    stage: StageView::Decompilation { update: refs[0].fcn_addr },
                },
            ),
        ),
{
}

/// A request for the singleton accessor, where the wait routine is not
/// resolved either, starts with the queries for the wait routine. The
/// answer to the last of them resolves the wait routine and leads on to the
/// query for its callers.
pub proof fn law_instance_resolves_wait_first(
    cache: Map<Slot, u64>,
    imports: Seq<ImportView>,
    refs: Seq<ReferenceView>,
)
    requires
        !cache.contains_key(Slot::GetInstance),
        !cache.contains_key(Slot::Wait),
        sleep_stub_of(imports) is Some,
        refs.len() > 0,
    ensures
        plan(cache, Slot::GetInstance) == StepView::Ask(
            PendingView { goal: Slot::GetInstance, stage: StageView::ImportTable },
        ),
        resume(
            cache,
            PendingView { goal: Slot::GetInstance, stage: StageView::ImportTable },
            ReplyView::Imports(imports),
        ) == (
            cache,
            StepView::Ask(
                PendingView {
                    goal: Slot::GetInstance,
                    stage: StageView::SleepCallers { stub: sleep_stub_of(imports)->0 },
                },
            ),
        ),
        wait_candidate_of(refs) is Some,
        resume(
            cache,
            PendingView {
                goal: Slot::GetInstance,
                stage: StageView::SleepCallers { stub: sleep_stub_of(imports)->0 },
            },
            ReplyView::References(refs),
        ) == (
            cache.insert(Slot::Wait, wait_candidate_of(refs)->0),
            StepView::Ask(
                PendingView {
                    goal: Slot::GetInstance,
                    stage: StageView::WaitCallers { wait: wait_candidate_of(refs)->0 },
                },
            ),
        ),
{
    lemma_most_frequent_none(holders_of(refs));
}

/// The decompiled update routine yields the lowest address that its
/// annotations name exactly twice, and the failure of the notify
/// resolution exactly where they name no function twice.
pub proof fn law_notify_is_named_twice(update: u64, decompiled: DecompileView)
    ensures
        (match digest(StageView::Decompilation { update }, ReplyView::Decompilation(decompiled)) {
            Outcome::Learned { slot, addr } => {
                &&& slot == Slot::Notify
                &&& is_lowest_with_count(
                    callee_sites_of(decompiled.annotations),
                    NOTIFY_MENTIONS as nat,
                    addr,
                )
            },
            Outcome::Failed { error } => {
                &&& error == (ResolveError {
                    slot: Slot::Notify,
                    kind: ErrorKind::NoCandidateWithExpectedCount,
                })
                &&& forall|a: u64|
                    occurrences(callee_sites_of(decompiled.annotations), a) != NOTIFY_MENTIONS
            },
            Outcome::Next { .. } => false,
        }),
{
    let sites = callee_sites_of(decompiled.annotations);
    lemma_lowest_with_count_none(sites, NOTIFY_MENTIONS as nat);
    if notify_candidate_of(decompiled.annotations) is None {
        assert forall|a: u64| occurrences(sites, a) != NOTIFY_MENTIONS by {
            lemma_occurs_iff_counted(sites, a);
        }
    }
}

/// The references to the sleep stub yield the function that holds most of
/// them, the lowest such address where several tie, and the failure of the
/// wait resolution exactly where there is no reference.
pub proof fn law_wait_is_most_frequent_caller(stub: u64, refs: Seq<ReferenceView>)
    ensures
        (match digest(StageView::SleepCallers { stub }, ReplyView::References(refs)) {
            Outcome::Learned { slot, addr } => {
                &&& slot == Slot::Wait
                &&& is_most_frequent(holders_of(refs), addr)
            },
            Outcome::Failed { error } => {
                &&& error == (ResolveError {
                    slot: Slot::Wait,
                    kind: ErrorKind::NoCandidateFunctionsFound,
                })
                &&& refs.len() == 0
            },
            Outcome::Next { .. } => false,
        }),
{
    lemma_most_frequent_none(holders_of(refs));
}

/// The sleep stub is the call stub of the first import that has the name of
/// the sleep primitive, and there is none exactly where no import has it.
pub proof fn law_sleep_stub_is_first_of_its_name(imports: Seq<ImportView>)
    ensures
        (match sleep_stub_of(imports) {
            Some(stub) => exists|i: int|
                {
                    &&& 0 <= i < imports.len()
                    &&& (#[trigger] imports[i]).name == sleep_name()
                    &&& imports[i].plt == stub
                    &&& forall|j: int| 0 <= j < i ==> (#[trigger] imports[j]).name != sleep_name()
                },
            None => forall|i: int|
                0 <= i < imports.len() ==> (#[trigger] imports[i]).name != sleep_name(),
        }),
    decreases imports.len(),
{
    if imports.len() > 0 {
        if imports.first().name == sleep_name() {
            assert(imports[0].plt == sleep_stub_of(imports)->0);
        } else {
            let rest = imports.drop_first();
            law_sleep_stub_is_first_of_its_name(rest);
            match sleep_stub_of(rest) {
                Some(stub) => {
                    let i = choose|i: int|
                        {
                            &&& 0 <= i < rest.len()
                            &&& (#[trigger] rest[i]).name == sleep_name()
                            &&& rest[i].plt == stub
                            &&& forall|j: int|
                                0 <= j < i ==> (#[trigger] rest[j]).name != sleep_name()
                        };
                    assert(imports[i + 1] == rest[i]);
                    assert forall|j: int| 0 <= j < i + 1 implies (#[trigger] imports[j]).name
                        != sleep_name() by {
                        if j > 0 {
                            assert(imports[j] == rest[j - 1]);
                        }
                    }
                },
                None => {
                    assert forall|i: int| 0 <= i < imports.len() implies (#[trigger] imports[i]).name
                        != sleep_name() by {
                        if i > 0 {
                            assert(imports[i] == rest[i - 1]);
                        }
                    }
                },
            }
        }
    }
}

/// The search for the singleton accessor starts with the first function
/// that holds a reference to the wait routine, and keeps the names of the
/// others in their order. It fails where nothing refers to the wait
/// routine.
pub proof fn law_instance_search_starts_at_first_caller(
    cache: Map<Slot, u64>,
    wait: u64,
    callers: Seq<ReferenceView>,
)
    ensures
        resume(
            cache,
            PendingView { goal: Slot::GetInstance, stage: StageView::WaitCallers { wait } },
            ReplyView::References(callers),
        ) == (if callers.len() > 0 {
            (
                cache,
                StepView::Ask(
                    PendingView {
                        goal: Slot::GetInstance,
                        stage: StageView::CallerProbe {
                            current: callers[0].fcn_name,
                            rest: holder_names_of(callers).drop_first(),
                        },
                    },
                ),
            )
        } else {
            (
                cache,
                StepView::Failed(
                    ResolveError { slot: Slot::GetInstance, kind: ErrorKind::NoCallerChainFound },
                ),
            )
        }),
{
}

/// The first caller of the wait routine that is itself referred to ends the
/// search: the singleton accessor is the function that holds the first
/// reference to that caller. A caller without references is passed over
/// for the next one, and the search fails after the last one.
pub proof fn law_instance_is_behind_first_caller_with_references(
    cache: Map<Slot, u64>,
    current: Seq<char>,
    rest: Seq<Seq<char>>,
    refs: Seq<ReferenceView>,
)
    requires
        !cache.contains_key(Slot::GetInstance),
    ensures
        resume(
            cache,
            PendingView { goal: Slot::GetInstance, stage: StageView::CallerProbe { current, rest } },
            ReplyView::References(refs),
        ) == (if refs.len() > 0 {
            (cache.insert(Slot::GetInstance, refs[0].fcn_addr), StepView::Resolved(refs[0].fcn_addr))
        } else if rest.len() > 0 {
            (
                cache,
                StepView::Ask(
                    PendingView {
                        goal: Slot::GetInstance,
                        stage: StageView::CallerProbe {
                            current: rest[0],
                            rest: rest.drop_first(),
                        },
                    },
                ),
            )
        } else {
            (
                cache,
                StepView::Failed(
                    ResolveError { slot: Slot::GetInstance, kind: ErrorKind::NoCallerChainFound },
                ),
            )
        }),
{
}

/// Whether `reply` holds `addr` as the function of a reference or as the
/// address of an annotation.
pub open spec fn names_address(reply: ReplyView, addr: u64) -> bool {
    match reply {
        ReplyView::References(refs) => exists|i: int|
            0 <= i < refs.len() && (#[trigger] refs[i]).fcn_addr == addr,
        ReplyView::Decompilation(decompiled) => exists|i: int|
            0 <= i < decompiled.annotations.len() && (#[trigger] decompiled.annotations[i]).offset
                == Some(addr),
        _ => false,
    }
}

proof fn lemma_callee_site_is_annotated(annotations: Seq<AnnotationView>, addr: u64)
    requires
        callee_sites_of(annotations).contains(addr),
    ensures
        exists|i: int|
            0 <= i < annotations.len() && (#[trigger] annotations[i]).offset == Some(addr),
    decreases annotations.len(),
{
    if annotations.len() > 0 {
        let before = annotations.drop_last();
        let last = annotations.last();
        if callee_sites_of(before).contains(addr) {
            lemma_callee_site_is_annotated(before, addr);
            let i = choose|i: int| 0 <= i < before.len() && (#[trigger] before[i]).offset == Some(addr);
            assert(annotations[i].offset == Some(addr));
        } else {
            let sites = callee_sites_of(annotations);
            let j = choose|j: int| 0 <= j < sites.len() && sites[j] == addr;
            if j < callee_sites_of(before).len() {
                assert(callee_sites_of(before)[j] == addr);
            }
            assert(annotations[annotations.len() - 1].offset == Some(addr));
        }
    }
}

/// Every address that enters the cache stands in the reply that resolved
/// its slot.
pub proof fn law_addresses_come_from_replies(
    cache: Map<Slot, u64>,
    pending: PendingView,
    reply: ReplyView,
    slot: Slot,
)
    requires
        !cache.contains_key(slot),
        resume(cache, pending, reply).0.contains_key(slot),
    ensures
        names_address(reply, resume(cache, pending, reply).0[slot]),
{
    let addr = resume(cache, pending, reply).0[slot];
    match (pending.stage, reply) {
        (StageView::AnchorReferences { .. }, ReplyView::References(refs)) => {
            assert(refs[0].fcn_addr == addr);
        },
        (StageView::CallerProbe { .. }, ReplyView::References(refs)) => {
            assert(refs[0].fcn_addr == addr);
        },
        (StageView::SleepCallers { .. }, ReplyView::References(refs)) => {
            let sites = holders_of(refs);
            assert(is_most_frequent(sites, addr));
            let i = choose|i: int| 0 <= i < sites.len() && sites[i] == addr;
            assert(refs[i].fcn_addr == addr);
        },
        (StageView::Decompilation { .. }, ReplyView::Decompilation(decompiled)) => {
            let sites = callee_sites_of(decompiled.annotations);
            assert(is_lowest_with_count(sites, NOTIFY_MENTIONS as nat, addr));
            lemma_callee_site_is_annotated(decompiled.annotations, addr);
        },
        _ => {},
    }
}

} // verus!

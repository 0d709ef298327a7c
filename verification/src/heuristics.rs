//! The inferences that turn a backend answer into a function address.
//!
//! Each one is a function of a single answer; how they follow one another
//! is the business of the module `radare`.

use crate::records::{
    Annotation, AnnotationView, Decompile, Import, ImportView, Reference, ReferenceView,
};
use crate::tally::{
    is_lowest_with_count, is_most_frequent, lowest_with_count, most_frequent, occurrences,
    select_most_frequent, select_with_count,
};
use crate::text::has_prefix;
use vstd::prelude::*;
use vstd::string::*;

verus! {

/// How often the update routine calls the notify routine.
pub const NOTIFY_MENTIONS: usize = 2;

/// The prefix of the names that the backend gives to functions without a
/// symbol.
pub open spec fn function_prefix() -> Seq<char> {
    seq!['f', 'c', 'n', '.']
}

/// The name of the imported sleep primitive.
pub open spec fn sleep_name() -> Seq<char> {
    seq!['u', 's', 'l', 'e', 'e', 'p']
}

/// The function that holds the first reference, if there is a reference.
pub open spec fn first_function_of(refs: Seq<ReferenceView>) -> Option<u64> {
    if refs.len() == 0 {
        None
    } else {
        Some(refs[0].fcn_addr)
    }
}

/// Whether an annotation marks a call of a function without a symbol: its
/// name begins with the function prefix, and it carries an address.
pub open spec fn names_function(annotation: AnnotationView) -> bool {
    &&& annotation.name matches Some(name)
    &&& function_prefix().is_prefix_of(name)
    &&& annotation.offset is Some
}

/// The addresses of the annotations that mark such a call, one entry for
/// each, in the order of the annotations.
pub open spec fn callee_sites_of(annotations: Seq<AnnotationView>) -> Seq<u64>
    decreases annotations.len(),
{
    if annotations.len() == 0 {
        Seq::empty()
    } else {
        let before = callee_sites_of(annotations.drop_last());
        if names_function(annotations.last()) {
            before.push(annotations.last().offset->0)
        } else {
            before
        }
    }
}

/// The notify routine by the calls in the update routine: the function that
/// the annotations name exactly twice, the lowest such address where there
/// are several.
pub open spec fn notify_candidate_of(annotations: Seq<AnnotationView>) -> Option<u64> {
    lowest_with_count(callee_sites_of(annotations), NOTIFY_MENTIONS as nat)
}

/// The call stub of the first import that is named as the sleep primitive.
pub open spec fn sleep_stub_of(imports: Seq<ImportView>) -> Option<u64>
    decreases imports.len(),
{
    if imports.len() == 0 {
        None
    } else if imports.first().name == sleep_name() {
        Some(imports.first().plt)
    } else {
        sleep_stub_of(imports.drop_first())
    }
}

/// The function that holds each reference, in the order of the references.
pub open spec fn holders_of(refs: Seq<ReferenceView>) -> Seq<u64> {
    refs.map_values(|r: ReferenceView| r.fcn_addr)
}

/// The name of the function that holds each reference, in the order of the
/// references.
pub open spec fn holder_names_of(refs: Seq<ReferenceView>) -> Seq<Seq<char>> {
    refs.map_values(|r: ReferenceView| r.fcn_name)
}

/// The wait routine by the references to the sleep stub: the function that
/// holds most of them, the lowest such address where several tie.
pub open spec fn wait_candidate_of(refs: Seq<ReferenceView>) -> Option<u64> {
    most_frequent(holders_of(refs))
}

/// The function that holds the first of `refs`.
///
/// `None` exactly where there is no reference.
pub fn first_function(refs: &Vec<Reference>) -> (found: Option<u64>)
    ensures
        found == first_function_of(refs.deep_view()),
        found is None <==> refs@.len() == 0,
{
    if refs.len() == 0 {
        None
    } else {
        Some(refs[0].fcn_addr)
    }
}

/// Whether `annotation` marks a call of a function without a symbol.
pub fn is_call_marker(annotation: &Annotation) -> (marks: bool)
    ensures
        marks == names_function(annotation@),
{
    proof {
        reveal_strlit("fcn.");
    }
    match &annotation.name {
        Some(name) => {
            assert("fcn."@ =~= function_prefix());
            has_prefix(name.as_str(), "fcn.") && annotation.offset.is_some()
        },
        None => false,
    }
}

/// The addresses of the call markers among `annotations`.
pub fn callee_sites(annotations: &Vec<Annotation>) -> (sites: Vec<u64>)
    ensures
        sites@ == callee_sites_of(annotations.deep_view()),
{
    let mut sites: Vec<u64> = Vec::new();
    let mut i: usize = 0;
    while i < annotations.len()
        invariant
            i <= annotations.len(),
            sites@ == callee_sites_of(annotations.deep_view().take(i as int)),
        decreases annotations.len() - i,
    {
        proof {
            let all = annotations.deep_view();
            assert(all.take(i + 1).drop_last() =~= all.take(i as int));
            assert(all.take(i + 1).last() == annotations[i as int]@);
        }
        if is_call_marker(&annotations[i]) {
            match annotations[i].offset {
                Some(addr) => {
                    sites.push(addr);
                },
                None => {},
            }
        }
        i = i + 1;
    }
    assert(annotations.deep_view().take(annotations.len() as int) =~= annotations.deep_view());
    sites
}

/// The notify routine by the calls that the decompiled update routine makes.
///
/// `None` exactly where the annotations name no function twice.
pub fn notify_candidate(decompiled: &Decompile) -> (found: Option<u64>)
    ensures
        found == notify_candidate_of(decompiled@.annotations),
        found matches Some(addr) ==> is_lowest_with_count(
            callee_sites_of(decompiled@.annotations),
            NOTIFY_MENTIONS as nat,
            addr,
        ),
        found is None <==> forall|a: u64|
            callee_sites_of(decompiled@.annotations).contains(a) ==> occurrences(
                callee_sites_of(decompiled@.annotations),
                a,
            ) != NOTIFY_MENTIONS,
{
    let sites = callee_sites(&decompiled.annotations);
    select_with_count(&sites, NOTIFY_MENTIONS)
}

/// The call stub of the sleep primitive.
///
/// `None` exactly where no import has its name.
pub fn sleep_stub(imports: &Vec<Import>) -> (found: Option<u64>)
    ensures
        found == sleep_stub_of(imports.deep_view()),
        found is None <==> forall|i: int|
            0 <= i < imports@.len() ==> (#[trigger] imports@[i]).name@ != sleep_name(),
{
    proof {
        reveal_strlit("usleep");
    }
    let wanted = String::from_str("usleep");
    assert(wanted@ =~= sleep_name());
    assert(imports.deep_view().skip(0) =~= imports.deep_view());
    let mut i: usize = 0;
    while i < imports.len()
        invariant
            i <= imports.len(),
            wanted@ == sleep_name(),
            sleep_stub_of(imports.deep_view()) == sleep_stub_of(
                imports.deep_view().skip(i as int),
            ),
            forall|j: int| 0 <= j < i ==> (#[trigger] imports@[j]).name@ != sleep_name(),
        decreases imports.len() - i,
    {
        proof {
            let rest = imports.deep_view().skip(i as int);
            assert(rest.first() == imports[i as int]@);
            assert(rest.drop_first() =~= imports.deep_view().skip(i + 1));
        }
        if imports[i].name == wanted {
            return Some(imports[i].plt);
        }
        i = i + 1;
    }
    None
}

/// The function that holds each of `refs`.
pub fn holders(refs: &Vec<Reference>) -> (sites: Vec<u64>)
    ensures
        sites@ == holders_of(refs.deep_view()),
{
    let mut sites: Vec<u64> = Vec::new();
    let mut i: usize = 0;
    while i < refs.len()
        invariant
            i <= refs.len(),
            sites@ == holders_of(refs.deep_view()).take(i as int),
        decreases refs.len() - i,
    {
        sites.push(refs[i].fcn_addr);
        assert(sites@ =~= holders_of(refs.deep_view()).take(i + 1));
        i = i + 1;
    }
    assert(sites@ =~= holders_of(refs.deep_view()));
    sites
}

/// The name of the function that holds each of `refs`.
pub fn holder_names(refs: &Vec<Reference>) -> (names: Vec<String>)
    ensures
        names.deep_view() == holder_names_of(refs.deep_view()),
{
    let mut names: Vec<String> = Vec::new();
    let mut i: usize = 0;
    while i < refs.len()
        invariant
            i <= refs.len(),
            names@.len() == i,
            forall|j: int| 0 <= j < i ==> (#[trigger] names@[j])@ == refs@[j].fcn_name@,
        decreases refs.len() - i,
    {
        names.push(refs[i].fcn_name.clone());
        i = i + 1;
    }
    assert(names.deep_view() =~= holder_names_of(refs.deep_view()));
    names
}

/// The wait routine by the references to the sleep stub.
///
/// `None` exactly where there is no reference.
pub fn wait_candidate(refs: &Vec<Reference>) -> (found: Option<u64>)
    ensures
        found == wait_candidate_of(refs.deep_view()),
        found matches Some(addr) ==> is_most_frequent(holders_of(refs.deep_view()), addr),
        found is None <==> refs@.len() == 0,
{
    let sites = holders(refs);
    select_most_frequent(&sites)
}

} // verus!

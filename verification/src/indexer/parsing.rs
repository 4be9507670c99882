//! What the indexer does with the events and function calls extracted from
//! one transaction: it handles each `ExampleEvent` in order, ignores each
//! `exampleFunction` call, and stops at the first name it does not know.

use vstd::prelude::*;
use crate::text::str_equals;

verus! {

/// The one event that the indexer handles.
pub open spec fn known_event(name: Seq<char>) -> bool {
    name == "ExampleEvent"@
}

/// The one function call that the indexer accepts (and ignores).
pub open spec fn known_function(name: Seq<char>) -> bool {
    name == "exampleFunction"@
}

/// The indexer handles an event exactly when its name is `ExampleEvent`,
/// and accepts a function call exactly when its name is `exampleFunction`:
/// no other name, however close, is known.
pub proof fn lemma_known_names(name: Seq<char>)
    ensures
        known_event(name) <==> name == "ExampleEvent"@,
        known_function(name) <==> name == "exampleFunction"@,
        known_event(name) ==> name.len() == "ExampleEvent"@.len(),
        known_function(name) ==> name.len() == "exampleFunction"@.len(),
{
}

/// Of the targets that the parser extracts (see `abi::all_for_parse`), the
/// function call `exampleFunction` is accepted, while the event is
/// extracted as `exampleEvent` and handled only as `ExampleEvent`: an
/// extracted `exampleEvent` stops the processing as an unknown event.
pub proof fn lemma_parse_targets_against_dispatch()
    ensures
        known_function("exampleFunction"@),
        !known_event("exampleEvent"@),
{
    reveal_strlit("exampleEvent");
    reveal_strlit("ExampleEvent");
    assert("exampleEvent"@[0] != "ExampleEvent"@[0]);
}

/// An extracted item whose name the indexer does not know.
pub enum UnknownName {
    /// An event.
    Event(String),
    /// A function call.
    Function(String),
}

/// What to do with the items extracted from one transaction.
pub struct ParsePlan {
    /// How many of the events, from the first on, to handle; each of them
    /// is an `ExampleEvent`.
    pub handled_events: usize,
    /// How many of the function calls, from the first on, were checked and
    /// found known.
    pub checked_functions: usize,
    /// The first unknown name, at which processing stops: the first unknown
    /// event, or, where every event is known, the first unknown function.
    pub failure: Option<UnknownName>,
}

/// Whether the indexer handles the event `name`.
pub fn is_known_event(name: &str) -> (r: bool)
    ensures
        r == known_event(name@),
{
    str_equals(name, "ExampleEvent")
}

/// Whether the indexer accepts the function call `name`.
pub fn is_known_function(name: &str) -> (r: bool)
    ensures
        r == known_function(name@),
{
    str_equals(name, "exampleFunction")
}

/// Plans the processing of one transaction from the names of the events and
/// of the function calls extracted from it.
pub fn plan_parsed_events(events: &Vec<String>, functions: &Vec<String>) -> (r: ParsePlan)
    ensures
        r.handled_events <= events@.len(),
        forall|i: int| 0 <= i < r.handled_events ==> known_event(#[trigger] events@[i]@),
        r.handled_events < events@.len() ==> {
            &&& !known_event(events@[r.handled_events as int]@)
            &&& r.checked_functions == 0
            &&& r.failure matches Some(UnknownName::Event(n))
            &&& n@ == events@[r.handled_events as int]@
        },
        r.handled_events == events@.len() ==> {
            &&& r.checked_functions <= functions@.len()
            &&& forall|j: int| 0 <= j < r.checked_functions ==> known_function(#[trigger] functions@[j]@)
            &&& r.checked_functions < functions@.len() ==> {
                &&& !known_function(functions@[r.checked_functions as int]@)
                &&& r.failure matches Some(UnknownName::Function(n))
                &&& n@ == functions@[r.checked_functions as int]@
            }
            &&& r.checked_functions == functions@.len() ==> r.failure is None
        },
{
    let mut i: usize = 0;
    while i < events.len()
        invariant
            i <= events@.len(),
            forall|k: int| 0 <= k < i ==> known_event(#[trigger] events@[k]@),
        decreases events@.len() - i,
    {
        if !is_known_event(events[i].as_str()) {
            return ParsePlan {
                handled_events: i,
                checked_functions: 0,
                failure: Some(UnknownName::Event(events[i].clone())),
            };
        }
        i += 1;
    }
    let mut j: usize = 0;
    while j < functions.len()
        invariant
            i == events@.len(),
            forall|k: int| 0 <= k < i ==> known_event(#[trigger] events@[k]@),
            j <= functions@.len(),
            forall|k: int| 0 <= k < j ==> known_function(#[trigger] functions@[k]@),
        decreases functions@.len() - j,
    {
        if !is_known_function(functions[j].as_str()) {
            return ParsePlan {
                handled_events: i,
                checked_functions: j,
                failure: Some(UnknownName::Function(functions[j].clone())),
            };
        }
        j += 1;
    }
    ParsePlan { handled_events: i, checked_functions: j, failure: None }
}

} // verus!

//! What the indexer asks the transaction parser to extract.

use vstd::prelude::*;

verus! {

/// Whether a parse target is an event or a function call.
#[derive(PartialEq, Eq, Structural, Clone, Copy, Debug)]
pub enum ExtractableKind {
    /// An event that a contract emits.
    Event,
    /// A call of a contract function.
    Function,
}

/// An item of the example contract's ABI that the parser extracts.
pub struct ParseTarget {
    /// Event or function.
    pub kind: ExtractableKind,
    /// Its name in the ABI.
    pub name: String,
}

/// The targets, in order: the event `exampleEvent` and the function
/// `exampleFunction` of the example contract.
pub fn all_for_parse() -> (r: Vec<ParseTarget>)
    ensures
        r@.len() == 2,
        r@[0].kind == ExtractableKind::Event,
        r@[0].name@ == "exampleEvent"@,
        r@[1].kind == ExtractableKind::Function,
        r@[1].name@ == "exampleFunction"@,
{
    let mut r: Vec<ParseTarget> = Vec::new();
    r.push(ParseTarget { kind: ExtractableKind::Event, name: String::from_str("exampleEvent") });
    r.push(
        ParseTarget { kind: ExtractableKind::Function, name: String::from_str("exampleFunction") },
    );
    r
}

} // verus!

//! Running a getter of a contract: the ways in which it can come back empty.

use vstd::prelude::*;

verus! {

/// Why running a contract function gave no output.
#[derive(PartialEq, Eq, Structural, Clone, Copy, Debug)]
pub enum RunFunctionFailure {
    /// No state was given and the transaction consumer has no client.
    NoClient,
    /// The client ran the function and returned nothing.
    NoOutput,
    /// The function's output holds no tokens.
    EmptyTokens,
}

impl RunFunctionFailure {
    /// The message of the failure.
    pub open spec fn message_spec(self) -> Seq<char> {
        match self {
            RunFunctionFailure::NoClient => "transaction_consumer.get_client() is None"@,
            RunFunctionFailure::NoOutput => "run_local_with_time_check is None"@,
            RunFunctionFailure::EmptyTokens => "empty tokens"@,
        }
    }

    /// The message of the failure, as the error that reports it reads.
    pub fn message(&self) -> (r: String)
        ensures
            r@ == self.message_spec(),
    {
        match self {
            RunFunctionFailure::NoClient => String::from_str(
                "transaction_consumer.get_client() is None",
            ),
            RunFunctionFailure::NoOutput => String::from_str("run_local_with_time_check is None"),
            RunFunctionFailure::EmptyTokens => String::from_str("empty tokens"),
        }
    }
}

/// The result of one step of running a contract function: what the step
/// gave, or, where it gave nothing, the failure that reports its absence.
pub fn require_output<T>(found: Option<T>, failure: RunFunctionFailure) -> (r: Result<
    T,
    RunFunctionFailure,
>)
    ensures
        found matches Some(v) ==> r == Ok::<T, RunFunctionFailure>(v),
        found is None ==> r == Err::<T, RunFunctionFailure>(failure),
{
    match found {
        Some(v) => Ok(v),
        None => Err(failure),
    }
}

} // verus!

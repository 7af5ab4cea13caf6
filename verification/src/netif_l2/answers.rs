//! Calls whose answer the caller has to account for.
//!
//! What the link queues answer depends on the other holders of the queues. A
//! result is therefore tied to the call itself: it is one that the function can
//! give for exactly these arguments.

use vstd::prelude::*;

verus! {

/// The answer of a function to one argument.
pub(crate) fn answer<A, R, F: FnOnce(A) -> R>(function: F, argument: A) -> (result: R)
    requires
        function.requires((argument,)),
    ensures
        function.ensures((argument,), result),
{
    function(argument)
}

/// The answer of a function to two arguments.
pub(crate) fn answer_to_both<A, B, R, F: FnOnce(A, B) -> R>(
    function: F,
    first: A,
    second: B,
) -> (result: R)
    requires
        function.requires((first, second)),
    ensures
        function.ensures((first, second), result),
{
    function(first, second)
}

/// The answer of a function to three arguments.
pub(crate) fn answer_to_all<A, B, C, R, F: FnOnce(A, B, C) -> R>(
    function: F,
    first: A,
    second: B,
    third: C,
) -> (result: R)
    requires
        function.requires((first, second, third)),
    ensures
        function.ensures((first, second, third), result),
{
    function(first, second, third)
}

} // verus!

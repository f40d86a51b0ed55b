use vstd::prelude::*;

verus! {

/// `Some(value)` when `predicate` holds, `None` otherwise.
pub fn to_option<A>(predicate: bool, value: A) -> (r: Option<A>)
    ensures
        predicate ==> r == Some(value),
        !predicate ==> r is None,
{
    if predicate {
        Some(value)
    } else {
        None
    }
}

} // verus!

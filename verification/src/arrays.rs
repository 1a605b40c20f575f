//! Arrays in specifications: the array that holds the elements of a
//! sequence.

use vstd::prelude::*;

verus! {

/// The array whose elements are those of `s`.
pub open spec fn array_of<T, const N: usize>(s: Seq<T>) -> [T; N] {
    choose|a: [T; N]| a@ == s
}

/// An array is the array of its own elements.
pub proof fn lemma_array_of<T, const N: usize>(a: [T; N])
    ensures
        array_of::<T, N>(a@) == a,
{
    let b = array_of::<T, N>(a@);
    assert(b@ == a@);
    assert(b =~= a);
}

/// An array with the elements of `s` is the array of `s`.
pub proof fn lemma_array_is<T, const N: usize>(a: [T; N], s: Seq<T>)
    requires
        a@ =~= s,
    ensures
        a == array_of::<T, N>(s),
{
    lemma_array_of(a);
}

} // verus!

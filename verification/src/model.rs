//! The mathematical model: what each level's sequence is, over unbounded
//! integers and lengths.

use vstd::prelude::*;

verus! {

/// The first `n` multiples of `k`, in increasing order of index:
/// `[0 * k, 1 * k, ..., (n - 1) * k]`.
pub open spec fn multiples(n: nat, k: int) -> Seq<int> {
    Seq::new(n, |i: int| i * k)
}

/// The innermost level: the first `n` multiples of three.
pub open spec fn level_3(n: nat) -> Seq<int> {
    multiples(n, 3)
}

/// The middle level: the first `n` even numbers, then all of `level_3(n)`.
pub open spec fn level_2(n: nat) -> Seq<int> {
    multiples(n, 2) + level_3(n)
}

/// The outermost level: the indices `0..n`, then all of `level_2(n)`.
pub open spec fn level_1(n: nat) -> Seq<int> {
    multiples(n, 1) + level_2(n)
}

/// The elements of a machine sequence as mathematical integers.
pub open spec fn ints(s: Seq<i32>) -> Seq<int> {
    s.map_values(|x: i32| x as int)
}

/// Whether every element of `s` is within the range of `i32`.
pub open spec fn fits_i32(s: Seq<int>) -> bool {
    forall|i: int| 0 <= i < s.len() ==> i32::MIN <= #[trigger] s[i] <= i32::MAX
}

} // verus!

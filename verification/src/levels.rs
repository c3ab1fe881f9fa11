//! The three builders, each returning a freshly allocated vector.
//!
//! Each contract gives the length, says that the vector agrees with the
//! model at every index, and states the same once more as a single equation
//! over the model, which is the form that other contracts build on.

use vstd::prelude::*;
use crate::model::{ints, level_1, level_2, level_3};

verus! {

/// The largest size the builders accept: the greatest `n` for which every
/// element of `level_3(n)`, the fastest-growing run, still fits in an `i32`
/// (see `laws::lemma_fits_iff_within_max_size`).
pub const MAX_SIZE: usize = 715_827_883;

/// Builds the outermost sequence: the indices `0..size`, followed by
/// everything `allocate_more_memory(size)` yields, `3 * size` elements in all.
pub fn allocate_memory(size: usize) -> (seq: Vec<i32>)
    requires
        size <= MAX_SIZE,
    ensures
        seq@.len() == 3 * size,
        forall|i: int| 0 <= i < seq@.len() ==> seq@[i] == level_1(size as nat)[i],
        ints(seq@) == level_1(size as nat),
{
    let mut vec: Vec<i32> = Vec::with_capacity(size);
    for i in 0..size
        invariant
            size <= MAX_SIZE,
            vec@.len() == i,
            forall|j: int| 0 <= j < i ==> vec@[j] == j,
    {
        vec.push(i as i32);
    }
    let mut d = allocate_more_memory(size);
    assert(ints(vec@ + d@) =~= ints(vec@) + ints(d@));
    vec.append(&mut d);
    vec
}

/// Builds the middle sequence: the doubled indices `0, 2, .., 2 * (size - 1)`,
/// followed by everything `allocate_even_more_memory(size)` yields,
/// `2 * size` elements in all.
pub fn allocate_more_memory(size: usize) -> (seq: Vec<i32>)
    requires
        size <= MAX_SIZE,
    ensures
        seq@.len() == 2 * size,
        forall|i: int| 0 <= i < seq@.len() ==> seq@[i] == level_2(size as nat)[i],
        ints(seq@) == level_2(size as nat),
{
    let mut vec: Vec<i32> = Vec::with_capacity(size);
    for i in 0..size
        invariant
            size <= MAX_SIZE,
            vec@.len() == i,
            forall|j: int| 0 <= j < i ==> vec@[j] == j * 2,
    {
        vec.push((i as i32) * 2);
    }
    let mut e = allocate_even_more_memory(size);
    assert(ints(vec@ + e@) =~= ints(vec@) + ints(e@));
    vec.append(&mut e);
    vec
}

/// Builds the innermost sequence: `size` elements, the one at index `i`
/// being `i * 3`.
pub fn allocate_even_more_memory(size: usize) -> (seq: Vec<i32>)
    requires
        size <= MAX_SIZE,
    ensures
        seq@.len() == size,
        forall|i: int| 0 <= i < seq@.len() ==> seq@[i] == level_3(size as nat)[i],
        ints(seq@) == level_3(size as nat),
{
    let mut vec: Vec<i32> = Vec::with_capacity(size);
    for i in 0..size
        invariant
            size <= MAX_SIZE,
            vec@.len() == i,
            forall|j: int| 0 <= j < i ==> vec@[j] == j * 3,
    {
        vec.push((i as i32) * 3);
    }
    assert(ints(vec@) =~= level_3(size as nat));
    vec
}

} // verus!

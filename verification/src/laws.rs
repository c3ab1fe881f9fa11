//! What holds of the three levels for every size, proved over the model.

use vstd::prelude::*;
use crate::levels::MAX_SIZE;
use crate::model::{fits_i32, ints, level_1, level_2, level_3};
use crate::report::{decimal, digit, digit_value, numeral_value};

verus! {

/// The innermost sequence of size `n` has `n` elements, and the one at
/// index `i` is `i * 3`.
pub proof fn lemma_level_3_elements(n: nat)
    ensures
        level_3(n).len() == n,
        forall|i: int| 0 <= i < n ==> level_3(n)[i] == i * 3,
{
}

/// The middle sequence of size `n` has `2 * n` elements: the first `n` are
/// the doubled indices, and the rest is exactly the innermost sequence of
/// the same size.
pub proof fn lemma_level_2_structure(n: nat)
    ensures
        level_2(n).len() == 2 * n,
        forall|i: int| 0 <= i < n ==> level_2(n)[i] == i * 2,
        level_2(n).subrange(n as int, 2 * n as int) == level_3(n),
{
    assert(level_2(n).subrange(n as int, 2 * n as int) =~= level_3(n));
}

/// The outermost sequence of size `n` has `3 * n` elements: the first `n`
/// are the indices themselves, and the rest is exactly the middle sequence
/// of the same size.
pub proof fn lemma_level_1_structure(n: nat)
    ensures
        level_1(n).len() == 3 * n,
        forall|i: int| 0 <= i < n ==> level_1(n)[i] == i,
        level_1(n).subrange(n as int, 3 * n as int) == level_2(n),
{
    assert(level_1(n).subrange(n as int, 3 * n as int) =~= level_2(n));
}

/// Seen from the outermost sequence, the innermost one is its last third:
/// the element at index `j`, from `2 * n` on, is `(j - 2 * n) * 3`.
pub proof fn lemma_level_1_last_third(n: nat)
    ensures
        level_1(n).subrange(2 * n as int, 3 * n as int) == level_3(n),
        forall|j: int| 2 * n <= j < 3 * n ==> level_1(n)[j] == (j - 2 * n) * 3,
{
    assert(level_1(n).subrange(2 * n as int, 3 * n as int) =~= level_3(n));
}

/// Every element of every level is non-negative.
pub proof fn lemma_levels_non_negative(n: nat)
    ensures
        forall|i: int| 0 <= i < level_3(n).len() ==> level_3(n)[i] >= 0,
        forall|i: int| 0 <= i < level_2(n).len() ==> level_2(n)[i] >= 0,
        forall|i: int| 0 <= i < level_1(n).len() ==> level_1(n)[i] >= 0,
{
}

/// `MAX_SIZE` is exact: the elements of a level all fit in an `i32` if and
/// only if its size is at most `MAX_SIZE`, and that holds alike of the three
/// levels, since each contains the innermost one.
pub proof fn lemma_fits_iff_within_max_size(n: nat)
    ensures
        fits_i32(level_3(n)) <==> n <= MAX_SIZE,
        fits_i32(level_2(n)) <==> n <= MAX_SIZE,
        fits_i32(level_1(n)) <==> n <= MAX_SIZE,
{
    if n > MAX_SIZE {
        let i = n - 1;
        assert(level_3(n)[i] > i32::MAX);
        assert(level_2(n)[n + i] > i32::MAX);
        assert(level_1(n)[2 * n + i] > i32::MAX);
    }
}

/// A machine sequence is determined by the integers it stands for: two that
/// have the same integers are the same sequence.
pub proof fn lemma_ints_injective(a: Seq<i32>, b: Seq<i32>)
    requires
        ints(a) == ints(b),
    ensures
        a == b,
{
    assert(a.len() == ints(a).len());
    assert(b.len() == ints(b).len());
    assert forall|i: int| 0 <= i < a.len() implies a[i] == b[i] by {
        assert(ints(a)[i] == a[i]);
        assert(ints(b)[i] == b[i]);
    }
    assert(a =~= b);
}

/// The decimal numeral of `n` is canonical: it is made of digits only,
/// denotes `n` when read positionally, and starts with a zero only where
/// `n` is zero, in which case it is that single digit.
pub proof fn lemma_decimal_denotes(n: nat)
    ensures
        decimal(n).len() >= 1,
        forall|i: int|
            0 <= i < decimal(n).len() ==> #[trigger] digit(digit_value(decimal(n)[i]))
                == decimal(n)[i],
        numeral_value(decimal(n)) == n,
        decimal(n)[0] == '0' <==> n == 0,
        n == 0 ==> decimal(n).len() == 1,
    decreases n,
{
    if n >= 10 {
        let shorter = decimal(n / 10);
        lemma_decimal_denotes(n / 10);
        assert(decimal(n).drop_last() =~= shorter);
        assert(decimal(n).last() == digit(n % 10));
        assert(decimal(n)[0] == shorter[0]);
        assert forall|i: int| 0 <= i < decimal(n).len() implies #[trigger] digit(
            digit_value(decimal(n)[i]),
        ) == decimal(n)[i] by {
            if i < shorter.len() {
                assert(decimal(n)[i] == shorter[i]);
            }
        }
    } else {
        assert(decimal(n).drop_last() =~= Seq::<char>::empty());
        assert(numeral_value(decimal(n)) == numeral_value(Seq::<char>::empty()) * 10
            + digit_value(digit(n)));
    }
}

} // verus!

//! The textual form of sequences and the one-line report built from them.

use vstd::prelude::*;
use crate::levels::allocate_memory;
use crate::model::{ints, level_1};

verus! {

/// The character for a single decimal digit.
pub open spec fn digit(d: nat) -> char
    recommends
        d < 10,
{
    if d == 0 {
        '0'
    } else if d == 1 {
        '1'
    } else if d == 2 {
        '2'
    } else if d == 3 {
        '3'
    } else if d == 4 {
        '4'
    } else if d == 5 {
        '5'
    } else if d == 6 {
        '6'
    } else if d == 7 {
        '7'
    } else if d == 8 {
        '8'
    } else {
        '9'
    }
}

/// The decimal numeral of `n`, most significant digit first, with no
/// leading zero (zero itself is `"0"`).
pub open spec fn decimal(n: nat) -> Seq<char>
    decreases n,
{
    if n < 10 {
        seq![digit(n)]
    } else {
        decimal(n / 10).push(digit(n % 10))
    }
}

/// The number a digit character stands for; zero for any other character.
pub open spec fn digit_value(c: char) -> nat {
    if c == '1' {
        1
    } else if c == '2' {
        2
    } else if c == '3' {
        3
    } else if c == '4' {
        4
    } else if c == '5' {
        5
    } else if c == '6' {
        6
    } else if c == '7' {
        7
    } else if c == '8' {
        8
    } else if c == '9' {
        9
    } else {
        0
    }
}

/// The number a numeral denotes, read positionally in base ten.
pub open spec fn numeral_value(t: Seq<char>) -> nat
    decreases t.len(),
{
    if t.len() == 0 {
        0
    } else {
        numeral_value(t.drop_last()) * 10 + digit_value(t.last())
    }
}

/// The numeral of an integer: a minus sign before the numeral of its
/// magnitude where it is negative.
pub open spec fn signed_decimal(v: int) -> Seq<char> {
    if v < 0 {
        seq!['-'] + decimal((-v) as nat)
    } else {
        decimal(v as nat)
    }
}

/// The numerals of the elements of `s` in order, each two neighbours
/// separated by a comma and a space.
pub open spec fn joined(s: Seq<int>) -> Seq<char>
    decreases s.len(),
{
    if s.len() == 0 {
        Seq::empty()
    } else if s.len() == 1 {
        signed_decimal(s[0])
    } else {
        joined(s.drop_last()) + seq![',', ' '] + signed_decimal(s.last())
    }
}

/// The bracketed list form of a sequence, such as `[0, 1, 2]`; `[]` where
/// it is empty.
pub open spec fn list_text(s: Seq<int>) -> Seq<char> {
    seq!['['] + joined(s) + seq![']']
}

/// The report line for three sequences: a fixed label, then each sequence
/// in list form under its letter.
pub open spec fn report_text(a: Seq<int>, b: Seq<int>, c: Seq<int>) -> Seq<char> {
    "Allocated memory: a="@ + list_text(a) + ", b="@ + list_text(b) + ", c="@ + list_text(c)
}

/// The one-character string for a decimal digit.
fn digit_str(d: u32) -> (s: &'static str)
    requires
        d < 10,
    ensures
        s@ == seq![digit(d as nat)],
{
    proof {
        reveal_strlit("0");
        reveal_strlit("1");
        reveal_strlit("2");
        reveal_strlit("3");
        reveal_strlit("4");
        reveal_strlit("5");
        reveal_strlit("6");
        reveal_strlit("7");
        reveal_strlit("8");
        reveal_strlit("9");
    }
    let s = if d == 0 {
        "0"
    } else if d == 1 {
        "1"
    } else if d == 2 {
        "2"
    } else if d == 3 {
        "3"
    } else if d == 4 {
        "4"
    } else if d == 5 {
        "5"
    } else if d == 6 {
        "6"
    } else if d == 7 {
        "7"
    } else if d == 8 {
        "8"
    } else {
        "9"
    };
    assert(s@ =~= seq![digit(d as nat)]);
    s
}

/// Appends the decimal numeral of `n` to `out`.
fn append_decimal(out: &mut String, n: u32)
    ensures
        final(out)@ == old(out)@ + decimal(n as nat),
    decreases n,
{
    if n >= 10 {
        append_decimal(out, n / 10);
    }
    out.append(digit_str(n % 10));
    assert(out@ =~= old(out)@ + decimal(n as nat));
}

/// Appends the numeral of `v` to `out`.
fn append_signed(out: &mut String, v: i32)
    ensures
        final(out)@ == old(out)@ + signed_decimal(v as int),
{
    if v < 0 {
        proof {
            reveal_strlit("-");
        }
        out.append("-");
        let magnitude: i64 = -(v as i64);
        append_decimal(out, magnitude as u32);
    } else {
        append_decimal(out, v as u32);
    }
    assert(out@ =~= old(out)@ + signed_decimal(v as int));
}

/// Renders a sequence in list form, such as `[0, 1, 2]`.
pub fn render(seq: &Vec<i32>) -> (text: String)
    ensures
        text@ == list_text(ints(seq@)),
{
    proof {
        reveal_strlit("[");
        reveal_strlit(", ");
        reveal_strlit("]");
    }
    let mut text = String::from_str("[");
    let mut i: usize = 0;
    while i < seq.len()
        invariant
            i <= seq@.len(),
            ", "@ == seq![',', ' '],
            text@ == seq!['['] + joined(ints(seq@).take(i as int)),
        decreases seq@.len() - i,
    {
        let ghost shorter = ints(seq@).take(i as int);
        let ghost longer = ints(seq@).take(i + 1);
        assert(longer.drop_last() =~= shorter);
        assert(longer.last() == seq@[i as int]);
        if i > 0 {
            text.append(", ");
        }
        append_signed(&mut text, seq[i]);
        i += 1;
        assert(text@ =~= seq!['['] + joined(longer));
    }
    assert(ints(seq@).take(i as int) =~= ints(seq@));
    text.append("]");
    assert(text@ =~= list_text(ints(seq@)));
    text
}

/// Builds the report line for three sequences.
pub fn report_line(a: &Vec<i32>, b: &Vec<i32>, c: &Vec<i32>) -> (line: String)
    ensures
        line@ == report_text(ints(a@), ints(b@), ints(c@)),
{
    let mut line = String::from_str("Allocated memory: a=");
    line.append(render(a).as_str());
    line.append(", b=");
    line.append(render(b).as_str());
    line.append(", c=");
    line.append(render(c).as_str());
    line
}

/// Builds the three outermost sequences, of sizes 10, 20 and 30, and
/// returns their report line.
pub fn report() -> (line: String)
    ensures
        line@ == report_text(level_1(10), level_1(20), level_1(30)),
{
    let a = allocate_memory(10);
    let b = allocate_memory(20);
    let c = allocate_memory(30);
    report_line(&a, &b, &c)
}

} // verus!

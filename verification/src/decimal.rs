use vstd::prelude::*;

verus! {

/// The character for one decimal digit.
pub open spec fn digit_char(d: int) -> char {
    if d == 0 {
        '0'
    } else if d == 1 {
        '1'
    } else if d == 2 {
        '2'
    } else if d == 3 {
        '3'
    } else if d == 4 {
        '4'
    } else if d == 5 {
        '5'
    } else if d == 6 {
        '6'
    } else if d == 7 {
        '7'
    } else if d == 8 {
        '8'
    } else {
        '9'
    }
}

/// The decimal representation of `v`: most significant digit first, no sign,
/// no leading zeros, and the single digit `0` for zero.
pub open spec fn decimal_rep(v: nat) -> Seq<char>
    decreases v,
{
    if v < 10 {
        seq![digit_char(v as int)]
    } else {
        decimal_rep(v / 10).push(digit_char((v % 10) as int))
    }
}

/// A decimal representation is never empty: even zero shows one digit.
pub proof fn lemma_decimal_rep_nonempty(v: nat)
    ensures
        decimal_rep(v).len() >= 1,
    decreases v,
{
    if v >= 10 {
        lemma_decimal_rep_nonempty(v / 10);
    }
}

fn exec_digit_char(d: u64) -> (c: char)
    requires
        d < 10,
    ensures
        c == digit_char(d as int),
{
    match d {
        0 => '0',
        1 => '1',
        2 => '2',
        3 => '3',
        4 => '4',
        5 => '5',
        6 => '6',
        7 => '7',
        8 => '8',
        _ => '9',
    }
}

/// The decimal digits of `v`, most significant first.
pub fn to_decimal_chars(v: u64) -> (r: Vec<char>)
    ensures
        r@ == decimal_rep(v as nat),
    decreases v,
{
    if v < 10 {
        let mut r: Vec<char> = Vec::new();
        r.push(exec_digit_char(v));
        proof {
            assert(r@ =~= decimal_rep(v as nat));
        }
        r
    } else {
        let mut r = to_decimal_chars(v / 10);
        r.push(exec_digit_char(v % 10));
        proof {
            assert(r@ =~= decimal_rep(v as nat));
        }
        r
    }
}

/// The digit a character stands for; characters outside `'0'..='9'` count
/// as zero.
pub open spec fn digit_of(c: char) -> nat {
    if c == '1' {
        1
    } else if c == '2' {
        2
    } else if c == '3' {
        3
    } else if c == '4' {
        4
    } else if c == '5' {
        5
    } else if c == '6' {
        6
    } else if c == '7' {
        7
    } else if c == '8' {
        8
    } else if c == '9' {
        9
    } else {
        0
    }
}

/// The number a digit string denotes, most significant digit first.
pub open spec fn decimal_value(s: Seq<char>) -> nat
    decreases s.len(),
{
    if s.len() == 0 {
        0
    } else {
        decimal_value(s.drop_last()) * 10 + digit_of(s.last())
    }
}

/// Reading a decimal representation back gives the number it was made from:
/// `decimal_rep` denotes exactly its argument.
pub proof fn lemma_decimal_rep_value(v: nat)
    ensures
        decimal_value(decimal_rep(v)) == v,
    decreases v,
{
    if v < 10 {
        assert(decimal_rep(v).drop_last() =~= Seq::<char>::empty());
    } else {
        lemma_decimal_rep_value(v / 10);
        assert(decimal_rep(v).drop_last() =~= decimal_rep(v / 10));
    }
}

/// A decimal representation never starts with a superfluous zero: only the
/// number zero itself shows a leading `'0'`.
pub proof fn lemma_decimal_rep_no_leading_zero(v: nat)
    requires
        v >= 1,
    ensures
        decimal_rep(v)[0] != '0',
    decreases v,
{
    if v >= 10 {
        lemma_decimal_rep_no_leading_zero(v / 10);
        lemma_decimal_rep_nonempty(v / 10);
        assert(decimal_rep(v)[0] == decimal_rep(v / 10)[0]);
    }
}

} // verus!

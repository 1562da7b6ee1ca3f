//! Event channel names.
//!
//! Every subscription relays its results on a channel of its own, named by a
//! fixed scheme prefix followed by the subscription's identifier in decimal.

use vstd::prelude::*;

verus! {

/// The character that stands for the digit `d`.
pub open spec fn digit_char(d: nat) -> char
    recommends
        d < 10,
{
    if d == 0 {
        '0'
    } else if d == 1 {
        '1'
    } else if d == 2 {
        '2'
    } else if d == 3 {
        '3'
    } else if d == 4 {
        '4'
    } else if d == 5 {
        '5'
    } else if d == 6 {
        '6'
    } else if d == 7 {
        '7'
    } else if d == 8 {
        '8'
    } else {
        '9'
    }
}

/// The decimal numeral of `n`: most significant digit first, no leading zero.
pub open spec fn decimal(n: nat) -> Seq<char>
    decreases n,
{
    if n < 10 {
        seq![digit_char(n)]
    } else {
        decimal(n / 10).push(digit_char(n % 10))
    }
}

fn digit_str(d: u32) -> (s: &'static str)
    requires
        d < 10,
    ensures
        s@ == seq![digit_char(d as nat)],
{
    proof {
        reveal_strlit("0");
        reveal_strlit("1");
        reveal_strlit("2");
        reveal_strlit("3");
        reveal_strlit("4");
        reveal_strlit("5");
        reveal_strlit("6");
        reveal_strlit("7");
        reveal_strlit("8");
        reveal_strlit("9");
    }
    match d {
        0 => "0",
        1 => "1",
        2 => "2",
        3 => "3",
        4 => "4",
        5 => "5",
        6 => "6",
        7 => "7",
        8 => "8",
        _ => "9",
    }
}

fn push_decimal(out: &mut String, n: u32)
    ensures
        final(out)@ == old(out)@ + decimal(n as nat),
    decreases n,
{
    if n >= 10 {
        push_decimal(out, n / 10);
    }
    out.append(digit_str(n % 10));
}

/// The scheme prefix of every event channel name.
pub const CHANNEL_SCHEME: &'static str = "graphql://";

/// The name of the event channel of the subscription `id`.
pub open spec fn channel_name(id: u32) -> Seq<char> {
    CHANNEL_SCHEME@ + decimal(id as nat)
}

/// Derives the event channel name of the subscription `id`.
pub fn event_channel(id: u32) -> (name: String)
    ensures
        name@ == channel_name(id),
{
    let mut name = String::from_str(CHANNEL_SCHEME);
    push_decimal(&mut name, id);
    name
}

/// A numeral has at least one digit, and at least two from ten on.
pub proof fn lemma_decimal_len(n: nat)
    ensures
        decimal(n).len() >= 1,
        n >= 10 ==> decimal(n).len() >= 2,
    decreases n,
{
    if n >= 10 {
        lemma_decimal_len(n / 10);
    }
}

/// Different numbers have different numerals.
pub proof fn lemma_decimal_injective(a: nat, b: nat)
    requires
        decimal(a) == decimal(b),
    ensures
        a == b,
    decreases a,
{
    lemma_decimal_len(a);
    lemma_decimal_len(b);
    if a >= 10 {
        // Both numerals have two digits or more: the last digits agree, and
        // so do the numerals of the tenths.
        assert(decimal(a).last() == digit_char(a % 10));
        assert(decimal(b).last() == digit_char(b % 10));
        assert(decimal(a).drop_last() =~= decimal(a / 10));
        assert(decimal(b).drop_last() =~= decimal(b / 10));
        lemma_decimal_injective(a / 10, b / 10);
    } else {
        // Both numerals are one digit.
        assert(decimal(a)[0] == digit_char(a));
        assert(decimal(b)[0] == digit_char(b));
    }
}

/// Subscriptions with different identifiers relay on different channels.
pub proof fn lemma_channel_injective(a: u32, b: u32)
    requires
        channel_name(a) == channel_name(b),
    ensures
        a == b,
{
    let scheme = CHANNEL_SCHEME@;
    let x = decimal(a as nat);
    let y = decimal(b as nat);
    assert((scheme + x).subrange(scheme.len() as int, (scheme + x).len() as int) =~= x);
    assert((scheme + y).subrange(scheme.len() as int, (scheme + y).len() as int) =~= y);
    lemma_decimal_injective(a as nat, b as nat);
}

} // verus!

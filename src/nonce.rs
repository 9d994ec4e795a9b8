//! Nonces: microsecond timestamps, kept strictly increasing within a client
//! even where the clock stands still or jumps back, and written in decimal.

use vstd::prelude::*;
use vstd::string::StringExecFns;

verus! {

/// The character of a decimal digit.
pub open spec fn digit_char(d: nat) -> char {
    if d == 0 { '0' }
    else if d == 1 { '1' }
    else if d == 2 { '2' }
    else if d == 3 { '3' }
    else if d == 4 { '4' }
    else if d == 5 { '5' }
    else if d == 6 { '6' }
    else if d == 7 { '7' }
    else if d == 8 { '8' }
    else { '9' }
}

/// The decimal text of a number, without sign or leading zeros.
pub open spec fn decimal(n: nat) -> Seq<char>
    decreases n,
{
    if n < 10 {
        seq![digit_char(n)]
    } else {
        decimal(n / 10).push(digit_char(n % 10))
    }
}

/// The decimal text of a signed number, with a `-` before a negative one.
pub open spec fn signed_decimal(i: int) -> Seq<char> {
    if i < 0 {
        "-"@ + decimal((-i) as nat)
    } else {
        decimal(i as nat)
    }
}

/// The nonce issued after `last` when the clock reads `clock`: the clock
/// reading if it is ahead of `last`, else one more than `last` (which stays
/// at the largest value once there).
pub open spec fn next_nonce(last: u128, clock: u128) -> u128 {
    if clock > last {
        clock
    } else if last < u128::MAX {
        (last + 1) as u128
    } else {
        last
    }
}

/// The nonces issued in turn from `last` for a series of clock readings.
pub open spec fn issued(last: u128, clocks: Seq<u128>) -> Seq<u128>
    decreases clocks.len(),
{
    if clocks.len() == 0 {
        seq![]
    } else {
        let first = next_nonce(last, clocks[0]);
        seq![first] + issued(first, clocks.subrange(1, clocks.len() as int))
    }
}

proof fn lemma_issued_steps(last: u128, clocks: Seq<u128>)
    ensures
        issued(last, clocks).len() == clocks.len(),
        clocks.len() > 0 ==> issued(last, clocks)[0] >= last,
        clocks.len() > 0 && last < u128::MAX ==> issued(last, clocks)[0] > last,
        forall|k: int|
            0 <= k < clocks.len() - 1 ==> #[trigger] issued(last, clocks)[k] <= issued(
                last,
                clocks,
            )[k + 1] && (issued(last, clocks)[k] < u128::MAX ==> issued(last, clocks)[k]
                < issued(last, clocks)[k + 1]),
    decreases clocks.len(),
{
    if clocks.len() > 0 {
        let first = next_nonce(last, clocks[0]);
        let rest = clocks.subrange(1, clocks.len() as int);
        lemma_issued_steps(first, rest);
        let s = issued(last, clocks);
        let t = issued(first, rest);
        assert(s == seq![first] + t);
        assert forall|k: int| 0 <= k < clocks.len() - 1 implies #[trigger] s[k] <= s[k + 1] && (
        s[k] < u128::MAX ==> s[k] < s[k + 1]) by {
            assert(s[k + 1] == t[k]);
            if k > 0 {
                assert(s[k] == t[k - 1]);
            }
        }
    }
}

/// Nonces issued in succession never decrease, whatever the clock reads, and
/// each one is above every nonce before it unless that nonce is already the
/// largest value. Each is above the last nonce before the series, unless
/// that one is the largest value.
pub proof fn lemma_nonces_strictly_increase(last: u128, clocks: Seq<u128>)
    ensures
        issued(last, clocks).len() == clocks.len(),
        forall|i: int|
            0 <= i < clocks.len() && last < u128::MAX ==> issued(last, clocks)[i] > last,
        forall|i: int, j: int|
            0 <= i < j < clocks.len() ==> issued(last, clocks)[i] <= issued(last, clocks)[j],
        forall|i: int, j: int|
            0 <= i < j < clocks.len() && issued(last, clocks)[i] < u128::MAX ==> issued(
                last,
                clocks,
            )[i] < issued(last, clocks)[j],
{
    lemma_issued_steps(last, clocks);
    let s = issued(last, clocks);
    assert forall|i: int, j: int| 0 <= i < j < clocks.len() implies s[i] <= s[j] && (s[i]
        < u128::MAX ==> s[i] < s[j]) by {
        lemma_chain(s, i, j);
    }
    assert forall|i: int| 0 <= i < clocks.len() && last < u128::MAX implies s[i] > last by {
        if i > 0 {
            lemma_chain(s, 0, i);
        }
    }
}

proof fn lemma_chain(s: Seq<u128>, i: int, j: int)
    requires
        0 <= i < j < s.len(),
        forall|k: int|
            0 <= k < s.len() - 1 ==> #[trigger] s[k] <= s[k + 1] && (s[k] < u128::MAX ==> s[k]
                < s[k + 1]),
    ensures
        s[i] <= s[j],
        s[i] < u128::MAX ==> s[i] < s[j],
    decreases j - i,
{
    assert(s[i] <= s[i + 1]);
    if i + 1 < j {
        lemma_chain(s, i + 1, j);
    }
}

/// Relies on `std::time::SystemTime::now`: the microseconds since the UNIX
/// epoch, or zero where the clock stands before it. Nothing is known of the
/// reading.
#[verifier::external_body]
pub(crate) fn clock_micros() -> (r: u128) {
    std::time::SystemTime::now()
        .duration_since(std::time::UNIX_EPOCH)
        .map(|d| d.as_micros())
        .unwrap_or(0)
}

/// The nonce to issue after `last` when the clock reads `clock`.
pub fn nonce_after(last: u128, clock: u128) -> (r: u128)
    ensures
        r == next_nonce(last, clock),
        last < u128::MAX ==> r > last,
{
    if clock > last {
        clock
    } else if last < u128::MAX {
        last + 1
    } else {
        last
    }
}

/// The text of one decimal digit.
fn digit_text(d: u128) -> (r: &'static str)
    requires
        d < 10,
    ensures
        r@ == seq![digit_char(d as nat)],
{
    proof {
        reveal_strlit("0");
        reveal_strlit("1");
        reveal_strlit("2");
        reveal_strlit("3");
        reveal_strlit("4");
        reveal_strlit("5");
        reveal_strlit("6");
        reveal_strlit("7");
        reveal_strlit("8");
        reveal_strlit("9");
    }
    if d == 0 {
        "0"
    } else if d == 1 {
        "1"
    } else if d == 2 {
        "2"
    } else if d == 3 {
        "3"
    } else if d == 4 {
        "4"
    } else if d == 5 {
        "5"
    } else if d == 6 {
        "6"
    } else if d == 7 {
        "7"
    } else if d == 8 {
        "8"
    } else {
        "9"
    }
}

/// Appends the decimal text of `n` to `s`.
pub fn push_decimal(s: &mut String, n: u128)
    ensures
        final(s)@ == old(s)@ + decimal(n as nat),
    decreases n,
{
    if n >= 10 {
        push_decimal(s, n / 10);
    }
    s.append(digit_text(n % 10));
    proof {
        if n >= 10 {
            assert(decimal(n as nat) == decimal((n / 10) as nat).push(digit_char((n % 10) as nat)));
        }
    }
}

/// The decimal text of a signed number.
pub fn signed_decimal_text(i: isize) -> (r: String)
    ensures
        r@ == signed_decimal(i as int),
{
    let mut s = String::new();
    if i < 0 {
        s.append("-");
        let magnitude: u128 = (-(i as i128)) as u128;
        push_decimal(&mut s, magnitude);
    } else {
        push_decimal(&mut s, i as u128);
    }
    s
}

} // verus!

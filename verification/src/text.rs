//! Verified text building blocks shared by the description engine and the
//! matchers: decimal rendering of integers, runs of spaces, and appending a
//! single character to a `String`.

use vstd::prelude::*;
use vstd::string::StringExecFns;

verus! {

/// The decimal digit `d` (for `d < 10`) as a character.
pub open spec fn spec_digit_char(d: nat) -> char {
    if d == 0 {
        '0'
    } else if d == 1 {
        '1'
    } else if d == 2 {
        '2'
    } else if d == 3 {
        '3'
    } else if d == 4 {
        '4'
    } else if d == 5 {
        '5'
    } else if d == 6 {
        '6'
    } else if d == 7 {
        '7'
    } else if d == 8 {
        '8'
    } else {
        '9'
    }
}

/// Number of digits in the decimal representation of `n`.
pub open spec fn spec_digit_count(n: nat) -> nat
    decreases n,
{
    if n < 10 {
        1
    } else {
        1 + spec_digit_count(n / 10)
    }
}

/// The decimal representation of `n`, most significant digit first.
pub open spec fn spec_nat_to_string(n: nat) -> Seq<char>
    decreases n,
{
    if n < 10 {
        seq![spec_digit_char(n)]
    } else {
        spec_nat_to_string(n / 10).push(spec_digit_char(n % 10))
    }
}

/// The decimal representation of `i`, with a leading minus sign when negative.
pub open spec fn spec_int_to_string(i: int) -> Seq<char> {
    if i < 0 {
        seq!['-'] + spec_nat_to_string((-i) as nat)
    } else {
        spec_nat_to_string(i as nat)
    }
}

/// A run of `n` spaces.
pub open spec fn spec_spaces(n: nat) -> Seq<char>
    decreases n,
{
    if n == 0 {
        Seq::empty()
    } else {
        spec_spaces((n - 1) as nat).push(' ')
    }
}

pub open spec fn spec_pow10(k: nat) -> nat
    decreases k,
{
    if k == 0 {
        1
    } else {
        10 * spec_pow10((k - 1) as nat)
    }
}

proof fn lemma_digit_count_below_pow10(n: nat, k: nat)
    requires
        1 <= k,
        n < spec_pow10(k),
    ensures
        spec_digit_count(n) <= k,
    decreases k,
{
    if n < 10 {
    } else {
        assert(spec_pow10(0) == 1);
        assert(spec_pow10(1) == 10);
        assert(k >= 2);
        assert(spec_pow10(k) == 10 * spec_pow10((k - 1) as nat));
        assert(n / 10 < spec_pow10((k - 1) as nat)) by (nonlinear_arith)
            requires
                n < spec_pow10(k),
                spec_pow10(k) == 10 * spec_pow10((k - 1) as nat),
        ;
        lemma_digit_count_below_pow10(n / 10, (k - 1) as nat);
    }
}

/// Any value that fits in a 64-bit machine word has at most 20 decimal digits.
pub proof fn lemma_digit_count_at_most_20(n: nat)
    requires
        n < 0x1_0000_0000_0000_0000,
    ensures
        spec_digit_count(n) <= 20,
{
    assert(spec_pow10(20) == 100000000000000000000) by {
        reveal_with_fuel(spec_pow10, 21);
    }
    lemma_digit_count_below_pow10(n, 20);
}

/// A run of `n` spaces is `n` characters long.
pub proof fn lemma_spaces_len(n: nat)
    ensures
        spec_spaces(n).len() == n,
    decreases n,
{
    if n > 0 {
        lemma_spaces_len((n - 1) as nat);
    }
}

/// The decimal representation of `n` is exactly `spec_digit_count(n)`
/// characters long.
pub proof fn lemma_nat_to_string_len(n: nat)
    ensures
        spec_nat_to_string(n).len() == spec_digit_count(n),
    decreases n,
{
    if n >= 10 {
        lemma_nat_to_string_len(n / 10);
    }
}

/// Digit counts never decrease as the value grows.
pub proof fn lemma_digit_count_monotone(a: nat, b: nat)
    requires
        a <= b,
    ensures
        spec_digit_count(a) <= spec_digit_count(b),
    decreases b,
{
    if b >= 10 && a >= 10 {
        lemma_digit_count_monotone(a / 10, b / 10);
    }
}

/// Number of digits in the decimal representation of `n`.
pub fn digit_count(n: usize) -> (d: usize)
    ensures
        d == spec_digit_count(n as nat),
    decreases n,
{
    if n < 10 {
        1
    } else {
        proof {
            lemma_digit_count_at_most_20(n as nat);
        }
        digit_count(n / 10) + 1
    }
}

/// The decimal digit `d` (for `d < 10`) as a string slice.
pub fn digit_str(d: usize) -> (s: &'static str)
    requires
        d < 10,
    ensures
        s@ == seq![spec_digit_char(d as nat)],
{
    proof {
        reveal_strlit("0");
        reveal_strlit("1");
        reveal_strlit("2");
        reveal_strlit("3");
        reveal_strlit("4");
        reveal_strlit("5");
        reveal_strlit("6");
        reveal_strlit("7");
        reveal_strlit("8");
        reveal_strlit("9");
    }
    let s: &'static str = if d == 0 {
        "0"
    } else if d == 1 {
        "1"
    } else if d == 2 {
        "2"
    } else if d == 3 {
        "3"
    } else if d == 4 {
        "4"
    } else if d == 5 {
        "5"
    } else if d == 6 {
        "6"
    } else if d == 7 {
        "7"
    } else if d == 8 {
        "8"
    } else {
        "9"
    };
    proof {
        assert(s@ =~= seq![spec_digit_char(d as nat)]);
    }
    s
}

/// The decimal representation of `n`.
pub fn u64_to_string(n: u64) -> (s: String)
    ensures
        s@ == spec_nat_to_string(n as nat),
    decreases n,
{
    if n < 10 {
        let s = digit_str(n as usize).to_owned();
        proof {
            assert(s@ =~= spec_nat_to_string(n as nat));
        }
        s
    } else {
        let mut s = u64_to_string(n / 10);
        s.append(digit_str((n % 10) as usize));
        proof {
            assert(s@ =~= spec_nat_to_string(n as nat));
        }
        s
    }
}

/// The decimal representation of `n`.
pub fn usize_to_string(n: usize) -> (s: String)
    ensures
        s@ == spec_nat_to_string(n as nat),
{
    u64_to_string(n as u64)
}

/// The decimal representation of `v`, with a leading minus sign when negative.
pub fn i64_to_string(v: i64) -> (s: String)
    ensures
        s@ == spec_int_to_string(v as int),
{
    if v >= 0 {
        u64_to_string(v as u64)
    } else {
        let mag: u64 = (-(v as i128)) as u64;
        let mut s = String::from_str("-");
        let digits = u64_to_string(mag);
        s.append(digits.as_str());
        proof {
            reveal_strlit("-");
            assert(s@ =~= spec_int_to_string(v as int));
        }
        s
    }
}

/// Appends `n` spaces to `s`.
pub fn append_spaces(s: &mut String, n: usize)
    ensures
        final(s)@ == old(s)@ + spec_spaces(n as nat),
{
    let mut i: usize = 0;
    while i < n
        invariant
            i <= n,
            s@ == old(s)@ + spec_spaces(i as nat),
        decreases n - i,
    {
        s.append(" ");
        proof {
            reveal_strlit(" ");
            assert(spec_spaces((i + 1) as nat) =~= spec_spaces(i as nat) + seq![' ']);
        }
        i += 1;
    }
    proof {
        assert(s@ =~= old(s)@ + spec_spaces(n as nat));
    }
}

/// A run of `n` spaces.
pub fn spaces_string(n: usize) -> (s: String)
    ensures
        s@ == spec_spaces(n as nat),
{
    let mut s = String::new();
    append_spaces(&mut s, n);
    proof {
        assert(s@ =~= spec_spaces(n as nat));
    }
    s
}

/// Relies on `String::push` from std: appends the given character to the end
/// of the string.
#[verifier::external_body]
pub(crate) fn push_char(s: &mut String, c: char)
    ensures
        final(s)@ == old(s)@ + seq![c],
{
    s.push(c);
}

} // verus!

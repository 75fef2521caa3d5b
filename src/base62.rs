//! Base-62 encoding of 64-bit identifiers over the alphabet `0-9A-Za-z`,
//! most significant digit first, without padding.
use crate::text::{chars_of, string_of};
use vstd::prelude::*;

verus! {

/// Why a string is not the base-62 form of a 64-bit identifier.
#[derive(Debug, Clone, Copy, PartialEq, Eq)]
pub enum DecodeError {
    /// The string holds a character outside the alphabet.
    InvalidCharacter(char),
    /// The digits are valid but their value does not fit in 64 bits.
    Overflow,
}

/// The value of one alphabet character, or -1 for any other character.
pub open spec fn digit_value(c: char) -> int {
    let u = c as u32 as int;
    if 48 <= u <= 57 {
        u - 48
    } else if 65 <= u <= 90 {
        u - 55
    } else if 97 <= u <= 122 {
        u - 61
    } else {
        -1
    }
}

pub open spec fn is_digit(c: char) -> bool {
    digit_value(c) >= 0
}

/// The alphabet character of a value below 62.
pub open spec fn digit_char(d: nat) -> char {
    if d < 10 {
        (d + 48) as u8 as char
    } else if d < 36 {
        (d + 55) as u8 as char
    } else {
        (d + 61) as u8 as char
    }
}

pub open spec fn all_digits(s: Seq<char>) -> bool {
    forall|i: int| 0 <= i < s.len() ==> is_digit(#[trigger] s[i])
}

/// The number that a string of digits denotes, most significant first.
pub open spec fn value_of(s: Seq<char>) -> int
    decreases s.len(),
{
    if s.len() == 0 {
        0
    } else {
        value_of(s.drop_last()) * 62 + digit_value(s.last())
    }
}

/// The shortest digit string of `n`: `"0"` for zero, else no leading zero.
pub open spec fn digits_of(n: nat) -> Seq<char>
    decreases n,
{
    if n < 62 {
        seq![digit_char(n)]
    } else {
        digits_of(n / 62).push(digit_char(n % 62))
    }
}

proof fn lemma_digit_char(d: nat)
    requires
        d < 62,
    ensures
        digit_value(digit_char(d)) == d,
{
}

proof fn lemma_digits_of(n: nat)
    ensures
        all_digits(digits_of(n)),
        value_of(digits_of(n)) == n,
        digits_of(n).len() >= 1,
    decreases n,
{
    lemma_digit_char(n % 62);
    if n < 62 {
        lemma_digit_char(n);
        assert(digits_of(n).drop_last() =~= Seq::<char>::empty());
        assert(value_of(Seq::<char>::empty()) == 0);
        assert(value_of(digits_of(n)) == value_of(digits_of(n).drop_last()) * 62 + digit_value(digits_of(n).last()));
    } else {
        lemma_digits_of(n / 62);
        let s = digits_of(n);
        assert(s.drop_last() =~= digits_of(n / 62));
        assert(s.last() == digit_char(n % 62));
        assert(value_of(s) == value_of(s.drop_last()) * 62 + digit_value(s.last()));
        assert(n == (n / 62) * 62 + n % 62);
        assert forall|i: int| 0 <= i < s.len() implies is_digit(#[trigger] s[i]) by {
            if i < s.len() - 1 {
                assert(s[i] == digits_of(n / 62)[i]);
            }
        }
    }
}

/// Prefix values never decrease as a digit string grows.
proof fn lemma_value_monotone(s: Seq<char>, i: int, j: int)
    requires
        0 <= i <= j <= s.len(),
        all_digits(s),
    ensures
        0 <= value_of(s.take(i)) <= value_of(s.take(j)),
    decreases j - i,
{
    if i < j {
        lemma_value_monotone(s, i, j - 1);
        assert(s.take(j).drop_last() =~= s.take(j - 1));
        assert(is_digit(s[j - 1]));
        lemma_value_nonneg(s.take(j - 1));
    } else {
        lemma_value_nonneg(s.take(i));
    }
}

proof fn lemma_value_nonneg(s: Seq<char>)
    requires
        all_digits(s),
    ensures
        value_of(s) >= 0,
    decreases s.len(),
{
    if s.len() > 0 {
        assert(all_digits(s.drop_last()));
        lemma_value_nonneg(s.drop_last());
        assert(is_digit(s[s.len() - 1]));
    }
}

fn digit_char_exec(d: u64) -> (c: char)
    requires
        d < 62,
    ensures
        c == digit_char(d as nat),
{
    if d < 10 {
        (d as u8 + 48) as char
    } else if d < 36 {
        (d as u8 + 55) as char
    } else {
        (d as u8 + 61) as char
    }
}

fn digit_value_exec(c: char) -> (r: Option<u64>)
    ensures
        r is Some <==> is_digit(c),
        r is Some ==> r->0 == digit_value(c),
{
    let u = c as u32;
    if 48 <= u && u <= 57 {
        Some((u - 48) as u64)
    } else if 65 <= u && u <= 90 {
        Some((u - 55) as u64)
    } else if 97 <= u && u <= 122 {
        Some((u - 61) as u64)
    } else {
        None
    }
}

fn push_digits(n: u64, out: &mut Vec<char>)
    ensures
        final(out)@ == old(out)@ + digits_of(n as nat),
    decreases n,
{
    if n >= 62 {
        push_digits(n / 62, out);
    }
    out.push(digit_char_exec(n % 62));
    proof {
        if n >= 62 {
            assert(digits_of(n as nat) == digits_of((n / 62) as nat).push(digit_char((n % 62) as nat)));
        }
    }
    assert(final(out)@ =~= old(out)@ + digits_of(n as nat));
}

/// Decoding undoes encoding: the digits of any 64-bit value are all in the
/// alphabet and denote that value, so `decode(&encode(v)) == Ok(v)`.
pub proof fn lemma_round_trip(v: u64)
    ensures
        all_digits(digits_of(v as nat)),
        value_of(digits_of(v as nat)) == v,
{
    lemma_digits_of(v as nat);
}

/// The base-62 form of `n`.
pub fn encode(n: u64) -> (r: String)
    ensures
        r@ == digits_of(n as nat),
        all_digits(r@),
        value_of(r@) == n,
{
    let mut out: Vec<char> = Vec::new();
    push_digits(n, &mut out);
    assert(out@ =~= digits_of(n as nat));
    proof {
        lemma_digits_of(n as nat);
    }
    string_of(out)
}

/// The identifier that a base-62 string denotes. A character outside the
/// alphabet is reported before a value too large for 64 bits; the empty
/// string denotes zero.
pub fn decode(s: &str) -> (r: Result<u64, DecodeError>)
    ensures
        r is Ok <==> all_digits(s@) && value_of(s@) <= u64::MAX,
        r is Ok ==> r->Ok_0 == value_of(s@),
        r == Err::<u64, DecodeError>(DecodeError::Overflow) <==> all_digits(s@) && value_of(s@) > u64::MAX,
        !all_digits(s@) ==> (r matches Err(DecodeError::InvalidCharacter(c)) && s@.contains(c) && !is_digit(c)),
{
    let cs = chars_of(s);
    let n = cs.len();
    let mut i: usize = 0;
    while i < n
        invariant
            n == cs@.len(),
            cs@ == s@,
            i <= n,
            forall|k: int| 0 <= k < i ==> is_digit(#[trigger] cs@[k]),
        decreases n - i,
    {
        let c = cs[i];
        if digit_value_exec(c).is_none() {
            assert(s@[i as int] == c);
            return Err(DecodeError::InvalidCharacter(c));
        }
        i = i + 1;
    }
    assert(all_digits(s@));
    let mut acc: u64 = 0;
    let mut j: usize = 0;
    while j < n
        invariant
            n == cs@.len(),
            cs@ == s@,
            j <= n,
            all_digits(s@),
            acc == value_of(s@.take(j as int)),
        decreases n - j,
    {
        let d = digit_value_exec(cs[j]).unwrap();
        assert(s@.take(j + 1).drop_last() =~= s@.take(j as int));
        assert(value_of(s@.take(j + 1)) == acc * 62 + d);
        if acc > (u64::MAX - d) / 62 {
            assert(acc * 62 + d > u64::MAX) by (nonlinear_arith)
                requires
                    acc > (u64::MAX - d) / 62,
                    d < 62,
            ;
            proof {
                lemma_value_monotone(s@, j + 1, n as int);
                assert(s@.take(n as int) =~= s@);
            }
            return Err(DecodeError::Overflow);
        }
        assert(acc * 62 + d <= u64::MAX) by (nonlinear_arith)
            requires
                acc <= (u64::MAX - d) / 62,
                d < 62,
        ;
        acc = acc * 62 + d;
        j = j + 1;
    }
    assert(s@.take(n as int) =~= s@);
    Ok(acc)
}

} // verus!

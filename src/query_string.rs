//! `application/x-www-form-urlencoded` text: percent-encoding of values,
//! decimal numbers, and `key=value` pairs joined by `&`.
use vstd::prelude::*;
use vstd::utf8::encode_utf8;

verus! {

/// Bytes that stand for themselves: ASCII letters and digits and `*-._`.
pub open spec fn is_unreserved(b: u8) -> bool {
    (48 <= b <= 57) || (65 <= b <= 90) || (97 <= b <= 122) || b == 42 || b == 45 || b == 46
        || b == 95
}

/// An uppercase hexadecimal digit of a value below 16.
pub open spec fn hex_digit(d: nat) -> char {
    if d < 10 {
        (d + 48) as u8 as char
    } else {
        (d + 55) as u8 as char
    }
}

/// One byte, encoded: itself, `+` for a space, else `%XX`.
pub open spec fn encode_byte(b: u8) -> Seq<char> {
    if is_unreserved(b) {
        seq![b as char]
    } else if b == 32 {
        seq!['+']
    } else {
        seq!['%', hex_digit((b / 16) as nat), hex_digit((b % 16) as nat)]
    }
}

pub open spec fn form_encode(bs: Seq<u8>) -> Seq<char>
    decreases bs.len(),
{
    if bs.len() == 0 {
        Seq::empty()
    } else {
        form_encode(bs.drop_last()) + encode_byte(bs.last())
    }
}

/// The decimal digits of `n`, without leading zeros (`"0"` for zero).
pub open spec fn decimal(n: nat) -> Seq<char>
    decreases n,
{
    if n < 10 {
        seq![(n + 48) as u8 as char]
    } else {
        decimal(n / 10).push((n % 10 + 48) as u8 as char)
    }
}

/// One `key=value` pair, the value percent-encoded over its UTF-8 bytes.
pub open spec fn pair_text(key: Seq<char>, value: Seq<char>) -> Seq<char> {
    key + "="@ + form_encode(encode_utf8(value))
}

/// Pairs joined by `&`.
pub open spec fn join_pairs(ps: Seq<Seq<char>>) -> Seq<char>
    decreases ps.len(),
{
    if ps.len() == 0 {
        Seq::empty()
    } else if ps.len() == 1 {
        ps[0]
    } else {
        join_pairs(ps.drop_last()) + "&"@ + ps.last()
    }
}

pub proof fn lemma_join_len(ps: Seq<Seq<char>>)
    requires
        ps.len() > 0,
    ensures
        join_pairs(ps).len() >= ps[0].len(),
    decreases ps.len(),
{
    if ps.len() > 1 {
        lemma_join_len(ps.drop_last());
    }
}

fn hex_digit_exec(d: u8) -> (c: char)
    requires
        d < 16,
    ensures
        c == hex_digit(d as nat),
{
    if d < 10 {
        (d + 48) as char
    } else {
        (d + 55) as char
    }
}

fn push_encoded_byte(out: &mut Vec<char>, b: u8)
    ensures
        final(out)@ == old(out)@ + encode_byte(b),
{
    let keep = (48 <= b && b <= 57) || (65 <= b && b <= 90) || (97 <= b && b <= 122) || b == 42
        || b == 45 || b == 46 || b == 95;
    if keep {
        out.push(b as char);
    } else if b == 32 {
        out.push('+');
    } else {
        out.push('%');
        out.push(hex_digit_exec(b / 16));
        out.push(hex_digit_exec(b % 16));
    }
    assert(final(out)@ =~= old(out)@ + encode_byte(b));
}

/// Appends the percent-encoded UTF-8 bytes of `s`.
pub(crate) fn push_form_encoded(out: &mut Vec<char>, s: &str)
    ensures
        final(out)@ == old(out)@ + form_encode(encode_utf8(s@)),
{
    let bs = s.as_bytes();
    let ghost start = out@;
    let mut i: usize = 0;
    while i < bs.len()
        invariant
            bs@ == encode_utf8(s@),
            i <= bs@.len(),
            out@ == start + form_encode(bs@.take(i as int)),
        decreases bs@.len() - i,
    {
        push_encoded_byte(out, bs[i]);
        proof {
            assert(bs@.take(i + 1).drop_last() =~= bs@.take(i as int));
            assert(out@ =~= start + form_encode(bs@.take(i + 1)));
        }
        i = i + 1;
    }
    assert(bs@.take(bs@.len() as int) =~= bs@);
}

/// The form encoding of a value: its UTF-8 bytes, each kept, turned into
/// `+` or written as `%XX`.
pub fn form_urlencode(s: &str) -> (r: String)
    ensures
        r@ == form_encode(encode_utf8(s@)),
{
    let mut out: Vec<char> = Vec::new();
    push_form_encoded(&mut out, s);
    assert(out@ =~= form_encode(encode_utf8(s@)));
    crate::text::string_of(out)
}

/// Appends the decimal digits of `n`.
pub(crate) fn push_decimal(out: &mut Vec<char>, n: usize)
    ensures
        final(out)@ == old(out)@ + decimal(n as nat),
    decreases n,
{
    if n >= 10 {
        push_decimal(out, n / 10);
    }
    out.push(((n % 10) as u8 + 48) as char);
    proof {
        if n >= 10 {
            assert(decimal(n as nat) == decimal((n / 10) as nat).push(((n % 10) as nat + 48) as u8 as char));
        }
    }
    assert(final(out)@ =~= old(out)@ + decimal(n as nat));
}

/// Appends the characters of `s`.
pub(crate) fn push_str(out: &mut Vec<char>, s: &str)
    ensures
        final(out)@ == old(out)@ + s@,
{
    let mut cs = crate::text::chars_of(s);
    out.append(&mut cs);
}

/// Appends one more pair to a query of `pairs`.
pub(crate) fn push_pair(
    out: &mut Vec<char>,
    Ghost(pairs): Ghost<Seq<Seq<char>>>,
    first: bool,
    key: &str,
    value: &str,
)
    requires
        old(out)@ == join_pairs(pairs),
        first == (pairs.len() == 0),
    ensures
        final(out)@ == join_pairs(pairs.push(pair_text(key@, value@))),
{
    let ghost p = pairs.push(pair_text(key@, value@));
    assert(p.drop_last() =~= pairs);
    if !first {
        push_str(out, "&");
    }
    push_str(out, key);
    push_str(out, "=");
    push_form_encoded(out, value);
    proof {
        if pairs.len() == 0 {
            assert(old(out)@ =~= Seq::<char>::empty());
            assert(final(out)@ =~= join_pairs(p));
        } else {
            assert(join_pairs(p) == join_pairs(pairs) + "&"@ + p.last());
            assert(final(out)@ =~= join_pairs(p));
        }
    }
}

} // verus!

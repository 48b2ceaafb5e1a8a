//! Decimal rendering of the numbers that appear in cache file names and
//! endpoint URLs, together with the injectivity facts the path resolver
//! needs: two different numbers never render to the same digits.

use vstd::prelude::*;

verus! {

use vstd::arithmetic::div_mod::{lemma_div_denominator, lemma_fundamental_div_mod};

/// The character for one decimal digit.
pub open spec fn spec_digit(d: int) -> char {
    if d == 0 {
        '0'
    } else if d == 1 {
        '1'
    } else if d == 2 {
        '2'
    } else if d == 3 {
        '3'
    } else if d == 4 {
        '4'
    } else if d == 5 {
        '5'
    } else if d == 6 {
        '6'
    } else if d == 7 {
        '7'
    } else if d == 8 {
        '8'
    } else {
        '9'
    }
}

/// A number rendered as exactly two digits, zero padded (modulo 100).
pub open spec fn spec_pad2(n: int) -> Seq<char> {
    seq![spec_digit((n / 10) % 10), spec_digit(n % 10)]
}

/// A number rendered as exactly four digits, zero padded (modulo 10000).
pub open spec fn spec_pad4(n: int) -> Seq<char> {
    seq![
        spec_digit((n / 1000) % 10),
        spec_digit((n / 100) % 10),
        spec_digit((n / 10) % 10),
        spec_digit(n % 10),
    ]
}

/// A non-negative number rendered without padding, as `{}` renders it.
pub open spec fn spec_dec(n: int) -> Seq<char>
    decreases n,
{
    if n < 10 {
        seq![spec_digit(n)]
    } else {
        spec_dec(n / 10).push(spec_digit(n % 10))
    }
}

/// Appends the character of one digit.
pub fn push_digit(s: &mut String, d: u8)
    requires
        d < 10,
    ensures
        final(s)@ == old(s)@ + seq![spec_digit(d as int)],
{
    let t: &'static str = if d == 0 {
        "0"
    } else if d == 1 {
        "1"
    } else if d == 2 {
        "2"
    } else if d == 3 {
        "3"
    } else if d == 4 {
        "4"
    } else if d == 5 {
        "5"
    } else if d == 6 {
        "6"
    } else if d == 7 {
        "7"
    } else if d == 8 {
        "8"
    } else {
        "9"
    };
    proof {
        reveal_strlit("0");
        reveal_strlit("1");
        reveal_strlit("2");
        reveal_strlit("3");
        reveal_strlit("4");
        reveal_strlit("5");
        reveal_strlit("6");
        reveal_strlit("7");
        reveal_strlit("8");
        reveal_strlit("9");
        assert(t@ =~= seq![spec_digit(d as int)]);
    }
    s.append(t);
}

/// Appends a number below 100 as two zero-padded digits.
pub fn push_pad2(s: &mut String, n: u8)
    ensures
        final(s)@ == old(s)@ + spec_pad2(n as int),
{
    push_digit(s, (n / 10) % 10);
    push_digit(s, n % 10);
    proof {
        assert(final(s)@ =~= old(s)@ + spec_pad2(n as int));
    }
}

/// Appends a number below 10000 as four zero-padded digits.
pub fn push_pad4(s: &mut String, n: u16)
    ensures
        final(s)@ == old(s)@ + spec_pad4(n as int),
{
    push_digit(s, ((n / 1000) % 10) as u8);
    push_digit(s, ((n / 100) % 10) as u8);
    push_digit(s, ((n / 10) % 10) as u8);
    push_digit(s, (n % 10) as u8);
    proof {
        assert(final(s)@ =~= old(s)@ + spec_pad4(n as int));
    }
}

/// Appends a number without padding, as `{}` renders it.
pub fn push_dec_u32(s: &mut String, n: u32)
    ensures
        final(s)@ == old(s)@ + spec_dec(n as int),
    decreases n,
{
    if n < 10 {
        push_digit(s, n as u8);
    } else {
        push_dec_u32(s, n / 10);
        push_digit(s, (n % 10) as u8);
        proof {
            assert(final(s)@ =~= old(s)@ + spec_dec(n as int));
        }
    }
}

/// Appends a wide number without padding, as `{}` renders it.
pub fn push_dec_u64(s: &mut String, n: u64)
    ensures
        final(s)@ == old(s)@ + spec_dec(n as int),
    decreases n,
{
    if n < 10 {
        push_digit(s, n as u8);
    } else {
        push_dec_u64(s, n / 10);
        push_digit(s, (n % 10) as u8);
        proof {
            assert(final(s)@ =~= old(s)@ + spec_dec(n as int));
        }
    }
}

/// A signed number rendered as `{}` renders it: a minus sign for negative
/// values, nothing for the rest.
pub open spec fn spec_dec_i32(n: int) -> Seq<char> {
    if n < 0 {
        seq!['-'] + spec_dec(-n)
    } else {
        spec_dec(n)
    }
}

/// A signed number rendered as `{:+}` renders it: always with a sign.
pub open spec fn spec_dec_i32_signed(n: int) -> Seq<char> {
    if n < 0 {
        seq!['-'] + spec_dec(-n)
    } else {
        seq!['+'] + spec_dec(n)
    }
}

/// Appends a signed number, with a minus sign where needed.
pub fn push_dec_i32(s: &mut String, n: i32)
    ensures
        final(s)@ == old(s)@ + spec_dec_i32(n as int),
{
    let wide: i64 = n as i64;
    if wide < 0 {
        s.append("-");
        push_dec_u32(s, (-wide) as u32);
        proof {
            reveal_strlit("-");
            assert(final(s)@ =~= old(s)@ + spec_dec_i32(n as int));
        }
    } else {
        push_dec_u32(s, n as u32);
    }
}

/// Appends a signed number, always with a sign.
pub fn push_dec_i32_signed(s: &mut String, n: i32)
    ensures
        final(s)@ == old(s)@ + spec_dec_i32_signed(n as int),
{
    let wide: i64 = n as i64;
    if wide < 0 {
        s.append("-");
        push_dec_u32(s, (-wide) as u32);
    } else {
        s.append("+");
        push_dec_u32(s, n as u32);
    }
    proof {
        reveal_strlit("-");
        reveal_strlit("+");
        assert(final(s)@ =~= old(s)@ + spec_dec_i32_signed(n as int));
    }
}

/// Two equal concatenations with equally long heads have equal heads and
/// equal tails.
pub proof fn lemma_concat_split<A>(a1: Seq<A>, b1: Seq<A>, a2: Seq<A>, b2: Seq<A>)
    requires
        a1 + b1 == a2 + b2,
        a1.len() == a2.len(),
    ensures
        a1 == a2,
        b1 == b2,
{
    broadcast use vstd::seq_lib::group_seq_properties;

    assert((a1 + b1).take(a1.len() as int) =~= a1);
    assert((a2 + b2).take(a2.len() as int) =~= a2);
    assert((a1 + b1).skip(a1.len() as int) =~= b1);
    assert((a2 + b2).skip(a2.len() as int) =~= b2);
}

/// The views of a list of strings.
pub open spec fn spec_views(parts: Seq<String>) -> Seq<Seq<char>> {
    parts.map_values(|s: String| s@)
}

/// The parts joined with the separator between neighbours.
pub open spec fn spec_join(parts: Seq<Seq<char>>, sep: Seq<char>) -> Seq<char>
    decreases parts.len(),
{
    if parts.len() == 0 {
        Seq::empty()
    } else if parts.len() == 1 {
        parts[0]
    } else {
        spec_join(parts.drop_last(), sep) + sep + parts.last()
    }
}

/// Joins the parts with the separator between neighbours.
pub fn join_with(parts: &Vec<String>, sep: &str) -> (r: String)
    ensures
        r@ == spec_join(spec_views(parts@), sep@),
{
    let ghost views = spec_views(parts@);
    let mut r = String::new();
    let mut i: usize = 0;
    while i < parts.len()
        invariant
            i <= parts.len(),
            views == spec_views(parts@),
            r@ == spec_join(views.subrange(0, i as int), sep@),
        decreases parts.len() - i,
    {
        if i > 0 {
            r.append(sep);
        }
        r.append(parts[i].as_str());
        i += 1;
        proof {
            let pre = views.subrange(0, i - 1);
            let post = views.subrange(0, i as int);
            assert(post.drop_last() =~= pre);
            assert(post.last() == views[i - 1]);
            if i > 1 {
                assert(r@ =~= spec_join(post, sep@));
            } else {
                assert(r@ =~= views[0]);
                assert(r@ =~= spec_join(post, sep@));
            }
        }
    }
    proof {
        assert(views.subrange(0, parts@.len() as int) =~= views);
    }
    r
}

/// Two digits with the same character are the same digit.
pub proof fn lemma_digit_inj(a: int, b: int)
    requires
        0 <= a < 10,
        0 <= b < 10,
        spec_digit(a) == spec_digit(b),
    ensures
        a == b,
{
}

/// Digit characters lie between `'0'` and `'9'`; in particular none of them
/// is `'#'`.
pub proof fn lemma_digit_range(d: int)
    requires
        0 <= d < 10,
    ensures
        '0' <= spec_digit(d) <= '9',
        spec_digit(d) != '#',
{
}

/// Two-digit rendering is injective below 100.
pub proof fn lemma_pad2_inj(a: int, b: int)
    requires
        0 <= a < 100,
        0 <= b < 100,
        spec_pad2(a) == spec_pad2(b),
    ensures
        a == b,
{
    assert(spec_pad2(a)[0] == spec_pad2(b)[0]);
    assert(spec_pad2(a)[1] == spec_pad2(b)[1]);
    lemma_digit_inj((a / 10) % 10, (b / 10) % 10);
    lemma_digit_inj(a % 10, b % 10);
    lemma_fundamental_div_mod(a, 10);
    lemma_fundamental_div_mod(b, 10);
}

/// Four-digit rendering is injective below 10000.
pub proof fn lemma_pad4_inj(a: int, b: int)
    requires
        0 <= a < 10000,
        0 <= b < 10000,
        spec_pad4(a) == spec_pad4(b),
    ensures
        a == b,
{
    assert(spec_pad4(a)[0] == spec_pad4(b)[0]);
    assert(spec_pad4(a)[1] == spec_pad4(b)[1]);
    assert(spec_pad4(a)[2] == spec_pad4(b)[2]);
    assert(spec_pad4(a)[3] == spec_pad4(b)[3]);
    lemma_digit_inj((a / 1000) % 10, (b / 1000) % 10);
    lemma_digit_inj((a / 100) % 10, (b / 100) % 10);
    lemma_digit_inj((a / 10) % 10, (b / 10) % 10);
    lemma_digit_inj(a % 10, b % 10);
    lemma_div_denominator(a, 100, 10);
    lemma_div_denominator(b, 100, 10);
    lemma_div_denominator(a, 10, 10);
    lemma_div_denominator(b, 10, 10);
    lemma_fundamental_div_mod(a / 100, 10);
    lemma_fundamental_div_mod(b / 100, 10);
    lemma_fundamental_div_mod(a / 10, 10);
    lemma_fundamental_div_mod(b / 10, 10);
    lemma_fundamental_div_mod(a, 10);
    lemma_fundamental_div_mod(b, 10);
}

/// The unpadded rendering never is empty.
pub proof fn lemma_dec_len(n: int)
    ensures
        spec_dec(n).len() >= 1,
    decreases n,
{
    if n >= 10 {
        lemma_dec_len(n / 10);
    }
}

/// Unpadded rendering is injective over the non-negative numbers.
pub proof fn lemma_dec_inj(a: int, b: int)
    requires
        0 <= a,
        0 <= b,
        spec_dec(a) == spec_dec(b),
    ensures
        a == b,
    decreases a,
{
    lemma_dec_len(a);
    lemma_dec_len(b);
    if a < 10 && b < 10 {
        assert(spec_dec(a)[0] == spec_digit(a));
        assert(spec_dec(b)[0] == spec_digit(b));
        lemma_digit_inj(a, b);
    } else if a < 10 {
        lemma_dec_len(b / 10);
        assert(spec_dec(b).len() >= 2);
    } else if b < 10 {
        lemma_dec_len(a / 10);
        assert(spec_dec(a).len() >= 2);
    } else {
        assert(spec_dec(a).last() == spec_digit(a % 10));
        assert(spec_dec(b).last() == spec_digit(b % 10));
        lemma_digit_inj(a % 10, b % 10);
        assert(spec_dec(a).drop_last() =~= spec_dec(a / 10));
        assert(spec_dec(b).drop_last() =~= spec_dec(b / 10));
        lemma_dec_inj(a / 10, b / 10);
        lemma_fundamental_div_mod(a, 10);
        lemma_fundamental_div_mod(b, 10);
    }
}

/// The first character of an unpadded rendering is a digit, never `'#'`.
pub proof fn lemma_dec_first_is_digit(n: int)
    requires
        0 <= n,
    ensures
        spec_dec(n).len() >= 1,
        '0' <= spec_dec(n)[0] <= '9',
        spec_dec(n)[0] != '#',
    decreases n,
{
    lemma_dec_len(n);
    if n < 10 {
        lemma_digit_range(n);
    } else {
        lemma_dec_first_is_digit(n / 10);
        lemma_dec_len(n / 10);
    }
}

} // verus!

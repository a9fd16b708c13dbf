//! Text building helpers: decimal rendering of fixed-point quantities and
//! template-marker replacement.

use vstd::prelude::*;

verus! {

/// The character of one decimal digit.
pub open spec fn digit_char(d: nat) -> char {
    if d == 0 {
        '0'
    } else if d == 1 {
        '1'
    } else if d == 2 {
        '2'
    } else if d == 3 {
        '3'
    } else if d == 4 {
        '4'
    } else if d == 5 {
        '5'
    } else if d == 6 {
        '6'
    } else if d == 7 {
        '7'
    } else if d == 8 {
        '8'
    } else {
        '9'
    }
}

/// The decimal digits of `n`, most significant first.
pub open spec fn dec_digits(n: nat) -> Seq<char>
    decreases n,
{
    if n < 10 {
        seq![digit_char(n)]
    } else {
        dec_digits(n / 10).push(digit_char(n % 10))
    }
}

/// A tenths quantity the way the game displays it: the integer part, then
/// the fractional digit only when it is nonzero ("5", "2.5").
pub open spec fn dec_tenths(t: nat) -> Seq<char> {
    if t % 10 == 0 {
        dec_digits(t / 10)
    } else {
        dec_digits(t / 10) + seq!['.', digit_char(t % 10)]
    }
}

/// A tenths quantity with the fractional digit always shown ("5.0", "2.5").
pub open spec fn dec_tenths_fixed(t: nat) -> Seq<char> {
    dec_digits(t / 10) + seq!['.', digit_char(t % 10)]
}

/// `s` with every occurrence of `from` replaced by `to`, scanning left to
/// right.
pub open spec fn replace_seq(s: Seq<char>, from: Seq<char>, to: Seq<char>) -> Seq<char>
    decreases s.len(),
    when from.len() >= 1
{
    if s.len() < from.len() {
        s
    } else if s.subrange(0, from.len() as int) == from {
        to + replace_seq(s.skip(from.len() as int), from, to)
    } else {
        seq![s[0]] + replace_seq(s.drop_first(), from, to)
    }
}

/// Relies on String::push: appends exactly the given character.
#[verifier::external_body]
pub fn push_char(s: &mut String, c: char)
    ensures
        final(s)@ == old(s)@.push(c),
{
    s.push(c)
}

/// The character of one decimal digit.
pub fn digit_to_char(d: u64) -> (c: char)
    requires
        d < 10,
    ensures
        c == digit_char(d as nat),
{
    match d {
        0 => '0',
        1 => '1',
        2 => '2',
        3 => '3',
        4 => '4',
        5 => '5',
        6 => '6',
        7 => '7',
        8 => '8',
        _ => '9',
    }
}

/// Renders `n` in decimal.
pub fn u64_to_dec(n: u64) -> (r: String)
    ensures
        r@ == dec_digits(n as nat),
    decreases n,
{
    if n < 10 {
        let mut s = String::new();
        push_char(&mut s, digit_to_char(n));
        proof {
            assert(s@ =~= seq![digit_char(n as nat)]);
        }
        s
    } else {
        let mut s = u64_to_dec(n / 10);
        push_char(&mut s, digit_to_char(n % 10));
        s
    }
}

/// Renders a tenths quantity the way the game displays it ("5", "2.5").
pub fn tenths_to_dec(t: u64) -> (r: String)
    ensures
        r@ == dec_tenths(t as nat),
{
    let mut s = u64_to_dec(t / 10);
    if t % 10 != 0 {
        push_char(&mut s, '.');
        push_char(&mut s, digit_to_char(t % 10));
        proof {
            assert(s@ =~= dec_digits((t / 10) as nat) + seq!['.', digit_char((t % 10) as nat)]);
        }
    }
    s
}

/// Renders a tenths quantity with one forced decimal place ("5.0", "2.5").
pub fn tenths_to_dec_fixed(t: u64) -> (r: String)
    ensures
        r@ == dec_tenths_fixed(t as nat),
{
    let mut s = u64_to_dec(t / 10);
    push_char(&mut s, '.');
    push_char(&mut s, digit_to_char(t % 10));
    proof {
        assert(s@ =~= dec_digits((t / 10) as nat) + seq!['.', digit_char((t % 10) as nat)]);
    }
    s
}

/// True if `from` stands in `s` at position `i`.
fn matches_at(s: &str, from: &str, i: usize) -> (r: bool)
    requires
        i + from@.len() <= s@.len(),
    ensures
        r == (s@.subrange(i as int, i + from@.len()) == from@),
{
    let n = s.unicode_len();
    let m = from.unicode_len();
    let mut j: usize = 0;
    while j < m
        invariant
            j <= m,
            m == from@.len(),
            n == s@.len(),
            i + m <= s@.len(),
            forall|k: int| 0 <= k < j ==> s@[i + k] == from@[k],
        decreases m - j,
    {
        if s.get_char(i + j) != from.get_char(j) {
            proof {
                assert(s@.subrange(i as int, i + from@.len())[j as int] != from@[j as int]);
            }
            return false;
        }
        j = j + 1;
    }
    proof {
        assert(s@.subrange(i as int, i + from@.len()) =~= from@);
    }
    true
}

/// `s` with every occurrence of `from` replaced by `to`, scanning left to
/// right.
pub fn replace_str(s: &str, from: &str, to: &str) -> (r: String)
    requires
        from@.len() >= 1,
    ensures
        r@ == replace_seq(s@, from@, to@),
{
    let n = s.unicode_len();
    let m = from.unicode_len();
    let mut out = String::new();
    let mut i: usize = 0;
    proof {
        assert(s@.skip(0) =~= s@);
    }
    while i < n
        invariant
            i <= n,
            n == s@.len(),
            m == from@.len(),
            m >= 1,
            out@ + replace_seq(s@.skip(i as int), from@, to@) == replace_seq(s@, from@, to@),
        decreases n - i,
    {
        let ghost rem = s@.skip(i as int);
        if m <= n - i && matches_at(s, from, i) {
            proof {
                assert(rem.subrange(0, m as int) =~= s@.subrange(i as int, i + m));
                assert(rem.skip(m as int) =~= s@.skip(i + m));
            }
            out.append(to);
            i = i + m;
        } else {
            proof {
                assert(rem.len() >= 1);
                if rem.len() >= m {
                    assert(rem.subrange(0, m as int) =~= s@.subrange(i as int, i + m));
                    assert(rem.subrange(0, m as int) != from@);
                }
                assert(rem[0] == s@[i as int]);
                assert(rem.drop_first() =~= s@.skip(i + 1));
            }
            push_char(&mut out, s.get_char(i));
            i = i + 1;
        }
    }
    proof {
        assert(s@.skip(n as int) =~= Seq::<char>::empty());
        assert(replace_seq(s@.skip(n as int), from@, to@) =~= Seq::<char>::empty());
    }
    out
}

} // verus!

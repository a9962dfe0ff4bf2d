//! Laws of texts.

use vstd::prelude::*;

use crate::error::BootError;
use crate::text;
use crate::text::{decimal_text, join, lower, same, starts_with, strip_prefix, trim, white};

verus! {

/// White space is what Unicode calls so.
pub proof fn law_white(c: char, r: bool)
    requires
        call_ensures(white, (c,), r),
    ensures
        r <==> seq![
            0x9u32, 0xa, 0xb, 0xc, 0xd, 0x20, 0x85, 0xa0, 0x1680, 0x2000, 0x2001, 0x2002, 0x2003,
            0x2004, 0x2005, 0x2006, 0x2007, 0x2008, 0x2009, 0x200a, 0x2028, 0x2029, 0x202f, 0x205f,
            0x3000,
        ].contains(c as u32),
{
    let all = seq![
        0x9u32, 0xa, 0xb, 0xc, 0xd, 0x20, 0x85, 0xa0, 0x1680, 0x2000, 0x2001, 0x2002, 0x2003,
        0x2004, 0x2005, 0x2006, 0x2007, 0x2008, 0x2009, 0x200a, 0x2028, 0x2029, 0x202f, 0x205f,
        0x3000,
    ];
    assert(all.len() == 25);
    let n = c as u32;
    if r {
        let i: int = if n <= 0xd {
            n - 9
        } else if n == 0x20 {
            5
        } else if n == 0x85 {
            6
        } else if n == 0xa0 {
            7
        } else if n == 0x1680 {
            8
        } else if n <= 0x200a {
            9 + (n - 0x2000)
        } else if n == 0x2028 {
            20
        } else if n == 0x2029 {
            21
        } else if n == 0x202f {
            22
        } else if n == 0x205f {
            23
        } else {
            24
        };
        assert(all[i] == n);
    }
    if all.contains(n) {
        let i = choose|i: int| 0 <= i < all.len() && all[i] == n;
        assert(all[i] == n);
    }
}

/// Trimming takes white space from both ends and nothing else: what is left stands in the text
/// between white space, and neither starts nor ends with any.
pub proof fn law_trim(s: &str, r: &str) -> (cut: (Seq<char>, Seq<char>))
    requires
        call_ensures(trim, (s,), r),
    ensures
        s@ == cut.0 + r@ + cut.1,
        forall|i: int| 0 <= i < cut.0.len() ==> text::is_white(#[trigger] cut.0[i]),
        forall|i: int| 0 <= i < cut.1.len() ==> text::is_white(#[trigger] cut.1[i]),
        r@.len() > 0 ==> !text::is_white(r@[0]) && !text::is_white(r@.last()),
{
    let a = lemma_start(s@);
    let b = lemma_end(text::trim_start(s@));
    assert(s@ =~= a + r@ + b);
    (a, b)
}

/// What is cut from the start.
proof fn lemma_start(s: Seq<char>) -> (cut: Seq<char>)
    ensures
        s == cut + text::trim_start(s),
        forall|i: int| 0 <= i < cut.len() ==> text::is_white(#[trigger] cut[i]),
        text::trim_start(s).len() > 0 ==> !text::is_white(text::trim_start(s)[0]),
    decreases s.len(),
{
    if s.len() > 0 && text::is_white(s[0]) {
        let rest = s.subrange(1, s.len() as int);
        let inner = lemma_start(rest);
        let cut = seq![s[0]] + inner;
        let left = text::trim_start(rest);
        assert(s =~= seq![s[0]] + rest);
        assert(seq![s[0]] + (inner + left) =~= cut + left);
        cut
    } else {
        assert(s =~= Seq::<char>::empty() + s);
        Seq::empty()
    }
}

/// What is cut from the end.
proof fn lemma_end(s: Seq<char>) -> (cut: Seq<char>)
    ensures
        s == text::trim_end(s) + cut,
        forall|i: int| 0 <= i < cut.len() ==> text::is_white(#[trigger] cut[i]),
        text::trim_end(s).len() > 0 ==> !text::is_white(text::trim_end(s).last())
            && text::trim_end(s)[0] == s[0],
    decreases s.len(),
{
    if s.len() > 0 && text::is_white(s.last()) {
        let inner = lemma_end(s.drop_last());
        let cut = inner.push(s.last());
        let left = text::trim_end(s.drop_last());
        assert(s =~= s.drop_last().push(s.last()));
        assert((left + inner).push(s.last()) =~= left + cut);
        cut
    } else {
        assert(s =~= s + Seq::<char>::empty());
        Seq::empty()
    }
}

/// Making small changes the ASCII capitals alone, each to its own small letter.
pub proof fn law_lower(s: &str, r: String, i: int)
    requires
        call_ensures(lower, (s,), r),
        0 <= i < s@.len(),
    ensures
        r@.len() == s@.len(),
        65 <= s@[i] as int <= 90 ==> r@[i] as int == s@[i] as int + 32,
        !(65 <= s@[i] as int <= 90) ==> r@[i] == s@[i],
{
    let c = s@[i];
    if 'A' <= c <= 'Z' {
        assert((c as u8 + 32) as u8 as char as int == c as int + 32);
    }
}

/// Two texts are the same exactly when they have the same characters.
pub proof fn law_same(a: &str, b: &str, r: bool)
    requires
        call_ensures(same, (a, b), r),
    ensures
        r <==> a@.len() == b@.len() && forall|i: int| 0 <= i < a@.len() ==> a@[i] == b@[i],
{
    if a@.len() == b@.len() && (forall|i: int| 0 <= i < a@.len() ==> a@[i] == b@[i]) {
        assert(a@ =~= b@);
    }
}

/// Joining no part gives nothing, joining one gives it, and one more part comes behind one more
/// separator.
pub proof fn law_join(parts: &Vec<String>, more: &Vec<String>, sep: &str, r: String, s: String)
    requires
        call_ensures(join, (parts, sep), r),
        call_ensures(join, (more, sep), s),
        more@.len() == parts@.len() + 1,
        more@.drop_last() == parts@,
    ensures
        parts@.len() == 0 ==> r@.len() == 0 && s@ == more@[0]@,
        parts@.len() > 0 ==> s@ == r@ + sep@ + more@.last()@,
{
    assert(text::views(more@).drop_last() =~= text::views(parts@));
}

/// A number is written in decimal digits without a leading zero: its last digit is its remainder,
/// and before it stands what is written of the tenth of it.
pub proof fn law_decimal(n: u64, r: String, tenth: String)
    requires
        call_ensures(decimal_text, (n,), r),
        call_ensures(decimal_text, (n / 10,), tenth),
    ensures
        r@.len() > 0,
        r@.last() as int == '0' as int + n % 10,
        n < 10 ==> r@.len() == 1,
        n >= 10 ==> r@.drop_last() == tenth@,
{
    if n >= 10 {
        assert(r@.drop_last() =~= tenth@);
    }
}

/// What is written of a number is read as that number.
pub proof fn law_decimal_reads_back(n: nat, max: nat)
    requires
        n <= max,
    ensures
        text::number(text::decimal(n), max) == Some(n),
{
    lemma_decimal(n);
    let d = text::decimal(n);
    assert(d[0] != '+');
}

/// What is written of a number are digits, and they stand for it.
proof fn lemma_decimal(n: nat)
    ensures
        text::decimal(n).len() > 0,
        forall|i: int| 0 <= i < text::decimal(n).len() ==> text::is_digit(#[trigger] text::decimal(n)[i]),
        text::digits_value(text::decimal(n)) == n,
    decreases n,
{
    let d = text::decimal(n);
    if n >= 10 {
        lemma_decimal(n / 10);
        assert(d.drop_last() =~= text::decimal(n / 10));
        assert forall|i: int| 0 <= i < d.len() implies text::is_digit(#[trigger] d[i]) by {
            if i < d.len() - 1 {
                assert(d[i] == text::decimal(n / 10)[i]);
            }
        }
    } else {
        assert(d.drop_last() =~= Seq::empty());
        assert(text::digits_value(d.drop_last()) == 0);
    }
}

/// A text that is read as a number is one or more digits, with a plus sign before them or none;
/// with one more digit it stands for ten times as much and that digit.
pub proof fn law_number(s: Seq<char>, max: nat)
    ensures
        text::number(s, max) matches Some(n) ==> n <= max && s.len() > 0 && {
            &&& text::is_digit(s.last())
            &&& forall|i: int| 0 < i < s.len() ==> text::is_digit(#[trigger] s[i])
            &&& text::is_digit(s[0]) || s[0] == '+'
            &&& s.len() > 1 && text::is_digit(s[s.len() - 2]) ==> n == 10 * text::number(
                s.drop_last(),
                max,
            )->Some_0 + (s.last() as int - '0' as int)
            &&& s.len() == 1 ==> n == s[0] as int - '0' as int
        },
        s.len() > 0 && !text::is_digit(s.last()) ==> text::number(s, max) is None,
        s.len() == 0 ==> text::number(s, max) is None,
{
    let d = text::without_plus(s);
    if let Some(n) = text::number(s, max) {
        assert(d.last() == s.last());
        assert forall|i: int| 0 < i < s.len() implies text::is_digit(#[trigger] s[i]) by {
            if s[0] == '+' {
                assert(d[i - 1] == s[i]);
            } else {
                assert(d[i] == s[i]);
            }
        }
        if s.len() > 1 && text::is_digit(s[s.len() - 2]) {
            let t = s.drop_last();
            let e = text::without_plus(t);
            assert(e =~= d.drop_last());
            assert forall|i: int| 0 <= i < e.len() implies text::is_digit(#[trigger] e[i]) by {
                assert(d[i] == e[i]);
            }
        }
        if s.len() == 1 {
            assert(d.drop_last() =~= Seq::empty());
            assert(text::digits_value(d.drop_last()) == 0);
        }
    }
    if s.len() > 0 && !text::is_digit(s.last()) && d.len() > 0 {
        assert(d.last() == s.last());
        assert(d[d.len() - 1] == s.last());
    }
}

/// A text starts with another exactly when it is that one and a rest, and the rest is what is left
/// without it.
pub proof fn law_prefix(s: &str, p: &str, r: bool, rest: Option<&str>)
    requires
        call_ensures(starts_with, (s, p), r),
        call_ensures(strip_prefix, (s, p), rest),
    ensures
        r <==> exists|t: Seq<char>| s@ == #[trigger] (p@ + t),
        r <==> rest is Some,
        rest matches Some(t) ==> s@ == p@ + t@,
{
    if r {
        assert(s@ =~= p@ + s@.skip(p@.len() as int));
    }
    if exists|t: Seq<char>| s@ == #[trigger] (p@ + t) {
        let t = choose|t: Seq<char>| s@ == #[trigger] (p@ + t);
        assert(s@.take(p@.len() as int) =~= p@);
    }
}

/// A reason is told before what lies behind it, and neither is left out.
pub proof fn law_full_text(e: &BootError, r: String)
    requires
        call_ensures(BootError::full_text, (e,), r),
    ensures
        e.cause is None ==> r@ == e.message@,
        e.cause matches Some(cause) ==> r@ == e.message@ + ": "@ + cause@,
{
}

} // verus!

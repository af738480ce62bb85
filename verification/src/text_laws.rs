//! What holds of every text that is read or built.
use crate::text;
use vstd::prelude::*;

verus! {

/// A text that begins with a prefix is the prefix and what follows it: taking the
/// prefix off gives back exactly what stood behind it.
pub proof fn law_prefix_and_rest(prefix: Seq<char>, rest: Seq<char>, s: Seq<char>)
    ensures
        text::has_prefix(prefix + rest, prefix),
        text::without_prefix(prefix + rest, prefix) == Some(rest),
        text::without_prefix(s, prefix) matches Some(r) ==> s == prefix + r,
        text::has_prefix(s, prefix) ==> text::without_prefix(s, prefix) is Some,
        text::without_prefix(s, prefix) is None ==> forall|r: Seq<char>| #[trigger]
            (prefix + r) != s,
{
    let whole = prefix + rest;
    assert(whole.subrange(0, prefix.len() as int) =~= prefix);
    assert(whole.subrange(prefix.len() as int, whole.len() as int) =~= rest);
    if let Some(r) = text::without_prefix(s, prefix) {
        assert(s =~= prefix + r);
    } else {
        assert forall|r: Seq<char>| #[trigger] (prefix + r) != s by {
            if prefix + r == s {
                assert(s.subrange(0, prefix.len() as int) =~= prefix);
            }
        }
    }
}

/// A text ends with a suffix exactly where it is something with the suffix behind
/// it.
pub proof fn law_suffix(front: Seq<char>, suffix: Seq<char>, s: Seq<char>)
    ensures
        text::has_suffix(front + suffix, suffix),
        text::has_suffix(s, suffix) ==> suffix.len() <= s.len() && s == s.take(
            s.len() - suffix.len(),
        ) + suffix,
{
    let whole = front + suffix;
    assert(whole.subrange(whole.len() - suffix.len(), whole.len() as int) =~= suffix);
    if text::has_suffix(s, suffix) {
        assert(s =~= s.take(s.len() - suffix.len()) + suffix);
    }
}

/// What stands before a character is all there is up to its first occurrence.
pub proof fn law_before(a: Seq<char>, c: char, b: Seq<char>)
    requires
        forall|i: int| 0 <= i < a.len() ==> #[trigger] a[i] != c,
    ensures
        text::before(a, c) == a,
        text::before(a + seq![c] + b, c) == a,
    decreases a.len(),
{
    let s = a + seq![c] + b;
    if a.len() == 0 {
        assert(s[0] == c);
        assert(a =~= Seq::empty());
    } else {
        let t = a.drop_first();
        assert forall|i: int| 0 <= i < t.len() implies #[trigger] t[i] != c by {
            assert(t[i] == a[i + 1]);
        }
        law_before(t, c, b);
        assert(s[0] == a[0]);
        assert(s.drop_first() =~= t + seq![c] + b);
        assert(seq![a[0]] + t =~= a);
    }
}

/// Only the characters at the end are dropped, and all of them.
pub proof fn law_without_trailing(s: Seq<char>, c: char)
    ensures
        text::without_trailing(s, c).len() <= s.len(),
        s.take(text::without_trailing(s, c).len() as int) == text::without_trailing(s, c),
        forall|i: int|
            text::without_trailing(s, c).len() <= i < s.len() ==> #[trigger] s[i] == c,
        text::without_trailing(s, c).len() > 0 ==> text::without_trailing(s, c).last() != c,
    decreases s.len(),
{
    let w = text::without_trailing(s, c);
    if s.len() > 0 && s.last() == c {
        let init = s.drop_last();
        law_without_trailing(init, c);
        assert(s.take(w.len() as int) =~= init.take(w.len() as int));
        assert forall|i: int| w.len() <= i < s.len() implies #[trigger] s[i] == c by {
            if i < init.len() {
                assert(init[i] == s[i]);
            }
        }
    } else {
        assert(s.take(s.len() as int) =~= s);
    }
}

/// Replacing changes every occurrence of the character and nothing else.
pub proof fn law_replaced(s: Seq<char>, from: char, to: char, i: int)
    ensures
        text::replaced(s, from, to).len() == s.len(),
        0 <= i < s.len() && s[i] == from ==> text::replaced(s, from, to)[i] == to,
        0 <= i < s.len() && s[i] != from ==> text::replaced(s, from, to)[i] == s[i],
{
}

/// The number that digits of base ten stand for.
pub open spec fn number_of(s: Seq<char>) -> int
    decreases s.len(),
{
    if s.len() == 0 {
        0
    } else {
        10 * number_of(s.drop_last()) + (s.last() as int - '0' as int)
    }
}

/// A number is written in digits that stand for it, without a zero in front.
pub proof fn law_digits_stand_for_the_number(n: nat)
    ensures
        number_of(text::digits(n)) == n,
        text::digits(n).len() > 0,
        forall|i: int|
            0 <= i < text::digits(n).len() ==> '0' <= #[trigger] text::digits(n)[i]
                && text::digits(n)[i] <= '9',
        text::digits(n)[0] == '0' ==> n == 0,
    decreases n,
{
    let d = text::digits(n);
    let last = (('0' as u32) + (n % 10) as u32) as char;
    assert(last as int == '0' as int + n % 10);
    if n < 10 {
        assert(d =~= seq![last]);
        assert(d.drop_last() =~= Seq::empty());
        assert(number_of(d.drop_last()) == 0);
    } else {
        law_digits_stand_for_the_number(n / 10);
        let init = text::digits(n / 10);
        assert(d.drop_last() =~= init);
        assert(d.last() == last);
        assert(d[0] == init[0]);
    }
}

/// A number below zero is written as its magnitude behind a minus.
pub proof fn law_decimal(n: int)
    ensures
        n >= 0 ==> number_of(text::decimal(n)) == n && text::decimal(n)[0] != '-',
        n < 0 ==> text::decimal(n)[0] == '-' && number_of(text::decimal(n).skip(1)) == -n,
{
    if n >= 0 {
        law_digits_stand_for_the_number(n as nat);
    } else {
        law_digits_stand_for_the_number((-n) as nat);
        assert(text::decimal(n).skip(1) =~= text::digits((-n) as nat));
    }
}

/// The value of a small hexadecimal digit.
pub open spec fn hex_value(c: char) -> int {
    if '0' <= c && c <= '9' {
        c as int - '0' as int
    } else {
        c as int - 'a' as int + 10
    }
}

/// Each byte is written in two small hexadecimal digits that stand for it.
pub proof fn law_hex_stands_for_the_bytes(bytes: Seq<u8>, i: int)
    requires
        0 <= i < bytes.len(),
    ensures
        text::hex(bytes).len() == 2 * bytes.len(),
        16 * hex_value(text::hex(bytes)[2 * i]) + hex_value(text::hex(bytes)[2 * i + 1])
            == bytes[i],
        ('0' <= text::hex(bytes)[2 * i] && text::hex(bytes)[2 * i] <= '9') || ('a' <= text::hex(
            bytes,
        )[2 * i] && text::hex(bytes)[2 * i] <= 'f'),
        ('0' <= text::hex(bytes)[2 * i + 1] && text::hex(bytes)[2 * i + 1] <= '9') || ('a'
            <= text::hex(bytes)[2 * i + 1] && text::hex(bytes)[2 * i + 1] <= 'f'),
    decreases bytes.len(),
{
    let init = bytes.drop_last();
    text::lemma_hex_len(bytes);
    text::lemma_hex_len(init);
    if i < init.len() {
        law_hex_stands_for_the_bytes(init, i);
        assert(text::hex(bytes)[2 * i] == text::hex(init)[2 * i]);
        assert(text::hex(bytes)[2 * i + 1] == text::hex(init)[2 * i + 1]);
    }
}

/// Only a small letter of ASCII has a capital, which is the same letter.
pub proof fn law_ascii_upper(c: char)
    ensures
        'a' <= c && c <= 'z' ==> text::ascii_upper(c) as int - 'A' as int == c as int - 'a' as int,
        !('a' <= c && c <= 'z') ==> text::ascii_upper(c) == c,
{
}

} // verus!

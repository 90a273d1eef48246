//! Text helpers: trimming, prefixes and decimal numbers.

use vstd::prelude::*;
use vstd::std_specs::iter::IteratorSpec;

verus! {

/// Whether `c` is white space: one of the 25 characters that have the
/// Unicode property `White_Space`.
pub open spec fn is_whitespace(c: char) -> bool {
    let code = c as u32;
    ||| 0x0009 <= code <= 0x000D
    ||| code == 0x0020
    ||| code == 0x0085
    ||| code == 0x00A0
    ||| code == 0x1680
    ||| 0x2000 <= code <= 0x200A
    ||| code == 0x2028
    ||| code == 0x2029
    ||| code == 0x202F
    ||| code == 0x205F
    ||| code == 0x3000
}

/// `char::is_whitespace` of the standard library, which tells whether a
/// character has the Unicode property `White_Space`. Taken on trust: it says
/// yes of exactly the characters that `is_whitespace` lists.
pub assume_specification[ char::is_whitespace ](c: char) -> (b: bool)
    ensures
        b == is_whitespace(c),
;

/// `text` without the white space it begins with.
pub open spec fn trimmed_start(text: Seq<char>) -> Seq<char>
    decreases text.len(),
{
    if text.len() > 0 && is_whitespace(text.first()) {
        trimmed_start(text.drop_first())
    } else {
        text
    }
}

/// `text` without the white space it ends with.
pub open spec fn trimmed_end(text: Seq<char>) -> Seq<char>
    decreases text.len(),
{
    if text.len() > 0 && is_whitespace(text.last()) {
        trimmed_end(text.drop_last())
    } else {
        text
    }
}

/// `text` without the white space around it.
pub open spec fn trimmed(text: Seq<char>) -> Seq<char> {
    trimmed_end(trimmed_start(text))
}

/// Every character of `text` is white space. True of the empty text.
pub open spec fn is_blank(text: Seq<char>) -> bool {
    forall|i: int| 0 <= i < text.len() ==> is_whitespace(text[i])
}

/// Cutting white space off the front leaves what follows the first `from`
/// characters, where those are white space and the next one is not.
pub proof fn lemma_trimmed_start_skips(text: Seq<char>, from: int)
    requires
        0 <= from <= text.len(),
        forall|i: int| 0 <= i < from ==> is_whitespace(text[i]),
        from < text.len() ==> !is_whitespace(text[from]),
    ensures
        trimmed_start(text) == text.skip(from),
    decreases from,
{
    if from == 0 {
        assert(text.skip(0) =~= text);
    } else {
        let rest = text.drop_first();
        assert forall|i: int| 0 <= i < from - 1 implies is_whitespace(rest[i]) by {
            assert(rest[i] == text[i + 1]);
        }
        lemma_trimmed_start_skips(rest, from - 1);
        assert(rest.skip(from - 1) =~= text.skip(from));
    }
}

/// Cutting white space off the end leaves the first `to` characters, where
/// all after them are white space and the last of them is not.
pub proof fn lemma_trimmed_end_takes(text: Seq<char>, to: int)
    requires
        0 <= to <= text.len(),
        forall|i: int| to <= i < text.len() ==> is_whitespace(text[i]),
        0 < to ==> !is_whitespace(text[to - 1]),
    ensures
        trimmed_end(text) == text.take(to),
    decreases text.len() - to,
{
    if to == text.len() {
        assert(text.take(to) =~= text);
    } else {
        let rest = text.drop_last();
        lemma_trimmed_end_takes(rest, to);
        assert(rest.take(to) =~= text.take(to));
    }
}

/// Trimming leaves nothing exactly of the texts that are blank.
pub proof fn lemma_trimmed_empty_iff_blank(text: Seq<char>)
    ensures
        trimmed(text).len() == 0 <==> is_blank(text),
    decreases text.len(),
{
    if text.len() > 0 && is_whitespace(text.first()) {
        let rest = text.drop_first();
        lemma_trimmed_empty_iff_blank(rest);
        if is_blank(rest) {
            assert forall|i: int| 0 <= i < text.len() implies is_whitespace(text[i]) by {
                if i > 0 {
                    assert(text[i] == rest[i - 1]);
                }
            }
        }
        if is_blank(text) {
            assert forall|i: int| 0 <= i < rest.len() implies is_whitespace(rest[i]) by {
                assert(rest[i] == text[i + 1]);
            }
        }
    } else if text.len() > 0 {
        lemma_trimmed_end_keeps_first(text);
    }
}

/// A text that begins with something other than white space keeps that
/// beginning when white space is cut off its end.
proof fn lemma_trimmed_end_keeps_first(text: Seq<char>)
    requires
        text.len() > 0,
        !is_whitespace(text.first()),
    ensures
        trimmed_end(text).len() > 0,
    decreases text.len(),
{
    if is_whitespace(text.last()) {
        let rest = text.drop_last();
        assert(rest.len() > 0);
        assert(rest.first() == text.first());
        lemma_trimmed_end_keeps_first(rest);
    }
}

/// What trimming leaves of a text that is not blank: the part from its first
/// to its last character that is not white space.
pub proof fn lemma_trimmed_is_subrange(text: Seq<char>, from: int, to: int)
    requires
        0 <= from < to <= text.len(),
        forall|i: int| 0 <= i < from ==> is_whitespace(text[i]),
        !is_whitespace(text[from]),
        !is_whitespace(text[to - 1]),
        forall|i: int| to <= i < text.len() ==> is_whitespace(text[i]),
    ensures
        trimmed(text) == text.subrange(from, to),
{
    lemma_trimmed_start_skips(text, from);
    let tail = text.skip(from);
    assert forall|i: int| to - from <= i < tail.len() implies is_whitespace(tail[i]) by {
        assert(tail[i] == text[i + from]);
    }
    assert(tail[to - from - 1] == text[to - 1]);
    lemma_trimmed_end_takes(tail, to - from);
    assert(tail.take(to - from) =~= text.subrange(from, to));
}

/// Removes the white space around `text`.
pub fn trim(text: &str) -> (kept: &str)
    ensures
        kept@ == trimmed(text@),
{
    let n: usize = text.unicode_len();
    let mut chars = text.chars();
    let mut at: usize = 0;
    // Where the first and after the last character to keep stand, once one is found.
    let mut found = false;
    let mut from: usize = 0;
    let mut to: usize = 0;
    loop
        invariant
            n == text@.len(),
            at <= n,
            chars.obeys_prophetic_iter_laws(),
            chars.remaining() == text@.skip(at as int),
            !found ==> from == 0 && to == 0,
            !found ==> forall|i: int| 0 <= i < at ==> is_whitespace(text@[i]),
            found ==> from < to <= at,
            found ==> forall|i: int| 0 <= i < from ==> is_whitespace(text@[i]),
            found ==> !is_whitespace(text@[from as int]) && !is_whitespace(text@[to - 1]),
            found ==> forall|i: int| to <= i < at ==> is_whitespace(text@[i]),
        ensures
            at == n,
        decreases n - at,
    {
        let ghost before = chars.remaining();
        match chars.next() {
            Some(c) => {
                assert(c == before[0]);
                assert(before[0] == text@[at as int]);
                assert(before.drop_first() =~= text@.skip(at + 1));
                if !c.is_whitespace() {
                    if !found {
                        from = at;
                        found = true;
                    }
                    to = at + 1;
                }
                at += 1;
            },
            None => {
                break ;
            },
        }
    }
    proof {
        if found {
            lemma_trimmed_is_subrange(text@, from as int, to as int);
        } else {
            lemma_trimmed_empty_iff_blank(text@);
            assert(text@.subrange(0, 0).len() == 0);
            assert(trimmed(text@) =~= text@.subrange(0, 0));
        }
    }
    text.substring_char(from, to)
}

/// Tells whether `text` begins with `prefix`.
pub fn has_prefix(text: &str, prefix: &str) -> (yes: bool)
    ensures
        yes == prefix@.is_prefix_of(text@),
{
    let mut rest = text.chars();
    let mut wanted = prefix.chars();
    let ghost mut at: int = 0;
    loop
        invariant
            0 <= at <= prefix@.len(),
            at <= text@.len(),
            rest.obeys_prophetic_iter_laws(),
            wanted.obeys_prophetic_iter_laws(),
            rest.remaining() == text@.skip(at),
            wanted.remaining() == prefix@.skip(at),
            forall|i: int| 0 <= i < at ==> text@[i] == prefix@[i],
        decreases prefix@.len() - at,
    {
        match wanted.next() {
            Some(w) => {
                assert(w == prefix@[at]);
                match rest.next() {
                    Some(c) => {
                        assert(c == text@[at]);
                        assert(text@.skip(at).drop_first() =~= text@.skip(at + 1));
                        assert(prefix@.skip(at).drop_first() =~= prefix@.skip(at + 1));
                        if c != w {
                            assert(prefix@.len() <= text@.len() ==> text@.subrange(
                                0,
                                prefix@.len() as int,
                            )[at] == text@[at]);
                            return false;
                        }
                    },
                    None => {
                        return false;
                    },
                }
            },
            None => {
                assert(prefix@ =~= text@.subrange(0, prefix@.len() as int));
                return true;
            },
        }
        proof {
            at = at + 1;
        }
    }
}

/// The character for one decimal digit.
pub open spec fn digit(d: nat) -> char
    recommends
        d < 10,
{
    seq!['0', '1', '2', '3', '4', '5', '6', '7', '8', '9'][d as int]
}

/// `n` written in decimal, without sign, padding or leading zeros.
pub open spec fn decimal(n: nat) -> Seq<char>
    decreases n,
{
    if n < 10 {
        seq![digit(n)]
    } else {
        decimal(n / 10).push(digit(n % 10))
    }
}

fn digit_str(d: u32) -> (s: &'static str)
    requires
        d < 10,
    ensures
        s@ == seq![digit(d as nat)],
{
    let s = match d {
        0 => "0",
        1 => "1",
        2 => "2",
        3 => "3",
        4 => "4",
        5 => "5",
        6 => "6",
        7 => "7",
        8 => "8",
        _ => "9",
    };
    proof {
        reveal_strlit("0");
        reveal_strlit("1");
        reveal_strlit("2");
        reveal_strlit("3");
        reveal_strlit("4");
        reveal_strlit("5");
        reveal_strlit("6");
        reveal_strlit("7");
        reveal_strlit("8");
        reveal_strlit("9");
        assert(s@ =~= seq![digit(d as nat)]);
    }
    s
}

/// Appends `n` in decimal to `out`.
pub fn push_decimal(out: &mut String, n: u32)
    ensures
        final(out)@ == old(out)@ + decimal(n as nat),
    decreases n,
{
    if n >= 10 {
        push_decimal(out, n / 10);
    }
    out.append(digit_str(n % 10));
    proof {
        if n >= 10 {
            assert(old(out)@ + decimal(n as nat / 10) + seq![digit(n as nat % 10)] =~= old(out)@
                + decimal(n as nat / 10).push(digit(n as nat % 10)));
        }
    }
}

} // verus!

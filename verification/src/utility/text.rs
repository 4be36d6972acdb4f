//! Text helpers: comparison, case folding, replacement, numbers and lists
//! written out as text.

use vstd::prelude::*;
use vstd::string::StrSliceExecFns;
use vstd::string::StringExecFns;
use vstd::string::StringSliceAdditionalSpecFns;

verus! {

/// The lowercase form of a text as `str::to_lowercase` of the standard
/// library gives it (Unicode case mapping, independent of any locale).
pub uninterp spec fn lowercase(s: Seq<char>) -> Seq<char>;

/// Calls `str::to_lowercase`. Trusted: the result is the lowercase form of
/// the argument, which depends on the argument's characters alone.
#[verifier::external_body]
pub(crate) fn to_lowercase(s: &str) -> (out: String)
    ensures
        out@ == lowercase(s@),
{
    s.to_lowercase()
}

/// A copy of a text.
pub fn copy_text(s: &String) -> (out: String)
    ensures
        out@ == s@,
{
    s.clone()
}

/// Whether two texts hold the same characters.
pub fn str_eq(a: &str, b: &str) -> (same: bool)
    ensures
        same == (a@ == b@),
{
    let x = a.as_bytes();
    let y = b.as_bytes();
    if x.len() != y.len() {
        return false;
    }
    let mut i: usize = 0;
    while i < x.len()
        invariant
            x@ == a.spec_bytes(),
            y@ == b.spec_bytes(),
            x.len() == y.len(),
            i <= x.len(),
            forall|j: int| 0 <= j < i ==> x@[j] == y@[j],
        decreases x.len() - i,
    {
        if x[i] != y[i] {
            return false;
        }
        i += 1;
    }
    proof {
        assert(x@ =~= y@);
        vstd::utf8::encode_utf8_decode_utf8(a@);
        vstd::utf8::encode_utf8_decode_utf8(b@);
    }
    true
}

/// The characters of each text of a list.
pub open spec fn texts_view(texts: Seq<String>) -> Seq<Seq<char>> {
    Seq::new(texts.len(), |i: int| texts[i]@)
}

/// Every item between `before` and `after`, one behind the other.
pub open spec fn each_wrapped(items: Seq<Seq<char>>, before: Seq<char>, after: Seq<char>) -> Seq<
    char,
>
    decreases items.len(),
{
    if items.len() == 0 {
        Seq::empty()
    } else {
        each_wrapped(items.drop_last(), before, after) + before + items.last() + after
    }
}

/// Writes every item between `before` and `after`, one behind the other.
pub fn wrap_each(items: &Vec<String>, before: &str, after: &str) -> (text: String)
    ensures
        text@ == each_wrapped(texts_view(items@), before@, after@),
{
    let ghost all = texts_view(items@);
    let mut text = String::new();
    let mut i: usize = 0;
    assert(all.take(0) =~= Seq::empty());
    while i < items.len()
        invariant
            i <= items.len(),
            all == texts_view(items@),
            text@ == each_wrapped(all.take(i as int), before@, after@),
        decreases items.len() - i,
    {
        proof {
            assert(all.take(i + 1).drop_last() =~= all.take(i as int));
            assert(all.take(i + 1).last() == items@[i as int]@);
        }
        text.append(before);
        text.append(items[i].as_str());
        text.append(after);
        i += 1;
    }
    assert(all.take(items.len() as int) =~= all);
    text
}

/// Every item between `before` and `after`, with `separator` between two of
/// them.
pub open spec fn separated(
    items: Seq<Seq<char>>,
    separator: Seq<char>,
    before: Seq<char>,
    after: Seq<char>,
) -> Seq<char>
    decreases items.len(),
{
    if items.len() == 0 {
        Seq::empty()
    } else if items.len() == 1 {
        before + items[0] + after
    } else {
        separated(items.drop_last(), separator, before, after) + separator + before + items.last()
            + after
    }
}

/// Writes every item between `before` and `after`, with `separator` between
/// two of them.
pub fn separate(items: &Vec<String>, separator: &str, before: &str, after: &str) -> (text: String)
    ensures
        text@ == separated(texts_view(items@), separator@, before@, after@),
{
    let ghost all = texts_view(items@);
    let mut text = String::new();
    let mut i: usize = 0;
    assert(all.take(0) =~= Seq::empty());
    while i < items.len()
        invariant
            i <= items.len(),
            all == texts_view(items@),
            text@ == separated(all.take(i as int), separator@, before@, after@),
        decreases items.len() - i,
    {
        proof {
            assert(all.take(i + 1).drop_last() =~= all.take(i as int));
            assert(all.take(i + 1).last() == items@[i as int]@);
            assert(all.take(i + 1)[0] == all[0]);
        }
        if i > 0 {
            text.append(separator);
            text.append(before);
        } else {
            text = before.to_owned();
        }
        text.append(items[i].as_str());
        text.append(after);
        i += 1;
    }
    assert(all.take(items.len() as int) =~= all);
    text
}

/// The characters of a text, one by one.
pub fn chars_of(text: &str) -> (chars: Vec<char>)
    ensures
        chars@ == text@,
{
    let mut chars: Vec<char> = Vec::new();
    for c in it: text.chars()
        invariant
            chars@ == it.seq().take(it.index() as int),
            it.seq() == text@,
    {
        chars.push(c);
    }
    chars
}

/// The text with every occurrence of the pattern replaced, the leftmost
/// first and none overlapping another. An empty pattern occurs nowhere.
pub open spec fn replaced(text: Seq<char>, pattern: Seq<char>, with: Seq<char>) -> Seq<char>
    decreases text.len(),
{
    if pattern.len() == 0 || text.len() < pattern.len() {
        text
    } else if text.subrange(0, pattern.len() as int) == pattern {
        with + replaced(text.skip(pattern.len() as int), pattern, with)
    } else {
        seq![text[0]] + replaced(text.skip(1), pattern, with)
    }
}

/// Whether the pattern stands in the text at the given place.
fn occurs_at(text: &Vec<char>, pattern: &Vec<char>, at: usize) -> (occurs: bool)
    requires
        at + pattern.len() <= text.len(),
    ensures
        occurs == (text@.subrange(at as int, at + pattern.len()) == pattern@),
{
    let mut k: usize = 0;
    while k < pattern.len()
        invariant
            k <= pattern.len(),
            at + pattern.len() <= text.len(),
            forall|e: int| 0 <= e < k ==> text@[at + e] == pattern@[e],
        decreases pattern.len() - k,
    {
        if text[at + k] != pattern[k] {
            assert(text@.subrange(at as int, at + pattern.len())[k as int] != pattern@[k as int]);
            return false;
        }
        k += 1;
    }
    assert(text@.subrange(at as int, at + pattern.len()) =~= pattern@);
    true
}

/// Replaces every occurrence of the pattern, the leftmost first and none
/// overlapping another. An empty pattern occurs nowhere.
pub fn replace_all(text: &str, pattern: &str, with: &str) -> (out: String)
    ensures
        out@ == replaced(text@, pattern@, with@),
{
    let chars = chars_of(text);
    let sought = chars_of(pattern);
    let n = chars.len();
    let m = sought.len();
    if m == 0 || n < m {
        return text.to_owned();
    }
    let mut out = String::new();
    let mut start: usize = 0;
    let mut i: usize = 0;
    assert(out@ + text@.subrange(0, 0) + replaced(text@.skip(0), pattern@, with@) =~= replaced(
        text@,
        pattern@,
        with@,
    )) by {
        assert(text@.skip(0) =~= text@);
    }
    while i <= n - m
        invariant
            start <= i <= n,
            0 < m <= n,
            n == text@.len(),
            m == pattern@.len(),
            chars@ == text@,
            sought@ == pattern@,
            replaced(text@, pattern@, with@) == out@ + text@.subrange(start as int, i as int)
                + replaced(text@.skip(i as int), pattern@, with@),
        decreases n - i,
    {
        let ghost rest = text@.skip(i as int);
        let ghost pending = text@.subrange(start as int, i as int);
        proof {
            assert(rest.subrange(0, m as int) =~= text@.subrange(i as int, i + m));
        }
        if occurs_at(&chars, &sought, i) {
            let kept = text.substring_char(start, i);
            out.append(kept);
            out.append(with);
            proof {
                assert(rest.skip(m as int) =~= text@.skip(i + m));
                assert(out@ + text@.subrange(i + m, i + m) + replaced(
                    text@.skip(i + m),
                    pattern@,
                    with@,
                ) =~= (out@ + replaced(text@.skip(i + m), pattern@, with@)));
            }
            i += m;
            start = i;
        } else {
            proof {
                assert(rest.skip(1) =~= text@.skip(i + 1));
                assert(pending + seq![rest[0]] =~= text@.subrange(start as int, i + 1));
                assert(out@ + pending + (seq![rest[0]] + replaced(rest.skip(1), pattern@, with@))
                    =~= out@ + (pending + seq![rest[0]]) + replaced(
                    rest.skip(1),
                    pattern@,
                    with@,
                ));
            }
            i += 1;
        }
    }
    let tail = text.substring_char(start, n);
    proof {
        assert(text@.subrange(start as int, i as int) + text@.skip(i as int) =~= text@.subrange(
            start as int,
            n as int,
        ));
        assert(out@ + text@.subrange(start as int, i as int) + text@.skip(i as int) =~= out@
            + text@.subrange(start as int, n as int));
    }
    out.append(tail);
    out
}

/// The digit for a number below ten.
pub open spec fn digit_text(d: int) -> Seq<char> {
    if d == 0 {
        "0"@
    } else if d == 1 {
        "1"@
    } else if d == 2 {
        "2"@
    } else if d == 3 {
        "3"@
    } else if d == 4 {
        "4"@
    } else if d == 5 {
        "5"@
    } else if d == 6 {
        "6"@
    } else if d == 7 {
        "7"@
    } else if d == 8 {
        "8"@
    } else {
        "9"@
    }
}

/// A number written in decimal digits, without a leading zero.
pub open spec fn decimal_text(n: nat) -> Seq<char>
    decreases n,
{
    if n < 10 {
        digit_text(n as int)
    } else {
        decimal_text(n / 10) + digit_text((n % 10) as int)
    }
}

/// A whole number written in decimal digits, behind a minus sign where it
/// is below zero.
pub open spec fn signed_decimal_text(n: int) -> Seq<char> {
    if n < 0 {
        "-"@ + decimal_text((-n) as nat)
    } else {
        decimal_text(n as nat)
    }
}

fn digit_str(d: u64) -> (digit: &'static str)
    requires
        d < 10,
    ensures
        digit@ == digit_text(d as int),
{
    if d == 0 {
        "0"
    } else if d == 1 {
        "1"
    } else if d == 2 {
        "2"
    } else if d == 3 {
        "3"
    } else if d == 4 {
        "4"
    } else if d == 5 {
        "5"
    } else if d == 6 {
        "6"
    } else if d == 7 {
        "7"
    } else if d == 8 {
        "8"
    } else {
        "9"
    }
}

/// Writes a number in decimal digits.
pub fn decimal(n: u64) -> (text: String)
    ensures
        text@ == decimal_text(n as nat),
    decreases n,
{
    if n < 10 {
        digit_str(n).to_owned()
    } else {
        let mut text = decimal(n / 10);
        text.append(digit_str(n % 10));
        text
    }
}

/// Writes a whole number in decimal digits, behind a minus sign where it is
/// below zero.
pub fn signed_decimal(n: i64) -> (text: String)
    ensures
        text@ == signed_decimal_text(n as int),
{
    if n < 0 {
        let magnitude: u64 = ((-(n + 1)) as u64) + 1;
        let digits = decimal(magnitude);
        let mut text = String::from_str("-");
        text.append(digits.as_str());
        text
    } else {
        decimal(n as u64)
    }
}

/// The value of a decimal digit.
pub open spec fn digit_value(c: char) -> Option<nat> {
    if 48 <= c as u32 <= 57 {
        Some((c as u32 - 48) as nat)
    } else {
        None
    }
}

/// The number that decimal digits write, if the text is digits and nothing
/// else.
pub open spec fn number_of(digits: Seq<char>) -> Option<nat>
    decreases digits.len(),
{
    if digits.len() == 0 {
        None
    } else {
        match digit_value(digits.last()) {
            None => None,
            Some(d) => if digits.len() == 1 {
                Some(d)
            } else {
                match number_of(digits.drop_last()) {
                    Some(front) => Some(front * 10 + d),
                    None => None,
                }
            },
        }
    }
}

/// The number that decimal digits write, if it is one that `u32` holds.
pub open spec fn parsed_u32(digits: Seq<char>) -> Option<u32> {
    match number_of(digits) {
        Some(n) => if n <= u32::MAX {
            Some(n as u32)
        } else {
            None
        },
        None => None,
    }
}

/// Where digits write a number, so does each of their beginnings, and none
/// writes a greater one.
pub proof fn lemma_number_of_beginning(digits: Seq<char>, i: int)
    requires
        0 < i <= digits.len(),
        number_of(digits) is Some,
    ensures
        number_of(digits.take(i)) is Some,
        number_of(digits.take(i))->0 <= number_of(digits)->0,
    decreases digits.len(),
{
    if i == digits.len() {
        assert(digits.take(i) =~= digits);
    } else {
        assert(digits.drop_last().take(i) =~= digits.take(i));
        lemma_number_of_beginning(digits.drop_last(), i);
    }
}

/// A digit is one character, and its value is the number it was written
/// for.
pub proof fn lemma_digit_reads_back(d: int)
    requires
        0 <= d < 10,
    ensures
        digit_text(d).len() == 1,
        digit_value(digit_text(d)[0]) == Some(d as nat),
{
    reveal_strlit("0");
    reveal_strlit("1");
    reveal_strlit("2");
    reveal_strlit("3");
    reveal_strlit("4");
    reveal_strlit("5");
    reveal_strlit("6");
    reveal_strlit("7");
    reveal_strlit("8");
    reveal_strlit("9");
}

/// What is written of a number reads back as that number.
pub proof fn lemma_decimal_reads_back(n: nat)
    ensures
        decimal_text(n).len() > 0,
        number_of(decimal_text(n)) == Some(n),
    decreases n,
{
    if n < 10 {
        lemma_digit_reads_back(n as int);
    } else {
        lemma_decimal_reads_back(n / 10);
        lemma_digit_reads_back((n % 10) as int);
        let front = decimal_text(n / 10);
        let digit = digit_text((n % 10) as int);
        assert((front + digit).drop_last() =~= front);
        assert((front + digit).last() == digit[0]);
    }
}

/// Reads a number from decimal digits. A text that is empty, holds anything
/// but the digits `0` to `9`, or writes a number beyond `u32` gives nothing.
pub fn parse_u32(text: &str) -> (parsed: Option<u32>)
    ensures
        parsed == parsed_u32(text@),
{
    let chars = chars_of(text);
    let n = chars.len();
    if n == 0 {
        return None;
    }
    let mut value: u64 = 0;
    let mut i: usize = 0;
    while i < n
        invariant
            i <= n,
            n == chars.len(),
            n > 0,
            chars@ == text@,
            value <= u32::MAX,
            i == 0 ==> value == 0,
            i > 0 ==> number_of(text@.take(i as int)) == Some(value as nat),
        decreases n - i,
    {
        let c = chars[i];
        let code = c as u32;
        proof {
            assert(text@.take(i + 1).drop_last() =~= text@.take(i as int));
            assert(text@.take(i + 1).last() == c);
            if number_of(text@) is Some {
                lemma_number_of_beginning(text@, i + 1);
            }
        }
        if code < 48 || code > 57 {
            return None;
        }
        let digit = (code - 48) as u64;
        value = value * 10 + digit;
        if value > 4294967295 {
            return None;
        }
        i += 1;
    }
    assert(text@.take(n as int) =~= text@);
    Some(value as u32)
}

} // verus!

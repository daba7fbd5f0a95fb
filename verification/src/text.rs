//! Reading what a user typed: trimming, decimal numbers, yes and no.

use vstd::prelude::*;
use vstd::string::*;

verus! {

/// The views of a sequence of strings, in order.
pub open spec fn texts(strings: Seq<String>) -> Seq<Seq<char>> {
    strings.map_values(|s: String| s@)
}

/// Whether `c` is a space, a tab, a carriage return or a line feed.
pub open spec fn is_blank(c: char) -> bool {
    c == ' ' || c == '\t' || c == '\r' || c == '\n'
}

/// The first index from `from` on that holds no blank, or the length.
pub open spec fn skip_blanks(s: Seq<char>, from: int) -> int
    decreases s.len() - from,
{
    if 0 <= from < s.len() && is_blank(s[from]) {
        skip_blanks(s, from + 1)
    } else {
        from
    }
}

/// The least length up to `to` after which only blanks follow.
pub open spec fn drop_blanks(s: Seq<char>, to: int) -> int
    decreases to,
{
    if 0 < to <= s.len() && is_blank(s[to - 1]) {
        drop_blanks(s, to - 1)
    } else {
        to
    }
}

/// `s` without its leading blanks.
pub open spec fn trimmed_start(s: Seq<char>) -> Seq<char> {
    s.subrange(skip_blanks(s, 0), s.len() as int)
}

/// `s` without its trailing blanks.
pub open spec fn trimmed_end(s: Seq<char>) -> Seq<char> {
    s.subrange(0, drop_blanks(s, s.len() as int))
}

/// `s` without its leading and trailing blanks.
pub open spec fn trimmed(s: Seq<char>) -> Seq<char> {
    trimmed_end(trimmed_start(s))
}

/// Whether `c` is a blank.
fn blank(c: char) -> (b: bool)
    ensures
        b == is_blank(c),
{
    c == ' ' || c == '\t' || c == '\r' || c == '\n'
}

/// `line` without its leading and trailing blanks.
pub fn trim(line: &String) -> (text: String)
    ensures
        text@ == trimmed(line@),
{
    let whole = line.as_str();
    let n = whole.unicode_len();
    let mut a: usize = 0;
    while a < n && blank(whole.get_char(a))
        invariant
            a <= n,
            n == whole@.len(),
            skip_blanks(whole@, 0) == skip_blanks(whole@, a as int),
        decreases n - a,
    {
        a = a + 1;
    }
    let rest = whole.substring_char(a, n);
    assert(rest@ == trimmed_start(line@));
    let mut b: usize = n - a;
    while b > 0 && blank(rest.get_char(b - 1))
        invariant
            b <= rest@.len(),
            drop_blanks(rest@, rest@.len() as int) == drop_blanks(rest@, b as int),
        decreases b,
    {
        b = b - 1;
    }
    let kept = rest.substring_char(0, b);
    String::from_str(kept)
}

/// Whether `text` reads exactly as `word`.
pub fn reads_as(text: &String, word: &str) -> (same: bool)
    ensures
        same == (text@ == word@),
{
    *text == String::from_str(word)
}

/// Whether `text` holds no character.
pub fn is_empty(text: &String) -> (empty: bool)
    ensures
        empty == (text@.len() == 0),
{
    text.as_str().unicode_len() == 0
}

/// Whether `c` is a decimal digit.
pub open spec fn is_digit(c: char) -> bool {
    '0' <= c <= '9'
}

/// The value of the decimal digit `c`.
pub open spec fn digit_value(c: char) -> nat {
    (c as int - '0' as int) as nat
}

/// Whether `s` holds decimal digits only.
pub open spec fn all_digits(s: Seq<char>) -> bool {
    forall|i: int| 0 <= i < s.len() ==> is_digit(#[trigger] s[i])
}

/// The number that the decimal digits of `s` write.
pub open spec fn decimal_value(s: Seq<char>) -> nat
    decreases s.len(),
{
    if s.len() == 0 {
        0
    } else {
        decimal_value(s.drop_last()) * 10 + digit_value(s.last())
    }
}

/// The number that `s` writes: `s` is one or more decimal digits and the
/// number fits the machine's word. Anything else is no number.
pub open spec fn number_of(s: Seq<char>) -> Option<usize> {
    if s.len() > 0 && all_digits(s) && decimal_value(s) <= usize::MAX {
        Some(decimal_value(s) as usize)
    } else {
        None
    }
}

/// A longer run of digits writes no smaller a number than its start.
pub proof fn lemma_prefix_value(s: Seq<char>, i: int)
    requires
        0 <= i <= s.len(),
    ensures
        decimal_value(s.take(i)) <= decimal_value(s),
    decreases s.len() - i,
{
    if i < s.len() {
        lemma_prefix_value(s, i + 1);
        assert(s.take(i + 1).drop_last() == s.take(i));
    } else {
        assert(s.take(i) == s);
    }
}

/// The value of the digit `c`, if it is one.
fn digit(c: char) -> (d: Option<usize>)
    ensures
        match d {
            Some(v) => is_digit(c) && v == digit_value(c),
            None => !is_digit(c),
        },
{
    match c {
        '0' => Some(0),
        '1' => Some(1),
        '2' => Some(2),
        '3' => Some(3),
        '4' => Some(4),
        '5' => Some(5),
        '6' => Some(6),
        '7' => Some(7),
        '8' => Some(8),
        '9' => Some(9),
        _ => None,
    }
}

/// Reads `text` as a decimal number.
pub fn parse_number(text: &String) -> (n: Option<usize>)
    ensures
        n == number_of(text@),
{
    let s = text.as_str();
    let len = s.unicode_len();
    if len == 0 {
        return None;
    }
    let mut value: usize = 0;
    let mut i: usize = 0;
    while i < len
        invariant
            i <= len,
            len == s@.len(),
            s@ == text@,
            all_digits(s@.take(i as int)),
            value == decimal_value(s@.take(i as int)),
        decreases len - i,
    {
        let ghost next = s@.take(i + 1);
        proof {
            assert(next.drop_last() == s@.take(i as int));
            assert(next.last() == s@[i as int]);
            lemma_prefix_value(s@, i + 1);
        }
        let d = match digit(s.get_char(i)) {
            Some(d) => d,
            None => {
                return None;
            },
        };
        let tens = match value.checked_mul(10) {
            Some(t) => t,
            None => {
                return None;
            },
        };
        value = match tens.checked_add(d) {
            Some(v) => v,
            None => {
                return None;
            },
        };
        assert(all_digits(next)) by {
            assert forall|k: int| 0 <= k < next.len() implies is_digit(#[trigger] next[k]) by {
                if k < i {
                    assert(next[k] == s@.take(i as int)[k]);
                }
            }
        }
        i = i + 1;
    }
    assert(s@.take(i as int) == s@);
    Some(value)
}

/// What `t` answers to a yes-or-no question: `y` and `yes` are yes; `n`,
/// `no` and nothing at all are no; anything else is no answer.
pub open spec fn yes_no_of(t: Seq<char>) -> Option<bool> {
    if t == "y"@ || t == "yes"@ {
        Some(true)
    } else if t == "n"@ || t == "no"@ || t.len() == 0 {
        Some(false)
    } else {
        None
    }
}

/// Reads `text` as the answer to a yes-or-no question.
pub fn parse_yes_no(text: &String) -> (answer: Option<bool>)
    ensures
        answer == yes_no_of(text@),
{
    if reads_as(text, "y") || reads_as(text, "yes") {
        Some(true)
    } else if reads_as(text, "n") || reads_as(text, "no") || is_empty(text) {
        Some(false)
    } else {
        None
    }
}

} // verus!

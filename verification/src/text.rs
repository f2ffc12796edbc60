//! Text predicates and the few string operations the relay needs.

use vstd::prelude::*;
use vstd::string::{StrSliceExecFns, StringExecFns};

verus! {

/// Whether `c` has the Unicode `White_Space` property, as
/// `char::is_whitespace` reports it.
pub uninterp spec fn is_white_space(c: char) -> bool;

/// `char::is_whitespace`: the answer is the `White_Space` property of `c`,
/// which depends on `c` alone.
#[verifier::external_body]
fn char_is_whitespace(c: char) -> (b: bool)
    ensures
        b == is_white_space(c),
{
    c.is_whitespace()
}

/// A text is blank when every character of it is white space; the empty
/// text is blank.
pub open spec fn blank(s: Seq<char>) -> bool {
    forall|i: int| 0 <= i < s.len() ==> is_white_space(#[trigger] s[i])
}

/// Decides whether `s` is blank, that is, whether trimming it leaves nothing.
pub fn is_blank(s: &str) -> (b: bool)
    ensures
        b == blank(s@),
{
    let mut all: bool = true;
    for c in it: s.chars()
        invariant
            it.seq() == s@,
            all == (forall|j: int| 0 <= j < it.index() ==> is_white_space(#[trigger] s@[j])),
    {
        all = all && char_is_whitespace(c);
    }
    all
}

/// The characters of a text that may be absent.
pub open spec fn owned_view(value: Option<String>) -> Option<Seq<char>> {
    match value {
        Some(text) => Some(text@),
        None => None,
    }
}

/// The characters of a borrowed text that may be absent.
pub open spec fn borrowed_view(value: Option<&str>) -> Option<Seq<char>> {
    match value {
        Some(text) => Some(text@),
        None => None,
    }
}

/// Whether two texts hold the same characters.
pub fn same_text(a: &str, b: &str) -> (same: bool)
    ensures
        same == (a@ == b@),
{
    let left: String = a.to_owned();
    let right: String = b.to_owned();
    left == right
}

/// `s` without the run of `c` at its end.
pub open spec fn without_trailing(s: Seq<char>, c: char) -> Seq<char>
    decreases s.len(),
{
    if s.len() > 0 && s.last() == c {
        without_trailing(s.drop_last(), c)
    } else {
        s
    }
}

/// Cuts every `c` off the end of `s`.
pub fn strip_trailing(s: &str, c: char) -> (stripped: &str)
    ensures
        stripped@ == without_trailing(s@, c),
{
    let mut end: usize = s.unicode_len();
    assert(s@.take(end as int) == s@);
    while end > 0 && s.get_char(end - 1) == c
        invariant
            end <= s@.len(),
            without_trailing(s@, c) == without_trailing(s@.take(end as int), c),
        decreases end,
    {
        assert(s@.take(end as int).drop_last() == s@.take(end - 1));
        end -= 1;
    }
    s.substring_char(0, end)
}

/// Joins two texts.
pub fn join(head: &str, tail: &str) -> (joined: String)
    ensures
        joined@ == head@ + tail@,
{
    let mut joined = String::from_str(head);
    joined.append(tail);
    joined
}

/// The ten digits.
pub open spec fn digit(d: nat) -> char
    recommends
        d < 10,
{
    seq!['0', '1', '2', '3', '4', '5', '6', '7', '8', '9'][d as int]
}

/// A number written in decimal, without sign or leading zeros.
pub open spec fn decimal(n: nat) -> Seq<char>
    decreases n,
{
    if n < 10 {
        seq![digit(n)]
    } else {
        decimal(n / 10).push(digit(n % 10))
    }
}

/// One digit as a text.
fn digit_text(d: u16) -> (text: &'static str)
    requires
        d < 10,
    ensures
        text@ == seq![digit(d as nat)],
{
    proof {
        reveal_strlit("0");
        reveal_strlit("1");
        reveal_strlit("2");
        reveal_strlit("3");
        reveal_strlit("4");
        reveal_strlit("5");
        reveal_strlit("6");
        reveal_strlit("7");
        reveal_strlit("8");
        reveal_strlit("9");
    }
    if d == 0 {
        "0"
    } else if d == 1 {
        "1"
    } else if d == 2 {
        "2"
    } else if d == 3 {
        "3"
    } else if d == 4 {
        "4"
    } else if d == 5 {
        "5"
    } else if d == 6 {
        "6"
    } else if d == 7 {
        "7"
    } else if d == 8 {
        "8"
    } else {
        "9"
    }
}

/// Appends `n`, written in decimal, to `out`.
pub fn push_decimal(out: &mut String, n: u16)
    ensures
        final(out)@ == old(out)@ + decimal(n as nat),
    decreases n,
{
    if n >= 10 {
        push_decimal(out, n / 10);
    }
    out.append(digit_text(n % 10));
}

} // verus!

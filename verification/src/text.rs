//! Characters and strings: what the library asks of the standard library's
//! Unicode tables, and the scanning built on it.

use vstd::prelude::*;
use vstd::string::*;

verus! {

/// Whether a character has the Unicode property `White_Space`, as
/// `char::is_whitespace` tells.
pub uninterp spec fn whitespace(c: char) -> bool;

/// Whether a character is alphabetic or numeric in Unicode's terms, as
/// `char::is_alphanumeric` tells.
pub uninterp spec fn alphanumeric(c: char) -> bool;

/// The lowercase of a string, as `str::to_lowercase` gives it.
pub uninterp spec fn lowercased(text: Seq<char>) -> Seq<char>;

/// How many characters at the start of `text` are whitespace.
pub open spec fn leading_whitespace(text: Seq<char>) -> nat
    decreases text.len(),
{
    if text.len() > 0 && whitespace(text[0]) {
        1 + leading_whitespace(text.drop_first())
    } else {
        0
    }
}

/// How many characters at the end of `text` are whitespace.
pub open spec fn trailing_whitespace(text: Seq<char>) -> nat
    decreases text.len(),
{
    if text.len() > 0 && whitespace(text.last()) {
        1 + trailing_whitespace(text.drop_last())
    } else {
        0
    }
}

/// `text` without the whitespace at its start and at its end.
pub open spec fn trimmed(text: Seq<char>) -> Seq<char> {
    let rest = text.skip(leading_whitespace(text) as int);
    rest.take(rest.len() - trailing_whitespace(rest))
}

/// Calls `char::is_whitespace`.
///
/// Trusted: the answer is the character's `White_Space` property, the same
/// for the same character.
#[verifier::external_body]
pub(crate) fn is_whitespace(c: char) -> (yes: bool)
    ensures
        yes == whitespace(c),
{
    c.is_whitespace()
}

/// Calls `char::is_alphanumeric`.
///
/// Trusted: the answer is a property of the character alone.
#[verifier::external_body]
pub(crate) fn is_alphanumeric(c: char) -> (yes: bool)
    ensures
        yes == alphanumeric(c),
{
    c.is_alphanumeric()
}

/// Calls `str::to_lowercase`.
///
/// Trusted: the result depends on the text alone.
#[verifier::external_body]
pub(crate) fn to_lowercase(text: &str) -> (lower: String)
    ensures
        lower@ == lowercased(text@),
{
    text.to_lowercase()
}

/// Calls `str::trim`.
///
/// Trusted: the result is the text without its leading and trailing
/// characters that `char::is_whitespace` accepts.
#[verifier::external_body]
pub(crate) fn trim(text: &str) -> (inner: &str)
    ensures
        inner@ == trimmed(text@),
{
    text.trim()
}

/// The characters of a string, in order.
pub fn chars_of(text: &str) -> (chars: Vec<char>)
    ensures
        chars@ == text@,
{
    let mut chars: Vec<char> = Vec::new();
    for c in it: text.chars()
        invariant
            it.seq() == text@,
            chars@ == it.seq().take(it.index()),
    {
        chars.push(c);
    }
    chars
}

/// Whether a text is empty or all whitespace.
pub open spec fn blank(text: Seq<char>) -> bool {
    forall|i: int| 0 <= i < text.len() ==> whitespace(#[trigger] text[i])
}

proof fn lemma_leading_whitespace(text: Seq<char>)
    ensures
        leading_whitespace(text) <= text.len(),
        forall|i: int| 0 <= i < leading_whitespace(text) ==> whitespace(#[trigger] text[i]),
        leading_whitespace(text) < text.len() ==> !whitespace(
            text[leading_whitespace(text) as int],
        ),
    decreases text.len(),
{
    if text.len() > 0 && whitespace(text[0]) {
        let rest = text.drop_first();
        lemma_leading_whitespace(rest);
        assert forall|i: int| 0 <= i < leading_whitespace(text) implies whitespace(
            #[trigger] text[i],
        ) by {
            if i > 0 {
                assert(text[i] == rest[i - 1]);
            }
        }
        if leading_whitespace(text) < text.len() {
            assert(text[leading_whitespace(text) as int] == rest[leading_whitespace(rest) as int]);
        }
    }
}

proof fn lemma_trailing_whitespace(text: Seq<char>)
    ensures
        trailing_whitespace(text) <= text.len(),
        forall|i: int|
            text.len() - trailing_whitespace(text) <= i < text.len() ==> whitespace(
                #[trigger] text[i],
            ),
        trailing_whitespace(text) < text.len() ==> !whitespace(
            text[text.len() - trailing_whitespace(text) - 1],
        ),
    decreases text.len(),
{
    if text.len() > 0 && whitespace(text.last()) {
        let rest = text.drop_last();
        lemma_trailing_whitespace(rest);
        assert forall|i: int|
            text.len() - trailing_whitespace(text) <= i < text.len() implies whitespace(
            #[trigger] text[i],
        ) by {
            if i < text.len() - 1 {
                assert(text[i] == rest[i]);
            }
        }
        if trailing_whitespace(text) < text.len() {
            assert(text[text.len() - trailing_whitespace(text) - 1] == rest[rest.len()
                - trailing_whitespace(rest) - 1]);
        }
    }
}

/// A text is blank exactly if nothing is left of it once it is trimmed.
pub proof fn lemma_blank_is_trimmed_empty(text: Seq<char>)
    ensures
        blank(text) <==> trimmed(text).len() == 0,
{
    lemma_leading_whitespace(text);
    let rest = text.skip(leading_whitespace(text) as int);
    lemma_trailing_whitespace(rest);
    if trimmed(text).len() == 0 {
        assert forall|i: int| 0 <= i < text.len() implies whitespace(#[trigger] text[i]) by {
            if i >= leading_whitespace(text) {
                assert(text[i] == rest[i - leading_whitespace(text)]);
            }
        }
    }
    if blank(text) {
        if leading_whitespace(text) < text.len() {
            assert(whitespace(text[leading_whitespace(text) as int]));
        }
    }
}

/// Whether a text is empty or all whitespace.
pub fn is_blank(text: &str) -> (yes: bool)
    ensures
        yes == blank(text@),
{
    let chars = chars_of(text);
    let mut i: usize = 0;
    while i < chars.len()
        invariant
            i <= chars.len(),
            chars@ == text@,
            forall|j: int| 0 <= j < i ==> whitespace(#[trigger] text@[j]),
        decreases chars.len() - i,
    {
        if !is_whitespace(chars[i]) {
            return false;
        }
        i = i + 1;
    }
    true
}

/// The character of a decimal digit.
pub open spec fn digit_char(digit: nat) -> char
    recommends
        digit < 10,
{
    if digit == 0 {
        '0'
    } else if digit == 1 {
        '1'
    } else if digit == 2 {
        '2'
    } else if digit == 3 {
        '3'
    } else if digit == 4 {
        '4'
    } else if digit == 5 {
        '5'
    } else if digit == 6 {
        '6'
    } else if digit == 7 {
        '7'
    } else if digit == 8 {
        '8'
    } else {
        '9'
    }
}

/// A natural number in decimal, without leading zeros.
pub open spec fn digits_of(n: nat) -> Seq<char>
    decreases n,
{
    if n < 10 {
        seq![digit_char(n)]
    } else {
        digits_of(n / 10).push(digit_char(n % 10))
    }
}

/// An integer in decimal, with `-` before a negative one.
pub open spec fn decimal_text(n: int) -> Seq<char> {
    if n < 0 {
        seq!['-'] + digits_of((-n) as nat)
    } else {
        digits_of(n as nat)
    }
}

fn digit_str(digit: u64) -> (text: &'static str)
    requires
        digit < 10,
    ensures
        text@ == seq![digit_char(digit as nat)],
{
    proof {
        reveal_strlit("0");
        reveal_strlit("1");
        reveal_strlit("2");
        reveal_strlit("3");
        reveal_strlit("4");
        reveal_strlit("5");
        reveal_strlit("6");
        reveal_strlit("7");
        reveal_strlit("8");
        reveal_strlit("9");
    }
    let text = if digit == 0 {
        "0"
    } else if digit == 1 {
        "1"
    } else if digit == 2 {
        "2"
    } else if digit == 3 {
        "3"
    } else if digit == 4 {
        "4"
    } else if digit == 5 {
        "5"
    } else if digit == 6 {
        "6"
    } else if digit == 7 {
        "7"
    } else if digit == 8 {
        "8"
    } else {
        "9"
    };
    assert(text@ =~= seq![digit_char(digit as nat)]);
    text
}

fn append_digits(n: u64, out: &mut String)
    ensures
        final(out)@ == old(out)@ + digits_of(n as nat),
    decreases n,
{
    if n >= 10 {
        append_digits(n / 10, out);
    }
    out.append(digit_str(n % 10));
    proof {
        if n >= 10 {
            assert(old(out)@ + digits_of((n / 10) as nat) + seq![digit_char((n % 10) as nat)]
                =~= old(out)@ + digits_of(n as nat));
        }
    }
}

/// An integer in decimal.
pub fn decimal(n: i32) -> (text: String)
    ensures
        text@ == decimal_text(n as int),
{
    let mut text = String::new();
    let wide: i64 = n as i64;
    if wide < 0 {
        text.append("-");
        proof {
            reveal_strlit("-");
        }
        append_digits((0 - wide) as u64, &mut text);
        assert(text@ =~= decimal_text(n as int));
    } else {
        append_digits(wide as u64, &mut text);
        assert(text@ =~= decimal_text(n as int));
    }
    text
}

} // verus!

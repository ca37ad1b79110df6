//! Checks on what the user typed, and the command that opens a browser.

use crate::process::{texts, CommandLine};
use crate::text::{alphanumeric, chars_of, is_alphanumeric, lowercased, to_lowercase, trim, trimmed};
use vstd::prelude::*;
use vstd::string::*;

verus! {

/// Whether a character is one of the ten decimal digits.
pub open spec fn is_digit(c: char) -> bool {
    '0' <= c <= '9'
}

/// The number that a run of decimal digits writes.
pub open spec fn digits_value(digits: Seq<char>) -> nat
    decreases digits.len(),
{
    if digits.len() == 0 {
        0
    } else {
        digits_value(digits.drop_last()) * 10 + (digits.last() as nat - '0' as nat) as nat
    }
}

/// Whether a text writes a number from 0 to 255 the way `u8::from_str`
/// reads one: an optional `+`, then one or more decimal digits, leading
/// zeros allowed, and nothing else.
pub open spec fn is_u8_literal(text: Seq<char>) -> bool {
    if text.len() > 0 && text[0] == '+' {
        is_u8_digits(text.drop_first())
    } else {
        is_u8_digits(text)
    }
}

/// Whether a text is one or more decimal digits that write a number of at
/// most 255.
pub open spec fn is_u8_digits(digits: Seq<char>) -> bool {
    &&& digits.len() > 0
    &&& forall|i: int| 0 <= i < digits.len() ==> is_digit(#[trigger] digits[i])
    &&& digits_value(digits) <= 255
}

/// The texts that a list of character vectors holds.
pub open spec fn texts_of(parts: Seq<Vec<char>>) -> Seq<Seq<char>> {
    parts.map_values(|part: Vec<char>| part@)
}

/// The pieces of a text between its dots: one more piece than it has dots,
/// each without a dot, some perhaps empty.
pub open spec fn dot_parts(text: Seq<char>) -> Seq<Seq<char>>
    decreases text.len(),
{
    if text.len() == 0 {
        seq![Seq::<char>::empty()]
    } else {
        let before = dot_parts(text.drop_last());
        if text.last() == '.' {
            before.push(Seq::<char>::empty())
        } else {
            before.drop_last().push(before.last().push(text.last()))
        }
    }
}

/// Whether a text is four numbers from 0 to 255 with dots between them.
pub open spec fn valid_ip(ip: Seq<char>) -> bool {
    let parts = dot_parts(ip);
    &&& parts.len() == 4
    &&& forall|k: int| 0 <= k < 4 ==> is_u8_literal(#[trigger] parts[k])
}

/// Whether a character may stand in a server name.
pub open spec fn name_char(c: char) -> bool {
    alphanumeric(c) || c == '-' || c == '_'
}

/// Whether a text is a server name: not empty, and letters, digits,
/// hyphens and underscores only.
pub open spec fn valid_server_name(name: Seq<char>) -> bool {
    &&& name.len() > 0
    &&& forall|i: int| 0 <= i < name.len() ==> name_char(#[trigger] name[i])
}

proof fn lemma_dot_parts_nonempty(text: Seq<char>)
    ensures
        dot_parts(text).len() >= 1,
    decreases text.len(),
{
    if text.len() > 0 {
        lemma_dot_parts_nonempty(text.drop_last());
    }
}

proof fn lemma_digits_value_grows(digits: Seq<char>, n: int)
    requires
        0 <= n <= digits.len(),
        forall|i: int| 0 <= i < digits.len() ==> is_digit(#[trigger] digits[i]),
    ensures
        digits_value(digits.take(n)) <= digits_value(digits),
    decreases digits.len() - n,
{
    if n == digits.len() {
        assert(digits.take(n) =~= digits);
    } else {
        lemma_digits_value_grows(digits, n + 1);
        assert(digits.take(n + 1).drop_last() =~= digits.take(n));
        assert(is_digit(digits[n]));
        assert(digits.take(n + 1).last() == digits[n]);
    }
}

/// Whether the characters from `from` on are decimal digits that write a
/// number of at most 255.
fn digits_fit_u8(text: &Vec<char>, from: usize) -> (fit: bool)
    requires
        from <= text.len(),
    ensures
        fit == is_u8_digits(text@.skip(from as int)),
{
    let ghost digits = text@.skip(from as int);
    if from == text.len() {
        return false;
    }
    let mut value: u32 = 0;
    let mut i: usize = from;
    while i < text.len()
        invariant
            from <= i <= text.len(),
            digits == text@.skip(from as int),
            forall|j: int| 0 <= j < i - from ==> is_digit(#[trigger] digits[j]),
            value == digits_value(digits.take(i - from)),
            value <= 255,
        decreases text.len() - i,
    {
        let c = text[i];
        if !('0' <= c && c <= '9') {
            assert(!is_digit(digits[i - from]));
            return false;
        }
        let digit: u32 = c as u32 - '0' as u32;
        proof {
            assert(digits[i - from] == c);
            assert(digits.take(i - from + 1).drop_last() =~= digits.take(i - from));
            assert(digits.take(i - from + 1).last() == c);
        }
        value = value * 10 + digit;
        i = i + 1;
        if value > 255 {
            proof {
                if forall|j: int| 0 <= j < digits.len() ==> is_digit(#[trigger] digits[j]) {
                    lemma_digits_value_grows(digits, i - from);
                }
            }
            return false;
        }
    }
    proof {
        assert(digits.take(i - from) =~= digits);
    }
    true
}

/// Whether a text writes a number from 0 to 255 as `u8::from_str` reads one.
fn parses_as_u8(text: &Vec<char>) -> (ok: bool)
    ensures
        ok == is_u8_literal(text@),
{
    if text.len() > 0 && text[0] == '+' {
        proof {
            assert(text@.drop_first() =~= text@.skip(1));
        }
        digits_fit_u8(text, 1)
    } else {
        proof {
            assert(text@.skip(0) =~= text@);
        }
        digits_fit_u8(text, 0)
    }
}

/// The pieces of a text between its dots.
fn split_at_dots(text: &Vec<char>) -> (parts: Vec<Vec<char>>)
    ensures
        texts_of(parts@) == dot_parts(text@),
{
    let mut done: Vec<Vec<char>> = Vec::new();
    let mut current: Vec<char> = Vec::new();
    let mut i: usize = 0;
    proof {
        assert(text@.take(0) =~= Seq::<char>::empty());
        assert(texts_of(done@).push(current@) =~= dot_parts(text@.take(0)));
    }
    while i < text.len()
        invariant
            i <= text.len(),
            texts_of(done@).push(current@) == dot_parts(text@.take(i as int)),
        decreases text.len() - i,
    {
        let c = text[i];
        proof {
            assert(text@.take(i + 1).drop_last() =~= text@.take(i as int));
            assert(text@.take(i + 1).last() == c);
        }
        let ghost before = texts_of(done@).push(current@);
        if c == '.' {
            done.push(current);
            current = Vec::new();
            proof {
                assert(texts_of(done@) =~= before);
            }
        } else {
            current.push(c);
            proof {
                assert(before.drop_last() =~= texts_of(done@));
                assert(texts_of(done@).push(current@) =~= before.drop_last().push(
                    before.last().push(c),
                ));
            }
        }
        i = i + 1;
    }
    proof {
        assert(text@.take(i as int) =~= text@);
    }
    let ghost before = texts_of(done@).push(current@);
    done.push(current);
    proof {
        assert(texts_of(done@) =~= before);
    }
    done
}

/// Whether an address is four numbers from 0 to 255 with dots between them.
pub fn is_valid_ip(ip: &str) -> (valid: bool)
    ensures
        valid == valid_ip(ip@),
{
    let chars = chars_of(ip);
    let parts = split_at_dots(&chars);
    if parts.len() != 4 {
        return false;
    }
    let mut k: usize = 0;
    while k < 4
        invariant
            k <= 4,
            parts.len() == 4,
            texts_of(parts@) == dot_parts(ip@),
            forall|j: int| 0 <= j < k ==> is_u8_literal(#[trigger] dot_parts(ip@)[j]),
        decreases 4 - k,
    {
        proof {
            assert(texts_of(parts@)[k as int] == parts@[k as int]@);
        }
        if !parses_as_u8(&parts[k]) {
            return false;
        }
        k = k + 1;
    }
    true
}

/// Whether a server name is not empty and holds letters, digits, hyphens
/// and underscores only.
pub fn is_valid_server_name(name: &str) -> (valid: bool)
    ensures
        valid == valid_server_name(name@),
{
    let chars = chars_of(name);
    if chars.len() == 0 {
        return false;
    }
    let mut i: usize = 0;
    while i < chars.len()
        invariant
            i <= chars.len(),
            chars@ == name@,
            forall|j: int| 0 <= j < i ==> name_char(#[trigger] name@[j]),
        decreases chars.len() - i,
    {
        let c = chars[i];
        if !(is_alphanumeric(c) || c == '-' || c == '_') {
            assert(!name_char(name@[i as int]));
            return false;
        }
        i = i + 1;
    }
    true
}

/// Whether an answer, trimmed and in lowercase, is `y` or `yes`.
pub open spec fn affirmative(answer: Seq<char>) -> bool {
    let reply = lowercased(trimmed(answer));
    reply == "y"@ || reply == "yes"@
}

/// Whether the user's answer to a yes-or-no question means yes.
pub fn is_affirmative(answer: &str) -> (yes: bool)
    ensures
        yes == affirmative(answer@),
{
    let reply = to_lowercase(trim(answer));
    reply == "y".to_string() || reply == "yes".to_string()
}

/// The question put to the user before a change: the message, then ` [y/N]: `.
pub fn confirm_prompt(message: &str) -> (prompt: String)
    ensures
        prompt@ == message@ + " [y/N]: "@,
{
    let mut prompt = message.to_string();
    prompt.append(" [y/N]: ");
    prompt
}

/// The kind of system that the program runs on.
#[derive(Debug, Clone, Copy, PartialEq, Eq, Structural)]
pub enum Platform {
    Windows,
    MacOs,
    Linux,
    /// Any other system: no way to open a browser is known there.
    Other,
}

/// The command line that opens a URL in the user's default browser:
/// `cmd /C start` on Windows, `open` on macOS, `xdg-open` on Linux.
///
/// The command is to be started and left alone; whether it starts has no
/// bearing on anything.
pub fn open_browser(platform: Platform, url: &str) -> (command: Option<CommandLine>)
    ensures
        match platform {
            Platform::Windows => command matches Some(c) && c.program@ == "cmd"@ && texts(c.args@)
                == seq!["/C"@, "start"@, url@],
            Platform::MacOs => command matches Some(c) && c.program@ == "open"@ && texts(c.args@)
                == seq![url@],
            Platform::Linux => command matches Some(c) && c.program@ == "xdg-open"@ && texts(
                c.args@,
            ) == seq![url@],
            Platform::Other => command is None,
        },
{
    let mut args: Vec<String> = Vec::new();
    match platform {
        Platform::Windows => {
            args.push("/C".to_string());
            args.push("start".to_string());
            args.push(url.to_string());
            proof {
                assert(texts(args@) =~= seq!["/C"@, "start"@, url@]);
            }
            Some(CommandLine { program: "cmd".to_string(), args })
        },
        Platform::MacOs => {
            args.push(url.to_string());
            proof {
                assert(texts(args@) =~= seq![url@]);
            }
            Some(CommandLine { program: "open".to_string(), args })
        },
        Platform::Linux => {
            args.push(url.to_string());
            proof {
                assert(texts(args@) =~= seq![url@]);
            }
            Some(CommandLine { program: "xdg-open".to_string(), args })
        },
        Platform::Other => None,
    }
}

} // verus!

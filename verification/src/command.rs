//! Slash commands: a line is cut at its spaces into a name and arguments.

use crate::text::{decimal_unsigned, join, spec_decimal, str_chars, string_from_chars};
use vstd::prelude::*;
use vstd::string::*;

verus! {

/// The pieces that `s` falls into where it is cut at every `sep`. There is
/// always at least one piece, and a piece may be empty.
pub open spec fn spec_split(s: Seq<char>, sep: char) -> Seq<Seq<char>>
    decreases s.len(),
{
    if s.len() == 0 {
        seq![Seq::<char>::empty()]
    } else if s.last() == sep {
        spec_split(s.drop_last(), sep).push(Seq::<char>::empty())
    } else {
        let before = spec_split(s.drop_last(), sep);
        before.drop_last().push(before.last().push(s.last()))
    }
}

/// What is left of a command line without its leading slash.
pub open spec fn spec_command_text(line: Seq<char>) -> Seq<char> {
    if line.len() > 0 {
        line.skip(1)
    } else {
        line
    }
}

/// The number that a string of decimal digits spells.
pub open spec fn spec_digits_value(s: Seq<char>) -> nat
    decreases s.len(),
{
    if s.len() == 0 {
        0
    } else {
        spec_digits_value(s.drop_last()) * 10 + (s.last() as nat - 48) as nat
    }
}

/// Whether every character is a decimal digit.
pub open spec fn spec_all_digits(s: Seq<char>) -> bool {
    forall|i: int| 0 <= i < s.len() ==> '0' <= #[trigger] s[i] <= '9'
}

/// The number below 256 that a string spells: decimal digits, at least one,
/// after an optional plus sign.
pub open spec fn spec_parse_u8(s: Seq<char>) -> Option<u8> {
    let digits = if s.len() > 0 && s[0] == '+' {
        s.skip(1)
    } else {
        s
    };
    if digits.len() > 0 && spec_all_digits(digits) && spec_digits_value(digits) <= 255 {
        Some(spec_digits_value(digits) as u8)
    } else {
        None
    }
}

/// A longer string of digits spells no smaller a number than its start.
proof fn lemma_digits_value_grows(s: Seq<char>, n: int)
    requires
        spec_all_digits(s),
        0 <= n <= s.len(),
    ensures
        spec_digits_value(s.take(n)) <= spec_digits_value(s),
    decreases s.len() - n,
{
    if n < s.len() {
        lemma_digits_value_grows(s, n + 1);
        assert(s.take(n + 1).drop_last() =~= s.take(n));
        assert('0' <= s[n] <= '9');
        assert(s.take(n + 1).last() == s[n]);
    } else {
        assert(s.take(n) =~= s);
    }
}

/// Reads a number below 256 from its decimal form.
pub fn parse_u8(text: &str) -> (value: Option<u8>)
    ensures
        value == spec_parse_u8(text@),
{
    let chars = str_chars(text);
    let start: usize = if chars.len() > 0 && chars[0] == '+' {
        1
    } else {
        0
    };
    let ghost digits = if start == 1 {
        chars@.skip(1)
    } else {
        chars@
    };
    if chars.len() == start {
        return None;
    }
    let mut acc: u32 = 0;
    let mut i: usize = start;
    assert(digits.take(0) =~= Seq::<char>::empty());
    assert(digits =~= chars@.skip(start as int));
    while i < chars.len()
        invariant
            start <= i <= chars@.len(),
            start <= 1,
            chars@ == text@,
            chars@.len() > start,
            (start == 1) == (chars@.len() > 0 && chars@[0] == '+'),
            digits == if start == 1 {
                chars@.skip(1)
            } else {
                chars@
            },
            digits == chars@.skip(start as int),
            acc == spec_digits_value(digits.take(i - start)),
            acc <= 255,
            spec_all_digits(digits.take(i - start)),
        decreases chars@.len() - i,
    {
        let c: char = chars[i];
        assert(c == digits[i - start]);
        if c < '0' || c > '9' {
            assert(!spec_all_digits(digits)) by {
                if spec_all_digits(digits) {
                    assert('0' <= digits[i - start] <= '9');
                }
            }
            return None;
        }
        let d: u32 = c as u32 - 48;
        proof {
            assert(digits.take(i - start + 1).drop_last() =~= digits.take(i - start));
            assert(digits.take(i - start + 1).last() == c);
            assert(spec_all_digits(digits.take(i - start + 1))) by {
                assert forall|j: int| 0 <= j < i - start + 1 implies '0' <= #[trigger] digits.take(
                    i - start + 1,
                )[j] <= '9' by {
                    if j < i - start {
                        assert(digits.take(i - start)[j] == digits[j]);
                    }
                }
            }
        }
        assert(spec_digits_value(digits.take(i - start + 1)) == acc * 10 + d);
        if acc * 10 + d > 255 {
            proof {
                if spec_all_digits(digits) {
                    lemma_digits_value_grows(digits, i - start + 1);
                }
            }
            return None;
        }
        acc = acc * 10 + d;
        i = i + 1;
    }
    assert(digits.take(i - start) =~= digits);
    Some(acc as u8)
}

/// The message that argument `n`, counted from one, is missing.
pub open spec fn spec_missing_arg(n: nat) -> Seq<char> {
    "Missing argument "@ + spec_decimal(n)
}

/// The message that argument `n`, counted from one, cannot be read.
pub open spec fn spec_invalid_arg(n: nat) -> Seq<char> {
    "Argument "@ + spec_decimal(n) + " is not valid"@
}

/// The message that argument `n`, counted from one, is missing.
pub fn missing_arg_message(n: usize) -> (message: String)
    ensures
        message@ == spec_missing_arg(n as nat),
{
    join(String::from_str("Missing argument "), decimal_unsigned(n as u128).as_str())
}

/// The message that argument `n`, counted from one, cannot be read.
pub fn invalid_arg_message(n: usize) -> (message: String)
    ensures
        message@ == spec_invalid_arg(n as nat),
{
    let head = join(String::from_str("Argument "), decimal_unsigned(n as u128).as_str());
    join(head, " is not valid")
}

/// A command line, cut into its name and its arguments.
pub struct Command {
    parts: Vec<String>,
}

impl View for Command {
    type V = Seq<Seq<char>>;

    closed spec fn view(&self) -> Seq<Seq<char>> {
        self.parts@.map_values(|part: String| part@)
    }
}

impl Command {
    #[verifier::type_invariant]
    spec fn has_name(self) -> bool {
        self.parts@.len() >= 1
    }

    /// Cuts a command line at its spaces, after dropping its first
    /// character, the slash.
    pub fn parse(line: &str) -> (command: Command)
        ensures
            command@ == spec_split(spec_command_text(line@), ' '),
            command@.len() >= 1,
    {
        let chars = str_chars(line);
        let ghost text = spec_command_text(line@);
        let start: usize = if chars.len() > 0 {
            1
        } else {
            0
        };
        let mut parts: Vec<String> = Vec::new();
        let mut current: Vec<char> = Vec::new();
        let mut i: usize = start;
        assert(text.take(0) =~= Seq::<char>::empty());
        assert(parts@.map_values(|part: String| part@).push(current@) =~= spec_split(
            text.take(0),
            ' ',
        ));
        while i < chars.len()
            invariant
                start <= i <= chars@.len(),
                start <= 1,
                text == chars@.skip(start as int),
                parts@.map_values(|part: String| part@).push(current@) == spec_split(
                    text.take(i - start),
                    ' ',
                ),
            decreases chars@.len() - i,
        {
            let ghost done = parts@.map_values(|part: String| part@);
            let ghost piece = current@;
            let c: char = chars[i];
            proof {
                assert(text.take(i - start + 1).drop_last() =~= text.take(i - start));
                assert(text.take(i - start + 1).last() == c);
            }
            if c == ' ' {
                parts.push(string_from_chars(current.as_slice()));
                current = Vec::new();
                assert(parts@.map_values(|part: String| part@) =~= done.push(piece));
            } else {
                current.push(c);
                assert(done.push(piece).drop_last() =~= done);
            }
            i = i + 1;
        }
        assert(text.take(i - start) =~= text);
        let ghost done = parts@.map_values(|part: String| part@);
        parts.push(string_from_chars(current.as_slice()));
        let command = Command { parts };
        assert(command@ =~= done.push(current@));
        command
    }

    /// The command's name: the first piece of the line.
    pub fn name(&self) -> (name: &str)
        ensures
            self@.len() >= 1,
            name@ == self@[0],
    {
        proof {
            use_type_invariant(self);
        }
        self.parts[0].as_str()
    }

    /// The number of arguments.
    pub fn arg_count(&self) -> (count: usize)
        ensures
            count == self@.len() - 1,
    {
        proof {
            use_type_invariant(self);
        }
        self.parts.len() - 1
    }

    /// The text of the argument at `idx`, counted from zero, or the message
    /// that it is missing.
    pub fn arg_text(&self, idx: usize) -> (outcome: Result<&str, String>)
        ensures
            match outcome {
                Ok(text) => idx + 1 < self@.len() && text@ == self@[idx + 1],
                Err(message) => idx + 1 >= self@.len() && message@ == "Missing argument "@
                    + spec_decimal((idx + 1) as nat),
            },
    {
        if idx >= self.parts.len() || idx + 1 >= self.parts.len() {
            return Err(
                join(
                    String::from_str("Missing argument "),
                    decimal_unsigned(idx as u128 + 1).as_str(),
                ),
            );
        }
        Ok(self.parts[idx + 1].as_str())
    }

    /// The argument at `idx`, counted from zero, as a number below 256; or
    /// the message that it is missing or no such number.
    pub fn arg(&self, idx: usize) -> (outcome: Result<u8, String>)
        ensures
            match outcome {
                Ok(value) => idx + 1 < self@.len() && spec_parse_u8(self@[idx + 1]) == Some(value),
                Err(message) => if idx + 1 >= self@.len() {
                    message@ == "Missing argument "@ + spec_decimal((idx + 1) as nat)
                } else {
                    spec_parse_u8(self@[idx + 1]) is None && message@ == "Argument "@
                        + spec_decimal((idx + 1) as nat) + " is not valid"@
                },
            },
    {
        let text = self.arg_text(idx)?;
        match parse_u8(text) {
            Some(value) => Ok(value),
            None => {
                let head = join(
                    String::from_str("Argument "),
                    decimal_unsigned(idx as u128 + 1).as_str(),
                );
                Err(join(head, " is not valid"))
            },
        }
    }
}

} // verus!

//! Readers for the values of a profile: colours, durations and defaults.

use vstd::prelude::*;

use super::{InvalidProfile, InvalidReason};
use crate::color::{html_color, parse_html_color, Color};
use crate::positive::Positive;
use crate::text::chars_of;
use crate::time::Duration;

verus! {

/// The characters that Unicode calls white space.
pub open spec fn spec_is_white_space(c: char) -> bool {
    ||| c == ' '
    ||| c == '\u{9}'
    ||| c == '\u{a}'
    ||| c == '\u{b}'
    ||| c == '\u{c}'
    ||| c == '\u{d}'
    ||| c == '\u{85}'
    ||| c == '\u{a0}'
    ||| c == '\u{1680}'
    ||| c == '\u{2000}'
    ||| c == '\u{2001}'
    ||| c == '\u{2002}'
    ||| c == '\u{2003}'
    ||| c == '\u{2004}'
    ||| c == '\u{2005}'
    ||| c == '\u{2006}'
    ||| c == '\u{2007}'
    ||| c == '\u{2008}'
    ||| c == '\u{2009}'
    ||| c == '\u{200a}'
    ||| c == '\u{2028}'
    ||| c == '\u{2029}'
    ||| c == '\u{202f}'
    ||| c == '\u{205f}'
    ||| c == '\u{3000}'
}

/// The value of a decimal digit, or `None` for any other character.
pub open spec fn spec_digit(c: char) -> Option<nat> {
    if c == '0' {
        Some(0)
    } else if c == '1' {
        Some(1)
    } else if c == '2' {
        Some(2)
    } else if c == '3' {
        Some(3)
    } else if c == '4' {
        Some(4)
    } else if c == '5' {
        Some(5)
    } else if c == '6' {
        Some(6)
    } else if c == '7' {
        Some(7)
    } else if c == '8' {
        Some(8)
    } else if c == '9' {
        Some(9)
    } else {
        None
    }
}

/// The positions of the commas among the first `n` characters of `text`, in
/// rising order.
pub open spec fn comma_positions(text: Seq<char>, n: nat) -> Seq<int>
    decreases n,
{
    if n == 0 || n > text.len() {
        Seq::empty()
    } else if text[n - 1] == ',' {
        comma_positions(text, (n - 1) as nat).push(n - 1)
    } else {
        comma_positions(text, (n - 1) as nat)
    }
}

/// Where `text[from..to]` begins once the white space at its start is left
/// out.
pub open spec fn trimmed_start(text: Seq<char>, from: int, to: int) -> int
    decreases to - from,
{
    if 0 <= from < to <= text.len() && spec_is_white_space(text[from]) {
        trimmed_start(text, from + 1, to)
    } else {
        from
    }
}

/// Where `text[from..to]` ends once the white space at its end is left out.
pub open spec fn trimmed_end(text: Seq<char>, from: int, to: int) -> int
    decreases to - from,
{
    if 0 <= from < to <= text.len() && spec_is_white_space(text[to - 1]) {
        trimmed_end(text, from, to - 1)
    } else {
        to
    }
}

/// The number that the digits `text[from..to]` add to the digits read so far,
/// whose value is `value`. The text is read from the left, and the first
/// character that is no digit, or the first digit that takes the value above
/// 255, ends the reading with that fault.
pub open spec fn digits_value(text: Seq<char>, from: int, to: int, value: nat) -> Result<u8, InvalidReason>
    decreases to - from,
{
    if !(0 <= from < to <= text.len()) {
        Ok(value as u8)
    } else {
        match spec_digit(text[from]) {
            None => Err(InvalidReason::MalformedColor),
            Some(digit) => {
                if value * 10 + digit > 255 {
                    Err(InvalidReason::ColorComponentOutOfRange)
                } else {
                    digits_value(text, from + 1, to, value * 10 + digit)
                }
            },
        }
    }
}

/// One component of a colour given as three numbers: `text[from..to]`
/// without the white space around it is a plus sign, or none, and then at
/// least one digit; the number is 255 at most.
pub open spec fn color_component(text: Seq<char>, from: int, to: int) -> Result<u8, InvalidReason> {
    let start = trimmed_start(text, from, to);
    let end = trimmed_end(text, start, to);
    let first_digit = if start < end && text[start] == '+' {
        start + 1
    } else {
        start
    };
    if first_digit >= end {
        Err(InvalidReason::MalformedColor)
    } else {
        digits_value(text, first_digit, end, 0)
    }
}

/// The colour that a text of a profile stands for.
///
/// A text with exactly two commas is three numbers, red, green and blue, each
/// of them 255 at most; the colour is opaque. Any other text is a CSS colour:
/// a name, `#rrggbb`, or another form that CSS knows.
pub open spec fn spec_color_from_str(text: Seq<char>) -> Result<Color, InvalidReason> {
    let commas = comma_positions(text, text.len());
    if commas.len() == 2 {
        match color_component(text, 0, commas[0]) {
            Err(reason) => Err(reason),
            Ok(r) => match color_component(text, commas[0] + 1, commas[1]) {
                Err(reason) => Err(reason),
                Ok(g) => match color_component(text, commas[1] + 1, text.len() as int) {
                    Err(reason) => Err(reason),
                    Ok(b) => Ok(Color { r, g, b, a: 255 }),
                },
            },
        }
    } else {
        match html_color(text) {
            Some(color) => Ok(color),
            None => Err(InvalidReason::MalformedColor),
        }
    }
}

#[verifier::when_used_as_spec(spec_is_white_space)]
fn is_white_space(c: char) -> (white: bool)
    ensures
        white == spec_is_white_space(c),
{
    c == ' ' || c == '\u{9}' || c == '\u{a}' || c == '\u{b}' || c == '\u{c}' || c == '\u{d}' || c
        == '\u{85}' || c == '\u{a0}' || c == '\u{1680}' || c == '\u{2000}' || c == '\u{2001}' || c
        == '\u{2002}' || c == '\u{2003}' || c == '\u{2004}' || c == '\u{2005}' || c == '\u{2006}'
        || c == '\u{2007}' || c == '\u{2008}' || c == '\u{2009}' || c == '\u{200a}' || c
        == '\u{2028}' || c == '\u{2029}' || c == '\u{202f}' || c == '\u{205f}' || c == '\u{3000}'
}

fn digit(c: char) -> (value: Option<u8>)
    ensures
        match spec_digit(c) {
            Some(d) => value == Some(d as u8) && d <= 9,
            None => value is None,
        },
{
    if c == '0' {
        Some(0)
    } else if c == '1' {
        Some(1)
    } else if c == '2' {
        Some(2)
    } else if c == '3' {
        Some(3)
    } else if c == '4' {
        Some(4)
    } else if c == '5' {
        Some(5)
    } else if c == '6' {
        Some(6)
    } else if c == '7' {
        Some(7)
    } else if c == '8' {
        Some(8)
    } else if c == '9' {
        Some(9)
    } else {
        None
    }
}

/// Reads one component of a colour from `chars[from..to]`.
fn read_component(chars: &Vec<char>, from: usize, to: usize) -> (component: Result<u8, InvalidReason>)
    requires
        from <= to <= chars@.len(),
    ensures
        component == color_component(chars@, from as int, to as int),
{
    let mut start = from;
    while start < to && is_white_space(chars[start])
        invariant
            from <= start <= to <= chars@.len(),
            trimmed_start(chars@, from as int, to as int) == trimmed_start(
                chars@,
                start as int,
                to as int,
            ),
        decreases to - start,
    {
        start += 1;
    }
    let mut end = to;
    while start < end && is_white_space(chars[end - 1])
        invariant
            start <= end <= to <= chars@.len(),
            trimmed_end(chars@, start as int, to as int) == trimmed_end(
                chars@,
                start as int,
                end as int,
            ),
        decreases end - start,
    {
        end -= 1;
    }
    let mut i = if start < end && chars[start] == '+' {
        start + 1
    } else {
        start
    };
    if i >= end {
        return Err(InvalidReason::MalformedColor);
    }
    let ghost goal = color_component(chars@, from as int, to as int);
    let mut value: u8 = 0;
    while i < end
        invariant
            i <= end <= chars@.len(),
            goal == color_component(chars@, from as int, to as int),
            goal == digits_value(chars@, i as int, end as int, value as nat),
        decreases end - i,
    {
        match digit(chars[i]) {
            None => {
                return Err(InvalidReason::MalformedColor);
            },
            Some(d) => {
                if value > 25 || (value == 25 && d > 5) {
                    return Err(InvalidReason::ColorComponentOutOfRange);
                }
                value = value * 10 + d;
            },
        }
        i += 1;
    }
    assert(goal == Ok::<u8, InvalidReason>(value));
    Ok(value)
}

/// Reads a colour.
fn read_color(text: &str) -> (color: Result<Color, InvalidReason>)
    ensures
        color == spec_color_from_str(text@),
{
    let chars = chars_of(text);
    let mut commas: Vec<usize> = Vec::new();
    let mut i: usize = 0;
    while i < chars.len()
        invariant
            i <= chars@.len(),
            commas@.len() == comma_positions(chars@, i as nat).len(),
            forall|j: int|
                0 <= j < commas@.len() ==> commas@[j] as int == comma_positions(chars@, i as nat)[j],
            forall|j: int| 0 <= j < commas@.len() ==> commas@[j] < i,
            forall|j: int, k: int| 0 <= j < k < commas@.len() ==> commas@[j] < commas@[k],
        decreases chars@.len() - i,
    {
        if chars[i] == ',' {
            commas.push(i);
        }
        i += 1;
    }
    if commas.len() == 2 {
        let first = commas[0];
        let second = commas[1];
        let r = match read_component(&chars, 0, first) {
            Ok(r) => r,
            Err(reason) => {
                return Err(reason);
            },
        };
        let g = match read_component(&chars, first + 1, second) {
            Ok(g) => g,
            Err(reason) => {
                return Err(reason);
            },
        };
        let b = match read_component(&chars, second + 1, chars.len()) {
            Ok(b) => b,
            Err(reason) => {
                return Err(reason);
            },
        };
        Ok(Color { r, g, b, a: 255 })
    } else {
        css_color(parse_html_color(text))
    }
}

/// The colour of a text that was read as a CSS colour, with the outcome
/// `css`: the colour that was read, and a fault where none was.
pub fn css_color(css: Option<Color>) -> (color: Result<Color, InvalidReason>)
    ensures
        color == match css {
            Some(read) => Ok::<Color, InvalidReason>(read),
            None => Err::<Color, InvalidReason>(InvalidReason::MalformedColor),
        },
{
    match css {
        Some(color) => Ok(color),
        None => Err(InvalidReason::MalformedColor),
    }
}

/// Reads the colour that the field `field` of a profile gives as `text`: a
/// CSS colour, or three numbers `r, g, b`. A text that is neither is
/// refused, with the name of the field.
pub fn color_from_str(field: &str, text: &str) -> (color: Result<Color, InvalidProfile>)
    ensures
        match spec_color_from_str(text@) {
            Ok(read) => color == Ok::<Color, InvalidProfile>(read),
            Err(reason) => color matches Err(e) && e.field@ == field@ && e.reason == reason,
        },
{
    match read_color(text) {
        Ok(color) => Ok(color),
        Err(reason) => Err(InvalidProfile { field: field.to_owned(), reason }),
    }
}

/// The duration that a profile gives as a whole number of milliseconds.
pub fn duration_from_int_ms(millis: u64) -> (duration: Duration)
    ensures
        duration.nanos == millis * 1_000_000,
{
    Duration::from_millis(millis)
}

/// The start position of a container that gives none: the first LED.
pub fn default_non_zero() -> (position: Positive)
    ensures
        position@ == 1,
{
    Positive::one()
}

/// The value of a switch that a profile leaves out and that is on unless
/// the profile says otherwise.
pub fn default_true() -> (on: bool)
    ensures
        on,
{
    true
}

} // verus!

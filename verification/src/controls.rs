//! What the parameter panel asks for: a colour, the links between its
//! channels and an iteration count, changed by the panel's messages.

use vstd::prelude::*;
use vstd::string::*;
use vstd::utf8::is_ascii_chars;
use crate::binary32::{word, Binary32};

verus! {

/// The word of 1, the panel's first value of every colour channel.
pub const PANEL_CHANNEL: u32 = 0x3f80_0000;

/// The panel's first iteration count.
pub const PANEL_ITERATIONS: i32 = 1000;

/// The greatest magnitude that a 32-bit signed number can have.
pub const MAGNITUDE_MAX: i64 = 0x8000_0000;

/// The values that the panel shows, as the user last left them. Nothing here
/// is clamped: the scene clamps what it takes over.
pub struct Controls {
    pub color: (Binary32, Binary32, Binary32),
    pub color_linked: (bool, bool, bool),
    pub iterations: i32,
}

/// A change that the panel reports.
#[derive(Debug, Clone, Copy)]
pub enum Message {
    /// The three sliders now stand at this hue, saturation and lightness.
    ColorChanged(Binary32, Binary32, Binary32),
    /// The three link boxes now stand like this.
    ColorLinkChanged(bool, bool, bool),
    /// The text of the iteration field was edited: the number it holds, or
    /// `None` where it holds none.
    IterationsChange(Option<i32>),
}

impl Controls {
    /// The panel after `message`. An iteration field that holds no number
    /// changes nothing.
    pub open spec fn updated(self, message: Message) -> Controls {
        match message {
            Message::ColorChanged(hue, saturation, lightness) => Controls {
                color: (hue, saturation, lightness),
                ..self
            },
            Message::ColorLinkChanged(hue, saturation, lightness) => Controls {
                color_linked: (hue, saturation, lightness),
                ..self
            },
            Message::IterationsChange(Some(iterations)) => Controls { iterations, ..self },
            Message::IterationsChange(None) => self,
        }
    }

    /// The panel as it first shows: every channel at 1, no channel linked,
    /// 1000 iterations.
    pub fn new() -> (r: Controls)
        ensures
            r.color == (
                word(PANEL_CHANNEL),
                word(PANEL_CHANNEL),
                word(PANEL_CHANNEL),
            ),
            r.color_linked == (false, false, false),
            r.iterations == PANEL_ITERATIONS,
    {
        let one = Binary32::from_bits(PANEL_CHANNEL);
        Controls { color: (one, one, one), color_linked: (false, false, false), iterations: PANEL_ITERATIONS }
    }

    /// Takes over the change that `message` reports.
    pub fn update(&mut self, message: Message)
        ensures
            *final(self) == old(self).updated(message),
    {
        match message {
            Message::ColorChanged(hue, saturation, lightness) => {
                self.color = (hue, saturation, lightness);
            },
            Message::ColorLinkChanged(hue, saturation, lightness) => {
                self.color_linked = (hue, saturation, lightness);
            },
            Message::IterationsChange(iterations) => {
                if let Some(iterations) = iterations {
                    self.iterations = iterations;
                }
            },
        }
    }
}

/// `c` is one of the ten decimal digits.
pub open spec fn is_digit(c: char) -> bool {
    '0' <= c <= '9'
}

/// The number that a decimal digit stands for.
pub open spec fn digit_value(c: char) -> int {
    c as int - '0' as int
}

/// Every character of `s` is a decimal digit.
pub open spec fn all_digits(s: Seq<char>) -> bool {
    forall|i: int| 0 <= i < s.len() ==> is_digit(#[trigger] s[i])
}

/// The number that a run of decimal digits stands for.
pub open spec fn decimal(s: Seq<char>) -> int
    decreases s.len(),
{
    if s.len() == 0 {
        0
    } else {
        10 * decimal(s.drop_last()) + digit_value(s.last())
    }
}

/// `s` without the sign in front of it, if there is one.
pub open spec fn unsigned_part(s: Seq<char>) -> Seq<char> {
    if s.len() > 0 && (s[0] == '+' || s[0] == '-') {
        s.subrange(1, s.len() as int)
    } else {
        s
    }
}

/// The number that `s` stands for: an optional `+` or `-`, then one decimal
/// digit or more, and nothing else.
pub open spec fn number(s: Seq<char>) -> Option<int> {
    let digits = unsigned_part(s);
    if digits.len() > 0 && all_digits(digits) {
        if s[0] == '-' {
            Some(-decimal(digits))
        } else {
            Some(decimal(digits))
        }
    } else {
        None
    }
}

/// What the iteration field reports for the text `s`: 0 for an empty field,
/// the number that the text stands for if it fits 32 bits, and else nothing.
pub open spec fn field_value(s: Seq<char>) -> Option<i32> {
    if s.len() == 0 {
        Some(0i32)
    } else {
        match number(s) {
            Some(n) => if i32::MIN <= n <= i32::MAX {
                Some(n as i32)
            } else {
                None
            },
            None => None,
        }
    }
}

/// Reads the text of the iteration field.
pub fn parse_iterations(text: &str) -> (r: Option<i32>)
    ensures
        r == field_value(text@),
{
    let ghost digits = unsigned_part(text@);
    if !text.is_ascii() {
        proof {
            if digits.len() > 0 && all_digits(digits) {
                assert forall|i: int| 0 <= i < text@.len() implies '\0' <= #[trigger] text@[i]
                    <= '\u{7f}' by {
                    if digits.len() == text@.len() {
                        assert(is_digit(digits[i]));
                    } else if i > 0 {
                        assert(is_digit(digits[i - 1]));
                    }
                }
            }
        }
        return None;
    }
    let bytes = text.as_bytes();
    let n: usize = bytes.len();
    proof {
        vstd::utf8::is_ascii_chars_encode_utf8(text@);
    }
    if n == 0 {
        return Some(0);
    }
    let first: u8 = bytes[0];
    let negative: bool = first == 45;
    let start: usize = if first == 43 || first == 45 {
        1
    } else {
        0
    };
    if start == n {
        return None;
    }
    let mut magnitude: i64 = 0;
    let mut i: usize = start;
    while i < n
        invariant
            is_ascii_chars(text@),
            n == text@.len(),
            n == bytes@.len(),
            forall|k: int| 0 <= k < n ==> text@[k] as u8 == #[trigger] bytes@[k],
            digits == unsigned_part(text@),
            digits.len() == n - start,
            forall|k: int| 0 <= k < digits.len() ==> digits[k] == text@[k + start],
            start <= i <= n,
            all_digits(digits.take(i - start)),
            magnitude <= MAGNITUDE_MAX ==> magnitude == decimal(digits.take(i - start)),
            magnitude > MAGNITUDE_MAX ==> decimal(digits.take(i - start)) > MAGNITUDE_MAX,
            0 <= magnitude <= 10 * MAGNITUDE_MAX + 9,
        decreases n - i,
    {
        let b: u8 = bytes[i];
        let ghost c = digits[i - start];
        assert(c as u8 == b && '\0' <= c <= '\u{7f}');
        if b < 48 || b > 57 {
            assert(!is_digit(c));
            return None;
        }
        proof {
            let longer = digits.take(i - start + 1);
            assert(longer.drop_last() =~= digits.take(i - start));
            assert(longer.last() == c);
            assert(digit_value(c) == b - 48);
            assert(decimal(digits.take(i - start)) >= 0);
        }
        if magnitude <= MAGNITUDE_MAX {
            magnitude = 10 * magnitude + (b - 48) as i64;
        }
        i = i + 1;
    }
    assert(digits.take(n - start) =~= digits);
    if magnitude > MAGNITUDE_MAX {
        return None;
    }
    let value: i64 = if negative {
        -magnitude
    } else {
        magnitude
    };
    if value > 0x7fff_ffff {
        None
    } else {
        Some(value as i32)
    }
}

} // verus!

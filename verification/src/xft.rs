use vstd::prelude::*;

use crate::x11api::{ResourceDb, get_xrm_resource, lookup_spec};

verus! {

/// Whether a character is a decimal digit.
pub open spec fn is_digit_char(c: char) -> bool {
    48 <= c as int <= 57
}

/// The value of a decimal digit character.
pub open spec fn digit_val(c: char) -> int {
    c as int - 48
}

/// Whether every character of a sequence is a decimal digit.
pub open spec fn all_digits(s: Seq<char>) -> bool {
    forall|i: int| 0 <= i < s.len() ==> is_digit_char(#[trigger] s[i])
}

/// The value of a sequence of decimal digit characters, most significant
/// first.
pub open spec fn digits_val(s: Seq<char>) -> int
    decreases s.len(),
{
    if s.len() == 0 {
        0
    } else {
        10 * digits_val(s.drop_last()) + digit_val(s.last())
    }
}

/// The signed 32-bit integer a string denotes, if it does: an optional
/// leading '+' or '-' sign, then one or more decimal digits and nothing
/// else, with the value in signed 32-bit range. Every other string — empty,
/// a bare sign, stray characters anywhere, a value out of range — denotes
/// nothing.
pub open spec fn parse_i32_spec(s: Seq<char>) -> Option<int> {
    if s.len() > 0 && (s[0] == '+' || s[0] == '-') {
        parse_i32_digits(s[0] == '-', s.drop_first())
    } else {
        parse_i32_digits(false, s)
    }
}

/// The signed 32-bit integer denoted by a digit string and a sign.
pub open spec fn parse_i32_digits(negative: bool, digits: Seq<char>) -> Option<int> {
    if digits.len() > 0 && all_digits(digits) {
        let v = if negative {
            -digits_val(digits)
        } else {
            digits_val(digits)
        };
        if -0x8000_0000 <= v <= 0x7fff_ffff {
            Some(v)
        } else {
            None
        }
    } else {
        None
    }
}

/// Parse a string as a base-10 signed 32-bit integer, accepting exactly the
/// strings that denote one.
pub fn parse_i32(s: &str) -> (r: Option<i32>)
    ensures
        match parse_i32_spec(s@) {
            None => r is None,
            Some(v) => r matches Some(x) && x as int == v,
        },
{
    let len = s.unicode_len();
    if len == 0 {
        return None;
    }
    let first = s.get_char(0);
    let negative = first == '-';
    let start: usize = if first == '-' || first == '+' {
        1
    } else {
        0
    };
    let ghost digits: Seq<char> = s@.subrange(start as int, len as int);
    proof {
        assert(digits =~= if start == 1 {
            s@.drop_first()
        } else {
            s@
        });
    }
    if start == len {
        return None;
    }
    let mut i: usize = start;
    let mut magnitude: u64 = 0;
    while i < len
        invariant
            start <= i <= len,
            start < len,
            len == s@.len(),
            negative == (s@[0] == '-'),
            start == 1 <==> (s@[0] == '+' || s@[0] == '-'),
            digits == s@.subrange(start as int, len as int),
            digits =~= (if start == 1 {
                s@.drop_first()
            } else {
                s@
            }),
            all_digits(digits.take(i - start)),
            digits_val(digits.take(i - start)) <= 0x8000_0001 ==> magnitude == digits_val(
                digits.take(i - start),
            ),
            digits_val(digits.take(i - start)) > 0x8000_0001 ==> magnitude >= 0x8000_0001,
            magnitude <= 0x5_0000_000f,
        decreases len - i,
    {
        let c = s.get_char(i);
        let u = c as u32;
        if u < 48 || u > 57 {
            proof {
                assert(digits[i - start] == s@[i as int]);
                assert(!is_digit_char(digits[i - start]));
            }
            return None;
        }
        let d = (u - 48) as u64;
        let ghost pre = digits.take(i - start);
        let ghost post = digits.take(i - start + 1);
        proof {
            assert(post.drop_last() =~= pre);
            assert(post.last() == s@[i as int]);
            assert(digits_val(post) == 10 * digits_val(pre) + d);
        }
        magnitude = if magnitude >= 0x8000_0001 {
            0x8000_0001
        } else {
            magnitude * 10 + d
        };
        i = i + 1;
    }
    proof {
        assert(digits.take(len - start) =~= digits);
    }
    if negative {
        if magnitude <= 0x8000_0000 {
            let v: i64 = -(magnitude as i64);
            Some(v as i32)
        } else {
            None
        }
    } else {
        if magnitude <= 0x7fff_ffff {
            Some(magnitude as i32)
        } else {
            None
        }
    }
}

/// The DPI value a display's resource-manager snapshot configures: the value
/// under the "Xft"/"dpi" pair read as a base-10 signed 32-bit integer, or
/// nothing when there is no snapshot, no such key, or no integer under it.
pub open spec fn dpi_spec(display: Option<Seq<(Seq<char>, Seq<char>, Seq<char>)>>) -> Option<
    int,
> {
    match display {
        None => None,
        Some(db) => match lookup_spec(db, "Xft"@, "dpi"@) {
            None => None,
            Some(value) => parse_i32_spec(value),
        },
    }
}

/// The scaling configuration read from the "Xft" class of the
/// resource-manager database.
#[derive(Clone, Debug)]
pub struct Xft {
    /// The configured dots-per-inch value, when one is set and parses as an
    /// integer.
    pub dpi: Option<i32>,
}

impl Xft {
    /// Read the DPI configuration through a display's resource-manager
    /// snapshot: one lookup for "Xft"/"dpi", parsed as a base-10 integer. A
    /// missing snapshot, a missing key and an unparseable value all yield an
    /// absent DPI, never an error.
    pub fn new(display: Option<&ResourceDb>) -> (r: Xft)
        ensures
            match dpi_spec(match display {
                None => None,
                Some(db) => Some(db@),
            }) {
                None => r.dpi is None,
                Some(v) => r.dpi matches Some(x) && x as int == v,
            },
    {
        match display {
            None => Xft { dpi: None },
            Some(db) => match get_xrm_resource(db, "Xft", "dpi") {
                None => Xft { dpi: None },
                Some(value) => Xft { dpi: parse_i32(value.as_str()) },
            },
        }
    }
}

/// The weight of a font face, as the font system enumerates it.
#[derive(Copy, Clone, Debug)]
pub enum Weight {
    Light,
    Medium,
    Demibold,
    Bold,
    Black,
}

/// The slant of a font face.
#[derive(Copy, Clone, Debug)]
pub enum Slant {
    Roman,
    Italic,
    Oblique,
}

/// The spacing class of a font face.
#[derive(Copy, Clone, Debug)]
pub enum Spacing {
    Proportional,
    Mono,
    Charcell,
}

/// The subpixel ordering a font is rendered for.
#[derive(Copy, Clone, Debug)]
pub enum Rgba {
    Rgb,
    Bgr,
    Vrgb,
    Vbgr,
}

} // verus!

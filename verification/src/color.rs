//! Note colours: a fixed palette of named colours, raw `#RRGGBB` values, and
//! the default every other input falls back to.

use crate::text::{
    chars_of, is_whitespace, lowercased, str_equal, str_of, to_lowercase, trim, trimmed,
};
use vstd::prelude::*;

verus! {

/// The colour of a note whose colour is missing, empty or not understood.
pub const DEFAULT_COLOR: &'static str = "#FFFF88";

/// The sixteen upper-case hexadecimal digits, by value.
pub const UPPER_DIGITS: &'static str = "0123456789ABCDEF";

/// `c` is one of `0-9`, `a-f`, `A-F`.
pub open spec fn is_hex_digit(c: char) -> bool {
    ('0' <= c && c <= '9') || ('a' <= c && c <= 'f') || ('A' <= c && c <= 'F')
}

/// `c` is one of `0-9`, `A-F`.
pub open spec fn is_upper_hex_digit(c: char) -> bool {
    ('0' <= c && c <= '9') || ('A' <= c && c <= 'F')
}

/// The upper-case form of a hexadecimal digit; any other character is left
/// as it is.
pub open spec fn upper_hex_digit(c: char) -> char {
    if 'a' <= c && c <= 'f' {
        ((c as u32) - 32) as char
    } else {
        c
    }
}

/// `s` is `#` followed by six hexadecimal digits of either case.
pub open spec fn is_hex_color(s: Seq<char>) -> bool {
    &&& s.len() == 7
    &&& s[0] == '#'
    &&& forall|i: int| 1 <= i < 7 ==> is_hex_digit(#[trigger] s[i])
}

/// `s` is `#` followed by six digits out of `0-9`, `A-F`.
pub open spec fn is_upper_hex_color(s: Seq<char>) -> bool {
    &&& s.len() == 7
    &&& s[0] == '#'
    &&& forall|i: int| 1 <= i < 7 ==> is_upper_hex_digit(#[trigger] s[i])
}

/// `s` with each hexadecimal digit in upper case.
pub open spec fn upper_hex(s: Seq<char>) -> Seq<char> {
    Seq::new(s.len(), |i: int| upper_hex_digit(s[i]))
}

/// The palette: the colour that a lower-case name stands for.
pub open spec fn palette(name: Seq<char>) -> Option<Seq<char>> {
    if name == "yellow"@ {
        Some("#FFFF88"@)
    } else if name == "pink"@ {
        Some("#FBCFE8"@)
    } else if name == "green"@ {
        Some("#BBF7D0"@)
    } else if name == "blue"@ {
        Some("#BFDBFE"@)
    } else if name == "orange"@ {
        Some("#FED7AA"@)
    } else if name == "purple"@ {
        Some("#E9D5FF"@)
    } else {
        None
    }
}

/// The colour stored for what a request gave as colour.
///
/// The input is trimmed. Nothing, or nothing but white space, gives the
/// default. `#` and six hexadecimal digits are kept, in upper case. A name
/// of the palette, in any mix of cases, gives its colour. Everything else
/// gives the default.
pub open spec fn normalized(input: Option<Seq<char>>) -> Seq<char> {
    match input {
        None => DEFAULT_COLOR@,
        Some(raw) => {
            let t = trimmed(raw);
            if t.len() == 0 {
                DEFAULT_COLOR@
            } else if is_hex_color(t) {
                upper_hex(t)
            } else {
                match palette(lowercased(t)) {
                    Some(hex) => hex,
                    None => DEFAULT_COLOR@,
                }
            }
        },
    }
}

/// The colour of the palette that the lower-case name `lowered` stands for.
pub fn named_color(lowered: &str) -> (r: Option<&'static str>)
    ensures
        match r {
            Some(hex) => palette(lowered@) == Some(hex@),
            None => palette(lowered@) is None,
        },
{
    if str_equal(lowered, "yellow") {
        Some("#FFFF88")
    } else if str_equal(lowered, "pink") {
        Some("#FBCFE8")
    } else if str_equal(lowered, "green") {
        Some("#BBF7D0")
    } else if str_equal(lowered, "blue") {
        Some("#BFDBFE")
    } else if str_equal(lowered, "orange") {
        Some("#FED7AA")
    } else if str_equal(lowered, "purple") {
        Some("#E9D5FF")
    } else {
        None
    }
}

/// Decides [`is_hex_digit`].
pub fn char_is_hex_digit(c: char) -> (r: bool)
    ensures
        r == is_hex_digit(c),
{
    ('0' <= c && c <= '9') || ('a' <= c && c <= 'f') || ('A' <= c && c <= 'F')
}

/// Decides [`is_hex_color`].
pub fn chars_are_hex_color(v: &Vec<char>) -> (r: bool)
    ensures
        r == is_hex_color(v@),
{
    if v.len() != 7 || v[0] != '#' {
        return false;
    }
    let mut i: usize = 1;
    while i < 7
        invariant
            1 <= i <= 7,
            v@.len() == 7,
            forall|k: int| 1 <= k < i ==> is_hex_digit(#[trigger] v@[k]),
        decreases 7 - i,
    {
        if !char_is_hex_digit(v[i]) {
            return false;
        }
        i += 1;
    }
    true
}

/// The value of a hexadecimal digit.
fn hex_digit_value(c: char) -> (d: usize)
    requires
        is_hex_digit(c),
    ensures
        d < 16,
        UPPER_DIGITS@.len() == 16,
        UPPER_DIGITS@[d as int] == upper_hex_digit(c),
{
    proof {
        reveal_strlit("0123456789ABCDEF");
    }
    let n: u32 = c as u32;
    if '0' <= c && c <= '9' {
        (n - 0x30) as usize
    } else if 'a' <= c && c <= 'f' {
        (n - 0x61 + 10) as usize
    } else {
        (n - 0x41 + 10) as usize
    }
}

/// Writes a colour of the form `#RRGGBB` with its digits in upper case.
fn to_upper_hex(v: &Vec<char>) -> (r: String)
    requires
        is_hex_color(v@),
    ensures
        r@ == upper_hex(v@),
        is_upper_hex_color(r@),
{
    let mut r = "#".to_owned();
    proof {
        reveal_strlit("#");
    }
    let mut i: usize = 1;
    while i < 7
        invariant
            1 <= i <= 7,
            is_hex_color(v@),
            r@ == upper_hex(v@).take(i as int),
        decreases 7 - i,
    {
        let d = hex_digit_value(v[i]);
        let digit = UPPER_DIGITS.substring_char(d, d + 1);
        r.append(digit);
        assert(r@ =~= upper_hex(v@).take(i + 1));
        i += 1;
    }
    assert(r@ =~= upper_hex(v@));
    proof {
        lemma_upper_hex_well_formed(v@);
    }
    r
}

/// Upper-casing a colour of the form `#RRGGBB` gives one whose digits are
/// all upper case.
proof fn lemma_upper_hex_well_formed(s: Seq<char>)
    requires
        is_hex_color(s),
    ensures
        is_upper_hex_color(upper_hex(s)),
{
    assert forall|i: int| 1 <= i < 7 implies is_upper_hex_digit(#[trigger] upper_hex(s)[i]) by {
        assert(is_hex_digit(s[i]));
    }
}

/// Each colour of the palette, and the default, is `#` and six upper-case
/// digits.
proof fn lemma_palette_well_formed(name: Seq<char>)
    ensures
        is_upper_hex_color(DEFAULT_COLOR@),
        palette(name) matches Some(hex) ==> is_upper_hex_color(hex),
{
    reveal_strlit("#FFFF88");
    reveal_strlit("#FBCFE8");
    reveal_strlit("#BBF7D0");
    reveal_strlit("#BFDBFE");
    reveal_strlit("#FED7AA");
    reveal_strlit("#E9D5FF");
}

/// Normalises the colour of a note.
pub fn normalize_color(input: Option<&str>) -> (r: String)
    ensures
        r@ == normalized(str_of(input)),
        is_upper_hex_color(r@),
{
    proof {
        lemma_normalized_well_formed(str_of(input));
    }
    let raw = match input {
        Some(raw) => raw,
        None => {
            return DEFAULT_COLOR.to_owned();
        },
    };
    let t = trim(raw);
    let v = chars_of(t);
    if v.len() == 0 {
        return DEFAULT_COLOR.to_owned();
    }
    if chars_are_hex_color(&v) {
        return to_upper_hex(&v);
    }
    let lowered = to_lowercase(t);
    match named_color(lowered.as_str()) {
        Some(hex) => hex.to_owned(),
        None => DEFAULT_COLOR.to_owned(),
    }
}

/// Every normalised colour is well formed: `#` and six digits out of `0-9`,
/// `A-F`. The default is one of them.
pub proof fn lemma_normalized_well_formed(input: Option<Seq<char>>)
    ensures
        is_upper_hex_color(normalized(input)),
        is_upper_hex_color(DEFAULT_COLOR@),
{
    lemma_palette_well_formed(Seq::empty());
    if let Some(raw) = input {
        let t = trimmed(raw);
        if t.len() != 0 {
            if is_hex_color(t) {
                lemma_upper_hex_well_formed(t);
            } else {
                lemma_palette_well_formed(lowercased(t));
            }
        }
    }
}

/// A well-formed colour is its own normal form.
pub proof fn lemma_normalized_fixes_well_formed(color: Seq<char>)
    requires
        is_upper_hex_color(color),
    ensures
        normalized(Some(color)) == color,
{
    assert(is_upper_hex_digit(color[6]));
    assert(!is_whitespace(color.first()));
    assert(!is_whitespace(color.last()));
    crate::text::lemma_trimmed_fixed(color);
    assert forall|i: int| 1 <= i < 7 implies is_hex_digit(#[trigger] color[i]) by {
        assert(is_upper_hex_digit(color[i]));
    }
    assert forall|i: int| 0 <= i < 7 implies upper_hex(color)[i] == color[i] by {
        if i >= 1 {
            assert(is_upper_hex_digit(color[i]));
        }
    }
    assert(upper_hex(color) =~= color);
}

/// Normalising is idempotent: a colour that was normalised once is not
/// changed by normalising it again.
pub proof fn lemma_normalized_idempotent(input: Option<Seq<char>>)
    ensures
        normalized(Some(normalized(input))) == normalized(input),
{
    lemma_normalized_well_formed(input);
    lemma_normalized_fixes_well_formed(normalized(input));
}

} // verus!

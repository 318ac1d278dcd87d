use vstd::prelude::*;

verus! {

/// The value of a hexadecimal digit, either case.
pub open spec fn hex_value(c: char) -> Option<u8> {
    if '0' <= c && c <= '9' {
        Some((c as u32 - '0' as u32) as u8)
    } else if 'a' <= c && c <= 'f' {
        Some((c as u32 - 'a' as u32 + 10) as u8)
    } else if 'A' <= c && c <= 'F' {
        Some((c as u32 - 'A' as u32 + 10) as u8)
    } else {
        None
    }
}

/// A byte written as two hexadecimal digits, or as `+` and one digit (the forms that
/// `u8::from_str_radix` accepts from two characters).
pub open spec fn hex_byte(a: char, b: char) -> Option<u8> {
    if a == '+' {
        hex_value(b)
    } else {
        match (hex_value(a), hex_value(b)) {
            (Some(x), Some(y)) => Some((x * 16 + y) as u8),
            _ => None,
        }
    }
}

/// A colour written `#rrggbb` (the `#` optional): the three bytes, when the rest is
/// exactly three such two-character bytes.
pub open spec fn hex_color(s: Seq<char>) -> Option<(u8, u8, u8)> {
    let h = if s.len() > 0 && s[0] == '#' {
        s.drop_first()
    } else {
        s
    };
    if h.len() != 6 {
        None
    } else {
        match (hex_byte(h[0], h[1]), hex_byte(h[2], h[3]), hex_byte(h[4], h[5])) {
            (Some(r), Some(g), Some(b)) => Some((r, g, b)),
            _ => None,
        }
    }
}

fn hex_digit(c: char) -> (res: Option<u8>)
    ensures
        res == hex_value(c),
{
    if '0' <= c && c <= '9' {
        Some((c as u32 - '0' as u32) as u8)
    } else if 'a' <= c && c <= 'f' {
        Some((c as u32 - 'a' as u32 + 10) as u8)
    } else if 'A' <= c && c <= 'F' {
        Some((c as u32 - 'A' as u32 + 10) as u8)
    } else {
        None
    }
}

fn parse_byte(a: char, b: char) -> (res: Option<u8>)
    ensures
        res == hex_byte(a, b),
{
    if a == '+' {
        return hex_digit(b);
    }
    match (hex_digit(a), hex_digit(b)) {
        (Some(x), Some(y)) => Some(x * 16 + y),
        _ => None,
    }
}

/// The colour a theme entry names (see `hex_color`): red, green and blue.
pub fn parse_hex_color(hex: &str) -> (res: Option<(u8, u8, u8)>)
    ensures
        res == hex_color(hex@),
{
    let n = hex.unicode_len();
    let start: usize = if n > 0 && hex.get_char(0) == '#' {
        1
    } else {
        0
    };
    if n - start != 6 {
        proof {
            if n > 0 && hex@[0] == '#' {
                assert(hex@.drop_first().len() == n - 1);
            }
        }
        return None;
    }
    proof {
        let h = if hex@.len() > 0 && hex@[0] == '#' {
            hex@.drop_first()
        } else {
            hex@
        };
        assert(forall|i: int| 0 <= i < 6 ==> h[i] == hex@[start + i]);
    }
    let r = parse_byte(hex.get_char(start), hex.get_char(start + 1));
    let g = parse_byte(hex.get_char(start + 2), hex.get_char(start + 3));
    let b = parse_byte(hex.get_char(start + 4), hex.get_char(start + 5));
    match (r, g, b) {
        (Some(r), Some(g), Some(b)) => Some((r, g, b)),
        _ => None,
    }
}

} // verus!

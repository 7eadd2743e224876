//! The supported key symbols: action keys and toggle hotkeys.

use vstd::prelude::*;

verus! {

/// The lower-case letter for an upper-case action key letter.
pub open spec fn upper_key_letter(c: char) -> Option<char> {
    if c == 'Q' {
        Some('q')
    } else if c == 'W' {
        Some('w')
    } else if c == 'E' {
        Some('e')
    } else if c == 'R' {
        Some('r')
    } else if c == 'T' {
        Some('t')
    } else {
        None
    }
}

/// The character an action key symbol stands for: one of `1`..`5`, or one of
/// `q w e r t` in either case (upper case maps to lower case).
pub open spec fn key_symbol(s: Seq<char>) -> Option<char> {
    if s.len() != 1 {
        None
    } else {
        let c = s[0];
        if '1' <= c <= '5' || c == 'q' || c == 'w' || c == 'e' || c == 'r' || c == 't' {
            Some(c)
        } else {
            upper_key_letter(c)
        }
    }
}

/// The number `n` of a function-key hotkey written `F<n>`, for `n` in `1..=12`.
pub open spec fn function_key_number(s: Seq<char>) -> Option<u8> {
    if s.len() == 2 && s[0] == 'F' && '1' <= s[1] <= '9' {
        Some(((s[1] as u32) - ('0' as u32)) as u8)
    } else if s.len() == 3 && s[0] == 'F' && s[1] == '1' && '0' <= s[2] <= '2' {
        Some((10 + (s[2] as u32) - ('0' as u32)) as u8)
    } else {
        None
    }
}

/// Resolves an action key symbol to the character to synthesize.
pub fn str_to_key(key_str: &str) -> (r: Option<char>)
    ensures
        r == key_symbol(key_str@),
{
    if key_str.unicode_len() != 1 {
        return None;
    }
    let c = key_str.get_char(0);
    if ('1' <= c && c <= '5') || c == 'q' || c == 'w' || c == 'e' || c == 'r' || c == 't' {
        Some(c)
    } else if c == 'Q' {
        Some('q')
    } else if c == 'W' {
        Some('w')
    } else if c == 'E' {
        Some('e')
    } else if c == 'R' {
        Some('r')
    } else if c == 'T' {
        Some('t')
    } else {
        None
    }
}

/// Resolves a toggle hotkey symbol to its function-key number.
pub fn str_to_keycode(hotkey: &str) -> (r: Option<u8>)
    ensures
        r == function_key_number(hotkey@),
        r matches Some(n) ==> 1 <= n <= 12,
{
    let n = hotkey.unicode_len();
    if n < 2 || n > 3 || hotkey.get_char(0) != 'F' {
        return None;
    }
    let d1 = hotkey.get_char(1);
    if n == 2 {
        if '1' <= d1 && d1 <= '9' {
            Some((d1 as u32 - '0' as u32) as u8)
        } else {
            None
        }
    } else {
        let d2 = hotkey.get_char(2);
        if d1 == '1' && '0' <= d2 && d2 <= '2' {
            Some((10 + d2 as u32 - '0' as u32) as u8)
        } else {
            None
        }
    }
}

} // verus!

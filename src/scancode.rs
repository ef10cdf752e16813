//! Scan-code set 2 to character lookup.
//!
//! Letters come from one table and are upper-cased when shift is held; every
//! other printable code (digits, punctuation, space, enter, tab, keypad) comes
//! from a second table whose symbol row has shifted alternates. Codes with no
//! entry read as `?`.
use vstd::prelude::*;

verus! {

/// Upper-case form of an ASCII lower-case letter.
pub open spec fn upper(c: char) -> char {
    ((c as u8) - 32u8) as char
}

/// The lower-case letter that a scan code stands for, if it is a letter key.
pub open spec fn letter_for(code: u8) -> Option<char> {
    match code {
        0x1c => Some('a'),
        0x32 => Some('b'),
        0x21 => Some('c'),
        0x23 => Some('d'),
        0x24 => Some('e'),
        0x2b => Some('f'),
        0x34 => Some('g'),
        0x33 => Some('h'),
        0x43 => Some('i'),
        0x3b => Some('j'),
        0x42 => Some('k'),
        0x4b => Some('l'),
        0x3a => Some('m'),
        0x31 => Some('n'),
        0x44 => Some('o'),
        0x4d => Some('p'),
        0x15 => Some('q'),
        0x2d => Some('r'),
        0x1b => Some('s'),
        0x2c => Some('t'),
        0x3c => Some('u'),
        0x2a => Some('v'),
        0x1d => Some('w'),
        0x22 => Some('x'),
        0x35 => Some('y'),
        0x1a => Some('z'),
        _ => None,
    }
}

/// The character of a non-letter key, with its shifted alternate where the
/// key has one, and `?` for a code with no entry.
pub open spec fn symbol_for(code: u8, shift: bool) -> char {
    match code {
        0x16 => if shift { '!' } else { '1' },
        0x1e => if shift { '"' } else { '2' },
        0x26 => if shift { '\u{a3}' } else { '3' },
        0x25 => if shift { '$' } else { '4' },
        0x2e => if shift { '%' } else { '5' },
        0x36 => if shift { '^' } else { '6' },
        0x3d => if shift { '&' } else { '7' },
        0x3e => if shift { '*' } else { '8' },
        0x46 => if shift { '(' } else { '9' },
        0x45 => if shift { ')' } else { '0' },
        0x29 => ' ',
        0x41 => if shift { '<' } else { ',' },
        0x49 => if shift { '>' } else { '.' },
        0x4a => if shift { '?' } else { '/' },
        0x4c => if shift { ':' } else { ';' },
        0x4e => if shift { '_' } else { '-' },
        0x52 => if shift { '@' } else { '\'' },
        0x54 => if shift { '{' } else { '[' },
        0x5b => if shift { '}' } else { ']' },
        0x55 => if shift { '+' } else { '=' },
        0x5a => '\n',
        0x5d => if shift { '#' } else { '\\' },
        // keypad
        0x69 => '1',
        0x6b => '4',
        0x6c => '7',
        0x70 => '0',
        0x71 => '.',
        0x72 => '2',
        0x73 => '5',
        0x74 => '6',
        0x75 => '8',
        0x79 => '+',
        0x7a => '3',
        0x7b => '-',
        0x7c => '*',
        0x7d => '9',
        0x0d => '\t',
        _ => '?',
    }
}

/// The character a scan code resolves to under the given shift state.
pub open spec fn key_char(code: u8, shift: bool) -> char {
    match letter_for(code) {
        Some(c) => if shift { upper(c) } else { c },
        None => symbol_for(code, shift),
    }
}

fn letter_of(code: u8) -> (r: Option<char>)
    ensures
        r == letter_for(code),
        r matches Some(c) ==> 'a' <= c <= 'z',
{
    match code {
        0x1c => Some('a'),
        0x32 => Some('b'),
        0x21 => Some('c'),
        0x23 => Some('d'),
        0x24 => Some('e'),
        0x2b => Some('f'),
        0x34 => Some('g'),
        0x33 => Some('h'),
        0x43 => Some('i'),
        0x3b => Some('j'),
        0x42 => Some('k'),
        0x4b => Some('l'),
        0x3a => Some('m'),
        0x31 => Some('n'),
        0x44 => Some('o'),
        0x4d => Some('p'),
        0x15 => Some('q'),
        0x2d => Some('r'),
        0x1b => Some('s'),
        0x2c => Some('t'),
        0x3c => Some('u'),
        0x2a => Some('v'),
        0x1d => Some('w'),
        0x22 => Some('x'),
        0x35 => Some('y'),
        0x1a => Some('z'),
        _ => None,
    }
}

fn symbol_of(code: u8, shift: bool) -> (r: char)
    ensures
        r == symbol_for(code, shift),
{
    match code {
        0x16 => if shift { '!' } else { '1' },
        0x1e => if shift { '"' } else { '2' },
        0x26 => if shift { '\u{a3}' } else { '3' },
        0x25 => if shift { '$' } else { '4' },
        0x2e => if shift { '%' } else { '5' },
        0x36 => if shift { '^' } else { '6' },
        0x3d => if shift { '&' } else { '7' },
        0x3e => if shift { '*' } else { '8' },
        0x46 => if shift { '(' } else { '9' },
        0x45 => if shift { ')' } else { '0' },
        0x29 => ' ',
        0x41 => if shift { '<' } else { ',' },
        0x49 => if shift { '>' } else { '.' },
        0x4a => if shift { '?' } else { '/' },
        0x4c => if shift { ':' } else { ';' },
        0x4e => if shift { '_' } else { '-' },
        0x52 => if shift { '@' } else { '\'' },
        0x54 => if shift { '{' } else { '[' },
        0x5b => if shift { '}' } else { ']' },
        0x55 => if shift { '+' } else { '=' },
        0x5a => '\n',
        0x5d => if shift { '#' } else { '\\' },
        // keypad
        0x69 => '1',
        0x6b => '4',
        0x6c => '7',
        0x70 => '0',
        0x71 => '.',
        0x72 => '2',
        0x73 => '5',
        0x74 => '6',
        0x75 => '8',
        0x79 => '+',
        0x7a => '3',
        0x7b => '-',
        0x7c => '*',
        0x7d => '9',
        0x0d => '\t',
        _ => '?',
    }
}

/// Resolves a scan code to its character; `shift` selects upper-case letters
/// and the shifted symbols.
pub fn char_from_scancode(scancode: u8, shift: bool) -> (r: char)
    ensures
        r == key_char(scancode, shift),
{
    if let Some(c) = letter_of(scancode) {
        if shift {
            return ((c as u8) - 32u8) as char;
        }
        return c;
    }
    symbol_of(scancode, shift)
}

} // verus!

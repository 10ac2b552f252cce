//! Input translation: raw terminal bytes to abstract keys.
//!
//! One inbound read is translated on its own. A control sequence that arrives
//! split over two reads is not reassembled and yields no key.

use vstd::prelude::*;

verus! {

/// An abstract key, as delivered to the hosted application.
#[derive(Clone, Copy, Debug, PartialEq, Eq, Structural)]
pub enum Key {
    /// A printable character.
    Char(char),
    Up,
    Down,
    Left,
    Right,
    PageUp,
    PageDown,
    Home,
    End,
    Tab,
    Backspace,
    Delete,
    Enter,
}

/// The escape byte that opens every multi-byte control sequence.
pub const ESC: u8 = 0x1b;

/// Printable ASCII: the space and the graphic characters after it.
pub open spec fn is_printable(byte: u8) -> bool {
    0x20 <= byte <= 0x7e
}

/// The fixed table of control sequences with the key each one stands for.
/// Terminals disagree on the prefix of the cursor keys, so both the `ESC [`
/// and the `ESC O` forms are listed.
pub open spec fn key_table() -> Seq<(Seq<u8>, Key)> {
    seq![
        (seq![0x1bu8, 0x5bu8, 0x41u8], Key::Up),
        (seq![0x1bu8, 0x4fu8, 0x41u8], Key::Up),
        (seq![0x1bu8, 0x5bu8, 0x42u8], Key::Down),
        (seq![0x1bu8, 0x4fu8, 0x42u8], Key::Down),
        (seq![0x1bu8, 0x5bu8, 0x43u8], Key::Right),
        (seq![0x1bu8, 0x4fu8, 0x43u8], Key::Right),
        (seq![0x1bu8, 0x5bu8, 0x44u8], Key::Left),
        (seq![0x1bu8, 0x4fu8, 0x44u8], Key::Left),
        (seq![0x1bu8, 0x5bu8, 0x35u8, 0x7eu8], Key::PageUp),
        (seq![0x1bu8, 0x5bu8, 0x36u8, 0x7eu8], Key::PageDown),
        (seq![0x1bu8, 0x5bu8, 0x48u8], Key::Home),
        (seq![0x1bu8, 0x4fu8, 0x48u8], Key::Home),
        (seq![0x1bu8, 0x5bu8, 0x46u8], Key::End),
        (seq![0x1bu8, 0x4fu8, 0x46u8], Key::End),
        (seq![0x09u8], Key::Tab),
        (seq![0x7fu8], Key::Backspace),
        (seq![0x1bu8, 0x5bu8, 0x33u8, 0x7eu8], Key::Delete),
        (seq![0x0du8], Key::Enter),
        (seq![0x0au8], Key::Enter),
    ]
}

/// Whether `bytes` is one of the sequences of [`key_table`].
pub open spec fn in_key_table(bytes: Seq<u8>) -> bool {
    exists|i: int| 0 <= i < key_table().len() && #[trigger] key_table()[i].0 == bytes
}

/// A cursor or paging key of the form `ESC`, introducer, final byte.
pub open spec fn cursor_key(last: u8) -> Option<Key> {
    if last == 0x41 {
        Some(Key::Up)
    } else if last == 0x42 {
        Some(Key::Down)
    } else if last == 0x43 {
        Some(Key::Right)
    } else if last == 0x44 {
        Some(Key::Left)
    } else if last == 0x48 {
        Some(Key::Home)
    } else if last == 0x46 {
        Some(Key::End)
    } else {
        None
    }
}

/// A key of the form `ESC [ digit ~`.
pub open spec fn tilde_key(digit: u8) -> Option<Key> {
    if digit == 0x35 {
        Some(Key::PageUp)
    } else if digit == 0x36 {
        Some(Key::PageDown)
    } else if digit == 0x33 {
        Some(Key::Delete)
    } else {
        None
    }
}

/// The key that one inbound read stands for, if any. A table sequence wins;
/// otherwise a single printable byte is a character key; anything else is
/// dropped.
pub open spec fn key_for(bytes: Seq<u8>) -> Option<Key> {
    if bytes.len() == 1 {
        let byte = bytes[0];
        if byte == 0x09 {
            Some(Key::Tab)
        } else if byte == 0x7f {
            Some(Key::Backspace)
        } else if byte == 0x0d || byte == 0x0a {
            Some(Key::Enter)
        } else if is_printable(byte) {
            Some(Key::Char(byte as char))
        } else {
            None
        }
    } else if bytes.len() == 3 && bytes[0] == ESC && (bytes[1] == 0x5b || bytes[1] == 0x4f) {
        cursor_key(bytes[2])
    } else if bytes.len() == 4 && bytes[0] == ESC && bytes[1] == 0x5b && bytes[3] == 0x7e {
        tilde_key(bytes[2])
    } else {
        None
    }
}

/// Translates the bytes of one inbound read into a key.
pub fn map_key_event(data: &[u8]) -> (key: Option<Key>)
    ensures
        key == key_for(data@),
{
    let n: usize = data.len();
    if n == 1 {
        let byte: u8 = data[0];
        if byte == 0x09 {
            Some(Key::Tab)
        } else if byte == 0x7f {
            Some(Key::Backspace)
        } else if byte == 0x0d || byte == 0x0a {
            Some(Key::Enter)
        } else if 0x20 <= byte && byte <= 0x7e {
            Some(Key::Char(byte as char))
        } else {
            None
        }
    } else if n == 3 && data[0] == ESC && (data[1] == 0x5b || data[1] == 0x4f) {
        let last: u8 = data[2];
        if last == 0x41 {
            Some(Key::Up)
        } else if last == 0x42 {
            Some(Key::Down)
        } else if last == 0x43 {
            Some(Key::Right)
        } else if last == 0x44 {
            Some(Key::Left)
        } else if last == 0x48 {
            Some(Key::Home)
        } else if last == 0x46 {
            Some(Key::End)
        } else {
            None
        }
    } else if n == 4 && data[0] == ESC && data[1] == 0x5b && data[3] == 0x7e {
        let digit: u8 = data[2];
        if digit == 0x35 {
            Some(Key::PageUp)
        } else if digit == 0x36 {
            Some(Key::PageDown)
        } else if digit == 0x33 {
            Some(Key::Delete)
        } else {
            None
        }
    } else {
        None
    }
}

/// Every sequence of the table translates to exactly the key listed beside it.
pub proof fn table_entries_translate(i: int)
    requires
        0 <= i < key_table().len(),
    ensures
        key_for(key_table()[i].0) == Some(key_table()[i].1),
{
}

/// A single printable byte translates to the character key that carries it.
pub proof fn printable_byte_is_char(bytes: Seq<u8>)
    requires
        bytes.len() == 1,
        is_printable(bytes[0]),
    ensures
        key_for(bytes) == Some(Key::Char(bytes[0] as char)),
{
}

/// Bytes that are neither a table sequence nor a single printable byte
/// produce no key.
pub proof fn unlisted_bytes_yield_nothing(bytes: Seq<u8>)
    requires
        !in_key_table(bytes),
        !(bytes.len() == 1 && is_printable(bytes[0])),
    ensures
        key_for(bytes) is None,
{
    if key_for(bytes) is Some {
        let table = key_table();
        let i: int = if bytes.len() == 1 {
            if bytes[0] == 0x09 {
                14
            } else if bytes[0] == 0x7f {
                15
            } else if bytes[0] == 0x0d {
                17
            } else {
                18
            }
        } else if bytes.len() == 4 {
            if bytes[2] == 0x35 {
                8
            } else if bytes[2] == 0x36 {
                9
            } else {
                16
            }
        } else {
            let form: int = if bytes[1] == 0x5b { 0 } else { 1 };
            if bytes[2] == 0x41 {
                form
            } else if bytes[2] == 0x42 {
                2 + form
            } else if bytes[2] == 0x43 {
                4 + form
            } else if bytes[2] == 0x44 {
                6 + form
            } else if bytes[2] == 0x48 {
                10 + form
            } else {
                12 + form
            }
        };
        assert(table[i].0 =~= bytes);
    }
}

} // verus!

//! Short texts for log lines.

use crate::decimal::{decimal, to_decimal};
use crate::keys::Key;
use crate::text::{chars_of, trim, trimmed};
use vstd::prelude::*;

verus! {

/// Most characters of a text that a log line shows.
pub const PREVIEW_CHARS: usize = 30;

/// A character as a preview shows it: line breaks become spaces.
pub open spec fn flat(c: char) -> char {
    if c == '\n' || c == '\r' {
        ' '
    } else {
        c
    }
}

/// A text on one line: every line break replaced by a space.
pub open spec fn flattened(s: Seq<char>) -> Seq<char> {
    Seq::new(s.len(), |i: int| flat(s[i]))
}

/// The preview of a text: trimmed, on one line, and cut after
/// `PREVIEW_CHARS` characters with `...` in place of the rest.
pub open spec fn preview(s: Seq<char>) -> Seq<char> {
    let line = flattened(trimmed(s));
    if line.len() <= PREVIEW_CHARS {
        line
    } else {
        line.take(PREVIEW_CHARS as int) + "..."@
    }
}

/// How a key is named in a log line.
pub open spec fn key_text(key: Key) -> Seq<char> {
    match key {
        Key::Slot(slot) => "slot "@ + slot.label_spec(),
        Key::Escape => "Esc"@,
        Key::C => "C"@,
        Key::V => "V"@,
        Key::Other(code) => "keycode "@ + decimal(code as nat),
    }
}

/// Safe preview for logging: trimmed, line breaks as spaces, capped at 30
/// characters.
pub fn preview_for_log(s: &str) -> (p: String)
    ensures
        p@ == preview(s@),
{
    let t: String = trim(s);
    let chars: Vec<char> = chars_of(t.as_str());
    let shown: usize = if chars.len() <= PREVIEW_CHARS {
        chars.len()
    } else {
        PREVIEW_CHARS
    };
    let mut p: String = String::new();
    let mut i: usize = 0;
    while i < shown
        invariant
            i <= shown <= chars.len(),
            chars@ == trimmed(s@),
            p@ == flattened(chars@).take(i as int),
        decreases shown - i,
    {
        let c: char = chars[i];
        if c == '\n' || c == '\r' {
            p.push(' ');
        } else {
            p.push(c);
        }
        i = i + 1;
        assert(p@ =~= flattened(chars@).take(i as int));
    }
    if chars.len() > PREVIEW_CHARS {
        p.append("...");
    } else {
        assert(flattened(chars@).take(shown as int) =~= flattened(chars@));
    }
    p
}

/// Names a key for a log line.
pub fn key_debug(key: Key) -> (s: String)
    ensures
        s@ == key_text(key),
{
    match key {
        Key::Slot(slot) => {
            let mut s: String = "slot ".to_owned();
            s.append(slot.label());
            s
        },
        Key::Escape => "Esc".to_owned(),
        Key::C => "C".to_owned(),
        Key::V => "V".to_owned(),
        Key::Other(code) => {
            let mut s: String = "keycode ".to_owned();
            let number: String = to_decimal(code as u64);
            s.append(number.as_str());
            s
        },
    }
}

} // verus!

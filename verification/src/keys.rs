//! Logical keys, slot identifiers and the keycode translation table.

use vstd::prelude::*;

verus! {

/// One of the six clipboard slots, named after the key that selects it.
#[derive(Debug, Clone, Copy, PartialEq, Eq, Hash, Structural)]
pub enum SlotId {
    J,
    K,
    L,
    U,
    I,
    O,
}

/// Logical classification of a raw keycode.
#[derive(Debug, Clone, Copy, PartialEq, Eq, Structural)]
pub enum Key {
    Slot(SlotId),
    Escape,
    C,
    V,
    Other(u16),
}

/// Virtual key codes of the keys the table knows, as the keyboard reports
/// them.
pub const VK_ANSI_C: i64 = 8;

pub const VK_ANSI_V: i64 = 9;

pub const VK_ANSI_J: i64 = 38;

pub const VK_ANSI_K: i64 = 40;

pub const VK_ANSI_L: i64 = 37;

pub const VK_ANSI_U: i64 = 32;

pub const VK_ANSI_I: i64 = 34;

pub const VK_ANSI_O: i64 = 31;

pub const VK_ESCAPE: i64 = 53;

impl SlotId {
    /// The one-letter label of the slot, as a sequence of characters.
    pub open spec fn label_spec(self) -> Seq<char> {
        match self {
            SlotId::J => seq!['J'],
            SlotId::K => seq!['K'],
            SlotId::L => seq!['L'],
            SlotId::U => seq!['U'],
            SlotId::I => seq!['I'],
            SlotId::O => seq!['O'],
        }
    }

    /// The number, 1 to 6, that stands for the slot on the wire.
    pub open spec fn number_spec(self) -> u8 {
        match self {
            SlotId::J => 1,
            SlotId::K => 2,
            SlotId::L => 3,
            SlotId::U => 4,
            SlotId::I => 5,
            SlotId::O => 6,
        }
    }

    /// The slot that a wire number stands for, if it is one of 1 to 6.
    pub open spec fn from_number_spec(n: int) -> Option<SlotId> {
        if n == 1 {
            Some(SlotId::J)
        } else if n == 2 {
            Some(SlotId::K)
        } else if n == 3 {
            Some(SlotId::L)
        } else if n == 4 {
            Some(SlotId::U)
        } else if n == 5 {
            Some(SlotId::I)
        } else if n == 6 {
            Some(SlotId::O)
        } else {
            None
        }
    }

    /// The slot that carries the given label, if any does.
    pub open spec fn from_label_spec(label: Seq<char>) -> Option<SlotId> {
        if label == SlotId::J.label_spec() {
            Some(SlotId::J)
        } else if label == SlotId::K.label_spec() {
            Some(SlotId::K)
        } else if label == SlotId::L.label_spec() {
            Some(SlotId::L)
        } else if label == SlotId::U.label_spec() {
            Some(SlotId::U)
        } else if label == SlotId::I.label_spec() {
            Some(SlotId::I)
        } else if label == SlotId::O.label_spec() {
            Some(SlotId::O)
        } else {
            None
        }
    }

    /// Human-readable label, also the key of the slot in durable storage.
    pub fn label(self) -> (s: &'static str)
        ensures
            s@ == self.label_spec(),
    {
        proof {
            reveal_strlit("J");
            reveal_strlit("K");
            reveal_strlit("L");
            reveal_strlit("U");
            reveal_strlit("I");
            reveal_strlit("O");
        }
        let s: &'static str = match self {
            SlotId::J => "J",
            SlotId::K => "K",
            SlotId::L => "L",
            SlotId::U => "U",
            SlotId::I => "I",
            SlotId::O => "O",
        };
        assert(s@ =~= self.label_spec());
        s
    }

    /// The wire number of the slot.
    pub fn number(self) -> (n: u8)
        ensures
            n == self.number_spec(),
            1 <= n <= 6,
    {
        match self {
            SlotId::J => 1,
            SlotId::K => 2,
            SlotId::L => 3,
            SlotId::U => 4,
            SlotId::I => 5,
            SlotId::O => 6,
        }
    }

    /// Resolves a wire number; numbers outside 1 to 6 name no slot.
    pub fn from_number(n: u8) -> (slot: Option<SlotId>)
        ensures
            slot == SlotId::from_number_spec(n as int),
            slot is Some <==> 1 <= n <= 6,
    {
        match n {
            1 => Some(SlotId::J),
            2 => Some(SlotId::K),
            3 => Some(SlotId::L),
            4 => Some(SlotId::U),
            5 => Some(SlotId::I),
            6 => Some(SlotId::O),
            _ => None,
        }
    }

    /// Resolves a storage label; any text but the six labels names no slot.
    pub fn from_label(label: &str) -> (slot: Option<SlotId>)
        ensures
            slot == SlotId::from_label_spec(label@),
    {
        if label.unicode_len() != 1 {
            return None;
        }
        let c: char = label.get_char(0);
        assert(label@ =~= seq![c]);
        match c {
            'J' => Some(SlotId::J),
            'K' => Some(SlotId::K),
            'L' => Some(SlotId::L),
            'U' => Some(SlotId::U),
            'I' => Some(SlotId::I),
            'O' => Some(SlotId::O),
            _ => None,
        }
    }
}

/// The key that a raw keycode stands for. Codes outside the table keep
/// their low sixteen bits.
pub open spec fn key_of(keycode: i64) -> Key {
    if keycode == VK_ANSI_J {
        Key::Slot(SlotId::J)
    } else if keycode == VK_ANSI_K {
        Key::Slot(SlotId::K)
    } else if keycode == VK_ANSI_L {
        Key::Slot(SlotId::L)
    } else if keycode == VK_ANSI_U {
        Key::Slot(SlotId::U)
    } else if keycode == VK_ANSI_I {
        Key::Slot(SlotId::I)
    } else if keycode == VK_ANSI_O {
        Key::Slot(SlotId::O)
    } else if keycode == VK_ESCAPE {
        Key::Escape
    } else if keycode == VK_ANSI_C {
        Key::C
    } else if keycode == VK_ANSI_V {
        Key::V
    } else {
        Key::Other(keycode as u16)
    }
}

/// Converts a raw keycode to a `Key`. Total: every keycode has a key.
pub fn keycode_to_key(keycode: i64) -> (key: Key)
    ensures
        key == key_of(keycode),
{
    if keycode == VK_ANSI_J {
        Key::Slot(SlotId::J)
    } else if keycode == VK_ANSI_K {
        Key::Slot(SlotId::K)
    } else if keycode == VK_ANSI_L {
        Key::Slot(SlotId::L)
    } else if keycode == VK_ANSI_U {
        Key::Slot(SlotId::U)
    } else if keycode == VK_ANSI_I {
        Key::Slot(SlotId::I)
    } else if keycode == VK_ANSI_O {
        Key::Slot(SlotId::O)
    } else if keycode == VK_ESCAPE {
        Key::Escape
    } else if keycode == VK_ANSI_C {
        Key::C
    } else if keycode == VK_ANSI_V {
        Key::V
    } else {
        Key::Other(#[verifier::truncate] (keycode as u16))
    }
}

} // verus!

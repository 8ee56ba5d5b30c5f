//! The slot store: six text entries, absent until first saved.

use crate::keys::SlotId;
use vstd::prelude::*;

verus! {

/// The row that a save asks durable storage to upsert.
#[derive(Debug, Clone, PartialEq, Eq)]
pub struct SlotWrite {
    pub slot: SlotId,
    pub content: String,
}

/// In-memory slot storage. When it stands for a durable table, every save
/// also yields the row to write through.
#[derive(Debug)]
pub struct SlotStorage {
    j: Option<String>,
    k: Option<String>,
    l: Option<String>,
    u: Option<String>,
    i: Option<String>,
    o: Option<String>,
    persistent: bool,
}

/// The text held for a slot, if any was saved.
pub open spec fn stored(m: Map<SlotId, Seq<char>>, slot: SlotId) -> Option<Seq<char>> {
    if m.contains_key(slot) {
        Some(m[slot])
    } else {
        None
    }
}

/// Whether a slot has nothing to paste: no entry, or an entry of no
/// characters.
pub open spec fn empty_at(m: Map<SlotId, Seq<char>>, slot: SlotId) -> bool {
    !m.contains_key(slot) || m[slot].len() == 0
}

/// The store after a sequence of saves, oldest first, starting from nothing.
pub open spec fn replayed(saves: Seq<(SlotId, Seq<char>)>) -> Map<SlotId, Seq<char>>
    decreases saves.len(),
{
    if saves.len() == 0 {
        Map::empty()
    } else {
        replayed(saves.drop_last()).insert(saves.last().0, saves.last().1)
    }
}

/// The text of the latest save to a slot in a sequence of saves.
pub open spec fn last_saved(saves: Seq<(SlotId, Seq<char>)>, slot: SlotId) -> Option<Seq<char>>
    decreases saves.len(),
{
    if saves.len() == 0 {
        None
    } else if saves.last().0 == slot {
        Some(saves.last().1)
    } else {
        last_saved(saves.drop_last(), slot)
    }
}

/// Loaded rows as pairs of slot and text.
pub open spec fn row_views(rows: Seq<(SlotId, String)>) -> Seq<(SlotId, Seq<char>)> {
    Seq::new(rows.len(), |i: int| (rows[i].0, rows[i].1@))
}

/// A save is read back exactly, and touches no other slot.
pub proof fn lemma_save_then_get(
    m: Map<SlotId, Seq<char>>,
    slot: SlotId,
    text: Seq<char>,
    other: SlotId,
)
    ensures
        stored(m.insert(slot, text), slot) == Some(text),
        empty_at(m.insert(slot, text), slot) <==> text.len() == 0,
        other != slot ==> stored(m.insert(slot, text), other) == stored(m, other),
        other != slot ==> empty_at(m.insert(slot, text), other) == empty_at(m, other),
{
}

/// After any history of saves a slot holds the text of the latest save to
/// it, and is empty exactly when it was never saved or was last saved with
/// an empty text.
pub proof fn lemma_history(saves: Seq<(SlotId, Seq<char>)>, slot: SlotId)
    ensures
        stored(replayed(saves), slot) == last_saved(saves, slot),
        empty_at(replayed(saves), slot) <==> (last_saved(saves, slot) matches Some(text)
            ==> text.len() == 0),
    decreases saves.len(),
{
    if saves.len() > 0 {
        lemma_history(saves.drop_last(), slot);
    }
}

impl View for SlotStorage {
    type V = Map<SlotId, Seq<char>>;

    closed spec fn view(&self) -> Map<SlotId, Seq<char>> {
        Map::new(|s: SlotId| self.entry(s) is Some, |s: SlotId| self.entry(s)->0@)
    }
}

impl SlotStorage {
    spec fn entry(&self, slot: SlotId) -> Option<String> {
        match slot {
            SlotId::J => self.j,
            SlotId::K => self.k,
            SlotId::L => self.l,
            SlotId::U => self.u,
            SlotId::I => self.i,
            SlotId::O => self.o,
        }
    }

    /// Whether saves are to be written through to durable storage.
    pub closed spec fn persistent(&self) -> bool {
        self.persistent
    }

    /// An empty store without durable backing.
    pub fn new() -> (store: Self)
        ensures
            store@ == Map::<SlotId, Seq<char>>::empty(),
            !store.persistent(),
    {
        let store = SlotStorage {
            j: None,
            k: None,
            l: None,
            u: None,
            i: None,
            o: None,
            persistent: false,
        };
        assert(store@ =~= Map::<SlotId, Seq<char>>::empty());
        store
    }

    /// A store with durable backing, filled with the rows loaded from it.
    /// Where a slot occurs more than once, the later row stays.
    pub fn with_persistence(loaded: Vec<(SlotId, String)>) -> (store: Self)
        ensures
            store@ == replayed(row_views(loaded@)),
            store.persistent(),
    {
        let mut store = SlotStorage::new();
        store.persistent = true;
        let mut n: usize = 0;
        assert(row_views(loaded@).take(0) =~= Seq::<(SlotId, Seq<char>)>::empty());
        while n < loaded.len()
            invariant
                n <= loaded.len(),
                store.persistent(),
                store@ == replayed(row_views(loaded@).take(n as int)),
            decreases loaded.len() - n,
        {
            let slot: SlotId = loaded[n].0;
            let content: String = loaded[n].1.clone();
            store.put(slot, content);
            n = n + 1;
            assert(row_views(loaded@).take(n as int).drop_last() =~= row_views(loaded@).take(
                n - 1,
            ));
        }
        assert(row_views(loaded@).take(n as int) =~= row_views(loaded@));
        store
    }

    fn put(&mut self, slot: SlotId, content: String)
        ensures
            final(self)@ == old(self)@.insert(slot, content@),
            final(self).persistent() == old(self).persistent(),
    {
        match slot {
            SlotId::J => {
                self.j = Some(content);
            },
            SlotId::K => {
                self.k = Some(content);
            },
            SlotId::L => {
                self.l = Some(content);
            },
            SlotId::U => {
                self.u = Some(content);
            },
            SlotId::I => {
                self.i = Some(content);
            },
            SlotId::O => {
                self.o = Some(content);
            },
        }
        assert(self@ =~= old(self)@.insert(slot, content@));
    }

    /// Overwrites the entry of `slot`. Returns the row to write through
    /// when the store has durable backing, and nothing otherwise.
    pub fn save(&mut self, slot: SlotId, content: String) -> (write: Option<SlotWrite>)
        ensures
            final(self)@ == old(self)@.insert(slot, content@),
            final(self).persistent() == old(self).persistent(),
            write is Some <==> old(self).persistent(),
            write matches Some(w) ==> w.slot == slot && w.content@ == content@,
    {
        let write: Option<SlotWrite> = if self.persistent {
            Some(SlotWrite { slot, content: content.clone() })
        } else {
            None
        };
        self.put(slot, content);
        write
    }

    /// The text saved in `slot`, if any.
    pub fn get(&self, slot: SlotId) -> (text: Option<&str>)
        ensures
            match text {
                Some(t) => stored(self@, slot) == Some(t@),
                None => stored(self@, slot) is None,
            },
    {
        let entry: &Option<String> = match slot {
            SlotId::J => &self.j,
            SlotId::K => &self.k,
            SlotId::L => &self.l,
            SlotId::U => &self.u,
            SlotId::I => &self.i,
            SlotId::O => &self.o,
        };
        match entry {
            Some(s) => Some(s.as_str()),
            None => None,
        }
    }

    /// Whether `slot` has nothing to paste.
    pub fn is_empty(&self, slot: SlotId) -> (empty: bool)
        ensures
            empty == empty_at(self@, slot),
    {
        match self.get(slot) {
            Some(t) => t.is_empty(),
            None => true,
        }
    }

    /// Whether saves are to be written through to durable storage.
    pub fn is_persistent(&self) -> (p: bool)
        ensures
            p == self.persistent(),
    {
        self.persistent
    }
}

impl Default for SlotStorage {
    fn default() -> (store: Self)
        ensures
            store@ == Map::<SlotId, Seq<char>>::empty(),
            !store.persistent(),
    {
        SlotStorage::new()
    }
}

} // verus!

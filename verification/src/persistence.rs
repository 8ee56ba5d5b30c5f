//! What the durable slot table needs computed: where it lives, and which of
//! its rows are slots.

use crate::keys::SlotId;
use crate::storage::{replayed, row_views, SlotStorage};
use vstd::prelude::*;

verus! {

/// Directory of the database under a home directory.
pub open spec fn db_dir_text(home: Seq<char>, macos: bool) -> Seq<char> {
    if macos {
        home + "/Library/Application Support/Slotpaste"@
    } else {
        home + "/.slotpaste"@
    }
}

/// Rows of label and text as a mathematical value.
pub open spec fn label_rows(rows: Seq<(String, String)>) -> Seq<(Seq<char>, Seq<char>)> {
    Seq::new(rows.len(), |i: int| (rows[i].0@, rows[i].1@))
}

/// The rows whose key is a slot label, in order, each with its slot.
pub open spec fn slot_rows(rows: Seq<(Seq<char>, Seq<char>)>) -> Seq<(SlotId, Seq<char>)>
    decreases rows.len(),
{
    if rows.len() == 0 {
        Seq::empty()
    } else {
        match SlotId::from_label_spec(rows.last().0) {
            Some(slot) => slot_rows(rows.drop_last()).push((slot, rows.last().1)),
            None => slot_rows(rows.drop_last()),
        }
    }
}

/// File name of the database.
pub fn db_file() -> (name: &'static str)
    ensures
        name@ == "slotpaste.db"@,
{
    "slotpaste.db"
}

/// Directory that holds the database, for the given home directory.
pub fn db_dir(home: &str, macos: bool) -> (dir: String)
    ensures
        dir@ == db_dir_text(home@, macos),
{
    let mut dir: String = home.to_owned();
    if macos {
        dir.append("/Library/Application Support/Slotpaste");
    } else {
        dir.append("/.slotpaste");
    }
    dir
}

/// Keeps the loaded rows that belong to a slot; rows under any other key
/// are dropped.
pub fn slots_from_rows(rows: &Vec<(String, String)>) -> (loaded: Vec<(SlotId, String)>)
    ensures
        row_views(loaded@) == slot_rows(label_rows(rows@)),
{
    let mut loaded: Vec<(SlotId, String)> = Vec::new();
    let mut n: usize = 0;
    assert(label_rows(rows@).take(0) =~= Seq::<(Seq<char>, Seq<char>)>::empty());
    assert(row_views(loaded@) =~= Seq::<(SlotId, Seq<char>)>::empty());
    while n < rows.len()
        invariant
            n <= rows.len(),
            row_views(loaded@) == slot_rows(label_rows(rows@).take(n as int)),
        decreases rows.len() - n,
    {
        let ghost before = row_views(loaded@);
        assert(label_rows(rows@).take(n + 1).drop_last() =~= label_rows(rows@).take(n as int));
        match SlotId::from_label(rows[n].0.as_str()) {
            Some(slot) => {
                let content: String = rows[n].1.clone();
                loaded.push((slot, content));
                assert(row_views(loaded@) =~= before.push((slot, content@)));
            },
            None => {},
        }
        n = n + 1;
    }
    assert(label_rows(rows@).take(n as int) =~= label_rows(rows@));
    loaded
}

/// The slot store to start with: filled from the rows of the durable
/// table and writing through to it, or, where there is no table or it
/// could not be read, empty and in memory only.
pub fn initial_slots(rows: Option<Vec<(String, String)>>) -> (store: SlotStorage)
    ensures
        match rows {
            Some(r) => store.persistent() && store@ == replayed(slot_rows(label_rows(r@))),
            None => !store.persistent() && store@ == Map::<SlotId, Seq<char>>::empty(),
        },
{
    match rows {
        Some(r) => SlotStorage::with_persistence(slots_from_rows(&r)),
        None => SlotStorage::new(),
    }
}

} // verus!

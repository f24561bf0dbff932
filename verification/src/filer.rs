//! The directory snapshot model: one loaded directory, its parent path,
//! its ordered entries and the selection cursor. The filesystem read
//! itself happens outside this crate; a snapshot is built here from the
//! plain values that read produced.

use vstd::prelude::*;

verus! {

/// One directory entry as captured at load time: its name, its full
/// path, and whether the filesystem reported it as a plain file.
pub struct Entry {
    pub name: Vec<char>,
    pub path: Vec<char>,
    pub is_file: bool,
}

/// The entries of a snapshot: an explicit empty marker, or the ordered
/// listing the load produced (never empty in a well-formed snapshot).
pub enum Entries {
    Empty,
    Loaded(Vec<Entry>),
}

/// A snapshot of one directory. Immutable once built, except for
/// `selected_entry_index`, which the navigation loop moves in place.
pub struct Dir {
    pub path: Vec<char>,
    pub parent_path: Option<Vec<char>>,
    pub child_entries: Entries,
    pub selected_entry_index: usize,
}

impl Dir {
    /// A loaded listing is non-empty and the selection cursor stays
    /// inside it; with no entries the cursor is meaningless (kept 0).
    pub open spec fn wf(self) -> bool {
        match self.child_entries {
            Entries::Empty => true,
            Entries::Loaded(entries) => entries@.len() > 0 && self.selected_entry_index
                < entries@.len(),
        }
    }

    /// Whether the snapshot holds any entries.
    pub open spec fn has_entries(self) -> bool {
        self.child_entries is Loaded
    }

    /// The entries as a sequence: empty when none were loaded.
    pub open spec fn listing(self) -> Seq<Entry> {
        match self.child_entries {
            Entries::Empty => Seq::empty(),
            Entries::Loaded(entries) => entries@,
        }
    }

    /// The entry the cursor rests on; meaningful only with entries.
    pub open spec fn selected_entry(self) -> Entry {
        self.listing()[self.selected_entry_index as int]
    }

    /// The entry names in listing order.
    pub open spec fn entry_names(self) -> Seq<Seq<char>> {
        self.listing().map_values(|e: Entry| e.name@)
    }

    /// Build a snapshot from the outcome of one directory read: the
    /// directory's own path, the structurally derived parent path
    /// (absent at a filesystem root), and the entries the read found.
    /// An empty read becomes the explicit empty marker; the selection
    /// always starts at the top.
    pub fn new(path: Vec<char>, parent_path: Option<Vec<char>>, found: Vec<Entry>) -> (dir: Dir)
        ensures
            dir.wf(),
            dir.path == path,
            dir.parent_path == parent_path,
            dir.selected_entry_index == 0,
            dir.listing() == found@,
            dir.has_entries() <==> found@.len() > 0,
    {
        let child_entries = if found.len() == 0 {
            Entries::Empty
        } else {
            Entries::Loaded(found)
        };
        Dir { path, parent_path, child_entries, selected_entry_index: 0 }
    }
}

/// A fresh copy of a text, character for character.
pub fn copy_chars(text: &Vec<char>) -> (copy: Vec<char>)
    ensures
        copy@ == text@,
{
    let mut copy: Vec<char> = Vec::new();
    let mut i: usize = 0;
    while i < text.len()
        invariant
            i <= text.len(),
            copy@ == text@.take(i as int),
        decreases text.len() - i,
    {
        copy.push(text[i]);
        assert(copy@ =~= text@.take(i + 1));
        i = i + 1;
    }
    assert(copy@ =~= text@);
    copy
}

} // verus!

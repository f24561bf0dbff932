//! The navigation state machine: how each command moves the selection
//! cursor or asks for a fresh directory load. Filesystem reads happen
//! outside this crate; a command that needs one yields the path to
//! load, and the loaded snapshot (or the news that the load failed)
//! comes back through `apply_load`.

use vstd::prelude::*;

use crate::filer::{copy_chars, Dir, Entries};
use crate::input::Cmd;

verus! {

/// What the navigation loop should do after applying one command.
pub enum Step {
    /// `Quit` was received: leave the loop and restore the terminal.
    Done,
    /// Nothing further: redraw the unchanged (or cursor-moved) state.
    Stay,
    /// Load this path and hand the outcome to `apply_load`.
    Load(Vec<char>),
}

/// The snapshot after a `DirUp`: the cursor moves up one entry, staying
/// put at the top of the list or with no entries at all.
pub open spec fn up_of(dir: Dir) -> Dir {
    if dir.has_entries() && dir.selected_entry_index > 0 {
        Dir { selected_entry_index: (dir.selected_entry_index - 1) as usize, ..dir }
    } else {
        dir
    }
}

/// The snapshot after a `DirDown`: the cursor moves down one entry,
/// staying put at the bottom of the list or with no entries at all.
pub open spec fn down_of(dir: Dir) -> Dir {
    if dir.has_entries() && dir.selected_entry_index + 1 < dir.listing().len() {
        Dir { selected_entry_index: (dir.selected_entry_index + 1) as usize, ..dir }
    } else {
        dir
    }
}

/// The path a `DirOut` loads: the parent, when the snapshot has one.
pub open spec fn dir_out_target(dir: Dir) -> Option<Seq<char>> {
    match dir.parent_path {
        Some(parent) => Some(parent@),
        None => None,
    }
}

/// The path a `DirIn` loads: the selected entry's, provided there are
/// entries and the filesystem did not report it as a plain file.
pub open spec fn dir_in_target(dir: Dir) -> Option<Seq<char>> {
    if dir.has_entries() && !dir.selected_entry().is_file {
        Some(dir.selected_entry().path@)
    } else {
        None
    }
}

/// Apply one command to the current snapshot. `DirUp`/`DirDown` move
/// the cursor in place, clamped to the listing. `DirOut`/`DirIn` leave
/// the snapshot untouched and ask the caller to load the parent or the
/// selected child; where no such load applies (no parent, no entries,
/// or the selection is a plain file) nothing happens at all.
pub fn step(dir: &mut Dir, cmd: Cmd) -> (step: Step)
    requires
        old(dir).wf(),
    ensures
        final(dir).wf(),
        match cmd {
            Cmd::Quit => step is Done && *final(dir) == *old(dir),
            Cmd::DirUp => step is Stay && *final(dir) == up_of(*old(dir)),
            Cmd::DirDown => step is Stay && *final(dir) == down_of(*old(dir)),
            Cmd::DirOut => *final(dir) == *old(dir) && match dir_out_target(*old(dir)) {
                Some(target) => step is Load && step->Load_0@ == target,
                None => step is Stay,
            },
            Cmd::DirIn => *final(dir) == *old(dir) && match dir_in_target(*old(dir)) {
                Some(target) => step is Load && step->Load_0@ == target,
                None => step is Stay,
            },
        },
{
    match cmd {
        Cmd::Quit => Step::Done,
        Cmd::DirUp => {
            if let Entries::Loaded(_) = &dir.child_entries {
                if dir.selected_entry_index > 0 {
                    dir.selected_entry_index = dir.selected_entry_index - 1;
                }
            }
            Step::Stay
        },
        Cmd::DirDown => {
            if let Entries::Loaded(entries) = &dir.child_entries {
                if dir.selected_entry_index < entries.len() - 1 {
                    dir.selected_entry_index = dir.selected_entry_index + 1;
                }
            }
            Step::Stay
        },
        Cmd::DirOut => {
            match &dir.parent_path {
                Some(parent) => Step::Load(copy_chars(parent)),
                None => Step::Stay,
            }
        },
        Cmd::DirIn => {
            match &dir.child_entries {
                Entries::Loaded(entries) => {
                    let selected = &entries[dir.selected_entry_index];
                    if selected.is_file {
                        Step::Stay
                    } else {
                        Step::Load(copy_chars(&selected.path))
                    }
                },
                Entries::Empty => Step::Stay,
            }
        },
    }
}

/// Finish a navigation that needed a load: a snapshot that arrived
/// replaces the current one wholesale; a failed load leaves the current
/// snapshot exactly as it was.
pub fn apply_load(dir: &mut Dir, loaded: Option<Dir>)
    requires
        old(dir).wf(),
        loaded matches Some(next) ==> next.wf(),
    ensures
        final(dir).wf(),
        match loaded {
            Some(next) => *final(dir) == next,
            None => *final(dir) == *old(dir),
        },
{
    if let Some(next) = loaded {
        *dir = next;
    }
}

/// The selection cursor never leaves the listing: on any well-formed
/// snapshot with entries, it is strictly below the listing length, and
/// it still is immediately after a `DirUp` or `DirDown` at either
/// boundary — clamped, never wrapping or running out of range.
pub proof fn lemma_selection_always_valid(dir: Dir, cmd: Cmd)
    requires
        dir.wf(),
    ensures
        dir.has_entries() ==> dir.selected_entry_index < dir.listing().len(),
        up_of(dir).wf(),
        up_of(dir).has_entries() ==> up_of(dir).selected_entry_index < up_of(dir).listing().len(),
        down_of(dir).wf(),
        down_of(dir).has_entries() ==> down_of(dir).selected_entry_index < down_of(
            dir,
        ).listing().len(),
{
}

/// Leaving a directory and coming straight back returns the same view:
/// from a snapshot with a parent, `DirOut` asks to load that parent;
/// in the loaded parent, with the cursor on the directory entry we came
/// from, `DirIn` asks to load the original path again; and as long as
/// the filesystem hands back the same listing, the rebuilt snapshot has
/// the same path and the same entry names as the original.
pub proof fn lemma_out_in_round_trip(dir: Dir, parent: Dir, reloaded: Dir)
    requires
        dir.wf(),
        dir.parent_path is Some,
        parent.wf(),
        parent.has_entries(),
        parent.selected_entry().path@ == dir.path@,
        !parent.selected_entry().is_file,
        reloaded.path@ == dir.path@,
        reloaded.listing() == dir.listing(),
    ensures
        dir_out_target(dir) == Some(dir.parent_path->0@),
        dir_in_target(parent) == Some(dir.path@),
        reloaded.entry_names() == dir.entry_names(),
{
}

} // verus!

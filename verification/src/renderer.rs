//! Frame layout: everything about a redraw that can be computed from
//! the current snapshot, the freshly read parent snapshot and the
//! terminal dimensions. A `Frame` says exactly what each pane row
//! prints, which row is highlighted and how far the highlight bar pads;
//! turning a frame into cursor moves, colors and writes is left to the
//! terminal shell around this crate.

use vstd::prelude::*;

use crate::filer::{copy_chars, Dir, Entries, Entry};

verus! {

/// One row of a pane: the (possibly truncated) entry name to print,
/// whether it carries the highlight, and how many trailing spaces the
/// highlight bar adds so that it spans the pane's half-width.
pub struct PaneRow {
    pub text: Vec<char>,
    pub highlighted: bool,
    pub pad: usize,
}

/// One full-screen frame. The title prints at the origin; both panes
/// start two rows below it, one entry per row: `left[i]` at column 0 of
/// row `2 + i`, `right[i]` at column `width / 2` of the same row.
pub struct Frame {
    pub title: Vec<char>,
    pub left: Vec<PaneRow>,
    pub right: Vec<PaneRow>,
}

/// How many characters of a name of length `len` are printed on a
/// terminal `width` columns wide: a name too long for its half-width
/// pane is cut to `width / 2` characters, any other is kept whole.
pub open spec fn shown_len(len: nat, width: nat) -> nat {
    if len + width / 2 > width {
        width / 2
    } else {
        len
    }
}

/// The printed form of a name: its first `shown_len` characters.
pub open spec fn truncated_of(name: Seq<char>, width: nat) -> Seq<char> {
    name.take(shown_len(name.len(), width) as int)
}

/// The trailing spaces of the highlight bar: enough to reach the
/// pane's half-width past the printed name; none on an unhighlighted
/// row or a name that already fills the pane.
pub open spec fn pad_of(highlighted: bool, len: nat, width: nat) -> nat {
    if highlighted && width / 2 > shown_len(len, width) {
        (width / 2 - shown_len(len, width)) as nat
    } else {
        0
    }
}

/// What one pane row must hold for an entry name.
pub open spec fn row_matches(row: PaneRow, name: Seq<char>, highlighted: bool, width: nat) -> bool {
    &&& row.text@ == truncated_of(name, width)
    &&& row.highlighted == highlighted
    &&& row.pad == pad_of(highlighted, name.len(), width)
}

/// How many entries a pane shows: all of them, clipped to the pane
/// height — the screen height less the two rows above the panes.
pub open spec fn rows_shown(count: nat, height: nat) -> nat {
    let avail = if height >= 2 {
        (height - 2) as nat
    } else {
        0
    };
    if count < avail {
        count
    } else {
        avail
    }
}

/// The entries of the freshly read parent snapshot, when there is one.
pub open spec fn parent_listing(parent: Option<Dir>) -> Seq<Entry> {
    match parent {
        Some(p) => p.listing(),
        None => Seq::empty(),
    }
}

/// Compute one frame. The title is the current directory's full path.
/// The left pane lists the parent's entries, highlighting the entry
/// whose path equals the current directory's — where we came from —
/// independent of the cursor. The right pane lists the current
/// entries, highlighting the one under the cursor. Both panes clip to
/// the pane height; every shown row carries its truncated name and the
/// highlight padding.
pub fn render_frame(cur: &Dir, parent: &Option<Dir>, width: usize, height: usize) -> (frame: Frame)
    requires
        cur.wf(),
        *parent matches Some(p) ==> p.wf(),
    ensures
        frame.title@ == cur.path@,
        frame.left@.len() == rows_shown(parent_listing(*parent).len(), height as nat),
        forall|i: int|
            0 <= i < frame.left@.len() ==> row_matches(
                frame.left@[i],
                parent_listing(*parent)[i].name@,
                parent_listing(*parent)[i].path@ == cur.path@,
                width as nat,
            ),
        frame.right@.len() == rows_shown(cur.listing().len(), height as nat),
        forall|i: int|
            0 <= i < frame.right@.len() ==> row_matches(
                frame.right@[i],
                cur.listing()[i].name@,
                i == cur.selected_entry_index,
                width as nat,
            ),
{
    let avail: usize = if height >= 2 {
        height - 2
    } else {
        0
    };
    let title = copy_chars(&cur.path);
    let left = match parent {
        Some(p) => {
            match &p.child_entries {
                Entries::Loaded(entries) => build_left(entries, &cur.path, width, avail),
                Entries::Empty => Vec::new(),
            }
        },
        None => Vec::new(),
    };
    let right = match &cur.child_entries {
        Entries::Loaded(entries) => build_right(
            entries,
            cur.selected_entry_index,
            width,
            avail,
        ),
        Entries::Empty => Vec::new(),
    };
    Frame { title, left, right }
}

/// Cut a name down to what its pane can show: `width / 2` characters
/// when the whole name would not fit beside the other pane, the whole
/// name otherwise.
pub fn truncate_name(name: &Vec<char>, width: usize) -> (shown: Vec<char>)
    ensures
        shown@ == truncated_of(name@, width as nat),
        shown@.len() == shown_len(name@.len(), width as nat),
{
    let keep: usize = if name.len() > width - width / 2 {
        width / 2
    } else {
        name.len()
    };
    assert(keep == shown_len(name@.len(), width as nat));
    let mut shown: Vec<char> = Vec::new();
    let mut i: usize = 0;
    while i < keep
        invariant
            keep <= name@.len(),
            i <= keep,
            shown@ == name@.take(i as int),
        decreases keep - i,
    {
        shown.push(name[i]);
        assert(shown@ =~= name@.take(i + 1));
        i = i + 1;
    }
    shown
}

/// One pane row for one entry name.
fn make_row(name: &Vec<char>, highlighted: bool, width: usize) -> (row: PaneRow)
    ensures
        row_matches(row, name@, highlighted, width as nat),
{
    let text = truncate_name(name, width);
    let pad: usize = if highlighted && width / 2 > text.len() {
        width / 2 - text.len()
    } else {
        0
    };
    PaneRow { text, highlighted, pad }
}

fn build_left(entries: &Vec<Entry>, cur_path: &Vec<char>, width: usize, avail: usize) -> (rows: Vec<
    PaneRow,
>)
    ensures
        rows@.len() == if entries@.len() < avail {
            entries@.len()
        } else {
            avail as nat
        },
        forall|i: int|
            0 <= i < rows@.len() ==> row_matches(
                rows@[i],
                entries@[i].name@,
                entries@[i].path@ == cur_path@,
                width as nat,
            ),
{
    let count: usize = if entries.len() < avail {
        entries.len()
    } else {
        avail
    };
    let mut rows: Vec<PaneRow> = Vec::new();
    let mut i: usize = 0;
    while i < count
        invariant
            count <= entries@.len(),
            i <= count,
            rows@.len() == i,
            forall|j: int|
                0 <= j < i ==> row_matches(
                    rows@[j],
                    entries@[j].name@,
                    entries@[j].path@ == cur_path@,
                    width as nat,
                ),
        decreases count - i,
    {
        let highlighted = chars_eq(&entries[i].path, cur_path);
        let row = make_row(&entries[i].name, highlighted, width);
        rows.push(row);
        i = i + 1;
    }
    rows
}

fn build_right(entries: &Vec<Entry>, selected: usize, width: usize, avail: usize) -> (rows: Vec<
    PaneRow,
>)
    ensures
        rows@.len() == if entries@.len() < avail {
            entries@.len()
        } else {
            avail as nat
        },
        forall|i: int|
            0 <= i < rows@.len() ==> row_matches(
                rows@[i],
                entries@[i].name@,
                i == selected,
                width as nat,
            ),
{
    let count: usize = if entries.len() < avail {
        entries.len()
    } else {
        avail
    };
    let mut rows: Vec<PaneRow> = Vec::new();
    let mut i: usize = 0;
    while i < count
        invariant
            count <= entries@.len(),
            i <= count,
            rows@.len() == i,
            forall|j: int|
                0 <= j < i ==> row_matches(rows@[j], entries@[j].name@, j == selected, width as nat),
        decreases count - i,
    {
        let highlighted = i == selected;
        let row = make_row(&entries[i].name, highlighted, width);
        rows.push(row);
        i = i + 1;
    }
    rows
}

/// Character-for-character equality of two texts.
fn chars_eq(a: &Vec<char>, b: &Vec<char>) -> (eq: bool)
    ensures
        eq == (a@ == b@),
{
    if a.len() != b.len() {
        return false;
    }
    let mut i: usize = 0;
    while i < a.len()
        invariant
            a@.len() == b@.len(),
            i <= a@.len(),
            forall|j: int| 0 <= j < i ==> a@[j] == b@[j],
        decreases a@.len() - i,
    {
        if a[i] != b[i] {
            return false;
        }
        i = i + 1;
    }
    assert(a@ =~= b@);
    true
}

} // verus!

//! Key-chord recognition: the closed set of navigation commands, two-key
//! chord bindings, and the matcher state machine that turns a raw stream
//! of key presses into at most one command per keystroke.

use vstd::prelude::*;

verus! {

/// A navigation intent produced by the matcher and consumed by the
/// navigation loop.
#[derive(Copy, Clone, Debug, PartialEq, Eq, Structural)]
pub enum Cmd {
    Quit,
    DirUp,
    DirDown,
    DirOut,
    DirIn,
}

/// A two-keystroke command binding; equality is structural on both
/// characters.
#[derive(Copy, Clone, Debug, PartialEq, Eq, Structural)]
pub struct Chord(pub char, pub char);

/// The fixed single-key bindings: `h`, `j`, `k`, `l` map to a command
/// directly, ahead of any chord matching.
pub open spec fn single_key_cmd(key: char) -> Option<Cmd> {
    if key == 'h' {
        Some(Cmd::DirOut)
    } else if key == 'j' {
        Some(Cmd::DirDown)
    } else if key == 'k' {
        Some(Cmd::DirUp)
    } else if key == 'l' {
        Some(Cmd::DirIn)
    } else {
        None
    }
}

/// The chords of `bindings` whose first character is `key`, in table
/// order: the candidate set a keystroke opens from the idle state.
pub open spec fn chord_starts(bindings: Seq<(Chord, Cmd)>, key: char) -> Seq<Chord>
    decreases bindings.len(),
{
    if bindings.len() == 0 {
        Seq::empty()
    } else {
        let init = chord_starts(bindings.drop_last(), key);
        if bindings.last().0.0 == key {
            init.push(bindings.last().0)
        } else {
            init
        }
    }
}

/// The command bound to `chord`: the first entry of `bindings` with that
/// chord, if any.
pub open spec fn lookup(bindings: Seq<(Chord, Cmd)>, chord: Chord) -> Option<Cmd>
    decreases bindings.len(),
{
    if bindings.len() == 0 {
        None
    } else if bindings[0].0 == chord {
        Some(bindings[0].1)
    } else {
        lookup(bindings.skip(1), chord)
    }
}

/// The first pending candidate whose second character is `key`, if any:
/// the chord this keystroke completes.
pub open spec fn completed_chord(cands: Seq<Chord>, key: char) -> Option<Chord>
    decreases cands.len(),
{
    if cands.len() == 0 {
        None
    } else if cands[0].1 == key {
        Some(cands[0])
    } else {
        completed_chord(cands.skip(1), key)
    }
}

/// What a keystroke emits when a candidate set is pending: the command
/// bound to the chord it completes, or nothing.
pub open spec fn pending_emit(cands: Seq<Chord>, bindings: Seq<(Chord, Cmd)>, key: char) -> Option<
    Cmd,
> {
    match completed_chord(cands, key) {
        Some(chord) => lookup(bindings, chord),
        None => None,
    }
}

/// The chord matcher's state: either no chord prefix is pending, or the
/// most recent keystroke opened a non-empty set of candidate chords
/// awaiting their second character.
pub enum Matcher {
    Idle,
    Pending(Vec<Chord>),
}

impl Matcher {
    /// A pending candidate set is never empty.
    pub open spec fn wf(self) -> bool {
        match self {
            Matcher::Idle => true,
            Matcher::Pending(cands) => cands@.len() > 0,
        }
    }

    pub fn new() -> (m: Matcher)
        ensures
            m == Matcher::Idle,
    {
        Matcher::Idle
    }

    /// Feed one keystroke through the matcher. At most one command comes
    /// out. A fixed single-key binding fires immediately and leaves the
    /// chord state untouched, shadowing any chord that begins with the
    /// same character. Otherwise, from idle, a key that begins at least
    /// one bound chord opens the pending set of those chords; and a
    /// pending set is consumed by the very next keystroke, emitting the
    /// command of the chord it completes, whether or not one did.
    pub fn on_key(&mut self, key: char, bindings: &Vec<(Chord, Cmd)>) -> (emitted: Option<Cmd>)
        requires
            old(self).wf(),
        ensures
            final(self).wf(),
            single_key_cmd(key) is Some ==> emitted == single_key_cmd(key)
                && *final(self) == *old(self),
            single_key_cmd(key) is None && *old(self) is Idle ==> {
                &&& emitted is None
                &&& (chord_starts(bindings@, key).len() > 0 ==> *final(self) is Pending
                    && final(self)->Pending_0@ == chord_starts(bindings@, key))
                &&& (chord_starts(bindings@, key).len() == 0 ==> *final(self) is Idle)
            },
            single_key_cmd(key) is None && *old(self) is Pending ==> {
                &&& *final(self) is Idle
                &&& emitted == pending_emit(old(self)->Pending_0@, bindings@, key)
            },
    {
        if key == 'h' {
            return Some(Cmd::DirOut);
        }
        if key == 'j' {
            return Some(Cmd::DirDown);
        }
        if key == 'k' {
            return Some(Cmd::DirUp);
        }
        if key == 'l' {
            return Some(Cmd::DirIn);
        }
        let mut prev = Matcher::Idle;
        core::mem::swap(self, &mut prev);
        match prev {
            Matcher::Idle => {
                let cands = starts_exec(bindings, key);
                if cands.len() > 0 {
                    *self = Matcher::Pending(cands);
                }
                None
            },
            Matcher::Pending(cands) => {
                match completed_exec(&cands, key) {
                    Some(chord) => lookup_exec(bindings, chord),
                    None => None,
                }
            },
        }
    }
}

/// The binding table the browser starts with: `qq` quits, `ak` moves the
/// selection up (duplicating the single key `k`, a quirk kept as found).
pub fn default_chords() -> (bindings: Vec<(Chord, Cmd)>)
    ensures
        bindings@.len() == 2,
        bindings@[0] == (Chord('q', 'q'), Cmd::Quit),
        bindings@[1] == (Chord('a', 'k'), Cmd::DirUp),
{
    let mut bindings: Vec<(Chord, Cmd)> = Vec::new();
    bindings.push((Chord('q', 'q'), Cmd::Quit));
    bindings.push((Chord('a', 'k'), Cmd::DirUp));
    bindings
}

fn starts_exec(bindings: &Vec<(Chord, Cmd)>, key: char) -> (cands: Vec<Chord>)
    ensures
        cands@ == chord_starts(bindings@, key),
{
    let mut cands: Vec<Chord> = Vec::new();
    let mut i: usize = 0;
    while i < bindings.len()
        invariant
            i <= bindings.len(),
            cands@ == chord_starts(bindings@.take(i as int), key),
        decreases bindings.len() - i,
    {
        if bindings[i].0.0 == key {
            cands.push(bindings[i].0);
        }
        assert(bindings@.take(i + 1).drop_last() =~= bindings@.take(i as int));
        assert(bindings@.take(i + 1).last() == bindings@[i as int]);
        i = i + 1;
    }
    assert(bindings@.take(bindings.len() as int) =~= bindings@);
    cands
}

fn completed_exec(cands: &Vec<Chord>, key: char) -> (done: Option<Chord>)
    ensures
        done == completed_chord(cands@, key),
{
    let mut i: usize = 0;
    assert(cands@.skip(0) =~= cands@);
    while i < cands.len()
        invariant
            i <= cands.len(),
            completed_chord(cands@, key) == completed_chord(cands@.skip(i as int), key),
        decreases cands.len() - i,
    {
        assert(cands@.skip(i as int)[0] == cands@[i as int]);
        if cands[i].1 == key {
            return Some(cands[i]);
        }
        assert(cands@.skip(i as int).skip(1) =~= cands@.skip(i + 1));
        i = i + 1;
    }
    None
}

fn lookup_exec(bindings: &Vec<(Chord, Cmd)>, chord: Chord) -> (cmd: Option<Cmd>)
    ensures
        cmd == lookup(bindings@, chord),
{
    let mut i: usize = 0;
    assert(bindings@.skip(0) =~= bindings@);
    while i < bindings.len()
        invariant
            i <= bindings.len(),
            lookup(bindings@, chord) == lookup(bindings@.skip(i as int), chord),
        decreases bindings.len() - i,
    {
        assert(bindings@.skip(i as int)[0] == bindings@[i as int]);
        if bindings[i].0 == chord {
            return Some(bindings[i].1);
        }
        assert(bindings@.skip(i as int).skip(1) =~= bindings@.skip(i + 1));
        i = i + 1;
    }
    None
}

} // verus!

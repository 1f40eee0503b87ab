use vstd::prelude::*;
use crate::cell::{Watcher, refreshed};
use crate::predicates::outro_sentinel;
use crate::text::{ArrayCString, nul_from};

verus! {

broadcast use vstd::array::group_array_axioms;

/// The level identifier as the game stores it: a single byte, read as a
/// NUL-terminated string of at most one character (zero is no level).
pub type LevelText = ArrayCString<1>;

/// The outro marker as the game stores it.
pub type OutroText = ArrayCString<5>;

/// What the activation cell records when the load byte cannot be read:
/// neither the inactive nor the active value, so that neither a failed
/// read nor the tick after it forms a start edge.
pub const ACTIVATION_FALLBACK: u8 = 0;

/// What the load flag records when the load byte cannot be read: the
/// second loading state, in which the game counts as loading whatever the
/// other flags hold.
pub const LOAD_FALLBACK: u8 = 3;

/// What the pause flag records when it cannot be read: paused.
pub const IS_PAUSED_FALLBACK: u8 = 1;

/// What the prompt flag records when it cannot be read: no prompt.
pub const PROMPT_FALLBACK: u8 = 0;

/// What the level cell records when the level cannot be read: no level,
/// which neither starts a run nor ends a segment.
pub open spec fn level_fallback() -> LevelText {
    choose|t: LevelText| t.bytes@ == seq![0u8]
}

/// What the outro cell records when the marker cannot be read: the
/// sentinel, so that the failed read cannot look like the end of the outro.
pub open spec fn outro_fallback() -> OutroText {
    choose|t: OutroText| t.bytes@ == outro_sentinel()
}

proof fn lemma_fallback_bytes()
    ensures
        level_fallback().bytes@ == seq![0u8],
        outro_fallback().bytes@ == outro_sentinel(),
{
    let zero = vstd::array::spec_array_fill_for_copy_type::<u8, 1>(0u8);
    assert(zero@ =~= seq![0u8]);
    let l = ArrayCString::<1> { bytes: zero };
    assert(l.bytes@ == seq![0u8]);
    let blank = vstd::array::spec_array_fill_for_copy_type::<u8, 5>(0u8);
    let b0 = vstd::array::spec_array_update(blank, 0, 79u8);
    let b1 = vstd::array::spec_array_update(b0, 1, 117u8);
    let b2 = vstd::array::spec_array_update(b1, 2, 116u8);
    let b3 = vstd::array::spec_array_update(b2, 3, 114u8);
    let b4 = vstd::array::spec_array_update(b3, 4, 111u8);
    assert(b4@ =~= outro_sentinel());
    let o = ArrayCString::<5> { bytes: b4 };
    assert(o.bytes@ == outro_sentinel());
}

/// The views of the fallback texts: no level, and the outro sentinel.
pub proof fn lemma_fallback_texts()
    ensures
        level_fallback()@.len() == 0,
        outro_fallback()@ == outro_sentinel(),
{
    lemma_fallback_bytes();
    assert(level_fallback()@ =~= Seq::<u8>::empty());
    let s = outro_fallback().bytes@;
    assert(s.len() == 5);
    assert(s[0] != 0 && s[1] != 0 && s[2] != 0 && s[3] != 0 && s[4] != 0);
    assert(nul_from(s, 5) == 5);
    assert(nul_from(s, 4) == 5);
    assert(nul_from(s, 3) == 5);
    assert(nul_from(s, 2) == 5);
    assert(nul_from(s, 1) == 5);
    assert(nul_from(s, 0) == 5);
    assert(outro_fallback()@ =~= outro_sentinel());
}

fn level_fallback_exec() -> (r: LevelText)
    ensures
        r == level_fallback(),
{
    let r = ArrayCString::new([0u8; 1]);
    proof {
        lemma_fallback_bytes();
        assert(r.bytes@ =~= seq![0u8]);
        assert(r.bytes =~= level_fallback().bytes);
    }
    r
}

fn outro_fallback_exec() -> (r: OutroText)
    ensures
        r == outro_fallback(),
{
    let r = ArrayCString::new([79u8, 117u8, 116u8, 114u8, 111u8]);
    proof {
        lemma_fallback_bytes();
        assert(r.bytes@ =~= outro_sentinel());
        assert(r.bytes =~= outro_fallback().bytes);
    }
    r
}

/// The cells observed for one attached game process.
#[derive(Clone, Copy, Debug)]
pub struct Watchers {
    /// The load byte as the start trigger.
    pub activation: Watcher<u8>,
    /// The load byte as a loading flag.
    pub load_byte: Watcher<u8>,
    /// The byte that is 1 while the game is paused by a loading screen.
    pub is_paused_byte: Watcher<u8>,
    /// The byte that is non-zero while a prompt waits on the player.
    pub prompt_byte: Watcher<u8>,
    /// The identifier of the level being played.
    pub level: Watcher<LevelText>,
    /// The string that reads "Outro" while the ending plays.
    pub outro: Watcher<OutroText>,
}

/// The outcome of one tick's reads: `None` where a read failed.
#[derive(Clone, Copy, Debug)]
pub struct Reads {
    pub load_byte: Option<u8>,
    pub is_paused_byte: Option<u8>,
    pub prompt_byte: Option<u8>,
    pub level: Option<LevelText>,
    pub outro: Option<OutroText>,
}

/// The bank after a refresh from `reads`, cell by cell, each failed read
/// replaced by its cell's fallback.
pub open spec fn bank_refreshed(w: Watchers, reads: Reads) -> Watchers {
    Watchers {
        activation: Watcher {
            pair: refreshed(w.activation.pair, reads.load_byte, ACTIVATION_FALLBACK),
        },
        load_byte: Watcher { pair: refreshed(w.load_byte.pair, reads.load_byte, LOAD_FALLBACK) },
        is_paused_byte: Watcher {
            pair: refreshed(w.is_paused_byte.pair, reads.is_paused_byte, IS_PAUSED_FALLBACK),
        },
        prompt_byte: Watcher {
            pair: refreshed(w.prompt_byte.pair, reads.prompt_byte, PROMPT_FALLBACK),
        },
        level: Watcher { pair: refreshed(w.level.pair, reads.level, level_fallback()) },
        outro: Watcher { pair: refreshed(w.outro.pair, reads.outro, outro_fallback()) },
    }
}

/// Whether no cell of the bank has been observed yet.
pub open spec fn is_fresh(w: Watchers) -> bool {
    &&& w.activation.pair is None
    &&& w.load_byte.pair is None
    &&& w.is_paused_byte.pair is None
    &&& w.prompt_byte.pair is None
    &&& w.level.pair is None
    &&& w.outro.pair is None
}

impl Watchers {
    /// A bank in which no cell has been observed.
    pub fn new() -> (r: Self)
        ensures
            is_fresh(r),
    {
        Watchers {
            activation: Watcher::new(),
            load_byte: Watcher::new(),
            is_paused_byte: Watcher::new(),
            prompt_byte: Watcher::new(),
            level: Watcher::new(),
            outro: Watcher::new(),
        }
    }

    /// Refreshes every cell from this tick's reads.
    pub fn refresh(&mut self, reads: Reads)
        ensures
            *final(self) == bank_refreshed(*old(self), reads),
    {
        self.activation.refresh(reads.load_byte, ACTIVATION_FALLBACK);
        self.load_byte.refresh(reads.load_byte, LOAD_FALLBACK);
        self.is_paused_byte.refresh(reads.is_paused_byte, IS_PAUSED_FALLBACK);
        self.prompt_byte.refresh(reads.prompt_byte, PROMPT_FALLBACK);
        self.level.refresh(reads.level, level_fallback_exec());
        self.outro.refresh(reads.outro, outro_fallback_exec());
    }
}

} // verus!

use vstd::prelude::*;
use crate::bank::Watchers;

verus! {

/// The load byte's value before a run begins.
pub const ACTIVATION_INACTIVE: u8 = 3;

/// The load byte's value once the first level of a run has loaded.
pub const ACTIVATION_ACTIVE: u8 = 6;

/// The text of the outro marker while the ending plays: "Outro".
pub open spec fn outro_sentinel() -> Seq<u8> {
    seq![79u8, 117u8, 116u8, 114u8, 111u8]
}

/// A run starts on the tick at which the activation cell moves from its
/// inactive to its active value while a level identifier is present.
pub open spec fn start_spec(w: Watchers) -> bool {
    &&& w.activation.pair matches Some(p) && p.old == ACTIVATION_INACTIVE && p.current
        == ACTIVATION_ACTIVE
    &&& w.level.pair matches Some(l) && l.current@.len() > 0
}

/// Whether the game shows a loading screen, when all three flag bytes have
/// been observed: paused, loading and no prompt; or in the second loading
/// state.
pub open spec fn loading_formula(is_paused: u8, load: u8, prompt: u8) -> bool {
    is_paused == 1 && load == 1 && prompt == 0 || load == 3
}

/// The loading state: unknown (`None`) while a flag byte is unobserved.
pub open spec fn is_loading_spec(w: Watchers) -> Option<bool> {
    match (w.is_paused_byte.pair, w.load_byte.pair, w.prompt_byte.pair) {
        (Some(p), Some(l), Some(q)) => Some(loading_formula(p.current, l.current, q.current)),
        _ => None,
    }
}

/// The level identifier changed on this tick to a non-empty one.
pub open spec fn level_split(w: Watchers) -> bool {
    w.level.pair matches Some(l) && l.old@ != l.current@ && l.current@.len() > 0
}

/// The outro marker held its sentinel on the previous tick and changed on
/// this one.
pub open spec fn outro_split(w: Watchers) -> bool {
    w.outro.pair matches Some(o) && o.old@ == outro_sentinel() && o.current@ != o.old@
}

/// A segment ends on a change of level or on the end of the outro.
pub open spec fn split_spec(w: Watchers) -> bool {
    level_split(w) || outro_split(w)
}

/// Whether a run starts on this tick.
pub fn start(w: &Watchers) -> (r: bool)
    ensures
        r == start_spec(*w),
{
    let level_present = match w.level.pair {
        Some(l) => !l.current.is_empty(),
        None => false,
    };
    w.activation.changed_from_to(ACTIVATION_INACTIVE, ACTIVATION_ACTIVE) && level_present
}

/// Whether game time should stand still on this tick; `None` until every
/// flag byte it reads has been observed.
pub fn is_loading(w: &Watchers) -> (r: Option<bool>)
    ensures
        r == is_loading_spec(*w),
        r is None <==> (w.is_paused_byte.pair is None || w.load_byte.pair is None
            || w.prompt_byte.pair is None),
{
    match (w.is_paused_byte.pair, w.load_byte.pair, w.prompt_byte.pair) {
        (Some(p), Some(l), Some(q)) => Some(
            p.current == 1 && l.current == 1 && q.current == 0 || l.current == 3,
        ),
        _ => None,
    }
}

/// Whether a segment ends on this tick.
pub fn split(w: &Watchers) -> (r: bool)
    ensures
        r == split_spec(*w),
{
    let by_level = match w.level.pair {
        Some(l) => !l.old.same_text(&l.current) && !l.current.is_empty(),
        None => false,
    };
    let by_outro = match w.outro.pair {
        Some(o) => o.old.matches(&[79u8, 117u8, 116u8, 114u8, 111u8]) && !o.current.same_text(
            &o.old,
        ),
        None => false,
    };
    by_level || by_outro
}

} // verus!

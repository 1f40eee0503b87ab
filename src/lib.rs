//! Timer control for a game run, inferred from polled memory values.
//!
//! The library holds the verified core: observed cells with their
//! previous and current values, the predicates that turn them into timer
//! commands, the memory layout of the supported game version, and the
//! session state machine that sequences attach, layout resolution and
//! ticks. Reading process memory and talking to the timer happen outside.

mod bank;
mod cell;
mod laws;
mod layout;
mod predicates;
mod session;
mod text;

pub use bank::{
    ACTIVATION_FALLBACK, IS_PAUSED_FALLBACK, LOAD_FALLBACK, LevelText, OutroText, PROMPT_FALLBACK,
    Reads, Watchers, bank_refreshed, is_fresh, lemma_fallback_texts, level_fallback,
    outro_fallback,
};
pub use cell::{Pair, Watcher, read_or, refreshed, updated};
pub use laws::{
    fails_within, lemma_failed_reads_add_no_event, lemma_loading_known_once_observed,
    lemma_no_start_after_failed_load, lemma_split_not_repeated, lemma_start_not_repeated,
    lemma_update_pairs,
};
pub use layout::{
    Hop, Layout, PointerChain, PointerWidth, add_offset, hop_spec, offset_address, resolved_from,
};
pub use predicates::{
    ACTIVATION_ACTIVE, ACTIVATION_INACTIVE, is_loading, is_loading_spec, level_split,
    loading_formula, outro_split, outro_sentinel, split, split_spec, start, start_spec,
};
pub use session::{
    Action, Cadence, Command, Event, NORMAL_TICK_RATE, Phase, SLOW_TICK_RATE, Session, TickPlan,
    TimerState, action_of, rate_of, steps_to, tick_commands, tick_commands_spec,
};
pub use text::{ArrayCString, text_of};

use vstd::prelude::*;
use crate::bank::{
    IS_PAUSED_FALLBACK, LOAD_FALLBACK, PROMPT_FALLBACK, Reads, Watchers, bank_refreshed, is_fresh,
    lemma_fallback_texts,
};
use crate::cell::{Pair, read_or, refreshed, updated};
use crate::predicates::{is_loading_spec, loading_formula, split_spec, start_spec};

verus! {

/// A cell updated with `v1` and then `v2` holds `v1` as its old value and
/// `v2` as its current one; a cell updated once from unobserved holds `v1`
/// in both. The same holds of refreshes, with the fallback in place of
/// each failed read.
pub proof fn lemma_update_pairs<T>(
    pair: Option<Pair<T>>,
    v1: T,
    v2: T,
    r1: Option<T>,
    r2: Option<T>,
    fallback: T,
)
    ensures
        updated(updated(pair, v1), v2) == Some(Pair { old: v1, current: v2 }),
        updated(None, v1) == Some(Pair { old: v1, current: v1 }),
        refreshed(refreshed(pair, r1, fallback), r2, fallback) == Some(
            Pair { old: read_or(r1, fallback), current: read_or(r2, fallback) },
        ),
        refreshed(None, r1, fallback) == Some(
            Pair { old: read_or(r1, fallback), current: read_or(r1, fallback) },
        ),
{
}

/// A start fires once per edge: on the tick after one, whatever was read,
/// no start fires again.
pub proof fn lemma_start_not_repeated(w: Watchers, reads: Reads)
    requires
        start_spec(w),
    ensures
        !start_spec(bank_refreshed(w, reads)),
{
}

/// A split fires once per change: a tick on which the level identifier and
/// the outro marker read as they were (or could not be read) fires none.
pub proof fn lemma_split_not_repeated(w: Watchers, reads: Reads)
    requires
        reads.level is Some && w.level.pair is Some ==> reads.level.unwrap()@
            == w.level.pair.unwrap().current@,
        reads.outro is Some && w.outro.pair is Some ==> reads.outro.unwrap()@
            == w.outro.pair.unwrap().current@,
    ensures
        !split_spec(bank_refreshed(w, reads)),
{
    lemma_fallback_texts();
}

/// The loading state is unknown before the first refresh, and after any
/// refresh it is the formula over the flag values read, each failed read
/// replaced by its flag's fallback.
pub proof fn lemma_loading_known_once_observed(w: Watchers, reads: Reads)
    ensures
        is_fresh(w) ==> is_loading_spec(w) is None,
        is_loading_spec(bank_refreshed(w, reads)) == Some(
            loading_formula(
                read_or(reads.is_paused_byte, IS_PAUSED_FALLBACK),
                read_or(reads.load_byte, LOAD_FALLBACK),
                read_or(reads.prompt_byte, PROMPT_FALLBACK),
            ),
        ),
{
}

/// Whether `failed` is `actual` with some of its reads failed.
pub open spec fn fails_within(failed: Reads, actual: Reads) -> bool {
    &&& failed.load_byte is None || failed.load_byte == actual.load_byte
    &&& failed.is_paused_byte is None || failed.is_paused_byte == actual.is_paused_byte
    &&& failed.prompt_byte is None || failed.prompt_byte == actual.prompt_byte
    &&& failed.level is None || failed.level == actual.level
    &&& failed.outro is None || failed.outro == actual.outro
}

/// Failed reads add no event: whatever set of reads fails on a tick, a
/// start or split that fires after it also fires had those reads
/// succeeded, and the game counts as loading wherever it would have with
/// the reads, and always when the load byte could not be read.
pub proof fn lemma_failed_reads_add_no_event(w: Watchers, failed: Reads, actual: Reads)
    requires
        fails_within(failed, actual),
    ensures
        start_spec(bank_refreshed(w, failed)) ==> start_spec(bank_refreshed(w, actual)),
        split_spec(bank_refreshed(w, failed)) ==> split_spec(bank_refreshed(w, actual)),
        is_loading_spec(bank_refreshed(w, actual)) == Some(true) ==> is_loading_spec(
            bank_refreshed(w, failed),
        ) == Some(true),
        failed.load_byte is None ==> is_loading_spec(bank_refreshed(w, failed)) == Some(true),
{
    lemma_fallback_texts();
}

/// A failed read of the load byte cannot form the first half of a start
/// edge: whatever is read on the next tick, no start fires then.
pub proof fn lemma_no_start_after_failed_load(w: Watchers, failed: Reads, next: Reads)
    requires
        failed.load_byte is None,
    ensures
        !start_spec(bank_refreshed(bank_refreshed(w, failed), next)),
{
}

} // verus!

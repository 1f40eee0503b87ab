use vstd::prelude::*;

verus! {

/// The value seen before the latest update, and the value seen by it.
#[derive(Clone, Copy, Debug)]
pub struct Pair<T> {
    pub old: T,
    pub current: T,
}

/// An observed cell: one memory quantity, unobserved (`pair` is `None`)
/// until its first update, then the pair of its last two values.
#[derive(Clone, Copy, Debug)]
pub struct Watcher<T> {
    pub pair: Option<Pair<T>>,
}

/// The state of a cell after an update with `value`: the first update sets
/// both values, a later one moves `current` into `old`.
pub open spec fn updated<T>(pair: Option<Pair<T>>, value: T) -> Option<Pair<T>> {
    match pair {
        Some(p) => Some(Pair { old: p.current, current: value }),
        None => Some(Pair { old: value, current: value }),
    }
}

/// The value that a refresh records: the value read, or the cell's
/// fallback when the read failed.
pub open spec fn read_or<T>(read: Option<T>, fallback: T) -> T {
    match read {
        Some(v) => v,
        None => fallback,
    }
}

/// The state of a cell after a refresh from a best-effort read: a failed
/// read is replaced by the cell's fallback, and the cell is updated with
/// that value as with any other.
pub open spec fn refreshed<T>(pair: Option<Pair<T>>, read: Option<T>, fallback: T) -> Option<
    Pair<T>,
> {
    updated(pair, read_or(read, fallback))
}

impl<T: Copy> Watcher<T> {
    /// A cell that has not been observed yet.
    pub fn new() -> (r: Self)
        ensures
            r.pair is None,
    {
        Watcher { pair: None }
    }

    /// Records a successfully read value.
    pub fn update(&mut self, value: T)
        ensures
            final(self).pair == updated(old(self).pair, value),
    {
        let previous = match self.pair {
            Some(p) => p.current,
            None => value,
        };
        self.pair = Some(Pair { old: previous, current: value });
    }

    /// Records the outcome of a read that may have failed (`None`), with
    /// `fallback` standing in for a failed read.
    pub fn refresh(&mut self, read: Option<T>, fallback: T)
        ensures
            final(self).pair == refreshed(old(self).pair, read, fallback),
    {
        match read {
            Some(v) => self.update(v),
            None => self.update(fallback),
        }
    }
}

impl Watcher<u8> {
    /// Whether the value changed with the latest update.
    pub fn changed(&self) -> (r: bool)
        ensures
            r == (self.pair matches Some(p) && p.old != p.current),
    {
        match self.pair {
            Some(p) => p.old != p.current,
            None => false,
        }
    }

    /// Whether the latest update moved the value from `from` to `to`.
    pub fn changed_from_to(&self, from: u8, to: u8) -> (r: bool)
        ensures
            r == (self.pair matches Some(p) && p.old == from && p.current == to),
    {
        match self.pair {
            Some(p) => p.old == from && p.current == to,
            None => false,
        }
    }

    /// Whether the latest update changed the value into `to`.
    pub fn changed_to(&self, to: u8) -> (r: bool)
        ensures
            r == (self.pair matches Some(p) && p.old != to && p.current == to),
    {
        match self.pair {
            Some(p) => p.old != to && p.current == to,
            None => false,
        }
    }
}

} // verus!

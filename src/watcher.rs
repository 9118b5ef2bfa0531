use vstd::prelude::*;

verus! {

/// The two most recent samples of a watched value.
#[derive(Clone, Copy, Debug, PartialEq, Eq)]
pub struct Pair<T> {
    pub previous: T,
    pub current: T,
}

/// Remembers the previous and the current sample of a value so that callers
/// can see its transitions.
#[derive(Clone, Copy, Debug, PartialEq, Eq)]
pub struct Watcher<T> {
    pub pair: Option<Pair<T>>,
}

/// The pair after feeding `sample` into a watcher that held `pair`.
pub open spec fn updated_pair<T>(pair: Option<Pair<T>>, sample: Option<T>) -> Option<Pair<T>> {
    match sample {
        None => pair,
        Some(v) => match pair {
            None => Some(Pair { previous: v, current: v }),
            Some(p) => Some(Pair { previous: p.current, current: v }),
        },
    }
}

impl<T: Copy> Watcher<T> {
    /// A watcher that has not seen a sample yet.
    pub fn new() -> (w: Self)
        ensures
            w.pair is None,
    {
        Watcher { pair: None }
    }

    /// Feeds one sample: `None` leaves the pair as it was; the first sample
    /// fills both slots; any later one shifts `current` into `previous`.
    pub fn update(&mut self, sample: Option<T>)
        ensures
            final(self).pair == updated_pair(old(self).pair, sample),
    {
        if let Some(v) = sample {
            let next = match self.pair {
                None => Pair { previous: v, current: v },
                Some(p) => Pair { previous: p.current, current: v },
            };
            self.pair = Some(next);
        }
    }
}

/// After a `true` sample followed by a `false` one, a watcher holds exactly
/// that falling edge, whatever it held before; a missing sample changes nothing.
pub proof fn lemma_watcher_tracks_edges(pair: Option<Pair<bool>>)
    ensures
        updated_pair(updated_pair(pair, Some(true)), Some(false)) == Some(
            Pair { previous: true, current: false },
        ),
        updated_pair(pair, None) == pair,
{
}

} // verus!

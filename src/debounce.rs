//! The debounced edge detector: a raw button level in, clean press and
//! release events out.
use vstd::prelude::*;
use crate::timing::{elapsed, elapsed_spec};

verus! {

/// Which way the button went.
#[derive(Clone, Copy, Debug, PartialEq, Eq, Structural)]
pub enum Edge {
    Pressed,
    Released,
}

/// An accepted transition and the time it was seen, in milliseconds.
#[derive(Clone, Copy, Debug, PartialEq, Eq, Structural)]
pub struct ButtonEvent {
    pub edge: Edge,
    pub at_ms: u64,
}

/// The detector's state: the accepted level and when it last changed.
#[derive(Clone, Copy, Debug, PartialEq, Eq, Structural)]
pub struct Debouncer {
    pub window_ms: u64,
    pub pressed: bool,
    pub last_transition_ms: u64,
}

impl Debouncer {
    /// A detector that has seen the button released, and no transition yet.
    pub open spec fn initial(window_ms: u64) -> Debouncer {
        Debouncer { window_ms, pressed: false, last_transition_ms: 0 }
    }

    /// The raw level `pressed` is sampled at `now`. A change of level is
    /// accepted only when more than `window_ms` have passed since the last
    /// accepted one; any other sample is dropped.
    pub open spec fn next(self, pressed: bool, now: u64) -> (Debouncer, Option<ButtonEvent>) {
        if pressed != self.pressed && elapsed_spec(self.last_transition_ms, now) > self.window_ms {
            (
                Debouncer { pressed, last_transition_ms: now, ..self },
                Some(
                    ButtonEvent {
                        edge: if pressed {
                            Edge::Pressed
                        } else {
                            Edge::Released
                        },
                        at_ms: now,
                    },
                ),
            )
        } else {
            (self, None)
        }
    }

    /// The state after a run of samples `(level, time)`, and how many
    /// transitions were accepted on the way.
    pub open spec fn run(self, samples: Seq<(bool, u64)>) -> (Debouncer, nat)
        decreases samples.len(),
    {
        if samples.len() == 0 {
            (self, 0)
        } else {
            let (d, n) = self.run(samples.drop_last());
            let (d2, e) = d.next(samples.last().0, samples.last().1);
            (d2, if e is Some {
                n + 1
            } else {
                n
            })
        }
    }

    /// A detector with a debounce window of `window_ms` milliseconds.
    pub fn new(window_ms: u64) -> (r: Debouncer)
        ensures
            r == Debouncer::initial(window_ms),
    {
        Debouncer { window_ms, pressed: false, last_transition_ms: 0 }
    }

    /// Feeds one sample of the raw level; returns the accepted transition, if any.
    pub fn sample(&mut self, pressed: bool, now_ms: u64) -> (r: Option<ButtonEvent>)
        ensures
            (*final(self), r) == old(self).next(pressed, now_ms),
    {
        if pressed != self.pressed && elapsed(self.last_transition_ms, now_ms) > self.window_ms {
            self.pressed = pressed;
            self.last_transition_ms = now_ms;
            Some(ButtonEvent { edge: if pressed { Edge::Pressed } else { Edge::Released }, at_ms: now_ms })
        } else {
            None
        }
    }
}

/// A burst of samples, in time order, that all fall within the debounce window
/// of the first one yields at most one accepted transition, however many times
/// the level flips.
pub proof fn lemma_burst_collapses(d: Debouncer, samples: Seq<(bool, u64)>)
    requires
        forall|j: int, k: int| 0 <= j <= k < samples.len() ==> #[trigger] samples[j].1 <= #[trigger] samples[k].1,
        forall|k: int| 0 <= k < samples.len() ==> #[trigger] samples[k].1 <= samples[0].1 + d.window_ms,
    ensures
        d.run(samples).1 <= 1,
{
    if samples.len() > 0 {
        lemma_burst_prefix(d, samples, samples.len() as int);
        assert(samples.subrange(0, samples.len() as int) =~= samples);
    }
}

proof fn lemma_burst_prefix(d: Debouncer, samples: Seq<(bool, u64)>, m: int)
    requires
        1 <= m <= samples.len(),
        forall|j: int, k: int| 0 <= j <= k < samples.len() ==> #[trigger] samples[j].1 <= #[trigger] samples[k].1,
        forall|k: int| 0 <= k < samples.len() ==> #[trigger] samples[k].1 <= samples[0].1 + d.window_ms,
    ensures
        ({
            let (e, n) = d.run(samples.subrange(0, m));
            &&& n <= 1
            &&& n == 1 ==> samples[0].1 <= e.last_transition_ms <= samples[m - 1].1
            &&& e.window_ms == d.window_ms
        }),
    decreases m,
{
    let pre = samples.subrange(0, m);
    assert(pre.drop_last() =~= samples.subrange(0, m - 1));
    assert(pre.last() == samples[m - 1]);
    if m > 1 {
        lemma_burst_prefix(d, samples, m - 1);
    } else {
        assert(samples.subrange(0, 0) =~= Seq::<(bool, u64)>::empty());
    }
}

} // verus!

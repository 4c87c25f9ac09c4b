//! Durations, thresholds and the duration classifier.
use vstd::prelude::*;

verus! {

/// Longest press, in milliseconds, that still counts as a dot.
pub const DOT_THRESHOLD_MS: u64 = 250;

/// Longest press, in milliseconds, that still counts as a dash.
pub const DASH_THRESHOLD_MS: u64 = 750;

/// Longest silence, in milliseconds, that still lies inside one character.
pub const INTER_CHAR_GAP_MS: u64 = 750;

/// Longest silence, in milliseconds, that still separates two characters of a word.
pub const WORD_GAP_MS: u64 = 1750;

/// Edges closer together than this many milliseconds are treated as bounce.
pub const DEBOUNCE_TIME_MS: u64 = 50;

/// Ticks of the free-running clock per millisecond (the clock counts microseconds).
pub const TICKS_PER_MS: u64 = 1000;

/// The class of a measured interval.
#[derive(Clone, Copy, Debug, PartialEq, Eq, Structural)]
pub enum Symbol {
    Dot,
    Dash,
    CharGap,
    WordGap,
    Noise,
}

/// The tunable thresholds of the classifier, all in milliseconds.
#[derive(Clone, Copy, Debug, PartialEq, Eq, Structural)]
pub struct Thresholds {
    pub dot_max_ms: u64,
    pub dash_max_ms: u64,
    pub char_gap_min_ms: u64,
    pub word_gap_min_ms: u64,
}

/// Time from `start` to `end` on a counter that may wrap around.
pub open spec fn elapsed_spec(start: u64, end: u64) -> int {
    if end >= start {
        end - start
    } else {
        end - start + u64::MAX + 1
    }
}

/// Wraparound-safe difference `end - start` of two readings of a counter.
pub fn elapsed(start: u64, end: u64) -> (r: u64)
    ensures
        r == elapsed_spec(start, end),
{
    end.wrapping_sub(start)
}

/// Whole milliseconds in a reading of the microsecond clock.
pub fn ticks_to_ms(ticks: u64) -> (r: u64)
    ensures
        r == ticks / TICKS_PER_MS,
{
    ticks / TICKS_PER_MS
}

impl Thresholds {
    /// The thresholds are ordered: each class starts where the previous one ends.
    pub open spec fn wf(self) -> bool {
        self.dot_max_ms <= self.dash_max_ms && self.dash_max_ms <= self.char_gap_min_ms
            && self.char_gap_min_ms <= self.word_gap_min_ms
    }

    pub open spec fn default_spec() -> Thresholds {
        Thresholds {
            dot_max_ms: DOT_THRESHOLD_MS,
            dash_max_ms: DASH_THRESHOLD_MS,
            char_gap_min_ms: INTER_CHAR_GAP_MS,
            word_gap_min_ms: WORD_GAP_MS,
        }
    }

    /// The standard thresholds: 250 ms dot, 750 ms dash, 750 ms character gap,
    /// 1750 ms word gap.
    pub fn standard() -> (r: Thresholds)
        ensures
            r == Thresholds::default_spec(),
            r.wf(),
    {
        Thresholds {
            dot_max_ms: DOT_THRESHOLD_MS,
            dash_max_ms: DASH_THRESHOLD_MS,
            char_gap_min_ms: INTER_CHAR_GAP_MS,
            word_gap_min_ms: WORD_GAP_MS,
        }
    }

    /// Thresholds of one's own choosing; `None` unless they are ordered.
    pub fn new(dot_max_ms: u64, dash_max_ms: u64, char_gap_min_ms: u64, word_gap_min_ms: u64) -> (r:
        Option<Thresholds>)
        ensures
            r is Some <==> (dot_max_ms <= dash_max_ms && dash_max_ms <= char_gap_min_ms
                && char_gap_min_ms <= word_gap_min_ms),
            r matches Some(t) ==> t.wf() && t.dot_max_ms == dot_max_ms && t.dash_max_ms
                == dash_max_ms && t.char_gap_min_ms == char_gap_min_ms && t.word_gap_min_ms
                == word_gap_min_ms,
    {
        if dot_max_ms <= dash_max_ms && dash_max_ms <= char_gap_min_ms && char_gap_min_ms
            <= word_gap_min_ms {
            Some(Thresholds { dot_max_ms, dash_max_ms, char_gap_min_ms, word_gap_min_ms })
        } else {
            None
        }
    }
}

/// The class of an interval of `d` milliseconds. Each boundary belongs to the
/// shorter class: `d == dot_max_ms` is a dot.
pub open spec fn classify_spec(d: u64, t: Thresholds) -> Symbol {
    if d <= t.dot_max_ms {
        Symbol::Dot
    } else if d <= t.dash_max_ms {
        Symbol::Dash
    } else if d <= t.char_gap_min_ms {
        Symbol::Noise
    } else if d <= t.word_gap_min_ms {
        Symbol::CharGap
    } else {
        Symbol::WordGap
    }
}

/// Classifies an interval of `duration_ms` milliseconds.
pub fn classify(duration_ms: u64, t: &Thresholds) -> (r: Symbol)
    ensures
        r == classify_spec(duration_ms, *t),
{
    if duration_ms <= t.dot_max_ms {
        Symbol::Dot
    } else if duration_ms <= t.dash_max_ms {
        Symbol::Dash
    } else if duration_ms <= t.char_gap_min_ms {
        Symbol::Noise
    } else if duration_ms <= t.word_gap_min_ms {
        Symbol::CharGap
    } else {
        Symbol::WordGap
    }
}

} // verus!

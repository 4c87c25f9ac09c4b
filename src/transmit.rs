//! The transmit encoder: button levels in, dot/dash pulses and gap markers out.
use vstd::prelude::*;
use crate::morse::{decode_spec, lemma_decode_pattern, letter_spec, pattern_spec, DASH, DOT};
use crate::timing::{classify, classify_spec, elapsed, elapsed_spec, Symbol, Thresholds};

verus! {

/// Tone frequency of a dot, in hertz.
pub const DOT_FREQ: u32 = 800;

/// Tone frequency of a dash, in hertz.
pub const DASH_FREQ: u32 = 400;

/// Length of a dot's tone, in milliseconds.
pub const DOT_DURATION_MS: u32 = 250;

/// Length of a dash's tone, in milliseconds.
pub const DASH_DURATION_MS: u32 = 750;

/// Silence after each transmitted symbol, in milliseconds.
pub const SYMBOL_GAP_MS: u32 = 250;

/// An audible pulse: a tone of `freq_hz` for `duration_ms`.
#[derive(Clone, Copy, Debug, PartialEq, Eq, Structural)]
pub struct Pulse {
    pub freq_hz: u32,
    pub duration_ms: u32,
}

/// How a square wave for a tone is driven: `cycles` periods, each high for
/// `half_period_us` and low for `half_period_us` microseconds.
#[derive(Clone, Copy, Debug, PartialEq, Eq, Structural)]
pub struct TonePlan {
    pub half_period_us: u32,
    pub cycles: u32,
}

pub open spec fn pulse_spec(s: Symbol) -> Option<Pulse> {
    match s {
        Symbol::Dot => Some(Pulse { freq_hz: DOT_FREQ, duration_ms: DOT_DURATION_MS }),
        Symbol::Dash => Some(Pulse { freq_hz: DASH_FREQ, duration_ms: DASH_DURATION_MS }),
        _ => None,
    }
}

/// The pulse that sends a symbol; only dots and dashes are sent.
pub fn pulse_for(s: Symbol) -> (r: Option<Pulse>)
    ensures
        r == pulse_spec(s),
{
    match s {
        Symbol::Dot => Some(Pulse { freq_hz: DOT_FREQ, duration_ms: DOT_DURATION_MS }),
        Symbol::Dash => Some(Pulse { freq_hz: DASH_FREQ, duration_ms: DASH_DURATION_MS }),
        _ => None,
    }
}

pub open spec fn symbol_byte_spec(s: Symbol) -> Option<u8> {
    match s {
        Symbol::Dot => Some(DOT),
        Symbol::Dash => Some(DASH),
        _ => None,
    }
}

/// The serial byte that announces a sent symbol.
pub fn symbol_byte(s: Symbol) -> (r: Option<u8>)
    ensures
        r == symbol_byte_spec(s),
{
    match s {
        Symbol::Dot => Some(DOT),
        Symbol::Dash => Some(DASH),
        _ => None,
    }
}

/// Square-wave timing of a tone of `freq_hz` lasting `duration_ms`: the period
/// is `1_000_000 / freq_hz` microseconds, and as many whole periods are played
/// as fit in the duration.
pub fn tone_plan(freq_hz: u32, duration_ms: u32) -> (r: TonePlan)
    requires
        0 < freq_hz <= 1_000_000,
        duration_ms <= u32::MAX / 1000,
    ensures
        r.half_period_us == (1_000_000u32 / freq_hz) / 2,
        r.cycles as int == (duration_ms as int * 1000) / (1_000_000u32 / freq_hz) as int,
{
    let period_us = 1_000_000 / freq_hz;
    proof {
        assert(period_us >= 1) by (nonlinear_arith)
            requires
                period_us == 1_000_000u32 / freq_hz,
                0 < freq_hz <= 1_000_000,
        ;
    }
    TonePlan { half_period_us: period_us / 2, cycles: (duration_ms * 1000) / period_us }
}

pub open spec fn pattern_symbol(b: u8) -> Option<Symbol> {
    if b == DOT {
        Some(Symbol::Dot)
    } else if b == DASH {
        Some(Symbol::Dash)
    } else {
        None
    }
}

/// The symbols of a dot/dash pattern, in order; other bytes are skipped.
pub open spec fn pattern_symbols_spec(p: Seq<u8>) -> Seq<Symbol>
    decreases p.len(),
{
    if p.len() == 0 {
        Seq::empty()
    } else {
        let rest = pattern_symbols_spec(p.drop_last());
        match pattern_symbol(p.last()) {
            Some(s) => rest.push(s),
            None => rest,
        }
    }
}

/// The symbols to send for a written pattern such as the synchronization
/// pattern: `.` is a dot, `-` a dash, anything else is skipped.
pub fn pattern_symbols(pattern: &[u8]) -> (r: Vec<Symbol>)
    ensures
        r@ == pattern_symbols_spec(pattern@),
{
    let mut out: Vec<Symbol> = Vec::new();
    let mut k: usize = 0;
    while k < pattern.len()
        invariant
            k <= pattern@.len(),
            out@ == pattern_symbols_spec(pattern@.subrange(0, k as int)),
        decreases pattern@.len() - k,
    {
        let b = pattern[k];
        proof {
            let next = pattern@.subrange(0, k + 1);
            assert(next.drop_last() =~= pattern@.subrange(0, k as int));
            assert(next.last() == b);
        }
        if b == DOT {
            out.push(Symbol::Dot);
        } else if b == DASH {
            out.push(Symbol::Dash);
        }
        k = k + 1;
    }
    assert(pattern@.subrange(0, pattern@.len() as int) =~= pattern@);
    out
}

/// The synchronization pattern sent at the start of every session.
pub fn sync_pattern() -> (r: Vec<u8>)
    ensures
        r@ == seq![DOT, DOT, DOT, DASH, DASH, DASH, DOT, DOT, DOT],
{
    vec![DOT, DOT, DOT, DASH, DASH, DASH, DOT, DOT, DOT]
}

/// The transmit encoder's state: the button as last accepted, and the current gap.
#[derive(Clone, Copy, Debug, PartialEq, Eq, Structural)]
pub struct Encoder {
    pub thresholds: Thresholds,
    pub debounce_ms: u64,
    /// A press has been accepted and not yet released.
    pub button_was_pressed: bool,
    /// When the last press or release was accepted; while the button is held,
    /// this is when the press started.
    pub last_transition_ms: u64,
    /// When the last symbol's press was released.
    pub last_release_ms: u64,
    /// A symbol has been sent and no word gap has followed yet.
    pub in_word: bool,
    /// The character gap after the last symbol has been marked.
    pub char_gap_marked: bool,
}

impl Encoder {
    /// A fresh encoder.
    pub open spec fn initial(thresholds: Thresholds, debounce_ms: u64) -> Encoder {
        Encoder {
            thresholds,
            debounce_ms,
            button_was_pressed: false,
            last_transition_ms: 0,
            last_release_ms: 0,
            in_word: false,
            char_gap_marked: false,
        }
    }

    /// Whether the level `pressed` read at `now` is accepted as a press or a
    /// release: it differs from the accepted level, and more than
    /// `debounce_ms` have passed since the last accepted transition.
    pub open spec fn accepts(self, pressed: bool, now: u64) -> bool {
        pressed != self.button_was_pressed && elapsed_spec(self.last_transition_ms, now)
            > self.debounce_ms
    }

    /// The button reads `pressed` at `now`: the next state and what to send or
    /// mark. One time, that of the last accepted press or release, governs both
    /// edges. A press is accepted only more than `debounce_ms` after it. A
    /// release within `debounce_ms` of the press is bounce: the press is
    /// discarded, nothing is sent and the time of the last accepted transition stays. Any other release
    /// sends the dot or dash that the press's length classifies as, or nothing
    /// when it is longer than a dash. While released, the gap is marked once as
    /// a character gap and once as a word gap, as it grows.
    pub open spec fn next(self, pressed: bool, now: u64) -> (Encoder, Option<Symbol>) {
        if pressed && !self.button_was_pressed {
            if self.accepts(pressed, now) {
                (Encoder { last_transition_ms: now, button_was_pressed: true, ..self }, None)
            } else {
                (self, None)
            }
        } else if !pressed && self.button_was_pressed {
            let held = elapsed_spec(self.last_transition_ms, now);
            if self.accepts(pressed, now) {
                let s = classify_spec(held as u64, self.thresholds);
                (
                    Encoder {
                        button_was_pressed: false,
                        last_transition_ms: now,
                        last_release_ms: now,
                        in_word: true,
                        char_gap_marked: false,
                        ..self
                    },
                    if s == Symbol::Dot || s == Symbol::Dash {
                        Some(s)
                    } else {
                        None
                    },
                )
            } else {
                (Encoder { button_was_pressed: false, ..self }, None)
            }
        } else if !pressed && self.in_word {
            let gap = classify_spec(elapsed_spec(self.last_release_ms, now) as u64, self.thresholds);
            if gap == Symbol::WordGap {
                (Encoder { in_word: false, ..self }, Some(Symbol::WordGap))
            } else if gap == Symbol::CharGap && !self.char_gap_marked {
                (Encoder { char_gap_marked: true, ..self }, Some(Symbol::CharGap))
            } else {
                (self, None)
            }
        } else {
            (self, None)
        }
    }

    /// The state after a run of samples `(level, time)`, how many presses and
    /// releases were accepted on the way, and how many dots and dashes were sent.
    pub open spec fn run(self, samples: Seq<(bool, u64)>) -> (Encoder, nat, nat)
        decreases samples.len(),
    {
        if samples.len() == 0 {
            (self, 0, 0)
        } else {
            let (e, n, sent) = self.run(samples.drop_last());
            let (pressed, now) = samples.last();
            let (e2, out) = e.next(pressed, now);
            (
                e2,
                if e.accepts(pressed, now) {
                    n + 1
                } else {
                    n
                },
                if out == Some(Symbol::Dot) || out == Some(Symbol::Dash) {
                    sent + 1
                } else {
                    sent
                },
            )
        }
    }

    /// A fresh encoder with the given thresholds and debounce window.
    pub fn new(thresholds: Thresholds, debounce_ms: u64) -> (r: Encoder)
        ensures
            r == Encoder::initial(thresholds, debounce_ms),
    {
        Encoder {
            thresholds,
            debounce_ms,
            button_was_pressed: false,
            last_transition_ms: 0,
            last_release_ms: 0,
            in_word: false,
            char_gap_marked: false,
        }
    }

    /// One poll of the button: `pressed` is its level at `now_ms`. Returns the
    /// dot or dash to send, the gap to mark, or nothing.
    pub fn step(&mut self, pressed: bool, now_ms: u64) -> (r: Option<Symbol>)
        ensures
            (*final(self), r) == old(self).next(pressed, now_ms),
    {
        if pressed && !self.button_was_pressed {
            if elapsed(self.last_transition_ms, now_ms) > self.debounce_ms {
                self.last_transition_ms = now_ms;
                self.button_was_pressed = true;
            }
            None
        } else if !pressed && self.button_was_pressed {
            let held = elapsed(self.last_transition_ms, now_ms);
            self.button_was_pressed = false;
            if held > self.debounce_ms {
                let s = classify(held, &self.thresholds);
                self.last_transition_ms = now_ms;
                self.last_release_ms = now_ms;
                self.in_word = true;
                self.char_gap_marked = false;
                if s == Symbol::Dot || s == Symbol::Dash {
                    Some(s)
                } else {
                    None
                }
            } else {
                None
            }
        } else if !pressed && self.in_word {
            let gap = classify(elapsed(self.last_release_ms, now_ms), &self.thresholds);
            if gap == Symbol::WordGap {
                self.in_word = false;
                Some(Symbol::WordGap)
            } else if gap == Symbol::CharGap && !self.char_gap_marked {
                self.char_gap_marked = true;
                Some(Symbol::CharGap)
            } else {
                None
            }
        } else {
            None
        }
    }
}

/// A burst of button samples, in time order, that all fall within the
/// debounce window of the first one gets at most one press or release
/// accepted, and so sends at most one dot or dash, however often the level
/// flips.
pub proof fn lemma_encoder_burst_collapses(e: Encoder, samples: Seq<(bool, u64)>)
    requires
        forall|j: int, k: int|
            0 <= j <= k < samples.len() ==> #[trigger] samples[j].1 <= #[trigger] samples[k].1,
        forall|k: int| 0 <= k < samples.len() ==> #[trigger] samples[k].1 <= samples[0].1 + e.debounce_ms,
    ensures
        e.run(samples).1 <= 1,
        e.run(samples).2 <= 1,
{
    if samples.len() > 0 {
        lemma_encoder_burst_prefix(e, samples, samples.len() as int);
        assert(samples.subrange(0, samples.len() as int) =~= samples);
    }
}

proof fn lemma_encoder_burst_prefix(e: Encoder, samples: Seq<(bool, u64)>, m: int)
    requires
        1 <= m <= samples.len(),
        forall|j: int, k: int|
            0 <= j <= k < samples.len() ==> #[trigger] samples[j].1 <= #[trigger] samples[k].1,
        forall|k: int| 0 <= k < samples.len() ==> #[trigger] samples[k].1 <= samples[0].1 + e.debounce_ms,
    ensures
        ({
            let (f, n, sent) = e.run(samples.subrange(0, m));
            &&& n <= 1
            &&& sent <= n
            &&& n == 1 ==> samples[0].1 <= f.last_transition_ms <= samples[m - 1].1
            &&& f.debounce_ms == e.debounce_ms
        }),
    decreases m,
{
    let pre = samples.subrange(0, m);
    assert(pre.drop_last() =~= samples.subrange(0, m - 1));
    assert(pre.last() == samples[m - 1]);
    if m > 1 {
        lemma_encoder_burst_prefix(e, samples, m - 1);
    } else {
        assert(samples.subrange(0, 0) =~= Seq::<(bool, u64)>::empty());
    }
}

/// The byte a receiver logs for a sent symbol: the length of its pulse,
/// classified again with the standard thresholds, as a serial byte (`0` for a
/// symbol that is not sent).
pub open spec fn received_byte(s: Symbol) -> u8 {
    match pulse_spec(s) {
        Some(p) => match symbol_byte_spec(classify_spec(p.duration_ms as u64, Thresholds::default_spec())) {
            Some(b) => b,
            None => 0,
        },
        None => 0,
    }
}

/// The bytes a receiver logs for a sequence of sent symbols.
pub open spec fn received_bytes(syms: Seq<Symbol>) -> Seq<u8> {
    syms.map_values(|s: Symbol| received_byte(s))
}

proof fn lemma_marks_survive(p: Seq<u8>)
    requires
        forall|k: int| 0 <= k < p.len() ==> p[k] == DOT || p[k] == DASH,
    ensures
        received_bytes(pattern_symbols_spec(p)) == p,
    decreases p.len(),
{
    if p.len() > 0 {
        let q = p.drop_last();
        lemma_marks_survive(q);
        assert(received_byte(Symbol::Dot) == DOT);
        assert(received_byte(Symbol::Dash) == DASH);
        let rest = pattern_symbols_spec(q);
        let sym = pattern_symbol(p.last()).unwrap();
        assert(pattern_symbols_spec(p) == rest.push(sym));
        assert(received_bytes(rest.push(sym)) =~= received_bytes(rest).push(received_byte(sym)));
        assert(q.push(p.last()) =~= p);
    } else {
        assert(received_bytes(pattern_symbols_spec(p)) =~= p);
    }
}

/// Sending a letter as the pulses of its pattern, classifying each pulse's
/// length again and decoding the resulting symbols gives the letter back, for
/// each of the 26 letters.
pub proof fn lemma_round_trip(i: int)
    requires
        0 <= i < 26,
    ensures
        decode_spec(received_bytes(pattern_symbols_spec(pattern_spec(i)))) == letter_spec(i),
{
    let p = pattern_spec(i);
    assert(forall|k: int| 0 <= k < p.len() ==> p[k] == DOT || p[k] == DASH);
    lemma_marks_survive(p);
    lemma_decode_pattern(i);
}

} // verus!

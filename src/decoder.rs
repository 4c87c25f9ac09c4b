//! The receive decoder: a byte-driven state machine that accumulates dots and
//! dashes into a character buffer and frames characters and words, both by
//! explicit control bytes and by timeouts.
use vstd::prelude::*;
use crate::morse::{decode_morse, decode_spec, DASH, DOT, LONGEST_PATTERN};
use crate::timing::{elapsed, elapsed_spec};

verus! {

/// Symbols one character may hold: the longest pattern of the table and one
/// more as a guard, so that an over-long character can never match a letter.
pub const MAX_MORSE_LENGTH: usize = LONGEST_PATTERN + 1;

/// Silence, in milliseconds, after which a pending character is decoded.
pub const CHAR_TIMEOUT_MS: u64 = 1000;

/// Silence, in milliseconds, after which a pending word is closed with a space.
pub const WORD_TIMEOUT_MS: u64 = 2000;

/// `C`: end of character.
pub const CHAR_END: u8 = 67;
/// `c`: end of character.
pub const CHAR_END_LOWER: u8 = 99;
/// `W`: end of word.
pub const WORD_END: u8 = 87;
/// `w`: end of word.
pub const WORD_END_LOWER: u8 = 119;
/// `H`: decode the pending character, if there is one.
pub const HARD_CHAR_FLUSH: u8 = 72;
/// `O`: close the current word.
pub const SOFT_WORD_FLUSH: u8 = 79;

/// What a byte of the serial stream means to the decoder.
#[derive(Clone, Copy, Debug, PartialEq, Eq, Structural)]
pub enum ByteKind {
    Dot,
    Dash,
    CharEnd,
    WordEnd,
    HardCharFlush,
    SoftWordFlush,
    Other,
}

/// What the decoder hands to the display.
#[derive(Clone, Copy, Debug, PartialEq, Eq, Structural)]
pub enum DecodeEvent {
    /// A decoded letter, `A` to `Z`.
    Letter(char),
    /// A finished character that matches no letter.
    Unknown,
    /// The end of a word.
    Space,
}

/// Timeouts and buffer capacity of the decoder.
#[derive(Clone, Copy, Debug, PartialEq, Eq, Structural)]
pub struct DecoderConfig {
    pub char_timeout_ms: u64,
    pub word_timeout_ms: u64,
    /// Most symbols one character may hold; further ones are dropped.
    pub capacity: usize,
}

/// The decoder as a mathematical value.
pub struct DecoderState {
    pub buffer: Seq<u8>,
    pub in_character: bool,
    pub in_word: bool,
    pub space_added: bool,
    pub last_signal_ms: u64,
    pub last_event_ms: u64,
    pub config: DecoderConfig,
}

/// The receive decoder.
pub struct Decoder {
    buffer: Vec<u8>,
    in_character: bool,
    in_word: bool,
    space_added: bool,
    last_signal_ms: u64,
    last_event_ms: u64,
    config: DecoderConfig,
}

pub open spec fn byte_kind_spec(c: u8) -> ByteKind {
    if c == DOT {
        ByteKind::Dot
    } else if c == DASH {
        ByteKind::Dash
    } else if c == CHAR_END || c == CHAR_END_LOWER {
        ByteKind::CharEnd
    } else if c == WORD_END || c == WORD_END_LOWER {
        ByteKind::WordEnd
    } else if c == HARD_CHAR_FLUSH {
        ByteKind::HardCharFlush
    } else if c == SOFT_WORD_FLUSH {
        ByteKind::SoftWordFlush
    } else {
        ByteKind::Other
    }
}

/// Classifies a byte of the serial stream.
pub fn byte_kind(c: u8) -> (r: ByteKind)
    ensures
        r == byte_kind_spec(c),
{
    if c == DOT {
        ByteKind::Dot
    } else if c == DASH {
        ByteKind::Dash
    } else if c == CHAR_END || c == CHAR_END_LOWER {
        ByteKind::CharEnd
    } else if c == WORD_END || c == WORD_END_LOWER {
        ByteKind::WordEnd
    } else if c == HARD_CHAR_FLUSH {
        ByteKind::HardCharFlush
    } else if c == SOFT_WORD_FLUSH {
        ByteKind::SoftWordFlush
    } else {
        ByteKind::Other
    }
}

/// The event for a finished character: its letter, or `Unknown`.
pub open spec fn char_event(buf: Seq<u8>) -> DecodeEvent {
    if decode_spec(buf) == '?' {
        DecodeEvent::Unknown
    } else {
        DecodeEvent::Letter(decode_spec(buf))
    }
}

impl DecoderConfig {
    /// One-second character timeout, two-second word timeout, room for
    /// `MAX_MORSE_LENGTH` symbols.
    pub fn standard() -> (r: DecoderConfig)
        ensures
            r.char_timeout_ms == CHAR_TIMEOUT_MS,
            r.word_timeout_ms == WORD_TIMEOUT_MS,
            r.capacity == MAX_MORSE_LENGTH,
    {
        DecoderConfig {
            char_timeout_ms: CHAR_TIMEOUT_MS,
            word_timeout_ms: WORD_TIMEOUT_MS,
            capacity: MAX_MORSE_LENGTH,
        }
    }
}

impl DecoderState {
    /// The buffer respects its capacity, and holds nothing between characters.
    pub open spec fn wf(self) -> bool {
        &&& self.buffer.len() <= self.config.capacity
        &&& !self.in_character ==> self.buffer.len() == 0
    }

    /// The state of a fresh decoder.
    pub open spec fn initial(config: DecoderConfig) -> DecoderState {
        DecoderState {
            buffer: Seq::empty(),
            in_character: false,
            in_word: false,
            space_added: false,
            last_signal_ms: 0,
            last_event_ms: 0,
            config,
        }
    }

    /// Decodes and clears the pending character.
    pub open spec fn finish_char(self) -> (DecoderState, Option<DecodeEvent>) {
        (
            DecoderState { buffer: Seq::empty(), in_character: false, ..self },
            if self.buffer.len() > 0 {
                Some(char_event(self.buffer))
            } else {
                None
            },
        )
    }

    /// A dot or dash byte `c` arrives at `now`.
    pub open spec fn signal(self, c: u8, now: u64) -> DecoderState {
        let start = if self.in_character {
            self.buffer
        } else {
            Seq::empty()
        };
        let buffer = if start.len() < self.config.capacity {
            start.push(c)
        } else {
            start
        };
        DecoderState {
            buffer,
            in_character: true,
            space_added: if self.in_character {
                self.space_added
            } else {
                false
            },
            last_signal_ms: now,
            last_event_ms: now,
            in_word: true,
            ..self
        }
    }

    /// Byte `c` arrives at `now`: the next state and what goes to the display.
    pub open spec fn on_byte(self, c: u8, now: u64) -> (DecoderState, Option<DecodeEvent>) {
        match byte_kind_spec(c) {
            ByteKind::Dot | ByteKind::Dash => (self.signal(c, now), None),
            ByteKind::CharEnd => {
                let s = DecoderState { last_event_ms: now, ..self };
                if self.in_character && self.buffer.len() > 0 {
                    s.finish_char()
                } else {
                    (s, None)
                }
            },
            ByteKind::WordEnd => {
                let s = DecoderState { last_event_ms: now, ..self };
                if self.in_word && !self.space_added {
                    (
                        DecoderState { in_word: false, space_added: true, ..s },
                        Some(DecodeEvent::Space),
                    )
                } else {
                    (s, None)
                }
            },
            ByteKind::HardCharFlush => {
                if self.in_character && self.buffer.len() > 0 {
                    self.finish_char()
                } else {
                    (self, None)
                }
            },
            ByteKind::SoftWordFlush => {
                if self.in_word {
                    (
                        DecoderState { in_word: false, space_added: true, ..self },
                        if self.space_added {
                            None
                        } else {
                            Some(DecodeEvent::Space)
                        },
                    )
                } else {
                    (self, None)
                }
            },
            ByteKind::Other => (self, None),
        }
    }

    /// The character timeout, checked at `now`.
    pub open spec fn char_timeout(self, now: u64) -> (DecoderState, Option<DecodeEvent>) {
        if self.in_character && elapsed_spec(self.last_signal_ms, now)
            > self.config.char_timeout_ms {
            self.finish_char()
        } else {
            (self, None)
        }
    }

    /// The word timeout, checked at `now`.
    pub open spec fn word_timeout(self, now: u64) -> (DecoderState, Option<DecodeEvent>) {
        if self.in_word && !self.space_added && elapsed_spec(self.last_event_ms, now)
            > self.config.word_timeout_ms {
            (
                DecoderState { in_word: false, space_added: true, ..self },
                Some(DecodeEvent::Space),
            )
        } else {
            (self, None)
        }
    }

    /// Both timeouts, character first: the next state and the events, in order.
    pub open spec fn on_tick(self, now: u64) -> (DecoderState, Seq<DecodeEvent>) {
        let (s1, e1) = self.char_timeout(now);
        let (s2, e2) = s1.word_timeout(now);
        (s2, option_seq(e1) + option_seq(e2))
    }
}

/// The events of an optional event.
pub open spec fn option_seq(e: Option<DecodeEvent>) -> Seq<DecodeEvent> {
    match e {
        Some(v) => seq![v],
        None => Seq::empty(),
    }
}

impl View for Decoder {
    type V = DecoderState;

    closed spec fn view(&self) -> DecoderState {
        DecoderState {
            buffer: self.buffer@,
            in_character: self.in_character,
            in_word: self.in_word,
            space_added: self.space_added,
            last_signal_ms: self.last_signal_ms,
            last_event_ms: self.last_event_ms,
            config: self.config,
        }
    }
}

impl Decoder {
    /// A decoder waiting for its first signal.
    pub fn new(config: DecoderConfig) -> (r: Decoder)
        ensures
            r@ == DecoderState::initial(config),
            r@.wf(),
    {
        Decoder {
            buffer: Vec::new(),
            in_character: false,
            in_word: false,
            space_added: false,
            last_signal_ms: 0,
            last_event_ms: 0,
            config,
        }
    }

    /// The symbols of the character being received.
    pub fn buffer(&self) -> (r: &[u8])
        ensures
            r@ == self@.buffer,
    {
        self.buffer.as_slice()
    }

    /// Whether a character is being received.
    pub fn in_character(&self) -> (r: bool)
        ensures
            r == self@.in_character,
    {
        self.in_character
    }

    /// Whether a word is open.
    pub fn in_word(&self) -> (r: bool)
        ensures
            r == self@.in_word,
    {
        self.in_word
    }

    fn finish_char(&mut self) -> (r: Option<DecodeEvent>)
        ensures
            (final(self)@, r) == old(self)@.finish_char(),
    {
        let r = if self.buffer.len() > 0 {
            let c = decode_morse(self.buffer.as_slice());
            if c == '?' {
                Some(DecodeEvent::Unknown)
            } else {
                Some(DecodeEvent::Letter(c))
            }
        } else {
            None
        };
        self.buffer = Vec::new();
        self.in_character = false;
        r
    }

    /// Feeds one byte of the serial stream, received at `now_ms`.
    pub fn on_byte(&mut self, c: u8, now_ms: u64) -> (r: Option<DecodeEvent>)
        requires
            old(self)@.wf(),
        ensures
            final(self)@.wf(),
            (final(self)@, r) == old(self)@.on_byte(c, now_ms),
    {
        match byte_kind(c) {
            ByteKind::Dot | ByteKind::Dash => {
                if !self.in_character {
                    self.buffer = Vec::new();
                    self.in_character = true;
                    self.space_added = false;
                }
                if self.buffer.len() < self.config.capacity {
                    self.buffer.push(c);
                }
                self.last_signal_ms = now_ms;
                self.last_event_ms = now_ms;
                self.in_word = true;
                None
            },
            ByteKind::CharEnd => {
                self.last_event_ms = now_ms;
                if self.in_character && self.buffer.len() > 0 {
                    self.finish_char()
                } else {
                    None
                }
            },
            ByteKind::WordEnd => {
                self.last_event_ms = now_ms;
                if self.in_word && !self.space_added {
                    self.in_word = false;
                    self.space_added = true;
                    Some(DecodeEvent::Space)
                } else {
                    None
                }
            },
            ByteKind::HardCharFlush => {
                if self.in_character && self.buffer.len() > 0 {
                    self.finish_char()
                } else {
                    None
                }
            },
            ByteKind::SoftWordFlush => {
                if self.in_word {
                    let r = if self.space_added {
                        None
                    } else {
                        Some(DecodeEvent::Space)
                    };
                    self.in_word = false;
                    self.space_added = true;
                    r
                } else {
                    None
                }
            },
            ByteKind::Other => None,
        }
    }

    /// Runs the timeout rules at `now_ms`; returns what goes to the display,
    /// in order.
    pub fn on_tick(&mut self, now_ms: u64) -> (r: Vec<DecodeEvent>)
        requires
            old(self)@.wf(),
        ensures
            final(self)@.wf(),
            (final(self)@, r@) == old(self)@.on_tick(now_ms),
    {
        let mut events: Vec<DecodeEvent> = Vec::new();
        if self.in_character && elapsed(self.last_signal_ms, now_ms) > self.config.char_timeout_ms {
            if let Some(e) = self.finish_char() {
                events.push(e);
            }
        }
        if self.in_word && !self.space_added && elapsed(self.last_event_ms, now_ms)
            > self.config.word_timeout_ms {
            self.in_word = false;
            self.space_added = true;
            events.push(DecodeEvent::Space);
        }
        proof {
            let (s1, e1) = old(self)@.char_timeout(now_ms);
            let (s2, e2) = s1.word_timeout(now_ms);
            assert(events@ =~= option_seq(e1) + option_seq(e2));
        }
        events
    }
}

/// Ending a character with a `C` byte and letting it time out agree: from a
/// decoder in the middle of a character whose timeout has run out, both give
/// the same event first and both leave the buffer empty and the character
/// closed; after either, neither a timeout nor a `C` or `H` byte decodes the
/// same symbols again.
pub proof fn lemma_timeout_matches_flush(s: DecoderState, now: u64, later: u64)
    requires
        s.wf(),
        s.in_character,
        s.buffer.len() > 0,
        elapsed_spec(s.last_signal_ms, now) > s.config.char_timeout_ms,
    ensures
        ({
            let (a, ea) = s.on_byte(CHAR_END, now);
            let (b, eb) = s.on_tick(now);
            &&& ea == Some(char_event(s.buffer))
            &&& eb.len() >= 1 && eb[0] == char_event(s.buffer)
            &&& a.buffer.len() == 0 && !a.in_character
            &&& b.buffer.len() == 0 && !b.in_character
            &&& a.char_timeout(later).1 is None
            &&& b.char_timeout(later).1 is None
            &&& b.on_byte(CHAR_END, later).1 is None
            &&& b.on_byte(HARD_CHAR_FLUSH, later).1 is None
            &&& a.on_byte(HARD_CHAR_FLUSH, later).1 is None
        }),
{
}

} // verus!

use morse_rsdk::decoder::{
    byte_kind, ByteKind, DecodeEvent, Decoder, DecoderConfig, CHAR_TIMEOUT_MS, MAX_MORSE_LENGTH,
    WORD_TIMEOUT_MS,
};

fn feed(d: &mut Decoder, input: &[u8], start_ms: u64) -> Vec<DecodeEvent> {
    let mut out = Vec::new();
    for (k, c) in input.iter().enumerate() {
        if let Some(e) = d.on_byte(*c, start_ms + k as u64 * 10) {
            out.push(e);
        }
    }
    out
}

#[test]
fn byte_kinds() {
    assert_eq!(byte_kind(b'.'), ByteKind::Dot);
    assert_eq!(byte_kind(b'-'), ByteKind::Dash);
    assert_eq!(byte_kind(b'C'), ByteKind::CharEnd);
    assert_eq!(byte_kind(b'c'), ByteKind::CharEnd);
    assert_eq!(byte_kind(b'W'), ByteKind::WordEnd);
    assert_eq!(byte_kind(b'w'), ByteKind::WordEnd);
    assert_eq!(byte_kind(b'H'), ByteKind::HardCharFlush);
    assert_eq!(byte_kind(b'O'), ByteKind::SoftWordFlush);
    assert_eq!(byte_kind(b'h'), ByteKind::Other);
    assert_eq!(byte_kind(b'\n'), ByteKind::Other);
}

#[test]
fn explicit_flush_and_timeout_agree() {
    let mut a = Decoder::new(DecoderConfig::standard());
    let ea = feed(&mut a, b".-C", 0);
    assert_eq!(ea, vec![DecodeEvent::Letter('A')]);
    assert!(a.buffer().is_empty());
    assert!(!a.in_character());

    let mut b = Decoder::new(DecoderConfig::standard());
    let eb = feed(&mut b, b".-", 0);
    assert!(eb.is_empty());
    assert!(b.on_tick(10 + CHAR_TIMEOUT_MS).is_empty());
    let timed = b.on_tick(11 + CHAR_TIMEOUT_MS);
    assert_eq!(timed, vec![DecodeEvent::Letter('A')]);
    assert!(b.buffer().is_empty());

    // neither path decodes the same symbols twice
    assert!(a.on_tick(5000).iter().all(|e| *e == DecodeEvent::Space));
    assert_eq!(b.on_byte(b'C', 1020), None);
    assert_eq!(b.on_byte(b'H', 1030), None);
}

#[test]
fn letter_then_idle_hard_flush() {
    let mut d = Decoder::new(DecoderConfig::standard());
    let events = feed(&mut d, b".-CH", 0);
    assert_eq!(events, vec![DecodeEvent::Letter('A')]);
    assert!(d.buffer().is_empty());
}

#[test]
fn long_unmatched_pattern_is_unknown() {
    let mut d = Decoder::new(DecoderConfig::standard());
    let events = feed(&mut d, b"-....-.-.-.--.C", 0);
    assert_eq!(events, vec![DecodeEvent::Unknown]);
    assert!(d.buffer().is_empty());
}

#[test]
fn hard_flush_decodes_pending_character() {
    let mut d = Decoder::new(DecoderConfig::standard());
    assert_eq!(feed(&mut d, b"...H", 0), vec![DecodeEvent::Letter('S')]);
    assert_eq!(feed(&mut d, b"..--H", 100), vec![DecodeEvent::Unknown]);
}

#[test]
fn word_end_adds_one_space() {
    let mut d = Decoder::new(DecoderConfig::standard());
    let events = feed(&mut d, b"-CWW", 0);
    assert_eq!(events, vec![DecodeEvent::Letter('T'), DecodeEvent::Space]);
    assert!(!d.in_word());
    // a word end with no word open does nothing
    let mut fresh = Decoder::new(DecoderConfig::standard());
    assert_eq!(fresh.on_byte(b'w', 0), None);
}

#[test]
fn soft_word_flush_closes_word_once() {
    let mut d = Decoder::new(DecoderConfig::standard());
    assert_eq!(feed(&mut d, b".cO", 0), vec![DecodeEvent::Letter('E'), DecodeEvent::Space]);
    assert_eq!(d.on_byte(b'O', 100), None);
    assert_eq!(feed(&mut d, b"..C", 200), vec![DecodeEvent::Letter('I')]);
    assert_eq!(feed(&mut d, b"WO", 300), vec![DecodeEvent::Space]);
}

#[test]
fn word_timeout_adds_space() {
    let mut d = Decoder::new(DecoderConfig::standard());
    assert_eq!(feed(&mut d, b".-..", 0), vec![]);
    // both timeouts in one tick: the letter first, then the space
    let events = d.on_tick(30 + WORD_TIMEOUT_MS + 1);
    assert_eq!(events, vec![DecodeEvent::Letter('L'), DecodeEvent::Space]);
    assert!(d.on_tick(100_000).is_empty());
}

#[test]
fn word_timeout_counts_from_last_event() {
    let mut d = Decoder::new(DecoderConfig::standard());
    feed(&mut d, b"--", 0);
    assert_eq!(d.on_tick(1500), vec![DecodeEvent::Letter('M')]);
    assert_eq!(d.on_byte(b'C', 1600), None);
    assert!(d.on_tick(10 + WORD_TIMEOUT_MS + 1).is_empty());
    assert_eq!(d.on_tick(1600 + WORD_TIMEOUT_MS + 1), vec![DecodeEvent::Space]);
}

#[test]
fn excess_symbols_are_dropped() {
    let mut d = Decoder::new(DecoderConfig::standard());
    let many = vec![b'.'; 40];
    feed(&mut d, &many, 0);
    assert_eq!(d.buffer().len(), MAX_MORSE_LENGTH);
    assert_eq!(MAX_MORSE_LENGTH, 5);
    assert_eq!(d.on_byte(b'C', 1000), Some(DecodeEvent::Unknown));
    let small = DecoderConfig { char_timeout_ms: 1000, word_timeout_ms: 2000, capacity: 2 };
    let mut s = Decoder::new(small);
    assert_eq!(feed(&mut s, b"...C", 0), vec![DecodeEvent::Letter('I')]);
}

#[test]
fn other_bytes_are_ignored() {
    let mut d = Decoder::new(DecoderConfig::standard());
    assert_eq!(feed(&mut d, b"Decoded: X\r\n-.-.\r\nC", 0), vec![DecodeEvent::Letter('C')]);
}

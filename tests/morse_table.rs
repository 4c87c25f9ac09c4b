use morse_rsdk::morse::{decode_morse, letter_pattern, DASH, DOT, LETTER_COUNT};
use morse_rsdk::timing::{classify, Thresholds};
use morse_rsdk::transmit::{pattern_symbols, pulse_for, symbol_byte};

fn bytes(s: &str) -> Vec<u8> {
    s.bytes().collect()
}

#[test]
fn decodes_every_letter() {
    let table = [
        ".-", "-...", "-.-.", "-..", ".", "..-.", "--.", "....", "..", ".---", "-.-", ".-..", "--",
        "-.", "---", ".--.", "--.-", ".-.", "...", "-", "..-", "...-", ".--", "-..-", "-.--", "--..",
    ];
    for (i, code) in table.iter().enumerate() {
        let expected = (b'A' + i as u8) as char;
        assert_eq!(decode_morse(&bytes(code)), expected);
        assert_eq!(letter_pattern(i), bytes(code));
    }
}

#[test]
fn unmatched_sequences_decode_to_unknown() {
    assert_eq!(decode_morse(&[]), '?');
    assert_eq!(decode_morse(&bytes("-....-.-.-.--.")), '?');
    assert_eq!(decode_morse(&bytes(".....")), '?');
    assert_eq!(decode_morse(&bytes(".x")), '?');
}

#[test]
fn wire_bytes_are_dot_and_dash() {
    assert_eq!(DOT, b'.');
    assert_eq!(DASH, b'-');
}

#[test]
fn every_letter_survives_pulse_round_trip() {
    let t = Thresholds::standard();
    for i in 0..LETTER_COUNT {
        let pattern = letter_pattern(i);
        let mut received = Vec::new();
        for s in pattern_symbols(&pattern) {
            let pulse = pulse_for(s).unwrap();
            let again = classify(pulse.duration_ms as u64, &t);
            received.push(symbol_byte(again).unwrap());
        }
        assert_eq!(decode_morse(&received), (b'A' + i as u8) as char);
    }
}

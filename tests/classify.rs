use morse_rsdk::timing::{classify, elapsed, ticks_to_ms, Symbol, Thresholds};

#[test]
fn classify_boundaries_standard() {
    let t = Thresholds::standard();
    assert_eq!(classify(249, &t), Symbol::Dot);
    assert_eq!(classify(250, &t), Symbol::Dot);
    assert_eq!(classify(251, &t), Symbol::Dash);
    assert_eq!(classify(750, &t), Symbol::Dash);
    assert_eq!(classify(751, &t), Symbol::CharGap);
    assert_eq!(classify(1750, &t), Symbol::CharGap);
    assert_eq!(classify(1751, &t), Symbol::WordGap);
    assert_eq!(classify(0, &t), Symbol::Dot);
    assert_eq!(classify(u64::MAX, &t), Symbol::WordGap);
}

#[test]
fn classify_is_deterministic() {
    let t = Thresholds::standard();
    for d in [0u64, 1, 250, 251, 600, 750, 751, 1000, 1750, 1751, 5000] {
        assert_eq!(classify(d, &t), classify(d, &t));
    }
}

#[test]
fn classify_noise_between_dash_and_char_gap() {
    let t = Thresholds::new(100, 300, 500, 900).unwrap();
    assert_eq!(classify(300, &t), Symbol::Dash);
    assert_eq!(classify(301, &t), Symbol::Noise);
    assert_eq!(classify(500, &t), Symbol::Noise);
    assert_eq!(classify(501, &t), Symbol::CharGap);
    assert_eq!(classify(901, &t), Symbol::WordGap);
}

#[test]
fn thresholds_must_be_ordered() {
    assert!(Thresholds::new(300, 100, 500, 900).is_none());
    assert!(Thresholds::new(100, 300, 200, 900).is_none());
    assert!(Thresholds::new(100, 300, 500, 400).is_none());
    assert!(Thresholds::new(100, 100, 100, 100).is_some());
}

#[test]
fn elapsed_wraps_around() {
    assert_eq!(elapsed(10, 25), 15);
    assert_eq!(elapsed(u64::MAX - 4, 5), 10);
    assert_eq!(elapsed(7, 7), 0);
}

#[test]
fn ticks_convert_to_milliseconds() {
    assert_eq!(ticks_to_ms(0), 0);
    assert_eq!(ticks_to_ms(999), 0);
    assert_eq!(ticks_to_ms(1000), 1);
    assert_eq!(ticks_to_ms(2_750_400), 2750);
}

use morse_rsdk::debounce::{ButtonEvent, Debouncer, Edge};

#[test]
fn burst_collapses_to_one_transition() {
    let mut d = Debouncer::new(50);
    let mut accepted = 0;
    let mut level = true;
    for t in 1000..1050u64 {
        if d.sample(level, t).is_some() {
            accepted += 1;
        }
        level = !level;
    }
    assert_eq!(accepted, 1);
}

#[test]
fn transitions_after_window_are_accepted() {
    let mut d = Debouncer::new(50);
    assert_eq!(d.sample(true, 100), Some(ButtonEvent { edge: Edge::Pressed, at_ms: 100 }));
    assert_eq!(d.sample(false, 150), None);
    assert_eq!(d.sample(false, 151), Some(ButtonEvent { edge: Edge::Released, at_ms: 151 }));
    assert!(!d.pressed);
    assert_eq!(d.last_transition_ms, 151);
}

#[test]
fn unchanged_level_is_not_a_transition() {
    let mut d = Debouncer::new(50);
    assert_eq!(d.sample(false, 1000), None);
    assert_eq!(d.sample(true, 1000), Some(ButtonEvent { edge: Edge::Pressed, at_ms: 1000 }));
    assert_eq!(d.sample(true, 5000), None);
}

#[test]
fn early_transition_is_dropped_not_queued() {
    let mut d = Debouncer::new(50);
    assert_eq!(d.sample(true, 0), None);
    assert_eq!(d.sample(true, 51), Some(ButtonEvent { edge: Edge::Pressed, at_ms: 51 }));
    assert_eq!(d.sample(false, 60), None);
    assert_eq!(d.sample(true, 200), None);
    assert!(d.pressed);
}

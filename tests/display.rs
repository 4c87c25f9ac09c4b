use morse_rsdk::display::{DisplayBuffer, LCD_CHAR_WIDTH, MAX_MESSAGE_LENGTH};

#[test]
fn scrolling_keeps_bound_and_latest() {
    let mut d = DisplayBuffer::new(LCD_CHAR_WIDTH);
    let mut all = String::new();
    for k in 0..(MAX_MESSAGE_LENGTH + 5) {
        let c = (b'A' + (k % 26) as u8) as char;
        d.append(c);
        all.push(c);
        let expected_window: String = all.chars().rev().take(LCD_CHAR_WIDTH).collect::<Vec<_>>().into_iter().rev().collect();
        assert_eq!(d.window(), expected_window.as_str());
    }
    assert_eq!(d.len(), MAX_MESSAGE_LENGTH - 1);
    assert_eq!(d.message(), &all[all.len() - (MAX_MESSAGE_LENGTH - 1)..]);
}

#[test]
fn short_message_window_shows_all() {
    let mut d = DisplayBuffer::new(LCD_CHAR_WIDTH);
    assert_eq!(d.window(), "");
    d.append('S');
    d.append('O');
    d.append('S');
    assert_eq!(d.window(), "SOS");
    assert_eq!(d.message(), "SOS");
    assert_eq!(d.len(), 3);
}

#[test]
fn display_letter_accepts_letters_and_space() {
    let mut d = DisplayBuffer::new(4);
    assert!(d.display_letter('H'));
    assert!(d.display_letter(' '));
    assert!(!d.display_letter('?'));
    assert!(!d.display_letter('a'));
    assert!(!d.display_letter('é'));
    assert!(d.display_letter('I'));
    assert!(d.display_letter('Z'));
    assert!(d.display_letter('A'));
    assert_eq!(d.message(), "H IZA");
    assert_eq!(d.window(), " IZA");
}

#[test]
fn clear_empties_message() {
    let mut d = DisplayBuffer::new(LCD_CHAR_WIDTH);
    d.append('E');
    d.clear();
    assert_eq!(d.len(), 0);
    assert_eq!(d.message(), "");
    d.append('T');
    assert_eq!(d.message(), "T");
}

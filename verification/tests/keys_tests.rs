use shenron::KeyCode;
use shenron::KeyEvent;
use shenron::KeyModifiers;
use shenron::parse_key_event;

const NONE: KeyModifiers = KeyModifiers { shift: false, control: false, alt: false };
const SHIFT: KeyModifiers = KeyModifiers { shift: true, control: false, alt: false };
const CONTROL: KeyModifiers = KeyModifiers { shift: false, control: true, alt: false };
const ALT: KeyModifiers = KeyModifiers { shift: false, control: false, alt: true };

fn key(code: KeyCode, modifiers: KeyModifiers) -> Option<KeyEvent> {
    Some(KeyEvent { code, modifiers })
}

#[test]
fn empty_input_names_no_key() {
    assert_eq!(parse_key_event(&[]), None);
}

#[test]
fn arrows() {
    assert_eq!(parse_key_event(&[27, 91, 65]), key(KeyCode::Up, NONE));
    assert_eq!(parse_key_event(&[27, 91, 66]), key(KeyCode::Down, NONE));
    assert_eq!(parse_key_event(&[27, 91, 67]), key(KeyCode::Right, NONE));
    assert_eq!(parse_key_event(&[27, 91, 68]), key(KeyCode::Left, NONE));
}

#[test]
fn arrows_with_modifiers() {
    assert_eq!(parse_key_event(&[27, 91, 49, 59, 50, 65]), key(KeyCode::Up, SHIFT));
    assert_eq!(parse_key_event(&[27, 91, 49, 59, 50, 68]), key(KeyCode::Left, SHIFT));
    assert_eq!(parse_key_event(&[27, 91, 49, 59, 53, 66]), key(KeyCode::Down, CONTROL));
    assert_eq!(parse_key_event(&[27, 91, 49, 59, 53, 67]), key(KeyCode::Right, CONTROL));
}

#[test]
fn home_and_end_on_both_prefixes() {
    assert_eq!(parse_key_event(&[27, 91, 72]), key(KeyCode::Home, NONE));
    assert_eq!(parse_key_event(&[27, 79, 72]), key(KeyCode::Home, NONE));
    assert_eq!(parse_key_event(&[27, 91, 70]), key(KeyCode::End, NONE));
    assert_eq!(parse_key_event(&[27, 79, 70]), key(KeyCode::End, NONE));
}

#[test]
fn editing_keys() {
    assert_eq!(parse_key_event(&[27, 91, 50, 126]), key(KeyCode::Insert, NONE));
    assert_eq!(parse_key_event(&[27, 91, 51, 126]), key(KeyCode::Delete, NONE));
    assert_eq!(parse_key_event(&[27, 91, 53, 126]), key(KeyCode::PageUp, NONE));
    assert_eq!(parse_key_event(&[27, 91, 54, 126]), key(KeyCode::PageDown, NONE));
}

#[test]
fn function_keys() {
    assert_eq!(parse_key_event(&[27, 79, 80]), key(KeyCode::F(1), NONE));
    assert_eq!(parse_key_event(&[27, 79, 81]), key(KeyCode::F(2), NONE));
    assert_eq!(parse_key_event(&[27, 79, 82]), key(KeyCode::F(3), NONE));
    assert_eq!(parse_key_event(&[27, 79, 83]), key(KeyCode::F(4), NONE));
    assert_eq!(parse_key_event(&[27, 91, 49, 53, 126]), key(KeyCode::F(5), NONE));
    assert_eq!(parse_key_event(&[27, 91, 49, 55, 126]), key(KeyCode::F(6), NONE));
    assert_eq!(parse_key_event(&[27, 91, 49, 56, 126]), key(KeyCode::F(7), NONE));
    assert_eq!(parse_key_event(&[27, 91, 49, 57, 126]), key(KeyCode::F(8), NONE));
    assert_eq!(parse_key_event(&[27, 91, 50, 48, 126]), key(KeyCode::F(9), NONE));
    assert_eq!(parse_key_event(&[27, 91, 50, 49, 126]), key(KeyCode::F(10), NONE));
    assert_eq!(parse_key_event(&[27, 91, 50, 51, 126]), key(KeyCode::F(11), NONE));
    assert_eq!(parse_key_event(&[27, 91, 50, 52, 126]), key(KeyCode::F(12), NONE));
}

#[test]
fn control_bytes() {
    assert_eq!(parse_key_event(&[27]), key(KeyCode::Esc, NONE));
    assert_eq!(parse_key_event(&[13]), key(KeyCode::Enter, NONE));
    assert_eq!(parse_key_event(&[9]), key(KeyCode::Tab, NONE));
    assert_eq!(parse_key_event(&[27, 91, 90]), key(KeyCode::BackTab, SHIFT));
    assert_eq!(parse_key_event(&[127]), key(KeyCode::Backspace, NONE));
    assert_eq!(parse_key_event(&[8]), key(KeyCode::Backspace, NONE));
    assert_eq!(parse_key_event(&[32]), key(KeyCode::Char(' '), NONE));
}

#[test]
fn control_letter_chords() {
    assert_eq!(parse_key_event(&[1]), key(KeyCode::Char('a'), CONTROL));
    assert_eq!(parse_key_event(&[3]), key(KeyCode::Char('c'), CONTROL));
    assert_eq!(parse_key_event(&[26]), key(KeyCode::Char('z'), CONTROL));
    // Enter, tab and backspace fall in the control range but name their
    // own keys.
    assert_ne!(parse_key_event(&[13]), key(KeyCode::Char('m'), CONTROL));
    assert_ne!(parse_key_event(&[9]), key(KeyCode::Char('i'), CONTROL));
    assert_ne!(parse_key_event(&[8]), key(KeyCode::Char('h'), CONTROL));
}

#[test]
fn plain_and_shifted_characters() {
    assert_eq!(parse_key_event(b"a"), key(KeyCode::Char('a'), NONE));
    assert_eq!(parse_key_event(b"A"), key(KeyCode::Char('a'), SHIFT));
    assert_eq!(parse_key_event(b"z"), key(KeyCode::Char('z'), NONE));
    assert_eq!(parse_key_event(b"Z"), key(KeyCode::Char('z'), SHIFT));
    assert_eq!(parse_key_event(b"5"), key(KeyCode::Char('5'), NONE));
    assert_eq!(parse_key_event(b"~"), key(KeyCode::Char('~'), NONE));
    assert_eq!(parse_key_event(b"!"), key(KeyCode::Char('!'), NONE));
}

#[test]
fn alt_letter_chords() {
    assert_eq!(parse_key_event(&[27, b'x']), key(KeyCode::Char('x'), ALT));
    assert_eq!(parse_key_event(&[27, b'Z']), key(KeyCode::Char('z'), ALT));
}

#[test]
fn utf8_fallback() {
    let e_acute = "é".as_bytes();
    assert_eq!(parse_key_event(e_acute), key(KeyCode::Char('é'), NONE));
    // A non-ASCII upper-case letter is left as it is: only ASCII letters
    // are lower-cased with shift.
    let e_acute_upper = "É".as_bytes();
    assert_eq!(parse_key_event(e_acute_upper), key(KeyCode::Char('É'), NONE));
    // ESC followed by a non-letter is read as a UTF-8 frame whose first
    // character is the escape itself.
    assert_eq!(parse_key_event(&[27, 91]), key(KeyCode::Char('\u{1b}'), NONE));
}

#[test]
fn unknown_escape_sequences_fall_back_to_utf8() {
    // ESC O T is not a known function-key sequence; the frame is read as
    // UTF-8 and its first character is the escape itself.
    assert_eq!(parse_key_event(&[27, 79, 84]), key(KeyCode::Char('\u{1b}'), NONE));
    assert_eq!(
        parse_key_event(&[27, 91, 49, 59, 50, 70]),
        key(KeyCode::Char('\u{1b}'), NONE)
    );
}

#[test]
fn invalid_utf8_names_no_key() {
    assert_eq!(parse_key_event(&[0xff]), None);
    assert_eq!(parse_key_event(&[0xc3]), None);
}

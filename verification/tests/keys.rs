use tano::config::keys::{KeyBind, KeyCode, KeyModifiers};

fn kb(code: KeyCode, modifiers: KeyModifiers) -> KeyBind {
    KeyBind { code, modifiers }
}

#[test]
fn keycode_named_keys_in_any_case() {
    assert_eq!(KeyCode::from_str("enter"), Ok(KeyCode::Enter));
    assert_eq!(KeyCode::from_str("ENTER"), Ok(KeyCode::Enter));
    assert_eq!(KeyCode::from_str("PageDown"), Ok(KeyCode::PageDown));
    assert_eq!(KeyCode::from_str("Esc"), Ok(KeyCode::Esc));
    assert_eq!(KeyCode::from_str("space"), Ok(KeyCode::Char(' ')));
    assert_eq!(KeyCode::from_str("backtab"), Ok(KeyCode::BackTab));
}

#[test]
fn keycode_unicode_lowercase_is_used() {
    // U+212A KELVIN SIGN lower-cases to an ASCII `k`.
    assert_eq!(KeyCode::from_str("bac\u{212A}space"), Ok(KeyCode::Backspace));
    assert_eq!(KeyCode::from_str("\u{212A}"), Ok(KeyCode::Char('\u{212A}')));
}

#[test]
fn keycode_function_keys() {
    assert_eq!(KeyCode::from_str("f5"), Ok(KeyCode::F(5)));
    assert_eq!(KeyCode::from_str("F12"), Ok(KeyCode::F(12)));
    assert_eq!(KeyCode::from_str("f+7"), Ok(KeyCode::F(7)));
    assert_eq!(KeyCode::from_str("f0"), Ok(KeyCode::F(0)));
    assert_eq!(KeyCode::from_str("f255"), Ok(KeyCode::F(255)));
    assert_eq!(KeyCode::from_str("f256"), Err("Unknown key: f256".to_string()));
    assert_eq!(KeyCode::from_str("f-1"), Err("Unknown key: f-1".to_string()));
}

#[test]
fn keycode_single_characters_kept_as_written() {
    assert_eq!(KeyCode::from_str("f"), Ok(KeyCode::Char('f')));
    assert_eq!(KeyCode::from_str("F"), Ok(KeyCode::Char('F')));
    assert_eq!(KeyCode::from_str("é"), Ok(KeyCode::Char('é')));
    assert_eq!(KeyCode::from_str("-"), Ok(KeyCode::Char('-')));
    assert_eq!(KeyCode::from_str("\u{130}"), Ok(KeyCode::Char('\u{130}')));
    assert_eq!(KeyCode::from_str("Σ"), Ok(KeyCode::Char('Σ')));
}

#[test]
fn keycode_unknown_names() {
    assert_eq!(KeyCode::from_str("xy"), Err("Unknown key: xy".to_string()));
    assert_eq!(KeyCode::from_str(""), Err("Unknown key: ".to_string()));
    assert_eq!(KeyCode::from_str("Spacebar"), Err("Unknown key: Spacebar".to_string()));
}

#[test]
fn keycode_from_lowercased_takes_the_given_lower_case() {
    assert_eq!(KeyCode::from_lowercased("XYZ", "tab"), Ok(KeyCode::Tab));
    assert_eq!(KeyCode::from_lowercased("q", "q"), Ok(KeyCode::Char('q')));
}

#[test]
fn keycode_parse_through_from_str_trait() {
    assert_eq!("home".parse::<KeyCode>(), Ok(KeyCode::Home));
}

#[test]
fn keybind_plain_keys() {
    assert_eq!(KeyBind::from_str("q"), Ok(kb(KeyCode::Char('q'), KeyModifiers::empty())));
    assert_eq!(KeyBind::from_str("enter"), Ok(kb(KeyCode::Enter, KeyModifiers::empty())));
}

#[test]
fn keybind_uppercase_means_shift() {
    assert_eq!(KeyBind::from_str("Q"), Ok(kb(KeyCode::Char('q'), KeyModifiers::SHIFT())));
    // A non-ASCII upper-case letter gets Shift but keeps its character.
    assert_eq!(KeyBind::from_str("É"), Ok(kb(KeyCode::Char('É'), KeyModifiers::SHIFT())));
}

#[test]
fn keybind_backtab_is_shift_tab() {
    assert_eq!(KeyBind::from_str("backtab"), Ok(kb(KeyCode::Tab, KeyModifiers::SHIFT())));
    assert_eq!(KeyBind::from_str("<C-BackTab>"), Ok(kb(KeyCode::Tab, KeyModifiers::CONTROL().union(KeyModifiers::SHIFT()))));
}

#[test]
fn keybind_bracketed_modifiers() {
    let cs = KeyModifiers::CONTROL().union(KeyModifiers::SHIFT());
    assert_eq!(KeyBind::from_str("<C-c>"), Ok(kb(KeyCode::Char('c'), KeyModifiers::CONTROL())));
    assert_eq!(KeyBind::from_str("<C-S-a>"), Ok(kb(KeyCode::Char('a'), cs)));
    assert_eq!(KeyBind::from_str("<C-A>"), Ok(kb(KeyCode::Char('a'), cs)));
    assert_eq!(KeyBind::from_str("<A-D-H-M-x>").unwrap().modifiers.bits(), 2 | 8 | 16 | 32);
    assert_eq!(KeyBind::from_str("<C-f1>"), Ok(kb(KeyCode::F(1), KeyModifiers::CONTROL())));
    assert_eq!(KeyBind::from_str("<a>"), Ok(kb(KeyCode::Char('a'), KeyModifiers::empty())));
}

#[test]
fn keybind_modifier_order_does_not_matter() {
    assert_eq!(KeyBind::from_str("<C-S-a>"), KeyBind::from_str("<S-C-a>"));
    assert_eq!(KeyBind::from_str("<A-M-C-x>"), KeyBind::from_str("<C-A-M-x>"));
    assert_eq!(KeyBind::from_str("<H-D-Enter>"), KeyBind::from_str("<D-H-Enter>"));
}

#[test]
fn keybind_repeated_modifier_counts_once() {
    assert_eq!(KeyBind::from_str("<C-C-x>"), KeyBind::from_str("<C-x>"));
    assert_eq!(KeyBind::from_str("<S-S-Tab>"), KeyBind::from_str("<S-Tab>"));
    assert_eq!(KeyBind::from_str("<M-M-q>"), Ok(kb(KeyCode::Char('q'), KeyModifiers::META())));
}

#[test]
fn keybind_single_non_ascii_character() {
    assert_eq!(KeyBind::from_str("é"), Ok(kb(KeyCode::Char('é'), KeyModifiers::empty())));
    assert_eq!(KeyBind::from_str("<C-é>"), Ok(kb(KeyCode::Char('é'), KeyModifiers::CONTROL())));
}

#[test]
fn keybind_space_spellings() {
    assert_eq!(KeyBind::from_str(" "), Ok(kb(KeyCode::Char(' '), KeyModifiers::empty())));
    assert_eq!(KeyBind::from_str("space"), Ok(kb(KeyCode::Char(' '), KeyModifiers::empty())));
    assert_eq!(KeyBind::from_str("SPACE"), Ok(kb(KeyCode::Char(' '), KeyModifiers::empty())));
    assert_eq!(KeyBind::from_str("<C-space>"), Ok(kb(KeyCode::Char(' '), KeyModifiers::CONTROL())));
    assert_eq!(KeyBind::from_str("< >"), Ok(kb(KeyCode::Char(' '), KeyModifiers::empty())));
}

#[test]
fn keybind_ignores_surrounding_white_space() {
    assert_eq!(KeyBind::from_str("  <C-c>\t"), KeyBind::from_str("<C-c>"));
    assert_eq!(KeyBind::from_str("\u{2003}q\u{3000}"), Ok(kb(KeyCode::Char('q'), KeyModifiers::empty())));
}

#[test]
fn keybind_errors() {
    assert_eq!(KeyBind::from_str(""), Err("Keybinding cannot be empty".to_string()));
    assert_eq!(KeyBind::from_str("   "), Err("Keybinding cannot be empty".to_string()));
    assert_eq!(KeyBind::from_str("<X-a>"), Err("Unknown modifier: X".to_string()));
    assert_eq!(KeyBind::from_str("<C-X-Y-a>"), Err("Unknown modifier: X".to_string()));
    assert_eq!(KeyBind::from_str("<C--a>"), Err("Unknown modifier: ".to_string()));
    assert_eq!(KeyBind::from_str("<>"), Err("Unknown key: ".to_string()));
    assert_eq!(KeyBind::from_str("<C-nope>"), Err("Unknown key: nope".to_string()));
    assert_eq!(KeyBind::from_str("qq"), Err("Unknown key: qq".to_string()));
}

#[test]
fn keybind_split_input_parts() {
    let (m, k) = KeyBind::split_input(" <C-S-Enter> ").unwrap();
    assert_eq!(m.bits(), 4 | 1);
    assert_eq!(k, "Enter");
    let (m, k) = KeyBind::split_input("x").unwrap();
    assert!(m.is_empty());
    assert_eq!(k, "x");
}

#[test]
fn keybind_normalize_given_case() {
    assert_eq!(KeyBind::normalize(KeyCode::Char('X'), KeyModifiers::empty(), true), kb(KeyCode::Char('x'), KeyModifiers::SHIFT()));
    assert_eq!(KeyBind::normalize(KeyCode::Char('X'), KeyModifiers::empty(), false), kb(KeyCode::Char('X'), KeyModifiers::empty()));
    assert_eq!(KeyBind::normalize(KeyCode::Up, KeyModifiers::ALT(), true), kb(KeyCode::Up, KeyModifiers::ALT()));
}

#[test]
fn keybind_parse_through_from_str_trait() {
    assert_eq!("<M-q>".parse::<KeyBind>(), Ok(kb(KeyCode::Char('q'), KeyModifiers::META())));
}

#[test]
fn modifiers_insert_and_contains() {
    let mut m = KeyModifiers::empty();
    assert!(m.is_empty());
    m.insert(KeyModifiers::CONTROL());
    assert!(m.contains(KeyModifiers::CONTROL()));
    assert!(!m.contains(KeyModifiers::SHIFT()));
    let before = m;
    m.insert(KeyModifiers::CONTROL());
    assert_eq!(m, before);
    m.insert(KeyModifiers::HYPER());
    assert_eq!(m.bits(), 4 | 16);
    assert!(m.contains(KeyModifiers::CONTROL().union(KeyModifiers::HYPER())));
    assert_eq!(KeyModifiers::SUPER().bits(), 8);
    assert_eq!(KeyModifiers::from_bits_retain(33).bits(), 33);
}

#[test]
fn modifiers_insert_order_does_not_matter() {
    let mut a = KeyModifiers::empty();
    a.insert(KeyModifiers::ALT());
    a.insert(KeyModifiers::META());
    let mut b = KeyModifiers::empty();
    b.insert(KeyModifiers::META());
    b.insert(KeyModifiers::ALT());
    assert_eq!(a, b);
}

#[test]
fn modifiers_all_holds_every_modifier() {
    let all = KeyModifiers::all();
    assert_eq!(all.bits(), 63);
    assert!(all.contains(KeyModifiers::SHIFT()));
    assert!(all.contains(KeyModifiers::META()));
    assert!(all.contains(KeyModifiers::CONTROL().union(KeyModifiers::HYPER())));
}

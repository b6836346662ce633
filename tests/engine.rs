use bengali_phonetic::keyboard::{process_input, BengaliKeyboard};
use bengali_phonetic::keymap::KeyMap;
use bengali_phonetic::reconcile::{boundary_char, input_char, ConversionState, Key};

fn chars(s: &str) -> Vec<char> {
    s.chars().collect()
}

fn text(v: &[char]) -> String {
    v.iter().collect()
}

fn convert(km: &KeyMap, s: &str) -> String {
    text(&km.convert(&chars(s)))
}

fn type_keys(state: &mut ConversionState, km: &KeyMap, keys: &[Key]) {
    for k in keys {
        state.handle(km, *k);
    }
}

#[test]
fn ami_becomes_ami_in_bengali() {
    let km = KeyMap::new();
    assert_eq!(convert(&km, "ami"), "আমি");
    let kb = BengaliKeyboard::new();
    assert_eq!(convert(kb.keymap(), "ami"), "আমি");
}

#[test]
fn bangla_becomes_bangla_in_bengali() {
    let km = KeyMap::new();
    assert_eq!(convert(&km, "bangla"), "বাংলা");
    let kb = BengaliKeyboard::new();
    assert_eq!(convert(kb.keymap(), "bangla"), "বাংলা");
}

#[test]
fn ka_then_two_backspaces_leaves_nothing() {
    let km = KeyMap::new();
    let mut state = ConversionState::new();
    let mut screen: Vec<char> = Vec::new();
    for key in [Key::Char('k'), Key::Char('a'), Key::Backspace, Key::Backspace] {
        let edit = state.handle(&km, key);
        edit.apply(&mut screen, key);
    }
    assert!(state.raw().is_empty());
    assert!(state.emitted().is_empty());
    assert!(screen.is_empty());
}

#[test]
fn ksh_is_one_cluster() {
    let km = KeyMap::new();
    assert_eq!(convert(&km, "kSh"), "ক্ষ");
}

#[test]
fn dot_t_is_khanda_ta() {
    let km = KeyMap::new();
    assert_eq!(convert(&km, ".t"), "ৎ");
    assert_eq!(convert(&km, "."), "।");
}

#[test]
fn longest_pattern_wins() {
    let km = KeyMap::new();
    assert_eq!(convert(&km, "k"), "ক");
    assert_eq!(convert(&km, "kh"), "খ");
    assert_eq!(convert(&km, "kkh"), "ক্ষ");
    assert_eq!(km.longest_match(&chars("kShx"), 0), 3);
    assert_eq!(km.longest_match(&chars("xkh"), 0), 0);
    assert_eq!(km.longest_match(&chars("xkh"), 1), 2);
    let kb = BengaliKeyboard::new();
    assert_eq!(convert(kb.keymap(), "kShm"), "ক্ষ্ম");
    assert_eq!(convert(kb.keymap(), "NgkSh"), "ঙ্ক্ষ");
    assert_eq!(kb.keymap().longest_match(&chars("NgkSha"), 0), 5);
}

#[test]
fn vowel_after_consonant_takes_its_sign() {
    let km = KeyMap::new();
    assert_eq!(convert(&km, "ka"), "কা");
    assert_eq!(convert(&km, "a"), "আ");
    assert_eq!(convert(&km, "ki"), "কি");
    assert_eq!(convert(&km, "kou"), "কৌ");
    // a vowel after a vowel or a sign stays independent
    assert_eq!(convert(&km, "ai"), "আই");
    assert_eq!(convert(&km, "ngi"), "ংই");
    // the inherent vowel has no sign
    assert_eq!(convert(&km, "ko"), "কঅ");
}

#[test]
fn conversion_is_repeatable() {
    let km = KeyMap::new();
    let buf = chars("amar sonar bangla");
    let first = km.convert(&buf);
    let second = km.convert(&buf);
    assert_eq!(first, second);
}

#[test]
fn emitted_follows_the_buffer() {
    let km = KeyMap::new();
    let mut state = ConversionState::new();
    let keys = [
        Key::Char('b'),
        Key::Char('a'),
        Key::Char('n'),
        Key::Backspace,
        Key::Char('n'),
        Key::Char('g'),
        Key::Char('l'),
        Key::Char('a'),
        Key::Backspace,
        Key::Backspace,
        Key::Char('x'),
    ];
    for key in keys {
        state.handle(&km, key);
        assert_eq!(*state.emitted(), km.convert(state.raw()));
    }
    assert_eq!(text(state.raw()), "bangx");
    assert_eq!(text(state.emitted()), "বাংx");
}

#[test]
fn unmapped_symbols_pass_through() {
    let km = KeyMap::new();
    assert_eq!(convert(&km, "@"), "@");
    assert_eq!(convert(&km, "xq@#"), "xq@#");
    assert_eq!(convert(&km, "x1"), "x১");
    assert_eq!(convert(&km, ""), "");
}

#[test]
fn exact_lookup() {
    let km = KeyMap::new();
    assert_eq!(km.lookup_exact("kh"), Some("খ".to_string()));
    assert_eq!(km.lookup_exact("k"), Some("ক".to_string()));
    assert_eq!(km.lookup_exact("kSh"), Some("ক্ষ".to_string()));
    assert_eq!(km.lookup_exact("kShm"), None);
    assert_eq!(km.lookup_exact(""), None);
    let kb = BengaliKeyboard::new();
    assert_eq!(kb.find_exact_match("kShm"), Some("ক্ষ্ম".to_string()));
    assert_eq!(kb.find_exact_match("_"), Some("্".to_string()));
    assert_eq!(kb.find_exact_match("q"), None);
}

#[test]
fn typing_a_pattern_replaces_what_was_shown() {
    let km = KeyMap::new();
    let mut state = ConversionState::new();
    let e = state.handle(&km, Key::Char('k'));
    assert_eq!((e.retract, text(&e.emit), e.pass_key), (0, "ক".to_string(), false));
    let e = state.handle(&km, Key::Char('a'));
    assert_eq!((e.retract, text(&e.emit), e.pass_key), (1, "কা".to_string(), false));
}

#[test]
fn unconverted_characters_stand_as_typed() {
    let km = KeyMap::new();
    let mut state = ConversionState::new();
    let e = state.handle(&km, Key::Char('x'));
    assert_eq!((e.retract, e.emit.len(), e.pass_key), (0, 0, true));
    assert_eq!(text(state.emitted()), "x");
    let e = state.handle(&km, Key::Char('k'));
    assert_eq!((e.retract, text(&e.emit), e.pass_key), (1, "xক".to_string(), false));
}

#[test]
fn boundary_commits_and_resets() {
    let km = KeyMap::new();
    let mut state = ConversionState::new();
    type_keys(&mut state, &km, &[Key::Char('a'), Key::Char('m'), Key::Char('i')]);
    let e = state.handle(&km, Key::Char(' '));
    assert_eq!((e.retract, text(&e.emit), e.pass_key), (3, "আমি".to_string(), true));
    assert!(state.raw().is_empty());
    assert!(state.emitted().is_empty());
    // a word that converts nothing is let through as it stands
    type_keys(&mut state, &km, &[Key::Char('x')]);
    let e = state.handle(&km, Key::Char(','));
    assert_eq!((e.retract, e.emit.len(), e.pass_key), (0, 0, true));
    assert!(state.raw().is_empty());
}

#[test]
fn unrelated_action_discards_the_word() {
    let km = KeyMap::new();
    let mut state = ConversionState::new();
    type_keys(&mut state, &km, &[Key::Char('k'), Key::Char('a')]);
    let e = state.handle(&km, Key::Other);
    assert_eq!((e.retract, e.emit.len(), e.pass_key), (0, 0, true));
    assert!(state.raw().is_empty());
    assert!(state.emitted().is_empty());
    type_keys(&mut state, &km, &[Key::Char('k'), Key::Char('\u{7}')]);
    assert!(state.raw().is_empty());
}

#[test]
fn backspace_on_empty_word_retracts_one() {
    let km = KeyMap::new();
    let mut state = ConversionState::new();
    let e = state.handle(&km, Key::Backspace);
    assert_eq!((e.retract, e.emit.len(), e.pass_key), (1, 0, false));
    let mut screen = chars("আমি");
    e.apply(&mut screen, Key::Backspace);
    assert_eq!(text(&screen), "আম");
}

#[test]
fn reset_forgets_the_word() {
    let km = KeyMap::new();
    let mut state = ConversionState::new();
    type_keys(&mut state, &km, &[Key::Char('k')]);
    state.reset();
    assert!(state.raw().is_empty());
    assert!(state.emitted().is_empty());
}

#[test]
fn character_classes() {
    assert!(input_char('a') && input_char('Z') && input_char('7'));
    assert!(input_char('.') && input_char(':') && input_char('$') && input_char('_'));
    assert!(!input_char(' ') && !input_char(',') && !input_char('আ'));
    assert!(boundary_char(' ') && boundary_char('\n') && boundary_char('\t'));
    assert!(boundary_char(',') && boundary_char('?'));
    assert!(!boundary_char('a') && !boundary_char('.') && !boundary_char('\u{7}'));
}

#[test]
fn terminal_line_follows_typing() {
    let kb = BengaliKeyboard::new();
    let mut state = ConversionState::new();
    let mut line: Vec<char> = Vec::new();
    for c in "ami bangla".chars() {
        process_input(&mut state, &mut line, Key::Char(c), &kb);
    }
    assert_eq!(text(&line), "আমি বাংলা");
    process_input(&mut state, &mut line, Key::Backspace, &kb);
    assert_eq!(text(&line), "আমি বাংল");
    process_input(&mut state, &mut line, Key::Char('x'), &kb);
    process_input(&mut state, &mut line, Key::Char('k'), &kb);
    assert_eq!(text(&line), "আমি বাংলxক");
    process_input(&mut state, &mut line, Key::Char('\n'), &kb);
    assert_eq!(text(&line), "আমি বাংলxক\n");
}

#[test]
fn apply_retracts_then_emits() {
    let km = KeyMap::new();
    let mut state = ConversionState::new();
    let mut screen = chars("> ");
    for c in "kSh".chars() {
        let edit = state.handle(&km, Key::Char(c));
        edit.apply(&mut screen, Key::Char(c));
    }
    assert_eq!(text(&screen), "> ক্ষ");
}

#[test]
fn lookup_gives_the_role() {
    let km = KeyMap::new();
    let g = km.lookup("k").unwrap();
    assert_eq!((g.bengali.as_str(), g.is_consonant, g.is_vowel), ("ক", true, false));
    let g = km.lookup("oi").unwrap();
    assert_eq!((g.bengali.as_str(), g.is_consonant, g.is_vowel), ("ঐ", false, true));
    let g = km.lookup("ng").unwrap();
    assert_eq!((g.bengali.as_str(), g.is_consonant, g.is_vowel), ("ং", false, false));
    assert!(km.lookup("q").is_none());
}

use orbtk::event::key::Key;

const LOWER: &str = "abcdefghijklmnopqrstuvwxyz";
const UPPER: &str = "ABCDEFGHIJKLMNOPQRSTUVWXYZ";

fn letter_keys(upper: bool) -> Vec<Key> {
    vec![
        Key::A(upper),
        Key::B(upper),
        Key::C(upper),
        Key::D(upper),
        Key::E(upper),
        Key::F(upper),
        Key::G(upper),
        Key::H(upper),
        Key::I(upper),
        Key::J(upper),
        Key::K(upper),
        Key::L(upper),
        Key::M(upper),
        Key::N(upper),
        Key::O(upper),
        Key::P(upper),
        Key::Q(upper),
        Key::R(upper),
        Key::S(upper),
        Key::T(upper),
        Key::U(upper),
        Key::V(upper),
        Key::W(upper),
        Key::X(upper),
        Key::Y(upper),
        Key::Z(upper),
    ]
}

#[test]
fn letter_a_round_trips() {
    let key = Key::from('a');
    assert_eq!(key, Key::A(false));
    assert_eq!(key.to_string(), "a");
    assert_eq!(<&'static str>::from(key), "a");
    assert_eq!(Option::<u8>::from(key), Some(b'a'));
}

#[test]
fn digit_five_round_trips() {
    let key = Key::from('5');
    assert_eq!(key, Key::Five);
    assert_eq!(key.to_string(), "5");
    assert_eq!(Option::<u8>::from(key), Some(b'5'));
}

#[test]
fn unmapped_character_gives_unknown() {
    let key = Key::from('@');
    assert_eq!(key, Key::Unknown);
    assert_eq!(key.to_string(), "");
    assert_eq!(<&'static str>::from(key), "");
    assert_eq!(Option::<u8>::from(key), None);
}

#[test]
fn every_lower_case_letter_round_trips() {
    let keys = letter_keys(false);
    for (index, c) in LOWER.chars().enumerate() {
        assert_eq!(Key::from(c), keys[index]);
        assert_eq!(keys[index].to_string(), c.to_string());
        assert_eq!(Option::<u8>::from(keys[index]), Some(c as u8));
    }
}

#[test]
fn every_upper_case_letter_round_trips() {
    let keys = letter_keys(true);
    for (index, c) in UPPER.chars().enumerate() {
        assert_eq!(Key::from(c), keys[index]);
        assert_eq!(keys[index].to_string(), c.to_string());
        assert_eq!(Option::<u8>::from(keys[index]), Some(c as u8));
    }
}

#[test]
fn every_digit_round_trips() {
    let keys = vec![
        Key::Zero,
        Key::One,
        Key::Two,
        Key::Three,
        Key::Four,
        Key::Five,
        Key::Six,
        Key::Seven,
        Key::Eight,
        Key::Nine,
    ];
    for (index, c) in "0123456789".chars().enumerate() {
        assert_eq!(Key::from(c), keys[index]);
        assert_eq!(<&'static str>::from(keys[index]), c.to_string());
        assert_eq!(Option::<u8>::from(keys[index]), Some(b'0' + index as u8));
    }
}

#[test]
fn punctuation_round_trips() {
    let pairs = vec![
        (' ', Key::Space),
        ('.', Key::Dot),
        ('?', Key::QuestionMark),
        ('!', Key::ExclamationMark),
    ];
    for (c, key) in pairs {
        assert_eq!(Key::from(c), key);
        assert_eq!(key.to_string(), c.to_string());
        assert_eq!(Option::<u8>::from(key), Some(c as u8));
    }
}

#[test]
fn keys_without_a_character_type_nothing() {
    let keys = vec![
        Key::Unknown,
        Key::Backspace,
        Key::Up,
        Key::Down,
        Key::Left,
        Key::Right,
        Key::Enter,
    ];
    for key in keys {
        assert_eq!(key.to_string(), "");
        assert_eq!(<&'static str>::from(key), "");
        assert_eq!(Option::<u8>::from(key), None);
    }
}

#[test]
fn characters_outside_the_table_give_unknown() {
    for c in ['@', '#', ',', ';', '\n', '\t', 'ä', 'é', '€', '-', '_', '/'] {
        assert_eq!(Key::from(c), Key::Unknown);
    }
}

#[test]
fn upper_and_lower_case_are_told_apart() {
    assert_eq!(Key::from('q'), Key::Q(false));
    assert_eq!(Key::from('Q'), Key::Q(true));
    assert_ne!(Key::from('r'), Key::from('R'));
    assert_eq!(Key::S(true).to_string(), "S");
    assert_eq!(Key::R(false).to_string(), "r");
}

//! Keys, the events that report them, and the handler that reacts to a key
//! going down.

use vstd::prelude::*;
use vstd::std_specs::convert::FromSpecImpl;

use crate::event::{Event, EventBox, EventHandler, EventKind, EventPayload};
use crate::widget::template::{TemplateBase, TemplateParts};

verus! {

/// A key of the keyboard. A letter key says whether it was typed in upper case.
#[derive(Copy, Clone, Debug, Hash, PartialEq, Eq, Structural)]
pub enum Key {
    Unknown,
    Backspace,
    Up,
    Down,
    Left,
    Right,
    Space,
    Enter,
    A(bool),
    B(bool),
    C(bool),
    D(bool),
    E(bool),
    F(bool),
    G(bool),
    H(bool),
    I(bool),
    J(bool),
    K(bool),
    L(bool),
    M(bool),
    N(bool),
    O(bool),
    P(bool),
    Q(bool),
    S(bool),
    R(bool),
    T(bool),
    U(bool),
    V(bool),
    W(bool),
    X(bool),
    Y(bool),
    Z(bool),
    Zero,
    One,
    Two,
    Three,
    Four,
    Five,
    Six,
    Seven,
    Eight,
    Nine,
    Dot,
    QuestionMark,
    ExclamationMark,
}

impl Key {
    /// The character that the key types, if it types one.
    pub open spec fn symbol(self) -> Option<char> {
        match self {
            Key::A(false) => Some('a'),
            Key::B(false) => Some('b'),
            Key::C(false) => Some('c'),
            Key::D(false) => Some('d'),
            Key::E(false) => Some('e'),
            Key::F(false) => Some('f'),
            Key::G(false) => Some('g'),
            Key::H(false) => Some('h'),
            Key::I(false) => Some('i'),
            Key::J(false) => Some('j'),
            Key::K(false) => Some('k'),
            Key::L(false) => Some('l'),
            Key::M(false) => Some('m'),
            Key::N(false) => Some('n'),
            Key::O(false) => Some('o'),
            Key::P(false) => Some('p'),
            Key::Q(false) => Some('q'),
            Key::R(false) => Some('r'),
            Key::S(false) => Some('s'),
            Key::T(false) => Some('t'),
            Key::U(false) => Some('u'),
            Key::V(false) => Some('v'),
            Key::W(false) => Some('w'),
            Key::X(false) => Some('x'),
            Key::Y(false) => Some('y'),
            Key::Z(false) => Some('z'),
            Key::A(true) => Some('A'),
            Key::B(true) => Some('B'),
            Key::C(true) => Some('C'),
            Key::D(true) => Some('D'),
            Key::E(true) => Some('E'),
            Key::F(true) => Some('F'),
            Key::G(true) => Some('G'),
            Key::H(true) => Some('H'),
            Key::I(true) => Some('I'),
            Key::J(true) => Some('J'),
            Key::K(true) => Some('K'),
            Key::L(true) => Some('L'),
            Key::M(true) => Some('M'),
            Key::N(true) => Some('N'),
            Key::O(true) => Some('O'),
            Key::P(true) => Some('P'),
            Key::Q(true) => Some('Q'),
            Key::R(true) => Some('R'),
            Key::S(true) => Some('S'),
            Key::T(true) => Some('T'),
            Key::U(true) => Some('U'),
            Key::V(true) => Some('V'),
            Key::W(true) => Some('W'),
            Key::X(true) => Some('X'),
            Key::Y(true) => Some('Y'),
            Key::Z(true) => Some('Z'),
            Key::Zero => Some('0'),
            Key::One => Some('1'),
            Key::Two => Some('2'),
            Key::Three => Some('3'),
            Key::Four => Some('4'),
            Key::Five => Some('5'),
            Key::Six => Some('6'),
            Key::Seven => Some('7'),
            Key::Eight => Some('8'),
            Key::Nine => Some('9'),
            Key::Space => Some(' '),
            Key::Dot => Some('.'),
            Key::QuestionMark => Some('?'),
            Key::ExclamationMark => Some('!'),
            _ => None,
        }
    }

    /// The text that the key types: its character, or nothing.
    pub open spec fn text(self) -> Seq<char> {
        match self.symbol() {
            Some(c) => seq![c],
            None => Seq::empty(),
        }
    }

    /// The key that types the character `c`, or `Key::Unknown` where no key does.
    pub open spec fn of_char(c: char) -> Key {
        match c {
            'a' => Key::A(false),
            'b' => Key::B(false),
            'c' => Key::C(false),
            'd' => Key::D(false),
            'e' => Key::E(false),
            'f' => Key::F(false),
            'g' => Key::G(false),
            'h' => Key::H(false),
            'i' => Key::I(false),
            'j' => Key::J(false),
            'k' => Key::K(false),
            'l' => Key::L(false),
            'm' => Key::M(false),
            'n' => Key::N(false),
            'o' => Key::O(false),
            'p' => Key::P(false),
            'q' => Key::Q(false),
            'r' => Key::R(false),
            's' => Key::S(false),
            't' => Key::T(false),
            'u' => Key::U(false),
            'v' => Key::V(false),
            'w' => Key::W(false),
            'x' => Key::X(false),
            'y' => Key::Y(false),
            'z' => Key::Z(false),
            'A' => Key::A(true),
            'B' => Key::B(true),
            'C' => Key::C(true),
            'D' => Key::D(true),
            'E' => Key::E(true),
            'F' => Key::F(true),
            'G' => Key::G(true),
            'H' => Key::H(true),
            'I' => Key::I(true),
            'J' => Key::J(true),
            'K' => Key::K(true),
            'L' => Key::L(true),
            'M' => Key::M(true),
            'N' => Key::N(true),
            'O' => Key::O(true),
            'P' => Key::P(true),
            'Q' => Key::Q(true),
            'R' => Key::R(true),
            'S' => Key::S(true),
            'T' => Key::T(true),
            'U' => Key::U(true),
            'V' => Key::V(true),
            'W' => Key::W(true),
            'X' => Key::X(true),
            'Y' => Key::Y(true),
            'Z' => Key::Z(true),
            '0' => Key::Zero,
            '1' => Key::One,
            '2' => Key::Two,
            '3' => Key::Three,
            '4' => Key::Four,
            '5' => Key::Five,
            '6' => Key::Six,
            '7' => Key::Seven,
            '8' => Key::Eight,
            '9' => Key::Nine,
            ' ' => Key::Space,
            '.' => Key::Dot,
            '?' => Key::QuestionMark,
            '!' => Key::ExclamationMark,
            _ => Key::Unknown,
        }
    }

    /// The key of a character is the one key that types it.
    pub proof fn lemma_key_round_trip(key: Key)
        requires
            key.symbol() is Some,
        ensures
            Key::of_char(key.symbol().unwrap()) == key,
    {
    }

    /// A character that some key types comes back as the text of its key. Any
    /// other character gives `Key::Unknown`, which types nothing.
    pub proof fn lemma_char_round_trip(c: char)
        ensures
            Key::of_char(c) == Key::Unknown <==> forall|key: Key| key.symbol() != Some(c),
            Key::of_char(c) != Key::Unknown ==> Key::of_char(c).text() == seq![c],
            Key::of_char(c) == Key::Unknown ==> Key::of_char(c).text() == Seq::<char>::empty(),
    {
        if Key::of_char(c) != Key::Unknown {
            assert(Key::of_char(c).symbol() == Some(c));
        } else {
            assert forall|key: Key| key.symbol() != Some(c) by {
                if key.symbol() is Some {
                    Key::lemma_key_round_trip(key);
                }
            }
        }
    }

    /// The text that the key types, as an owned string.
    pub fn to_string(&self) -> (text: String)
        ensures
            text@ == self.text(),
    {
        let text: &'static str = <&'static str>::from(*self);
        text.to_owned()
    }
}

impl From<Key> for &'static str {
    /// The text that the key types.
    fn from(key: Key) -> (text: &'static str)
        ensures
            text@ == key.text(),
    {
        proof {
            reveal_strlit("a");
            reveal_strlit("b");
            reveal_strlit("c");
            reveal_strlit("d");
            reveal_strlit("e");
            reveal_strlit("f");
            reveal_strlit("g");
            reveal_strlit("h");
            reveal_strlit("i");
            reveal_strlit("j");
            reveal_strlit("k");
            reveal_strlit("l");
            reveal_strlit("m");
            reveal_strlit("n");
            reveal_strlit("o");
            reveal_strlit("p");
            reveal_strlit("q");
            reveal_strlit("r");
            reveal_strlit("s");
            reveal_strlit("t");
            reveal_strlit("u");
            reveal_strlit("v");
            reveal_strlit("w");
            reveal_strlit("x");
            reveal_strlit("y");
            reveal_strlit("z");
            reveal_strlit("A");
            reveal_strlit("B");
            reveal_strlit("C");
            reveal_strlit("D");
            reveal_strlit("E");
            reveal_strlit("F");
            reveal_strlit("G");
            reveal_strlit("H");
            reveal_strlit("I");
            reveal_strlit("J");
            reveal_strlit("K");
            reveal_strlit("L");
            reveal_strlit("M");
            reveal_strlit("N");
            reveal_strlit("O");
            reveal_strlit("P");
            reveal_strlit("Q");
            reveal_strlit("R");
            reveal_strlit("S");
            reveal_strlit("T");
            reveal_strlit("U");
            reveal_strlit("V");
            reveal_strlit("W");
            reveal_strlit("X");
            reveal_strlit("Y");
            reveal_strlit("Z");
            reveal_strlit("0");
            reveal_strlit("1");
            reveal_strlit("2");
            reveal_strlit("3");
            reveal_strlit("4");
            reveal_strlit("5");
            reveal_strlit("6");
            reveal_strlit("7");
            reveal_strlit("8");
            reveal_strlit("9");
            reveal_strlit(" ");
            reveal_strlit(".");
            reveal_strlit("?");
            reveal_strlit("!");
            reveal_strlit("");
        }
        match key {
            Key::A(false) => "a",
            Key::B(false) => "b",
            Key::C(false) => "c",
            Key::D(false) => "d",
            Key::E(false) => "e",
            Key::F(false) => "f",
            Key::G(false) => "g",
            Key::H(false) => "h",
            Key::I(false) => "i",
            Key::J(false) => "j",
            Key::K(false) => "k",
            Key::L(false) => "l",
            Key::M(false) => "m",
            Key::N(false) => "n",
            Key::O(false) => "o",
            Key::P(false) => "p",
            Key::Q(false) => "q",
            Key::R(false) => "r",
            Key::S(false) => "s",
            Key::T(false) => "t",
            Key::U(false) => "u",
            Key::V(false) => "v",
            Key::W(false) => "w",
            Key::X(false) => "x",
            Key::Y(false) => "y",
            Key::Z(false) => "z",
            Key::A(true) => "A",
            Key::B(true) => "B",
            Key::C(true) => "C",
            Key::D(true) => "D",
            Key::E(true) => "E",
            Key::F(true) => "F",
            Key::G(true) => "G",
            Key::H(true) => "H",
            Key::I(true) => "I",
            Key::J(true) => "J",
            Key::K(true) => "K",
            Key::L(true) => "L",
            Key::M(true) => "M",
            Key::N(true) => "N",
            Key::O(true) => "O",
            Key::P(true) => "P",
            Key::Q(true) => "Q",
            Key::R(true) => "R",
            Key::S(true) => "S",
            Key::T(true) => "T",
            Key::U(true) => "U",
            Key::V(true) => "V",
            Key::W(true) => "W",
            Key::X(true) => "X",
            Key::Y(true) => "Y",
            Key::Z(true) => "Z",
            Key::Zero => "0",
            Key::One => "1",
            Key::Two => "2",
            Key::Three => "3",
            Key::Four => "4",
            Key::Five => "5",
            Key::Six => "6",
            Key::Seven => "7",
            Key::Eight => "8",
            Key::Nine => "9",
            Key::Space => " ",
            Key::Dot => ".",
            Key::QuestionMark => "?",
            Key::ExclamationMark => "!",
            _ => "",
        }
    }
}

/// A string slice is known to proofs by its characters only, so the
/// conversion states its result through `Key::text` on `from` itself and
/// names no string here.
impl FromSpecImpl<Key> for &'static str {
    open spec fn obeys_from_spec() -> bool {
        false
    }

    open spec fn from_spec(key: Key) -> &'static str {
        ""
    }
}

impl From<Key> for Option<u8> {
    /// The byte of the character that the key types, if it types one.
    fn from(key: Key) -> (byte: Option<u8>)
        ensures
            byte == match key.symbol() {
                Some(c) => Some(c as u8),
                None => None,
            },
    {
        match key {
            Key::A(false) => Some(97),
            Key::B(false) => Some(98),
            Key::C(false) => Some(99),
            Key::D(false) => Some(100),
            Key::E(false) => Some(101),
            Key::F(false) => Some(102),
            Key::G(false) => Some(103),
            Key::H(false) => Some(104),
            Key::I(false) => Some(105),
            Key::J(false) => Some(106),
            Key::K(false) => Some(107),
            Key::L(false) => Some(108),
            Key::M(false) => Some(109),
            Key::N(false) => Some(110),
            Key::O(false) => Some(111),
            Key::P(false) => Some(112),
            Key::Q(false) => Some(113),
            Key::R(false) => Some(114),
            Key::S(false) => Some(115),
            Key::T(false) => Some(116),
            Key::U(false) => Some(117),
            Key::V(false) => Some(118),
            Key::W(false) => Some(119),
            Key::X(false) => Some(120),
            Key::Y(false) => Some(121),
            Key::Z(false) => Some(122),
            Key::A(true) => Some(65),
            Key::B(true) => Some(66),
            Key::C(true) => Some(67),
            Key::D(true) => Some(68),
            Key::E(true) => Some(69),
            Key::F(true) => Some(70),
            Key::G(true) => Some(71),
            Key::H(true) => Some(72),
            Key::I(true) => Some(73),
            Key::J(true) => Some(74),
            Key::K(true) => Some(75),
            Key::L(true) => Some(76),
            Key::M(true) => Some(77),
            Key::N(true) => Some(78),
            Key::O(true) => Some(79),
            Key::P(true) => Some(80),
            Key::Q(true) => Some(81),
            Key::R(true) => Some(82),
            Key::S(true) => Some(83),
            Key::T(true) => Some(84),
            Key::U(true) => Some(85),
            Key::V(true) => Some(86),
            Key::W(true) => Some(87),
            Key::X(true) => Some(88),
            Key::Y(true) => Some(89),
            Key::Z(true) => Some(90),
            Key::Zero => Some(48),
            Key::One => Some(49),
            Key::Two => Some(50),
            Key::Three => Some(51),
            Key::Four => Some(52),
            Key::Five => Some(53),
            Key::Six => Some(54),
            Key::Seven => Some(55),
            Key::Eight => Some(56),
            Key::Nine => Some(57),
            Key::Space => Some(32),
            Key::Dot => Some(46),
            Key::QuestionMark => Some(63),
            Key::ExclamationMark => Some(33),
            _ => None,
        }
    }
}

impl FromSpecImpl<Key> for Option<u8> {
    open spec fn obeys_from_spec() -> bool {
        true
    }

    open spec fn from_spec(key: Key) -> Option<u8> {
        match key.symbol() {
            Some(c) => Some(c as u8),
            None => None,
        }
    }
}

impl From<char> for Key {
    /// The key that types the character, or `Key::Unknown` where no key does.
    fn from(sight: char) -> (key: Key)
        ensures
            match key.symbol() {
                Some(c) => c == sight,
                None => key == Key::Unknown && forall|other: Key| other.symbol() != Some(sight),
            },
    {
        proof {
            Key::lemma_char_round_trip(sight);
        }
        match sight {
            'a' => Key::A(false),
            'b' => Key::B(false),
            'c' => Key::C(false),
            'd' => Key::D(false),
            'e' => Key::E(false),
            'f' => Key::F(false),
            'g' => Key::G(false),
            'h' => Key::H(false),
            'i' => Key::I(false),
            'j' => Key::J(false),
            'k' => Key::K(false),
            'l' => Key::L(false),
            'm' => Key::M(false),
            'n' => Key::N(false),
            'o' => Key::O(false),
            'p' => Key::P(false),
            'q' => Key::Q(false),
            'r' => Key::R(false),
            's' => Key::S(false),
            't' => Key::T(false),
            'u' => Key::U(false),
            'v' => Key::V(false),
            'w' => Key::W(false),
            'x' => Key::X(false),
            'y' => Key::Y(false),
            'z' => Key::Z(false),
            'A' => Key::A(true),
            'B' => Key::B(true),
            'C' => Key::C(true),
            'D' => Key::D(true),
            'E' => Key::E(true),
            'F' => Key::F(true),
            'G' => Key::G(true),
            'H' => Key::H(true),
            'I' => Key::I(true),
            'J' => Key::J(true),
            'K' => Key::K(true),
            'L' => Key::L(true),
            'M' => Key::M(true),
            'N' => Key::N(true),
            'O' => Key::O(true),
            'P' => Key::P(true),
            'Q' => Key::Q(true),
            'R' => Key::R(true),
            'S' => Key::S(true),
            'T' => Key::T(true),
            'U' => Key::U(true),
            'V' => Key::V(true),
            'W' => Key::W(true),
            'X' => Key::X(true),
            'Y' => Key::Y(true),
            'Z' => Key::Z(true),
            '0' => Key::Zero,
            '1' => Key::One,
            '2' => Key::Two,
            '3' => Key::Three,
            '4' => Key::Four,
            '5' => Key::Five,
            '6' => Key::Six,
            '7' => Key::Seven,
            '8' => Key::Eight,
            '9' => Key::Nine,
            ' ' => Key::Space,
            '.' => Key::Dot,
            '?' => Key::QuestionMark,
            '!' => Key::ExclamationMark,
            _ => Key::Unknown,
        }
    }
}

impl FromSpecImpl<char> for Key {
    open spec fn obeys_from_spec() -> bool {
        true
    }

    open spec fn from_spec(c: char) -> Key {
        Key::of_char(c)
    }
}

/// A key went down.
#[derive(Clone, Copy, Debug, PartialEq, Eq, Structural)]
pub struct KeyDownEvent {
    pub key: Key,
}

impl Event for KeyDownEvent {
    open spec fn kind() -> EventKind {
        EventKind::KeyDown
    }

    open spec fn pack(self) -> EventPayload {
        EventPayload::KeyDown(self)
    }

    open spec fn unpack(payload: EventPayload) -> Option<Self> {
        match payload {
            EventPayload::KeyDown(event) => Some(event),
            _ => None,
        }
    }

    proof fn lemma_pack_kind(self) {
    }

    proof fn lemma_unpack_pack(self) {
    }

    proof fn lemma_unpack_kind(payload: EventPayload) {
    }

    fn into_payload(self) -> (payload: EventPayload) {
        EventPayload::KeyDown(self)
    }

    fn from_payload(payload: &EventPayload) -> (event: Option<&Self>) {
        match payload {
            EventPayload::KeyDown(event) => Some(event),
            _ => None,
        }
    }
}

/// A key came up.
#[derive(Clone, Copy, Debug, PartialEq, Eq, Structural)]
pub struct KeyUpEvent {
    pub key: Key,
}

impl Event for KeyUpEvent {
    open spec fn kind() -> EventKind {
        EventKind::KeyUp
    }

    open spec fn pack(self) -> EventPayload {
        EventPayload::KeyUp(self)
    }

    open spec fn unpack(payload: EventPayload) -> Option<Self> {
        match payload {
            EventPayload::KeyUp(event) => Some(event),
            _ => None,
        }
    }

    proof fn lemma_pack_kind(self) {
    }

    proof fn lemma_unpack_pack(self) {
    }

    proof fn lemma_unpack_kind(payload: EventPayload) {
    }

    fn into_payload(self) -> (payload: EventPayload) {
        EventPayload::KeyUp(self)
    }

    fn from_payload(payload: &EventPayload) -> (event: Option<&Self>) {
        match payload {
            EventPayload::KeyUp(event) => Some(event),
            _ => None,
        }
    }
}

/// Calls a closure with the key of each key-down event.
pub struct KeyDownEventHandler<H: Fn(Key) -> bool> {
    handler: H,
}

impl<H: Fn(Key) -> bool> KeyDownEventHandler<H> {
    #[verifier::type_invariant]
    spec fn callable(self) -> bool {
        forall|key: Key| call_requires(self.handler, (key,))
    }

    /// The closure that is called.
    pub closed spec fn handler(self) -> H {
        self.handler
    }

    /// Creates a handler around a closure that accepts every key.
    pub fn new(handler: H) -> (created: Self)
        requires
            forall|key: Key| call_requires(handler, (key,)),
        ensures
            created.handler() == handler,
    {
        KeyDownEventHandler { handler }
    }
}

impl<H: Fn(Key) -> bool> EventHandler for KeyDownEventHandler<H> {
    open spec fn interest(&self) -> EventKind {
        EventKind::KeyDown
    }

    open spec fn may_answer(&self, event: EventPayload, consumed: bool) -> bool {
        match event {
            EventPayload::KeyDown(down) => call_ensures(self.handler(), (down.key,), consumed),
            _ => !consumed,
        }
    }

    fn kind(&self) -> (kind: EventKind) {
        EventKind::KeyDown
    }

    /// Calls the closure with the key of a key-down event and returns its
    /// answer; answers `false` to any other event without calling the closure.
    fn handle_event(&self, event: &EventBox) -> (consumed: bool)
        ensures
            match event@ {
                EventPayload::KeyDown(down) => call_ensures(
                    self.handler(),
                    (down.key,),
                    consumed,
                ),
                _ => !consumed,
            },
    {
        proof {
            use_type_invariant(self);
        }
        if let Some(down) = event.downcast_ref::<KeyDownEvent>() {
            return (self.handler)(down.key);
        }
        false
    }
}

/// A builder for a widget that reacts to keys going down.
pub trait KeyDownHandler: TemplateBase {
    /// Inserts a handler: attaches a handler that calls the closure with the
    /// key of each key-down event, behind the handlers that the widget has.
    fn on_key_down<H: Fn(Key) -> bool + 'static>(self, handler: H) -> (builder: Self)
        requires
            forall|key: Key| call_requires(handler, (key,)),
        ensures
            builder.inner()@.event_handlers.len() == self.inner()@.event_handlers.len() + 1,
            builder.inner()@.event_handlers.last().interest() == EventKind::KeyDown,
            builder.inner()@ == (TemplateParts {
                event_handlers: self.inner()@.event_handlers.push(
                    builder.inner()@.event_handlers.last(),
                ),
                ..self.inner()@
            }),
    {
        self.event_handler(KeyDownEventHandler::new(handler))
    }
}

} // verus!

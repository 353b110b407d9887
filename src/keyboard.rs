use vstd::prelude::*;

verus! {

/// Named keys the host can report.
#[derive(Clone, Copy, Debug, PartialEq, Eq, Structural)]
pub enum NamedKey {
    Control,
    Shift,
    Enter,
    Tab,
    Space,
    ArrowDown,
    ArrowLeft,
    ArrowRight,
    ArrowUp,
    End,
    Home,
    Backspace,
    Delete,
    Insert,
    Escape,
    F1,
    F2,
    F3,
    F4,
    F5,
    F6,
    F7,
    F8,
    F9,
    F10,
    F11,
    F12,
    /// Any named key outside the table.
    Other,
}

/// A key as the host reports it.
#[derive(Clone, Debug, PartialEq, Eq)]
pub enum Key {
    Named(NamedKey),
    Character(String),
    Unidentified,
}

/// Modifier state as the host reports it.
#[derive(Clone, Copy, Debug, PartialEq, Eq, Structural)]
pub struct Modifiers {
    pub alt: bool,
    pub control: bool,
    pub logo: bool,
    pub shift: bool,
}

/// A host-neutral keyboard event.
#[derive(Clone, Debug, PartialEq, Eq)]
pub enum KeyboardEvent {
    KeyPressed { key: Key, modified_key: Key, modifiers: Modifiers, text: Option<String> },
    KeyReleased { key: Key, modifiers: Modifiers },
    ModifiersChanged(Modifiers),
}

/// Whether a key goes down or comes up.
#[derive(Clone, Copy, Debug, PartialEq, Eq, Structural)]
pub enum KeyPress {
    Press,
    Unpress,
}

/// Windows-style virtual key codes used by the native engine.
#[derive(Clone, Copy, Debug, PartialEq, Eq, Structural)]
pub enum VirtualKey {
    Control,
    Shift,
    Return,
    Tab,
    Space,
    Down,
    Left,
    Right,
    Up,
    End,
    Home,
    Back,
    Delete,
    Insert,
    Escape,
    F1,
    F2,
    F3,
    F4,
    F5,
    F6,
    F7,
    F8,
    F9,
    F10,
    F11,
    F12,
    A,
    B,
    C,
    D,
    E,
    F,
    G,
    H,
    I,
    J,
    K,
    L,
    M,
    N,
    O,
    P,
    Q,
    R,
    S,
    T,
    U,
    V,
    W,
    X,
    Y,
    Z,
    Key0,
    Key1,
    Key2,
    Key3,
    Key4,
    Key5,
    Key6,
    Key7,
    Key8,
    Key9,
    OemComma,
    OemPeriod,
    Oem1,
    OemMinus,
    OemPlus,
    Oem5,
    Oem3,
    Oem2,
    Oem102,
    Oem4,
    Oem6,
}

/// Kind of a native key event.
#[derive(Clone, Copy, Debug, PartialEq, Eq, Structural)]
pub enum KeyEventType {
    /// A physical key went down.
    RawKeyDown,
    /// A physical key came up.
    KeyUp,
    /// Text is to be inserted.
    Char,
}

/// Modifier flags of a native key event.
#[derive(Clone, Copy, Debug, PartialEq, Eq, Structural)]
pub struct KeyEventModifiers {
    pub alt: bool,
    pub ctrl: bool,
    pub meta: bool,
    pub shift: bool,
}

/// Everything the native engine needs to build one key event.
#[derive(Clone, Debug, PartialEq, Eq)]
pub struct KeyEventInfo {
    pub ty: KeyEventType,
    pub modifiers: KeyEventModifiers,
    pub virtual_key: VirtualKey,
    pub native_key: i32,
    pub text: String,
    pub unmodified_text: String,
}

/// Model of a native key event, with its texts as character sequences.
pub ghost struct KeyEventModel {
    pub ty: KeyEventType,
    pub modifiers: KeyEventModifiers,
    pub virtual_key: VirtualKey,
    pub native_key: i32,
    pub text: Seq<char>,
    pub unmodified_text: Seq<char>,
}

impl KeyEventInfo {
    pub open spec fn model(&self) -> KeyEventModel {
        KeyEventModel {
            ty: self.ty,
            modifiers: self.modifiers,
            virtual_key: self.virtual_key,
            native_key: self.native_key,
            text: self.text@,
            unmodified_text: self.unmodified_text@,
        }
    }
}

/// Virtual and native key codes of a named key.
pub open spec fn named_key_code(k: NamedKey) -> Option<(VirtualKey, i32)> {
    match k {
        NamedKey::Control => Some((VirtualKey::Control, 29i32)),
        NamedKey::Shift => Some((VirtualKey::Shift, 42i32)),
        NamedKey::Enter => Some((VirtualKey::Return, 28i32)),
        NamedKey::Tab => Some((VirtualKey::Tab, 15i32)),
        NamedKey::Space => Some((VirtualKey::Space, 57i32)),
        NamedKey::ArrowDown => Some((VirtualKey::Down, 108i32)),
        NamedKey::ArrowLeft => Some((VirtualKey::Left, 105i32)),
        NamedKey::ArrowRight => Some((VirtualKey::Right, 106i32)),
        NamedKey::ArrowUp => Some((VirtualKey::Up, 103i32)),
        NamedKey::End => Some((VirtualKey::End, 107i32)),
        NamedKey::Home => Some((VirtualKey::Home, 102i32)),
        NamedKey::Backspace => Some((VirtualKey::Back, 14i32)),
        NamedKey::Delete => Some((VirtualKey::Delete, 111i32)),
        NamedKey::Insert => Some((VirtualKey::Insert, 110i32)),
        NamedKey::Escape => Some((VirtualKey::Escape, 1i32)),
        NamedKey::F1 => Some((VirtualKey::F1, 59i32)),
        NamedKey::F2 => Some((VirtualKey::F2, 60i32)),
        NamedKey::F3 => Some((VirtualKey::F3, 61i32)),
        NamedKey::F4 => Some((VirtualKey::F4, 62i32)),
        NamedKey::F5 => Some((VirtualKey::F5, 63i32)),
        NamedKey::F6 => Some((VirtualKey::F6, 64i32)),
        NamedKey::F7 => Some((VirtualKey::F7, 65i32)),
        NamedKey::F8 => Some((VirtualKey::F8, 66i32)),
        NamedKey::F9 => Some((VirtualKey::F9, 67i32)),
        NamedKey::F10 => Some((VirtualKey::F10, 68i32)),
        NamedKey::F11 => Some((VirtualKey::F11, 69i32)),
        NamedKey::F12 => Some((VirtualKey::F12, 70i32)),
        NamedKey::Other => None,
    }
}

/// Virtual and native key codes of a character key.
pub open spec fn char_key_code(c: char) -> Option<(VirtualKey, i32)> {
    match c {
        'a' => Some((VirtualKey::A, 30i32)),
        'b' => Some((VirtualKey::B, 48i32)),
        'c' => Some((VirtualKey::C, 46i32)),
        'd' => Some((VirtualKey::D, 32i32)),
        'e' => Some((VirtualKey::E, 18i32)),
        'f' => Some((VirtualKey::F, 33i32)),
        'g' => Some((VirtualKey::G, 34i32)),
        'h' => Some((VirtualKey::H, 35i32)),
        'i' => Some((VirtualKey::I, 23i32)),
        'j' => Some((VirtualKey::J, 36i32)),
        'k' => Some((VirtualKey::K, 37i32)),
        'l' => Some((VirtualKey::L, 38i32)),
        'm' => Some((VirtualKey::M, 50i32)),
        'n' => Some((VirtualKey::N, 49i32)),
        'o' => Some((VirtualKey::O, 24i32)),
        'p' => Some((VirtualKey::P, 25i32)),
        'q' => Some((VirtualKey::Q, 16i32)),
        'r' => Some((VirtualKey::R, 19i32)),
        's' => Some((VirtualKey::S, 31i32)),
        't' => Some((VirtualKey::T, 20i32)),
        'u' => Some((VirtualKey::U, 22i32)),
        'v' => Some((VirtualKey::V, 47i32)),
        'w' => Some((VirtualKey::W, 17i32)),
        'x' => Some((VirtualKey::X, 45i32)),
        'y' => Some((VirtualKey::Y, 21i32)),
        'z' => Some((VirtualKey::Z, 44i32)),
        '0' => Some((VirtualKey::Key0, 11i32)),
        '1' => Some((VirtualKey::Key1, 2i32)),
        '2' => Some((VirtualKey::Key2, 3i32)),
        '3' => Some((VirtualKey::Key3, 4i32)),
        '4' => Some((VirtualKey::Key4, 5i32)),
        '5' => Some((VirtualKey::Key5, 6i32)),
        '6' => Some((VirtualKey::Key6, 7i32)),
        '7' => Some((VirtualKey::Key7, 8i32)),
        '8' => Some((VirtualKey::Key8, 9i32)),
        '9' => Some((VirtualKey::Key9, 10i32)),
        ',' => Some((VirtualKey::OemComma, 51i32)),
        '.' => Some((VirtualKey::OemPeriod, 52i32)),
        ';' => Some((VirtualKey::Oem1, 39i32)),
        '-' => Some((VirtualKey::OemMinus, 12i32)),
        '_' => Some((VirtualKey::OemMinus, 74i32)),
        '+' => Some((VirtualKey::OemPlus, 78i32)),
        '=' => Some((VirtualKey::OemPlus, 78i32)),
        '\\' => Some((VirtualKey::Oem5, 43i32)),
        '|' => Some((VirtualKey::Oem5, 43i32)),
        '`' => Some((VirtualKey::Oem3, 41i32)),
        '?' => Some((VirtualKey::Oem2, 53i32)),
        '/' => Some((VirtualKey::Oem2, 53i32)),
        '>' => Some((VirtualKey::Oem102, 52i32)),
        '<' => Some((VirtualKey::Oem102, 52i32)),
        '[' => Some((VirtualKey::Oem4, 26i32)),
        ']' => Some((VirtualKey::Oem6, 27i32)),
        _ => None,
    }
}

/// Key codes of a key, if it has any: a character key must be one character.
pub open spec fn key_code(key: Key) -> Option<(VirtualKey, i32)> {
    match key {
        Key::Named(k) => named_key_code(k),
        Key::Character(s) => if s@.len() == 1 {
            char_key_code(s@[0])
        } else {
            None
        },
        Key::Unidentified => None,
    }
}

/// Text a key produces: a space for the space bar, nothing for other named
/// keys, and the host's text for character keys.
pub open spec fn key_text(key: Key, text: Option<Seq<char>>) -> Seq<char> {
    match key {
        Key::Named(k) => if k == NamedKey::Space {
            seq![' ']
        } else {
            Seq::empty()
        },
        _ => match text {
            Some(t) => t,
            None => Seq::empty(),
        },
    }
}

/// Text before modifiers other than shift were applied.
pub open spec fn unmodified_text(modified_key: Option<Key>, text: Seq<char>) -> Seq<char> {
    match modified_key {
        Some(Key::Character(c)) => c@,
        _ => text,
    }
}

/// Event kind: with control held the key is raw; otherwise a press with
/// printable ASCII text inserts it.
pub open spec fn key_event_type(press: KeyPress, ctrl: bool, text: Seq<char>) -> KeyEventType {
    if !ctrl && press == KeyPress::Press && text.len() > 0 && vstd::utf8::is_ascii_chars(text) {
        KeyEventType::Char
    } else if press == KeyPress::Press {
        KeyEventType::RawKeyDown
    } else {
        KeyEventType::KeyUp
    }
}

/// Native modifier flags of a host modifier state.
pub open spec fn native_modifiers(m: Modifiers) -> KeyEventModifiers {
    KeyEventModifiers { alt: m.alt, ctrl: m.control, meta: m.logo, shift: m.shift }
}

pub open spec fn opt_view(text: Option<String>) -> Option<Seq<char>> {
    match text {
        Some(t) => Some(t@),
        None => None,
    }
}

/// The native key event for a host key, if there is one.
pub open spec fn key_event_of(
    press: KeyPress,
    modified_key: Option<Key>,
    key: Option<Key>,
    modifiers: Modifiers,
    text: Option<Seq<char>>,
) -> Option<KeyEventModel> {
    match key {
        None => None,
        Some(k) => match key_code(k) {
            None => None,
            Some((vk, nk)) => {
                let t = key_text(k, text);
                Some(
                    KeyEventModel {
                        ty: key_event_type(press, modifiers.control, t),
                        modifiers: native_modifiers(modifiers),
                        virtual_key: vk,
                        native_key: nk,
                        text: t,
                        unmodified_text: unmodified_text(modified_key, t),
                    },
                )
            },
        },
    }
}

/// The native key event for a host keyboard event, if there is one.
pub open spec fn keyboard_event_of(event: KeyboardEvent) -> Option<KeyEventModel> {
    match event {
        KeyboardEvent::KeyPressed { key, modified_key, modifiers, text } => key_event_of(
            KeyPress::Press,
            Some(modified_key),
            Some(key),
            modifiers,
            opt_view(text),
        ),
        KeyboardEvent::KeyReleased { key, modifiers } => key_event_of(
            KeyPress::Unpress,
            None,
            Some(key),
            modifiers,
            None,
        ),
        KeyboardEvent::ModifiersChanged(modifiers) => key_event_of(
            KeyPress::Press,
            None,
            None,
            modifiers,
            None,
        ),
    }
}

pub open spec fn opt_model(r: Option<KeyEventInfo>) -> Option<KeyEventModel> {
    match r {
        Some(e) => Some(e.model()),
        None => None,
    }
}

/// Key codes of a named key.
pub fn named_key_codes(k: NamedKey) -> (r: Option<(VirtualKey, i32)>)
    ensures
        r == named_key_code(k),
{
    match k {
        NamedKey::Control => Some((VirtualKey::Control, 29i32)),
        NamedKey::Shift => Some((VirtualKey::Shift, 42i32)),
        NamedKey::Enter => Some((VirtualKey::Return, 28i32)),
        NamedKey::Tab => Some((VirtualKey::Tab, 15i32)),
        NamedKey::Space => Some((VirtualKey::Space, 57i32)),
        NamedKey::ArrowDown => Some((VirtualKey::Down, 108i32)),
        NamedKey::ArrowLeft => Some((VirtualKey::Left, 105i32)),
        NamedKey::ArrowRight => Some((VirtualKey::Right, 106i32)),
        NamedKey::ArrowUp => Some((VirtualKey::Up, 103i32)),
        NamedKey::End => Some((VirtualKey::End, 107i32)),
        NamedKey::Home => Some((VirtualKey::Home, 102i32)),
        NamedKey::Backspace => Some((VirtualKey::Back, 14i32)),
        NamedKey::Delete => Some((VirtualKey::Delete, 111i32)),
        NamedKey::Insert => Some((VirtualKey::Insert, 110i32)),
        NamedKey::Escape => Some((VirtualKey::Escape, 1i32)),
        NamedKey::F1 => Some((VirtualKey::F1, 59i32)),
        NamedKey::F2 => Some((VirtualKey::F2, 60i32)),
        NamedKey::F3 => Some((VirtualKey::F3, 61i32)),
        NamedKey::F4 => Some((VirtualKey::F4, 62i32)),
        NamedKey::F5 => Some((VirtualKey::F5, 63i32)),
        NamedKey::F6 => Some((VirtualKey::F6, 64i32)),
        NamedKey::F7 => Some((VirtualKey::F7, 65i32)),
        NamedKey::F8 => Some((VirtualKey::F8, 66i32)),
        NamedKey::F9 => Some((VirtualKey::F9, 67i32)),
        NamedKey::F10 => Some((VirtualKey::F10, 68i32)),
        NamedKey::F11 => Some((VirtualKey::F11, 69i32)),
        NamedKey::F12 => Some((VirtualKey::F12, 70i32)),
        NamedKey::Other => None,
    }
}

/// Key codes of a character key.
pub fn char_key_codes(c: char) -> (r: Option<(VirtualKey, i32)>)
    ensures
        r == char_key_code(c),
{
    match c {
        'a' => Some((VirtualKey::A, 30i32)),
        'b' => Some((VirtualKey::B, 48i32)),
        'c' => Some((VirtualKey::C, 46i32)),
        'd' => Some((VirtualKey::D, 32i32)),
        'e' => Some((VirtualKey::E, 18i32)),
        'f' => Some((VirtualKey::F, 33i32)),
        'g' => Some((VirtualKey::G, 34i32)),
        'h' => Some((VirtualKey::H, 35i32)),
        'i' => Some((VirtualKey::I, 23i32)),
        'j' => Some((VirtualKey::J, 36i32)),
        'k' => Some((VirtualKey::K, 37i32)),
        'l' => Some((VirtualKey::L, 38i32)),
        'm' => Some((VirtualKey::M, 50i32)),
        'n' => Some((VirtualKey::N, 49i32)),
        'o' => Some((VirtualKey::O, 24i32)),
        'p' => Some((VirtualKey::P, 25i32)),
        'q' => Some((VirtualKey::Q, 16i32)),
        'r' => Some((VirtualKey::R, 19i32)),
        's' => Some((VirtualKey::S, 31i32)),
        't' => Some((VirtualKey::T, 20i32)),
        'u' => Some((VirtualKey::U, 22i32)),
        'v' => Some((VirtualKey::V, 47i32)),
        'w' => Some((VirtualKey::W, 17i32)),
        'x' => Some((VirtualKey::X, 45i32)),
        'y' => Some((VirtualKey::Y, 21i32)),
        'z' => Some((VirtualKey::Z, 44i32)),
        '0' => Some((VirtualKey::Key0, 11i32)),
        '1' => Some((VirtualKey::Key1, 2i32)),
        '2' => Some((VirtualKey::Key2, 3i32)),
        '3' => Some((VirtualKey::Key3, 4i32)),
        '4' => Some((VirtualKey::Key4, 5i32)),
        '5' => Some((VirtualKey::Key5, 6i32)),
        '6' => Some((VirtualKey::Key6, 7i32)),
        '7' => Some((VirtualKey::Key7, 8i32)),
        '8' => Some((VirtualKey::Key8, 9i32)),
        '9' => Some((VirtualKey::Key9, 10i32)),
        ',' => Some((VirtualKey::OemComma, 51i32)),
        '.' => Some((VirtualKey::OemPeriod, 52i32)),
        ';' => Some((VirtualKey::Oem1, 39i32)),
        '-' => Some((VirtualKey::OemMinus, 12i32)),
        '_' => Some((VirtualKey::OemMinus, 74i32)),
        '+' => Some((VirtualKey::OemPlus, 78i32)),
        '=' => Some((VirtualKey::OemPlus, 78i32)),
        '\\' => Some((VirtualKey::Oem5, 43i32)),
        '|' => Some((VirtualKey::Oem5, 43i32)),
        '`' => Some((VirtualKey::Oem3, 41i32)),
        '?' => Some((VirtualKey::Oem2, 53i32)),
        '/' => Some((VirtualKey::Oem2, 53i32)),
        '>' => Some((VirtualKey::Oem102, 52i32)),
        '<' => Some((VirtualKey::Oem102, 52i32)),
        '[' => Some((VirtualKey::Oem4, 26i32)),
        ']' => Some((VirtualKey::Oem6, 27i32)),
        _ => None,
    }
}

/// Key codes of a host key.
pub fn key_codes(key: &Key) -> (r: Option<(VirtualKey, i32)>)
    ensures
        r == key_code(*key),
{
    match key {
        Key::Named(k) => named_key_codes(*k),
        Key::Character(s) => {
            if s.as_str().unicode_len() == 1 {
                char_key_codes(s.as_str().get_char(0))
            } else {
                None
            }
        },
        Key::Unidentified => None,
    }
}

/// Whether every character of the text is ASCII.
fn all_ascii(s: &String) -> (r: bool)
    ensures
        r == vstd::utf8::is_ascii_chars(s@),
{
    s.is_ascii()
}

/// Translates one host key into the native key event, or none where the key
/// has no identity or is outside the table.
pub fn translate_key(
    press: KeyPress,
    modified_key: Option<Key>,
    key: Option<Key>,
    modifiers: Modifiers,
    text: Option<String>,
) -> (r: Option<KeyEventInfo>)
    ensures
        opt_model(r) == key_event_of(press, modified_key, key, modifiers, opt_view(text)),
{
    let k = match key {
        Some(k) => k,
        None => {
            return None;
        },
    };
    let (virtual_key, native_key) = match key_codes(&k) {
        Some(codes) => codes,
        None => {
            return None;
        },
    };
    let t: String = match &k {
        Key::Named(n) => {
            if *n == NamedKey::Space {
                proof {
                    reveal_strlit(" ");
                }
                String::from_str(" ")
            } else {
                String::new()
            }
        },
        _ => match text {
            Some(s) => s,
            None => String::new(),
        },
    };
    proof {
        assert(t@ == key_text(k, opt_view(text)));
    }
    let ctrl = modifiers.control;
    let ty = if !ctrl && press == KeyPress::Press && t.as_str().unicode_len() > 0 && all_ascii(&t) {
        KeyEventType::Char
    } else if press == KeyPress::Press {
        KeyEventType::RawKeyDown
    } else {
        KeyEventType::KeyUp
    };
    let unmodified = match modified_key {
        Some(Key::Character(c)) => c,
        _ => t.clone(),
    };
    let native = KeyEventModifiers {
        alt: modifiers.alt,
        ctrl: modifiers.control,
        meta: modifiers.logo,
        shift: modifiers.shift,
    };
    Some(
        KeyEventInfo {
            ty,
            modifiers: native,
            virtual_key,
            native_key,
            text: t,
            unmodified_text: unmodified,
        },
    )
}

/// Translates a host keyboard event into the native key event, if any.
pub fn translate_keyboard_event(event: KeyboardEvent) -> (r: Option<KeyEventInfo>)
    ensures
        opt_model(r) == keyboard_event_of(event),
{
    match event {
        KeyboardEvent::KeyPressed { key, modified_key, modifiers, text } => {
            translate_key(KeyPress::Press, Some(modified_key), Some(key), modifiers, text)
        },
        KeyboardEvent::KeyReleased { key, modifiers } => {
            translate_key(KeyPress::Unpress, None, Some(key), modifiers, None)
        },
        KeyboardEvent::ModifiersChanged(modifiers) => {
            translate_key(KeyPress::Press, None, None, modifiers, None)
        },
    }
}

/// Translation depends on its inputs alone: the same key, modifiers, text and
/// direction give the same native event.
pub proof fn lemma_key_translation_deterministic(
    press: KeyPress,
    modified_key: Option<Key>,
    key: Option<Key>,
    modifiers: Modifiers,
    text: Option<String>,
    r1: Option<KeyEventInfo>,
    r2: Option<KeyEventInfo>,
)
    requires
        opt_model(r1) == key_event_of(press, modified_key, key, modifiers, opt_view(text)),
        opt_model(r2) == key_event_of(press, modified_key, key, modifiers, opt_view(text)),
    ensures
        opt_model(r1) == opt_model(r2),
{
}

} // verus!

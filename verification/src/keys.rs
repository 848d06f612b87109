use vstd::prelude::*;

verus! {

/// A platform key code as the window system reports it, reduced to the
/// codes this backend distinguishes; every other code arrives as `Unknown`.
#[derive(Clone, Copy, Debug, PartialEq, Eq, Structural)]
pub enum RawKey {
    Down,
    Left,
    Right,
    Up,
    Escape,
    Tab,
    Backspace,
    Enter,
    Space,
    Insert,
    Delete,
    Home,
    End,
    PageUp,
    PageDown,
    Kp0,
    Kp1,
    Kp2,
    Kp3,
    Kp4,
    Kp5,
    Kp6,
    Kp7,
    Kp8,
    Kp9,
    Num0,
    Num1,
    Num2,
    Num3,
    Num4,
    Num5,
    Num6,
    Num7,
    Num8,
    Num9,
    A,
    B,
    C,
    D,
    E,
    F,
    G,
    H,
    I,
    J,
    K,
    L,
    M,
    N,
    O,
    P,
    Q,
    R,
    S,
    T,
    U,
    V,
    W,
    X,
    Y,
    Z,
    F1,
    F2,
    F3,
    F4,
    F5,
    F6,
    F7,
    F8,
    F9,
    F10,
    F11,
    F12,
    F13,
    F14,
    F15,
    F16,
    F17,
    F18,
    F19,
    F20,
    Unknown,
}

/// A normalized key in the GUI library's vocabulary.
#[derive(Clone, Copy, Debug, PartialEq, Eq, Structural)]
pub enum Key {
    ArrowDown,
    ArrowLeft,
    ArrowRight,
    ArrowUp,
    Escape,
    Tab,
    Backspace,
    Enter,
    Space,
    Insert,
    Delete,
    Home,
    End,
    PageUp,
    PageDown,
    Num0,
    Num1,
    Num2,
    Num3,
    Num4,
    Num5,
    Num6,
    Num7,
    Num8,
    Num9,
    A,
    B,
    C,
    D,
    E,
    F,
    G,
    H,
    I,
    J,
    K,
    L,
    M,
    N,
    O,
    P,
    Q,
    R,
    S,
    T,
    U,
    V,
    W,
    X,
    Y,
    Z,
    F1,
    F2,
    F3,
    F4,
    F5,
    F6,
    F7,
    F8,
    F9,
    F10,
    F11,
    F12,
    F13,
    F14,
    F15,
    F16,
    F17,
    F18,
    F19,
    F20,
}

/// The static key lookup table: which normalized key, if any, a platform
/// key code resolves to. Unrecognized codes resolve to nothing and are
/// silently dropped by the event translator.
pub open spec fn spec_translate_keycode(k: RawKey) -> Option<Key> {
    match k {
        RawKey::Down => Some(Key::ArrowDown),
        RawKey::Left => Some(Key::ArrowLeft),
        RawKey::Right => Some(Key::ArrowRight),
        RawKey::Up => Some(Key::ArrowUp),
        RawKey::Escape => Some(Key::Escape),
        RawKey::Tab => Some(Key::Tab),
        RawKey::Backspace => Some(Key::Backspace),
        RawKey::Enter => Some(Key::Enter),
        RawKey::Space => Some(Key::Space),
        RawKey::Insert => Some(Key::Insert),
        RawKey::Delete => Some(Key::Delete),
        RawKey::Home => Some(Key::Home),
        RawKey::End => Some(Key::End),
        RawKey::PageUp => Some(Key::PageUp),
        RawKey::PageDown => Some(Key::PageDown),
        RawKey::Kp0 | RawKey::Num0 => Some(Key::Num0),
        RawKey::Kp1 | RawKey::Num1 => Some(Key::Num1),
        RawKey::Kp2 | RawKey::Num2 => Some(Key::Num2),
        RawKey::Kp3 | RawKey::Num3 => Some(Key::Num3),
        RawKey::Kp4 | RawKey::Num4 => Some(Key::Num4),
        RawKey::Kp5 | RawKey::Num5 => Some(Key::Num5),
        RawKey::Kp6 | RawKey::Num6 => Some(Key::Num6),
        RawKey::Kp7 | RawKey::Num7 => Some(Key::Num7),
        RawKey::Kp8 | RawKey::Num8 => Some(Key::Num8),
        RawKey::Kp9 | RawKey::Num9 => Some(Key::Num9),
        RawKey::A => Some(Key::A),
        RawKey::B => Some(Key::B),
        RawKey::C => Some(Key::C),
        RawKey::D => Some(Key::D),
        RawKey::E => Some(Key::E),
        RawKey::F => Some(Key::F),
        RawKey::G => Some(Key::G),
        RawKey::H => Some(Key::H),
        RawKey::I => Some(Key::I),
        RawKey::J => Some(Key::J),
        RawKey::K => Some(Key::K),
        RawKey::L => Some(Key::L),
        RawKey::M => Some(Key::M),
        RawKey::N => Some(Key::N),
        RawKey::O => Some(Key::O),
        RawKey::P => Some(Key::P),
        RawKey::Q => Some(Key::Q),
        RawKey::R => Some(Key::R),
        RawKey::S => Some(Key::S),
        RawKey::T => Some(Key::T),
        RawKey::U => Some(Key::U),
        RawKey::V => Some(Key::V),
        RawKey::W => Some(Key::W),
        RawKey::X => Some(Key::X),
        RawKey::Y => Some(Key::Y),
        RawKey::Z => Some(Key::Z),
        RawKey::F1 => Some(Key::F1),
        RawKey::F2 => Some(Key::F2),
        RawKey::F3 => Some(Key::F3),
        RawKey::F4 => Some(Key::F4),
        RawKey::F5 => Some(Key::F5),
        RawKey::F6 => Some(Key::F6),
        RawKey::F7 => Some(Key::F7),
        RawKey::F8 => Some(Key::F8),
        RawKey::F9 => Some(Key::F9),
        RawKey::F10 => Some(Key::F10),
        RawKey::F11 => Some(Key::F11),
        RawKey::F12 => Some(Key::F12),
        RawKey::F13 => Some(Key::F13),
        RawKey::F14 => Some(Key::F14),
        RawKey::F15 => Some(Key::F15),
        RawKey::F16 => Some(Key::F16),
        RawKey::F17 => Some(Key::F17),
        RawKey::F18 => Some(Key::F18),
        RawKey::F19 => Some(Key::F19),
        RawKey::F20 => Some(Key::F20),
        RawKey::Unknown => None,
    }
}

/// Translates a platform key code through the static lookup table.
pub fn translate_keycode(k: RawKey) -> (r: Option<Key>)
    ensures
        r == spec_translate_keycode(k),
{
    match k {
        RawKey::Down => Some(Key::ArrowDown),
        RawKey::Left => Some(Key::ArrowLeft),
        RawKey::Right => Some(Key::ArrowRight),
        RawKey::Up => Some(Key::ArrowUp),
        RawKey::Escape => Some(Key::Escape),
        RawKey::Tab => Some(Key::Tab),
        RawKey::Backspace => Some(Key::Backspace),
        RawKey::Enter => Some(Key::Enter),
        RawKey::Space => Some(Key::Space),
        RawKey::Insert => Some(Key::Insert),
        RawKey::Delete => Some(Key::Delete),
        RawKey::Home => Some(Key::Home),
        RawKey::End => Some(Key::End),
        RawKey::PageUp => Some(Key::PageUp),
        RawKey::PageDown => Some(Key::PageDown),
        RawKey::Kp0 | RawKey::Num0 => Some(Key::Num0),
        RawKey::Kp1 | RawKey::Num1 => Some(Key::Num1),
        RawKey::Kp2 | RawKey::Num2 => Some(Key::Num2),
        RawKey::Kp3 | RawKey::Num3 => Some(Key::Num3),
        RawKey::Kp4 | RawKey::Num4 => Some(Key::Num4),
        RawKey::Kp5 | RawKey::Num5 => Some(Key::Num5),
        RawKey::Kp6 | RawKey::Num6 => Some(Key::Num6),
        RawKey::Kp7 | RawKey::Num7 => Some(Key::Num7),
        RawKey::Kp8 | RawKey::Num8 => Some(Key::Num8),
        RawKey::Kp9 | RawKey::Num9 => Some(Key::Num9),
        RawKey::A => Some(Key::A),
        RawKey::B => Some(Key::B),
        RawKey::C => Some(Key::C),
        RawKey::D => Some(Key::D),
        RawKey::E => Some(Key::E),
        RawKey::F => Some(Key::F),
        RawKey::G => Some(Key::G),
        RawKey::H => Some(Key::H),
        RawKey::I => Some(Key::I),
        RawKey::J => Some(Key::J),
        RawKey::K => Some(Key::K),
        RawKey::L => Some(Key::L),
        RawKey::M => Some(Key::M),
        RawKey::N => Some(Key::N),
        RawKey::O => Some(Key::O),
        RawKey::P => Some(Key::P),
        RawKey::Q => Some(Key::Q),
        RawKey::R => Some(Key::R),
        RawKey::S => Some(Key::S),
        RawKey::T => Some(Key::T),
        RawKey::U => Some(Key::U),
        RawKey::V => Some(Key::V),
        RawKey::W => Some(Key::W),
        RawKey::X => Some(Key::X),
        RawKey::Y => Some(Key::Y),
        RawKey::Z => Some(Key::Z),
        RawKey::F1 => Some(Key::F1),
        RawKey::F2 => Some(Key::F2),
        RawKey::F3 => Some(Key::F3),
        RawKey::F4 => Some(Key::F4),
        RawKey::F5 => Some(Key::F5),
        RawKey::F6 => Some(Key::F6),
        RawKey::F7 => Some(Key::F7),
        RawKey::F8 => Some(Key::F8),
        RawKey::F9 => Some(Key::F9),
        RawKey::F10 => Some(Key::F10),
        RawKey::F11 => Some(Key::F11),
        RawKey::F12 => Some(Key::F12),
        RawKey::F13 => Some(Key::F13),
        RawKey::F14 => Some(Key::F14),
        RawKey::F15 => Some(Key::F15),
        RawKey::F16 => Some(Key::F16),
        RawKey::F17 => Some(Key::F17),
        RawKey::F18 => Some(Key::F18),
        RawKey::F19 => Some(Key::F19),
        RawKey::F20 => Some(Key::F20),
        RawKey::Unknown => None,
    }
}

} // verus!

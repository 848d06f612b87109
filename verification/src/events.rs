use vstd::prelude::*;
use crate::keys::{Key, RawKey};

verus! {

// Logical (UI-unit) coordinates reach this library as opaque 32-bit
// encodings prepared by the host layer, which alone does the real-number
// scaling between physical pixels and logical units. The library never
// computes with a coordinate: it stores, stamps and forwards them, and its
// contracts state exactly which encoding ends up where.

/// A logical point: opaque 32-bit encodings of its two coordinates.
#[derive(Clone, Copy, Debug, PartialEq, Eq, Structural)]
pub struct LogicalPos {
    pub x_bits: u32,
    pub y_bits: u32,
}

/// A logical displacement (for example, a scroll delta).
#[derive(Clone, Copy, Debug, PartialEq, Eq, Structural)]
pub struct LogicalVec {
    pub x_bits: u32,
    pub y_bits: u32,
}

/// A logical rectangle with origin (0, 0): opaque encodings of its extent.
#[derive(Clone, Copy, Debug, PartialEq, Eq, Structural)]
pub struct LogicalRect {
    pub width_bits: u32,
    pub height_bits: u32,
}

/// Modifier key state. `command` mirrors `ctrl`: this backend treats the
/// two as identical, and `mac_cmd` is always false.
#[derive(Clone, Copy, Debug, PartialEq, Eq, Structural)]
pub struct Modifiers {
    pub alt: bool,
    pub ctrl: bool,
    pub shift: bool,
    pub mac_cmd: bool,
    pub command: bool,
}

impl Modifiers {
    /// Exactly the command-equivalent modifier is active: no alt, no shift.
    pub open spec fn spec_command_only(self) -> bool {
        !self.alt && !self.shift && self.command
    }

    /// Whether exactly the command-equivalent modifier is active.
    pub fn command_only(&self) -> (r: bool)
        ensures
            r == self.spec_command_only(),
    {
        !self.alt && !self.shift && self.command
    }

    /// The backend's modifier invariant: command mirrors ctrl and the
    /// Mac-specific flag is never set.
    pub open spec fn mirrors_ctrl(self) -> bool {
        self.command == self.ctrl && !self.mac_cmd
    }
}

/// Decodes the window system's modifier bitmask (bit 0: shift, bit 1:
/// control, bit 2: alt). The command-equivalent flag mirrors control.
pub open spec fn spec_mods_from_mask(mask: u32) -> Modifiers {
    Modifiers {
        alt: mask & 0x4 != 0,
        ctrl: mask & 0x2 != 0,
        shift: mask & 0x1 != 0,
        mac_cmd: false,
        command: mask & 0x2 != 0,
    }
}

/// Decodes a raw modifier bitmask into the backend's modifier state.
pub fn mods_from_mask(mask: u32) -> (r: Modifiers)
    ensures
        r == spec_mods_from_mask(mask),
        r.mirrors_ctrl(),
{
    Modifiers {
        alt: mask & 0x4 != 0,
        ctrl: mask & 0x2 != 0,
        shift: mask & 0x1 != 0,
        mac_cmd: false,
        command: mask & 0x2 != 0,
    }
}

/// Law: however the bitmask is decoded, the resulting modifier state keeps
/// the backend's invariant that command mirrors ctrl.
pub proof fn lemma_mask_mods_mirror_ctrl(mask: u32)
    ensures
        spec_mods_from_mask(mask).mirrors_ctrl(),
{
}

/// A pointer button as the window system numbers it.
#[derive(Clone, Copy, Debug, PartialEq, Eq, Structural)]
pub enum RawMouseButton {
    Button1,
    Button2,
    Button3,
    Button4,
    Button5,
    Button6,
    Button7,
    Button8,
}

/// A normalized pointer button in the GUI library's vocabulary.
#[derive(Clone, Copy, Debug, PartialEq, Eq, Structural)]
pub enum PointerButton {
    Primary,
    Secondary,
    Middle,
    Extra1,
    Extra2,
}

/// The platform's button enumeration mapped to the normalized set: button 1
/// is primary, button 2 secondary, button 3 middle, button 4 the first
/// extra button, and every unrecognized button falls back to the second
/// extra button.
pub open spec fn spec_map_mouse_button(b: RawMouseButton) -> PointerButton {
    match b {
        RawMouseButton::Button1 => PointerButton::Primary,
        RawMouseButton::Button2 => PointerButton::Secondary,
        RawMouseButton::Button3 => PointerButton::Middle,
        RawMouseButton::Button4 => PointerButton::Extra1,
        _ => PointerButton::Extra2,
    }
}

/// Maps a platform button to the normalized button set.
pub fn map_mouse_button(b: RawMouseButton) -> (r: PointerButton)
    ensures
        r == spec_map_mouse_button(b),
{
    match b {
        RawMouseButton::Button1 => PointerButton::Primary,
        RawMouseButton::Button2 => PointerButton::Secondary,
        RawMouseButton::Button3 => PointerButton::Middle,
        RawMouseButton::Button4 => PointerButton::Extra1,
        _ => PointerButton::Extra2,
    }
}

/// A button or key transition as the window system reports it.
#[derive(Clone, Copy, Debug, PartialEq, Eq, Structural)]
pub enum RawAction {
    Press,
    Release,
    Repeat,
}

/// One raw window event, with coordinates already carried in logical units
/// (the host layer divides physical coordinates by the device-pixel-ratio
/// before handing the event over). A resize carries both the physical pixel
/// size and the logical rectangle the host computed from it.
#[derive(Clone, Copy, Debug, PartialEq, Eq, Structural)]
pub enum RawEvent {
    FramebufferSize { width_px: u32, height_px: u32, logical: LogicalRect },
    CursorPos { pos: LogicalPos },
    MouseButton { button: RawMouseButton, action: RawAction, mods_mask: u32 },
    Scroll { delta: LogicalVec },
    Char { ch: char },
    Key { key: RawKey, action: RawAction, mods_mask: u32 },
    Other,
}

/// One normalized input event, ready for the GUI library. A `Text` event
/// carries the single input character; the host layer renders it as a
/// one-character string at the boundary.
#[derive(Clone, Debug, PartialEq, Eq)]
pub enum Event {
    PointerMoved { pos: LogicalPos },
    PointerButton { pos: LogicalPos, button: PointerButton, pressed: bool, modifiers: Modifiers },
    Scroll { delta: LogicalVec },
    Text { ch: char },
    Key { key: Key, pressed: bool, modifiers: Modifiers },
    Cut,
    Copy,
    Paste { contents: String },
}

} // verus!

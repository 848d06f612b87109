use egui_backend::events::{
    Event, LogicalPos, LogicalRect, LogicalVec, Modifiers, PointerButton, RawAction, RawEvent,
    RawMouseButton, map_mouse_button, mods_from_mask,
};
use egui_backend::input::{ClipboardPolicy, EguiManager};
use egui_backend::keys::{Key, RawKey, translate_keycode};

const MASK_SHIFT: u32 = 0x1;
const MASK_CTRL: u32 = 0x2;
const MASK_ALT: u32 = 0x4;

fn rect(w: u32, h: u32) -> LogicalRect {
    LogicalRect { width_bits: w, height_bits: h }
}

fn quiet_translator() -> EguiManager {
    let mut t = EguiManager::with_clipboard_policy(
        800,
        600,
        rect(400, 300),
        2,
        4096,
        ClipboardPolicy::Disabled,
    );
    // drain the startup rectangle so tests start from a quiet state
    let _ = t.generate_raw_input();
    t
}

#[test]
fn startup_snapshot_carries_screen_rect() {
    let mut t = EguiManager::with_clipboard_policy(
        800,
        600,
        rect(400, 300),
        2,
        4096,
        ClipboardPolicy::Disabled,
    );
    let snap = t.generate_raw_input();
    assert_eq!(snap.screen_rect, Some(rect(400, 300)));
    assert_eq!(snap.pixels_per_point, 2);
    assert_eq!(snap.max_texture_side, 4096);
    assert!(snap.events.is_empty());
}

#[test]
fn second_snapshot_is_empty() {
    let mut t = EguiManager::with_clipboard_policy(
        800,
        600,
        rect(400, 300),
        2,
        4096,
        ClipboardPolicy::Disabled,
    );
    let first = t.generate_raw_input();
    assert_eq!(first.screen_rect, Some(rect(400, 300)));
    let second = t.generate_raw_input();
    assert_eq!(second.screen_rect, None);
    assert!(second.events.is_empty());
}

#[test]
fn resize_then_snapshot_then_none() {
    let mut t = quiet_translator();
    t.handle_event(RawEvent::FramebufferSize {
        width_px: 1024,
        height_px: 768,
        logical: rect(512, 384),
    });
    assert_eq!(t.screen_dimensions(), (1024, 768));
    let snap = t.generate_raw_input();
    assert_eq!(snap.screen_rect, Some(rect(512, 384)));
    assert!(snap.events.is_empty());
    let snap2 = t.generate_raw_input();
    assert_eq!(snap2.screen_rect, None);
    assert!(snap2.events.is_empty());
}

#[test]
fn pointer_move_emits_and_updates_position() {
    let mut t = quiet_translator();
    let pos = LogicalPos { x_bits: 10, y_bits: 20 };
    t.handle_event(RawEvent::CursorPos { pos });
    let snap = t.generate_raw_input();
    assert_eq!(snap.events, vec![Event::PointerMoved { pos }]);
}

#[test]
fn button_press_is_stamped_with_last_position() {
    let mut t = quiet_translator();
    let pos = LogicalPos { x_bits: 7, y_bits: 9 };
    t.handle_event(RawEvent::CursorPos { pos });
    t.handle_event(RawEvent::MouseButton {
        button: RawMouseButton::Button1,
        action: RawAction::Press,
        mods_mask: MASK_SHIFT,
    });
    let snap = t.generate_raw_input();
    assert_eq!(snap.events.len(), 2);
    assert_eq!(
        snap.events[1],
        Event::PointerButton {
            pos,
            button: PointerButton::Primary,
            pressed: true,
            modifiers: Modifiers {
                alt: false,
                ctrl: false,
                shift: true,
                mac_cmd: false,
                command: false,
            },
        }
    );
}

#[test]
fn button_repeat_emits_nothing() {
    let mut t = quiet_translator();
    t.handle_event(RawEvent::MouseButton {
        button: RawMouseButton::Button1,
        action: RawAction::Repeat,
        mods_mask: 0,
    });
    let snap = t.generate_raw_input();
    assert!(snap.events.is_empty());
}

#[test]
fn release_without_prior_press_still_emits_release() {
    let mut t = quiet_translator();
    t.handle_event(RawEvent::MouseButton {
        button: RawMouseButton::Button2,
        action: RawAction::Release,
        mods_mask: 0,
    });
    let snap = t.generate_raw_input();
    assert_eq!(snap.events.len(), 1);
    assert!(matches!(
        snap.events[0],
        Event::PointerButton { button: PointerButton::Secondary, pressed: false, .. }
    ));
}

#[test]
fn unrecognized_button_falls_back_to_extra2() {
    assert_eq!(map_mouse_button(RawMouseButton::Button7), PointerButton::Extra2);
    assert_eq!(map_mouse_button(RawMouseButton::Button4), PointerButton::Extra1);
    assert_eq!(map_mouse_button(RawMouseButton::Button3), PointerButton::Middle);
}

#[test]
fn scroll_and_char_events() {
    let mut t = quiet_translator();
    let delta = LogicalVec { x_bits: 3, y_bits: 4 };
    t.handle_event(RawEvent::Scroll { delta });
    t.handle_event(RawEvent::Char { ch: 'q' });
    let snap = t.generate_raw_input();
    assert_eq!(snap.events, vec![Event::Scroll { delta }, Event::Text { ch: 'q' }]);
}

#[test]
fn unrecognized_key_is_silently_dropped() {
    let mut t = quiet_translator();
    t.handle_event(RawEvent::Key {
        key: RawKey::Unknown,
        action: RawAction::Press,
        mods_mask: 0,
    });
    let snap = t.generate_raw_input();
    assert!(snap.events.is_empty());
}

#[test]
fn generic_key_event_carries_modifiers() {
    let mut t = quiet_translator();
    t.handle_event(RawEvent::Key {
        key: RawKey::A,
        action: RawAction::Press,
        mods_mask: MASK_ALT,
    });
    let snap = t.generate_raw_input();
    assert_eq!(
        snap.events,
        vec![Event::Key {
            key: Key::A,
            pressed: true,
            modifiers: Modifiers {
                alt: true,
                ctrl: false,
                shift: false,
                mac_cmd: false,
                command: false,
            },
        }]
    );
}

#[test]
fn key_release_emits_unpressed_event() {
    let mut t = quiet_translator();
    t.handle_event(RawEvent::Key {
        key: RawKey::Escape,
        action: RawAction::Release,
        mods_mask: 0,
    });
    let snap = t.generate_raw_input();
    assert_eq!(snap.events.len(), 1);
    assert!(matches!(snap.events[0], Event::Key { key: Key::Escape, pressed: false, .. }));
}

#[test]
fn command_x_emits_single_cut() {
    let mut t = quiet_translator();
    t.handle_event(RawEvent::Key {
        key: RawKey::X,
        action: RawAction::Press,
        mods_mask: MASK_CTRL,
    });
    let snap = t.generate_raw_input();
    assert_eq!(snap.events, vec![Event::Cut]);
}

#[test]
fn command_c_emits_single_copy_and_no_key_event() {
    let mut t = quiet_translator();
    t.handle_event(RawEvent::Key {
        key: RawKey::C,
        action: RawAction::Press,
        mods_mask: MASK_CTRL,
    });
    let snap = t.generate_raw_input();
    assert_eq!(snap.events, vec![Event::Copy]);
}

#[test]
fn command_shift_c_emits_generic_key_event() {
    let mut t = quiet_translator();
    t.handle_event(RawEvent::Key {
        key: RawKey::C,
        action: RawAction::Press,
        mods_mask: MASK_CTRL | MASK_SHIFT,
    });
    let snap = t.generate_raw_input();
    assert_eq!(snap.events.len(), 1);
    assert!(matches!(snap.events[0], Event::Key { key: Key::C, pressed: true, .. }));
}

#[test]
fn paste_with_failing_clipboard_emits_nothing() {
    let mut t = quiet_translator();
    t.handle_event(RawEvent::Key {
        key: RawKey::V,
        action: RawAction::Press,
        mods_mask: MASK_CTRL,
    });
    let snap = t.generate_raw_input();
    assert!(snap.events.is_empty());
}

#[test]
fn paste_with_system_clipboard_emits_at_most_one_paste() {
    let mut t = EguiManager::new(800, 600, rect(400, 300), 2, 4096);
    let _ = t.generate_raw_input();
    t.handle_event(RawEvent::Key {
        key: RawKey::V,
        action: RawAction::Press,
        mods_mask: MASK_CTRL,
    });
    let snap = t.generate_raw_input();
    assert!(snap.events.len() <= 1);
    if let Some(ev) = snap.events.first() {
        assert!(matches!(ev, Event::Paste { .. }));
    }
}

#[test]
fn command_release_does_not_trigger_shortcut() {
    let mut t = quiet_translator();
    t.handle_event(RawEvent::Key {
        key: RawKey::C,
        action: RawAction::Release,
        mods_mask: MASK_CTRL,
    });
    let snap = t.generate_raw_input();
    assert_eq!(snap.events.len(), 1);
    assert!(matches!(snap.events[0], Event::Key { key: Key::C, pressed: false, .. }));
}

#[test]
fn modifier_mask_decoding_mirrors_ctrl() {
    let m = mods_from_mask(MASK_CTRL | MASK_ALT);
    assert!(m.ctrl && m.command && m.alt && !m.shift && !m.mac_cmd);
    let m2 = mods_from_mask(0);
    assert!(!m2.ctrl && !m2.command && !m2.alt && !m2.shift && !m2.mac_cmd);
}

#[test]
fn keycode_table_spot_checks() {
    assert_eq!(translate_keycode(RawKey::A), Some(Key::A));
    assert_eq!(translate_keycode(RawKey::Kp5), Some(Key::Num5));
    assert_eq!(translate_keycode(RawKey::Num5), Some(Key::Num5));
    assert_eq!(translate_keycode(RawKey::F20), Some(Key::F20));
    assert_eq!(translate_keycode(RawKey::PageDown), Some(Key::PageDown));
    assert_eq!(translate_keycode(RawKey::Unknown), None);
}

#[test]
fn events_are_delivered_exactly_once() {
    let mut t = quiet_translator();
    t.handle_event(RawEvent::Char { ch: 'a' });
    t.handle_event(RawEvent::Char { ch: 'b' });
    let snap = t.generate_raw_input();
    assert_eq!(snap.events.len(), 2);
    let snap2 = t.generate_raw_input();
    assert!(snap2.events.is_empty());
}

#[test]
fn other_events_are_ignored() {
    let mut t = quiet_translator();
    t.handle_event(RawEvent::Other);
    let snap = t.generate_raw_input();
    assert!(snap.events.is_empty());
}

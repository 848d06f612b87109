use vstd::prelude::*;
use crate::events::{
    Event, LogicalPos, LogicalRect, Modifiers, RawAction, RawEvent,
    map_mouse_button, mods_from_mask, spec_map_mouse_button, spec_mods_from_mask,
};
use crate::keys::{Key, spec_translate_keycode, translate_keycode};
use crate::host;

verus! {

/// Where clipboard reads and writes go: to the system clipboard, or
/// nowhere. The second choice stands in for an environment whose clipboard
/// always fails, and makes the failure policy testable.
#[derive(Clone, Copy, Debug, PartialEq, Eq, Structural)]
pub enum ClipboardPolicy {
    System,
    Disabled,
}

/// One frame's normalized input state, handed to the GUI library exactly
/// once. The screen rectangle is present only immediately after a resize
/// (or at startup); the host layer adds the predicted frame duration when
/// it converts this snapshot to the GUI library's own input type.
#[derive(Clone, Debug, PartialEq, Eq)]
pub struct RawInput {
    pub screen_rect: Option<LogicalRect>,
    pub pixels_per_point: u32,
    pub modifiers: Modifiers,
    pub max_texture_side: usize,
    pub time_ms: u64,
    pub events: Vec<Event>,
}

/// Is this key press, under these modifiers, the paste shortcut (which
/// queries the clipboard) rather than a directly emitted event?
pub open spec fn is_paste_query(m: Modifiers, k: Key, pressed: bool) -> bool {
    pressed && m.spec_command_only() && k == Key::V
}

/// The events a resolved key emits, for every case except the paste
/// shortcut (whose outcome the clipboard decides): with exactly the
/// command-equivalent modifier active, a pressed X emits one cut signal and
/// a pressed C one copy signal; everything else emits one generic key
/// event.
pub open spec fn spec_key_events(m: Modifiers, k: Key, pressed: bool) -> Seq<Event> {
    if pressed && m.spec_command_only() && k == Key::X {
        seq![Event::Cut]
    } else if pressed && m.spec_command_only() && k == Key::C {
        seq![Event::Copy]
    } else if pressed && m.spec_command_only() && k == Key::V {
        Seq::empty()
    } else {
        seq![Event::Key { key: k, pressed, modifiers: m }]
    }
}

/// Law: a pressed C with exactly the command-equivalent modifier active
/// emits exactly one copy signal and no generic key event; with shift also
/// held, it emits exactly one generic key event instead.
pub proof fn lemma_copy_shortcut(m: Modifiers)
    ensures
        m.spec_command_only() ==> spec_key_events(m, Key::C, true) =~= seq![Event::Copy],
        m.command && m.shift ==> spec_key_events(m, Key::C, true) =~= seq![
            Event::Key { key: Key::C, pressed: true, modifiers: m },
        ],
{
}

/// The event translator: turns raw window events into the GUI library's
/// normalized event queue, tracking modifier state, pointer position,
/// screen geometry and the time base, and mediating clipboard shortcuts.
pub struct EguiManager {
    screen_rect: Option<LogicalRect>,
    screen_dimensions: (u32, u32),
    events: Vec<Event>,
    max_texture_side: usize,
    modifiers: Modifiers,
    pixels_per_point: u32,
    start_time: std::time::Instant,
    last_known_cursor_position: LogicalPos,
    clipboard: ClipboardPolicy,
}

impl EguiManager {
    /// The queue of normalized events pending for the next snapshot.
    pub closed spec fn pending_events(self) -> Seq<Event> {
        self.events@
    }

    /// The one-shot screen rectangle pending for the next snapshot.
    pub closed spec fn pending_rect(self) -> Option<LogicalRect> {
        self.screen_rect
    }

    /// The current modifier state.
    pub closed spec fn mods(self) -> Modifiers {
        self.modifiers
    }

    /// The last known pointer position, in logical units.
    pub closed spec fn last_pos(self) -> LogicalPos {
        self.last_known_cursor_position
    }

    /// The cached physical screen size in pixels.
    pub closed spec fn dims(self) -> (u32, u32) {
        self.screen_dimensions
    }

    /// The device-pixel-ratio encoding the translator was given.
    pub closed spec fn ppr_bits(self) -> u32 {
        self.pixels_per_point
    }

    /// The maximum supported texture dimension reported in snapshots.
    pub closed spec fn max_tex_side(self) -> usize {
        self.max_texture_side
    }

    /// Whether clipboard access is routed nowhere (the always-failing
    /// clipboard).
    pub closed spec fn clipboard_disabled(self) -> bool {
        self.clipboard == ClipboardPolicy::Disabled
    }

    /// The translator's invariant: the modifier state always keeps command
    /// mirroring ctrl.
    pub open spec fn wf(self) -> bool {
        self.mods().mirrors_ctrl()
    }

    /// The state this translator reaches when a resize event for the given
    /// physical size and host-computed logical rectangle is handled.
    pub closed spec fn with_resize(self, width_px: u32, height_px: u32, logical: LogicalRect) -> Self {
        EguiManager {
            screen_rect: Some(logical),
            screen_dimensions: (width_px, height_px),
            ..self
        }
    }

    /// Whether the pending queue and rectangle are drained, as they are
    /// right after a snapshot.
    pub open spec fn drained(self) -> bool {
        self.pending_events() =~= Seq::<Event>::empty() && self.pending_rect() is None
    }

    /// Builds a translator for a window of the given physical size, with
    /// its startup screen rectangle pending, reading the system clipboard.
    pub fn new(
        window_width_px: u32,
        window_height_px: u32,
        logical: LogicalRect,
        pixels_per_point: u32,
        max_texture_side: usize,
    ) -> (r: Self)
        ensures
            r.wf(),
            r.pending_rect() == Some(logical),
            r.dims() == (window_width_px, window_height_px),
            r.pending_events() =~= Seq::<Event>::empty(),
            r.mods() == (Modifiers { alt: false, ctrl: false, shift: false, mac_cmd: false, command: false }),
            r.ppr_bits() == pixels_per_point,
            r.max_tex_side() == max_texture_side,
            r.last_pos() == (LogicalPos { x_bits: 0, y_bits: 0 }),
            !r.clipboard_disabled(),
    {
        Self::with_clipboard_policy(
            window_width_px,
            window_height_px,
            logical,
            pixels_per_point,
            max_texture_side,
            ClipboardPolicy::System,
        )
    }

    /// Builds a translator with an explicit clipboard policy; `Disabled`
    /// simulates an environment whose clipboard always fails.
    pub fn with_clipboard_policy(
        window_width_px: u32,
        window_height_px: u32,
        logical: LogicalRect,
        pixels_per_point: u32,
        max_texture_side: usize,
        clipboard: ClipboardPolicy,
    ) -> (r: Self)
        ensures
            r.wf(),
            r.pending_rect() == Some(logical),
            r.dims() == (window_width_px, window_height_px),
            r.pending_events() =~= Seq::<Event>::empty(),
            r.mods() == (Modifiers { alt: false, ctrl: false, shift: false, mac_cmd: false, command: false }),
            r.ppr_bits() == pixels_per_point,
            r.max_tex_side() == max_texture_side,
            r.last_pos() == (LogicalPos { x_bits: 0, y_bits: 0 }),
            r.clipboard_disabled() == (clipboard == ClipboardPolicy::Disabled),
    {
        EguiManager {
            screen_rect: Some(logical),
            screen_dimensions: (window_width_px, window_height_px),
            events: Vec::new(),
            max_texture_side,
            modifiers: Modifiers {
                alt: false,
                ctrl: false,
                shift: false,
                mac_cmd: false,
                command: false,
            },
            pixels_per_point,
            start_time: host::instant_now(),
            last_known_cursor_position: LogicalPos { x_bits: 0, y_bits: 0 },
            clipboard,
        }
    }

    /// The device-pixel-ratio encoding this translator was given.
    pub fn pixels_per_point(&self) -> (r: u32)
        ensures
            r == self.ppr_bits(),
    {
        self.pixels_per_point
    }

    /// The cached physical screen size in pixels.
    pub fn screen_dimensions(&self) -> (r: (u32, u32))
        ensures
            r == self.dims(),
    {
        self.screen_dimensions
    }

    /// The event translator's transition relation: exactly how one raw
    /// window event changes the state and what it appends to the pending
    /// queue, per event kind. Only the paste shortcut is environment
    /// dependent: the clipboard either yields text (one paste event) or it
    /// does not (no event), and a disabled clipboard never yields text.
    pub open spec fn handles(pre: Self, post: Self, event: RawEvent) -> bool {
        &&& post.ppr_bits() == pre.ppr_bits()
        &&& post.max_tex_side() == pre.max_tex_side()
        &&& post.clipboard_disabled() == pre.clipboard_disabled()
        &&& (pre.wf() ==> post.wf())
        &&& match event {
            RawEvent::FramebufferSize { width_px, height_px, logical } => {
                &&& post == pre.with_resize(width_px, height_px, logical)
                &&& post.pending_rect() == Some(logical)
                &&& post.dims() == (width_px, height_px)
                &&& post.pending_events() == pre.pending_events()
                &&& post.mods() == pre.mods()
                &&& post.last_pos() == pre.last_pos()
            },
            RawEvent::CursorPos { pos } => {
                &&& post.last_pos() == pos
                &&& post.pending_events() == pre.pending_events().push(
                    Event::PointerMoved { pos },
                )
                &&& post.mods() == pre.mods()
                &&& post.pending_rect() == pre.pending_rect()
                &&& post.dims() == pre.dims()
            },
            RawEvent::MouseButton { button, action, mods_mask } => {
                let m = spec_mods_from_mask(mods_mask);
                &&& post.mods() == m
                &&& (action == RawAction::Repeat ==> post.pending_events()
                    == pre.pending_events())
                &&& (action != RawAction::Repeat ==> post.pending_events()
                    == pre.pending_events().push(Event::PointerButton {
                        pos: pre.last_pos(),
                        button: spec_map_mouse_button(button),
                        pressed: action == RawAction::Press,
                        modifiers: m,
                    }))
                &&& post.last_pos() == pre.last_pos()
                &&& post.pending_rect() == pre.pending_rect()
                &&& post.dims() == pre.dims()
            },
            RawEvent::Scroll { delta } => {
                &&& post.pending_events() == pre.pending_events().push(
                    Event::Scroll { delta },
                )
                &&& post.mods() == pre.mods()
                &&& post.last_pos() == pre.last_pos()
                &&& post.pending_rect() == pre.pending_rect()
                &&& post.dims() == pre.dims()
            },
            RawEvent::Char { ch } => {
                &&& post.pending_events() == pre.pending_events().push(
                    Event::Text { ch },
                )
                &&& post.mods() == pre.mods()
                &&& post.last_pos() == pre.last_pos()
                &&& post.pending_rect() == pre.pending_rect()
                &&& post.dims() == pre.dims()
            },
            RawEvent::Key { key, action, mods_mask } => {
                let m = spec_mods_from_mask(mods_mask);
                let pressed = action != RawAction::Release;
                &&& post.mods() == m
                &&& post.last_pos() == pre.last_pos()
                &&& post.pending_rect() == pre.pending_rect()
                &&& post.dims() == pre.dims()
                &&& match spec_translate_keycode(key) {
                    Option::None => post.pending_events() == pre.pending_events(),
                    Option::Some(k) => {
                        if is_paste_query(m, k, pressed) {
                            &&& (pre.clipboard_disabled() ==> post.pending_events()
                                == pre.pending_events())
                            &&& (post.pending_events() == pre.pending_events()
                                || exists|s: String| post.pending_events()
                                    == pre.pending_events().push(
                                        Event::Paste { contents: s },
                                    ))
                        } else {
                            post.pending_events() == pre.pending_events()
                                + spec_key_events(m, k, pressed)
                        }
                    },
                }
            },
            RawEvent::Other => {
                &&& post.pending_events() == pre.pending_events()
                &&& post.mods() == pre.mods()
                &&& post.last_pos() == pre.last_pos()
                &&& post.pending_rect() == pre.pending_rect()
                &&& post.dims() == pre.dims()
            },
        }
    }

    /// Consumes one raw window event: updates modifier, pointer and screen
    /// state and appends zero or more normalized events to the pending
    /// queue, following the per-event-kind rules of the transition
    /// relation exactly.
    pub fn handle_event(&mut self, event: RawEvent)
        ensures
            Self::handles(*old(self), *final(self), event),
    {
        match event {
            RawEvent::FramebufferSize { width_px, height_px, logical } => {
                self.screen_dimensions = (width_px, height_px);
                self.screen_rect = Some(logical);
            },
            RawEvent::CursorPos { pos } => {
                self.last_known_cursor_position = pos;
                self.events.push(Event::PointerMoved { pos });
            },
            RawEvent::MouseButton { button, action, mods_mask } => {
                self.modifiers = mods_from_mask(mods_mask);
                let mapped = map_mouse_button(button);
                let pressed: bool = match action {
                    RawAction::Press => true,
                    RawAction::Release => false,
                    RawAction::Repeat => {
                        return;
                    },
                };
                self.events.push(Event::PointerButton {
                    pos: self.last_known_cursor_position,
                    button: mapped,
                    pressed,
                    modifiers: self.modifiers,
                });
            },
            RawEvent::Scroll { delta } => {
                self.events.push(Event::Scroll { delta });
            },
            RawEvent::Char { ch } => {
                self.events.push(Event::Text { ch });
            },
            RawEvent::Key { key, action, mods_mask } => {
                self.modifiers = mods_from_mask(mods_mask);
                let pressed = !matches!(action, RawAction::Release);
                let k = match translate_keycode(key) {
                    Option::Some(k) => k,
                    Option::None => {
                        return;
                    },
                };
                if pressed && self.modifiers.command_only() && k == Key::X {
                    self.events.push(Event::Cut);
                } else if pressed && self.modifiers.command_only() && k == Key::C {
                    self.events.push(Event::Copy);
                } else if pressed && self.modifiers.command_only() && k == Key::V {
                    let contents = match self.clipboard {
                        ClipboardPolicy::System => host::clipboard_get(),
                        ClipboardPolicy::Disabled => Option::None,
                    };
                    match contents {
                        Option::Some(s) => {
                            let ghost s0 = s;
                            self.events.push(Event::Paste { contents: s });
                            proof {
                                assert(self.pending_events() == old(self).pending_events().push(
                                    Event::Paste { contents: s0 },
                                ));
                            }
                        },
                        Option::None => {},
                    }
                } else {
                    self.events.push(Event::Key { key: k, pressed, modifiers: self.modifiers });
                }
                proof {
                    let m = spec_mods_from_mask(mods_mask);
                    if !is_paste_query(m, k, pressed) {
                        assert(self.pending_events() =~= old(self).pending_events()
                            + spec_key_events(m, k, pressed));
                    }
                }
            },
            RawEvent::Other => {},
        }
    }

    /// Changes the device-pixel-ratio encoding reported in snapshots.
    pub fn set_pixels_per_point(&mut self, pixels_per_point: u32)
        ensures
            final(self).ppr_bits() == pixels_per_point,
            final(self).pending_events() == old(self).pending_events(),
            final(self).pending_rect() == old(self).pending_rect(),
            final(self).mods() == old(self).mods(),
            final(self).last_pos() == old(self).last_pos(),
            final(self).dims() == old(self).dims(),
            final(self).max_tex_side() == old(self).max_tex_side(),
            final(self).clipboard_disabled() == old(self).clipboard_disabled(),
            old(self).wf() ==> final(self).wf(),
    {
        self.pixels_per_point = pixels_per_point;
    }

    /// The snapshot relation: what a generated snapshot carries (exactly
    /// the pending events and one-shot rectangle, plus the current
    /// modifier state and static parameters) and what it leaves behind (a
    /// drained translator, everything else unchanged). The time stamp is
    /// whatever the monotonic clock reported, so nothing is stated of it.
    pub open spec fn snapped(pre: Self, post: Self, r: RawInput) -> bool {
        &&& r.screen_rect == pre.pending_rect()
        &&& r.events@ == pre.pending_events()
        &&& r.modifiers == pre.mods()
        &&& r.pixels_per_point == pre.ppr_bits()
        &&& r.max_texture_side == pre.max_tex_side()
        &&& post.drained()
        &&& post.mods() == pre.mods()
        &&& post.last_pos() == pre.last_pos()
        &&& post.dims() == pre.dims()
        &&& post.ppr_bits() == pre.ppr_bits()
        &&& post.max_tex_side() == pre.max_tex_side()
        &&& post.clipboard_disabled() == pre.clipboard_disabled()
        &&& (pre.wf() ==> post.wf())
    }

    /// Produces the frame's input snapshot and drains the pending event
    /// queue and the one-shot screen rectangle.
    pub fn generate_raw_input(&mut self) -> (r: RawInput)
        ensures
            Self::snapped(*old(self), *final(self), r),
    {
        let screen_rect = self.screen_rect;
        self.screen_rect = Option::None;
        let mut events: Vec<Event> = Vec::new();
        core::mem::swap(&mut events, &mut self.events);
        RawInput {
            screen_rect,
            pixels_per_point: self.pixels_per_point,
            modifiers: self.modifiers,
            max_texture_side: self.max_texture_side,
            time_ms: host::millis_since(&self.start_time),
            events,
        }
    }
}

/// Law: a snapshot taken from a drained translator (the state any snapshot
/// leaves behind) carries no events and no screen rectangle, so two
/// snapshots in a row with no intervening events yield an empty event
/// sequence and no rectangle on the second call.
pub proof fn lemma_second_snapshot_empty(m: EguiManager)
    requires
        m.drained(),
    ensures
        m.pending_events().len() == 0,
        m.pending_rect() is None,
{
}

/// Law: a resize leaves exactly its rectangle pending, so the snapshot
/// that follows carries `Some` of it; and since every snapshot leaves the
/// translator drained, a second snapshot with no intervening resize
/// carries no rectangle.
pub proof fn lemma_resize_then_snapshot(m: EguiManager, w: u32, h: u32, logical: LogicalRect)
    ensures
        m.with_resize(w, h, logical).pending_rect() == Some(logical),
        m.with_resize(w, h, logical).dims() == (w, h),
        forall|s: EguiManager| s.drained() ==> s.pending_rect() is None,
{
}

} // verus!

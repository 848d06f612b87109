use vstd::prelude::*;

pub mod events;
pub mod host;
pub mod input;
pub mod keys;
pub mod output;

use events::RawEvent;
use events::LogicalRect;
use input::ClipboardPolicy;
use input::RawInput;
use output::ClippedPrimitive;
use output::GpuCommand;
use output::ImageData;
use output::ImageDelta;
use output::PaintError;
use output::Painter;
use output::TexId;
use output::TexturesDelta;
use output::spec_apply_sets;

verus! {

/// Kind of filtering applied when a texture is sampled; fixed when the
/// texture is created and never changed afterwards.
#[derive(Clone, Copy, Debug, PartialEq, Eq, Structural)]
pub enum TexFilter {
    Nearest,
    Linear,
}

/// A cursor icon requested by the GUI library, reduced to the shapes this
/// backend distinguishes; every other icon arrives as `Other`.
#[derive(Clone, Copy, Debug, PartialEq, Eq, Structural)]
pub enum CursorIcon {
    Default,
    PointingHand,
    ResizeHorizontal,
    ResizeVertical,
    ResizeNeSw,
    ResizeNwSe,
    Text,
    Crosshair,
    Grab,
    Grabbing,
    NotAllowed,
    NoDrop,
    Wait,
    Other,
}

/// A cursor shape in the window system's fixed enumeration.
#[derive(Clone, Copy, Debug, PartialEq, Eq, Structural)]
pub enum StandardCursor {
    Arrow,
    IBeam,
    Crosshair,
    Hand,
    HResize,
    VResize,
}

/// The static cursor table: which window-system cursor shape each
/// requested icon maps to. The window system has no dedicated diagonal
/// resize shapes, so the two diagonal icons fall back to the axis-aligned
/// ones; unsupported icons fall back to the arrow.
pub open spec fn spec_translate_cursor(cursor_icon: CursorIcon) -> StandardCursor {
    match cursor_icon {
        CursorIcon::Default => StandardCursor::Arrow,
        CursorIcon::PointingHand => StandardCursor::Hand,
        CursorIcon::ResizeHorizontal => StandardCursor::HResize,
        CursorIcon::ResizeVertical => StandardCursor::VResize,
        CursorIcon::ResizeNeSw => StandardCursor::HResize,
        CursorIcon::ResizeNwSe => StandardCursor::VResize,
        CursorIcon::Text => StandardCursor::IBeam,
        CursorIcon::Crosshair => StandardCursor::Crosshair,
        CursorIcon::Grab => StandardCursor::Hand,
        CursorIcon::Grabbing => StandardCursor::Hand,
        CursorIcon::NotAllowed => StandardCursor::Arrow,
        CursorIcon::NoDrop => StandardCursor::Arrow,
        CursorIcon::Wait => StandardCursor::Arrow,
        CursorIcon::Other => StandardCursor::Arrow,
    }
}

/// Maps a requested cursor icon through the static cursor table.
pub fn translate_cursor(cursor_icon: CursorIcon) -> (r: StandardCursor)
    ensures
        r == spec_translate_cursor(cursor_icon),
{
    match cursor_icon {
        CursorIcon::Default => StandardCursor::Arrow,
        CursorIcon::PointingHand => StandardCursor::Hand,
        CursorIcon::ResizeHorizontal => StandardCursor::HResize,
        CursorIcon::ResizeVertical => StandardCursor::VResize,
        CursorIcon::ResizeNeSw => StandardCursor::HResize,
        CursorIcon::ResizeNwSe => StandardCursor::VResize,
        CursorIcon::Text => StandardCursor::IBeam,
        CursorIcon::Crosshair => StandardCursor::Crosshair,
        CursorIcon::Grab => StandardCursor::Hand,
        CursorIcon::Grabbing => StandardCursor::Hand,
        CursorIcon::NotAllowed => StandardCursor::Arrow,
        CursorIcon::NoDrop => StandardCursor::Arrow,
        CursorIcon::Wait => StandardCursor::Arrow,
        CursorIcon::Other => StandardCursor::Arrow,
    }
}

/// The orchestrator: wires window events to the event translator, frame
/// output to the paint submitter, and platform output (cursor shape,
/// clipboard copy) back to the host environment, suppressing redundant
/// cursor changes.
pub struct EguiManager {
    window_dimensions_px: (u32, u32),
    pixels_per_point: u32,
    clipboard: ClipboardPolicy,
    input_handler: input::EguiManager,
    painter: Painter,
    current_cursor: StandardCursor,
    next_user_texture_id: u64,
}

impl EguiManager {
    /// The embedded event translator.
    pub closed spec fn translator(self) -> input::EguiManager {
        self.input_handler
    }

    /// The embedded paint submitter.
    pub closed spec fn painter_state(self) -> Painter {
        self.painter
    }

    /// The cached physical window size in pixels.
    pub closed spec fn dims(self) -> (u32, u32) {
        self.window_dimensions_px
    }

    /// The device-pixel-ratio encoding.
    pub closed spec fn ppr_bits(self) -> u32 {
        self.pixels_per_point
    }

    /// The cursor shape currently applied to the window.
    pub closed spec fn cursor(self) -> StandardCursor {
        self.current_cursor
    }

    /// The next identifier handed out for a user texture.
    pub closed spec fn next_user_id(self) -> u64 {
        self.next_user_texture_id
    }

    /// Whether clipboard writes are routed nowhere.
    pub closed spec fn clipboard_disabled(self) -> bool {
        self.clipboard == ClipboardPolicy::Disabled
    }

    /// The orchestrator's invariant: both engines keep their own.
    pub open spec fn wf(self) -> bool {
        self.translator().wf() && self.painter_state().wf()
    }

    /// Builds the backend for a window of the given physical size, with
    /// an empty texture cache, the arrow cursor applied, and the system
    /// clipboard.
    pub fn new(
        window_dimensions_px: (u32, u32),
        logical: LogicalRect,
        pixels_per_point: u32,
        max_texture_side: usize,
    ) -> (r: Self)
        ensures
            r.wf(),
            r.dims() == window_dimensions_px,
            r.ppr_bits() == pixels_per_point,
            r.cursor() == StandardCursor::Arrow,
            r.translator().pending_rect() == Some(logical),
            r.translator().pending_events() =~= Seq::<events::Event>::empty(),
            r.translator().ppr_bits() == pixels_per_point,
            r.translator().max_tex_side() == max_texture_side,
            !r.translator().clipboard_disabled(),
            !r.clipboard_disabled(),
            r.painter_state().cache() =~= Map::<TexId, TexFilter>::empty(),
            r.next_user_id() == 0,
    {
        Self::with_clipboard_policy(
            window_dimensions_px,
            logical,
            pixels_per_point,
            max_texture_side,
            ClipboardPolicy::System,
        )
    }

    /// Builds the backend with an explicit clipboard policy; `Disabled`
    /// simulates an environment whose clipboard always fails.
    pub fn with_clipboard_policy(
        window_dimensions_px: (u32, u32),
        logical: LogicalRect,
        pixels_per_point: u32,
        max_texture_side: usize,
        clipboard: ClipboardPolicy,
    ) -> (r: Self)
        ensures
            r.wf(),
            r.dims() == window_dimensions_px,
            r.ppr_bits() == pixels_per_point,
            r.cursor() == StandardCursor::Arrow,
            r.translator().pending_rect() == Some(logical),
            r.translator().pending_events() =~= Seq::<events::Event>::empty(),
            r.translator().ppr_bits() == pixels_per_point,
            r.translator().max_tex_side() == max_texture_side,
            r.translator().clipboard_disabled() == (clipboard == ClipboardPolicy::Disabled),
            r.clipboard_disabled() == (clipboard == ClipboardPolicy::Disabled),
            r.painter_state().cache() =~= Map::<TexId, TexFilter>::empty(),
            r.next_user_id() == 0,
    {
        let input_handler = input::EguiManager::with_clipboard_policy(
            window_dimensions_px.0,
            window_dimensions_px.1,
            logical,
            pixels_per_point,
            max_texture_side,
            clipboard,
        );
        let painter = Painter::new();
        EguiManager {
            window_dimensions_px,
            pixels_per_point,
            clipboard,
            input_handler,
            painter,
            current_cursor: StandardCursor::Arrow,
            next_user_texture_id: 0,
        }
    }

    /// Forwards one raw window event: a resize additionally refreshes the
    /// cached physical window size used for painting; the event
    /// translator steps by its transition relation either way.
    pub fn handle_window_event(&mut self, event: RawEvent)
        ensures
            input::EguiManager::handles(old(self).translator(), final(self).translator(), event),
            final(self).dims() == match event {
                RawEvent::FramebufferSize { width_px, height_px, .. } => (width_px, height_px),
                _ => old(self).dims(),
            },
            final(self).ppr_bits() == old(self).ppr_bits(),
            final(self).painter_state() == old(self).painter_state(),
            final(self).cursor() == old(self).cursor(),
            final(self).next_user_id() == old(self).next_user_id(),
            final(self).clipboard_disabled() == old(self).clipboard_disabled(),
            old(self).wf() ==> final(self).wf(),
    {
        match event {
            RawEvent::FramebufferSize { width_px, height_px, .. } => {
                self.window_dimensions_px = (width_px, height_px);
            },
            _ => {},
        }
        self.input_handler.handle_event(event);
    }

    /// Produces the frame's input snapshot, draining the pending events
    /// and the one-shot screen rectangle.
    pub fn generate_raw_input(&mut self) -> (r: RawInput)
        ensures
            input::EguiManager::snapped(old(self).translator(), final(self).translator(), r),
            final(self).dims() == old(self).dims(),
            final(self).ppr_bits() == old(self).ppr_bits(),
            final(self).painter_state() == old(self).painter_state(),
            final(self).cursor() == old(self).cursor(),
            final(self).next_user_id() == old(self).next_user_id(),
            final(self).clipboard_disabled() == old(self).clipboard_disabled(),
            old(self).wf() ==> final(self).wf(),
    {
        self.input_handler.generate_raw_input()
    }

    /// Changes the device-pixel-ratio encoding used for future snapshots.
    pub fn set_pixels_per_point(&mut self, pixels_per_point: u32)
        ensures
            final(self).ppr_bits() == pixels_per_point,
            final(self).translator().ppr_bits() == pixels_per_point,
            final(self).translator().pending_events() == old(self).translator().pending_events(),
            final(self).translator().pending_rect() == old(self).translator().pending_rect(),
            final(self).translator().mods() == old(self).translator().mods(),
            final(self).translator().last_pos() == old(self).translator().last_pos(),
            final(self).translator().dims() == old(self).translator().dims(),
            final(self).translator().max_tex_side() == old(self).translator().max_tex_side(),
            final(self).translator().clipboard_disabled() == old(
                self,
            ).translator().clipboard_disabled(),
            final(self).dims() == old(self).dims(),
            final(self).painter_state() == old(self).painter_state(),
            final(self).cursor() == old(self).cursor(),
            final(self).next_user_id() == old(self).next_user_id(),
            final(self).clipboard_disabled() == old(self).clipboard_disabled(),
            old(self).wf() ==> final(self).wf(),
    {
        self.pixels_per_point = pixels_per_point;
        self.input_handler.set_pixels_per_point(pixels_per_point);
    }

    /// Submits one frame's GUI output for painting against the cached
    /// window size, per the paint-submission relation.
    pub fn render(
        &mut self,
        textures_delta: TexturesDelta,
        clipped_primitives: Vec<ClippedPrimitive>,
    ) -> (r: Result<Vec<GpuCommand>, PaintError>)
        requires
            old(self).wf(),
        ensures
            final(self).wf(),
            Painter::framed(
                old(self).painter_state(),
                final(self).painter_state(),
                textures_delta,
                clipped_primitives@,
                old(self).dims(),
                r,
            ),
            final(self).translator() == old(self).translator(),
            final(self).dims() == old(self).dims(),
            final(self).ppr_bits() == old(self).ppr_bits(),
            final(self).cursor() == old(self).cursor(),
            final(self).next_user_id() == old(self).next_user_id(),
            final(self).clipboard_disabled() == old(self).clipboard_disabled(),
    {
        self.painter.handle_full_output(
            textures_delta,
            clipped_primitives,
            self.window_dimensions_px,
        )
    }

    /// Applies the GUI library's platform output: maps the requested
    /// cursor icon through the static table, returning the shape the host
    /// must now apply only when it differs from the current one
    /// (identical requests are suppressed); and forwards non-empty copied
    /// text to the clipboard, swallowing any write failure.
    pub fn handle_platform_output(
        &mut self,
        cursor_icon: CursorIcon,
        copied_text: String,
    ) -> (r: Option<StandardCursor>)
        ensures
            final(self).cursor() == spec_translate_cursor(cursor_icon),
            r == (if spec_translate_cursor(cursor_icon) != old(self).cursor() {
                Some(spec_translate_cursor(cursor_icon))
            } else {
                Option::<StandardCursor>::None
            }),
            final(self).translator() == old(self).translator(),
            final(self).painter_state() == old(self).painter_state(),
            final(self).dims() == old(self).dims(),
            final(self).ppr_bits() == old(self).ppr_bits(),
            final(self).next_user_id() == old(self).next_user_id(),
            final(self).clipboard_disabled() == old(self).clipboard_disabled(),
            old(self).wf() ==> final(self).wf(),
    {
        let cursor = translate_cursor(cursor_icon);
        let r: Option<StandardCursor> = if cursor != self.current_cursor {
            self.current_cursor = cursor;
            Some(cursor)
        } else {
            Option::None
        };
        if !copied_text.as_str().is_empty() {
            match self.clipboard {
                ClipboardPolicy::System => {
                    let _ok = host::clipboard_set(copied_text);
                },
                ClipboardPolicy::Disabled => {},
            }
        }
        r
    }

    /// The next identifier that a user texture would get; user texture
    /// creation asks that this has not reached the id space's end.
    pub fn next_user_id_value(&self) -> (r: u64)
        ensures
            r == self.next_user_id(),
    {
        self.next_user_texture_id
    }

    /// Creates a texture outside the GUI library's managed set: allocates
    /// the next user texture id and applies a full-image set operation
    /// for it, handing back the id and the GPU commands to execute.
    pub fn new_user_texture(
        &mut self,
        width: usize,
        height: usize,
        filtering: TexFilter,
        pixels: Vec<u32>,
    ) -> (r: Result<(TexId, Vec<GpuCommand>), PaintError>)
        requires
            old(self).wf(),
            old(self).next_user_id() < u64::MAX,
        ensures
            final(self).wf(),
            final(self).next_user_id() == old(self).next_user_id() + 1,
            final(self).translator() == old(self).translator(),
            final(self).dims() == old(self).dims(),
            final(self).cursor() == old(self).cursor(),
            ({
                let op = (
                    TexId::User(old(self).next_user_id()),
                    ImageDelta {
                        image: ImageData { width, height, pixels },
                        filter: filtering,
                        pos: Option::None,
                    },
                );
                match spec_apply_sets(old(self).painter_state().cache(), seq![op]) {
                    Ok(mid) => {
                        &&& (r matches Ok(p) && p.0 == TexId::User(old(self).next_user_id())
                            && p.1@ == mid.1)
                        &&& final(self).painter_state().cache() =~= mid.0
                    },
                    Err(e) => r matches Err(e2) && e2 == e,
                }
            }),
    {
        let id = TexId::User(self.next_user_texture_id);
        self.next_user_texture_id = self.next_user_texture_id + 1;
        let mut ops: Vec<(TexId, ImageDelta)> = Vec::new();
        ops.push((
            id,
            ImageDelta {
                image: ImageData { width, height, pixels },
                filter: filtering,
                pos: Option::None,
            },
        ));
        proof {
            assert(ops@ =~= seq![
                (
                    TexId::User(old(self).next_user_id()),
                    ImageDelta {
                        image: ImageData { width, height, pixels },
                        filter: filtering,
                        pos: Option::None,
                    },
                ),
            ]);
        }
        let mut out: Vec<GpuCommand> = Vec::new();
        match self.painter.set_textures(ops, &mut out) {
            Ok(()) => Ok((id, out)),
            Err(e) => Err(e),
        }
    }

    /// Applies a sub-region patch to a user texture, handing back the GPU
    /// commands to execute; the id must name a live texture.
    pub fn update_user_texture_subregion(
        &mut self,
        texture_id: &TexId,
        start_position: (usize, usize),
        width: usize,
        height: usize,
        pixels: Vec<u32>,
    ) -> (r: Result<Vec<GpuCommand>, PaintError>)
        requires
            old(self).wf(),
        ensures
            final(self).wf(),
            final(self).next_user_id() == old(self).next_user_id(),
            final(self).translator() == old(self).translator(),
            final(self).dims() == old(self).dims(),
            final(self).cursor() == old(self).cursor(),
            ({
                let op = (
                    *texture_id,
                    ImageDelta {
                        image: ImageData { width, height, pixels },
                        filter: TexFilter::Nearest,
                        pos: Some(start_position),
                    },
                );
                match spec_apply_sets(old(self).painter_state().cache(), seq![op]) {
                    Ok(mid) => {
                        &&& (r matches Ok(cmds) && cmds@ == mid.1)
                        &&& final(self).painter_state().cache() =~= mid.0
                    },
                    Err(e) => r matches Err(e2) && e2 == e,
                }
            }),
    {
        let mut ops: Vec<(TexId, ImageDelta)> = Vec::new();
        ops.push((
            *texture_id,
            ImageDelta {
                image: ImageData { width, height, pixels },
                filter: TexFilter::Nearest,
                pos: Some(start_position),
            },
        ));
        proof {
            assert(ops@ =~= seq![
                (
                    *texture_id,
                    ImageDelta {
                        image: ImageData { width, height, pixels },
                        filter: TexFilter::Nearest,
                        pos: Some(start_position),
                    },
                ),
            ]);
        }
        let mut out: Vec<GpuCommand> = Vec::new();
        match self.painter.set_textures(ops, &mut out) {
            Ok(()) => Ok(out),
            Err(e) => Err(e),
        }
    }
}

} // verus!

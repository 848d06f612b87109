use egui_backend::events::{Event, LogicalRect, RawEvent};
use egui_backend::input::ClipboardPolicy;
use egui_backend::output::{ClipRect, ClippedPrimitive, GpuCommand, Mesh, PaintError, TexId, TexturesDelta, Vertex};
use egui_backend::{CursorIcon, EguiManager, StandardCursor, TexFilter, translate_cursor};

fn rect(w: u32, h: u32) -> LogicalRect {
    LogicalRect { width_bits: w, height_bits: h }
}

fn backend() -> EguiManager {
    EguiManager::with_clipboard_policy((800, 600), rect(400, 300), 2, 4096, ClipboardPolicy::Disabled)
}

#[test]
fn cursor_table_spot_checks() {
    assert_eq!(translate_cursor(CursorIcon::Default), StandardCursor::Arrow);
    assert_eq!(translate_cursor(CursorIcon::PointingHand), StandardCursor::Hand);
    assert_eq!(translate_cursor(CursorIcon::Text), StandardCursor::IBeam);
    assert_eq!(translate_cursor(CursorIcon::Crosshair), StandardCursor::Crosshair);
    assert_eq!(translate_cursor(CursorIcon::ResizeHorizontal), StandardCursor::HResize);
    assert_eq!(translate_cursor(CursorIcon::ResizeNeSw), StandardCursor::HResize);
    assert_eq!(translate_cursor(CursorIcon::ResizeNwSe), StandardCursor::VResize);
    assert_eq!(translate_cursor(CursorIcon::Grabbing), StandardCursor::Hand);
    assert_eq!(translate_cursor(CursorIcon::Wait), StandardCursor::Arrow);
    assert_eq!(translate_cursor(CursorIcon::Other), StandardCursor::Arrow);
}

#[test]
fn identical_cursor_requests_are_suppressed() {
    let mut b = backend();
    let r1 = b.handle_platform_output(CursorIcon::PointingHand, String::new());
    assert_eq!(r1, Some(StandardCursor::Hand));
    let r2 = b.handle_platform_output(CursorIcon::PointingHand, String::new());
    assert_eq!(r2, None);
    let r3 = b.handle_platform_output(CursorIcon::Grab, String::new());
    assert_eq!(r3, None); // Grab also maps to Hand, so nothing changes
    let r4 = b.handle_platform_output(CursorIcon::Text, String::new());
    assert_eq!(r4, Some(StandardCursor::IBeam));
}

#[test]
fn startup_cursor_is_arrow_so_arrow_request_is_suppressed() {
    let mut b = backend();
    let r = b.handle_platform_output(CursorIcon::Default, String::new());
    assert_eq!(r, None);
}

#[test]
fn copy_failure_is_swallowed() {
    let mut b = backend();
    // the disabled clipboard drops the text; the call must not fail
    let r = b.handle_platform_output(CursorIcon::Default, String::from("copied"));
    assert_eq!(r, None);
}

#[test]
fn facade_forwards_events_and_resize() {
    let mut b = backend();
    let _ = b.generate_raw_input();
    b.handle_window_event(RawEvent::FramebufferSize {
        width_px: 1000,
        height_px: 500,
        logical: rect(500, 250),
    });
    b.handle_window_event(RawEvent::Char { ch: 'z' });
    let snap = b.generate_raw_input();
    assert_eq!(snap.screen_rect, Some(rect(500, 250)));
    assert_eq!(snap.events, vec![Event::Text { ch: 'z' }]);
}

#[test]
fn render_uses_cached_window_size() {
    let mut b = backend();
    let delta = TexturesDelta { set: Vec::new(), free: Vec::new() };
    let cmds = b.render(delta, Vec::new()).unwrap();
    assert_eq!(
        cmds,
        vec![
            GpuCommand::SetViewportUniform { width_px: 800, height_px: 600 },
            GpuCommand::BeginFrameState,
        ]
    );
}

#[test]
fn render_rejects_unknown_texture_reference() {
    let mut b = backend();
    let delta = TexturesDelta { set: Vec::new(), free: Vec::new() };
    let prims = vec![ClippedPrimitive {
        clip_rect: ClipRect { min_x: 0, min_y: 0, max_x: 10, max_y: 10 },
        mesh: Mesh {
            vertices: vec![Vertex { pos_x_bits: 0, pos_y_bits: 0, uv_x_bits: 0, uv_y_bits: 0, srgba: 0 }],
            indices: vec![0, 0, 0],
            texture_id: TexId::Managed(42),
        },
    }];
    let r = b.render(delta, prims);
    assert_eq!(r, Err(PaintError::UnknownTextureInDraw(TexId::Managed(42))));
}

#[test]
fn user_textures_get_fresh_ids() {
    let mut b = backend();
    let (id0, cmds0) = b.new_user_texture(1, 1, TexFilter::Nearest, vec![0xff]).unwrap();
    assert_eq!(id0, TexId::User(0));
    assert_eq!(
        cmds0,
        vec![
            GpuCommand::CreateTexture { id: id0, filter: TexFilter::Nearest },
            GpuCommand::UploadFull { id: id0, width: 1, height: 1, pixels: vec![0xff] },
        ]
    );
    let (id1, _) = b.new_user_texture(1, 1, TexFilter::Linear, vec![0xaa]).unwrap();
    assert_eq!(id1, TexId::User(1));
}

#[test]
fn user_texture_subregion_update() {
    let mut b = backend();
    let (id, _) = b.new_user_texture(2, 2, TexFilter::Nearest, vec![0; 4]).unwrap();
    let cmds = b.update_user_texture_subregion(&id, (1, 0), 1, 1, vec![3]).unwrap();
    assert_eq!(
        cmds,
        vec![GpuCommand::UploadSubregion { id, x: 1, y: 0, width: 1, height: 1, pixels: vec![3] }]
    );
}

#[test]
fn user_texture_subregion_of_unknown_id_fails() {
    let mut b = backend();
    let id = TexId::User(9);
    let r = b.update_user_texture_subregion(&id, (0, 0), 1, 1, vec![1]);
    assert_eq!(r, Err(PaintError::PatchTargetMissing(id)));
}

#[test]
fn set_pixels_per_point_reaches_snapshots() {
    let mut b = backend();
    b.set_pixels_per_point(3);
    let snap = b.generate_raw_input();
    assert_eq!(snap.pixels_per_point, 3);
}

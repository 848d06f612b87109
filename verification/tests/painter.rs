use egui_backend::TexFilter;
use egui_backend::output::{
    ClipRect, ClippedPrimitive, GpuCommand, ImageData, ImageDelta, Mesh, PaintError, Painter,
    TexId, TexturesDelta, Vertex, scissor_for,
};

fn full_image(pixels: Vec<u32>, w: usize, h: usize) -> ImageDelta {
    ImageDelta { image: ImageData { width: w, height: h, pixels }, filter: TexFilter::Linear, pos: None }
}

fn patch_image(pixels: Vec<u32>, w: usize, h: usize, at: (usize, usize)) -> ImageDelta {
    ImageDelta {
        image: ImageData { width: w, height: h, pixels },
        filter: TexFilter::Linear,
        pos: Some(at),
    }
}

fn prim(id: TexId, clip: ClipRect) -> ClippedPrimitive {
    ClippedPrimitive {
        clip_rect: clip,
        mesh: Mesh {
            vertices: vec![Vertex { pos_x_bits: 1, pos_y_bits: 2, uv_x_bits: 3, uv_y_bits: 4, srgba: 5 }],
            indices: vec![0, 0, 0],
            texture_id: id,
        },
    }
}

#[test]
fn create_then_free_leaves_cache_empty_and_releases_handle() {
    let mut p = Painter::new();
    let id = TexId::Managed(7);
    let mut cmds: Vec<GpuCommand> = Vec::new();
    p.set_textures(vec![(id, full_image(vec![1, 2, 3, 4], 2, 2))], &mut cmds).unwrap();
    assert_eq!(p.texture_count(), 1);
    assert!(p.contains_texture(id));
    p.free_textures(vec![id], &mut cmds).unwrap();
    assert_eq!(p.texture_count(), 0);
    assert!(!p.contains_texture(id));
    let deletes: Vec<&GpuCommand> = cmds
        .iter()
        .filter(|c| matches!(c, GpuCommand::DeleteTexture { .. }))
        .collect();
    assert_eq!(deletes.len(), 1);
    assert_eq!(*deletes[0], GpuCommand::DeleteTexture { id });
}

#[test]
fn create_emits_create_then_upload() {
    let mut p = Painter::new();
    let id = TexId::Managed(1);
    let mut cmds: Vec<GpuCommand> = Vec::new();
    p.set_textures(vec![(id, full_image(vec![9, 9], 2, 1))], &mut cmds).unwrap();
    assert_eq!(
        cmds,
        vec![
            GpuCommand::CreateTexture { id, filter: TexFilter::Linear },
            GpuCommand::UploadFull { id, width: 2, height: 1, pixels: vec![9, 9] },
        ]
    );
}

#[test]
fn empty_image_defers_upload() {
    let mut p = Painter::new();
    let id = TexId::Managed(2);
    let mut cmds: Vec<GpuCommand> = Vec::new();
    p.set_textures(vec![(id, full_image(Vec::new(), 0, 0))], &mut cmds).unwrap();
    assert_eq!(cmds, vec![GpuCommand::CreateTexture { id, filter: TexFilter::Linear }]);
    assert!(p.contains_texture(id));
}

#[test]
fn patch_of_missing_texture_fails() {
    let mut p = Painter::new();
    let id = TexId::Managed(3);
    let mut cmds: Vec<GpuCommand> = Vec::new();
    let r = p.set_textures(vec![(id, patch_image(vec![1], 1, 1, (0, 0)))], &mut cmds);
    assert_eq!(r, Err(PaintError::PatchTargetMissing(id)));
}

#[test]
fn duplicate_creation_fails() {
    let mut p = Painter::new();
    let id = TexId::Managed(4);
    let mut cmds: Vec<GpuCommand> = Vec::new();
    p.set_textures(vec![(id, full_image(vec![1], 1, 1))], &mut cmds).unwrap();
    let r = p.set_textures(vec![(id, full_image(vec![2], 1, 1))], &mut cmds);
    assert_eq!(r, Err(PaintError::DuplicateTexture(id)));
}

#[test]
fn free_of_unknown_texture_fails() {
    let mut p = Painter::new();
    let id = TexId::User(5);
    let mut cmds: Vec<GpuCommand> = Vec::new();
    let r = p.free_textures(vec![id], &mut cmds);
    assert_eq!(r, Err(PaintError::FreeOfUnknownTexture(id)));
    assert!(cmds.is_empty());
}

#[test]
fn patch_emits_subregion_upload() {
    let mut p = Painter::new();
    let id = TexId::Managed(6);
    let mut cmds: Vec<GpuCommand> = Vec::new();
    p.set_textures(vec![(id, full_image(vec![0; 4], 2, 2))], &mut cmds).unwrap();
    cmds.clear();
    p.set_textures(vec![(id, patch_image(vec![7], 1, 1, (1, 1)))], &mut cmds).unwrap();
    assert_eq!(
        cmds,
        vec![GpuCommand::UploadSubregion { id, x: 1, y: 1, width: 1, height: 1, pixels: vec![7] }]
    );
}

#[test]
fn paint_referencing_unknown_texture_fails_before_any_draw() {
    let mut p = Painter::new();
    let known = TexId::Managed(1);
    let unknown = TexId::Managed(99);
    let delta = TexturesDelta { set: vec![(known, full_image(vec![1], 1, 1))], free: Vec::new() };
    let clip = ClipRect { min_x: 0, min_y: 0, max_x: 10, max_y: 10 };
    let prims = vec![prim(known, clip), prim(unknown, clip)];
    let r = p.handle_full_output(delta, prims, (100, 100));
    assert_eq!(r, Err(PaintError::UnknownTextureInDraw(unknown)));
}

#[test]
fn frame_commands_come_in_fixed_order() {
    let mut p = Painter::new();
    let id = TexId::Managed(7);
    let delta = TexturesDelta {
        set: vec![(id, full_image(vec![1, 2, 3, 4], 2, 2))],
        free: vec![id],
    };
    let clip = ClipRect { min_x: 5, min_y: 5, max_x: 50, max_y: 40 };
    let prims = vec![prim(id, clip)];
    let cmds = p.handle_full_output(delta, prims, (100, 80)).unwrap();
    assert_eq!(
        cmds,
        vec![
            GpuCommand::CreateTexture { id, filter: TexFilter::Linear },
            GpuCommand::UploadFull { id, width: 2, height: 2, pixels: vec![1, 2, 3, 4] },
            GpuCommand::SetViewportUniform { width_px: 100, height_px: 80 },
            GpuCommand::BeginFrameState,
            GpuCommand::SetScissor { x: 5, y: 5, width: 45, height: 35 },
            GpuCommand::BindTexture { id },
            GpuCommand::DrawMesh {
                vertices: vec![Vertex {
                    pos_x_bits: 1,
                    pos_y_bits: 2,
                    uv_x_bits: 3,
                    uv_y_bits: 4,
                    srgba: 5,
                }],
                indices: vec![0, 0, 0],
            },
            GpuCommand::DeleteTexture { id },
        ]
    );
    assert_eq!(p.texture_count(), 0);
}

#[test]
fn redundant_viewport_update_is_suppressed() {
    let mut p = Painter::new();
    let empty1 = TexturesDelta { set: Vec::new(), free: Vec::new() };
    let cmds1 = p.handle_full_output(empty1, Vec::new(), (100, 80)).unwrap();
    assert_eq!(
        cmds1,
        vec![
            GpuCommand::SetViewportUniform { width_px: 100, height_px: 80 },
            GpuCommand::BeginFrameState,
        ]
    );
    let empty2 = TexturesDelta { set: Vec::new(), free: Vec::new() };
    let cmds2 = p.handle_full_output(empty2, Vec::new(), (100, 80)).unwrap();
    assert_eq!(cmds2, vec![GpuCommand::BeginFrameState]);
    let empty3 = TexturesDelta { set: Vec::new(), free: Vec::new() };
    let cmds3 = p.handle_full_output(empty3, Vec::new(), (200, 80)).unwrap();
    assert_eq!(
        cmds3,
        vec![
            GpuCommand::SetViewportUniform { width_px: 200, height_px: 80 },
            GpuCommand::BeginFrameState,
        ]
    );
}

#[test]
fn scissor_is_clamped_to_viewport() {
    let clip = ClipRect { min_x: 10, min_y: 20, max_x: 500, max_y: 400 };
    assert_eq!(scissor_for(&clip, 100, 80), Some((10, 20, 90, 60)));
}

#[test]
fn clip_outside_viewport_skips_primitive() {
    let clip = ClipRect { min_x: 200, min_y: 0, max_x: 300, max_y: 50 };
    assert_eq!(scissor_for(&clip, 100, 80), None);

    let mut p = Painter::new();
    let id = TexId::Managed(8);
    let delta = TexturesDelta { set: vec![(id, full_image(vec![1], 1, 1))], free: Vec::new() };
    let prims = vec![prim(id, clip)];
    let cmds = p.handle_full_output(delta, prims, (100, 80)).unwrap();
    assert!(!cmds.iter().any(|c| matches!(c, GpuCommand::DrawMesh { .. })));
    assert!(!cmds.iter().any(|c| matches!(c, GpuCommand::SetScissor { .. })));
}

#[test]
fn free_then_recreate_same_frame_is_not_possible_in_one_delta() {
    // a set-then-free of the same id in one delta destroys the newly
    // created texture: sets run first, frees last
    let mut p = Painter::new();
    let id = TexId::Managed(9);
    let delta = TexturesDelta { set: vec![(id, full_image(vec![1], 1, 1))], free: vec![id] };
    let cmds = p.handle_full_output(delta, Vec::new(), (10, 10)).unwrap();
    assert!(!p.contains_texture(id));
    assert_eq!(*cmds.last().unwrap(), GpuCommand::DeleteTexture { id });
}

#[test]
fn recreate_after_free_in_next_frame_succeeds() {
    let mut p = Painter::new();
    let id = TexId::Managed(10);
    let mut cmds: Vec<GpuCommand> = Vec::new();
    p.set_textures(vec![(id, full_image(vec![1], 1, 1))], &mut cmds).unwrap();
    p.free_textures(vec![id], &mut cmds).unwrap();
    let r = p.set_textures(vec![(id, full_image(vec![2], 1, 1))], &mut cmds);
    assert!(r.is_ok());
    assert!(p.contains_texture(id));
}

use vstd::prelude::*;
use crate::TexFilter;

verus! {

// The paint submitter and its texture cache. The GPU itself is an external
// capability: the verified code here decides *what* state must be
// established and in what order, and emits that decision as a sequence of
// `GpuCommand` values, which the host layer executes against the graphics
// API verbatim and in order. GPU texture objects are identified by the
// texture id of the cache entry that owns them; the host layer keeps the
// id-to-object mapping, creating an object at `CreateTexture` and
// releasing it at `DeleteTexture`.

/// An opaque texture identifier assigned by the GUI library (`Managed`) or
/// by this backend's user-texture interface (`User`); unique and stable
/// for a texture's lifetime.
#[derive(Clone, Copy, Debug, PartialEq, Eq, Hash, Structural)]
pub enum TexId {
    Managed(u64),
    User(u64),
}

/// A fatal contract violation between the GUI library and this backend:
/// the two have desynchronized state, and continuing would corrupt GPU
/// state. The caller must abort the frame rather than recover.
#[derive(Clone, Copy, Debug, PartialEq, Eq, Structural)]
pub enum PaintError {
    /// A sub-region patch named a texture id absent from the cache.
    PatchTargetMissing(TexId),
    /// A full-image creation named a texture id already in the cache.
    DuplicateTexture(TexId),
    /// A free named a texture id absent from the cache.
    FreeOfUnknownTexture(TexId),
    /// A draw primitive referenced a texture id absent from the cache.
    UnknownTextureInDraw(TexId),
}

/// A block of sRGBA pixels, one 32-bit value per pixel, row-major. An
/// empty pixel buffer is a valid "deferred" image: the texture object is
/// still created, but no upload is issued.
#[derive(Clone, Debug, PartialEq, Eq)]
pub struct ImageData {
    pub width: usize,
    pub height: usize,
    pub pixels: Vec<u32>,
}

/// One per-frame image delta for a texture id: a full replacement when
/// `pos` is absent, a sub-region patch at offset `pos` when present. The
/// filter is only meaningful for a full replacement, which fixes it for
/// the texture's lifetime.
#[derive(Clone, Debug, PartialEq, Eq)]
pub struct ImageDelta {
    pub image: ImageData,
    pub filter: TexFilter,
    pub pos: Option<(usize, usize)>,
}

/// One frame's texture delta: entries to set (create or patch), then ids
/// to free. Sets are processed before frees, so a primitive drawn this
/// frame still sees a texture freed at the frame's end.
#[derive(Clone, Debug, PartialEq, Eq)]
pub struct TexturesDelta {
    pub set: Vec<(TexId, ImageDelta)>,
    pub free: Vec<TexId>,
}

/// The pixel payload of a pending texture update.
pub struct TextureData {
    pub start_position: (usize, usize),
    pub width: usize,
    pub height: usize,
    pub srgba_pixels: Vec<u32>,
}

/// The pending-update slot of a texture entry: at most one of a full
/// replacement (`New`), a sub-region patch (`Update`), or nothing (`Idle`).
pub enum TextureUpdateStatus {
    New(TextureData),
    Update(TextureData),
    Idle,
}

/// Whether the GPU-side texture object for an entry has been created yet.
#[derive(Clone, Copy, Debug, PartialEq, Eq, Structural)]
pub enum TextureGpuStatus {
    Unregistered,
    Registered,
}

/// A mesh vertex: logical position and texture coordinates as opaque
/// 32-bit encodings prepared by the host layer, and an sRGBA color.
#[derive(Clone, Copy, Debug, PartialEq, Eq, Structural)]
pub struct Vertex {
    pub pos_x_bits: u32,
    pub pos_y_bits: u32,
    pub uv_x_bits: u32,
    pub uv_y_bits: u32,
    pub srgba: u32,
}

/// A vertex/index mesh referencing one texture.
#[derive(Clone, Debug, PartialEq, Eq)]
pub struct Mesh {
    pub vertices: Vec<Vertex>,
    pub indices: Vec<u32>,
    pub texture_id: TexId,
}

/// A clip rectangle in physical pixels (the host layer scales the GUI
/// library's logical clip rectangle by the device-pixel-ratio before
/// handing it over).
#[derive(Clone, Copy, Debug, PartialEq, Eq, Structural)]
pub struct ClipRect {
    pub min_x: u32,
    pub min_y: u32,
    pub max_x: u32,
    pub max_y: u32,
}

/// The unit of one draw call: a clip rectangle plus a mesh.
#[derive(Clone, Debug, PartialEq, Eq)]
pub struct ClippedPrimitive {
    pub clip_rect: ClipRect,
    pub mesh: Mesh,
}

/// One GPU state change or draw call, in the exact order the host layer
/// must execute them.
#[derive(Clone, Debug, PartialEq, Eq)]
pub enum GpuCommand {
    /// Create the texture object for `id`: clamp-to-edge wrap on both
    /// axes, min/mag filter per `filter`.
    CreateTexture { id: TexId, filter: TexFilter },
    /// Upload a full pixel buffer to the texture object of `id`.
    UploadFull { id: TexId, width: usize, height: usize, pixels: Vec<u32> },
    /// Upload a sub-rectangle at its offset to the texture object of `id`.
    UploadSubregion { id: TexId, x: usize, y: usize, width: usize, height: usize, pixels: Vec<u32> },
    /// Release the texture object of `id`.
    DeleteTexture { id: TexId },
    /// Push new physical viewport dimensions to the shader uniform.
    SetViewportUniform { width_px: u32, height_px: u32 },
    /// Establish per-frame draw state: standard alpha blending, sRGB
    /// framebuffer conversion, scissor testing, the shader program, and
    /// texture unit 0.
    BeginFrameState,
    /// Set the scissor rectangle, in physical pixels.
    SetScissor { x: u32, y: u32, width: u32, height: u32 },
    /// Bind the texture object of `id` to texture unit 0.
    BindTexture { id: TexId },
    /// Upload the mesh's vertex and index buffers and issue one indexed
    /// triangle draw call.
    DrawMesh { vertices: Vec<Vertex>, indices: Vec<u32> },
}

/// One texture cache entry: GPU-side registration status, the filtering
/// mode fixed at creation, and the pending-update slot.
pub struct Texture {
    pub gpu_status: TextureGpuStatus,
    pub filter: TexFilter,
    pub update_status: TextureUpdateStatus,
}

impl Texture {
    /// A fresh entry for a full replacement image: unregistered, with the
    /// whole image pending.
    pub fn new(image: ImageData, filter: TexFilter) -> (r: Texture)
        ensures
            r.gpu_status == TextureGpuStatus::Unregistered,
            r.filter == filter,
            r.update_status == TextureUpdateStatus::New(TextureData {
                start_position: (0, 0),
                width: image.width,
                height: image.height,
                srgba_pixels: image.pixels,
            }),
    {
        let width = image.width;
        let height = image.height;
        Texture {
            gpu_status: TextureGpuStatus::Unregistered,
            filter,
            update_status: TextureUpdateStatus::New(TextureData {
                start_position: (0, 0),
                width,
                height,
                srgba_pixels: image.pixels,
            }),
        }
    }

    /// Marks the entry's pending-update slot as a sub-region patch.
    pub fn update_subregion(&mut self, image: ImageData, start_position: (usize, usize))
        ensures
            final(self).gpu_status == old(self).gpu_status,
            final(self).filter == old(self).filter,
            final(self).update_status == TextureUpdateStatus::Update(TextureData {
                start_position,
                width: image.width,
                height: image.height,
                srgba_pixels: image.pixels,
            }),
    {
        let width = image.width;
        let height = image.height;
        self.update_status = TextureUpdateStatus::Update(TextureData {
            start_position,
            width,
            height,
            srgba_pixels: image.pixels,
        });
    }

    /// Whether a pending update is queued.
    pub fn needs_updating(&self) -> (r: bool)
        ensures
            r == !(self.update_status is Idle),
    {
        !matches!(self.update_status, TextureUpdateStatus::Idle)
    }

    /// Applies the pending update, appending the GPU commands that realize
    /// it, and clears the slot. A full replacement may only be applied to
    /// an entry not yet registered (it creates the texture object, and
    /// uploads the pixels unless the buffer is empty, the valid deferred
    /// state); a sub-region patch may only target an already-registered
    /// entry.
    pub fn register(&mut self, id: TexId, out: &mut Vec<GpuCommand>)
        requires
            !(old(self).update_status is Idle),
            old(self).update_status is New ==> old(self).gpu_status
                == TextureGpuStatus::Unregistered,
            old(self).update_status is Update ==> old(self).gpu_status
                == TextureGpuStatus::Registered,
        ensures
            final(self).gpu_status == TextureGpuStatus::Registered,
            final(self).filter == old(self).filter,
            final(self).update_status is Idle,
            match old(self).update_status {
                TextureUpdateStatus::New(d) => final(out)@ == old(out)@.push(
                    GpuCommand::CreateTexture { id, filter: old(self).filter },
                ) + (if d.srgba_pixels.len() > 0 {
                    seq![GpuCommand::UploadFull {
                        id,
                        width: d.width,
                        height: d.height,
                        pixels: d.srgba_pixels,
                    }]
                } else {
                    Seq::empty()
                }),
                TextureUpdateStatus::Update(d) => final(out)@ == old(out)@.push(
                    GpuCommand::UploadSubregion {
                        id,
                        x: d.start_position.0,
                        y: d.start_position.1,
                        width: d.width,
                        height: d.height,
                        pixels: d.srgba_pixels,
                    },
                ),
                TextureUpdateStatus::Idle => false,
            },
    {
        let mut pending = TextureUpdateStatus::Idle;
        core::mem::swap(&mut pending, &mut self.update_status);
        match pending {
            TextureUpdateStatus::New(d) => {
                out.push(GpuCommand::CreateTexture { id, filter: self.filter });
                if d.srgba_pixels.len() > 0 {
                    out.push(GpuCommand::UploadFull {
                        id,
                        width: d.width,
                        height: d.height,
                        pixels: d.srgba_pixels,
                    });
                }
                self.gpu_status = TextureGpuStatus::Registered;
            },
            TextureUpdateStatus::Update(d) => {
                out.push(GpuCommand::UploadSubregion {
                    id,
                    x: d.start_position.0,
                    y: d.start_position.1,
                    width: d.width,
                    height: d.height,
                    pixels: d.srgba_pixels,
                });
            },
            TextureUpdateStatus::Idle => {
                proof {
                    assert(false);
                }
            },
        }
    }
}

/// The paint submitter: owns the texture cache and the last-applied
/// viewport dimensions, and turns one frame's output into GPU commands.
pub struct Painter {
    textures: Vec<(TexId, Texture)>,
    last_screen_dimensions: (u32, u32),
}

impl Painter {
    /// The cache's entries as a sequence of id/entry pairs.
    pub closed spec fn entries(self) -> Seq<(TexId, Texture)> {
        self.textures@
    }

    /// Whether `id` currently has a cache entry.
    pub open spec fn has_tex(self, id: TexId) -> bool {
        exists|i: int| 0 <= i < self.entries().len() && (#[trigger] self.entries()[i]).0 == id
    }

    /// The filtering mode of the entry for `id` (meaningful when the entry
    /// exists; unique by the cache invariant).
    pub open spec fn filter_of(self, id: TexId) -> TexFilter {
        let i = choose|i: int| 0 <= i < self.entries().len() && (#[trigger] self.entries()[i]).0
            == id;
        self.entries()[i].1.filter
    }

    /// The cache as a map from live texture id to its fixed filtering
    /// mode: the mathematical model the frame-level contracts speak of.
    pub open spec fn cache(self) -> Map<TexId, TexFilter> {
        Map::new(|id: TexId| self.has_tex(id), |id: TexId| self.filter_of(id))
    }

    /// The last viewport dimensions pushed to the shader uniform.
    pub closed spec fn last_dims(self) -> (u32, u32) {
        self.last_screen_dimensions
    }

    /// The cache invariant: a texture id appears at most once, and between
    /// frames every entry is registered with no pending update.
    pub open spec fn wf(self) -> bool {
        &&& forall|i: int, j: int| 0 <= i < j < self.entries().len() ==> (#[trigger] self.entries()[i]).0 != (#[trigger] self.entries()[j]).0
        &&& forall|i: int| 0 <= i < self.entries().len() ==> (#[trigger] self.entries()[i]).1.gpu_status == TextureGpuStatus::Registered
            && self.entries()[i].1.update_status is Idle
    }

    /// A painter with an empty cache and no viewport applied yet.
    pub fn new() -> (r: Painter)
        ensures
            r.wf(),
            r.cache() =~= Map::<TexId, TexFilter>::empty(),
            r.last_dims() == (0u32, 0u32),
    {
        let r = Painter { textures: Vec::new(), last_screen_dimensions: (0, 0) };
        proof {
            assert forall|id: TexId| !r.has_tex(id) by {}
        }
        r
    }

    /// The number of live cache entries.
    pub fn texture_count(&self) -> (r: usize)
        ensures
            r == self.entries().len(),
    {
        self.textures.len()
    }

    /// Whether `id` currently has a cache entry.
    pub fn contains_texture(&self, id: TexId) -> (r: bool)
        ensures
            r == self.has_tex(id),
    {
        match self.find(id) {
            Option::Some(_) => true,
            Option::None => false,
        }
    }

    /// Linear search for the entry of `id`.
    fn find(&self, id: TexId) -> (r: Option<usize>)
        ensures
            match r {
                Option::Some(i) => 0 <= i < self.entries().len() && self.entries()[i as int].0
                    == id,
                Option::None => !self.has_tex(id),
            },
    {
        let mut i: usize = 0;
        while i < self.textures.len()
            invariant
                i <= self.textures@.len(),
                forall|j: int| 0 <= j < i ==> (#[trigger] self.textures@[j]).0 != id,
            decreases self.textures@.len() - i,
        {
            if self.textures[i].0 == id {
                return Option::Some(i);
            }
            i += 1;
        }
        Option::None
    }
}

/// The cache contents and GPU commands that one frame's set operations
/// produce, or the first contract violation among them: a sub-region
/// patch must name an id already in the cache, a full replacement a fresh
/// id, and each pending update is registered immediately, in list order.
pub open spec fn spec_apply_sets(
    m: Map<TexId, TexFilter>,
    ops: Seq<(TexId, ImageDelta)>,
) -> Result<(Map<TexId, TexFilter>, Seq<GpuCommand>), PaintError>
    decreases ops.len(),
{
    if ops.len() == 0 {
        Ok((m, Seq::empty()))
    } else {
        let id = ops[0].0;
        let d = ops[0].1;
        match d.pos {
            Option::Some(p) => if !m.contains_key(id) {
                Err(PaintError::PatchTargetMissing(id))
            } else {
                let cmds = seq![
                    GpuCommand::UploadSubregion {
                        id,
                        x: p.0,
                        y: p.1,
                        width: d.image.width,
                        height: d.image.height,
                        pixels: d.image.pixels,
                    },
                ];
                match spec_apply_sets(m, ops.drop_first()) {
                    Ok(rest) => Ok((rest.0, cmds + rest.1)),
                    Err(e) => Err(e),
                }
            },
            Option::None => if m.contains_key(id) {
                Err(PaintError::DuplicateTexture(id))
            } else {
                let cmds = seq![GpuCommand::CreateTexture { id, filter: d.filter }] + (
                if d.image.pixels.len() > 0 {
                    seq![
                        GpuCommand::UploadFull {
                            id,
                            width: d.image.width,
                            height: d.image.height,
                            pixels: d.image.pixels,
                        },
                    ]
                } else {
                    Seq::empty()
                });
                match spec_apply_sets(m.insert(id, d.filter), ops.drop_first()) {
                    Ok(rest) => Ok((rest.0, cmds + rest.1)),
                    Err(e) => Err(e),
                }
            },
        }
    }
}

/// The cache contents and GPU commands that one frame's free list
/// produces, or the first contract violation: every freed id must be in
/// the cache; its entry is removed and its texture object released.
pub open spec fn spec_apply_frees(
    m: Map<TexId, TexFilter>,
    ids: Seq<TexId>,
) -> Result<(Map<TexId, TexFilter>, Seq<GpuCommand>), PaintError>
    decreases ids.len(),
{
    if ids.len() == 0 {
        Ok((m, Seq::empty()))
    } else {
        let id = ids[0];
        if !m.contains_key(id) {
            Err(PaintError::FreeOfUnknownTexture(id))
        } else {
            match spec_apply_frees(m.remove(id), ids.drop_first()) {
                Ok(rest) => Ok((rest.0, seq![GpuCommand::DeleteTexture { id }] + rest.1)),
                Err(e) => Err(e),
            }
        }
    }
}

/// The first texture id a primitive list references that is not in the
/// cache, if any: the contract violation that must stop a paint
/// submission before any draw call is issued.
pub open spec fn spec_first_missing(
    m: Map<TexId, TexFilter>,
    prims: Seq<ClippedPrimitive>,
) -> Option<TexId>
    decreases prims.len(),
{
    if prims.len() == 0 {
        Option::None
    } else if !m.contains_key(prims[0].mesh.texture_id) {
        Option::Some(prims[0].mesh.texture_id)
    } else {
        spec_first_missing(m, prims.drop_first())
    }
}

/// The scissor rectangle for a clip rectangle, clamped to the viewport:
/// nothing when the clamped area is empty (the primitive is skipped
/// without a draw call).
pub open spec fn spec_scissor(clip: ClipRect, vw: u32, vh: u32) -> Option<(u32, u32, u32, u32)> {
    let x0 = if clip.min_x < vw { clip.min_x } else { vw };
    let x1 = if clip.max_x < vw { clip.max_x } else { vw };
    let y0 = if clip.min_y < vh { clip.min_y } else { vh };
    let y1 = if clip.max_y < vh { clip.max_y } else { vh };
    if x0 < x1 && y0 < y1 {
        Option::Some((x0, y0, (x1 - x0) as u32, (y1 - y0) as u32))
    } else {
        Option::None
    }
}

/// The GPU commands for a validated primitive list, in input order: per
/// drawn primitive, its clamped scissor rectangle, its texture binding,
/// and one indexed draw call; primitives with an empty scissor are
/// skipped entirely.
pub open spec fn spec_draw_cmds(prims: Seq<ClippedPrimitive>, vw: u32, vh: u32) -> Seq<GpuCommand>
    decreases prims.len(),
{
    if prims.len() == 0 {
        Seq::empty()
    } else {
        (match spec_scissor(prims[0].clip_rect, vw, vh) {
            Option::None => Seq::empty(),
            Option::Some(s) => seq![
                GpuCommand::SetScissor { x: s.0, y: s.1, width: s.2, height: s.3 },
                GpuCommand::BindTexture { id: prims[0].mesh.texture_id },
                GpuCommand::DrawMesh {
                    vertices: prims[0].mesh.vertices,
                    indices: prims[0].mesh.indices,
                },
            ],
        }) + spec_draw_cmds(prims.drop_first(), vw, vh)
    }
}

impl Painter {
    /// Processes one frame's set operations in list order, appending the
    /// GPU commands that realize them. Stops at the first contract
    /// violation with exactly the error the spec assigns it; the already
    /// processed prefix stays applied, and the caller must then abort the
    /// frame.
    pub fn set_textures(
        &mut self,
        ops: Vec<(TexId, ImageDelta)>,
        out: &mut Vec<GpuCommand>,
    ) -> (r: Result<(), PaintError>)
        requires
            old(self).wf(),
        ensures
            final(self).wf(),
            final(self).last_dims() == old(self).last_dims(),
            match spec_apply_sets(old(self).cache(), ops@) {
                Ok(rest) => r is Ok && final(self).cache() =~= rest.0 && final(out)@ == old(out)@
                    + rest.1,
                Err(e) => r == Err::<(), PaintError>(e),
            },
        decreases ops@.len(),
    {
        let ghost ops0 = ops@;
        let mut ops = ops;
        if ops.len() == 0 {
            return Ok(());
        }
        let op = ops.remove(0);
        let id = op.0;
        let delta = op.1;
        proof {
            assert(ops@ =~= ops0.drop_first());
        }
        match delta.pos {
            Option::Some(p) => {
                match self.find(id) {
                    Option::None => {
                        return Err(PaintError::PatchTargetMissing(id));
                    },
                    Option::Some(i) => {
                        let ghost pre = *self;
                        let t = &mut self.textures[i].1;
                        t.update_subregion(delta.image, p);
                        t.register(id, out);
                        proof {
                            self.lemma_cache_same_after_entry_update(pre, i as int, id);
                        }
                    },
                }
            },
            Option::None => {
                match self.find(id) {
                    Option::Some(_) => {
                        return Err(PaintError::DuplicateTexture(id));
                    },
                    Option::None => {
                        let ghost pre = *self;
                        let mut tex = Texture::new(delta.image, delta.filter);
                        tex.register(id, out);
                        self.textures.push((id, tex));
                        proof {
                            self.lemma_cache_insert(pre, id, delta.filter);
                        }
                    },
                }
            },
        }
        let r = self.set_textures(ops, out);
        r
    }

    /// Proof that the cache map is a function of the entries alone.
    proof fn lemma_cache_from_entries(a: Painter, b: Painter)
        requires
            a.wf(),
            a.entries() == b.entries(),
        ensures
            a.cache() =~= b.cache(),
    {
        assert forall|x: TexId| a.has_tex(x) == b.has_tex(x) by {
            if a.has_tex(x) {
                let k = choose|k: int|
                    0 <= k < a.entries().len() && (#[trigger] a.entries()[k]).0 == x;
                assert(b.entries()[k].0 == x);
            }
            if b.has_tex(x) {
                let k = choose|k: int|
                    0 <= k < b.entries().len() && (#[trigger] b.entries()[k]).0 == x;
                assert(a.entries()[k].0 == x);
            }
        }
        assert forall|x: TexId| a.has_tex(x) implies a.filter_of(x) == b.filter_of(x) by {
            let k1 = choose|k: int|
                0 <= k < a.entries().len() && (#[trigger] a.entries()[k]).0 == x;
            let k2 = choose|k: int|
                0 <= k < b.entries().len() && (#[trigger] b.entries()[k]).0 == x;
            assert(a.entries()[k2].0 == x);
            assert(b.entries()[k1].0 == x);
            assert(k1 == k2);
        }
    }

    /// Proof that updating the entry at index `i` (same id, same filter)
    /// leaves the cache map unchanged.
    proof fn lemma_cache_same_after_entry_update(&self, pre: Painter, i: int, id: TexId)
        requires
            pre.wf(),
            0 <= i < pre.entries().len(),
            pre.entries()[i].0 == id,
            self.entries().len() == pre.entries().len(),
            forall|k: int| 0 <= k < pre.entries().len() ==> (#[trigger] self.entries()[k]).0
                == pre.entries()[k].0 && self.entries()[k].1.filter == pre.entries()[k].1.filter,
        ensures
            self.cache() =~= pre.cache(),
    {
        assert forall|x: TexId| self.has_tex(x) == pre.has_tex(x) by {
            if self.has_tex(x) {
                let k = choose|k: int|
                    0 <= k < self.entries().len() && (#[trigger] self.entries()[k]).0 == x;
                assert(pre.entries()[k].0 == x);
            }
            if pre.has_tex(x) {
                let k = choose|k: int|
                    0 <= k < pre.entries().len() && (#[trigger] pre.entries()[k]).0 == x;
                assert(self.entries()[k].0 == x);
            }
        }
        assert forall|x: TexId| self.has_tex(x) implies self.filter_of(x) == pre.filter_of(x) by {
            let k1 = choose|k: int|
                0 <= k < self.entries().len() && (#[trigger] self.entries()[k]).0 == x;
            let k2 = choose|k: int|
                0 <= k < pre.entries().len() && (#[trigger] pre.entries()[k]).0 == x;
            assert(pre.entries()[k1].0 == x);
            assert(k1 == k2);
        }
    }

    /// Proof that pushing a fresh entry extends the cache map by exactly
    /// that id and filter.
    proof fn lemma_cache_insert(&self, pre: Painter, id: TexId, filter: TexFilter)
        requires
            pre.wf(),
            !pre.has_tex(id),
            self.entries().len() == pre.entries().len() + 1,
            self.entries()[pre.entries().len() as int].0 == id,
            self.entries()[pre.entries().len() as int].1.filter == filter,
            forall|k: int| 0 <= k < pre.entries().len() ==> #[trigger] self.entries()[k]
                == pre.entries()[k],
        ensures
            self.cache() =~= pre.cache().insert(id, filter),
    {
        let n = pre.entries().len() as int;
        assert forall|x: TexId| self.has_tex(x) == (pre.has_tex(x) || x == id) by {
            if self.has_tex(x) {
                let k = choose|k: int|
                    0 <= k < self.entries().len() && (#[trigger] self.entries()[k]).0 == x;
                if k < n {
                    assert(pre.entries()[k].0 == x);
                }
            }
            if pre.has_tex(x) {
                let k = choose|k: int|
                    0 <= k < pre.entries().len() && (#[trigger] pre.entries()[k]).0 == x;
                assert(self.entries()[k].0 == x);
            }
            if x == id {
                assert(self.entries()[n].0 == x);
            }
        }
        assert forall|x: TexId| self.has_tex(x) implies self.filter_of(x) == (if x == id {
            filter
        } else {
            pre.filter_of(x)
        }) by {
            let k1 = choose|k: int|
                0 <= k < self.entries().len() && (#[trigger] self.entries()[k]).0 == x;
            if x == id {
                if k1 < n {
                    assert(pre.entries()[k1].0 == id);
                    assert(false);
                }
            } else {
                assert(k1 < n);
                let k2 = choose|k: int|
                    0 <= k < pre.entries().len() && (#[trigger] pre.entries()[k]).0 == x;
                assert(pre.entries()[k1].0 == x);
                assert(k1 == k2);
            }
        }
    }

    /// Processes one frame's free list in order, appending one release
    /// command per freed entry. Stops at the first contract violation
    /// with exactly the error the spec assigns it.
    pub fn free_textures(
        &mut self,
        ids: Vec<TexId>,
        out: &mut Vec<GpuCommand>,
    ) -> (r: Result<(), PaintError>)
        requires
            old(self).wf(),
        ensures
            final(self).wf(),
            final(self).last_dims() == old(self).last_dims(),
            match spec_apply_frees(old(self).cache(), ids@) {
                Ok(rest) => r is Ok && final(self).cache() =~= rest.0 && final(out)@ == old(out)@
                    + rest.1,
                Err(e) => r == Err::<(), PaintError>(e),
            },
        decreases ids@.len(),
    {
        let ghost ids0 = ids@;
        let mut ids = ids;
        if ids.len() == 0 {
            return Ok(());
        }
        let id = ids.remove(0);
        proof {
            assert(ids@ =~= ids0.drop_first());
        }
        match self.find(id) {
            Option::None => {
                return Err(PaintError::FreeOfUnknownTexture(id));
            },
            Option::Some(i) => {
                let ghost pre = *self;
                self.textures.remove(i);
                out.push(GpuCommand::DeleteTexture { id });
                proof {
                    self.lemma_cache_remove(pre, i as int, id);
                }
            },
        }
        let r = self.free_textures(ids, out);
        r
    }

    /// Proof that removing the entry at index `i` removes exactly its id
    /// from the cache map and keeps the invariant.
    proof fn lemma_cache_remove(&self, pre: Painter, i: int, id: TexId)
        requires
            pre.wf(),
            0 <= i < pre.entries().len(),
            pre.entries()[i].0 == id,
            self.entries() =~= pre.entries().remove(i),
        ensures
            self.cache() =~= pre.cache().remove(id),
            self.wf(),
    {
        let n = pre.entries().len() as int;
        assert(self.entries().len() == n - 1);
        assert(forall|k: int| 0 <= k < i ==> #[trigger] self.entries()[k] == pre.entries()[k]);
        assert(forall|k: int| i <= k < n - 1 ==> #[trigger] self.entries()[k] == pre.entries()[k
            + 1]);
        assert forall|x: TexId| self.has_tex(x) == (pre.has_tex(x) && x != id) by {
            if self.has_tex(x) {
                let k = choose|k: int|
                    0 <= k < self.entries().len() && (#[trigger] self.entries()[k]).0 == x;
                if k < i {
                    assert(pre.entries()[k].0 == x);
                    if x == id {
                        assert(false);
                    }
                } else {
                    assert(pre.entries()[k + 1].0 == x);
                    if x == id {
                        assert(false);
                    }
                }
            }
            if pre.has_tex(x) && x != id {
                let k = choose|k: int|
                    0 <= k < pre.entries().len() && (#[trigger] pre.entries()[k]).0 == x;
                if k < i {
                    assert(self.entries()[k].0 == x);
                } else {
                    assert(k != i);
                    assert(self.entries()[k - 1].0 == x);
                }
            }
        }
        assert forall|x: TexId| self.has_tex(x) implies self.filter_of(x) == pre.filter_of(x) by {
            let k1 = choose|k: int|
                0 <= k < self.entries().len() && (#[trigger] self.entries()[k]).0 == x;
            let kp = if k1 < i {
                k1
            } else {
                k1 + 1
            };
            assert(pre.entries()[kp].0 == x);
            let k2 = choose|k: int|
                0 <= k < pre.entries().len() && (#[trigger] pre.entries()[k]).0 == x;
            assert(kp == k2);
            assert(self.entries()[k1].1.filter == pre.entries()[kp].1.filter);
        }
    }
}

/// Clamps a clip rectangle to the viewport, yielding the scissor
/// rectangle, or nothing when the clamped area is empty.
pub fn scissor_for(clip: &ClipRect, vw: u32, vh: u32) -> (r: Option<(u32, u32, u32, u32)>)
    ensures
        r == spec_scissor(*clip, vw, vh),
{
    let x0 = if clip.min_x < vw { clip.min_x } else { vw };
    let x1 = if clip.max_x < vw { clip.max_x } else { vw };
    let y0 = if clip.min_y < vh { clip.min_y } else { vh };
    let y1 = if clip.max_y < vh { clip.max_y } else { vh };
    if x0 < x1 && y0 < y1 {
        Option::Some((x0, y0, x1 - x0, y1 - y0))
    } else {
        Option::None
    }
}

/// Emits the scissored, textured draw commands for a validated primitive
/// list, in input order.
fn emit_draws(prims: Vec<ClippedPrimitive>, vw: u32, vh: u32, out: &mut Vec<GpuCommand>)
    ensures
        final(out)@ == old(out)@ + spec_draw_cmds(prims@, vw, vh),
    decreases prims@.len(),
{
    let ghost prims0 = prims@;
    let mut prims = prims;
    if prims.len() == 0 {
        proof {
            assert(final(out)@ =~= old(out)@ + spec_draw_cmds(prims0, vw, vh));
        }
        return;
    }
    let p = prims.remove(0);
    proof {
        assert(prims@ =~= prims0.drop_first());
    }
    match scissor_for(&p.clip_rect, vw, vh) {
        Option::None => {},
        Option::Some(s) => {
            out.push(GpuCommand::SetScissor { x: s.0, y: s.1, width: s.2, height: s.3 });
            out.push(GpuCommand::BindTexture { id: p.mesh.texture_id });
            out.push(GpuCommand::DrawMesh { vertices: p.mesh.vertices, indices: p.mesh.indices });
        },
    }
    emit_draws(prims, vw, vh, out);
    proof {
        assert(final(out)@ =~= old(out)@ + spec_draw_cmds(prims0, vw, vh));
    }
}

impl Painter {
    /// The first texture id the primitive list references that has no
    /// cache entry, if any.
    pub fn first_missing_tex(&self, prims: &Vec<ClippedPrimitive>) -> (r: Option<TexId>)
        ensures
            r == spec_first_missing(self.cache(), prims@),
    {
        let mut i: usize = 0;
        proof {
            assert(prims@.skip(0) =~= prims@);
        }
        while i < prims.len()
            invariant
                i <= prims@.len(),
                spec_first_missing(self.cache(), prims@) == spec_first_missing(
                    self.cache(),
                    prims@.skip(i as int),
                ),
            decreases prims@.len() - i,
        {
            let id = prims[i].mesh.texture_id;
            if !self.contains_texture(id) {
                proof {
                    assert(prims@.skip(i as int)[0] == prims@[i as int]);
                }
                return Option::Some(id);
            }
            proof {
                assert(prims@.skip(i as int)[0] == prims@[i as int]);
                assert(prims@.skip(i as int).drop_first() =~= prims@.skip(i as int + 1));
            }
            i += 1;
        }
        proof {
            assert(prims@.skip(i as int).len() == 0);
        }
        Option::None
    }

    /// The per-frame entry point, in fixed order: apply the frame's set
    /// operations, refuse the whole submission if any primitive
    /// references a texture id with no cache entry (before any draw call
    /// is issued), push the viewport uniform only when the physical
    /// dimensions changed, establish draw state, emit the scissored draw
    /// commands in input order, and apply the frees last, so primitives
    /// referencing a texture freed this frame still render. On a
    /// contract violation the result is exactly the error the spec
    /// assigns, no command list is handed out, and the caller must abort
    /// the frame.
    /// The paint-submission relation: what one frame submission does to
    /// the cache and the viewport state, and exactly which commands it
    /// hands out, or which contract violation it reports. On an error no
    /// command list is handed out, so nothing reaches the GPU.
    pub open spec fn framed(
        pre: Painter,
        post: Painter,
        delta: TexturesDelta,
        prims: Seq<ClippedPrimitive>,
        viewport_px: (u32, u32),
        r: Result<Vec<GpuCommand>, PaintError>,
    ) -> bool {
        &&& post.wf()
        &&& match spec_apply_sets(pre.cache(), delta.set@) {
            Err(e) => r == Err::<Vec<GpuCommand>, PaintError>(e) && post.last_dims()
                == pre.last_dims(),
            Ok(mid) => match spec_first_missing(mid.0, prims) {
                Option::Some(missing) => {
                    &&& r == Err::<Vec<GpuCommand>, PaintError>(
                        PaintError::UnknownTextureInDraw(missing),
                    )
                    &&& post.cache() =~= mid.0
                    &&& post.last_dims() == pre.last_dims()
                },
                Option::None => match spec_apply_frees(mid.0, delta.free@) {
                    Err(e) => r == Err::<Vec<GpuCommand>, PaintError>(e)
                        && post.last_dims() == viewport_px,
                    Ok(fin) => {
                        &&& r is Ok
                        &&& post.cache() =~= fin.0
                        &&& post.last_dims() == viewport_px
                        &&& (r matches Ok(cmds) ==> cmds@ == mid.1 + (
                        if viewport_px != pre.last_dims() {
                            seq![
                                GpuCommand::SetViewportUniform {
                                    width_px: viewport_px.0,
                                    height_px: viewport_px.1,
                                },
                            ]
                        } else {
                            Seq::empty()
                        }) + seq![GpuCommand::BeginFrameState] + spec_draw_cmds(
                            prims,
                            viewport_px.0,
                            viewport_px.1,
                        ) + fin.1)
                    },
                },
            },
        }
    }

    pub fn handle_full_output(
        &mut self,
        delta: TexturesDelta,
        prims: Vec<ClippedPrimitive>,
        viewport_px: (u32, u32),
    ) -> (r: Result<Vec<GpuCommand>, PaintError>)
        requires
            old(self).wf(),
        ensures
            Painter::framed(*old(self), *final(self), delta, prims@, viewport_px, r),
    {
        let mut out: Vec<GpuCommand> = Vec::new();
        match self.set_textures(delta.set, &mut out) {
            Err(e) => {
                return Err(e);
            },
            Ok(()) => {},
        }
        proof {
            match spec_apply_sets(old(self).cache(), delta.set@) {
                Ok(mid) => {
                    assert(self.cache() == mid.0);
                    assert(out@ =~= mid.1);
                },
                Err(_) => {
                    assert(false);
                },
            }
        }
        let ghost out_after_sets = out@;
        match self.first_missing_tex(&prims) {
            Option::Some(id) => {
                return Err(PaintError::UnknownTextureInDraw(id));
            },
            Option::None => {},
        }
        let ghost before_vp = *self;
        if viewport_px.0 != self.last_screen_dimensions.0 || viewport_px.1
            != self.last_screen_dimensions.1 {
            out.push(GpuCommand::SetViewportUniform {
                width_px: viewport_px.0,
                height_px: viewport_px.1,
            });
            self.last_screen_dimensions = viewport_px;
        } else {
            self.last_screen_dimensions = viewport_px;
        }
        proof {
            Painter::lemma_cache_from_entries(*self, before_vp);
            assert(self.cache() == before_vp.cache());
        }
        out.push(GpuCommand::BeginFrameState);
        let ghost out_before_draws = out@;
        proof {
            assert(out_before_draws =~= out_after_sets + (
            if viewport_px != old(self).last_dims() {
                seq![
                    GpuCommand::SetViewportUniform {
                        width_px: viewport_px.0,
                        height_px: viewport_px.1,
                    },
                ]
            } else {
                Seq::empty()
            }) + seq![GpuCommand::BeginFrameState]);
        }
        emit_draws(prims, viewport_px.0, viewport_px.1, &mut out);
        let ghost out_after_draws = out@;
        match self.free_textures(delta.free, &mut out) {
            Err(e) => {
                return Err(e);
            },
            Ok(()) => {},
        }
        proof {
            match spec_apply_sets(old(self).cache(), delta.set@) {
                Ok(mid) => {
                    match spec_apply_frees(mid.0, delta.free@) {
                        Ok(fin) => {
                            assert(out@ =~= out_after_draws + fin.1);
                            assert(out@ =~= mid.1 + (
                            if viewport_px != old(self).last_dims() {
                                seq![
                                    GpuCommand::SetViewportUniform {
                                        width_px: viewport_px.0,
                                        height_px: viewport_px.1,
                                    },
                                ]
                            } else {
                                Seq::empty()
                            }) + seq![GpuCommand::BeginFrameState] + spec_draw_cmds(
                                prims@,
                                viewport_px.0,
                                viewport_px.1,
                            ) + fin.1);
                        },
                        Err(_) => {
                            assert(false);
                        },
                    }
                },
                Err(_) => {
                    assert(false);
                },
            }
        }
        Ok(out)
    }
}

/// Law: creating a texture with a full image and then immediately freeing
/// the same id leaves the cache exactly as it was, and the emitted
/// commands release the texture object exactly once — one create (plus
/// one upload when the image is not empty, none when it is) and one
/// delete for that id.
pub proof fn lemma_create_then_free(m: Map<TexId, TexFilter>, id: TexId, d: ImageDelta)
    requires
        !m.contains_key(id),
        d.pos is None,
    ensures
        match spec_apply_sets(m, seq![(id, d)]) {
            Ok(mid) => {
                &&& mid.0 =~= m.insert(id, d.filter)
                &&& mid.1 =~= seq![GpuCommand::CreateTexture { id, filter: d.filter }] + (
                if d.image.pixels.len() > 0 {
                    seq![
                        GpuCommand::UploadFull {
                            id,
                            width: d.image.width,
                            height: d.image.height,
                            pixels: d.image.pixels,
                        },
                    ]
                } else {
                    Seq::empty()
                })
                &&& match spec_apply_frees(mid.0, seq![id]) {
                    Ok(fin) => fin.0 =~= m && fin.1 =~= seq![GpuCommand::DeleteTexture { id }],
                    Err(_) => false,
                }
            },
            Err(_) => false,
        },
{
    let ops = seq![(id, d)];
    assert(ops.drop_first() =~= Seq::<(TexId, ImageDelta)>::empty());
    let m1 = m.insert(id, d.filter);
    assert(spec_apply_sets(m1, ops.drop_first()) == Ok::<_, PaintError>((
        m1,
        Seq::<GpuCommand>::empty(),
    )));
    let ids = seq![id];
    assert(ids.drop_first() =~= Seq::<TexId>::empty());
    assert(m1.contains_key(id));
    assert(m1.remove(id) =~= m);
    assert(spec_apply_frees(m1.remove(id), ids.drop_first()) == Ok::<_, PaintError>((
        m1.remove(id),
        Seq::<GpuCommand>::empty(),
    )));
    match spec_apply_sets(m, ops) {
        Ok(mid) => {
            assert(mid.1 =~= seq![GpuCommand::CreateTexture { id, filter: d.filter }] + (
            if d.image.pixels.len() > 0 {
                seq![
                    GpuCommand::UploadFull {
                        id,
                        width: d.image.width,
                        height: d.image.height,
                        pixels: d.image.pixels,
                    },
                ]
            } else {
                Seq::empty()
            }) + Seq::<GpuCommand>::empty());
            match spec_apply_frees(mid.0, ids) {
                Ok(fin) => {
                    assert(fin.1 =~= seq![GpuCommand::DeleteTexture { id }]
                        + Seq::<GpuCommand>::empty());
                },
                Err(_) => {},
            }
        },
        Err(_) => {},
    }
}

} // verus!

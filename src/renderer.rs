//! The draw call registry and the per-frame submission.
use vstd::prelude::*;

use crate::buffer::{
    capacity_after, upload_action_spec, AttributeBuffer, UploadAction, MAX_QUEUED_QUADS,
    QUAD_VERTICES,
};
use crate::error::RenderError;
use crate::geometry::{
    axis_aligned_quad, axis_aligned_quad_spec, nine_patch_cell_spec, nine_patch_quads,
    quad_from_corners, quad_spec, ColorAttribute, NinePatchGrid, TexQuad, Vertex,
};
use crate::image::{Image, PixelFormat};
use crate::shader::{Profile, ShaderProgram};

verus! {

/// The built-in draw call for UI sprites.
pub const DRAW_CALL_INDEX_UI: usize = 0;

/// The built-in draw call for the glyph cache.
pub const DRAW_CALL_INDEX_TEXT: usize = 1;

/// The GPU objects created for a new draw call: its texture, its linked
/// program, its vertex buffer and (modern profile only) its vertex-layout
/// object.
#[derive(Clone, Copy, Debug, PartialEq, Eq, Structural)]
pub struct GpuObjects {
    pub texture: u32,
    pub program: ShaderProgram,
    pub vbo: u32,
    pub vao: u32,
}

/// One batch: every quad queued into it is drawn with one texture and one
/// program in one submission.
pub struct DrawCall<T> {
    pub texture: u32,
    pub program: ShaderProgram,
    pub attributes: AttributeBuffer<T>,
}

/// What the context has to do to draw one batch, in this order: bind the
/// program and upload the projection, bind `vao` when present, bind the
/// texture and the buffer, carry out `upload` with `quads`, enable the
/// attribute pointers when `bind_attribs_per_draw`, draw `vertex_count`
/// vertices as triangles, and disable the pointers again when
/// `bind_attribs_per_draw`.
pub struct Submission<T> {
    pub index: usize,
    pub program: ShaderProgram,
    pub texture: u32,
    pub vbo: u32,
    pub vao: Option<u32>,
    pub bind_attribs_per_draw: bool,
    pub upload: UploadAction,
    pub vertex_count: usize,
    pub quads: Vec<TexQuad<T>>,
}

/// The registry of draw calls, in creation order, and the profile that all
/// of them were created for.
pub struct Renderer<T> {
    pub calls: Vec<DrawCall<T>>,
    pub profile: Profile,
}

/// `c` is a draw call just made from `objects` on `profile`.
pub open spec fn fresh_call<T>(c: DrawCall<T>, objects: GpuObjects, profile: Profile) -> bool {
    &&& c.texture == objects.texture
    &&& c.program == objects.program
    &&& c.attributes.vbo == objects.vbo
    &&& c.attributes.vao == (if profile == Profile::Modern {
        Some(objects.vao)
    } else {
        None::<u32>
    })
    &&& c.attributes.queue@.len() == 0
    &&& c.attributes.allocated_capacity == 0
}

/// `c2` is `c1` with the quads `added` appended to its queue.
pub open spec fn appended<T>(c1: DrawCall<T>, c2: DrawCall<T>, added: Seq<Seq<Vertex<T>>>) -> bool {
    let n = c1.attributes.queue@.len();
    &&& c2.texture == c1.texture
    &&& c2.program == c1.program
    &&& c2.attributes.vbo == c1.attributes.vbo
    &&& c2.attributes.vao == c1.attributes.vao
    &&& c2.attributes.allocated_capacity == c1.attributes.allocated_capacity
    &&& c2.attributes.queue@.len() == n + added.len()
    &&& c2.attributes.queue@.subrange(0, n as int) == c1.attributes.queue@
    &&& forall|m: int| 0 <= m < added.len() ==> (#[trigger] c2.attributes.queue@[n + m])@ == added[m]
}

/// `s` is the submission of draw call `index`, which was `c` before the
/// frame, on `profile`.
pub open spec fn submission_of<T>(s: Submission<T>, index: usize, c: DrawCall<T>, profile: Profile) -> bool {
    &&& s.index == index
    &&& s.program == c.program
    &&& s.texture == c.texture
    &&& s.vbo == c.attributes.vbo
    &&& s.vao == c.attributes.vao
    &&& s.bind_attribs_per_draw == (profile == Profile::Legacy)
    &&& s.upload == upload_action_spec(c.attributes.payload_spec(), c.attributes.allocated_capacity)
    &&& s.vertex_count == QUAD_VERTICES * c.attributes.queue@.len()
    &&& s.quads@ == c.attributes.queue@
}

/// `c2` is `c1` after its queue was submitted (or skipped, when empty).
pub open spec fn flushed<T>(c1: DrawCall<T>, c2: DrawCall<T>) -> bool {
    &&& c2.texture == c1.texture
    &&& c2.program == c1.program
    &&& c2.attributes.vbo == c1.attributes.vbo
    &&& c2.attributes.vao == c1.attributes.vao
    &&& c2.attributes.queue@.len() == 0
    &&& c2.attributes.allocated_capacity == capacity_after(
        upload_action_spec(c1.attributes.payload_spec(), c1.attributes.allocated_capacity),
        c1.attributes.allocated_capacity,
    )
}

impl<T: Copy> Renderer<T> {
    /// Every queue can still report its size, and a draw call has a
    /// vertex-layout object exactly on the modern profile.
    pub open spec fn wf(&self) -> bool {
        forall|i: int|
            0 <= i < self.calls@.len() ==> {
                &&& (#[trigger] self.calls@[i]).attributes.wf()
                &&& (self.calls@[i].attributes.vao is Some) == (self.profile == Profile::Modern)
            }
    }

    /// Quads queued in draw call `index`.
    pub open spec fn queue_spec(&self, index: int) -> Seq<TexQuad<T>> {
        self.calls@[index].attributes.queue@
    }

    /// An empty registry for a legacy or a modern context.
    pub fn new(legacy_mode: bool) -> (r: Self)
        ensures
            r.wf(),
            r.calls@.len() == 0,
            (r.profile == Profile::Legacy) == legacy_mode,
    {
        Renderer { calls: Vec::new(), profile: Profile::from_legacy_mode(legacy_mode) }
    }

    /// Whether draw calls are bound the legacy way.
    pub fn legacy_mode(&self) -> (r: bool)
        ensures
            r == (self.profile == Profile::Legacy),
    {
        !self.profile.has_vertex_layout()
    }

    /// Number of draw calls created so far.
    pub fn draw_call_count(&self) -> (r: usize)
        ensures
            r == self.calls@.len(),
    {
        self.calls.len()
    }

    /// Appends a draw call made from `objects`; its index is the registry's
    /// old length.
    fn register(&mut self, objects: GpuObjects) -> (index: usize)
        requires
            old(self).wf(),
        ensures
            final(self).wf(),
            final(self).profile == old(self).profile,
            index == old(self).calls@.len(),
            final(self).calls@.len() == old(self).calls@.len() + 1,
            final(self).calls@.subrange(0, index as int) == old(self).calls@,
            fresh_call(final(self).calls@[index as int], objects, old(self).profile),
    {
        let vao = if self.profile.has_vertex_layout() {
            Some(objects.vao)
        } else {
            None
        };
        let index = self.calls.len();
        self.calls.push(
            DrawCall {
                texture: objects.texture,
                program: objects.program,
                attributes: AttributeBuffer::new(objects.vbo, vao),
            },
        );
        assert(self.calls@.subrange(0, index as int) =~= old(self).calls@);
        index
    }

    /// Creates a draw call whose texture holds `image` (RGBA) and returns
    /// its index, the number of draw calls made before it. An image whose
    /// pixels do not match its dimensions is refused and the registry stays
    /// as it was.
    pub fn create_draw_call(&mut self, objects: GpuObjects, image: &Image) -> (r: Result<
        usize,
        RenderError,
    >)
        requires
            old(self).wf(),
        ensures
            final(self).wf(),
            final(self).profile == old(self).profile,
            image.fits_spec(PixelFormat::Rgba) ==> {
                &&& r == Ok::<usize, RenderError>(old(self).calls@.len() as usize)
                &&& final(self).calls@.len() == old(self).calls@.len() + 1
                &&& final(self).calls@.subrange(0, old(self).calls@.len() as int) == old(
                    self,
                ).calls@
                &&& fresh_call(final(self).calls@[old(self).calls@.len() as int], objects, old(self).profile)
            },
            !image.fits_spec(PixelFormat::Rgba) ==> {
                &&& r == Err::<usize, RenderError>(RenderError::ImageDecodeError)
                &&& final(self).calls@ == old(self).calls@
            },
    {
        match image.check(PixelFormat::Rgba) {
            Ok(()) => Ok(self.register(objects)),
            Err(e) => Err(e),
        }
    }

    /// The texture of draw call `index`.
    pub fn get_texture(&self, index: usize) -> (r: Result<u32, RenderError>)
        ensures
            index < self.calls@.len() ==> r == Ok::<u32, RenderError>(self.calls@[index as int].texture),
            index >= self.calls@.len() ==> r == Err::<u32, RenderError>(RenderError::InvalidDrawCallIndex),
    {
        if index < self.calls.len() {
            Ok(self.calls[index].texture)
        } else {
            Err(RenderError::InvalidDrawCallIndex)
        }
    }

    /// Number of quads queued in draw call `index`.
    pub fn queue_len(&self, index: usize) -> (r: Result<usize, RenderError>)
        ensures
            index < self.calls@.len() ==> r == Ok::<usize, RenderError>(self.calls@[index as int].attributes.queue@.len() as usize),
            index >= self.calls@.len() ==> r == Err::<usize, RenderError>(RenderError::InvalidDrawCallIndex),
    {
        if index < self.calls.len() {
            Ok(self.calls[index].attributes.queue.len())
        } else {
            Err(RenderError::InvalidDrawCallIndex)
        }
    }
    /// Appends `quad` to the queue of draw call `index`.
    fn push_quad(&mut self, index: usize, quad: TexQuad<T>)
        requires
            old(self).wf(),
            index < old(self).calls@.len(),
            old(self).calls@[index as int].attributes.queue@.len() < MAX_QUEUED_QUADS,
        ensures
            final(self).wf(),
            final(self).profile == old(self).profile,
            final(self).calls@.len() == old(self).calls@.len(),
            forall|j: int| 0 <= j < old(self).calls@.len() && j != index ==> final(self).calls@[j] == old(self).calls@[j],
            appended(old(self).calls@[index as int], final(self).calls@[index as int], seq![quad@]),
    {
        self.calls[index].attributes.append(quad);
        assert(self.calls@[index as int].attributes.queue@.subrange(0, old(self).calls@[index as int].attributes.queue@.len() as int)
            =~= old(self).calls@[index as int].attributes.queue@);
    }

    /// Queues the axis-aligned quad over `coords = (left, top, right,
    /// bottom)` into draw call `tex_index`; no GPU work. `texcoords` has the
    /// same arrangement, `color` tints it and `z` orders it.
    pub fn draw_quad(
        &mut self,
        coords: (T, T, T, T),
        texcoords: (T, T, T, T),
        color: ColorAttribute,
        z: T,
        tex_index: usize,
    ) -> (r: Result<(), RenderError>)
        requires
            old(self).wf(),
            tex_index < old(self).calls@.len() ==> old(self).calls@[tex_index as int].attributes.queue@.len() < MAX_QUEUED_QUADS,
        ensures
            final(self).wf(),
            final(self).profile == old(self).profile,
            tex_index >= old(self).calls@.len() ==> {
                &&& r == Err::<(), RenderError>(RenderError::InvalidDrawCallIndex)
                &&& final(self).calls@ == old(self).calls@
            },
            tex_index < old(self).calls@.len() ==> {
                &&& r is Ok
                &&& final(self).calls@.len() == old(self).calls@.len()
                &&& forall|j: int| 0 <= j < old(self).calls@.len() && j != tex_index ==> final(self).calls@[j] == old(self).calls@[j]
                &&& appended(
                    old(self).calls@[tex_index as int],
                    final(self).calls@[tex_index as int],
                    seq![axis_aligned_quad_spec(coords, texcoords, color, z)],
                )
            },
    {
        if tex_index >= self.calls.len() {
            return Err(RenderError::InvalidDrawCallIndex);
        }
        let quad = axis_aligned_quad(coords, texcoords, color, z);
        self.push_quad(tex_index, quad);
        Ok(())
    }

    /// Queues the quad with corners `tl`, `tr`, `br`, `bl` (already placed,
    /// for instance rotated about the quad's center) into draw call
    /// `tex_index`, with the unrotated texture rectangle `texcoords`.
    pub fn draw_quad_corners(
        &mut self,
        tl: (T, T),
        tr: (T, T),
        br: (T, T),
        bl: (T, T),
        texcoords: (T, T, T, T),
        color: ColorAttribute,
        z: T,
        tex_index: usize,
    ) -> (r: Result<(), RenderError>)
        requires
            old(self).wf(),
            tex_index < old(self).calls@.len() ==> old(self).calls@[tex_index as int].attributes.queue@.len() < MAX_QUEUED_QUADS,
        ensures
            final(self).wf(),
            final(self).profile == old(self).profile,
            tex_index >= old(self).calls@.len() ==> {
                &&& r == Err::<(), RenderError>(RenderError::InvalidDrawCallIndex)
                &&& final(self).calls@ == old(self).calls@
            },
            tex_index < old(self).calls@.len() ==> {
                &&& r is Ok
                &&& final(self).calls@.len() == old(self).calls@.len()
                &&& forall|j: int| 0 <= j < old(self).calls@.len() && j != tex_index ==> final(self).calls@[j] == old(self).calls@[j]
                &&& appended(
                    old(self).calls@[tex_index as int],
                    final(self).calls@[tex_index as int],
                    seq![quad_spec(tl, tr, br, bl, texcoords, color, z)],
                )
            },
    {
        if tex_index >= self.calls.len() {
            return Err(RenderError::InvalidDrawCallIndex);
        }
        let quad = quad_from_corners(tl, tr, br, bl, texcoords, color, z);
        self.push_quad(tex_index, quad);
        Ok(())
    }

    /// Queues the nine cells of `grid` into draw call `tex_index`, row by
    /// row from the top left.
    pub fn draw_quad_ninepatch(
        &mut self,
        grid: &NinePatchGrid<T>,
        color: ColorAttribute,
        z: T,
        tex_index: usize,
    ) -> (r: Result<(), RenderError>)
        requires
            old(self).wf(),
            tex_index < old(self).calls@.len() ==> old(self).calls@[tex_index as int].attributes.queue@.len() + 9 <= MAX_QUEUED_QUADS,
        ensures
            final(self).wf(),
            final(self).profile == old(self).profile,
            tex_index >= old(self).calls@.len() ==> {
                &&& r == Err::<(), RenderError>(RenderError::InvalidDrawCallIndex)
                &&& final(self).calls@ == old(self).calls@
            },
            tex_index < old(self).calls@.len() ==> {
                &&& r is Ok
                &&& final(self).calls@.len() == old(self).calls@.len()
                &&& forall|j: int| 0 <= j < old(self).calls@.len() && j != tex_index ==> final(self).calls@[j] == old(self).calls@[j]
                &&& appended(
                    old(self).calls@[tex_index as int],
                    final(self).calls@[tex_index as int],
                    Seq::new(9, |k: int| nine_patch_cell_spec(*grid, k, color, z)),
                )
            },
    {
        if tex_index >= self.calls.len() {
            return Err(RenderError::InvalidDrawCallIndex);
        }
        let quads = nine_patch_quads(grid, color, z);
        let ghost n0 = self.calls@[tex_index as int].attributes.queue@.len();
        let ghost added = Seq::new(9, |k: int| nine_patch_cell_spec(*grid, k, color, z));
        assert(self.calls@[tex_index as int].attributes.queue@.subrange(0, n0 as int)
            =~= self.calls@[tex_index as int].attributes.queue@);
        let mut k: usize = 0;
        while k < 9
            invariant
                0 <= k <= 9,
                quads@.len() == 9,
                forall|m: int| 0 <= m < 9 ==> (#[trigger] quads@[m])@ == added[m],
                added.len() == 9,
                self.wf(),
                self.profile == old(self).profile,
                tex_index < old(self).calls@.len(),
                n0 == old(self).calls@[tex_index as int].attributes.queue@.len(),
                n0 + 9 <= MAX_QUEUED_QUADS,
                self.calls@.len() == old(self).calls@.len(),
                forall|j: int| 0 <= j < old(self).calls@.len() && j != tex_index ==> self.calls@[j] == old(self).calls@[j],
                appended(old(self).calls@[tex_index as int], self.calls@[tex_index as int], added.subrange(0, k as int)),
            decreases 9 - k,
        {
            let ghost before = self.calls@[tex_index as int];
            self.push_quad(tex_index, quads[k]);
            proof {
                let c0 = old(self).calls@[tex_index as int];
                let c2 = self.calls@[tex_index as int];
                assert(c2.attributes.queue@.subrange(0, n0 as int) =~= c0.attributes.queue@) by {
                    assert(c2.attributes.queue@.subrange(0, n0 + k) =~= before.attributes.queue@);
                    assert(before.attributes.queue@.subrange(0, n0 as int) =~= c0.attributes.queue@);
                }
                assert forall|m: int| 0 <= m < k + 1 implies (#[trigger] c2.attributes.queue@[n0 + m])@ == added.subrange(0, k + 1)[m] by {
                    if m < k {
                        assert(c2.attributes.queue@[n0 + m] == before.attributes.queue@[n0 + m]) by {
                            assert(c2.attributes.queue@.subrange(0, n0 + k)[n0 + m] == c2.attributes.queue@[n0 + m]);
                        }
                        assert(before.attributes.queue@[n0 + m]@ == added.subrange(0, k as int)[m]);
                    } else {
                        assert(c2.attributes.queue@[n0 + k + 0]@ == seq![quads@[k as int]@][0]);
                    }
                }
            }
            k = k + 1;
        }
        assert(added.subrange(0, 9) =~= added);
        Ok(())
    }
    /// Ends the frame: for each draw call with queued quads, in registry
    /// order, plans its upload, moves its quads into a submission and
    /// empties its queue. Draw calls with nothing queued produce nothing.
    pub fn render(&mut self) -> (r: Vec<Submission<T>>)
        requires
            old(self).wf(),
        ensures
            final(self).wf(),
            final(self).profile == old(self).profile,
            final(self).calls@.len() == old(self).calls@.len(),
            forall|i: int| 0 <= i < old(self).calls@.len() ==> flushed(old(self).calls@[i], #[trigger] final(self).calls@[i]),
            forall|k: int| 0 <= k < r@.len() ==> {
                &&& (#[trigger] r@[k]).index < old(self).calls@.len()
                &&& old(self).calls@[r@[k].index as int].attributes.queue@.len() > 0
                &&& submission_of(r@[k], r@[k].index, old(self).calls@[r@[k].index as int], old(self).profile)
            },
            forall|k1: int, k2: int| 0 <= k1 < k2 < r@.len() ==> r@[k1].index < r@[k2].index,
            forall|i: int| 0 <= i < old(self).calls@.len() && old(self).calls@[i].attributes.queue@.len() > 0
                ==> exists|k: int| 0 <= k < r@.len() && (#[trigger] r@[k]).index == i,
    {
        let legacy = !self.profile.has_vertex_layout();
        let mut r: Vec<Submission<T>> = Vec::new();
        let n = self.calls.len();
        let mut i: usize = 0;
        while i < n
            invariant
                0 <= i <= n,
                n == old(self).calls@.len(),
                legacy == (old(self).profile == Profile::Legacy),
                self.wf(),
                self.profile == old(self).profile,
                self.calls@.len() == n,
                forall|j: int| 0 <= j < i ==> flushed(old(self).calls@[j], #[trigger] self.calls@[j]),
                forall|j: int| i <= j < n ==> #[trigger] self.calls@[j] == old(self).calls@[j],
                forall|k: int| 0 <= k < r@.len() ==> {
                    &&& (#[trigger] r@[k]).index < i
                    &&& old(self).calls@[r@[k].index as int].attributes.queue@.len() > 0
                    &&& submission_of(r@[k], r@[k].index, old(self).calls@[r@[k].index as int], old(self).profile)
                },
                forall|k1: int, k2: int| 0 <= k1 < k2 < r@.len() ==> r@[k1].index < r@[k2].index,
                forall|j: int| 0 <= j < i && old(self).calls@[j].attributes.queue@.len() > 0
                    ==> exists|k: int| 0 <= k < r@.len() && (#[trigger] r@[k]).index == j,
            decreases n - i,
        {
            if self.calls[i].attributes.queue.len() > 0 {
                let (upload, quads) = self.calls[i].attributes.flush();
                let call = &self.calls[i];
                proof {
                    assert(quads@.len() <= MAX_QUEUED_QUADS);
                }
                let vertex_count = QUAD_VERTICES * quads.len();
                let s = Submission {
                    index: i,
                    program: call.program,
                    texture: call.texture,
                    vbo: call.attributes.vbo,
                    vao: call.attributes.vao,
                    bind_attribs_per_draw: legacy,
                    upload,
                    vertex_count,
                    quads,
                };
                let ghost r0 = r@;
                r.push(s);
                proof {
                    assert(r@[r@.len() - 1].index == i);
                    assert forall|j: int| 0 <= j < i + 1 && old(self).calls@[j].attributes.queue@.len() > 0
                        implies exists|k: int| 0 <= k < r@.len() && (#[trigger] r@[k]).index == j by {
                        if j < i {
                            let k0 = choose|k: int| 0 <= k < r0.len() && (#[trigger] r0[k]).index == j;
                            assert(r@[k0] == r0[k0]);
                        } else {
                            assert(r@[r@.len() - 1].index == j);
                        }
                    }
                }
            } else {
                proof {
                    let c = self.calls@[i as int];
                    assert(c.attributes.payload_spec() == 0);
                }
            }
            i = i + 1;
        }
        r
    }
}


/// Sets up the registry for a legacy or a modern context with its two
/// built-in draw calls: `ui` at `DRAW_CALL_INDEX_UI`, whose texture holds
/// the RGBA `ui_spritesheet_image`, and `text` at `DRAW_CALL_INDEX_TEXT` for
/// the glyph cache. A sprite sheet whose pixels do not match its dimensions
/// is refused.
pub fn initialize_renderer<T: Copy>(
    legacy_mode: bool,
    ui: GpuObjects,
    text: GpuObjects,
    ui_spritesheet_image: &Image,
) -> (r: Result<Renderer<T>, RenderError>)
    ensures
        ui_spritesheet_image.fits_spec(PixelFormat::Rgba) <==> r is Ok,
        !ui_spritesheet_image.fits_spec(PixelFormat::Rgba) ==> r == Err::<Renderer<T>, RenderError>(
            RenderError::ImageDecodeError,
        ),
        r matches Ok(renderer) ==> {
            &&& renderer.wf()
            &&& (renderer.profile == Profile::Legacy) == legacy_mode
            &&& renderer.calls@.len() == 2
            &&& fresh_call(renderer.calls@[DRAW_CALL_INDEX_UI as int], ui, renderer.profile)
            &&& fresh_call(renderer.calls@[DRAW_CALL_INDEX_TEXT as int], text, renderer.profile)
        },
{
    match ui_spritesheet_image.check(PixelFormat::Rgba) {
        Ok(()) => {
            let mut renderer = Renderer::new(legacy_mode);
            renderer.register(ui);
            renderer.register(text);
            Ok(renderer)
        },
        Err(e) => Err(e),
    }
}

} // verus!

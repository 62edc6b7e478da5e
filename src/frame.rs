use vstd::prelude::*;
use crate::ids::{ImageID, ShapeID};
use crate::render::{RenderError, Renderer};
use crate::shape::{Point3, Shape2D, Shape2DInternal};

verus! {

broadcast use vstd::std_specs::hash::group_hash_axioms;

/// A 2D homogeneous transform as a column-major 3x3 matrix; each entry is the
/// bit pattern of an `f32`.
#[derive(Debug, Clone, Copy)]
pub struct Mat3 {
    pub cols: [Point3; 3],
}

/// The little-endian bytes of a word.
pub open spec fn le_bytes(w: u32) -> Seq<u8> {
    seq![(w % 0x100) as u8, ((w / 0x100) % 0x100) as u8, ((w / 0x1_0000) % 0x100) as u8, (w / 0x100_0000) as u8]
}

/// One matrix column as the shaders read it: three words and four bytes of
/// padding, sixteen bytes in all.
pub open spec fn column_bytes(c: Point3) -> Seq<u8> {
    le_bytes(c.x) + le_bytes(c.y) + le_bytes(c.z) + seq![0u8, 0u8, 0u8, 0u8]
}

/// The push-constant block of a draw: the three columns of the transform,
/// each padded to sixteen bytes.
pub open spec fn push_constant_bytes(m: Mat3) -> Seq<u8> {
    column_bytes(m.cols@[0]) + column_bytes(m.cols@[1]) + column_bytes(m.cols@[2])
}

/// Appends the little-endian bytes of `w`.
fn push_word(out: &mut Vec<u8>, w: u32)
    ensures
        final(out)@ == old(out)@ + le_bytes(w),
{
    out.push((w % 0x100) as u8);
    out.push(((w / 0x100) % 0x100) as u8);
    out.push(((w / 0x1_0000) % 0x100) as u8);
    out.push((w / 0x100_0000) as u8);
    assert(final(out)@ =~= old(out)@ + le_bytes(w));
}

/// Appends one padded matrix column.
fn push_column(out: &mut Vec<u8>, c: Point3)
    ensures
        final(out)@ == old(out)@ + column_bytes(c),
{
    push_word(out, c.x);
    push_word(out, c.y);
    push_word(out, c.z);
    out.push(0);
    out.push(0);
    out.push(0);
    out.push(0);
    assert(final(out)@ =~= old(out)@ + column_bytes(c));
}

/// The push-constant block that carries transform `m` to the shaders.
pub fn push_constants(m: &Mat3) -> (r: Vec<u8>)
    ensures
        r@ == push_constant_bytes(*m),
        r@.len() == 48,
{
    let mut bytes: Vec<u8> = Vec::with_capacity(64);
    push_column(&mut bytes, m.cols[0]);
    push_column(&mut bytes, m.cols[1]);
    push_column(&mut bytes, m.cols[2]);
    assert(bytes@ =~= push_constant_bytes(*m));
    bytes
}

/// The three fixed graphics pipelines.
#[derive(Debug, Clone, Copy, PartialEq, Eq, Structural)]
pub enum PipelineKind {
    /// A line strip.
    Line,
    /// A filled triangle list with a color per vertex.
    ColorPoly,
    /// A filled triangle list that samples a texture.
    TexturePoly,
}

/// One render pass that draws one shape onto the swapchain image.
#[derive(Debug, Clone)]
pub struct DrawPass {
    pub kind: PipelineKind,
    /// How many passes of this kind the frame holds up to and with this one;
    /// it names the pass when tracing.
    pub ordinal: usize,
    pub shape: ShapeID,
    /// The image bound to the pass's descriptor, for a textured polygon.
    pub texture: Option<ImageID>,
    pub push_constants: Vec<u8>,
    /// Vertices drawn for a line, indices drawn for a polygon.
    pub element_count: usize,
}

/// A command of a frame's graph.
#[derive(Debug, Clone)]
pub enum Command {
    /// Clears the swapchain image.
    ClearColor,
    Draw(DrawPass),
}

/// The work of one frame, in order, and the size of the swapchain image that
/// it targets.
#[derive(Debug, Clone)]
pub struct RenderGraph {
    pub width: u32,
    pub height: u32,
    pub commands: Vec<Command>,
}

/// A frame being recorded: from `Renderer::begin` to `finish`.
pub struct RenderFrame {
    pub graph: RenderGraph,
    pub line_count: usize,
    pub clr_poly_count: usize,
    pub tex_poly_count: usize,
}

impl DrawPass {
    /// `self` draws the shape registered under `id` with GPU data `shape`,
    /// transform `m`, as pass number `ordinal` of its kind.
    pub open spec fn draws(&self, id: ShapeID, shape: Shape2DInternal, m: Mat3, ordinal: int) -> bool {
        &&& self.shape == id
        &&& self.push_constants@ == push_constant_bytes(m)
        &&& self.ordinal == ordinal
        &&& match shape {
            Shape2DInternal::Line(_, n) => {
                &&& self.kind == PipelineKind::Line
                &&& self.texture is None
                &&& self.element_count == n
            },
            Shape2DInternal::ColorPoly { index_count, .. } => {
                &&& self.kind == PipelineKind::ColorPoly
                &&& self.texture is None
                &&& self.element_count == index_count
            },
            Shape2DInternal::TexturePoly { index_count, texture, .. } => {
                &&& self.kind == PipelineKind::TexturePoly
                &&& self.texture == Some(texture)
                &&& self.element_count == index_count
            },
        }
    }
}

/// The pipeline that draws a shape's GPU data.
pub open spec fn kind_of(shape: Shape2DInternal) -> PipelineKind {
    match shape {
        Shape2DInternal::Line(..) => PipelineKind::Line,
        Shape2DInternal::ColorPoly { .. } => PipelineKind::ColorPoly,
        Shape2DInternal::TexturePoly { .. } => PipelineKind::TexturePoly,
    }
}

impl RenderFrame {
    /// The graph opens with one clear, and the counters add up to the passes
    /// that follow it.
    pub open spec fn wf(&self) -> bool {
        &&& self.graph.commands@.len() >= 1
        &&& self.graph.commands@[0] is ClearColor
        &&& self.line_count + self.clr_poly_count + self.tex_poly_count + 1
            == self.graph.commands@.len()
    }

    /// The counter of passes of kind `k`.
    pub open spec fn count_of(&self, k: PipelineKind) -> int {
        match k {
            PipelineKind::Line => self.line_count as int,
            PipelineKind::ColorPoly => self.clr_poly_count as int,
            PipelineKind::TexturePoly => self.tex_poly_count as int,
        }
    }

    /// A frame just begun on `r`: a clear of a swapchain image of the
    /// renderer's current size, and no pass yet.
    pub open spec fn begun_on(&self, r: Renderer) -> bool {
        &&& self.wf()
        &&& self.graph.commands@.len() == 1
        &&& self.graph.width == r.swapchain.width
        &&& self.graph.height == r.swapchain.height
        &&& self.line_count == 0
        &&& self.clr_poly_count == 0
        &&& self.tex_poly_count == 0
    }

    /// Records one pass that draws shape `id` with transform `m`.
    pub fn shape2d(&mut self, renderer: &Renderer, id: ShapeID, m: &Mat3) -> (r: Result<(), RenderError>)
        requires
            old(self).wf(),
        ensures
            final(self).wf(),
            !renderer.d2.shapes@.contains_key(id.0) ==> {
                &&& r == Err::<(), RenderError>(RenderError::ShapeNotFound)
                &&& *final(self) == *old(self)
            },
            renderer.d2.shapes@.contains_key(id.0) ==> {
                let shape = renderer.d2.shapes@[id.0].0;
                let k = kind_of(shape);
                &&& r is Ok
                &&& final(self).graph.width == old(self).graph.width
                &&& final(self).graph.height == old(self).graph.height
                &&& final(self).graph.commands@.len() == old(self).graph.commands@.len() + 1
                &&& final(self).graph.commands@.drop_last() == old(self).graph.commands@
                &&& final(self).graph.commands@.last() matches Command::Draw(pass)
                &&& final(self).graph.commands@.last()->Draw_0.draws(id, shape, *m, old(self).count_of(k) + 1)
                &&& final(self).count_of(k) == old(self).count_of(k) + 1
                &&& forall|j: PipelineKind| j != k ==> #[trigger] final(self).count_of(j) == old(self).count_of(j)
            },
    {
        let entry = self.graph.commands.len();
        let shape = match renderer.d2.shapes.get(&id.0) {
            Some(e) => &e.0,
            None => return Err(RenderError::ShapeNotFound),
        };
        let bytes = push_constants(m);
        let pass = match shape {
            Shape2DInternal::Line(_, vertex_count) => {
                self.line_count = self.line_count + 1;
                DrawPass {
                    kind: PipelineKind::Line,
                    ordinal: self.line_count,
                    shape: id,
                    texture: None,
                    push_constants: bytes,
                    element_count: *vertex_count,
                }
            },
            Shape2DInternal::ColorPoly { index_count, .. } => {
                self.clr_poly_count = self.clr_poly_count + 1;
                DrawPass {
                    kind: PipelineKind::ColorPoly,
                    ordinal: self.clr_poly_count,
                    shape: id,
                    texture: None,
                    push_constants: bytes,
                    element_count: *index_count,
                }
            },
            Shape2DInternal::TexturePoly { index_count, texture, .. } => {
                self.tex_poly_count = self.tex_poly_count + 1;
                DrawPass {
                    kind: PipelineKind::TexturePoly,
                    ordinal: self.tex_poly_count,
                    shape: id,
                    texture: Some(*texture),
                    push_constants: bytes,
                    element_count: *index_count,
                }
            },
        };
        self.graph.commands.push(Command::Draw(pass));
        assert(self.graph.commands@.drop_last() =~= old(self).graph.commands@);
        Ok(())
    }

    /// Ends recording and hands over the frame's work for submission.
    pub fn finish(self) -> (r: RenderGraph)
        ensures
            r == self.graph,
    {
        self.graph
    }
}

impl Renderer {
    /// Opens a frame on the acquired swapchain image; `image_acquired` says
    /// whether the presentation engine had one ready.
    pub fn begin(&self, image_acquired: bool) -> (r: Result<RenderFrame, RenderError>)
        ensures
            !image_acquired ==> r == Err::<RenderFrame, RenderError>(RenderError::NoImageAvailable),
            image_acquired ==> (r matches Ok(frame) && frame.begun_on(*self)),
    {
        if !image_acquired {
            return Err(RenderError::NoImageAvailable);
        }
        let mut commands: Vec<Command> = Vec::new();
        commands.push(Command::ClearColor);
        Ok(RenderFrame {
            graph: RenderGraph {
                width: self.swapchain.width,
                height: self.swapchain.height,
                commands,
            },
            line_count: 0,
            clr_poly_count: 0,
            tex_poly_count: 0,
        })
    }
}

/// A frame begun after a resize targets a swapchain image of the new size.
pub proof fn lemma_begin_after_resize(r: Renderer, width: u32, height: u32, frame: RenderFrame)
    requires
        frame.begun_on(Renderer::resized(r, width, height)),
    ensures
        frame.graph.width == width,
        frame.graph.height == height,
{
}

/// Drawing a textured polygon binds exactly the image that the shape was
/// registered with, and uses the textured pipeline.
pub proof fn lemma_draw_binds_own_texture(
    internal: Shape2DInternal,
    shape: Shape2D,
    pass: DrawPass,
    id: ShapeID,
    m: Mat3,
    ordinal: int,
    image: ImageID,
)
    requires
        internal.derived_from(&shape),
        shape.texture_of() == Some(image),
        pass.draws(id, internal, m, ordinal),
    ensures
        pass.texture == Some(image),
        pass.kind == PipelineKind::TexturePoly,
{
}

} // verus!

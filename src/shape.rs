use vstd::prelude::*;
use crate::ids::ImageID;

verus! {

/// A point or UV coordinate in 2D. Each coordinate is the bit pattern of an
/// `f32` (as `f32::to_bits` gives it): the core moves coordinates into GPU
/// buffers without reading them as numbers.
#[derive(Debug, Clone, Copy, PartialEq, Eq, Structural)]
pub struct Point2 {
    pub x: u32,
    pub y: u32,
}

/// A point in 3D, each coordinate the bit pattern of an `f32`.
#[derive(Debug, Clone, Copy, PartialEq, Eq, Structural)]
pub struct Point3 {
    pub x: u32,
    pub y: u32,
    pub z: u32,
}

/// A linear RGBA color, each channel the bit pattern of an `f32`.
#[derive(Debug, Clone, Copy, PartialEq, Eq, Structural)]
pub struct Color {
    pub r: u32,
    pub g: u32,
    pub b: u32,
    pub a: u32,
}

/// A declarative description of a 2D shape.
#[derive(Debug, Clone)]
pub enum Shape2D {
    /// A list of points where each point connects to the next one to form a line
    Line(Vec<Color>, Vec<Point2>),
    ColorPolygon {
        colors: Vec<Color>,
        /// The vertex positions for the triangles
        vertices: Vec<Point2>,
        /// A list of indices for each triangle. Length should be a multiple of 3.
        indices: Vec<u16>,
    },
    TexturePolygon {
        texture: ImageID,
        /// The UV for each vertex
        uvs: Vec<Point2>,
        /// The vertex positions for the triangles
        vertices: Vec<Point2>,
        /// A list of indices for each triangle. Length should be a multiple of 3.
        indices: Vec<u16>,
    },
}

/// A 3D shape description. No pipeline draws these yet.
#[derive(Debug, Clone)]
pub enum Shape3 {
    ColorPolygon {
        colors: Vec<Color>,
        /// The vertex positions for the triangles
        vertices: Vec<Point3>,
        /// A list of indices for each triangle. Length should be a multiple of 3.
        indices: Vec<u16>,
    },
    TexturePolygon {
        texture: u128,
        /// The UV for each vertex
        uvs: Vec<Point2>,
        /// The vertex positions for the triangles
        vertices: Vec<Point3>,
        /// A list of indices for each triangle. Length should be a multiple of 3.
        indices: Vec<u16>,
    },
}

/// The data of a registered shape as the GPU receives it: interleaved vertex
/// words, the triangle indices, and the texture it samples.
#[derive(Debug, Clone)]
pub enum Shape2DInternal {
    /// Interleaved position and color words, and the number of vertices.
    Line(Vec<u32>, usize),
    ColorPoly {
        vertex_color: Vec<u32>,
        index_count: usize,
        index: Vec<u16>,
    },
    TexturePoly {
        vert_uv: Vec<u32>,
        index_count: usize,
        index: Vec<u16>,
        texture: ImageID,
    },
}

/// Every index names one of `n` vertices, and the indices form whole triangles.
pub open spec fn valid_triangles(indices: Seq<u16>, n: nat) -> bool {
    &&& indices.len() % 3 == 0
    &&& forall|i: int| 0 <= i < indices.len() ==> (#[trigger] indices[i]) < n
}

/// The six words of one vertex of a line or flat polygon: `x, y, r, g, b, a`.
pub open spec fn color_vertex_words(v: Point2, c: Color) -> Seq<u32> {
    seq![v.x, v.y, c.r, c.g, c.b, c.a]
}

/// The four words of one vertex of a textured polygon: `x, y, u, v`.
pub open spec fn uv_vertex_words(v: Point2, uv: Point2) -> Seq<u32> {
    seq![v.x, v.y, uv.x, uv.y]
}

/// The first `n` vertices with their colors, interleaved.
pub open spec fn color_words(vertices: Seq<Point2>, colors: Seq<Color>, n: nat) -> Seq<u32>
    decreases n,
{
    if n == 0 {
        Seq::empty()
    } else {
        color_words(vertices, colors, (n - 1) as nat) + color_vertex_words(
            vertices[n - 1],
            colors[n - 1],
        )
    }
}

/// The first `n` vertices with their UVs, interleaved.
pub open spec fn uv_words(vertices: Seq<Point2>, uvs: Seq<Point2>, n: nat) -> Seq<u32>
    decreases n,
{
    if n == 0 {
        Seq::empty()
    } else {
        uv_words(vertices, uvs, (n - 1) as nat) + uv_vertex_words(vertices[n - 1], uvs[n - 1])
    }
}

impl Shape2D {
    /// Per-vertex arrays agree in length, and polygons index their own
    /// vertices in whole triangles.
    pub open spec fn valid(&self) -> bool {
        match self {
            Shape2D::Line(colors, vertices) => colors@.len() == vertices@.len(),
            Shape2D::ColorPolygon { colors, vertices, indices } => {
                &&& colors@.len() == vertices@.len()
                &&& valid_triangles(indices@, vertices@.len())
            },
            Shape2D::TexturePolygon { uvs, vertices, indices, .. } => {
                &&& uvs@.len() == vertices@.len()
                &&& valid_triangles(indices@, vertices@.len())
            },
        }
    }

    /// The image that the shape samples, if it is textured.
    pub open spec fn texture_of(&self) -> Option<ImageID> {
        match self {
            Shape2D::TexturePolygon { texture, .. } => Some(*texture),
            _ => None,
        }
    }

    /// Whether the shape is well formed (see `valid`).
    pub fn is_valid(&self) -> (r: bool)
        ensures
            r == self.valid(),
    {
        match self {
            Shape2D::Line(colors, vertices) => colors.len() == vertices.len(),
            Shape2D::ColorPolygon { colors, vertices, indices } => {
                colors.len() == vertices.len() && triangles_ok(indices, vertices.len())
            },
            Shape2D::TexturePolygon { uvs, vertices, indices, .. } => {
                uvs.len() == vertices.len() && triangles_ok(indices, vertices.len())
            },
        }
    }
}

/// Whether `indices` forms whole triangles over `n` vertices.
pub fn triangles_ok(indices: &Vec<u16>, n: usize) -> (r: bool)
    ensures
        r == valid_triangles(indices@, n as nat),
{
    if indices.len() % 3 != 0 {
        return false;
    }
    let mut i: usize = 0;
    while i < indices.len()
        invariant
            i <= indices@.len(),
            forall|j: int| 0 <= j < i ==> (#[trigger] indices@[j]) < n,
        decreases indices@.len() - i,
    {
        if indices[i] as usize >= n {
            return false;
        }
        i = i + 1;
    }
    true
}

/// Positions and colors interleaved into one vertex buffer, six words a vertex.
pub fn interleave_colors(vertices: &Vec<Point2>, colors: &Vec<Color>) -> (r: Vec<u32>)
    requires
        colors@.len() == vertices@.len(),
    ensures
        r@ == color_words(vertices@, colors@, vertices@.len()),
{
    let mut r: Vec<u32> = Vec::new();
    let mut i: usize = 0;
    while i < vertices.len()
        invariant
            i <= vertices@.len(),
            colors@.len() == vertices@.len(),
            r@ == color_words(vertices@, colors@, i as nat),
        decreases vertices@.len() - i,
    {
        let v = vertices[i];
        let c = colors[i];
        r.push(v.x);
        r.push(v.y);
        r.push(c.r);
        r.push(c.g);
        r.push(c.b);
        r.push(c.a);
        i = i + 1;
        assert(r@ =~= color_words(vertices@, colors@, i as nat));
    }
    r
}

/// Positions and UVs interleaved into one vertex buffer, four words a vertex.
pub fn interleave_uvs(vertices: &Vec<Point2>, uvs: &Vec<Point2>) -> (r: Vec<u32>)
    requires
        uvs@.len() == vertices@.len(),
    ensures
        r@ == uv_words(vertices@, uvs@, vertices@.len()),
{
    let mut r: Vec<u32> = Vec::new();
    let mut i: usize = 0;
    while i < vertices.len()
        invariant
            i <= vertices@.len(),
            uvs@.len() == vertices@.len(),
            r@ == uv_words(vertices@, uvs@, i as nat),
        decreases vertices@.len() - i,
    {
        let v = vertices[i];
        let uv = uvs[i];
        r.push(v.x);
        r.push(v.y);
        r.push(uv.x);
        r.push(uv.y);
        i = i + 1;
        assert(r@ =~= uv_words(vertices@, uvs@, i as nat));
    }
    r
}

/// A copy of an index list.
fn copy_indices(indices: &Vec<u16>) -> (r: Vec<u16>)
    ensures
        r@ == indices@,
{
    let mut r: Vec<u16> = Vec::new();
    let mut i: usize = 0;
    while i < indices.len()
        invariant
            i <= indices@.len(),
            r@ == indices@.take(i as int),
        decreases indices@.len() - i,
    {
        r.push(indices[i]);
        i = i + 1;
        assert(r@ =~= indices@.take(i as int));
    }
    assert(r@ =~= indices@);
    r
}

impl Shape2DInternal {
    /// `self` holds exactly the GPU data of shape `s`.
    pub open spec fn derived_from(&self, s: &Shape2D) -> bool {
        match s {
            Shape2D::Line(colors, vertices) => match self {
                Shape2DInternal::Line(words, count) => {
                    &&& words@ == color_words(vertices@, colors@, vertices@.len())
                    &&& *count == vertices@.len()
                },
                _ => false,
            },
            Shape2D::ColorPolygon { colors, vertices, indices } => match self {
                Shape2DInternal::ColorPoly { vertex_color, index_count, index } => {
                    &&& vertex_color@ == color_words(vertices@, colors@, vertices@.len())
                    &&& index@ == indices@
                    &&& *index_count == indices@.len()
                },
                _ => false,
            },
            Shape2D::TexturePolygon { texture, uvs, vertices, indices } => match self {
                Shape2DInternal::TexturePoly { vert_uv, index_count, index, texture: t } => {
                    &&& vert_uv@ == uv_words(vertices@, uvs@, vertices@.len())
                    &&& index@ == indices@
                    &&& *index_count == indices@.len()
                    &&& *t == *texture
                },
                _ => false,
            },
        }
    }

    /// The GPU data of a well-formed shape.
    pub fn from_shape(s: &Shape2D) -> (r: Shape2DInternal)
        requires
            s.valid(),
        ensures
            r.derived_from(s),
    {
        match s {
            Shape2D::Line(colors, vertices) => {
                Shape2DInternal::Line(interleave_colors(vertices, colors), vertices.len())
            },
            Shape2D::ColorPolygon { colors, vertices, indices } => Shape2DInternal::ColorPoly {
                vertex_color: interleave_colors(vertices, colors),
                index_count: indices.len(),
                index: copy_indices(indices),
            },
            Shape2D::TexturePolygon { texture, uvs, vertices, indices } => {
                Shape2DInternal::TexturePoly {
                    vert_uv: interleave_uvs(vertices, uvs),
                    index_count: indices.len(),
                    index: copy_indices(indices),
                    texture: *texture,
                }
            },
        }
    }
}

} // verus!

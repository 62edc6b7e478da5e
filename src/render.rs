use vstd::prelude::*;
use std::collections::HashMap;
use crate::ids::{new_uuid, ImageID, ShapeID};
use crate::shape::{Shape2D, Shape2DInternal};

verus! {

broadcast use vstd::std_specs::hash::group_hash_axioms;

/// Why a renderer operation did not happen.
#[derive(Debug, Clone, Copy, PartialEq, Eq, Structural)]
pub enum RenderError {
    /// A textured shape names an image that is not registered.
    TextureNotFound,
    /// A draw names a shape that is not registered.
    ShapeNotFound,
    /// A shape's per-vertex arrays differ in length, or its indices do not
    /// form whole triangles over its vertices.
    InvalidShape,
    /// A pixel buffer does not hold four bytes for each pixel.
    InvalidImage,
    /// A freshly drawn identifier is already registered.
    IdInUse,
    /// The presentation engine had no swapchain image ready.
    NoImageAvailable,
}

/// The size of the swapchain images, in pixels.
#[derive(Debug, Clone, Copy, PartialEq, Eq, Structural)]
pub struct SwapchainInfo {
    pub width: u32,
    pub height: u32,
}

/// An uploaded RGBA8 sRGB image.
#[derive(Debug, Clone, Copy, PartialEq, Eq, Structural)]
pub struct ImageInfo {
    pub width: u32,
    pub height: u32,
}

/// The registered 2D shapes: for each, its GPU data and its description.
pub struct State2D {
    pub shapes: HashMap<u128, (Shape2DInternal, Shape2D)>,
}

impl State2D {
    pub fn new() -> (r: State2D)
        ensures
            r.shapes@ == Map::<u128, (Shape2DInternal, Shape2D)>::empty(),
    {
        State2D { shapes: HashMap::new() }
    }
}

/// The renderer's bookkeeping: which images and shapes exist, and the size of
/// the swapchain that frames are drawn to.
pub struct Renderer {
    /// Only supports 32bit RGBA-sRGB 2D images
    pub images: HashMap<u128, ImageInfo>,
    /// Data to process 2D shapes
    pub d2: State2D,
    pub swapchain: SwapchainInfo,
}

/// A pixel buffer of `width` by `height` RGBA8 pixels holds four bytes a pixel.
pub open spec fn rgba_len_ok(len: nat, width: u32, height: u32) -> bool {
    len == 4 * (width as int * height as int)
}

impl Renderer {
    pub fn new(width: u32, height: u32) -> (r: Renderer)
        ensures
            r.images@ == Map::<u128, ImageInfo>::empty(),
            r.d2.shapes@ == Map::<u128, (Shape2DInternal, Shape2D)>::empty(),
            r.swapchain == (SwapchainInfo { width, height }),
    {
        Renderer {
            images: HashMap::new(),
            d2: State2D::new(),
            swapchain: SwapchainInfo { width, height },
        }
    }

    /// What registering an image of that size and pixel count under `id` gives.
    pub open spec fn upload_outcome(&self, id: ImageID, width: u32, height: u32, len: nat) -> Result<
        ImageID,
        RenderError,
    > {
        if !rgba_len_ok(len, width, height) {
            Err(RenderError::InvalidImage)
        } else if self.images@.contains_key(id.0) {
            Err(RenderError::IdInUse)
        } else {
            Ok(id)
        }
    }

    /// `shape` samples an image that is not registered.
    pub open spec fn texture_missing(&self, shape: Shape2D) -> bool {
        match shape.texture_of() {
            Some(t) => !self.images@.contains_key(t.0),
            None => false,
        }
    }

    /// What registering `shape` under `id` gives.
    pub open spec fn add_outcome(&self, id: ShapeID, shape: Shape2D) -> Result<ShapeID, RenderError> {
        if self.texture_missing(shape) {
            Err(RenderError::TextureNotFound)
        } else if !shape.valid() {
            Err(RenderError::InvalidShape)
        } else if self.d2.shapes@.contains_key(id.0) {
            Err(RenderError::IdInUse)
        } else {
            Ok(id)
        }
    }

    /// `self` is `old` with only its image registry changed.
    pub open spec fn images_changed_only(&self, old: &Renderer) -> bool {
        &&& self.d2.shapes@ == old.d2.shapes@
        &&& self.swapchain == old.swapchain
    }

    /// `self` is `old` with only its shape registry changed.
    pub open spec fn shapes_changed_only(&self, old: &Renderer) -> bool {
        &&& self.images@ == old.images@
        &&& self.swapchain == old.swapchain
    }

    /// Registers an image of `width` by `height` RGBA8 pixels under `id`.
    pub fn upload_image_with_id(&mut self, id: ImageID, width: u32, height: u32, pixels: &Vec<u8>) -> (r: Result<ImageID, RenderError>)
        ensures
            r == old(self).upload_outcome(id, width, height, pixels@.len()),
            final(self).images_changed_only(old(self)),
            r is Ok ==> final(self).images@ == old(self).images@.insert(
                id.0,
                ImageInfo { width, height },
            ),
            r is Err ==> final(self).images@ == old(self).images@,
    {
        assert((width as int) * (height as int) <= 0xFFFF_FFFF_FFFF_FFFF) by (nonlinear_arith)
            requires
                0 <= width <= 0xFFFF_FFFF,
                0 <= height <= 0xFFFF_FFFF,
        ;
        let pixel_count: u128 = (width as u128) * (height as u128);
        if pixels.len() as u128 != 4 * pixel_count {
            return Err(RenderError::InvalidImage);
        }
        if self.images.contains_key(&id.0) {
            return Err(RenderError::IdInUse);
        }
        self.images.insert(id.0, ImageInfo { width, height });
        Ok(id)
    }

    /// Registers an image under a fresh random identifier.
    pub fn upload_image(&mut self, width: u32, height: u32, pixels: &Vec<u8>) -> (r: Result<ImageID, RenderError>)
        ensures
            final(self).images_changed_only(old(self)),
            r == Err::<ImageID, RenderError>(RenderError::InvalidImage) <==> !rgba_len_ok(pixels@.len(), width, height),
            r is Err ==> r == Err::<ImageID, RenderError>(RenderError::InvalidImage) || r == Err::<ImageID, RenderError>(RenderError::IdInUse),
            r is Err ==> final(self).images@ == old(self).images@,
            r == Err::<ImageID, RenderError>(RenderError::IdInUse) ==> exists|k: u128|
                old(self).images@.contains_key(k),
            old(self).images@ == Map::<u128, ImageInfo>::empty() && rgba_len_ok(pixels@.len(), width, height)
                ==> r is Ok,
            r matches Ok(id) ==> {
                &&& !old(self).images@.contains_key(id.0)
                &&& final(self).images@ == old(self).images@.insert(id.0, ImageInfo { width, height })
            },
    {
        let id = ImageID(new_uuid());
        let r = self.upload_image_with_id(id, width, height, pixels);
        assert(r == Err::<ImageID, RenderError>(RenderError::IdInUse) ==> old(self).images@.contains_key(id.0));
        r
    }

    /// Registers `shape` under `id`, with the GPU data derived from it.
    pub fn add_shape2d_with_id(&mut self, id: ShapeID, shape: Shape2D) -> (r: Result<ShapeID, RenderError>)
        ensures
            r == old(self).add_outcome(id, shape),
            final(self).shapes_changed_only(old(self)),
            r is Err ==> final(self).d2.shapes@ == old(self).d2.shapes@,
            r is Ok ==> {
                &&& final(self).d2.shapes@.dom() == old(self).d2.shapes@.dom().insert(id.0)
                &&& forall|k: u128| k != id.0 && #[trigger] old(self).d2.shapes@.contains_key(k)
                    ==> final(self).d2.shapes@[k] == old(self).d2.shapes@[k]
                &&& final(self).d2.shapes@[id.0].1 == shape
                &&& final(self).d2.shapes@[id.0].0.derived_from(&shape)
            },
    {
        match &shape {
            Shape2D::TexturePolygon { texture, .. } => {
                if !self.images.contains_key(&texture.0) {
                    return Err(RenderError::TextureNotFound);
                }
            },
            _ => {},
        }
        if !shape.is_valid() {
            return Err(RenderError::InvalidShape);
        }
        if self.d2.shapes.contains_key(&id.0) {
            return Err(RenderError::IdInUse);
        }
        let internal = Shape2DInternal::from_shape(&shape);
        self.d2.shapes.insert(id.0, (internal, shape));
        Ok(id)
    }

    /// Registers `shape` under a fresh random identifier.
    pub fn add_shape2d(&mut self, shape: Shape2D) -> (r: Result<ShapeID, RenderError>)
        ensures
            final(self).shapes_changed_only(old(self)),
            r is Err ==> final(self).d2.shapes@ == old(self).d2.shapes@,
            r == Err::<ShapeID, RenderError>(RenderError::TextureNotFound) <==> old(self).texture_missing(shape),
            r == Err::<ShapeID, RenderError>(RenderError::InvalidShape) <==> {
                &&& !old(self).texture_missing(shape)
                &&& !shape.valid()
            },
            r is Err ==> r == Err::<ShapeID, RenderError>(RenderError::TextureNotFound)
                || r == Err::<ShapeID, RenderError>(RenderError::InvalidShape)
                || r == Err::<ShapeID, RenderError>(RenderError::IdInUse),
            r == Err::<ShapeID, RenderError>(RenderError::IdInUse) ==> exists|k: u128|
                old(self).d2.shapes@.contains_key(k),
            old(self).d2.shapes@ == Map::<u128, (Shape2DInternal, Shape2D)>::empty()
                && !old(self).texture_missing(shape) && shape.valid() ==> r is Ok,
            r matches Ok(id) ==> {
                &&& !old(self).d2.shapes@.contains_key(id.0)
                &&& final(self).d2.shapes@.dom() == old(self).d2.shapes@.dom().insert(id.0)
                &&& forall|k: u128| k != id.0 && #[trigger] old(self).d2.shapes@.contains_key(k)
                    ==> final(self).d2.shapes@[k] == old(self).d2.shapes@[k]
                &&& final(self).d2.shapes@[id.0].1 == shape
                &&& final(self).d2.shapes@[id.0].0.derived_from(&shape)
            },
    {
        let id = ShapeID(new_uuid());
        let r = self.add_shape2d_with_id(id, shape);
        assert(r == Err::<ShapeID, RenderError>(RenderError::IdInUse) ==> old(self).d2.shapes@.contains_key(id.0));
        r
    }

    /// Forgets an image. Shapes that sample it keep their own reference.
    pub fn drop_image(&mut self, id: ImageID)
        ensures
            final(self).images@ == old(self).images@.remove(id.0),
            final(self).images_changed_only(old(self)),
    {
        self.images.remove(&id.0);
    }

    /// Forgets a shape.
    pub fn drop_shape2d(&mut self, id: ShapeID)
        ensures
            final(self).d2.shapes@ == old(self).d2.shapes@.remove(id.0),
            final(self).shapes_changed_only(old(self)),
    {
        self.d2.shapes.remove(&id.0);
    }

    /// `old` after the window was resized to `width` by `height` pixels.
    pub open spec fn resized(old: Renderer, width: u32, height: u32) -> Renderer {
        Renderer { swapchain: SwapchainInfo { width, height }, ..old }
    }

    /// Takes the window's new size for the swapchain images that follow.
    pub fn on_resize_event(&mut self, width: u32, height: u32)
        ensures
            *final(self) == Renderer::resized(*old(self), width, height),
    {
        self.swapchain = SwapchainInfo { width, height };
    }
}

/// A well-formed flat-colored polygon is always accepted under an identifier
/// that is not in use yet.
pub proof fn lemma_valid_color_polygon_added(r: Renderer, id: ShapeID, shape: Shape2D)
    requires
        shape is ColorPolygon,
        shape.valid(),
        !r.d2.shapes@.contains_key(id.0),
    ensures
        !r.texture_missing(shape),
        r.add_outcome(id, shape) == Ok::<ShapeID, RenderError>(id),
{
}

/// A textured polygon whose image is not registered is refused with
/// `TextureNotFound`, whatever the identifier and the rest of the shape.
pub proof fn lemma_missing_texture_refused(r: Renderer, id: ShapeID, shape: Shape2D)
    requires
        shape matches Shape2D::TexturePolygon { texture, .. } && !r.images@.contains_key(texture.0),
    ensures
        r.add_outcome(id, shape) == Err::<ShapeID, RenderError>(RenderError::TextureNotFound),
{
}

/// Removing an entry twice is the same as removing it once, and removal leaves
/// every other entry as it was. Both registries remove entries this way.
pub proof fn lemma_remove_idempotent<V>(m: Map<u128, V>, k: u128)
    ensures
        m.remove(k).remove(k) == m.remove(k),
        forall|j: u128| j != k ==> (#[trigger] m.remove(k).contains_key(j) <==> m.contains_key(j)),
        forall|j: u128| j != k && m.contains_key(j) ==> #[trigger] m.remove(k)[j] == m[j],
{
    assert(m.remove(k).remove(k) =~= m.remove(k));
}

} // verus!

//! What is allocated on the device at startup, decided from the capability
//! key and the raw assets before any device call is made.

use vstd::prelude::*;

verus! {

/// Why no resource set could be made. Construction happens once, at startup,
/// and none of these is retried.
#[derive(Clone, Copy, Debug, PartialEq, Eq, Structural)]
pub enum ResourceCreationError {
    /// No stored shader variant serves the backend.
    UnsupportedBackend,
    /// The vertex bytes are not a whole number of vertices.
    MalformedVertexData,
    /// An image is empty, too large for the device, or its pixel bytes do
    /// not match its dimensions.
    MalformedImage,
    /// A cubemap does not have exactly six faces.
    CubemapFaceCount,
    /// The faces of a cubemap are not squares of one size.
    CubemapFaceSize,
    /// The device could not allocate what was planned.
    DeviceAllocation,
}

/// A failed construction is fatal: the application does not start.
pub type ConstructionError = ResourceCreationError;

/// The two OpenGL shading-language families.
#[derive(Clone, Copy, Debug, PartialEq, Eq, Structural)]
pub enum GlslFamily {
    /// Desktop GLSL.
    Desktop,
    /// GLSL ES.
    Embedded,
}

/// The backend that the host reports at startup. A GLSL version is written
/// as the shading language writes it: 1.50 is major 1, minor 50.
#[derive(Clone, Copy, Debug, PartialEq, Eq, Structural)]
pub enum CapabilityKey {
    /// Desktop GLSL of the given version.
    Glsl { major: u16, minor: u16 },
    /// GLSL ES of the given version.
    GlslEs { major: u16, minor: u16 },
    /// Direct3D with the given shader model, 40 for model 4.0.
    Hlsl { model: u16 },
}

/// One shader stage, precompiled for each backend that the application
/// ships. An empty blob means that the variant is absent.
#[derive(Clone, Debug, PartialEq, Eq)]
pub struct ShaderSource {
    /// GLSL 1.20 text.
    pub glsl_120: Vec<u8>,
    /// GLSL 1.50 text.
    pub glsl_150: Vec<u8>,
    /// Direct3D bytecode for shader model 4.0.
    pub hlsl_40: Vec<u8>,
}

/// The GLSL number of a version: 150 for 1.50.
pub open spec fn glsl_number(major: u16, minor: u16) -> int {
    major * 100 + minor
}

/// The stored GLSL variant that serves a backend of the given family and
/// version: the highest stored one that the version reaches. No GLSL ES
/// variant is stored.
pub open spec fn glsl_variant(
    source: ShaderSource,
    family: GlslFamily,
    major: u16,
    minor: u16,
) -> Option<Seq<u8>> {
    if family is Embedded {
        None
    } else if source.glsl_150@.len() > 0 && glsl_number(major, minor) >= 150 {
        Some(source.glsl_150@)
    } else if source.glsl_120@.len() > 0 && glsl_number(major, minor) >= 120 {
        Some(source.glsl_120@)
    } else {
        None
    }
}

/// The stored variant that serves `key`, if any.
pub open spec fn variant_for(source: ShaderSource, key: CapabilityKey) -> Option<Seq<u8>> {
    match key {
        CapabilityKey::Glsl { major, minor } => glsl_variant(
            source,
            GlslFamily::Desktop,
            major,
            minor,
        ),
        CapabilityKey::GlslEs { major, minor } => glsl_variant(
            source,
            GlslFamily::Embedded,
            major,
            minor,
        ),
        CapabilityKey::Hlsl { model } => if source.hlsl_40@.len() > 0 && model >= 40 {
            Some(source.hlsl_40@)
        } else {
            None
        },
    }
}

#[verifier::external_type_specification]
#[verifier::external_body]
pub struct ExSelectError(gfx_app::shade::SelectError);

/// Calls `gfx_app::shade::Source::select` on the GLSL variants of `source`,
/// all other variants left empty, for a `Glsl` or `GlslEs` backend of the
/// given version.
///
/// Trusted: the result is the blob that `glsl_variant` names, and an error
/// exactly where it names none. The outside function tries 1.50 before 1.20
/// for desktop GLSL, takes a variant only if it is not empty and the version
/// number reaches it, and finds every GLSL ES variant empty.
#[verifier::external_body]
fn select_glsl(source: &ShaderSource, family: GlslFamily, major: u16, minor: u16) -> (picked:
    Result<Vec<u8>, gfx_app::shade::SelectError>)
    ensures
        match glsl_variant(*source, family, major, minor) {
            Some(blob) => picked matches Ok(bytes) && bytes@ == blob,
            None => picked is Err,
        },
{
    let stored = gfx_app::shade::Source {
        glsl_120: &source.glsl_120,
        glsl_150: &source.glsl_150,
        ..gfx_app::shade::Source::empty()
    };
    let version = gfx_app::shade::GlslVersion::new(major.into(), minor.into(), None, "");
    let backend = match family {
        GlslFamily::Desktop => gfx_app::shade::Backend::Glsl(version),
        GlslFamily::Embedded => gfx_app::shade::Backend::GlslEs(version),
    };
    match stored.select(backend) {
        Ok(blob) => Ok(blob.to_vec()),
        Err(error) => Err(error),
    }
}

/// Picks the shader variant for the backend.
pub fn select_shader(source: &ShaderSource, key: CapabilityKey) -> (picked: Result<
    Vec<u8>,
    ResourceCreationError,
>)
    ensures
        match variant_for(*source, key) {
            Some(blob) => picked matches Ok(bytes) && bytes@ == blob,
            None => picked == Err::<Vec<u8>, _>(ResourceCreationError::UnsupportedBackend),
        },
{
    match key {
        CapabilityKey::Glsl { major, minor } => {
            match select_glsl(source, GlslFamily::Desktop, major, minor) {
                Ok(bytes) => Ok(bytes),
                Err(_) => Err(ResourceCreationError::UnsupportedBackend),
            }
        },
        CapabilityKey::GlslEs { major, minor } => {
            match select_glsl(source, GlslFamily::Embedded, major, minor) {
                Ok(bytes) => Ok(bytes),
                Err(_) => Err(ResourceCreationError::UnsupportedBackend),
            }
        },
        CapabilityKey::Hlsl { model } => {
            if source.hlsl_40.len() > 0 && model >= 40 {
                Ok(source.hlsl_40.clone())
            } else {
                Err(ResourceCreationError::UnsupportedBackend)
            }
        },
    }
}

/// Bytes of one texel: red, green, blue and alpha, eight bits each.
pub const TEXEL_BYTES: u64 = 4;

/// Largest width or height that the device takes.
pub const MAX_TEXTURE_SIZE: u32 = 0xFFFF;

/// An image after decoding: rows of RGBA texels.
#[derive(Clone, Debug, PartialEq, Eq)]
pub struct DecodedImage {
    /// Texels in a row.
    pub width: u32,
    /// Number of rows.
    pub height: u32,
    /// The texels, row by row.
    pub pixels: Vec<u8>,
}

/// The six faces of a cubemap by the direction they show.
#[derive(Clone, Debug, PartialEq, Eq)]
pub struct CubemapFaces {
    /// The face at +Y.
    pub up: DecodedImage,
    /// The face at -Y.
    pub down: DecodedImage,
    /// The face at +Z.
    pub front: DecodedImage,
    /// The face at -Z.
    pub back: DecodedImage,
    /// The face at +X.
    pub right: DecodedImage,
    /// The face at -X.
    pub left: DecodedImage,
}

impl CubemapFaces {
    /// The faces in the order the device maps them: +X, -X, +Y, -Y, +Z, -Z.
    pub fn as_array(self) -> (faces: Vec<DecodedImage>)
        ensures
            faces@ == seq![self.right, self.left, self.up, self.down, self.front, self.back],
    {
        let mut faces: Vec<DecodedImage> = Vec::new();
        faces.push(self.right);
        faces.push(self.left);
        faces.push(self.up);
        faces.push(self.down);
        faces.push(self.front);
        faces.push(self.back);
        faces
    }
}

/// A texture to create, as decoded images.
#[derive(Clone, Debug, PartialEq, Eq)]
pub enum TextureInput {
    /// One two-dimensional image.
    Flat(DecodedImage),
    /// The faces of a cubemap in device order: +X, -X, +Y, -Y, +Z, -Z.
    Cubemap(Vec<DecodedImage>),
}

/// The storage of a texture on the device.
#[derive(Clone, Copy, Debug, PartialEq, Eq, Structural)]
pub enum TextureShape {
    /// A two-dimensional texture.
    Flat { width: u16, height: u16 },
    /// Six square faces of `size` texels a side.
    Cube { size: u16 },
}

/// Everything the builder is given besides the capability key.
#[derive(Clone, Debug, PartialEq, Eq)]
pub struct ResourceInput {
    /// The vertex stage, one blob per backend.
    pub vertex_shader: ShaderSource,
    /// The pixel stage, one blob per backend.
    pub pixel_shader: ShaderSource,
    /// The vertex array as raw bytes.
    pub vertex_bytes: Vec<u8>,
    /// Bytes of one vertex.
    pub vertex_stride: usize,
    /// The textures, in binding order. Each gets a sampler.
    pub textures: Vec<TextureInput>,
    /// Number of constant buffers.
    pub constant_buffers: usize,
}

/// An image is well formed when neither side is zero or above the device
/// limit and it has four bytes for each texel.
pub open spec fn image_well_formed(image: DecodedImage) -> bool {
    &&& 0 < image.width <= MAX_TEXTURE_SIZE
    &&& 0 < image.height <= MAX_TEXTURE_SIZE
    &&& image.pixels@.len() == image.width * image.height * TEXEL_BYTES
}

/// The faces are squares of the size of the first.
pub open spec fn faces_match(faces: Seq<DecodedImage>) -> bool {
    forall|i: int|
        0 <= i < faces.len() ==> (#[trigger] faces[i]).width == faces[0].width
            && faces[i].height == faces[0].width
}

/// The storage that a texture gets, or why it gets none. A cubemap is
/// judged by its face count first, then by its images, then by their sizes.
pub open spec fn texture_shape(texture: TextureInput) -> Result<TextureShape, ResourceCreationError> {
    match texture {
        TextureInput::Flat(image) => if image_well_formed(image) {
            Ok(TextureShape::Flat { width: image.width as u16, height: image.height as u16 })
        } else {
            Err(ResourceCreationError::MalformedImage)
        },
        TextureInput::Cubemap(faces) => if faces@.len() != 6 {
            Err(ResourceCreationError::CubemapFaceCount)
        } else if !(forall|i: int| 0 <= i < 6 ==> image_well_formed(#[trigger] faces@[i])) {
            Err(ResourceCreationError::MalformedImage)
        } else if !faces_match(faces@) {
            Err(ResourceCreationError::CubemapFaceSize)
        } else {
            Ok(TextureShape::Cube { size: faces@[0].width as u16 })
        },
    }
}

/// The storage of each texture in order, or the error of the first texture
/// that has one.
pub open spec fn texture_shapes(textures: Seq<TextureInput>) -> Result<
    Seq<TextureShape>,
    ResourceCreationError,
>
    decreases textures.len(),
{
    if textures.len() == 0 {
        Ok(Seq::empty())
    } else {
        match texture_shapes(textures.drop_last()) {
            Err(error) => Err(error),
            Ok(shapes) => match texture_shape(textures.last()) {
                Err(error) => Err(error),
                Ok(shape) => Ok(shapes.push(shape)),
            },
        }
    }
}

/// Number of vertices in `len` bytes of `stride` bytes each, where the bytes
/// are a whole number of vertices that a draw call can count.
pub open spec fn vertex_count(len: nat, stride: nat) -> Option<nat> {
    if stride > 0 && len % stride == 0 && len / stride <= u32::MAX {
        Some(len / stride)
    } else {
        None
    }
}

/// Tests an image against the device limits and its own dimensions.
pub fn check_image(image: &DecodedImage) -> (ok: bool)
    ensures
        ok == image_well_formed(*image),
{
    if image.width == 0 || image.width > MAX_TEXTURE_SIZE {
        return false;
    }
    if image.height == 0 || image.height > MAX_TEXTURE_SIZE {
        return false;
    }
    let width: u64 = image.width as u64;
    let height: u64 = image.height as u64;
    assert(width * height <= 0xFFFF * 0xFFFF) by (nonlinear_arith)
        requires
            width <= 0xFFFF,
            height <= 0xFFFF,
    ;
    let texels: u64 = width * height;
    image.pixels.len() as u64 == texels * TEXEL_BYTES
}

/// Decides the storage of one texture.
pub fn shape_texture(texture: &TextureInput) -> (shape: Result<TextureShape, ResourceCreationError>)
    ensures
        shape == texture_shape(*texture),
{
    match texture {
        TextureInput::Flat(image) => {
            if check_image(image) {
                Ok(TextureShape::Flat { width: image.width as u16, height: image.height as u16 })
            } else {
                Err(ResourceCreationError::MalformedImage)
            }
        },
        TextureInput::Cubemap(faces) => {
            if faces.len() != 6 {
                return Err(ResourceCreationError::CubemapFaceCount);
            }
            let mut i: usize = 0;
            while i < 6
                invariant
                    i <= 6,
                    faces@.len() == 6,
                    *texture == TextureInput::Cubemap(*faces),
                    forall|j: int| 0 <= j < i ==> image_well_formed(#[trigger] faces@[j]),
                decreases 6 - i,
            {
                if !check_image(&faces[i]) {
                    assert(!image_well_formed(faces@[i as int]));
                    return Err(ResourceCreationError::MalformedImage);
                }
                i += 1;
            }
            let size: u32 = faces[0].width;
            let mut k: usize = 0;
            while k < 6
                invariant
                    k <= 6,
                    faces@.len() == 6,
                    *texture == TextureInput::Cubemap(*faces),
                    size == faces@[0].width,
                    forall|j: int| 0 <= j < 6 ==> image_well_formed(#[trigger] faces@[j]),
                    forall|j: int|
                        0 <= j < k ==> (#[trigger] faces@[j]).width == size && faces@[j].height
                            == size,
                decreases 6 - k,
            {
                if faces[k].width != size || faces[k].height != size {
                    assert(faces@[k as int].width != faces@[0].width || faces@[k as int].height
                        != faces@[0].width);
                    return Err(ResourceCreationError::CubemapFaceSize);
                }
                k += 1;
            }
            assert(faces_match(faces@));
            Ok(TextureShape::Cube { size: size as u16 })
        },
    }
}

/// The vertices that one draw call covers.
#[derive(Clone, Copy, Debug, PartialEq, Eq, Structural)]
pub struct SliceDescriptor {
    /// First vertex of the range.
    pub start: u32,
    /// End of the range, exclusive.
    pub end: u32,
    /// Offset added to every index.
    pub base_vertex: u32,
}

/// What a resource set is made of, as mathematical values.
pub struct ResourceModel {
    /// The vertex stage chosen for the backend.
    pub vertex_shader: Seq<u8>,
    /// The pixel stage chosen for the backend.
    pub pixel_shader: Seq<u8>,
    /// Size of the vertex buffer in bytes.
    pub vertex_buffer_len: nat,
    /// The vertices to draw.
    pub slice: SliceDescriptor,
    /// The storage of each texture, in binding order.
    pub textures: Seq<TextureShape>,
    /// Number of constant buffers.
    pub constant_buffers: nat,
}

/// What the builder decides for a key and an input: the resources to
/// allocate, or the first reason why there are none. The shaders are judged
/// first, then the vertex bytes, then the textures in order.
pub open spec fn layout_of(key: CapabilityKey, input: ResourceInput) -> Result<
    ResourceModel,
    ResourceCreationError,
> {
    match (
        variant_for(input.vertex_shader, key),
        variant_for(input.pixel_shader, key),
        vertex_count(input.vertex_bytes@.len(), input.vertex_stride as nat),
        texture_shapes(input.textures@),
    ) {
        (None, _, _, _) => Err(ResourceCreationError::UnsupportedBackend),
        (_, None, _, _) => Err(ResourceCreationError::UnsupportedBackend),
        (_, _, None, _) => Err(ResourceCreationError::MalformedVertexData),
        (_, _, _, Err(error)) => Err(error),
        (Some(vertex_shader), Some(pixel_shader), Some(count), Ok(textures)) => Ok(
            ResourceModel {
                vertex_shader,
                pixel_shader,
                vertex_buffer_len: input.vertex_bytes@.len(),
                slice: SliceDescriptor { start: 0, end: count as u32, base_vertex: 0 },
                textures,
                constant_buffers: input.constant_buffers as nat,
            },
        ),
    }
}

/// The resources to allocate, fixed before the first device call.
#[derive(Debug)]
pub struct ResourceLayout {
    vertex_shader: Vec<u8>,
    pixel_shader: Vec<u8>,
    vertex_buffer_len: usize,
    slice: SliceDescriptor,
    textures: Vec<TextureShape>,
    constant_buffers: usize,
}

impl View for ResourceLayout {
    type V = ResourceModel;

    closed spec fn view(&self) -> ResourceModel {
        ResourceModel {
            vertex_shader: self.vertex_shader@,
            pixel_shader: self.pixel_shader@,
            vertex_buffer_len: self.vertex_buffer_len as nat,
            slice: self.slice,
            textures: self.textures@,
            constant_buffers: self.constant_buffers as nat,
        }
    }
}

impl ResourceLayout {
    /// The vertex stage for the backend.
    pub fn vertex_shader(&self) -> (blob: &Vec<u8>)
        ensures
            blob@ == self@.vertex_shader,
    {
        &self.vertex_shader
    }

    /// The pixel stage for the backend.
    pub fn pixel_shader(&self) -> (blob: &Vec<u8>)
        ensures
            blob@ == self@.pixel_shader,
    {
        &self.pixel_shader
    }

    /// Size of the vertex buffer in bytes.
    pub fn vertex_buffer_len(&self) -> (len: usize)
        ensures
            len == self@.vertex_buffer_len,
    {
        self.vertex_buffer_len
    }

    /// The vertices to draw.
    pub fn slice(&self) -> (slice: SliceDescriptor)
        ensures
            slice == self@.slice,
    {
        self.slice
    }

    /// The storage of each texture, in binding order.
    pub fn textures(&self) -> (shapes: &Vec<TextureShape>)
        ensures
            shapes@ == self@.textures,
    {
        &self.textures
    }

    /// Number of constant buffers.
    pub fn constant_buffers(&self) -> (count: usize)
        ensures
            count == self@.constant_buffers,
    {
        self.constant_buffers
    }
}

/// Once a texture has an error, the textures after it do not change it.
proof fn lemma_error_persists(textures: Seq<TextureInput>, k: int)
    requires
        0 <= k <= textures.len(),
        texture_shapes(textures.take(k)) is Err,
    ensures
        texture_shapes(textures) == texture_shapes(textures.take(k)),
    decreases textures.len() - k,
{
    if k == textures.len() {
        assert(textures.take(k) =~= textures);
    } else {
        assert(textures.take(k + 1).drop_last() =~= textures.take(k));
        lemma_error_persists(textures, k + 1);
    }
}

/// Counts the vertices in `len` bytes of `stride` bytes each.
pub fn count_vertices(len: usize, stride: usize) -> (count: Option<u32>)
    ensures
        match vertex_count(len as nat, stride as nat) {
            Some(n) => count == Some(n as u32),
            None => count is None,
        },
{
    if stride == 0 || len % stride != 0 {
        return None;
    }
    let count: usize = len / stride;
    if count > u32::MAX as usize {
        return None;
    }
    Some(count as u32)
}

/// Decides the storage of every texture, in order.
pub fn shape_textures(textures: &Vec<TextureInput>) -> (shapes: Result<
    Vec<TextureShape>,
    ResourceCreationError,
>)
    ensures
        match texture_shapes(textures@) {
            Ok(expected) => shapes matches Ok(found) && found@ == expected,
            Err(error) => shapes == Err::<Vec<TextureShape>, _>(error),
        },
{
    let mut shapes: Vec<TextureShape> = Vec::new();
    let mut i: usize = 0;
    while i < textures.len()
        invariant
            i <= textures.len(),
            texture_shapes(textures@.take(i as int)) == Ok::<_, ResourceCreationError>(shapes@),
        decreases textures.len() - i,
    {
        proof {
            assert(textures@.take(i + 1).drop_last() =~= textures@.take(i as int));
            assert(textures@.take(i + 1).last() == textures@[i as int]);
        }
        match shape_texture(&textures[i]) {
            Err(error) => {
                proof {
                    lemma_error_persists(textures@, i + 1);
                }
                return Err(error);
            },
            Ok(shape) => {
                shapes.push(shape);
            },
        }
        i += 1;
    }
    proof {
        assert(textures@.take(i as int) =~= textures@);
    }
    Ok(shapes)
}

/// Decides what to allocate for the backend `key` from the raw assets, or
/// why nothing can be allocated. Nothing is created on an error.
pub fn plan_resources(key: CapabilityKey, input: &ResourceInput) -> (planned: Result<
    ResourceLayout,
    ResourceCreationError,
>)
    ensures
        match layout_of(key, *input) {
            Ok(model) => planned matches Ok(layout) && layout@ == model,
            Err(error) => planned matches Err(found) && found == error,
        },
{
    let vertex_shader = match select_shader(&input.vertex_shader, key) {
        Ok(blob) => blob,
        Err(error) => {
            return Err(error);
        },
    };
    let pixel_shader = match select_shader(&input.pixel_shader, key) {
        Ok(blob) => blob,
        Err(error) => {
            return Err(error);
        },
    };
    let count = match count_vertices(input.vertex_bytes.len(), input.vertex_stride) {
        Some(count) => count,
        None => {
            return Err(ResourceCreationError::MalformedVertexData);
        },
    };
    let textures = match shape_textures(&input.textures) {
        Ok(shapes) => shapes,
        Err(error) => {
            return Err(error);
        },
    };
    Ok(
        ResourceLayout {
            vertex_shader,
            pixel_shader,
            vertex_buffer_len: input.vertex_bytes.len(),
            slice: SliceDescriptor { start: 0, end: count, base_vertex: 0 },
            textures,
            constant_buffers: input.constant_buffers,
        },
    )
}

/// The resources of one application instance, allocated on the device. It
/// is made once and never changes.
#[derive(Debug)]
pub struct GpuResourceSet {
    layout: ResourceLayout,
}

impl View for GpuResourceSet {
    type V = ResourceModel;

    closed spec fn view(&self) -> ResourceModel {
        self.layout@
    }
}

impl GpuResourceSet {
    /// Takes the device's answer to the allocation of `layout`: the set
    /// exists if and only if the device allocated all of it.
    pub fn from_allocation(layout: ResourceLayout, allocated: bool) -> (made: Result<
        GpuResourceSet,
        ResourceCreationError,
    >)
        ensures
            allocated ==> (made matches Ok(set) && set@ == layout@),
            !allocated ==> (made matches Err(error) && error
                == ResourceCreationError::DeviceAllocation),
    {
        if allocated {
            Ok(GpuResourceSet { layout })
        } else {
            Err(ResourceCreationError::DeviceAllocation)
        }
    }

    /// What was allocated.
    pub fn layout(&self) -> (layout: &ResourceLayout)
        ensures
            layout@ == self@,
    {
        &self.layout
    }
}

/// Two images with the same dimensions and the same texels.
pub open spec fn same_image(a: DecodedImage, b: DecodedImage) -> bool {
    a.width == b.width && a.height == b.height && a.pixels@ == b.pixels@
}

/// Two texture inputs of one kind whose images are the same, one by one.
pub open spec fn same_texture(a: TextureInput, b: TextureInput) -> bool {
    match (a, b) {
        (TextureInput::Flat(x), TextureInput::Flat(y)) => same_image(x, y),
        (TextureInput::Cubemap(x), TextureInput::Cubemap(y)) => x@.len() == y@.len() && forall|
            i: int,
        |
            0 <= i < x@.len() ==> same_image(#[trigger] x@[i], y@[i]),
        _ => false,
    }
}

/// Two shader sources with the same blobs.
pub open spec fn same_source(a: ShaderSource, b: ShaderSource) -> bool {
    a.glsl_120@ == b.glsl_120@ && a.glsl_150@ == b.glsl_150@ && a.hlsl_40@ == b.hlsl_40@
}

/// Two inputs that hold the same bytes and numbers throughout.
pub open spec fn same_input(a: ResourceInput, b: ResourceInput) -> bool {
    &&& same_source(a.vertex_shader, b.vertex_shader)
    &&& same_source(a.pixel_shader, b.pixel_shader)
    &&& a.vertex_bytes@ == b.vertex_bytes@
    &&& a.vertex_stride == b.vertex_stride
    &&& a.textures@.len() == b.textures@.len()
    &&& forall|i: int|
        0 <= i < a.textures@.len() ==> same_texture(#[trigger] a.textures@[i], b.textures@[i])
    &&& a.constant_buffers == b.constant_buffers
}

/// The same texture gets the same storage, or the same error.
proof fn lemma_same_texture_same_shape(a: TextureInput, b: TextureInput)
    requires
        same_texture(a, b),
    ensures
        texture_shape(a) == texture_shape(b),
{
    match (a, b) {
        (TextureInput::Cubemap(x), TextureInput::Cubemap(y)) => {
            if x@.len() == 6 {
                assert forall|i: int| 0 <= i < 6 implies image_well_formed(#[trigger] x@[i])
                    == image_well_formed(y@[i]) by {
                    assert(same_image(x@[i], y@[i]));
                }
                assert(same_image(x@[0], y@[0]));
                assert forall|i: int| 0 <= i < 6 implies (#[trigger] x@[i]).width == y@[i].width
                    && x@[i].height == y@[i].height by {
                    assert(same_image(x@[i], y@[i]));
                }
                if faces_match(x@) {
                    assert forall|i: int| 0 <= i < y@.len() implies (#[trigger] y@[i]).width
                        == y@[0].width && y@[i].height == y@[0].width by {
                        assert(x@[i].width == x@[0].width && x@[i].height == x@[0].width);
                    }
                }
                if faces_match(y@) {
                    assert forall|i: int| 0 <= i < x@.len() implies (#[trigger] x@[i]).width
                        == x@[0].width && x@[i].height == x@[0].width by {
                        assert(y@[i].width == y@[0].width && y@[i].height == y@[0].width);
                    }
                }
                if forall|i: int| 0 <= i < 6 ==> image_well_formed(#[trigger] x@[i]) {
                    assert forall|i: int| 0 <= i < 6 implies image_well_formed(
                        #[trigger] y@[i],
                    ) by {
                        assert(image_well_formed(x@[i]));
                    }
                }
                if forall|i: int| 0 <= i < 6 ==> image_well_formed(#[trigger] y@[i]) {
                    assert forall|i: int| 0 <= i < 6 implies image_well_formed(
                        #[trigger] x@[i],
                    ) by {
                        assert(image_well_formed(y@[i]));
                    }
                }
            }
        },
        _ => {},
    }
}

/// The same textures get the same storage, or the same error.
proof fn lemma_same_textures_same_shapes(a: Seq<TextureInput>, b: Seq<TextureInput>)
    requires
        a.len() == b.len(),
        forall|i: int| 0 <= i < a.len() ==> same_texture(#[trigger] a[i], b[i]),
    ensures
        texture_shapes(a) == texture_shapes(b),
    decreases a.len(),
{
    if a.len() > 0 {
        assert forall|i: int| 0 <= i < a.drop_last().len() implies same_texture(
            #[trigger] a.drop_last()[i],
            b.drop_last()[i],
        ) by {
            assert(same_texture(a[i], b[i]));
        }
        lemma_same_textures_same_shapes(a.drop_last(), b.drop_last());
        assert(same_texture(a[a.len() - 1], b[a.len() - 1]));
        lemma_same_texture_same_shape(a.last(), b.last());
    }
}

/// Construction is deterministic: for every capability key, two inputs that
/// hold the same bytes and numbers give the same resources, with the same
/// buffer sizes and the same texture dimensions, or fail for the same
/// reason.
pub proof fn lemma_construction_deterministic(
    key: CapabilityKey,
    a: ResourceInput,
    b: ResourceInput,
)
    requires
        same_input(a, b),
    ensures
        layout_of(key, a) == layout_of(key, b),
{
    lemma_same_textures_same_shapes(a.textures@, b.textures@);
}

/// A texture that has an error makes the whole list fail.
proof fn lemma_one_error_fails_all(textures: Seq<TextureInput>, i: int)
    requires
        0 <= i < textures.len(),
        texture_shape(textures[i]) is Err,
    ensures
        texture_shapes(textures) is Err,
    decreases textures.len(),
{
    if i < textures.len() - 1 {
        assert(textures.drop_last()[i] == textures[i]);
        lemma_one_error_fails_all(textures.drop_last(), i);
    }
}

/// A cubemap without exactly six faces, or with faces that are not squares
/// of one size, makes construction fail whatever else is given, so no
/// resource set comes to exist.
pub proof fn lemma_bad_cubemap_fails(key: CapabilityKey, input: ResourceInput, i: int)
    requires
        0 <= i < input.textures@.len(),
        input.textures@[i] matches TextureInput::Cubemap(faces) && (faces@.len() != 6
            || !faces_match(faces@)),
    ensures
        layout_of(key, input) is Err,
{
    lemma_one_error_fails_all(input.textures@, i);
}

} // verus!

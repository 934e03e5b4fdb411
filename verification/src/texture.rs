//! Textures: images stored on the GPU.
use vstd::prelude::*;
use crate::call::GlCall;
use crate::codes;
use crate::context::Context;
use crate::dimension::{is_power_of_two, lemma_zero_is_no_power_of_two, power_of_two};
use crate::error::GolemError;
use crate::format::ColorFormat;

verus! {

/// How textures should scale when being drawn at non-native sizes
#[derive(Clone, Copy, Debug, PartialEq, Eq, Structural)]
pub enum TextureFilter {
    /// Smooth out the texture samples as the texture stretches or squashes
    ///
    /// This is best for textures you want to blur as they scale
    Linear,
    /// Pick the nearest texture sample as the texture stretches or squashes
    ///
    /// This is best for textures you want to pixelate as they scale
    Nearest,
}

impl TextureFilter {
    /// The graphics API's code for this filter.
    pub open spec fn code(self) -> i32 {
        match self {
            TextureFilter::Linear => codes::LINEAR as i32,
            TextureFilter::Nearest => codes::NEAREST as i32,
        }
    }

    /// The graphics API's code for this filter, as a parameter value.
    pub fn to_gl(&self) -> (code: i32)
        ensures
            code == self.code(),
    {
        match self {
            TextureFilter::Linear => codes::linear() as i32,
            TextureFilter::Nearest => codes::nearest() as i32,
        }
    }
}

/// How the texture should wrap if a sample is outside the edge
#[derive(Clone, Copy, Debug, PartialEq, Eq, Structural)]
pub enum TextureWrap {
    /// Repeat as though the texture was endlessly tiled
    Repeat,
    /// Choose the closest sample in the texture
    ClampToEdge,
    /// Repeat as though the texture was endlessly tiled, but flipping each time
    MirroredRepeat,
}

impl TextureWrap {
    /// The graphics API's code for this wrap mode.
    pub open spec fn code(self) -> i32 {
        match self {
            TextureWrap::Repeat => codes::REPEAT as i32,
            TextureWrap::ClampToEdge => codes::CLAMP_TO_EDGE as i32,
            TextureWrap::MirroredRepeat => codes::MIRRORED_REPEAT as i32,
        }
    }

    /// The graphics API's code for this wrap mode, as a parameter value.
    pub fn to_gl(&self) -> (code: i32)
        ensures
            code == self.code(),
    {
        match self {
            TextureWrap::Repeat => codes::repeat() as i32,
            TextureWrap::ClampToEdge => codes::clamp_to_edge() as i32,
            TextureWrap::MirroredRepeat => codes::mirrored_repeat() as i32,
        }
    }
}

/// Why an image is refused as a texture's contents.
#[derive(Clone, Copy, Debug, PartialEq, Eq, Structural)]
pub enum ImageFault {
    /// The width is zero.
    ZeroWidth,
    /// The height is zero.
    ZeroHeight,
    /// The width is not below the GPU's maximum.
    WidthTooBig,
    /// The height is not below the GPU's maximum.
    HeightTooBig,
    /// The width is not a power of two.
    WidthNotPowerOfTwo,
    /// The height is not a power of two.
    HeightNotPowerOfTwo,
    /// Data was supplied and is shorter than the image.
    DataTooShort,
}

/// Why a region is refused as the target of a partial upload.
#[derive(Clone, Copy, Debug, PartialEq, Eq, Structural)]
pub enum RegionFault {
    /// The region's right edge lies beyond the texture's width.
    OverRunsWidth,
    /// The region's bottom edge lies beyond the texture's height.
    OverRunsHeight,
    /// The data is shorter than the region.
    DataTooShort,
}

/// Bytes that a `width` by `height` rectangle of pixels takes in `color`.
pub open spec fn image_bytes(width: u32, height: u32, color: ColorFormat) -> nat {
    (width * height * color.pixel_bytes()) as nat
}

/// The length of the data supplied, if any was.
pub open spec fn supplied_len(data: Option<&[u8]>) -> Option<nat> {
    match data {
        Some(bytes) => Some(bytes@.len()),
        None => None,
    }
}

/// A texture may have these dimensions on a GPU whose maximum is `limit`:
/// each is a power of two, which makes it positive, and below `limit`.
pub open spec fn dimensions_accepted(limit: u32, width: u32, height: u32) -> bool {
    &&& is_power_of_two(width as int)
    &&& is_power_of_two(height as int)
    &&& width < limit
    &&& height < limit
}

/// The first reason, in the order of [`ImageFault`]'s variants, for which an
/// image of `width` by `height` pixels in `color`, with `data_len` bytes of
/// data where data is supplied, is refused on a GPU whose maximum is `limit`;
/// `None` where it is accepted.
pub open spec fn image_fault(
    limit: u32,
    data_len: Option<nat>,
    width: u32,
    height: u32,
    color: ColorFormat,
) -> Option<ImageFault> {
    if width == 0 {
        Some(ImageFault::ZeroWidth)
    } else if height == 0 {
        Some(ImageFault::ZeroHeight)
    } else if width >= limit {
        Some(ImageFault::WidthTooBig)
    } else if height >= limit {
        Some(ImageFault::HeightTooBig)
    } else if !is_power_of_two(width as int) {
        Some(ImageFault::WidthNotPowerOfTwo)
    } else if !is_power_of_two(height as int) {
        Some(ImageFault::HeightNotPowerOfTwo)
    } else if data_len is Some && data_len->0 < image_bytes(width, height, color) {
        Some(ImageFault::DataTooShort)
    } else {
        None
    }
}

/// The first reason, in the order of [`RegionFault`]'s variants, for which
/// `data_len` bytes may not be written in `color` to the `width` by `height`
/// rectangle whose corner is at (`x`, `y`) of a texture that is `tex_width`
/// by `tex_height`; `None` where they may.
pub open spec fn region_fault(
    tex_width: u32,
    tex_height: u32,
    data_len: nat,
    x: u32,
    y: u32,
    width: u32,
    height: u32,
    color: ColorFormat,
) -> Option<RegionFault> {
    if x + width > tex_width {
        Some(RegionFault::OverRunsWidth)
    } else if y + height > tex_height {
        Some(RegionFault::OverRunsHeight)
    } else if data_len < image_bytes(width, height, color) {
        Some(RegionFault::DataTooShort)
    } else {
        None
    }
}

/// Whether `len` bytes cover a `width` by `height` rectangle in `color`.
fn covers(len: usize, width: u32, height: u32, color: ColorFormat) -> (yes: bool)
    ensures
        yes == (len >= image_bytes(width, height, color)),
{
    let bytes: u128 = color.bytes_per_pixel() as u128;
    let w: u128 = width as u128;
    let h: u128 = height as u128;
    assert(w * h <= 0xFFFF_FFFF * 0xFFFF_FFFF) by (nonlinear_arith)
        requires
            0 <= w <= 0xFFFF_FFFF,
            0 <= h <= 0xFFFF_FFFF,
    ;
    let area: u128 = w * h;
    assert(area * bytes <= 0xFFFF_FFFF * 0xFFFF_FFFF * 4) by (nonlinear_arith)
        requires
            0 <= area <= 0xFFFF_FFFF * 0xFFFF_FFFF,
            0 <= bytes <= 4,
    ;
    len as u128 >= area * bytes
}

/// Why a GPU whose maximum is `limit` refuses the image, or `None` where
/// it accepts it.
pub fn check_image(
    limit: u32,
    data: Option<&[u8]>,
    width: u32,
    height: u32,
    color: ColorFormat,
) -> (fault: Option<ImageFault>)
    ensures
        fault == image_fault(limit, supplied_len(data), width, height, color),
{
    if width == 0 {
        Some(ImageFault::ZeroWidth)
    } else if height == 0 {
        Some(ImageFault::ZeroHeight)
    } else if width >= limit {
        Some(ImageFault::WidthTooBig)
    } else if height >= limit {
        Some(ImageFault::HeightTooBig)
    } else if !power_of_two(width) {
        Some(ImageFault::WidthNotPowerOfTwo)
    } else if !power_of_two(height) {
        Some(ImageFault::HeightNotPowerOfTwo)
    } else {
        match data {
            Some(bytes) => {
                if covers(bytes.len(), width, height, color) {
                    None
                } else {
                    Some(ImageFault::DataTooShort)
                }
            },
            None => None,
        }
    }
}

/// The calls that set one integer parameter of texture `id`: bind it, then
/// set the parameter. The texture is left bound.
pub open spec fn parameter_calls(id: u32, parameter: u32, value: i32) -> Seq<GlCall<'static>> {
    seq![
        GlCall::BindTexture { target: codes::TEXTURE_2D, texture: Some(id) },
        GlCall::TexParameterI32 { target: codes::TEXTURE_2D, parameter, value },
    ]
}

/// The calls that make texture `id` available on unit `bind_point`: select
/// that unit, bind the texture there, and select unit 0 again.
pub open spec fn activation_calls(id: u32, bind_point: u32) -> Seq<GlCall<'static>> {
    seq![
        GlCall::ActiveTexture { unit: (codes::TEXTURE0 + bind_point) as u32 },
        GlCall::BindTexture { target: codes::TEXTURE_2D, texture: Some(id) },
        GlCall::ActiveTexture { unit: codes::TEXTURE0 },
    ]
}

/// The calls that replace the whole image of texture `id`: bind it, allocate
/// `width` by `height` pixels of `color` filled from `data`, rebuild the
/// mipmaps, unbind.
pub open spec fn image_calls<'a>(
    id: u32,
    data: Option<&'a [u8]>,
    width: u32,
    height: u32,
    color: ColorFormat,
) -> Seq<GlCall<'a>> {
    seq![
        GlCall::BindTexture { target: codes::TEXTURE_2D, texture: Some(id) },
        GlCall::TexImage2d {
            target: codes::TEXTURE_2D,
            level: 0,
            internal_format: color.code() as i32,
            width: width as i32,
            height: height as i32,
            border: 0,
            format: color.code(),
            ty: codes::UNSIGNED_BYTE,
            pixels: data,
        },
        GlCall::GenerateMipmap { target: codes::TEXTURE_2D },
        GlCall::BindTexture { target: codes::TEXTURE_2D, texture: None },
    ]
}

/// The calls that rewrite a rectangle of texture `id`: bind it, write `data`
/// in `color` to the `width` by `height` rectangle at (`x`, `y`), rebuild the
/// mipmaps, unbind.
pub open spec fn region_calls<'a>(
    id: u32,
    data: &'a [u8],
    x: u32,
    y: u32,
    width: u32,
    height: u32,
    color: ColorFormat,
) -> Seq<GlCall<'a>> {
    seq![
        GlCall::BindTexture { target: codes::TEXTURE_2D, texture: Some(id) },
        GlCall::TexSubImage2d {
            target: codes::TEXTURE_2D,
            level: 0,
            x_offset: x as i32,
            y_offset: y as i32,
            width: width as i32,
            height: height as i32,
            format: color.code(),
            ty: codes::UNSIGNED_BYTE,
            pixels: Some(data),
        },
        GlCall::GenerateMipmap { target: codes::TEXTURE_2D },
        GlCall::BindTexture { target: codes::TEXTURE_2D, texture: None },
    ]
}

/// The calls that end the life of texture `id`: one, which deletes it.
pub open spec fn release_calls(id: u32) -> Seq<GlCall<'static>> {
    seq![GlCall::DeleteTexture { texture: id }]
}

/// What a texture is, to a contract.
pub struct TextureView {
    /// The GPU's name for the allocation that the texture owns.
    pub id: u32,
    /// The width of its image in pixels; 0 before the first image.
    pub width: u32,
    /// The height of its image in pixels; 0 before the first image.
    pub height: u32,
    /// The bound that the GPU sets on width and height.
    pub limit: u32,
}

impl TextureView {
    /// The texture has no image yet, or one of accepted dimensions; the
    /// bound on them fits in an `i32`.
    pub open spec fn valid(self) -> bool {
        &&& self.limit <= i32::MAX
        &&& {
            ||| self.width == 0 && self.height == 0
            ||| dimensions_accepted(self.limit, self.width, self.height)
        }
    }

    /// The same texture with an image of `width` by `height`.
    pub open spec fn resized(self, width: u32, height: u32) -> TextureView {
        TextureView { id: self.id, width, height, limit: self.limit }
    }
}

/// An image is accepted exactly when its dimensions are accepted and the
/// data, where supplied, covers it.
pub proof fn lemma_image_accepted(
    limit: u32,
    data_len: Option<nat>,
    width: u32,
    height: u32,
    color: ColorFormat,
)
    ensures
        image_fault(limit, data_len, width, height, color) is None <==> {
            &&& dimensions_accepted(limit, width, height)
            &&& data_len is Some ==> data_len->0 >= image_bytes(width, height, color)
        },
{
    lemma_zero_is_no_power_of_two();
}

/// An image is refused, whatever the data, where its width or its height is
/// zero, is no power of two, or is not below the GPU's maximum.
pub proof fn lemma_bad_dimensions_refused(
    limit: u32,
    data_len: Option<nat>,
    width: u32,
    height: u32,
    color: ColorFormat,
)
    requires
        width == 0 || height == 0 || !is_power_of_two(width as int) || !is_power_of_two(
            height as int,
        ) || width >= limit || height >= limit,
    ensures
        image_fault(limit, data_len, width, height, color) is Some,
        image_fault(limit, data_len, width, height, color) != Some(ImageFault::DataTooShort),
{
}

/// An image is refused, whatever its dimensions, where data is supplied
/// that is shorter than `width * height * bytes per pixel`.
pub proof fn lemma_short_data_refused(
    limit: u32,
    data_len: nat,
    width: u32,
    height: u32,
    color: ColorFormat,
)
    requires
        data_len < image_bytes(width, height, color),
    ensures
        image_fault(limit, Some(data_len), width, height, color) is Some,
{
}

/// A region is accepted exactly when it ends within the texture's width and
/// height and the data covers it. One that ends beyond the width is refused
/// for that, whatever else holds of it.
pub proof fn lemma_region_accepted(
    tex_width: u32,
    tex_height: u32,
    data_len: nat,
    x: u32,
    y: u32,
    width: u32,
    height: u32,
    color: ColorFormat,
)
    ensures
        region_fault(tex_width, tex_height, data_len, x, y, width, height, color) is None <==> {
            &&& x + width <= tex_width
            &&& y + height <= tex_height
            &&& data_len >= image_bytes(width, height, color)
        },
        x + width > tex_width ==> region_fault(
            tex_width,
            tex_height,
            data_len,
            x,
            y,
            width,
            height,
            color,
        ) == Some(RegionFault::OverRunsWidth),
{
}

/// Once an accepted image of `width` by `height` is set, the texture has
/// these dimensions, is valid, and takes the data for every region that ends
/// within them and that the data covers; a region that ends beyond the width
/// is refused.
pub proof fn lemma_region_after_image(
    before: TextureView,
    data_len: Option<nat>,
    width: u32,
    height: u32,
    color: ColorFormat,
    region_len: nat,
    x: u32,
    y: u32,
    region_width: u32,
    region_height: u32,
    region_color: ColorFormat,
)
    requires
        before.limit <= i32::MAX,
        image_fault(before.limit, data_len, width, height, color) is None,
    ensures
        before.resized(width, height).width == width,
        before.resized(width, height).height == height,
        before.resized(width, height).valid(),
        x + region_width <= width && y + region_height <= height && region_len >= image_bytes(
            region_width,
            region_height,
            region_color,
        ) ==> region_fault(
            before.resized(width, height).width,
            before.resized(width, height).height,
            region_len,
            x,
            y,
            region_width,
            region_height,
            region_color,
        ) is None,
        x + region_width > width ==> region_fault(
            before.resized(width, height).width,
            before.resized(width, height).height,
            region_len,
            x,
            y,
            region_width,
            region_height,
            region_color,
        ) is Some,
{
}

/// Accepted dimensions pass into a call unchanged: on a GPU whose maximum
/// fits in an `i32`, the signed width and height that the upload call
/// carries are the width and height asked for.
pub proof fn lemma_accepted_dimensions_fit(limit: u32, width: u32, height: u32)
    requires
        limit <= i32::MAX,
        dimensions_accepted(limit, width, height),
    ensures
        (width as i32) as int == width as int,
        (height as i32) as int == height as int,
{
}

/// A region within a valid texture passes into a call unchanged: the signed
/// corner and size that the upload call carries are those asked for.
pub proof fn lemma_region_fits(
    tex: TextureView,
    data_len: nat,
    x: u32,
    y: u32,
    width: u32,
    height: u32,
    color: ColorFormat,
)
    requires
        tex.valid(),
        region_fault(tex.width, tex.height, data_len, x, y, width, height, color) is None,
    ensures
        (x as i32) as int == x as int,
        (y as i32) as int == y as int,
        (width as i32) as int == width as int,
        (height as i32) as int == height as int,
{
}

/// The upload call of a whole image carries the caller's data itself, and
/// is the only call of the four that carries data.
pub proof fn lemma_upload_carries_data(
    id: u32,
    data: Option<&[u8]>,
    width: u32,
    height: u32,
    color: ColorFormat,
)
    ensures
        image_calls(id, data, width, height, color).len() == 4,
        image_calls(id, data, width, height, color)[1] matches GlCall::TexImage2d {
            pixels,
            ..
        } && pixels == data,
{
}

/// An image stored on the GPU
///
/// A texture owns one allocation of the GPU. It is neither `Clone` nor
/// `Copy`, and [`Texture::release`] consumes it: the allocation is given
/// back at most once.
#[derive(Debug)]
pub struct Texture {
    limit: u32,
    id: u32,
    width: u32,
    height: u32,
}

impl View for Texture {
    type V = TextureView;

    closed spec fn view(&self) -> TextureView {
        TextureView {
            id: self.id,
            width: self.width,
            height: self.height,
            limit: self.limit,
        }
    }
}

impl Texture {
    #[verifier::type_invariant]
    spec fn well_formed(self) -> bool {
        self@.valid()
    }

    /// Create a new, empty texture
    ///
    /// `created` is what the connection answered when asked to create a
    /// texture: the new allocation's name, or its error message. On a name
    /// the texture is returned with the calls that give it linear
    /// minification; on a message, the message comes back as the error.
    pub fn new(ctx: &Context, created: Result<u32, String>) -> (made: Result<
        (Texture, Vec<GlCall<'static>>),
        GolemError,
    >)
        ensures
            match created {
                Ok(id) => made is Ok && made->Ok_0.0@ == (TextureView {
                    id,
                    width: 0,
                    height: 0,
                    limit: ctx@.limit,
                }) && made->Ok_0.1@ == parameter_calls(
                    id,
                    codes::TEXTURE_MIN_FILTER,
                    TextureFilter::Linear.code(),
                ),
                Err(message) => made == Err::<(Texture, Vec<GlCall<'static>>), GolemError>(
                    GolemError::ContextError(message),
                ),
            },
    {
        match created {
            Ok(id) => {
                let tex = Texture::empty(ctx, id);
                let calls = tex.set_minification(TextureFilter::Linear);
                Ok((tex, calls))
            },
            Err(message) => Err(GolemError::ContextError(message)),
        }
    }

    /// A texture of the allocation `id` on `ctx`, with no image yet.
    pub(crate) fn empty(ctx: &Context, id: u32) -> (tex: Texture)
        ensures
            tex@ == (TextureView { id, width: 0, height: 0, limit: ctx@.limit }),
    {
        Texture { limit: ctx.max_texture_size(), id, width: 0, height: 0 }
    }

    /// The GPU's name for the texture's allocation.
    pub(crate) fn id(&self) -> (id: u32)
        ensures
            id == self@.id,
    {
        self.id
    }

    /// The width of the image in pixels; 0 until the first image is set.
    pub fn width(&self) -> (width: u32)
        ensures
            width == self@.width,
            self@.valid(),
    {
        proof {
            use_type_invariant(self);
        }
        self.width
    }

    /// The height of the image in pixels; 0 until the first image is set.
    pub fn height(&self) -> (height: u32)
        ensures
            height == self@.height,
            self@.valid(),
    {
        proof {
            use_type_invariant(self);
        }
        self.height
    }

    fn set_texture_param(&self, param: u32, value: i32) -> (calls: Vec<GlCall<'static>>)
        ensures
            calls@ == parameter_calls(self@.id, param, value),
    {
        let target: u32 = codes::texture_2d();
        let mut calls: Vec<GlCall<'static>> = Vec::new();
        calls.push(GlCall::BindTexture { target, texture: Some(self.id) });
        calls.push(GlCall::TexParameterI32 { target, parameter: param, value });
        assert(calls@ =~= parameter_calls(self@.id, param, value));
        calls
    }

    /// Determine how the texture should scale down
    pub fn set_minification(&self, min: TextureFilter) -> (calls: Vec<GlCall<'static>>)
        ensures
            calls@ == parameter_calls(self@.id, codes::TEXTURE_MIN_FILTER, min.code()),
    {
        self.set_texture_param(codes::texture_min_filter(), min.to_gl())
    }

    /// Determine how the texture should scale up
    pub fn set_magnification(&self, max: TextureFilter) -> (calls: Vec<GlCall<'static>>)
        ensures
            calls@ == parameter_calls(self@.id, codes::TEXTURE_MAG_FILTER, max.code()),
    {
        self.set_texture_param(codes::texture_mag_filter(), max.to_gl())
    }

    /// Determine how the texture is wrapped horizontally
    pub fn set_wrap_h(&self, wrap: TextureWrap) -> (calls: Vec<GlCall<'static>>)
        ensures
            calls@ == parameter_calls(self@.id, codes::TEXTURE_WRAP_S, wrap.code()),
    {
        self.set_texture_param(codes::texture_wrap_s(), wrap.to_gl())
    }

    /// Determine how the texture is wrapped vertically
    pub fn set_wrap_v(&self, wrap: TextureWrap) -> (calls: Vec<GlCall<'static>>)
        ensures
            calls@ == parameter_calls(self@.id, codes::TEXTURE_WRAP_T, wrap.code()),
    {
        self.set_texture_param(codes::texture_wrap_t(), wrap.to_gl())
    }

    /// The largest `bind_point` that [`Texture::set_active`] takes: the last
    /// one whose unit code still fits in 32 bits.
    pub open spec fn max_bind_point() -> u32 {
        (u32::MAX - codes::TEXTURE0) as u32
    }

    /// Mark the texture as active, allowing it to be used in shaders
    ///
    /// To use the texture in a shader, supply the same number as the
    /// `bind_point` to an integer uniform value that matches a sampler
    /// uniform.
    ///
    /// The value 0 is reserved, so it cannot be passed to this function.
    pub fn set_active(&self, bind_point: u32) -> (calls: Vec<GlCall<'static>>)
        requires
            bind_point != 0,
            bind_point <= Self::max_bind_point(),
        ensures
            calls@ == activation_calls(self@.id, bind_point),
    {
        let first: u32 = codes::texture0();
        let mut calls: Vec<GlCall<'static>> = Vec::new();
        calls.push(GlCall::ActiveTexture { unit: first + bind_point });
        calls.push(GlCall::BindTexture { target: codes::texture_2d(), texture: Some(self.id) });
        calls.push(GlCall::ActiveTexture { unit: first });
        assert(calls@ =~= activation_calls(self@.id, bind_point));
        calls
    }

    /// Set the image data associated with this texture
    ///
    /// `width` and `height` must both be powers of 2 and less than the
    /// maximum texture size of the GPU.
    ///
    /// If `data` is `None`, the image will be created with no data at the
    /// given dimensions. If it is `Some`, it needs to be at least as long as
    /// `width * height * color.bytes_per_pixel()`.
    ///
    /// The image that the texture had is discarded. Use
    /// [`Texture::try_set_image`] where the image has not been checked.
    pub fn set_image<'a>(
        &mut self,
        data: Option<&'a [u8]>,
        width: u32,
        height: u32,
        color: ColorFormat,
    ) -> (calls: Vec<GlCall<'a>>)
        requires
            image_fault(old(self)@.limit, supplied_len(data), width, height, color) is None,
        ensures
            final(self)@ == old(self)@.resized(width, height),
            final(self)@.valid(),
            calls@ == image_calls(old(self)@.id, data, width, height, color),
    {
        proof {
            use_type_invariant(&*self);
        }
        let format: u32 = color.to_gl();
        let target: u32 = codes::texture_2d();
        *self = Texture { limit: self.limit, id: self.id, width, height };
        let mut calls: Vec<GlCall<'a>> = Vec::new();
        calls.push(GlCall::BindTexture { target, texture: Some(self.id) });
        calls.push(
            GlCall::TexImage2d {
                target,
                level: 0,
                internal_format: format as i32,
                width: width as i32,
                height: height as i32,
                border: 0,
                format,
                ty: codes::unsigned_byte(),
                pixels: data,
            },
        );
        calls.push(GlCall::GenerateMipmap { target });
        calls.push(GlCall::BindTexture { target, texture: None });
        assert(calls@ =~= image_calls(old(self)@.id, data, width, height, color));
        calls
    }

    /// Set the image data associated with this texture, if the image is
    /// accepted: as [`Texture::set_image`] where it is, and otherwise the
    /// reason for which it is refused, with the texture left as it was.
    pub fn try_set_image<'a>(
        &mut self,
        data: Option<&'a [u8]>,
        width: u32,
        height: u32,
        color: ColorFormat,
    ) -> (outcome: Result<Vec<GlCall<'a>>, ImageFault>)
        ensures
            final(self)@.valid(),
            match outcome {
                Ok(calls) => {
                    &&& image_fault(old(self)@.limit, supplied_len(data), width, height, color)
                        is None
                    &&& final(self)@ == old(self)@.resized(width, height)
                    &&& calls@ == image_calls(old(self)@.id, data, width, height, color)
                },
                Err(fault) => {
                    &&& image_fault(old(self)@.limit, supplied_len(data), width, height, color)
                        == Some(fault)
                    &&& final(self)@ == old(self)@
                },
            },
    {
        proof {
            use_type_invariant(&*self);
        }
        match check_image(self.limit, data, width, height, color) {
            Some(fault) => Err(fault),
            None => Ok(self.set_image(data, width, height, color)),
        }
    }

    /// Why `data` may not be written to the given region of this texture, or
    /// `None` where it may.
    pub fn check_region(
        &self,
        data: &[u8],
        x: u32,
        y: u32,
        width: u32,
        height: u32,
        color: ColorFormat,
    ) -> (fault: Option<RegionFault>)
        ensures
            fault == region_fault(
                self@.width,
                self@.height,
                data@.len(),
                x,
                y,
                width,
                height,
                color,
            ),
    {
        if x as u64 + width as u64 > self.width as u64 {
            Some(RegionFault::OverRunsWidth)
        } else if y as u64 + height as u64 > self.height as u64 {
            Some(RegionFault::OverRunsHeight)
        } else if !covers(data.len(), width, height, color) {
            Some(RegionFault::DataTooShort)
        } else {
            None
        }
    }

    /// Set a region of the texture data
    ///
    /// The region must be within the texture's bounds, and the data provided
    /// must be enough to cover `width * height * color.bytes_per_pixel()`.
    ///
    /// Use [`Texture::try_set_subimage`] where the region has not been
    /// checked.
    pub fn set_subimage<'a>(
        &self,
        data: &'a [u8],
        x: u32,
        y: u32,
        width: u32,
        height: u32,
        color: ColorFormat,
    ) -> (calls: Vec<GlCall<'a>>)
        requires
            region_fault(self@.width, self@.height, data@.len(), x, y, width, height, color)
                is None,
        ensures
            calls@ == region_calls(self@.id, data, x, y, width, height, color),
    {
        proof {
            use_type_invariant(self);
        }
        let target: u32 = codes::texture_2d();
        let mut calls: Vec<GlCall<'a>> = Vec::new();
        calls.push(GlCall::BindTexture { target, texture: Some(self.id) });
        calls.push(
            GlCall::TexSubImage2d {
                target,
                level: 0,
                x_offset: x as i32,
                y_offset: y as i32,
                width: width as i32,
                height: height as i32,
                format: color.to_gl(),
                ty: codes::unsigned_byte(),
                pixels: Some(data),
            },
        );
        calls.push(GlCall::GenerateMipmap { target });
        calls.push(GlCall::BindTexture { target, texture: None });
        assert(calls@ =~= region_calls(self@.id, data, x, y, width, height, color));
        calls
    }

    /// Set a region of the texture data, if the region lies within the
    /// texture and the data covers it: as [`Texture::set_subimage`] where
    /// they do, and otherwise the reason for which they are refused.
    pub fn try_set_subimage<'a>(
        &self,
        data: &'a [u8],
        x: u32,
        y: u32,
        width: u32,
        height: u32,
        color: ColorFormat,
    ) -> (outcome: Result<Vec<GlCall<'a>>, RegionFault>)
        ensures
            match outcome {
                Ok(calls) => {
                    &&& region_fault(
                        self@.width,
                        self@.height,
                        data@.len(),
                        x,
                        y,
                        width,
                        height,
                        color,
                    ) is None
                    &&& calls@ == region_calls(self@.id, data, x, y, width, height, color)
                },
                Err(fault) => region_fault(
                    self@.width,
                    self@.height,
                    data@.len(),
                    x,
                    y,
                    width,
                    height,
                    color,
                ) == Some(fault),
            },
    {
        match self.check_region(data, x, y, width, height, color) {
            Some(fault) => Err(fault),
            None => Ok(self.set_subimage(data, x, y, width, height, color)),
        }
    }

    /// End the texture's life: the one call that gives its allocation back
    /// to the GPU. The texture is consumed, so this happens at most once.
    pub fn release(self) -> (calls: Vec<GlCall<'static>>)
        ensures
            calls@ == release_calls(self@.id),
    {
        let mut calls: Vec<GlCall<'static>> = Vec::new();
        calls.push(GlCall::DeleteTexture { texture: self.id });
        assert(calls@ =~= release_calls(self@.id));
        calls
    }
}

} // verus!

//! The in-process pipeline: the freshness rule, the size of a thumbnail, and
//! the decoding and resampling of a source image.

use vstd::prelude::*;

use crate::error::ThumbnailError;
use crate::provenance::{
    chunk_seq, chunks_fresh, encoded, fail_marker, find_text, png_text, provenance,
    read_text_chunks, thumbnail_png, write_failed_thumbnail, write_out_thumbnail, PngImage,
    PngModel, SourceMeta, TextChunk,
};
use crate::sizes::ThumbnailSize;
use crate::text::parse_u64;

verus! {

/// The freshness rule: a cached artifact may be reused if its text chunks
/// could be read, the source's metadata could be obtained, and the chunks
/// witness that the source has not changed since.
pub open spec fn is_fresh(
    text: Option<Seq<(Seq<char>, Seq<char>)>>,
    source: Option<SourceMeta>,
) -> bool {
    text matches Some(chunks) && source matches Some(meta) && chunks_fresh(chunks, meta)
}

/// Decides whether text chunks witness that their thumbnail is up to date
/// with a source whose metadata is `meta`.
pub fn chunks_up_to_date(chunks: &Vec<TextChunk>, meta: SourceMeta) -> (fresh: bool)
    ensures
        fresh == chunks_fresh(chunk_seq(chunks@), meta),
{
    let mtime = match find_text(chunks, "Thumb::MTime") {
        Some(t) => parse_u64(t.as_str()),
        None => {
            return false;
        },
    };
    if mtime != Some(meta.mtime) {
        return false;
    }
    match find_text(chunks, "Thumb::Size") {
        Some(t) => parse_u64(t.as_str()) == Some(meta.len),
        None => true,
    }
}

/// Checks whether a cached artifact is up to date with respect to its
/// source. `thumb` holds the artifact's bytes, or `None` if it cannot be
/// opened; `source` holds the source's metadata, or `None` if it cannot be
/// obtained. Only the header and text chunks of the artifact are read.
pub fn is_thumbnail_up_to_date(thumb: Option<&[u8]>, source: Option<SourceMeta>) -> (fresh: bool)
    ensures
        fresh == is_fresh(
            match thumb {
                Some(t) => png_text(t@),
                None => None,
            },
            source,
        ),
{
    let bytes = match thumb {
        Some(t) => t,
        None => {
            return false;
        },
    };
    let chunks = match read_text_chunks(bytes) {
        Some(c) => c,
        None => {
            return false;
        },
    };
    match source {
        Some(meta) => chunks_up_to_date(&chunks, meta),
        None => false,
    }
}

/// One side of a thumbnail: `side * max_dim / longest`, rounded to the
/// nearest integer, halves upwards.
pub open spec fn scaled_side(side: int, longest: int, max_dim: int) -> int {
    (2 * side * max_dim + longest) / (2 * longest)
}

/// The longer of two sides.
pub open spec fn longest_side(width: int, height: int) -> int {
    if width >= height {
        width
    } else {
        height
    }
}

/// The shorter of two sides.
pub open spec fn shortest_side(width: int, height: int) -> int {
    if width <= height {
        width
    } else {
        height
    }
}

/// The width and height of the thumbnail of a `width` x `height` image whose
/// longer side is to become `max_dim`.
pub open spec fn scaled_dimensions(width: int, height: int, max_dim: int) -> (int, int) {
    (
        scaled_side(width, longest_side(width, height), max_dim),
        scaled_side(height, longest_side(width, height), max_dim),
    )
}

/// The distance between two integers.
pub open spec fn distance(a: int, b: int) -> int {
    if a >= b {
        a - b
    } else {
        b - a
    }
}

/// A scaled side lies between zero and the target, is the target for the
/// longest side, and is within half a unit of the exact quotient.
pub proof fn lemma_scaled_side(side: int, longest: int, max_dim: int)
    requires
        0 <= side <= longest,
        0 < longest,
        0 <= max_dim,
    ensures
        0 <= scaled_side(side, longest, max_dim) <= max_dim,
        side == longest ==> scaled_side(side, longest, max_dim) == max_dim,
        2 * distance(scaled_side(side, longest, max_dim) * longest, side * max_dim) <= longest,
{
    let num = 2 * side * max_dim + longest;
    let den = 2 * longest;
    let q = num / den;
    assert(0 <= side * max_dim <= longest * max_dim) by (nonlinear_arith)
        requires
            0 <= side <= longest,
            0 <= max_dim,
    ;
    assert(2 * side * max_dim == 2 * (side * max_dim)) by (nonlinear_arith);
    vstd::arithmetic::div_mod::lemma_fundamental_div_mod(num, den);
    vstd::arithmetic::div_mod::lemma_mod_bound(num, den);
    assert(den * q == 2 * (q * longest)) by (nonlinear_arith)
        requires
            den == 2 * longest,
    ;
    assert(0 <= q <= max_dim) by (nonlinear_arith)
        requires
            num == den * q + num % den,
            0 <= num % den < den,
            den == 2 * longest,
            longest > 0,
            0 <= num,
            num <= 2 * (longest * max_dim) + longest,
    ;
    if side == longest {
        assert(q == max_dim) by (nonlinear_arith)
            requires
                num == den * q + num % den,
                0 <= num % den < den,
                den == 2 * longest,
                longest > 0,
                num == 2 * (longest * max_dim) + longest,
        ;
    }
}

/// The size of a thumbnail never exceeds the target, and its longer side is
/// the target exactly.
pub proof fn lemma_scaled_dimensions_fit(width: int, height: int, max_dim: int)
    requires
        0 < width,
        0 < height,
        0 <= max_dim,
    ensures
        0 <= scaled_dimensions(width, height, max_dim).0 <= max_dim,
        0 <= scaled_dimensions(width, height, max_dim).1 <= max_dim,
        longest_side(
            scaled_dimensions(width, height, max_dim).0,
            scaled_dimensions(width, height, max_dim).1,
        ) == max_dim,
{
    let longest = longest_side(width, height);
    lemma_scaled_side(width, longest, max_dim);
    lemma_scaled_side(height, longest, max_dim);
}

/// Scaling keeps the proportions: cross-multiplied, the sides of the
/// thumbnail differ from those of the source by at most half the source's
/// longer side.
pub proof fn lemma_aspect_ratio_kept(width: int, height: int, max_dim: int)
    requires
        0 < width,
        0 < height,
        0 <= max_dim,
    ensures
        2 * distance(
            scaled_dimensions(width, height, max_dim).0 * height,
            scaled_dimensions(width, height, max_dim).1 * width,
        ) <= longest_side(width, height),
{
    let longest = longest_side(width, height);
    lemma_scaled_side(width, longest, max_dim);
    lemma_scaled_side(height, longest, max_dim);
    let dw = scaled_dimensions(width, height, max_dim).0;
    let dh = scaled_dimensions(width, height, max_dim).1;
    if width >= height {
        assert(dw == max_dim);
        assert(dw * height == height * max_dim) by (nonlinear_arith)
            requires
                dw == max_dim,
        ;
    } else {
        assert(dh == max_dim);
        assert(dh * width == width * max_dim) by (nonlinear_arith)
            requires
                dh == max_dim,
        ;
    }
}

/// Whether the ratio of width to height changes by no more than one over the
/// thumbnail's shorter side: `|dw/dh - w/h| <= 1/min(dw, dh)`, stated without
/// division for a thumbnail of `dw` x `dh` with both sides positive.
pub open spec fn ratio_within_bound(width: int, height: int, dw: int, dh: int) -> bool {
    distance(dw * height, dh * width) * shortest_side(dw, dh) <= dh * height
}

/// The ratio of width to height stays within the bound exactly for the
/// sources that are no wider than high, and for the wider ones whose scaled
/// height, times the width, is within the source's height of the target
/// times the height. That includes every source at most twice as wide as it
/// is high, and leaves out long flat ones such as 200 x 3 at 128.
pub proof fn lemma_aspect_ratio_bound(width: int, height: int, max_dim: int)
    requires
        0 < width,
        0 < height,
        0 <= max_dim,
        0 < scaled_dimensions(width, height, max_dim).0,
        0 < scaled_dimensions(width, height, max_dim).1,
    ensures
        ratio_within_bound(
            width,
            height,
            scaled_dimensions(width, height, max_dim).0,
            scaled_dimensions(width, height, max_dim).1,
        ) <==> (width <= height || distance(
            max_dim * height,
            scaled_dimensions(width, height, max_dim).1 * width,
        ) <= height),
        width <= 2 * height ==> ratio_within_bound(
            width,
            height,
            scaled_dimensions(width, height, max_dim).0,
            scaled_dimensions(width, height, max_dim).1,
        ),
{
    let dw = scaled_dimensions(width, height, max_dim).0;
    let dh = scaled_dimensions(width, height, max_dim).1;
    let d = distance(dw * height, dh * width);
    let m = shortest_side(dw, dh);
    lemma_aspect_ratio_kept(width, height, max_dim);
    lemma_scaled_dimensions_fit(width, height, max_dim);
    lemma_scaled_side(width, longest_side(width, height), max_dim);
    lemma_scaled_side(height, longest_side(width, height), max_dim);
    if width <= height {
        // The height is the longer side: the thumbnail is `dw` x `max_dim`.
        assert(dh == max_dim);
        assert(m == dw);
        assert(2 * (d * dw) <= height * dh) by (nonlinear_arith)
            requires
                0 <= 2 * d <= height,
                0 <= dw <= dh,
        ;
        assert(d * m <= dh * height) by (nonlinear_arith)
            requires
                2 * (d * dw) <= height * dh,
                m == dw,
                0 <= d,
                0 <= dw,
                0 <= height * dh,
        ;
    } else {
        // The width is the longer side: the thumbnail is `max_dim` x `dh`.
        assert(dw == max_dim);
        assert(m == dh);
        assert(d == distance(max_dim * height, dh * width));
        assert((d * dh <= dh * height) <==> (d <= height)) by (nonlinear_arith)
            requires
                0 < dh,
                0 <= d,
        ;
    }
}

/// Computes the size of a thumbnail: neither side exceeds the target, and
/// the longer side is the target exactly. A source with a zero dimension is
/// a `BadImage` error.
pub fn target_dimensions(width: u32, height: u32, max_dimension: u32) -> (size: Result<
    (u32, u32),
    ThumbnailError,
>)
    ensures
        match size {
            Ok(d) => width > 0 && height > 0 && (d.0 as int, d.1 as int) == scaled_dimensions(
                width as int,
                height as int,
                max_dimension as int,
            ) && d.0 <= max_dimension && d.1 <= max_dimension && longest_side(
                d.0 as int,
                d.1 as int,
            ) == max_dimension,
            Err(e) => (width == 0 || height == 0) && e == ThumbnailError::BadImage,
        },
{
    if width == 0 || height == 0 {
        return Err(ThumbnailError::BadImage);
    }
    let longest: u32 = if width >= height {
        width
    } else {
        height
    };
    proof {
        lemma_scaled_side(width as int, longest as int, max_dimension as int);
        lemma_scaled_side(height as int, longest as int, max_dimension as int);
    }
    let w = scale(width, longest, max_dimension);
    let h = scale(height, longest, max_dimension);
    Ok((w, h))
}

fn scale(side: u32, longest: u32, max_dimension: u32) -> (scaled: u32)
    requires
        side <= longest,
        0 < longest,
        scaled_side(side as int, longest as int, max_dimension as int) <= u32::MAX,
    ensures
        scaled == scaled_side(side as int, longest as int, max_dimension as int),
{
    let s: u128 = side as u128;
    let l: u128 = longest as u128;
    let m: u128 = max_dimension as u128;
    assert(2 * s * m + l <= u128::MAX && 2 * s * m <= u128::MAX && 2 * s * m == 2 * (side as int) * (
    max_dimension as int)) by (nonlinear_arith)
        requires
            s == side as int,
            m == max_dimension as int,
            l == longest as int,
            s <= 0xffff_ffff,
            m <= 0xffff_ffff,
            l <= 0xffff_ffff,
    ;
    let q: u128 = (2 * s * m + l) / (2 * l);
    q as u32
}

/// An RGBA image of eight bits a channel: four bytes a pixel, rows from top
/// to bottom. The pixel data always has `4 * width * height` bytes.
#[derive(Debug)]
pub struct Pixels {
    width: u32,
    height: u32,
    data: Vec<u8>,
}

impl View for Pixels {
    type V = (u32, u32, Seq<u8>);

    closed spec fn view(&self) -> (u32, u32, Seq<u8>) {
        (self.width, self.height, self.data@)
    }
}

impl Pixels {
    #[verifier::type_invariant]
    spec fn well_formed(self) -> bool {
        self.data@.len() == 4 * self.width * self.height
    }

    /// Makes an image from its size and pixel data; `None` if the data does
    /// not have four bytes for each pixel.
    pub fn new(width: u32, height: u32, data: Vec<u8>) -> (image: Option<Pixels>)
        ensures
            match image {
                Some(p) => p@ == (width, height, data@) && data@.len() == 4 * width * height,
                None => data@.len() != 4 * width * height,
            },
    {
        assert(4 * (width as u128) * (height as u128) <= u128::MAX) by (nonlinear_arith)
            requires
                width <= 0xffff_ffff,
                height <= 0xffff_ffff,
        ;
        let expected: u128 = 4 * (width as u128) * (height as u128);
        if data.len() as u128 == expected {
            Some(Pixels { width, height, data })
        } else {
            None
        }
    }

    /// The width in pixels.
    pub fn width(&self) -> (w: u32)
        ensures
            w == self@.0,
    {
        self.width
    }

    /// The height in pixels.
    pub fn height(&self) -> (h: u32)
        ensures
            h == self@.1,
    {
        self.height
    }

    /// The pixel data.
    pub fn data(&self) -> (d: &Vec<u8>)
        ensures
            d@ == self@.2,
            d@.len() == 4 * self@.0 * self@.1,
    {
        proof {
            use_type_invariant(self);
        }
        &self.data
    }

    /// Gives up the pixel data.
    pub fn into_data(self) -> (d: Vec<u8>)
        ensures
            d@ == self@.2,
            d@.len() == 4 * self@.0 * self@.1,
    {
        proof {
            use_type_invariant(&self);
        }
        self.data
    }
}

/// The size and RGBA pixel data of an encoded image, or `None` for bytes
/// that start with no known signature or that the codec for their signature
/// cannot decode.
pub uninterp spec fn decoded_rgba(bytes: Seq<u8>) -> Option<(u32, u32, Seq<u8>)>;

/// The RGBA pixel data of an image resampled to another size with a box
/// filter, or `None` where the resampler refuses.
pub uninterp spec fn resampled(
    data: Seq<u8>,
    width: u32,
    height: u32,
    dst_width: u32,
    dst_height: u32,
) -> Option<Seq<u8>>;

/// `image::guess_format`, `image::load_from_memory_with_format` and
/// `DynamicImage::into_rgba8`: the width, height and raw RGBA bytes of the
/// image that `bytes` encode, decoded by the codec that the crate's own table
/// of signatures names for them, or `None` where the crate knows no such
/// codec or cannot decode. The result is a function of the bytes.
#[verifier::external_body]
fn decode_rgba(bytes: &[u8]) -> (image: Option<(u32, u32, Vec<u8>)>)
    ensures
        match image {
            Some(i) => decoded_rgba(bytes@) == Some((i.0, i.1, i.2@)),
            None => decoded_rgba(bytes@) is None,
        },
{
    let format = image::guess_format(bytes).ok()?;
    let image = image::load_from_memory_with_format(bytes, format).ok()?.into_rgba8();
    Some((image.width(), image.height(), image.into_raw()))
}

/// `Resizer::resize` of the `fast_image_resize` crate on four-byte pixels,
/// by convolution with the box filter, from a view of `data` into a new image
/// of the destination size: the destination's bytes, or `None` where the crate
/// refuses. The sizes are bounded so that the crate's buffer lengths can be
/// computed and allocated. The result is a function of the arguments.
#[verifier::external_body]
fn resize_box(data: &[u8], width: u32, height: u32, dst_width: u32, dst_height: u32) -> (out:
    Option<Vec<u8>>)
    requires
        4 * width * height <= usize::MAX,
        4 * dst_width * dst_height <= isize::MAX,
    ensures
        match out {
            Some(o) => resampled(data@, width, height, dst_width, dst_height) == Some(o@),
            None => resampled(data@, width, height, dst_width, dst_height) is None,
        },
{
    let kind = fast_image_resize::PixelType::U8x4;
    let src = fast_image_resize::images::ImageRef::new(width, height, data, kind).ok()?;
    let mut dst = fast_image_resize::images::Image::new(dst_width, dst_height, kind);
    let filter = fast_image_resize::ResizeAlg::Convolution(fast_image_resize::FilterType::Box);
    let options = fast_image_resize::ResizeOptions::new().resize_alg(filter);
    fast_image_resize::Resizer::new().resize(&src, &mut dst, &options).ok()?;
    Some(dst.into_vec())
}

/// The value of an image or of the error in its place.
pub open spec fn pixels_view(r: Result<Pixels, ThumbnailError>) -> Result<
    (u32, u32, Seq<u8>),
    ThumbnailError,
> {
    match r {
        Ok(p) => Ok(p@),
        Err(e) => Err(e),
    }
}

/// What decoding gives, given what the codec makes of the bytes: the image,
/// or `BadImage` where the codec fails or hands back pixel data of the wrong
/// length.
pub open spec fn checked_image(decoded: Option<(u32, u32, Seq<u8>)>) -> Result<
    (u32, u32, Seq<u8>),
    ThumbnailError,
> {
    match decoded {
        Some(i) => if i.2.len() == 4 * i.0 * i.1 {
            Ok(i)
        } else {
            Err(ThumbnailError::BadImage)
        },
        None => Err(ThumbnailError::BadImage),
    }
}

/// The thumbnail of an image: a zero-sized source is a `BadImage` error;
/// otherwise the source resampled to its scaled dimensions, or `BadImage`
/// where the resampler fails.
pub open spec fn thumbnail_of(image: (u32, u32, Seq<u8>), max_dim: u32) -> Result<
    (u32, u32, Seq<u8>),
    ThumbnailError,
> {
    if image.0 == 0 || image.1 == 0 {
        Err(ThumbnailError::BadImage)
    } else {
        let d = scaled_dimensions(image.0 as int, image.1 as int, max_dim as int);
        checked_image(
            match resampled(image.2, image.0, image.1, d.0 as u32, d.1 as u32) {
                Some(data) => Some((d.0 as u32, d.1 as u32, data)),
                None => None,
            },
        )
    }
}

/// A thumbnail fits the target, its longer side is the target exactly, and
/// its pixel data has four bytes for each pixel.
pub proof fn lemma_thumbnail_size(image: (u32, u32, Seq<u8>), max_dim: u32)
    ensures
        thumbnail_of(image, max_dim) matches Ok(t) ==> {
            &&& image.0 > 0 && image.1 > 0
            &&& (t.0 as int, t.1 as int) == scaled_dimensions(
                image.0 as int,
                image.1 as int,
                max_dim as int,
            )
            &&& t.0 <= max_dim && t.1 <= max_dim
            &&& longest_side(t.0 as int, t.1 as int) == max_dim
            &&& t.2.len() == 4 * t.0 * t.1
        },
        thumbnail_of(image, max_dim) matches Err(e) ==> e == ThumbnailError::BadImage,
        image.0 == 0 || image.1 == 0 ==> thumbnail_of(image, max_dim) is Err,
{
    if image.0 > 0 && image.1 > 0 {
        lemma_scaled_dimensions_fit(image.0 as int, image.1 as int, max_dim as int);
    }
}

/// An artifact rendered in this process is an RGBA image of eight bits a
/// channel that fits the size asked for and carries the source's provenance
/// and nothing else; rendering fails with `BadImage` only.
pub proof fn lemma_rendered_artifact(
    image: Result<(u32, u32, Seq<u8>), ThumbnailError>,
    size: ThumbnailSize,
    uri: Seq<char>,
    meta: SourceMeta,
)
    requires
        image matches Err(e) ==> e == ThumbnailError::BadImage,
    ensures
        rendered_for(image, size, uri, meta) matches Ok(png) ==> {
            &&& png.color_type == 6 && png.bit_depth == 8
            &&& png.width <= size.dimension() && png.height <= size.dimension()
            &&& longest_side(png.width as int, png.height as int) == size.dimension()
            &&& png.text == provenance(uri, meta)
        },
        rendered_for(image, size, uri, meta) matches Err(e) ==> e == ThumbnailError::BadImage,
{
    if let Ok(i) = image {
        lemma_thumbnail_size(i, size.dimension() as u32);
    }
}

/// Decodes the bytes of a source image into RGBA pixels.
pub fn parse_file(bytes: &[u8]) -> (image: Result<Pixels, ThumbnailError>)
    ensures
        pixels_view(image) == checked_image(decoded_rgba(bytes@)),
{
    match decode_rgba(bytes) {
        Some((width, height, data)) => match Pixels::new(width, height, data) {
            Some(p) => Ok(p),
            None => Err(ThumbnailError::BadImage),
        },
        None => Err(ThumbnailError::BadImage),
    }
}

/// Resizes the image so that its longer side becomes `max_dimension` and
/// its proportions are kept, with a box filter. The target must be small
/// enough for its pixel data to be addressed.
pub fn generate_thumbnail(img: &Pixels, max_dimension: u32) -> (thumb: Result<
    Pixels,
    ThumbnailError,
>)
    requires
        4 * max_dimension * max_dimension <= isize::MAX,
    ensures
        pixels_view(thumb) == thumbnail_of(img@, max_dimension),
{
    let (width, height) = match target_dimensions(img.width(), img.height(), max_dimension) {
        Ok(d) => d,
        Err(e) => {
            return Err(e);
        },
    };
    let data = img.data();
    let len = data.len();
    assert(4 * img@.0 * img@.1 == len);
    proof {
        lemma_scaled_dimensions_fit(img@.0 as int, img@.1 as int, max_dimension as int);
        assert(4 * width * height <= 4 * max_dimension * max_dimension) by (nonlinear_arith)
            requires
                0 <= width <= max_dimension,
                0 <= height <= max_dimension,
        ;
    }
    match resize_box(data.as_slice(), img.width(), img.height(), width, height) {
        Some(out) => match Pixels::new(width, height, out) {
            Some(p) => Ok(p),
            None => Err(ThumbnailError::BadImage),
        },
        None => Err(ThumbnailError::BadImage),
    }
}

/// The text chunks of a cached artifact, if there is one and it can be read.
pub open spec fn artifact_text(artifact: Option<Vec<u8>>) -> Option<Seq<(Seq<char>, Seq<char>)>> {
    match artifact {
        Some(bytes) => png_text(bytes@),
        None => None,
    }
}

/// The artifact for one size of a decoded source.
pub open spec fn rendered_for(
    image: Result<(u32, u32, Seq<u8>), ThumbnailError>,
    size: ThumbnailSize,
    uri: Seq<char>,
    meta: SourceMeta,
) -> Result<PngModel, ThumbnailError> {
    match image {
        Ok(i) => match thumbnail_of(i, size.dimension() as u32) {
            Ok(t) => Ok(thumbnail_png(t.0, t.1, t.2, uri, meta)),
            Err(e) => Err(e),
        },
        Err(e) => Err(e),
    }
}

/// The value of an artifact or of the error in its place.
pub open spec fn png_view(r: Result<PngImage, ThumbnailError>) -> Result<PngModel, ThumbnailError> {
    match r {
        Ok(i) => Ok(i@),
        Err(e) => Err(e),
    }
}

/// Renders the thumbnail artifact of one size from a decoded source, or
/// hands on the error in its place.
pub fn render_decoded(
    image: &Result<Pixels, ThumbnailError>,
    size: ThumbnailSize,
    uri: &str,
    meta: SourceMeta,
) -> (artifact: Result<PngImage, ThumbnailError>)
    ensures
        png_view(artifact) == rendered_for(pixels_view(*image), size, uri@, meta),
{
    let pixels = match image {
        Ok(p) => p,
        Err(e) => {
            return Err(*e);
        },
    };
    match generate_thumbnail(pixels, size.to_dimension()) {
        Ok(t) => {
            let width = t.width();
            let height = t.height();
            Ok(write_out_thumbnail(width, height, t.into_data(), uri, meta))
        },
        Err(e) => Err(e),
    }
}

/// Renders the thumbnail artifact of one size from the bytes of a source
/// image: decodes, resizes, and embeds the source's provenance.
pub fn render_thumbnail(source: &[u8], size: ThumbnailSize, uri: &str, meta: SourceMeta) -> (artifact:
    Result<PngImage, ThumbnailError>)
    ensures
        png_view(artifact) == rendered_for(checked_image(decoded_rgba(source@)), size, uri@, meta),
{
    let image = parse_file(source);
    render_decoded(&image, size, uri, meta)
}

/// What a batch request yields for one size.
#[derive(Debug)]
pub enum Planned {
    /// The thumbnail in the cache is up to date.
    Cached,
    /// The thumbnail is to be written: these are the bytes of its file.
    Store(Vec<u8>),
    /// There is no thumbnail, for this reason.
    Failed(ThumbnailError),
}

/// The mathematical value of a [`Planned`].
pub enum PlannedModel {
    Cached,
    Store(Seq<u8>),
    Failed(ThumbnailError),
}

impl View for Planned {
    type V = PlannedModel;

    open spec fn view(&self) -> PlannedModel {
        match *self {
            Planned::Cached => PlannedModel::Cached,
            Planned::Store(bytes) => PlannedModel::Store(bytes@),
            Planned::Failed(e) => PlannedModel::Failed(e),
        }
    }
}

/// What a batch request yields: one outcome for each size, in the order
/// asked, and the bytes of the fail marker to write, if there is one.
#[derive(Debug)]
pub struct Batch {
    pub outcomes: Vec<Planned>,
    pub marker: Option<Vec<u8>>,
}

/// The outcome for a size whose thumbnail is missing or out of date: the
/// file of the thumbnail rendered from the source, or the reason why there is
/// none. Without metadata the source is missing; without bytes it cannot be
/// read.
pub open spec fn rendered_outcome(
    size: ThumbnailSize,
    meta: Option<SourceMeta>,
    source: Option<Seq<u8>>,
    uri: Seq<char>,
) -> PlannedModel {
    match meta {
        None => PlannedModel::Failed(ThumbnailError::MissingSource),
        Some(m) => match source {
            None => PlannedModel::Failed(ThumbnailError::Io),
            Some(bytes) => match rendered_for(checked_image(decoded_rgba(bytes)), size, uri, m) {
                Ok(image) => match encoded(image) {
                    Some(file) => PlannedModel::Store(file),
                    None => PlannedModel::Failed(ThumbnailError::Provenance),
                },
                Err(e) => PlannedModel::Failed(e),
            },
        },
    }
}

/// The outcome of a batch request for the size at position `i`: while a
/// fresh fail marker stands, `NegativeCached`; for a thumbnail that is up to
/// date, nothing to do; else what rendering gives. `existing[i]` is the
/// artifact found for `sizes[i]`; a size without an entry counts as missing.
pub open spec fn batch_outcome(
    i: int,
    sizes: Seq<ThumbnailSize>,
    existing: Seq<Option<Vec<u8>>>,
    marker: Option<Seq<u8>>,
    meta: Option<SourceMeta>,
    source: Option<Seq<u8>>,
    uri: Seq<char>,
) -> PlannedModel {
    if marker matches Some(m) && is_fresh(png_text(m), meta) {
        PlannedModel::Failed(ThumbnailError::NegativeCached)
    } else if i < existing.len() && is_fresh(artifact_text(existing[i]), meta) {
        PlannedModel::Cached
    } else {
        rendered_outcome(sizes[i], meta, source, uri)
    }
}

/// Whether some size of a batch request fails because the source cannot be
/// rendered.
pub open spec fn batch_fails(
    sizes: Seq<ThumbnailSize>,
    existing: Seq<Option<Vec<u8>>>,
    marker: Option<Seq<u8>>,
    meta: Option<SourceMeta>,
    source: Option<Seq<u8>>,
    uri: Seq<char>,
) -> bool {
    exists|i: int|
        0 <= i < sizes.len() && #[trigger] batch_outcome(
            i,
            sizes,
            existing,
            marker,
            meta,
            source,
            uri,
        ) == PlannedModel::Failed(ThumbnailError::BadImage)
}

/// The fail marker that a batch request writes: the marker for the source as
/// it is now, if some size fails because the source cannot be rendered.
pub open spec fn batch_marker(
    sizes: Seq<ThumbnailSize>,
    existing: Seq<Option<Vec<u8>>>,
    marker: Option<Seq<u8>>,
    meta: Option<SourceMeta>,
    source: Option<Seq<u8>>,
    uri: Seq<char>,
) -> Option<Seq<u8>> {
    if batch_fails(sizes, existing, marker, meta, source, uri) && meta is Some {
        encoded(fail_marker(uri, meta->0))
    } else {
        None
    }
}

/// The bytes of an optional buffer.
pub open spec fn slice_view(bytes: Option<&[u8]>) -> Option<Seq<u8>> {
    match bytes {
        Some(b) => Some(b@),
        None => None,
    }
}

/// The bytes of an optional vector.
pub open spec fn buffer_view(bytes: Option<Vec<u8>>) -> Option<Seq<u8>> {
    match bytes {
        Some(b) => Some(b@),
        None => None,
    }
}

/// Creates the thumbnails of one source for several sizes in one go. From
/// the artifacts found in the cache, the fail marker if there is one, the
/// source's metadata and its bytes, it decides for each size, in the order
/// asked, whether the cached thumbnail serves, what is to be written, or why
/// there is no thumbnail. The source is decoded once, and only if some size
/// is missing or out of date. If the source cannot be rendered, the batch
/// carries the fail marker to write.
pub fn create_thumbnails(
    sizes: &Vec<ThumbnailSize>,
    existing: &Vec<Option<Vec<u8>>>,
    marker: Option<&[u8]>,
    meta: Option<SourceMeta>,
    source: Option<&[u8]>,
    uri: &str,
) -> (batch: Batch)
    ensures
        batch.outcomes@.len() == sizes@.len(),
        forall|i: int|
            0 <= i < sizes@.len() ==> (#[trigger] batch.outcomes@[i])@ == batch_outcome(
                i,
                sizes@,
                existing@,
                slice_view(marker),
                meta,
                slice_view(source),
                uri@,
            ),
        buffer_view(batch.marker) == batch_marker(
            sizes@,
            existing@,
            slice_view(marker),
            meta,
            slice_view(source),
            uri@,
        ),
{
    let negative = marker.is_some() && is_thumbnail_up_to_date(marker, meta);
    let mut outcomes: Vec<Planned> = Vec::new();
    let mut decoded: Option<Result<Pixels, ThumbnailError>> = None;
    let mut failed = false;
    let mut i: usize = 0;
    while i < sizes.len()
        invariant
            i <= sizes.len(),
            negative == (slice_view(marker) matches Some(m) && is_fresh(png_text(m), meta)),
            outcomes@.len() == i,
            forall|k: int|
                0 <= k < i ==> (#[trigger] outcomes@[k])@ == batch_outcome(
                    k,
                    sizes@,
                    existing@,
                    slice_view(marker),
                    meta,
                    slice_view(source),
                    uri@,
                ),
            decoded matches Some(d) ==> source matches Some(b) && pixels_view(d) == checked_image(
                decoded_rgba(b@),
            ),
            failed <==> exists|k: int|
                0 <= k < i && #[trigger] batch_outcome(
                    k,
                    sizes@,
                    existing@,
                    slice_view(marker),
                    meta,
                    slice_view(source),
                    uri@,
                ) == PlannedModel::Failed(ThumbnailError::BadImage),
            failed ==> meta is Some,
        decreases sizes.len() - i,
    {
        let fresh = if i < existing.len() {
            match &existing[i] {
                Some(bytes) => is_thumbnail_up_to_date(Some(bytes.as_slice()), meta),
                None => false,
            }
        } else {
            false
        };
        let outcome = if negative {
            Planned::Failed(ThumbnailError::NegativeCached)
        } else if fresh {
            Planned::Cached
        } else {
            match (meta, source) {
                (None, _) => Planned::Failed(ThumbnailError::MissingSource),
                (Some(_), None) => Planned::Failed(ThumbnailError::Io),
                (Some(m), Some(bytes)) => {
                    if decoded.is_none() {
                        decoded = Some(parse_file(bytes));
                    }
                    let artifact = match &decoded {
                        Some(image) => render_decoded(image, sizes[i], uri, m),
                        None => Err(ThumbnailError::BadImage),
                    };
                    match artifact {
                        Ok(image) => match image.encode() {
                            Ok(file) => Planned::Store(file),
                            Err(e) => Planned::Failed(e),
                        },
                        Err(e) => {
                            proof {
                                lemma_rendered_artifact(
                                    checked_image(decoded_rgba(bytes@)),
                                    sizes@[i as int],
                                    uri@,
                                    m,
                                );
                            }
                            failed = true;
                            Planned::Failed(e)
                        },
                    }
                },
            }
        };
        assert(outcome@ == batch_outcome(
            i as int,
            sizes@,
            existing@,
            slice_view(marker),
            meta,
            slice_view(source),
            uri@,
        ));
        proof {
            if !failed {
                assert(outcome@ != PlannedModel::Failed(ThumbnailError::BadImage));
            }
        }
        outcomes.push(outcome);
        i += 1;
    }
    let marker_file = if failed {
        match meta {
            Some(m) => match write_failed_thumbnail(uri, m).encode() {
                Ok(file) => Some(file),
                Err(_) => None,
            },
            None => None,
        }
    } else {
        None
    };
    Batch { outcomes, marker: marker_file }
}

} // verus!

//! The shared raster canvas: a fixed-size RGBA buffer, stroke application,
//! lossless PNG encoding for snapshots and persistence, and startup loading.

use crate::color::Rgba;
use crate::geom::{draw_color_bytes, stroke_effect, Draw};
use vstd::prelude::*;

verus! {

/// The channel byte a blank canvas holds at offset `j` within a pixel.
pub open spec fn rgba_byte(color: Rgba, j: int) -> u8 {
    if j == 0 {
        color.r
    } else if j == 1 {
        color.g
    } else if j == 2 {
        color.b
    } else {
        color.a
    }
}

/// The raw buffer of a canvas of `pixels` pixels, all holding `color`.
pub open spec fn blank_buf(pixels: nat, color: Rgba) -> Seq<u8> {
    Seq::new(pixels * 4, |k: int| rgba_byte(color, k % 4))
}

/// Why a persisted canvas could not be accepted at startup. Corrupt persisted
/// state is fatal: it must not be silently taken for valid canvas content.
#[derive(Clone, Copy, PartialEq, Eq, Structural, Debug)]
pub enum LoadError {
    /// The persisted bytes are not a decodable image.
    Undecodable,
    /// The persisted image's dimensions differ from the configured ones.
    WrongDimensions,
    /// The decoded pixel data is not RGBA of the expected byte length.
    WrongLength,
}

/// What decoding a byte string as a PNG yields: the image's dimensions and
/// its raw pixel bytes, or `None` when the bytes are not a decodable PNG.
pub uninterp spec fn png_decoded(bytes: Seq<u8>) -> Option<(u32, u32, Seq<u8>)>;

/// The PNG encoding of a raw RGBA buffer with the given dimensions.
pub uninterp spec fn png_of(width: u32, height: u32, data: Seq<u8>) -> Seq<u8>;

/// The single shared raster image. Its dimensions are fixed for the process
/// lifetime; only stroke application mutates the buffer.
pub struct Canvas {
    pub width: u32,
    pub height: u32,
    pub buf: Vec<u8>,
}

impl Canvas {
    /// The canvas invariant: positive dimensions that fit the machine, and a
    /// buffer of exactly four bytes per pixel.
    pub open spec fn wf(self) -> bool {
        &&& self.width >= 1
        &&& self.height >= 1
        &&& self.width as nat * self.height as nat * 4 <= usize::MAX as nat
        &&& self.buf@.len() == self.width as nat * self.height as nat * 4
    }

    /// A canvas with every pixel set to `color`.
    pub fn blank(width: u32, height: u32, color: Rgba) -> (r: Canvas)
        requires
            width >= 1,
            height >= 1,
            width as nat * height as nat * 4 <= usize::MAX as nat,
        ensures
            r.wf(),
            r.width == width,
            r.height == height,
            r.buf@ == blank_buf(width as nat * height as nat, color),
    {
        let pixels: usize = (width as usize) * (height as usize);
        let mut buf: Vec<u8> = Vec::new();
        let mut i: usize = 0;
        while i < pixels
            invariant
                i <= pixels,
                pixels == width as nat * height as nat,
                pixels * 4 <= usize::MAX as nat,
                buf@ =~= blank_buf(i as nat, color),
            decreases pixels - i,
        {
            buf.push(color.r);
            buf.push(color.g);
            buf.push(color.b);
            buf.push(color.a);
            i = i + 1;
            proof {
                assert forall|k: int| 0 <= k < i * 4 implies buf@[k] == rgba_byte(
                    color,
                    k % 4,
                ) by {
                    if k < (i - 1) * 4 {
                    } else {
                        assert(k == (i - 1) * 4 + (k - (i - 1) * 4));
                    }
                }
                assert(buf@ =~= blank_buf(i as nat, color));
            }
        }
        Canvas { width, height, buf }
    }

    /// A canvas taking ownership of an existing raw RGBA buffer; accepted
    /// exactly when the buffer's length matches the dimensions.
    pub fn from_raw(width: u32, height: u32, data: Vec<u8>) -> (r: Option<Canvas>)
        requires
            width >= 1,
            height >= 1,
            width as nat * height as nat * 4 <= usize::MAX as nat,
        ensures
            r is Some <==> data@.len() == width as nat * height as nat * 4,
            r matches Some(c) ==> c.wf() && c.width == width && c.height == height && c.buf@
                == data@,
    {
        let expected: usize = (width as usize) * (height as usize) * 4;
        if data.len() == expected {
            Some(Canvas { width, height, buf: data })
        } else {
            None
        }
    }

    /// Apply one stroke: fill its quadrilateral, unless the stroke is
    /// degenerate, in which case the buffer is left untouched.
    pub fn apply_stroke(&mut self, d: &Draw)
        requires
            old(self).wf(),
        ensures
            final(self).wf(),
            final(self).width == old(self).width,
            final(self).height == old(self).height,
            final(self).buf@ == stroke_effect(old(self).width, old(self).height, old(self).buf@, *d),
    {
        if d.p0 == d.p3 {
            return ;
        }
        let color = d.color.as_rgba();
        crate::geom::draw_polygon_raw(
            self.width,
            self.height,
            &mut self.buf,
            d.p0,
            d.p1,
            d.p2,
            d.p3,
            (color.r, color.g, color.b, color.a),
        );
        proof {
            assert((color.r, color.g, color.b, color.a) == draw_color_bytes(*d));
        }
    }

    /// A self-contained lossless encoding of the current buffer, safe to hand
    /// to a newly connecting client or to persist.
    pub fn encode_png(&self) -> (r: Vec<u8>)
        requires
            self.wf(),
        ensures
            r@ == png_of(self.width, self.height, self.buf@),
            png_decoded(r@) == Some((self.width, self.height, self.buf@)),
    {
        encode_png_raw(self.width, self.height, &self.buf)
    }

    /// The canvas a process starts from: the persisted image when one is
    /// supplied and acceptable, a blank `background`-filled canvas when none
    /// is, and a fatal error when the persisted bytes are corrupt.
    pub fn load_or_init(
        width: u32,
        height: u32,
        background: Rgba,
        persisted: Option<Vec<u8>>,
    ) -> (r: Result<Canvas, LoadError>)
        requires
            width >= 1,
            height >= 1,
            width as nat * height as nat * 4 <= usize::MAX as nat,
        ensures
            (match r {
                Ok(c) => c.wf() && c.width == width && c.height == height && load_result(
                    width,
                    height,
                    background,
                    match persisted {
                        Some(b) => Some(b@),
                        None => None,
                    },
                ) == Ok::<Seq<u8>, LoadError>(c.buf@),
                Err(e) => load_result(
                    width,
                    height,
                    background,
                    match persisted {
                        Some(b) => Some(b@),
                        None => None,
                    },
                ) == Err::<Seq<u8>, LoadError>(e),
            }),
    {
        match persisted {
            None => Ok(Canvas::blank(width, height, background)),
            Some(bytes) => match decode_png_raw(&bytes) {
                None => Err(LoadError::Undecodable),
                Some((w, h, data)) => {
                    if w != width || h != height {
                        Err(LoadError::WrongDimensions)
                    } else {
                        match Canvas::from_raw(width, height, data) {
                            Some(c) => Ok(c),
                            None => Err(LoadError::WrongLength),
                        }
                    }
                },
            },
        }
    }
}

/// What `load_or_init` yields for given inputs: the raw buffer of the
/// resulting canvas, or the startup error.
pub open spec fn load_result(
    width: u32,
    height: u32,
    background: Rgba,
    persisted: Option<Seq<u8>>,
) -> Result<Seq<u8>, LoadError> {
    match persisted {
        None => Ok(blank_buf(width as nat * height as nat, background)),
        Some(bytes) => match png_decoded(bytes) {
            None => Err(LoadError::Undecodable),
            Some((w, h, data)) => {
                if w != width || h != height {
                    Err(LoadError::WrongDimensions)
                } else if data.len() != width as nat * height as nat * 4 {
                    Err(LoadError::WrongLength)
                } else {
                    Ok(data)
                }
            },
        },
    }
}

/// Persisting a canvas and loading what was written, with the same
/// dimensions, reproduces the exact canvas buffer bytes: encoding is
/// lossless, so any bytes that decode back to the canvas's own dimensions
/// and buffer are accepted by `load_or_init` and yield that same buffer.
pub proof fn lemma_persist_load_roundtrip(
    width: u32,
    height: u32,
    background: Rgba,
    buf: Seq<u8>,
    png: Seq<u8>,
)
    requires
        png_decoded(png) == Some((width, height, buf)),
        buf.len() == width as nat * height as nat * 4,
    ensures
        load_result(width, height, background, Some(png)) == Ok::<Seq<u8>, LoadError>(buf),
{
}

/// Relies on image's `PngEncoder::write_image`: losslessly encodes a raw
/// 8-bit RGBA buffer of matching length as a PNG, so decoding the output
/// yields the same dimensions and bytes.
#[verifier::external_body]
fn encode_png_raw(width: u32, height: u32, buf: &Vec<u8>) -> (r: Vec<u8>)
    requires
        width >= 1,
        height >= 1,
        buf@.len() == width as nat * height as nat * 4,
    ensures
        r@ == png_of(width, height, buf@),
        png_decoded(r@) == Some((width, height, buf@)),
{
    let mut out: Vec<u8> = Vec::new();
    let encoder = image::codecs::png::PngEncoder::new(&mut out);
    image::ImageEncoder::write_image(
        encoder,
        buf.as_slice(),
        width,
        height,
        image::ExtendedColorType::Rgba8,
    )
        .expect("PNG encoding of a well-formed RGBA buffer succeeds");
    out
}

/// Relies on image's `PngDecoder` with `ImageDecoder::read_image`: decodes
/// PNG bytes into the image's dimensions and raw pixel bytes; undecodable
/// input is reported as `None`.
#[verifier::external_body]
fn decode_png_raw(bytes: &Vec<u8>) -> (r: Option<(u32, u32, Vec<u8>)>)
    ensures
        (match r {
            Some((w, h, d)) => png_decoded(bytes@) == Some((w, h, d@)),
            None => png_decoded(bytes@) is None,
        }),
{
    let cursor = std::io::Cursor::new(bytes.as_slice());
    let decoder = image::codecs::png::PngDecoder::new(cursor).ok()?;
    let (w, h) = image::ImageDecoder::dimensions(&decoder);
    let total = image::ImageDecoder::total_bytes(&decoder);
    let mut data = vec![0u8; usize::try_from(total).ok()?];
    image::ImageDecoder::read_image(decoder, &mut data).ok()?;
    Some((w, h, data))
}

} // verus!

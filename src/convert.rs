use vstd::prelude::*;

use crate::error::{Error, Result};
use crate::models::FrameEvent;


verus! {

/// Declares the pixel converter's error type so that it can be carried through.
#[verifier::external_type_specification]
#[verifier::external_body]
pub struct ExYuvError(yuv::YuvError);

/// The colour matrix used to turn luma/chroma samples into RGB.
#[derive(Debug, Clone, Copy, PartialEq, Eq, Structural)]
pub enum ColorMatrix {
    /// Standard definition (BT.601).
    Bt601,
    /// High definition (BT.709).
    Bt709,
}

/// Pixel layout of a raw frame as tagged by the capture provider.
#[derive(Debug, Clone, Copy, PartialEq, Eq, Structural)]
pub enum PixelFormat {
    /// Y plane followed by one interleaved UV plane ("NV12").
    Nv12,
    /// Packed 8-bit RGB, passed through untouched ("RGB8").
    Rgb8,
    /// Planar Y, U, V 4:2:0 ("YUV").
    Yuv420,
}

/// Pixel layout of a converted frame.
#[derive(Debug, Clone, Copy, PartialEq, Eq, Structural)]
pub enum OutputFormat {
    /// Three bytes per pixel ("RGB8").
    Rgb8,
    /// Four bytes per pixel ("RGBA").
    Rgba,
}

/// The alpha byte of pixel `i` in an RGBA buffer.
pub open spec fn alpha_at(rgba: Seq<u8>, i: int) -> u8 {
    rgba[4 * i + 3]
}

/// Every pixel of an RGBA buffer is fully opaque.
pub open spec fn opaque_alpha(rgba: Seq<u8>) -> bool {
    forall|i: int| 0 <= i < rgba.len() / 4 ==> #[trigger] alpha_at(rgba, i) == 255
}

/// Number of luma samples of a frame.
pub open spec fn luma_len(width: u32, height: u32) -> nat {
    (width as nat) * (height as nat)
}

/// Bytes a 4:2:0 frame (NV12 or planar) must at least hold before conversion to RGBA.
pub open spec fn yuv420_min_len(width: u32, height: u32) -> nat {
    luma_len(width, height) * 3 / 2
}

/// Bytes an NV12 frame must at least hold before it can be de-interleaved.
pub open spec fn i420_len(width: u32, height: u32) -> nat {
    luma_len(width, height) + 2 * (luma_len(width, height) / 4)
}

/// The planar (I420) layout of an NV12 buffer: the luma plane unchanged, then every
/// even byte of the chroma plane (U), then every odd byte (V).
pub open spec fn i420_of(nv12: Seq<u8>, width: u32, height: u32) -> Seq<u8> {
    let y = luma_len(width, height) as int;
    let q = luma_len(width, height) / 4;
    nv12.subrange(0, y) + Seq::new(q, |i: int| nv12[y + 2 * i]) + Seq::new(
        q,
        |i: int| nv12[y + 2 * i + 1],
    )
}

/// Whether an RGBA image of this size, and its row stride, can be addressed at all.
pub open spec fn rgba_fits(width: u32, height: u32) -> bool {
    4 * luma_len(width, height) <= isize::MAX && 4 * width <= u32::MAX
}

/// Rows of a 4:2:0 chroma plane.
pub open spec fn chroma_rows(height: u32) -> nat {
    ((height as nat) + 1) / 2
}

/// When the NV12 converter accepts planes of these lengths, with tight strides: both
/// sides non-zero, an even width (an odd one needs a chroma row longer than the
/// stride), an addressable image, a full luma plane and a full interleaved chroma plane.
pub open spec fn nv12_planes_ok(y_len: nat, uv_len: nat, width: u32, height: u32) -> bool {
    &&& width > 0 && height > 0
    &&& width % 2 == 0
    &&& 4 * luma_len(width, height) <= isize::MAX
    &&& y_len >= luma_len(width, height)
    &&& uv_len >= (width as nat) * chroma_rows(height)
}

/// When the planar 4:2:0 converter accepts planes of these lengths, with tight strides:
/// as for NV12, with each of the two chroma planes half a row wide.
pub open spec fn i420_planes_ok(y_len: nat, u_len: nat, v_len: nat, width: u32, height: u32) -> bool {
    &&& width > 0 && height > 0
    &&& width % 2 == 0
    &&& 4 * luma_len(width, height) <= isize::MAX
    &&& y_len >= luma_len(width, height)
    &&& u_len >= ((width / 2) as nat) * chroma_rows(height)
    &&& v_len >= ((width / 2) as nat) * chroma_rows(height)
}

/// High-definition frames use BT.709, smaller ones BT.601.
pub open spec fn matrix_for(width: u32, height: u32) -> ColorMatrix {
    if width >= 1280 || height >= 720 {
        ColorMatrix::Bt709
    } else {
        ColorMatrix::Bt601
    }
}

/// The format tag a capture provider uses for each pixel format.
pub open spec fn format_of_tag(tag: Seq<char>) -> Option<PixelFormat> {
    if tag == "NV12"@ {
        Some(PixelFormat::Nv12)
    } else if tag == "RGB8"@ {
        Some(PixelFormat::Rgb8)
    } else if tag == "YUV"@ {
        Some(PixelFormat::Yuv420)
    } else {
        None
    }
}

pub open spec fn output_tag(f: OutputFormat) -> Seq<char> {
    match f {
        OutputFormat::Rgb8 => "RGB8"@,
        OutputFormat::Rgba => "RGBA"@,
    }
}

/// Picks the colour matrix for a frame of the given size.
pub fn color_matrix_for(width: u32, height: u32) -> (r: ColorMatrix)
    ensures
        r == matrix_for(width, height),
{
    if width >= 1280 || height >= 720 {
        ColorMatrix::Bt709
    } else {
        ColorMatrix::Bt601
    }
}

impl PixelFormat {
    /// Reads a capture provider's format tag; `None` for a tag no converter handles.
    pub fn from_tag(tag: &String) -> (r: Option<PixelFormat>)
        ensures
            r == format_of_tag(tag@),
    {
        if *tag == String::from_str("NV12") {
            Some(PixelFormat::Nv12)
        } else if *tag == String::from_str("RGB8") {
            Some(PixelFormat::Rgb8)
        } else if *tag == String::from_str("YUV") {
            Some(PixelFormat::Yuv420)
        } else {
            None
        }
    }
}

impl OutputFormat {
    /// The tag carried by a converted frame.
    pub fn tag(&self) -> (r: String)
        ensures
            r@ == output_tag(*self),
    {
        match self {
            OutputFormat::Rgb8 => String::from_str("RGB8"),
            OutputFormat::Rgba => String::from_str("RGBA"),
        }
    }
}

/// Relies on yuv::yuv_nv12_to_rgba (limited range, fast mode, tight strides). With a
/// luma plane of exactly one byte per pixel, its only failures are the size checks of
/// `check_y8_channel`, `check_interleaved_chroma_channel` and `check_rgba_destination`,
/// which return an error; a longer luma plane makes the last row of an odd-height image
/// panic, hence the `requires`. The destination keeps its length and every pixel's alpha
/// byte is set to 255; the colour values depend on the row kernel picked for the CPU and
/// are not stated.
#[verifier::external_body]
fn nv12_planes_to_rgba(
    y_plane: &[u8],
    uv_plane: &[u8],
    width: u32,
    height: u32,
    rgba_stride: u32,
    matrix: ColorMatrix,
    rgba: &mut Vec<u8>,
) -> (r: core::result::Result<(), yuv::YuvError>)
    requires
        y_plane@.len() == luma_len(width, height),
        rgba_stride == 4 * width,
        old(rgba)@.len() == 4 * luma_len(width, height),
    ensures
        final(rgba)@.len() == old(rgba)@.len(),
        r is Ok ==> opaque_alpha(final(rgba)@),
        r is Ok <==> nv12_planes_ok(y_plane@.len(), uv_plane@.len(), width, height),
{
    let image = yuv::YuvBiPlanarImage {
        y_plane,
        y_stride: width,
        uv_plane,
        uv_stride: width,
        width,
        height,
    };
    let matrix = match matrix {
        ColorMatrix::Bt601 => yuv::YuvStandardMatrix::Bt601,
        ColorMatrix::Bt709 => yuv::YuvStandardMatrix::Bt709,
    };
    yuv::yuv_nv12_to_rgba(&image, rgba.as_mut_slice(), rgba_stride, yuv::YuvRange::Limited, matrix, yuv::YuvConversionMode::Fast)
}

/// Relies on yuv::yuv420_to_rgba (limited range, tight strides). Its only failures are
/// the size checks of `check_rgba_destination`, `check_y8_channel` and
/// `check_chroma_channel`, which return an error rather than panic. The destination keeps
/// its length and every pixel's alpha byte is set to 255; the colour values depend on the
/// row kernel picked for the CPU and are not stated.
#[verifier::external_body]
fn i420_planes_to_rgba(
    y_plane: &[u8],
    u_plane: &[u8],
    v_plane: &[u8],
    width: u32,
    height: u32,
    chroma_stride: u32,
    rgba_stride: u32,
    matrix: ColorMatrix,
    rgba: &mut Vec<u8>,
) -> (r: core::result::Result<(), yuv::YuvError>)
    requires
        chroma_stride == width / 2,
        rgba_stride == 4 * width,
        old(rgba)@.len() == 4 * luma_len(width, height),
    ensures
        final(rgba)@.len() == old(rgba)@.len(),
        r is Ok ==> opaque_alpha(final(rgba)@),
        r is Ok <==> i420_planes_ok(
            y_plane@.len(),
            u_plane@.len(),
            v_plane@.len(),
            width,
            height,
        ),
{
    let image = yuv::YuvPlanarImage {
        y_plane,
        y_stride: width,
        u_plane,
        u_stride: chroma_stride,
        v_plane,
        v_stride: chroma_stride,
        width,
        height,
    };
    let matrix = match matrix {
        ColorMatrix::Bt601 => yuv::YuvStandardMatrix::Bt601,
        ColorMatrix::Bt709 => yuv::YuvStandardMatrix::Bt709,
    };
    yuv::yuv420_to_rgba(&image, rgba.as_mut_slice(), rgba_stride, yuv::YuvRange::Limited, matrix)
}

/// Relies on openh264's `Encoder::new` and `Encoder::encode`: a new encoder with the
/// default configuration encodes one tightly packed 4:2:0 frame; `None` where either
/// fails. The bitstream may depend on the machine (thread count, CPU-specific code), so
/// nothing is stated of it. `YUVSlices::new` panics unless the plane lengths match the
/// dimensions, and only even, non-zero sides are handed to the C encoder, hence the
/// `requires`.
#[verifier::external_body]
fn encode_i420_planes(
    y_plane: &[u8],
    u_plane: &[u8],
    v_plane: &[u8],
    width: usize,
    height: usize,
    chroma_stride: usize,
) -> (r: Option<Vec<u8>>)
    requires
        width > 0 && height > 0,
        width % 2 == 0 && height % 2 == 0,
        chroma_stride == width / 2,
        y_plane@.len() == height * width,
        u_plane@.len() == (height / 2) * chroma_stride,
        v_plane@.len() == (height / 2) * chroma_stride,
{
    let source = openh264::formats::YUVSlices::new(
        (y_plane, u_plane, v_plane),
        (width, height),
        (width, chroma_stride, chroma_stride),
    );
    let mut encoder = openh264::encoder::Encoder::new().ok()?;
    let bitstream = encoder.encode(&source).ok()?;
    Some(bitstream.to_vec())
}


/// A frame never has more luma samples than two `u32` sides allow.
proof fn lemma_luma_bound(width: u32, height: u32)
    ensures
        luma_len(width, height) <= 0xffff_fffe_0000_0001,
        luma_len(width, height) == (width as int) * (height as int),
{
    assert((width as int) * (height as int) <= 0xffff_ffffint * 0xffff_ffffint) by (nonlinear_arith)
        requires width <= 0xffff_ffffint, height <= 0xffff_ffffint, 0 <= width, 0 <= height;
}

/// The error for a raw buffer shorter than `expected` bytes.
pub open spec fn too_small(expected: nat, received: nat) -> Error {
    Error::InvalidBufferSize { expected: expected as u128, received: received as u128 }
}

/// De-interleaves an NV12 frame into planar I420: the luma plane is copied unchanged,
/// then the even chroma bytes form the U plane and the odd ones the V plane. A buffer
/// shorter than the frame needs is refused.
pub fn nv12_to_i420(nv12_data: &[u8], width: u32, height: u32) -> (r: Result<Vec<u8>>)
    ensures
        nv12_data@.len() < i420_len(width, height) ==> r == Err::<Vec<u8>, Error>(
            too_small(i420_len(width, height), nv12_data@.len()),
        ),
        nv12_data@.len() >= i420_len(width, height) ==> r is Ok && r->Ok_0@ == i420_of(
            nv12_data@,
            width,
            height,
        ),
{
    proof {
        lemma_luma_bound(width, height);
    }
    let luma: u128 = (width as u128) * (height as u128);
    let expected: u128 = luma + 2 * (luma / 4);
    if (nv12_data.len() as u128) < expected {
        return Err(Error::InvalidBufferSize { expected, received: nv12_data.len() as u128 });
    }
    let n: usize = nv12_data.len();
    let y_size: usize = luma as usize;
    let quarter: usize = y_size / 4;
    let mut out: Vec<u8> = Vec::with_capacity(y_size + 2 * quarter);
    let mut i: usize = 0;
    while i < y_size
        invariant
            i <= y_size,
            y_size + 2 * quarter <= n,
            n == nv12_data@.len(),
            out@ == nv12_data@.subrange(0, i as int),
        decreases y_size - i,
    {
        out.push(nv12_data[i]);
        i += 1;
    }
    let ghost luma_part = out@;
    let mut k: usize = 0;
    while k < quarter
        invariant
            k <= quarter,
            y_size + 2 * quarter <= n,
            n == nv12_data@.len(),
            luma_part == nv12_data@.subrange(0, y_size as int),
            out@ == luma_part + Seq::new(k as nat, |j: int| nv12_data@[y_size + 2 * j]),
        decreases quarter - k,
    {
        out.push(nv12_data[y_size + 2 * k]);
        proof {
            assert(out@ =~= luma_part + Seq::new((k + 1) as nat, |j: int| nv12_data@[y_size + 2 * j]));
        }
        k += 1;
    }
    let ghost u_part = out@;
    let mut k: usize = 0;
    while k < quarter
        invariant
            k <= quarter,
            y_size + 2 * quarter <= n,
            n == nv12_data@.len(),
            u_part == luma_part + Seq::new(quarter as nat, |j: int| nv12_data@[y_size + 2 * j]),
            out@ == u_part + Seq::new(k as nat, |j: int| nv12_data@[y_size + 2 * j + 1]),
        decreases quarter - k,
    {
        out.push(nv12_data[y_size + 2 * k + 1]);
        proof {
            assert(out@ =~= u_part + Seq::new((k + 1) as nat, |j: int| nv12_data@[y_size + 2 * j + 1]));
        }
        k += 1;
    }
    Ok(out)
}

/// Whether an NV12 buffer of `len` bytes converts: long enough, addressable as RGBA,
/// and with the planes it is cut into (the luma plane, then all the rest as chroma)
/// accepted by the converter.
pub open spec fn nv12_converts(len: nat, width: u32, height: u32) -> bool {
    &&& len >= yuv420_min_len(width, height)
    &&& rgba_fits(width, height)
    &&& nv12_planes_ok(
        luma_len(width, height),
        (len - luma_len(width, height)) as nat,
        width,
        height,
    )
}

/// Whether a planar 4:2:0 buffer of `len` bytes converts: long enough, addressable as
/// RGBA, and with its luma plane and two quarter-size chroma planes accepted.
pub open spec fn yuv420_converts(len: nat, width: u32, height: u32) -> bool {
    &&& len >= yuv420_min_len(width, height)
    &&& rgba_fits(width, height)
    &&& i420_planes_ok(
        luma_len(width, height),
        luma_len(width, height) / 4,
        luma_len(width, height) / 4,
        width,
        height,
    )
}

/// Frames with even, non-zero sides convert whenever the buffer is long enough and the
/// image is addressable, in either 4:2:0 layout.
pub proof fn lemma_even_frames_convert(len: nat, width: u32, height: u32)
    requires
        encodable(width, height),
        len >= yuv420_min_len(width, height),
        rgba_fits(width, height),
    ensures
        nv12_converts(len, width, height),
        yuv420_converts(len, width, height),
{
    let w = width as int;
    let h = height as int;
    assert(luma_len(width, height) == w * h);
    assert(w * h == 4 * ((w / 2) * (h / 2))) by (nonlinear_arith)
        requires w % 2 == 0, h % 2 == 0;
    assert(chroma_rows(height) == h / 2);
    assert(w * (h / 2) == 2 * ((w / 2) * (h / 2))) by (nonlinear_arith)
        requires w % 2 == 0;
}

/// Converts an NV12 frame to RGBA, four bytes per pixel. A buffer shorter than one and
/// a half bytes per pixel is refused with `InvalidBufferSize`; otherwise the converter is
/// handed the luma plane and everything after it as the chroma plane, and the result is
/// `Ok` exactly when it accepts them.
pub fn nv12_to_rgba(yuv_data: &[u8], width: u32, height: u32) -> (r: Result<Vec<u8>>)
    ensures
        yuv_data@.len() < yuv420_min_len(width, height) ==> r == Err::<Vec<u8>, Error>(
            too_small(yuv420_min_len(width, height), yuv_data@.len()),
        ),
        yuv_data@.len() >= yuv420_min_len(width, height) && !nv12_converts(
            yuv_data@.len(),
            width,
            height,
        ) ==> r == Err::<Vec<u8>, Error>(Error::ConversionFailed),
        nv12_converts(yuv_data@.len(), width, height) ==> r is Ok && r->Ok_0@.len() == 4
            * luma_len(width, height),
        r is Ok ==> opaque_alpha(r->Ok_0@),
        encodable(width, height) && yuv_data@.len() >= yuv420_min_len(width, height)
            && rgba_fits(width, height) ==> r is Ok,
{
    proof {
        lemma_luma_bound(width, height);
        if encodable(width, height) && yuv_data@.len() >= yuv420_min_len(width, height)
            && rgba_fits(width, height) {
            lemma_even_frames_convert(yuv_data@.len(), width, height);
        }
    }
    let luma: u128 = (width as u128) * (height as u128);
    let expected: u128 = luma * 3 / 2;
    if (yuv_data.len() as u128) < expected {
        return Err(Error::InvalidBufferSize { expected, received: yuv_data.len() as u128 });
    }
    let y_size: usize = luma as usize;
    if y_size > (isize::MAX as usize) / 4 || width > u32::MAX / 4 {
        return Err(Error::ConversionFailed);
    }
    let (y_plane, uv_plane) = yuv_data.split_at(y_size);
    let mut rgba: Vec<u8> = vec![0u8; y_size * 4];
    let matrix = color_matrix_for(width, height);
    match nv12_planes_to_rgba(y_plane, uv_plane, width, height, width * 4, matrix, &mut rgba) {
        Ok(()) => Ok(rgba),
        Err(_) => Err(Error::ConversionFailed),
    }
}

/// Converts a planar 4:2:0 frame (Y, then U, then V, each chroma plane a quarter of
/// the luma plane) to RGBA, four bytes per pixel. A buffer shorter than one and a half
/// bytes per pixel is refused with `InvalidBufferSize`; otherwise the result is `Ok`
/// exactly when the converter accepts the three planes.
pub fn yuv_to_rgba(yuv_data: &[u8], width: u32, height: u32) -> (r: Result<Vec<u8>>)
    ensures
        yuv_data@.len() < yuv420_min_len(width, height) ==> r == Err::<Vec<u8>, Error>(
            too_small(yuv420_min_len(width, height), yuv_data@.len()),
        ),
        yuv_data@.len() >= yuv420_min_len(width, height) && !yuv420_converts(
            yuv_data@.len(),
            width,
            height,
        ) ==> r == Err::<Vec<u8>, Error>(Error::ConversionFailed),
        yuv420_converts(yuv_data@.len(), width, height) ==> r is Ok && r->Ok_0@.len() == 4
            * luma_len(width, height),
        r is Ok ==> opaque_alpha(r->Ok_0@),
        encodable(width, height) && yuv_data@.len() >= yuv420_min_len(width, height)
            && rgba_fits(width, height) ==> r is Ok,
{
    proof {
        lemma_luma_bound(width, height);
        if encodable(width, height) && yuv_data@.len() >= yuv420_min_len(width, height)
            && rgba_fits(width, height) {
            lemma_even_frames_convert(yuv_data@.len(), width, height);
        }
    }
    let luma: u128 = (width as u128) * (height as u128);
    let expected: u128 = luma * 3 / 2;
    if (yuv_data.len() as u128) < expected {
        return Err(Error::InvalidBufferSize { expected, received: yuv_data.len() as u128 });
    }
    let y_size: usize = luma as usize;
    if y_size > (isize::MAX as usize) / 4 || width > u32::MAX / 4 {
        return Err(Error::ConversionFailed);
    }
    let quarter: usize = y_size / 4;
    let (y_plane, rest) = yuv_data.split_at(y_size);
    let (u_plane, rest2) = rest.split_at(quarter);
    let (v_plane, _) = rest2.split_at(quarter);
    let mut rgba: Vec<u8> = vec![0u8; y_size * 4];
    let matrix = color_matrix_for(width, height);
    match i420_planes_to_rgba(
        y_plane,
        u_plane,
        v_plane,
        width,
        height,
        width / 2,
        width * 4,
        matrix,
        &mut rgba,
    ) {
        Ok(()) => Ok(rgba),
        Err(_) => Err(Error::ConversionFailed),
    }
}

/// Whether the encoder can take a frame of this size: both sides even and non-zero.
pub open spec fn encodable(width: u32, height: u32) -> bool {
    width > 0 && height > 0 && width % 2 == 0 && height % 2 == 0
}

/// Encodes one NV12 frame as an H.264 access unit (Annex B), by way of its planar
/// I420 layout. Frames with an odd or zero side cannot be encoded as 4:2:0.
pub fn yuv_nv12_to_h264(nv12_data: &[u8], width: u32, height: u32) -> (r: Result<Vec<u8>>)
    ensures
        nv12_data@.len() < i420_len(width, height) ==> r == Err::<Vec<u8>, Error>(
            too_small(i420_len(width, height), nv12_data@.len()),
        ),
        nv12_data@.len() >= i420_len(width, height) && !encodable(width, height) ==> r
            == Err::<Vec<u8>, Error>(Error::EncodingFailed),
        r is Err ==> r == Err::<Vec<u8>, Error>(
            too_small(i420_len(width, height), nv12_data@.len()),
        ) || r == Err::<Vec<u8>, Error>(Error::EncodingFailed),
        r is Ok ==> encodable(width, height),
{
    let i420 = nv12_to_i420(nv12_data, width, height)?;
    if width == 0 || height == 0 || width % 2 != 0 || height % 2 != 0 {
        return Err(Error::EncodingFailed);
    }
    proof {
        lemma_luma_bound(width, height);
    }
    let w: usize = width as usize;
    let h: usize = height as usize;
    let total: usize = i420.len();
    assert(total == i420_len(width, height));
    assert((w as int) * (h as int) <= total);
    let y_size: usize = w * h;
    let quarter: usize = y_size / 4;
    let chroma_stride: usize = w / 2;
    proof {
        assert((h / 2) * (w / 2) == (h * w) / 4) by (nonlinear_arith)
            requires h % 2 == 0, w % 2 == 0;
        assert((h as int) * (w as int) == (w as int) * (h as int)) by (nonlinear_arith);
    }
    let (y_plane, rest) = i420.as_slice().split_at(y_size);
    let (u_plane, v_plane) = rest.split_at(quarter);
    proof {
        let y = y_size as int;
        let q = quarter as int;
        assert(u_plane@ =~= i420@.subrange(y, y + q));
        assert(v_plane@ =~= i420@.subrange(y + q, y + 2 * q));
    }
    match encode_i420_planes(y_plane, u_plane, v_plane, w, h, chroma_stride) {
        Some(access_unit) => Ok(access_unit),
        None => Err(Error::EncodingFailed),
    }
}

/// A frame after conversion, before it is stamped and delivered.
#[derive(Debug, Clone, PartialEq, Eq)]
pub struct ConvertedFrame {
    pub data: Vec<u8>,
    pub format: OutputFormat,
}

/// Converts a raw frame by its format tag: NV12 and planar YUV become RGBA, RGB8 passes
/// through untouched, and any other tag is refused.
pub fn convert_frame(tag: &String, data: Vec<u8>, width: u32, height: u32) -> (r: Result<
    ConvertedFrame,
>)
    ensures
        format_of_tag(tag@) is None ==> r == Err::<ConvertedFrame, Error>(
            Error::UnsupportedPixelFormat(*tag),
        ),
        format_of_tag(tag@) == Some(PixelFormat::Rgb8) ==> r == Ok::<ConvertedFrame, Error>(
            ConvertedFrame { data, format: OutputFormat::Rgb8 },
        ),
        format_of_tag(tag@) == Some(PixelFormat::Nv12) || format_of_tag(tag@) == Some(
            PixelFormat::Yuv420,
        ) ==> {
            &&& data@.len() < yuv420_min_len(width, height) ==> r == Err::<ConvertedFrame, Error>(
                too_small(yuv420_min_len(width, height), data@.len()),
            )
            &&& r is Ok ==> r->Ok_0.format == OutputFormat::Rgba && r->Ok_0.data@.len() == 4
                * luma_len(width, height) && opaque_alpha(r->Ok_0.data@)
            &&& r is Err ==> r->Err_0.spec_kind() == crate::error::ErrorKind::Conversion
            &&& data@.len() >= yuv420_min_len(width, height) && r is Err ==> r == Err::<
                ConvertedFrame,
                Error,
            >(Error::ConversionFailed)
        },
        format_of_tag(tag@) == Some(PixelFormat::Nv12) ==> (r is Ok <==> nv12_converts(
            data@.len(),
            width,
            height,
        )),
        format_of_tag(tag@) == Some(PixelFormat::Yuv420) ==> (r is Ok <==> yuv420_converts(
            data@.len(),
            width,
            height,
        )),
{
    match PixelFormat::from_tag(tag) {
        Some(PixelFormat::Nv12) => {
            let rgba = nv12_to_rgba(data.as_slice(), width, height)?;
            Ok(ConvertedFrame { data: rgba, format: OutputFormat::Rgba })
        },
        Some(PixelFormat::Yuv420) => {
            let rgba = yuv_to_rgba(data.as_slice(), width, height)?;
            Ok(ConvertedFrame { data: rgba, format: OutputFormat::Rgba })
        },
        Some(PixelFormat::Rgb8) => Ok(ConvertedFrame { data, format: OutputFormat::Rgb8 }),
        None => Err(Error::UnsupportedPixelFormat(tag.clone())),
    }
}

impl FrameEvent {
    /// Stamps a converted frame with its sequence id, size and conversion time.
    pub fn from_converted(
        frame_id: u64,
        converted: ConvertedFrame,
        width: u32,
        height: u32,
        timestamp_ms: u64,
    ) -> (r: FrameEvent)
        ensures
            r.frame_id == frame_id,
            r.data == converted.data,
            r.width == width,
            r.height == height,
            r.timestamp_ms == timestamp_ms,
            r.format@ == output_tag(converted.format),
    {
        let format = converted.format.tag();
        FrameEvent { frame_id, data: converted.data, width, height, timestamp_ms, format }
    }
}

} // verus!

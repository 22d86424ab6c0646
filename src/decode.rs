//! Decoding a PNG byte stream into an image record.
use vstd::prelude::*;
use crate::color::{BitDepth, ColorModel};
use crate::record::{DecodeStage, LoadError, PNGImage};

verus! {

/// What a PNG header says of the image, as the decoder reports it.
#[derive(Clone, Copy, Debug, PartialEq, Eq, Structural)]
pub struct PngHeader {
    pub width: u32,
    pub height: u32,
    /// The color type code (0, 2, 3, 4 or 6).
    pub color_type: u8,
    /// The bits per sample (1, 2, 4, 8 or 16).
    pub bit_depth: u8,
    /// The bytes that one decoded row takes.
    pub line_size: usize,
}

/// The header holds a color type code and a bit depth that PNG defines.
pub open spec fn header_codes_valid(h: PngHeader) -> bool {
    &&& exists|m: ColorModel| m.code() == h.color_type
    &&& exists|d: BitDepth| d.bits() == h.bit_depth
}

impl PngHeader {
    /// The bytes that one decoded frame takes: a row's size times the rows.
    pub open spec fn frame_size(self) -> int {
        self.line_size * self.height
    }

    /// The frame size, if it fits in `usize`.
    pub fn buffer_size(&self) -> (r: Option<usize>)
        ensures
            r matches Some(n) ==> n == self.frame_size(),
            r is None <==> self.frame_size() > usize::MAX,
    {
        self.line_size.checked_mul(self.height as usize)
    }
}

/// What png's decoder reports of the header of `b`, when it is set to keep
/// samples as stored (see `keep_stored_samples`); `None` where it fails.
pub uninterp spec fn png_header_of(b: Seq<u8>) -> Option<PngHeader>;

/// The bytes that png's reader leaves in a zeroed buffer of the frame's size
/// when it decodes the first frame of `b` with samples as stored; `None`
/// where it fails.
pub uninterp spec fn png_frame_of(b: Seq<u8>) -> Option<Seq<u8>>;

/// `n` zero bytes.
pub open spec fn zeroed(n: nat) -> Seq<u8> {
    Seq::new(n, |i: int| 0u8)
}

/// png's decoder. Hidden because Verus cannot declare `png::Decoder`, whose
/// parameter is bound by `std::io::Read`.
#[verifier::external_body]
struct RawDecoder<'a> {
    decoder: png::Decoder<&'a [u8]>,
}

/// png's reader, positioned before the image data; hidden for the same
/// reason as `RawDecoder`.
#[verifier::external_body]
struct RawReader<'a> {
    reader: png::Reader<&'a [u8]>,
}

/// A decoder over `source`, before its header is read. `stored_samples`
/// says whether it was told to keep samples as stored.
struct PngDecoder<'a> {
    raw: RawDecoder<'a>,
    source: Ghost<Seq<u8>>,
    stored_samples: Ghost<bool>,
}

/// A reader over `source` whose header has been read; it decodes the first
/// frame once.
struct FrameReader<'a> {
    raw: RawReader<'a>,
    source: Ghost<Seq<u8>>,
}

#[verifier::external_type_specification]
#[verifier::external_body]
pub struct ExDecodingError(png::DecodingError);

/// Relies on png::Decoder::new: a decoder that reads its stream from `bytes`.
#[verifier::external_body]
fn new_decoder<'a>(bytes: &'a [u8]) -> (r: PngDecoder<'a>)
    ensures
        r.source@ == bytes@,
        !r.stored_samples@,
{
    PngDecoder {
        raw: RawDecoder { decoder: png::Decoder::new(bytes) },
        source: Ghost(bytes@),
        stored_samples: Ghost(false),
    }
}

/// Relies on png::Decoder::set_transformations: with `IDENTITY` the decoder
/// reports the header's own color type and bit depth and delivers samples
/// as stored (no 16-bit stripping, no palette expansion).
#[verifier::external_body]
fn keep_stored_samples(d: &mut PngDecoder)
    ensures
        final(d).source == old(d).source,
        final(d).stored_samples@,
{
    d.raw.decoder.set_transformations(png::Transformations::IDENTITY);
    d.stored_samples = Ghost(true);
}

/// Relies on png::Decoder::read_info: it reads the signature and the chunks
/// before the image data, and reports the header. The codes are those of
/// png's `ColorType` and `BitDepth` enums, and it fails where the frame's
/// size does not fit in `usize`.
#[verifier::external_body]
fn read_info<'a>(d: PngDecoder<'a>) -> (r: Result<(PngHeader, FrameReader<'a>), png::DecodingError>)
    requires
        d.stored_samples@,
    ensures
        r is Ok <==> png_header_of(d.source@) is Some,
        r matches Ok((h, rd)) ==> {
            &&& png_header_of(d.source@) == Some(h)
            &&& rd.source == d.source
            &&& header_codes_valid(h)
            &&& h.frame_size() <= usize::MAX
        },
{
    match d.raw.decoder.read_info() {
        Ok((info, reader)) => Ok((
            PngHeader {
                width: info.width,
                height: info.height,
                color_type: info.color_type as u8,
                bit_depth: info.bit_depth as u8,
                line_size: info.line_size,
            },
            FrameReader { raw: RawReader { reader }, source: d.source },
        )),
        Err(e) => Err(e),
    }
}

/// Relies on png::Reader::next_frame: it decodes the first frame into the
/// buffer, which must hold the frame's size in bytes, zeroed, since
/// interlaced rows of fewer than 8 bits per pixel are or-ed into it.
#[verifier::external_body]
fn next_frame(rd: FrameReader, buf: &mut Vec<u8>) -> (r: Result<(), png::DecodingError>)
    requires
        png_header_of(rd.source@) matches Some(h) && old(buf)@ == zeroed(h.frame_size() as nat),
    ensures
        final(buf)@.len() == old(buf)@.len(),
        r is Ok <==> png_frame_of(rd.source@) is Some,
        r is Ok ==> png_frame_of(rd.source@) == Some(final(buf)@),
{
    let mut reader = rd.raw.reader;
    reader.next_frame(buf.as_mut_slice())
}

/// `n` zero bytes, in a fresh buffer.
fn zeroed_buffer(n: usize) -> (r: Vec<u8>)
    ensures
        r@ == zeroed(n as nat),
{
    let mut v: Vec<u8> = Vec::with_capacity(n);
    let mut i: usize = 0;
    while i < n
        invariant
            i <= n,
            v@ == zeroed(i as nat),
        decreases n - i,
    {
        v.push(0u8);
        i = i + 1;
        assert(v@ =~= zeroed(i as nat));
    }
    v
}

/// Assembles the record of a decoded PNG frame from the header that
/// described it. Fails when the header names a color type or bit depth that
/// PNG does not define.
pub fn png_image_from_header(header: PngHeader, data: Vec<u8>) -> (r: Result<PNGImage, LoadError>)
    ensures
        r is Ok <==> header_codes_valid(header),
        r matches Ok(img) ==> {
            &&& img.width == header.width
            &&& img.height == header.height
            &&& img.data@ == data@
            &&& img.color_type.code() == header.color_type
            &&& img.bit_depth.bits() == header.bit_depth
        },
        r matches Err(e) ==> e == LoadError::DecodeError(DecodeStage::Header),
{
    let color_type = match ColorModel::from_u8(header.color_type) {
        Some(m) => m,
        None => return Err(LoadError::DecodeError(DecodeStage::Header)),
    };
    let bit_depth = match BitDepth::from_u8(header.bit_depth) {
        Some(d) => d,
        None => return Err(LoadError::DecodeError(DecodeStage::Header)),
    };
    Ok(PNGImage { width: header.width, height: header.height, data, color_type, bit_depth })
}

/// Decodes the first frame of a PNG byte stream into a record that carries
/// the header's dimensions, color type and bit depth, and the frame's bytes
/// as stored. A stream whose signature or header png rejects gives
/// `DecodeError(Header)`; one whose image data png rejects (corrupt or
/// truncated) gives `DecodeError(Frame)`; never a panic.
pub fn decode_png(bytes: &[u8]) -> (r: Result<PNGImage, LoadError>)
    ensures
        png_header_of(bytes@) is None ==> r == Err::<PNGImage, LoadError>(
            LoadError::DecodeError(DecodeStage::Header),
        ),
        png_header_of(bytes@) is Some && png_frame_of(bytes@) is None ==> r == Err::<
            PNGImage,
            LoadError,
        >(LoadError::DecodeError(DecodeStage::Frame)),
        png_header_of(bytes@) matches Some(h) ==> (png_frame_of(bytes@) matches Some(f) ==> {
            &&& r matches Ok(img)
            &&& img.width == h.width
            &&& img.height == h.height
            &&& img.color_type.code() == h.color_type
            &&& img.bit_depth.bits() == h.bit_depth
            &&& img.data@ == f
            &&& img.data@.len() == h.frame_size()
        }),
{
    let mut decoder = new_decoder(bytes);
    keep_stored_samples(&mut decoder);
    let (header, reader) = match read_info(decoder) {
        Ok(p) => p,
        Err(_) => return Err(LoadError::DecodeError(DecodeStage::Header)),
    };
    let size = match header.buffer_size() {
        Some(n) => n,
        None => return Err(LoadError::DecodeError(DecodeStage::Header)),
    };
    let mut buf = zeroed_buffer(size);
    match next_frame(reader, &mut buf) {
        Ok(()) => {},
        Err(_) => return Err(LoadError::DecodeError(DecodeStage::Frame)),
    }
    png_image_from_header(header, buf)
}

} // verus!

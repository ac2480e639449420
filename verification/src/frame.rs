//! The frame value and its binary encoding.

use vstd::prelude::*;
use crate::endian::{le_bytes_u32, le_bytes_u64, u32_from_le, u64_from_le, lemma_u32_le_round_trip, lemma_u64_le_round_trip};

verus! {

/// A frame as a mathematical value.
pub struct FrameView {
    pub width: u32,
    pub height: u32,
    pub pixels: Seq<u8>,
}

impl FrameView {
    /// Four bytes per pixel, rows one after another, no padding.
    pub open spec fn wf(self) -> bool {
        &&& self.pixels.len() == 4 * (self.width as int) * (self.height as int)
        &&& self.pixels.len() <= usize::MAX
    }
}

/// One captured image: 8-bit RGBA, row-major.
#[derive(Debug, PartialEq, Eq)]
pub struct Frame {
    width: u32,
    height: u32,
    pixels: Vec<u8>,
}

impl View for Frame {
    type V = FrameView;

    closed spec fn view(&self) -> FrameView {
        FrameView { width: self.width, height: self.height, pixels: self.pixels@ }
    }
}

/// Why a byte string is not an encoded frame.
#[derive(Debug, Clone, Copy, PartialEq, Eq)]
pub enum DecodeError {
    /// The input ends before the encoded frame does.
    Truncated,
    /// The pixel data does not have four bytes for each of `width * height` pixels.
    DimensionMismatch,
}

/// The error of the `bincode` crate, carried from its calls to where it is
/// mapped to `DecodeError`; nothing is known of what it holds.
#[verifier::external_type_specification]
#[verifier::external_body]
pub struct ExBincodeErrorKind(bincode::ErrorKind);

/// The bytes of an encoded frame: width and height as four little-endian
/// bytes each, the number of pixel bytes as eight, then the pixel bytes.
pub open spec fn encode_spec(f: FrameView) -> Seq<u8> {
    le_bytes_u32(f.width) + le_bytes_u32(f.height) + le_bytes_u64(f.pixels.len() as u64) + f.pixels
}

/// Whether `bytes` starts with a complete header and the pixel bytes it announces.
pub open spec fn holds_encoded_frame(bytes: Seq<u8>) -> bool {
    bytes.len() >= 16 && u64_from_le(bytes.subrange(8, 16)) <= bytes.len() - 16
}

/// The three fields at the start of `bytes`.
pub open spec fn encoded_fields(bytes: Seq<u8>) -> FrameView {
    FrameView {
        width: u32_from_le(bytes.subrange(0, 4)),
        height: u32_from_le(bytes.subrange(4, 8)),
        pixels: bytes.subrange(16, 16 + u64_from_le(bytes.subrange(8, 16)) as int),
    }
}

/// What decoding `bytes` gives. Bytes after the encoded frame are ignored.
pub open spec fn decode_spec(bytes: Seq<u8>) -> Result<FrameView, DecodeError> {
    if !holds_encoded_frame(bytes) {
        Err(DecodeError::Truncated)
    } else if !encoded_fields(bytes).wf() {
        Err(DecodeError::DimensionMismatch)
    } else {
        Ok(encoded_fields(bytes))
    }
}

/// Calls `bincode::serialize` on the triple `(width, height, pixels)`.
///
/// Claimed of it: with its fixed-width little-endian configuration it writes
/// the two integers as four bytes each, the length of the vector as eight
/// bytes, then the vector's bytes. It cannot fail on this type: the sequence
/// knows its length, no size limit is set, and the writer is a `Vec`.
#[verifier::external_body]
fn bincode_serialize(width: u32, height: u32, pixels: &Vec<u8>) -> (r: Result<Vec<u8>, Box<bincode::ErrorKind>>)
    ensures
        r is Ok,
        r matches Ok(bytes) ==> bytes@ == encode_spec((FrameView { width, height, pixels: pixels@ })),
{
    bincode::serialize(&(width, height, pixels))
}

/// Calls `bincode::deserialize` for the triple `(u32, u32, Vec<u8>)`.
///
/// Claimed of it: it reads the two integers and the length as `bincode::serialize`
/// writes them, then that many bytes; it fails exactly when the input ends
/// before that, and ignores what follows.
#[verifier::external_body]
fn bincode_deserialize(bytes: &[u8]) -> (r: Result<(u32, u32, Vec<u8>), Box<bincode::ErrorKind>>)
    ensures
        r is Ok <==> holds_encoded_frame(bytes@),
        r matches Ok(t) ==> encoded_fields(bytes@) == (FrameView { width: t.0, height: t.1, pixels: t.2@ }),
{
    bincode::deserialize::<(u32, u32, Vec<u8>)>(bytes)
}

/// Whether `len` is four times `width * height`.
fn matches_dimensions(width: u32, height: u32, len: usize) -> (b: bool)
    ensures
        b == (len == 4 * (width as int) * (height as int)),
{
    assert((width as int) * (height as int) <= 0xFFFF_FFFF * 0xFFFF_FFFF) by (nonlinear_arith)
        requires
            width <= 0xFFFF_FFFF,
            height <= 0xFFFF_FFFF,
    ;
    assert(0 <= (width as int) * (height as int)) by (nonlinear_arith);
    assert(4 * ((width as int) * (height as int)) == 4 * (width as int) * (height as int))
        by (nonlinear_arith);
    let area: u128 = (width as u128) * (height as u128);
    len as u128 == 4 * area
}

impl Frame {
    #[verifier::type_invariant]
    spec fn inv(self) -> bool {
        self@.wf()
    }

    /// A frame of `width` by `height` pixels; `None` unless `pixels` holds
    /// exactly four bytes for each of them.
    pub fn new(width: u32, height: u32, pixels: Vec<u8>) -> (r: Option<Frame>)
        ensures
            r is Some <==> (FrameView { width, height, pixels: pixels@ }).wf(),
            r matches Some(f) ==> f@ == (FrameView { width, height, pixels: pixels@ }),
    {
        if matches_dimensions(width, height, pixels.len()) {
            Some(Frame { width, height, pixels })
        } else {
            None
        }
    }

    pub fn width(&self) -> (w: u32)
        ensures
            w == self@.width,
    {
        self.width
    }

    pub fn height(&self) -> (h: u32)
        ensures
            h == self@.height,
    {
        self.height
    }

    /// The pixel bytes: always `4 * width * height` of them.
    pub fn pixels(&self) -> (p: &Vec<u8>)
        ensures
            p@ == self@.pixels,
            self@.wf(),
    {
        proof {
            use_type_invariant(self);
        }
        &self.pixels
    }

    /// Gives up the frame for its pixel bytes.
    pub fn into_pixels(self) -> (p: Vec<u8>)
        ensures
            p@ == self@.pixels,
            self@.wf(),
    {
        proof {
            use_type_invariant(&self);
        }
        self.pixels
    }

    /// The frame as bytes for transport.
    pub fn encode(&self) -> (bytes: Vec<u8>)
        ensures
            bytes@ == encode_spec(self@),
    {
        match bincode_serialize(self.width, self.height, &self.pixels) {
            Ok(bytes) => bytes,
            Err(_) => vstd::pervasive::unreached(),
        }
    }

    /// Reads a frame back from the bytes that `encode` gave.
    pub fn decode(bytes: &[u8]) -> (r: Result<Frame, DecodeError>)
        ensures
            match r {
                Ok(f) => decode_spec(bytes@) == Ok::<FrameView, DecodeError>(f@),
                Err(e) => decode_spec(bytes@) == Err::<FrameView, DecodeError>(e),
            },
    {
        match bincode_deserialize(bytes) {
            Err(_) => Err(DecodeError::Truncated),
            Ok((width, height, pixels)) => {
                if matches_dimensions(width, height, pixels.len()) {
                    Ok(Frame { width, height, pixels })
                } else {
                    Err(DecodeError::DimensionMismatch)
                }
            },
        }
    }
}

impl Clone for Frame {
    /// A copy with the same size and pixels.
    fn clone(&self) -> (copy: Frame)
        ensures
            copy@ == self@,
    {
        proof {
            use_type_invariant(self);
        }
        let pixels = self.pixels.clone();
        assert(pixels@ =~= self.pixels@);
        Frame { width: self.width, height: self.height, pixels }
    }
}

/// Decoding an encoded frame gives the frame back: width, height and every pixel byte.
pub proof fn lemma_decode_encode(f: FrameView)
    requires
        f.wf(),
    ensures
        decode_spec(encode_spec(f)) == Ok::<FrameView, DecodeError>(f),
{
    let bytes = encode_spec(f);
    let len = f.pixels.len() as u64;
    lemma_u32_le_round_trip(f.width);
    lemma_u32_le_round_trip(f.height);
    lemma_u64_le_round_trip(len);
    assert(bytes.subrange(0, 4) =~= le_bytes_u32(f.width));
    assert(bytes.subrange(4, 8) =~= le_bytes_u32(f.height));
    assert(bytes.subrange(8, 16) =~= le_bytes_u64(len));
    assert(bytes.subrange(16, 16 + len as int) =~= f.pixels);
}

} // verus!

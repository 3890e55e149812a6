//! Video frame codecs.
//!
//! `OpenH264Encoder` and `OpenH264Decoder` stand in for a real H.264 codec:
//! a frame is written as its width, height and timestamp (little-endian
//! 32-bit values) followed by run-length pairs (count, byte), and the
//! encoder stops once the output reaches a quarter of the frame's size.

use vstd::prelude::*;

verus! {

/// The bytes a buffer holds.
pub uninterp spec fn bytes_view(b: bytes::Bytes) -> Seq<u8>;

#[verifier::external_type_specification]
#[verifier::external_body]
pub struct ExBytes(bytes::Bytes);

/// Relies on `From<Vec<u8>> for bytes::Bytes`: the buffer takes over the
/// vector and holds exactly its bytes.
#[verifier::external_body]
fn into_bytes(v: Vec<u8>) -> (r: bytes::Bytes)
    ensures
        bytes_view(r) == v@,
{
    bytes::Bytes::from(v)
}

/// Largest accepted frame width.
pub const MAX_WIDTH: u32 = 8192;

/// Largest accepted frame height.
pub const MAX_HEIGHT: u32 = 8192;

/// Largest decoded frame, in bytes.
pub const MAX_RGB_SIZE: usize = 104857600;

/// Size of the encoded frame header.
pub const FRAME_HEADER_SIZE: usize = 12;

/// Errors of the codecs.
#[derive(Debug, Clone, PartialEq, Eq)]
pub enum CodecError {
    /// The frame's dimensions differ from the encoder's.
    DimensionMismatch {
        /// Frame width
        frame_width: u32,
        /// Frame height
        frame_height: u32,
        /// Encoder width
        cfg_width: u32,
        /// Encoder height
        cfg_height: u32,
    },
    /// The input is not encoded data.
    InvalidData(&'static str),
    /// A computation overflowed.
    Overflow,
    /// The codec could not be set up.
    InitFailed(String),
    /// The feature is missing.
    NotImplemented(&'static str),
    /// Width or height is zero or over its bound.
    InvalidDimensions(u32, u32),
    /// The data is larger than allowed.
    SizeExceeded {
        /// Size found
        actual: usize,
        /// Largest allowed
        max: usize,
    },
}

/// Video codecs.
#[derive(Debug, Clone, Copy, PartialEq, Eq, Structural)]
pub enum VideoCodec {
    /// H.264
    H264,
}

/// Audio codecs.
#[derive(Debug, Clone, Copy, PartialEq, Eq, Structural)]
pub enum AudioCodec {
    /// Opus
    Opus,
}

/// A raw RGB video frame.
#[derive(Debug, Clone, PartialEq, Eq)]
pub struct VideoFrame {
    /// Pixel data, three bytes per pixel
    pub data: Vec<u8>,
    /// Width in pixels
    pub width: u32,
    /// Height in pixels
    pub height: u32,
    /// Capture timestamp
    pub timestamp: u64,
}

/// Turns raw frames into encoded data.
pub trait VideoEncoder {
    /// Encodes one frame.
    fn encode(&mut self, frame: &VideoFrame) -> Result<bytes::Bytes, CodecError>;

    /// Asks for the next frame to be a key frame.
    fn request_keyframe(&mut self);
}

/// Turns encoded data into raw frames.
pub trait VideoDecoder {
    /// Decodes one frame.
    fn decode(&mut self, data: &[u8]) -> Result<VideoFrame, CodecError>;
}

/// Little-endian bytes of a 32-bit value.
pub open spec fn le32(x: u32) -> Seq<u8> {
    seq![
        (x & 0xffu32) as u8,
        ((x >> 8u32) & 0xffu32) as u8,
        ((x >> 16u32) & 0xffu32) as u8,
        (x >> 24u32) as u8,
    ]
}

/// The 32-bit value of four little-endian bytes.
pub open spec fn read_le32(a: u8, b: u8, c: u8, d: u8) -> u32 {
    (a as u32) | ((b as u32) << 8u32) | ((c as u32) << 16u32) | ((d as u32) << 24u32)
}

/// Length of the run of equal bytes at `i`, counted from `c` on, at most
/// 255.
pub open spec fn run_from(data: Seq<u8>, i: int, c: int) -> int
    decreases 255 - c,
{
    if c < 255 && 0 <= i && i + c < data.len() && data[i] == data[i + c] {
        run_from(data, i, c + 1)
    } else {
        c
    }
}

/// Run-length pairs for `data` from `i` on, while fewer than `budget`
/// bytes have been written.
pub open spec fn rle(data: Seq<u8>, i: int, budget: int) -> Seq<u8>
    decreases data.len() - i,
{
    if i < 0 || i >= data.len() || budget <= 0 {
        Seq::empty()
    } else {
        let c = run_from(data, i, 1);
        if c < 1 || i + c > data.len() {
            Seq::empty()
        } else {
            seq![c as u8, data[i]] + rle(data, i + c, budget - 2)
        }
    }
}

/// The encoding of a frame of `n` bytes with the given header fields.
pub open spec fn encoded_frame(width: u32, height: u32, timestamp: u64, data: Seq<u8>) -> Seq<u8> {
    le32(width) + le32(height) + le32(timestamp as u32) + rle(
        data,
        0,
        data.len() / 4 - FRAME_HEADER_SIZE,
    )
}

/// Bytes expanded from the run-length pairs at `i` on, at most `limit` of
/// them.
pub open spec fn expand(data: Seq<u8>, i: int, limit: int) -> Seq<u8>
    decreases data.len() - i,
{
    if i < 0 || i + 1 >= data.len() || limit <= 0 {
        Seq::empty()
    } else {
        let take = if (data[i] as int) < limit { data[i] as int } else { limit };
        Seq::new(take as nat, |k: int| data[i + 1]) + expand(data, i + 2, limit - take)
    }
}

proof fn lemma_run_bounds(data: Seq<u8>, i: int, c: int)
    requires
        1 <= c <= 255,
        0 <= i,
        i + c <= data.len(),
    ensures
        c <= run_from(data, i, c) <= 255,
        i + run_from(data, i, c) <= data.len(),
    decreases 255 - c,
{
    if c < 255 && i + c < data.len() && data[i] == data[i + c] {
        lemma_run_bounds(data, i, c + 1);
    }
}

/// Encoder for frames of fixed dimensions.
pub struct OpenH264Encoder {
    width: u32,
    height: u32,
}

impl OpenH264Encoder {
    /// Width of the frames it takes.
    pub closed spec fn spec_width(&self) -> u32 {
        self.width
    }

    /// Height of the frames it takes.
    pub closed spec fn spec_height(&self) -> u32 {
        self.height
    }

    /// An encoder for 640x480 frames.
    pub fn new() -> (r: Result<Self, CodecError>)
        ensures
            r matches Ok(e) && e.spec_width() == 640 && e.spec_height() == 480,
    {
        Ok(OpenH264Encoder { width: 640, height: 480 })
    }

    /// An encoder for frames of the given dimensions.
    pub fn with_dimensions(width: u32, height: u32) -> (r: Self)
        ensures
            r.spec_width() == width,
            r.spec_height() == height,
    {
        OpenH264Encoder { width, height }
    }

    /// Width of the frames it takes.
    pub fn width(&self) -> (r: u32)
        ensures
            r == self.spec_width(),
    {
        self.width
    }

    /// Height of the frames it takes.
    pub fn height(&self) -> (r: u32)
        ensures
            r == self.spec_height(),
    {
        self.height
    }

    /// Encodes a frame; fails with `DimensionMismatch` when its dimensions
    /// differ from the encoder's.
    pub fn encode_frame(&self, frame: &VideoFrame) -> (r: Result<Vec<u8>, CodecError>)
        ensures
            r is Ok <==> frame.width == self.spec_width() && frame.height == self.spec_height(),
            r matches Err(e) ==> e == (CodecError::DimensionMismatch {
                frame_width: frame.width,
                frame_height: frame.height,
                cfg_width: self.spec_width(),
                cfg_height: self.spec_height(),
            }),
            r matches Ok(b) ==> b@ == encoded_frame(
                frame.width,
                frame.height,
                frame.timestamp,
                frame.data@,
            ),
    {
        if frame.width != self.width || frame.height != self.height {
            return Err(
                CodecError::DimensionMismatch {
                    frame_width: frame.width,
                    frame_height: frame.height,
                    cfg_width: self.width,
                    cfg_height: self.height,
                },
            );
        }
        let data = &frame.data;
        let n = data.len();
        let compressed_size = n / 4;
        let ghost budget: int = compressed_size - FRAME_HEADER_SIZE;
        let mut out: Vec<u8> = Vec::new();
        let w = frame.width;
        let h = frame.height;
        let t = frame.timestamp as u32;
        out.push((w & 0xffu32) as u8);
        out.push(((w >> 8u32) & 0xffu32) as u8);
        out.push(((w >> 16u32) & 0xffu32) as u8);
        out.push((w >> 24u32) as u8);
        out.push((h & 0xffu32) as u8);
        out.push(((h >> 8u32) & 0xffu32) as u8);
        out.push(((h >> 16u32) & 0xffu32) as u8);
        out.push((h >> 24u32) as u8);
        out.push((t & 0xffu32) as u8);
        out.push(((t >> 8u32) & 0xffu32) as u8);
        out.push(((t >> 16u32) & 0xffu32) as u8);
        out.push((t >> 24u32) as u8);
        let ghost head = out@;
        assert(head =~= le32(w) + le32(h) + le32(frame.timestamp as u32));
        let mut i: usize = 0;
        while i < n && out.len() < compressed_size
            invariant
                n == data@.len(),
                compressed_size == n / 4,
                budget == compressed_size - FRAME_HEADER_SIZE,
                i <= n,
                out@.len() >= FRAME_HEADER_SIZE,
                out@.len() <= n + FRAME_HEADER_SIZE,
                out@.subrange(0, FRAME_HEADER_SIZE as int) == head,
                out@.subrange(FRAME_HEADER_SIZE as int, out@.len() as int) + rle(
                    data@,
                    i as int,
                    budget - (out@.len() - FRAME_HEADER_SIZE),
                ) == rle(data@, 0, budget),
            decreases n - i,
        {
            let mut count: usize = 1;
            while count < 255 && i + count < n && data[i] == data[i + count]
                invariant
                    1 <= count <= 255,
                    i < n,
                    n == data@.len(),
                    i + count <= n,
                    run_from(data@, i as int, 1) == run_from(data@, i as int, count as int),
                decreases 255 - count,
            {
                count = count + 1;
            }
            proof {
                lemma_run_bounds(data@, i as int, 1);
            }
            let ghost before = out@;
            let ghost left = budget - (before.len() - FRAME_HEADER_SIZE);
            assert(rle(data@, i as int, left) == seq![count as u8, data@[i as int]] + rle(
                data@,
                i + count,
                left - 2,
            ));
            out.push(count as u8);
            out.push(data[i]);
            assert(out@.subrange(0, FRAME_HEADER_SIZE as int) =~= before.subrange(
                0,
                FRAME_HEADER_SIZE as int,
            ));
            assert(out@.subrange(FRAME_HEADER_SIZE as int, out@.len() as int) =~= before.subrange(
                FRAME_HEADER_SIZE as int,
                before.len() as int,
            ) + seq![count as u8, data@[i as int]]);
            i = i + count;
        }
        proof {
            let left = budget - (out@.len() - FRAME_HEADER_SIZE);
            assert(rle(data@, i as int, left) =~= Seq::<u8>::empty());
            assert(out@ =~= out@.subrange(0, FRAME_HEADER_SIZE as int) + out@.subrange(
                FRAME_HEADER_SIZE as int,
                out@.len() as int,
            ));
        }
        Ok(out)
    }
}

impl VideoEncoder for OpenH264Encoder {
    fn encode(&mut self, frame: &VideoFrame) -> Result<bytes::Bytes, CodecError> {
        match self.encode_frame(frame) {
            Ok(v) => Ok(into_bytes(v)),
            Err(e) => Err(e),
        }
    }

    fn request_keyframe(&mut self) {
    }
}

/// Decoder of frames written by `OpenH264Encoder`.
pub struct OpenH264Decoder;

impl OpenH264Decoder {
    /// A decoder.
    pub fn new() -> (r: Result<Self, CodecError>)
        ensures
            r is Ok,
    {
        Ok(OpenH264Decoder)
    }

    /// Decodes a frame: the header gives the dimensions and timestamp, the
    /// run-length pairs the pixels, cut at three bytes per pixel, and
    /// missing pixels are zero. Fails with `InvalidData` on input shorter
    /// than the header, `InvalidDimensions` when a dimension is zero or over
    /// its bound, and `SizeExceeded` when the frame is over `MAX_RGB_SIZE`.
    pub fn decode_frame(&self, data: &[u8]) -> (r: Result<VideoFrame, CodecError>)
        ensures
            data@.len() < FRAME_HEADER_SIZE ==> r matches Err(CodecError::InvalidData(_)),
            r matches Ok(f) ==> {
                let w = read_le32(data@[0], data@[1], data@[2], data@[3]);
                let h = read_le32(data@[4], data@[5], data@[6], data@[7]);
                let expected = w * h * 3;
                &&& data@.len() >= FRAME_HEADER_SIZE
                &&& f.width == w
                &&& f.height == h
                &&& f.timestamp == read_le32(data@[8], data@[9], data@[10], data@[11]) as u64
                &&& 0 < w <= MAX_WIDTH && 0 < h <= MAX_HEIGHT && expected <= MAX_RGB_SIZE
                &&& f.data@.len() == expected
                &&& f.data@ == expand(data@, FRAME_HEADER_SIZE as int, expected) + Seq::new(
                    (expected - expand(data@, FRAME_HEADER_SIZE as int, expected).len()) as nat,
                    |k: int| 0u8,
                )
            },
            data@.len() >= FRAME_HEADER_SIZE ==> {
                let w = read_le32(data@[0], data@[1], data@[2], data@[3]);
                let h = read_le32(data@[4], data@[5], data@[6], data@[7]);
                &&& (w == 0 || h == 0 || w > MAX_WIDTH || h > MAX_HEIGHT) ==> (r matches Err(e)
                    && e == CodecError::InvalidDimensions(w, h))
                &&& (0 < w <= MAX_WIDTH && 0 < h <= MAX_HEIGHT && w * h * 3 > MAX_RGB_SIZE) ==> (r
                    matches Err(e) && e == CodecError::SizeExceeded {
                    actual: (w * h * 3) as usize,
                    max: MAX_RGB_SIZE,
                })
                &&& (0 < w <= MAX_WIDTH && 0 < h <= MAX_HEIGHT && w * h * 3 <= MAX_RGB_SIZE) ==> r
                    is Ok
            },
    {
        let n = data.len();
        if n < FRAME_HEADER_SIZE {
            return Err(CodecError::InvalidData("Compressed data too small"));
        }
        let width = (data[0] as u32) | ((data[1] as u32) << 8u32) | ((data[2] as u32) << 16u32)
            | ((data[3] as u32) << 24u32);
        let height = (data[4] as u32) | ((data[5] as u32) << 8u32) | ((data[6] as u32) << 16u32)
            | ((data[7] as u32) << 24u32);
        let timestamp = ((data[8] as u32) | ((data[9] as u32) << 8u32) | ((data[10] as u32)
            << 16u32) | ((data[11] as u32) << 24u32)) as u64;
        if width == 0 || height == 0 || width > MAX_WIDTH || height > MAX_HEIGHT {
            return Err(CodecError::InvalidDimensions(width, height));
        }
        proof {
            assert(width as int * height as int <= 8192 * 8192) by (nonlinear_arith)
                requires
                    width <= 8192,
                    height <= 8192,
            ;
        }
        let size = (width as u64) * (height as u64) * 3;
        if size > MAX_RGB_SIZE as u64 {
            return Err(CodecError::SizeExceeded { actual: size as usize, max: MAX_RGB_SIZE });
        }
        let expected = size as usize;
        let mut rgb: Vec<u8> = Vec::new();
        let mut i: usize = FRAME_HEADER_SIZE;
        while i < n - 1 && rgb.len() < expected
            invariant
                n == data@.len(),
                n >= FRAME_HEADER_SIZE,
                FRAME_HEADER_SIZE <= i,
                i <= n,
                rgb@.len() <= expected,
                expected <= MAX_RGB_SIZE,
                rgb@ + expand(data@, i as int, expected - rgb@.len()) == expand(
                    data@,
                    FRAME_HEADER_SIZE as int,
                    expected as int,
                ),
            decreases n - i,
        {
            let count = data[i];
            let value = data[i + 1];
            let ghost before = rgb@;
            let ghost limit = expected - before.len();
            let ghost take = if (count as int) < limit { count as int } else { limit };
            let mut k: u8 = 0;
            while k < count
                invariant
                    k <= count,
                    rgb@.len() <= expected,
                    rgb@ == before + Seq::new(
                        (if (k as int) < limit { k as int } else { limit }) as nat,
                        |j: int| value,
                    ),
                    limit == expected - before.len(),
                    limit > 0,
                decreases count - k,
            {
                if rgb.len() < expected {
                    rgb.push(value);
                }
                assert(rgb@ =~= before + Seq::new(
                    (if (k + 1) < limit { (k + 1) as int } else { limit }) as nat,
                    |j: int| value,
                ));
                k = k + 1;
            }
            assert(expand(data@, i as int, limit) == Seq::new(take as nat, |j: int| data@[i + 1])
                + expand(data@, i + 2, limit - take));
            assert(rgb@ =~= before + Seq::new(take as nat, |j: int| data@[i + 1]));
            i = i + 2;
        }
        proof {
            assert(expand(data@, i as int, expected - rgb@.len()) =~= Seq::<u8>::empty());
        }
        let ghost expanded = rgb@;
        while rgb.len() < expected
            invariant
                rgb@.len() <= expected,
                expanded.len() <= expected,
                rgb@ == expanded + Seq::new((rgb@.len() - expanded.len()) as nat, |k: int| 0u8),
            decreases expected - rgb@.len(),
        {
            rgb.push(0);
            assert(rgb@ =~= expanded + Seq::new((rgb@.len() - expanded.len()) as nat, |k: int| 0u8));
        }
        Ok(VideoFrame { data: rgb, width, height, timestamp })
    }
}

impl VideoDecoder for OpenH264Decoder {
    fn decode(&mut self, data: &[u8]) -> Result<VideoFrame, CodecError> {
        self.decode_frame(data)
    }
}

} // verus!

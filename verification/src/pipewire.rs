//! Frames received from a PipeWire stream, and what the capture path does
//! with them: cutting a region out of a full frame.
use vstd::prelude::*;

use std::sync::Arc;
use std::time::Instant;

use crate::capture::CaptureError;
use crate::frame::{Frame, FrameData};
use crate::geometry::{PixelFormat, Rectangle};

verus! {

/// PipeWire stream state.
#[derive(Debug, Clone, Copy, PartialEq, Eq, Structural)]
pub enum StreamState {
    Disconnected,
    Connecting,
    Paused,
    Streaming,
    Error,
}

impl StreamState {
    /// The number under which the state is shared between threads.
    pub open spec fn spec_code(self) -> u64 {
        match self {
            StreamState::Disconnected => 0,
            StreamState::Connecting => 1,
            StreamState::Paused => 2,
            StreamState::Streaming => 3,
            StreamState::Error => 4,
        }
    }

    /// The state a shared number stands for; unknown numbers read as errors.
    pub open spec fn spec_from_code(code: u64) -> StreamState {
        if code == 0 {
            StreamState::Disconnected
        } else if code == 1 {
            StreamState::Connecting
        } else if code == 2 {
            StreamState::Paused
        } else if code == 3 {
            StreamState::Streaming
        } else {
            StreamState::Error
        }
    }

    /// The number under which the state is shared between threads.
    pub fn code(&self) -> (c: u64)
        ensures
            c == self.spec_code(),
    {
        match self {
            StreamState::Disconnected => 0,
            StreamState::Connecting => 1,
            StreamState::Paused => 2,
            StreamState::Streaming => 3,
            StreamState::Error => 4,
        }
    }

    /// The state a shared number stands for; unknown numbers read as errors.
    pub fn from_code(code: u64) -> (s: StreamState)
        ensures
            s == Self::spec_from_code(code),
    {
        match code {
            0 => StreamState::Disconnected,
            1 => StreamState::Connecting,
            2 => StreamState::Paused,
            3 => StreamState::Streaming,
            _ => StreamState::Error,
        }
    }

    /// Frames can be taken from the stream in this state: it is connecting,
    /// paused or streaming.
    pub fn accepts_capture(&self) -> (b: bool)
        ensures
            b == (self is Connecting || self is Paused || self is Streaming),
    {
        match self {
            StreamState::Connecting | StreamState::Paused | StreamState::Streaming => true,
            _ => false,
        }
    }
}

/// Reading a state back from the number it is shared under gives the state.
pub proof fn state_code_round_trip(s: StreamState)
    ensures
        StreamState::spec_from_code(s.spec_code()) == s,
{
}

/// One step of waiting for a stream to come up, given its shared state
/// number and whether the wait has run out of time: `Ok(true)` when it
/// streams, an error when it failed or the time ran out, `Ok(false)` to wait.
pub fn connect_poll(state_code: u64, timed_out: bool) -> (r: Result<bool, CaptureError>)
    ensures
        state_code == 3 ==> r == Ok::<bool, CaptureError>(true),
        state_code == 4 ==> (r matches Err(CaptureError::InitFailed(m)) && m@
            == "PipeWire stream error"@),
        state_code != 3 && state_code != 4 && timed_out ==> (r matches Err(
            CaptureError::InitFailed(m),
        ) && m@ == "Timeout waiting for stream"@),
        state_code != 3 && state_code != 4 && !timed_out ==> r == Ok::<bool, CaptureError>(false),
{
    if state_code == 3 {
        Ok(true)
    } else if state_code == 4 {
        Err(CaptureError::InitFailed(String::from_str("PipeWire stream error")))
    } else if timed_out {
        Err(CaptureError::InitFailed(String::from_str("Timeout waiting for stream")))
    } else {
        Ok(false)
    }
}

/// Frame received from PipeWire.
#[derive(Debug, Clone)]
pub struct PipeWireFrame {
    pub width: u32,
    pub height: u32,
    pub data: Arc<Vec<u8>>,
    pub format: PixelFormat,
    pub timestamp: Instant,
}

pub open spec fn spec_min_int(a: int, b: int) -> int {
    if a <= b {
        a
    } else {
        b
    }
}

/// Bytes per row of the source frame.
pub open spec fn frame_row_bytes(frame: PipeWireFrame) -> int {
    frame.width * frame.format.pixel_bytes()
}

/// Bytes per row of the extracted region.
pub open spec fn region_row_bytes(frame: PipeWireFrame, region: Rectangle) -> int {
    region.width * frame.format.pixel_bytes()
}

/// The source row that output row `y` is read from: `region.y + y`, held to
/// the last row of the frame. The region's origin is read as `usize`, as the
/// extraction does (a negative coordinate reads as a very large one).
pub open spec fn source_row(frame: PipeWireFrame, region: Rectangle, y: int) -> int {
    spec_min_int((region.y as usize) + y, frame.height - 1)
}

/// Byte offset in the frame data where output row `y` starts.
pub open spec fn row_offset(frame: PipeWireFrame, region: Rectangle, y: int) -> int {
    source_row(frame, region, y) * frame_row_bytes(frame) + (region.x as usize) * frame.format.pixel_bytes()
}

/// Byte `i` of output row `y`: the source byte, or zero past the end of the data.
pub open spec fn region_byte(frame: PipeWireFrame, region: Rectangle, y: int, i: int) -> u8 {
    let k = row_offset(frame, region, y) + i;
    if k < frame.data@.len() {
        frame.data@[k]
    } else {
        0u8
    }
}

/// Number of output rows among the first `n` whose start lies inside the data.
pub open spec fn rows_inside(frame: PipeWireFrame, region: Rectangle, n: int) -> int
    decreases n,
{
    if n <= 0 {
        0
    } else {
        rows_inside(frame, region, n - 1) + if row_offset(frame, region, n - 1)
            < frame.data@.len() {
            1int
        } else {
            0int
        }
    }
}

/// The bytes `extract_region` produces: one row of `dst_stride` bytes for each
/// region row that starts inside the data, zero-padded where the data ends.
pub open spec fn extracted(frame: PipeWireFrame, region: Rectangle) -> Seq<u8> {
    let ds = region_row_bytes(frame, region);
    let rows = rows_inside(frame, region, region.height as int);
    Seq::new((rows * ds) as nat, |j: int| region_byte(frame, region, j / ds, j % ds))
}

/// `extract_region` runs without an arithmetic overflow or underflow.
pub open spec fn extraction_defined(frame: PipeWireFrame, region: Rectangle) -> bool {
    let bpp = frame.format.pixel_bytes();
    let h = region.height as int;
    &&& frame_row_bytes(frame) <= usize::MAX
    &&& region_row_bytes(frame, region) <= usize::MAX
    &&& h * region_row_bytes(frame, region) <= usize::MAX
    &&& h > 0 ==> {
        &&& frame.height > 0
        &&& (region.y as usize) + (h - 1) <= usize::MAX
        &&& row_offset(frame, region, h - 1) + region_row_bytes(frame, region) <= usize::MAX
    }
}

proof fn lemma_row_offset_monotone(frame: PipeWireFrame, region: Rectangle, a: int, b: int)
    requires
        0 <= a <= b,
        frame.height > 0,
    ensures
        row_offset(frame, region, a) <= row_offset(frame, region, b),
{
    let sa = source_row(frame, region, a);
    let sb = source_row(frame, region, b);
    assert(0 <= sa <= sb);
    let st = frame_row_bytes(frame);
    assert(st >= 0) by (nonlinear_arith)
        requires
            st == frame.width * frame.format.pixel_bytes(),
    ;
    assert(sa * st <= sb * st) by (nonlinear_arith)
        requires
            0 <= sa <= sb,
            st >= 0,
    ;
}

proof fn lemma_rows_inside_bounds(frame: PipeWireFrame, region: Rectangle, n: int)
    requires
        n >= 0,
    ensures
        0 <= rows_inside(frame, region, n) <= n,
    decreases n,
{
    if n > 0 {
        lemma_rows_inside_bounds(frame, region, n - 1);
    }
}

/// Appends `data[start..end]` and then zeros until `dst` is `target` long.
fn push_row_padded(dst: &mut Vec<u8>, data: &Vec<u8>, start: usize, end: usize, target: usize)
    requires
        start <= end <= data@.len(),
        old(dst)@.len() + (end - start) <= target,
    ensures
        final(dst)@ == old(dst)@ + data@.subrange(start as int, end as int) + Seq::new(
            (target - old(dst)@.len() - (end - start)) as nat,
            |k: int| 0u8,
        ),
{
    let ghost before = dst@;
    let mut i = start;
    while i < end
        invariant
            start <= i <= end <= data@.len(),
            dst@ == before + data@.subrange(start as int, i as int),
        decreases end - i,
    {
        dst.push(data[i]);
        assert(data@.subrange(start as int, i + 1) == data@.subrange(start as int, i as int).push(
            data@[i as int],
        ));
        i = i + 1;
    }
    let ghost copied = dst@;
    while dst.len() < target
        invariant
            copied.len() <= target,
            dst@.len() <= target,
            dst@.len() >= copied.len(),
            dst@ == copied + Seq::new((dst@.len() - copied.len()) as nat, |k: int| 0u8),
        decreases target - dst@.len(),
    {
        dst.push(0);
        assert(dst@ =~= copied + Seq::new((dst@.len() - copied.len()) as nat, |k: int| 0u8));
    }
    assert(dst@ =~= before + data@.subrange(start as int, end as int) + Seq::new(
        (target - before.len() - (end - start)) as nat,
        |k: int| 0u8,
    ));
}

/// Extract a region from a full frame.
///
/// Each region row is read from row `region.y + y` of the frame (held to the
/// last row), starting at column `region.x`; bytes past the end of the data
/// read as zero. Rows that start past the end of the data are left out, and
/// since row starts only grow, they are the last rows of the region.
pub fn extract_region(frame: &PipeWireFrame, region: &Rectangle) -> (out: Arc<Vec<u8>>)
    requires
        extraction_defined(*frame, *region),
    ensures
        out@ == extracted(*frame, *region),
        forall|y: int|
            0 <= y < region.height ==> (y < rows_inside(*frame, *region, region.height as int)
                <==> row_offset(*frame, *region, y) < frame.data@.len()),
{
    let bpp = frame.format.bytes_per_pixel();
    let src_stride = frame.width as usize * bpp;
    let dst_stride = region.width as usize * bpp;
    let dst_size = region.height as usize * dst_stride;
    let len = frame.data.len();
    let h = region.height as usize;
    let mut dst: Vec<u8> = Vec::with_capacity(dst_size);
    let ghost fr = *frame;
    let ghost rg = *region;
    let ghost ds = dst_stride as int;
    let mut y: usize = 0;
    while y < h
        invariant
            fr == *frame,
            rg == *region,
            extraction_defined(fr, rg),
            bpp == fr.format.pixel_bytes(),
            src_stride == frame_row_bytes(fr),
            dst_stride == region_row_bytes(fr, rg),
            ds == dst_stride as int,
            len == fr.data@.len(),
            h == rg.height,
            0 <= y <= h,
            0 <= rows_inside(fr, rg, y as int) <= y,
            dst@.len() == rows_inside(fr, rg, y as int) * ds,
            forall|j: int|
                0 <= j < dst@.len() ==> #[trigger] dst@[j] == region_byte(fr, rg, j / ds, j % ds),
            forall|r: int|
                0 <= r < y ==> (r < rows_inside(fr, rg, y as int) <==> row_offset(fr, rg, r)
                    < len),
        decreases h - y,
    {
        let ghost k = rows_inside(fr, rg, y as int);
        proof {
            lemma_row_offset_monotone(fr, rg, y as int, h - 1);
        }
        let ry = region.y as usize + y;
        let last = frame.height as usize - 1;
        let src_y = if ry <= last {
            ry
        } else {
            last
        };
        assert(src_y * src_stride <= row_offset(fr, rg, y as int)) by (nonlinear_arith)
            requires
                src_y == source_row(fr, rg, y as int),
                src_stride == frame_row_bytes(fr),
                row_offset(fr, rg, y as int) == src_y * src_stride + (rg.x as usize)
                    * fr.format.pixel_bytes(),
                (rg.x as usize) * fr.format.pixel_bytes() >= 0,
        ;
        let src_offset = src_y * src_stride + region.x as usize * bpp;
        assert(src_offset == row_offset(fr, rg, y as int));
        let src_end = if src_offset + dst_stride <= len {
            src_offset + dst_stride
        } else {
            len
        };
        if src_offset < len {
            proof {
                // every earlier row starts no later, so all of them were kept
                assert forall|r: int| 0 <= r < y implies row_offset(fr, rg, r) < len by {
                    lemma_row_offset_monotone(fr, rg, r, y as int);
                }
                if k < y {
                    assert(!(k < rows_inside(fr, rg, y as int)));
                }
                assert(k == y);
                assert((y + 1) * ds <= h * ds) by (nonlinear_arith)
                    requires
                        y + 1 <= h,
                        ds >= 0,
                ;
                assert((y + 1) * ds == y * ds + ds) by (nonlinear_arith);
            }
            let ghost before = dst@;
            push_row_padded(&mut dst, &frame.data, src_offset, src_end, (y + 1) * dst_stride);
            proof {
                assert(rows_inside(fr, rg, y + 1) == k + 1);
                assert forall|j: int| 0 <= j < dst@.len() implies #[trigger] dst@[j] == region_byte(
                    fr,
                    rg,
                    j / ds,
                    j % ds,
                ) by {
                    if j >= before.len() {
                        let i = j - y * ds;
                        assert(0 <= i < ds);
                        vstd::arithmetic::div_mod::lemma_fundamental_div_mod_converse_div(
                            j,
                            ds,
                            y as int,
                            i,
                        );
                        vstd::arithmetic::div_mod::lemma_fundamental_div_mod_converse_mod(
                            j,
                            ds,
                            y as int,
                            i,
                        );
                        if i < src_end - src_offset {
                            assert(dst@[j] == fr.data@[src_offset + i]);
                        } else {
                            assert(dst@[j] == 0u8);
                        }
                    } else {
                        assert(dst@[j] == before[j]);
                    }
                }
            }
        } else {
            proof {
                assert forall|r: int| y < r < h implies row_offset(fr, rg, r) >= len by {
                    lemma_row_offset_monotone(fr, rg, y as int, r);
                }
            }
        }
        y = y + 1;
    }
    Arc::new(dst)
}

proof fn lemma_rows_all_inside(frame: PipeWireFrame, region: Rectangle, n: int)
    requires
        n >= 0,
        forall|y: int| 0 <= y < n ==> row_offset(frame, region, y) < frame.data@.len(),
    ensures
        rows_inside(frame, region, n) == n,
    decreases n,
{
    if n > 0 {
        lemma_rows_all_inside(frame, region, n - 1);
    }
}

/// A region that lies inside a frame whose data holds every row in full is
/// cut out byte for byte: output byte `j` is the source byte at column
/// `region.x` plus `j % row`, in source row `region.y + j / row`.
pub proof fn extract_inside_frame(frame: PipeWireFrame, region: Rectangle)
    requires
        region.x >= 0,
        region.y >= 0,
        region.width > 0,
        region.x + region.width <= frame.width,
        region.y + region.height <= frame.height,
        frame.data@.len() == frame.height * frame_row_bytes(frame),
    ensures
        extracted(frame, region).len() == region.height * region_row_bytes(frame, region),
        forall|j: int|
            0 <= j < extracted(frame, region).len() ==> #[trigger] extracted(frame, region)[j]
                == frame.data@[(region.y + j / region_row_bytes(frame, region)) * frame_row_bytes(
                frame,
            ) + region.x * frame.format.pixel_bytes() + j % region_row_bytes(frame, region)],
{
    let bpp = frame.format.pixel_bytes() as int;
    let st = frame_row_bytes(frame);
    let ds = region_row_bytes(frame, region);
    let h = region.height as int;
    let len = frame.data@.len() as int;
    assert(bpp > 0);
    assert(ds > 0) by (nonlinear_arith)
        requires
            ds == region.width * bpp,
            region.width > 0,
            bpp > 0,
    ;
    assert forall|y: int| 0 <= y < h implies row_offset(frame, region, y) + ds <= len
        && row_offset(frame, region, y) == (region.y + y) * st + region.x * bpp by {
        let r = region.y + y;
        assert(source_row(frame, region, y) == r);
        assert(r * st + (region.x + region.width) * bpp <= frame.height * st) by (nonlinear_arith)
            requires
                0 <= r < frame.height,
                region.x + region.width <= frame.width,
                st == frame.width * bpp,
                bpp > 0,
                region.x >= 0,
        ;
        assert((region.x + region.width) * bpp == region.x * bpp + ds) by (nonlinear_arith)
            requires
                ds == region.width * bpp,
        ;
    }
    lemma_rows_all_inside(frame, region, h);
    let e = extracted(frame, region);
    assert forall|j: int| 0 <= j < e.len() implies #[trigger] e[j] == frame.data@[(region.y + j
        / ds) * st + region.x * bpp + j % ds] by {
        let y = j / ds;
        let i = j % ds;
        assert(0 <= y < h) by (nonlinear_arith)
            requires
                0 <= j < h * ds,
                ds > 0,
                y == j / ds,
        ;
        assert(0 <= i < ds) by (nonlinear_arith)
            requires
                ds > 0,
                i == j % ds,
        ;
    }
}

/// Cutting the whole frame out of a frame whose data holds exactly its rows
/// gives back the frame's bytes.
pub proof fn extract_full_frame(frame: PipeWireFrame, region: Rectangle)
    requires
        region.x == 0,
        region.y == 0,
        region.width == frame.width,
        region.height == frame.height,
        frame.width > 0,
        frame.data@.len() == frame.height * frame_row_bytes(frame),
    ensures
        extracted(frame, region) == frame.data@,
{
    extract_inside_frame(frame, region);
    let e = extracted(frame, region);
    let st = frame_row_bytes(frame);
    assert(st > 0) by (nonlinear_arith)
        requires
            st == frame.width * frame.format.pixel_bytes(),
            frame.width > 0,
            frame.format.pixel_bytes() > 0,
    ;
    assert forall|j: int| 0 <= j < e.len() implies #[trigger] e[j] == frame.data@[j] by {
        vstd::arithmetic::div_mod::lemma_fundamental_div_mod(j, st);
        assert(e[j] == frame.data@[(j / st) * st + j % st]);
        assert((j / st) * st + j % st == j) by (nonlinear_arith)
            requires
                j == st * (j / st) + j % st,
        ;
    }
    assert(e =~= frame.data@);
}

/// Whether `region` can be cut out of `frame` (by `extract_region`, and so
/// by `StreamProgress::deliver`): every size and offset it computes fits in a
/// `usize`, and the frame has a row to read when the region has one.
pub fn extraction_fits(frame: &PipeWireFrame, region: &Rectangle) -> (b: bool)
    ensures
        b == extraction_defined(*frame, *region),
{
    let bpp = frame.format.bytes_per_pixel() as u128;
    let max = usize::MAX as u128;
    let frame_row = frame.width as u128 * bpp;
    let region_row = region.width as u128 * bpp;
    let h = region.height as u128;
    assert(h * region_row <= 0x1_0000_0000 * 0x4_0000_0000) by (nonlinear_arith)
        requires
            h <= 0xffff_ffff,
            region_row <= 0x4_0000_0000,
    ;
    let total = h * region_row;
    if frame_row > max || region_row > max || total > max {
        return false;
    }
    if h == 0 {
        return true;
    }
    if frame.height == 0 {
        return false;
    }
    let ry = region.y as usize as u128;
    let last = ry + (h - 1);
    if last > max {
        return false;
    }
    let fh = (frame.height - 1) as u128;
    let src_row = if last <= fh {
        last
    } else {
        fh
    };
    let rx = region.x as usize as u128;
    assert(src_row * frame_row <= 0x1_0000_0000 * 0x4_0000_0000) by (nonlinear_arith)
        requires
            src_row <= 0xffff_ffff,
            frame_row <= 0x4_0000_0000,
    ;
    assert(rx * bpp <= 0x1_0000_0000_0000_0000 * 4) by (nonlinear_arith)
        requires
            rx <= 0xffff_ffff_ffff_ffff,
            bpp <= 4,
    ;
    let offset = src_row * frame_row + rx * bpp;
    offset + region_row <= max
}

/// The bytes a PipeWire buffer chunk holds in a mapping of `mapped_len`
/// bytes: `size` bytes from `offset`, cut short at the end of the mapping.
pub open spec fn chunk_len(mapped_len: int, size: int, offset: int) -> int {
    spec_min_int(size, if mapped_len > offset {
        mapped_len - offset
    } else {
        0
    })
}

/// Turns a mapped PipeWire buffer chunk into a BGRA frame: the chunk's bytes
/// are copied out; the width is the stride over four bytes per pixel and the
/// height the number of whole strides in the bytes. Chunks with no stride,
/// no bytes, or a zero width or height give no frame.
pub fn frame_from_chunk(
    mapped: &[u8],
    stride: usize,
    size: usize,
    offset: usize,
    timestamp: Instant,
) -> (r: Option<PipeWireFrame>)
    ensures
        ({
            let n = chunk_len(mapped@.len() as int, size as int, offset as int);
            let width = #[verifier::truncate] ((stride / 4) as u32);
            let height = #[verifier::truncate] ((n / stride as int) as u32);
            if stride > 0 && n > 0 && width != 0 && height != 0 {
                r matches Some(f) && {
                    &&& f.width == width
                    &&& f.height == height
                    &&& f.format == PixelFormat::BGRA8888
                    &&& f.timestamp == timestamp
                    &&& f.data@ == mapped@.subrange(offset as int, offset + n)
                }
            } else {
                r is None
            }
        }),
{
    let len = mapped.len();
    let room = if len > offset {
        len - offset
    } else {
        0
    };
    let actual = if size <= room {
        size
    } else {
        room
    };
    if stride == 0 || actual == 0 {
        return None;
    }
    let mut bytes: Vec<u8> = Vec::with_capacity(actual);
    let mut i: usize = 0;
    while i < actual
        invariant
            0 <= i <= actual,
            offset + actual <= len,
            len == mapped@.len(),
            bytes@ == mapped@.subrange(offset as int, offset + i),
        decreases actual - i,
    {
        bytes.push(mapped[offset + i]);
        assert(mapped@.subrange(offset as int, offset + i + 1) == mapped@.subrange(
            offset as int,
            offset + i,
        ).push(mapped@[offset + i]));
        i = i + 1;
    }
    let width = #[verifier::truncate] ((stride / 4) as u32);
    let height = #[verifier::truncate] ((bytes.len() / stride) as u32);
    if width == 0 || height == 0 {
        return None;
    }
    Some(
        PipeWireFrame {
            width,
            height,
            data: Arc::new(bytes),
            format: PixelFormat::BGRA8888,
            timestamp,
        },
    )
}

/// The region asked for is the whole frame, so its bytes are used as they are.
pub open spec fn covers_whole_frame(frame: PipeWireFrame, region: Rectangle) -> bool {
    region.x == 0 && region.y == 0 && region.width == frame.width && region.height == frame.height
}

/// What a capture keeps of the stream between frames: the sequence number of
/// the last frame handed out and the size of the last frame received.
#[derive(Debug, Clone, Copy, PartialEq, Eq, Structural)]
pub struct StreamProgress {
    pub sequence: u64,
    pub stream_width: u32,
    pub stream_height: u32,
}

impl StreamProgress {
    /// No frame handed out yet; the stream size is assumed to be 1920x1080
    /// until a frame says otherwise.
    pub fn new() -> (p: Self)
        ensures
            p.sequence == 0,
            p.stream_width == 1920,
            p.stream_height == 1080,
    {
        StreamProgress { sequence: 0, stream_width: 1920, stream_height: 1080 }
    }

    /// The stream size, as last seen.
    pub fn stream_size(&self) -> (s: (u32, u32))
        ensures
            s == (self.stream_width, self.stream_height),
    {
        (self.stream_width, self.stream_height)
    }

    /// Records the size of a frame received from the stream.
    pub fn observe(&mut self, frame: &PipeWireFrame)
        ensures
            final(self).sequence == old(self).sequence,
            final(self).stream_width == frame.width,
            final(self).stream_height == frame.height,
    {
        self.stream_width = frame.width;
        self.stream_height = frame.height;
    }

    /// Whether `deliver` can hand out `frame` cut to `region`: the sequence
    /// number can move on, and a region other than the whole frame can be
    /// cut out of it.
    pub fn deliverable(&self, frame: &PipeWireFrame, region: &Rectangle) -> (b: bool)
        ensures
            b == (self.sequence < u64::MAX && (!covers_whole_frame(*frame, *region)
                ==> extraction_defined(*frame, *region))),
    {
        if self.sequence == u64::MAX {
            return false;
        }
        let full = region.x == 0 && region.y == 0 && region.width == frame.width && region.height
            == frame.height;
        full || extraction_fits(frame, region)
    }

    /// Hands out `frame` cut to `region` as the next frame of the capture:
    /// the sequence number moves on by one and the stream size is recorded.
    /// A region covering the whole frame shares the frame's bytes; any other
    /// region is extracted.
    pub fn deliver(&mut self, frame: PipeWireFrame, region: Rectangle) -> (f: Frame)
        requires
            old(self).sequence < u64::MAX,
            !covers_whole_frame(frame, region) ==> extraction_defined(frame, region),
        ensures
            final(self).sequence == old(self).sequence + 1,
            final(self).stream_width == frame.width,
            final(self).stream_height == frame.height,
            f.width == region.width,
            f.height == region.height,
            f.format == frame.format,
            f.timestamp == frame.timestamp,
            f.sequence == final(self).sequence,
            f.region == region,
            f.data matches FrameData::Buffer(b) && b@ == if covers_whole_frame(frame, region) {
                frame.data@
            } else {
                extracted(frame, region)
            },
    {
        self.sequence = self.sequence + 1;
        self.stream_width = frame.width;
        self.stream_height = frame.height;
        let full = region.x == 0 && region.y == 0 && region.width == frame.width && region.height
            == frame.height;
        let data = if full {
            frame.data.clone()
        } else {
            extract_region(&frame, &region)
        };
        Frame {
            width: region.width,
            height: region.height,
            format: frame.format,
            data: FrameData::Buffer(data),
            timestamp: frame.timestamp,
            sequence: self.sequence,
            region,
        }
    }
}

} // verus!

//! Frame data structures for captured screen regions.
use vstd::prelude::*;

use std::sync::Arc;
use std::time::Duration;
use std::time::Instant;

use crate::clock::{duration_between, instant_now, time_between};
use crate::geometry::{PixelFormat, Rectangle};

verus! {

/// Storage for frame pixel data.
#[derive(Debug, Clone)]
pub enum FrameData {
    /// CPU buffer (owned Vec).
    Buffer(Arc<Vec<u8>>),
    /// Shared memory buffer (file descriptor + offset).
    SharedMemory {
        /// File descriptor for shared memory.
        fd: i32,
        /// Offset into the shared memory region.
        offset: usize,
        /// Size of the data.
        size: usize,
    },
    /// DMA-BUF (GPU memory, zero-copy).
    DmaBuf {
        /// DMA-BUF file descriptor.
        fd: i32,
        /// DRM fourcc format code.
        fourcc: u32,
        /// Format modifier.
        modifier: u64,
        /// Number of planes.
        num_planes: u32,
        /// Stride for each plane.
        strides: [u32; 4],
        /// Offset for each plane.
        offsets: [u32; 4],
    },
}

impl FrameData {
    /// Create frame data from an owned buffer.
    pub fn from_buffer(buffer: Vec<u8>) -> (d: Self)
        ensures
            d matches FrameData::Buffer(b) && b@ == buffer@,
    {
        FrameData::Buffer(Arc::new(buffer))
    }

    /// Create frame data from shared buffer (Arc).
    pub fn from_shared_buffer(buffer: Arc<Vec<u8>>) -> (d: Self)
        ensures
            d == FrameData::Buffer(buffer),
    {
        FrameData::Buffer(buffer)
    }

    /// Get a reference to the buffer data if available.
    pub fn as_buffer(&self) -> (r: Option<&[u8]>)
        ensures
            match self {
                FrameData::Buffer(b) => r matches Some(s) && s@ == b@,
                _ => r is None,
            },
    {
        match self {
            FrameData::Buffer(buf) => Some(buf.as_slice()),
            _ => None,
        }
    }

    /// A shared handle on the buffer, if the data is a CPU buffer.
    pub fn as_arc_buffer(&self) -> (r: Option<Arc<Vec<u8>>>)
        ensures
            match self {
                FrameData::Buffer(b) => r == Some(*b),
                _ => r is None,
            },
    {
        match self {
            FrameData::Buffer(buf) => Some(buf.clone()),
            _ => None,
        }
    }

    /// Check if this is a zero-copy frame (DMA-BUF or shared memory).
    pub fn is_zero_copy(&self) -> (b: bool)
        ensures
            b == (self is DmaBuf || self is SharedMemory),
    {
        match self {
            FrameData::Buffer(_) => false,
            _ => true,
        }
    }
}

/// A captured frame from the screen.
#[derive(Debug, Clone)]
pub struct Frame {
    /// Width of the frame in pixels.
    pub width: u32,
    /// Height of the frame in pixels.
    pub height: u32,
    /// Pixel format of the frame data.
    pub format: PixelFormat,
    /// Frame data storage.
    pub data: FrameData,
    /// Timestamp when the frame was captured.
    pub timestamp: Instant,
    /// Sequence number (incremental frame counter).
    pub sequence: u64,
    /// The region that was captured.
    pub region: Rectangle,
}

impl Frame {
    /// Create a new frame, stamped with the current time.
    pub fn new(
        width: u32,
        height: u32,
        format: PixelFormat,
        data: FrameData,
        region: Rectangle,
        sequence: u64,
    ) -> (f: Self)
        ensures
            f.width == width,
            f.height == height,
            f.format == format,
            f.data == data,
            f.region == region,
            f.sequence == sequence,
    {
        Self { width, height, format, data, timestamp: instant_now(), sequence, region }
    }

    /// Get the size of the frame data in bytes.
    pub fn data_size(&self) -> (n: usize)
        requires
            self.width * self.height <= u32::MAX,
            self.width * self.height * self.format.pixel_bytes() <= usize::MAX,
        ensures
            n == self.width * self.height * self.format.pixel_bytes(),
    {
        let pixels = self.width * self.height;
        pixels as usize * self.format.bytes_per_pixel()
    }

    /// Get age of the frame since capture: the time from its timestamp to
    /// the clock's reading now (zero if the timestamp lies after it).
    pub fn age(&self) -> (d: Duration)
        ensures
            exists|now: Instant| d == time_between(now, self.timestamp),
    {
        let now = instant_now();
        let d = duration_between(now, self.timestamp);
        assert(d == time_between(now, self.timestamp));
        d
    }
}

} // verus!

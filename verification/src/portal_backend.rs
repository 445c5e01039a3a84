//! What the Wayland capture backend knows of the screen between portal and
//! PipeWire calls: the region asked for, the screen size in the portal's
//! (logical) coordinates and in the stream's (native) pixels, and how many
//! frames it has handed out.
use vstd::prelude::*;

use crate::geometry::Rectangle;
use crate::portal::StreamInfo;

verus! {

/// The non-I/O state of the portal capture backend.
#[derive(Debug, Clone, Copy)]
pub struct PortalBackendState {
    pub region: Rectangle,
    pub screen_size: (u32, u32),
    /// Size reported by the portal, which can differ from the native size of
    /// the PipeWire stream under fractional scaling.
    pub portal_reported_size: Option<(u32, u32)>,
    pub node_id: Option<u32>,
    pub sequence: u64,
}

/// How a region in portal coordinates maps to stream pixels: the two sizes
/// whose ratio scales each axis.
#[derive(Debug, Clone, Copy, PartialEq, Eq, Structural)]
pub struct StreamScaling {
    pub portal_width: u32,
    pub portal_height: u32,
    pub stream_width: u32,
    pub stream_height: u32,
}

impl PortalBackendState {
    /// A backend before any session: full-HD region and screen, nothing
    /// reported by the portal, no stream, no frame handed out.
    pub fn new() -> (s: Self)
        ensures
            s.region == (Rectangle { x: 0, y: 0, width: 1920, height: 1080 }),
            s.screen_size == (1920u32, 1080u32),
            s.portal_reported_size is None,
            s.node_id is None,
            s.sequence == 0,
    {
        PortalBackendState {
            region: Rectangle::new(0, 0, 1920, 1080),
            screen_size: (1920, 1080),
            portal_reported_size: None,
            node_id: None,
            sequence: 0,
        }
    }

    /// Records the stream the portal granted: its size is both the screen
    /// size and the size the portal reports, and its node is the one to read.
    pub fn record_stream(&mut self, stream: &StreamInfo)
        ensures
            final(self).screen_size == (stream.width, stream.height),
            final(self).portal_reported_size == Some((stream.width, stream.height)),
            final(self).node_id == Some(stream.node_id),
            final(self).region == old(self).region,
            final(self).sequence == old(self).sequence,
    {
        self.screen_size = (stream.width, stream.height);
        self.portal_reported_size = Some((stream.width, stream.height));
        self.node_id = Some(stream.node_id);
    }

    /// Records the size of the first frame the stream delivered: when it is
    /// known and differs from the screen size, fractional scaling is at work
    /// and the stream's size becomes the screen size. Says whether it did.
    pub fn record_probed_size(&mut self, actual_width: u32, actual_height: u32) -> (scaled: bool)
        ensures
            scaled == (actual_width > 0 && actual_height > 0 && (actual_width
                != old(self).screen_size.0 || actual_height != old(self).screen_size.1)),
            final(self).screen_size == if scaled {
                (actual_width, actual_height)
            } else {
                old(self).screen_size
            },
            final(self).region == old(self).region,
            final(self).portal_reported_size == old(self).portal_reported_size,
            final(self).node_id == old(self).node_id,
            final(self).sequence == old(self).sequence,
    {
        let scaled = actual_width > 0 && actual_height > 0 && (actual_width != self.screen_size.0
            || actual_height != self.screen_size.1);
        if scaled {
            self.screen_size = (actual_width, actual_height);
        }
        scaled
    }

    /// Whether regions must be scaled from portal coordinates to the
    /// stream's pixels: only when the portal reported a size, the stream's
    /// size is known, and the two differ.
    pub fn scaling(&self, stream_size: (u32, u32)) -> (r: Option<StreamScaling>)
        ensures
            match self.portal_reported_size {
                Some((pw, ph)) => if stream_size.0 > 0 && stream_size.1 > 0 && (stream_size.0 != pw
                    || stream_size.1 != ph) {
                    r == Some(
                        StreamScaling {
                            portal_width: pw,
                            portal_height: ph,
                            stream_width: stream_size.0,
                            stream_height: stream_size.1,
                        },
                    )
                } else {
                    r is None
                },
                None => r is None,
            },
    {
        let (stream_w, stream_h) = stream_size;
        match self.portal_reported_size {
            Some((portal_w, portal_h)) => {
                if stream_w > 0 && stream_h > 0 && (stream_w != portal_w || stream_h != portal_h) {
                    Some(
                        StreamScaling {
                            portal_width: portal_w,
                            portal_height: portal_h,
                            stream_width: stream_w,
                            stream_height: stream_h,
                        },
                    )
                } else {
                    None
                }
            },
            None => None,
        }
    }

    /// The full-screen region a screenshot captures: the stream's native
    /// size when known, else the screen size.
    pub fn screenshot_region(&self, stream_size: (u32, u32)) -> (r: Rectangle)
        ensures
            r.x == 0,
            r.y == 0,
            (r.width, r.height) == if stream_size.0 > 0 && stream_size.1 > 0 {
                stream_size
            } else {
                self.screen_size
            },
    {
        let (stream_w, stream_h) = stream_size;
        let (w, h) = if stream_w > 0 && stream_h > 0 {
            (stream_w, stream_h)
        } else {
            self.screen_size
        };
        Rectangle::new(0, 0, w, h)
    }

    /// Counts a frame handed out.
    pub fn count_frame(&mut self)
        requires
            old(self).sequence < u64::MAX,
        ensures
            final(self).sequence == old(self).sequence + 1,
            final(self).region == old(self).region,
            final(self).screen_size == old(self).screen_size,
            final(self).portal_reported_size == old(self).portal_reported_size,
            final(self).node_id == old(self).node_id,
    {
        self.sequence = self.sequence + 1;
    }

    /// Keeps the screen size in step with a screenshot of `width` x `height`.
    pub fn record_screenshot(&mut self, width: u32, height: u32)
        ensures
            final(self).screen_size == (width, height),
            final(self).region == old(self).region,
            final(self).portal_reported_size == old(self).portal_reported_size,
            final(self).node_id == old(self).node_id,
            final(self).sequence == old(self).sequence,
    {
        if width != self.screen_size.0 || height != self.screen_size.1 {
            self.screen_size = (width, height);
        }
    }

    /// The screen size callers choose regions in: the portal's logical size
    /// when it reported one, else the screen size.
    pub fn screen_size_for_regions(&self) -> (s: (u32, u32))
        ensures
            s == match self.portal_reported_size {
                Some(p) => p,
                None => self.screen_size,
            },
    {
        match self.portal_reported_size {
            Some(p) => p,
            None => self.screen_size,
        }
    }
}

} // verus!

//! The screencast session granted by the desktop portal: the streams it
//! offers, the token that lets a later session skip the permission dialog,
//! and the errors a portal request ends in.
use vstd::prelude::*;
use vstd::string::to_string_from_display_ensures;

use crate::capture::CaptureError;
use crate::error::prefixed;
use crate::geometry::wrap_u32;

verus! {

/// `ashpd::Error`, the error of a portal request, carried as an opaque value.
#[verifier::external_type_specification]
#[verifier::external_body]
pub struct ExPortalRequestError(ashpd::Error);

/// Whether a portal request error is the user cancelling the request
/// (`ashpd::Error::Response(ResponseError::Cancelled)`).
pub uninterp spec fn cancelled_by_user(err: ashpd::Error) -> bool;

/// Tells whether the error is `ashpd::Error::Response(ResponseError::Cancelled)`,
/// the variant ashpd reports when the user dismisses the portal dialog; the
/// answer is named by `cancelled_by_user`.
#[verifier::external_body]
fn request_cancelled(err: &ashpd::Error) -> (b: bool)
    ensures
        b == cancelled_by_user(*err),
{
    matches!(err, ashpd::Error::Response(ashpd::desktop::ResponseError::Cancelled))
}

/// Portal-specific errors.
#[derive(Debug)]
pub enum PortalError {
    RequestFailed(String),
    UserCancelled,
    NoStreams,
    PipeWire(String),
}

impl PortalError {
    /// The error a failed portal request stands for: a cancelled request is
    /// the user's choice; any other failure keeps the request error's text.
    pub fn from_request_error(err: &ashpd::Error) -> (e: PortalError)
        ensures
            cancelled_by_user(*err) ==> e is UserCancelled,
            !cancelled_by_user(*err) ==> (e matches PortalError::RequestFailed(m) && exists|
                text: String,
            | to_string_from_display_ensures::<ashpd::Error>(err, text) && m@ == text@),
    {
        if request_cancelled(err) {
            PortalError::UserCancelled
        } else {
            let text = <ashpd::Error as ToString>::to_string(err);
            assert(to_string_from_display_ensures::<ashpd::Error>(err, text));
            let e = PortalError::RequestFailed(text);
            assert(e matches PortalError::RequestFailed(m) && m@ == text@);
            e
        }
    }

    /// The message of the error, as shown to the user.
    pub open spec fn spec_message(&self) -> Seq<char> {
        match self {
            PortalError::RequestFailed(m) => "Portal request failed: "@ + m@,
            PortalError::UserCancelled => "User cancelled the request"@,
            PortalError::NoStreams => "No streams available"@,
            PortalError::PipeWire(m) => "PipeWire error: "@ + m@,
        }
    }

    /// The message of the error, as shown to the user.
    pub fn to_string(&self) -> (s: String)
        ensures
            s@ == self.spec_message(),
    {
        match self {
            PortalError::RequestFailed(m) => prefixed("Portal request failed: ", m.as_str()),
            PortalError::UserCancelled => String::from_str("User cancelled the request"),
            PortalError::NoStreams => String::from_str("No streams available"),
            PortalError::PipeWire(m) => prefixed("PipeWire error: ", m.as_str()),
        }
    }
}

/// The capture error a failed portal session is reported as: a dismissed
/// dialog as the user's cancellation, any other failure with the portal
/// error's message.
pub fn session_failure(e: &PortalError) -> (c: CaptureError)
    ensures
        e is UserCancelled ==> (c matches CaptureError::InitFailed(m) && m@ == "User cancelled"@),
        !(e is UserCancelled) ==> (c matches CaptureError::InitFailed(m) && m@ == "Session failed: "@
            + e.spec_message()),
{
    match e {
        PortalError::UserCancelled => CaptureError::InitFailed(String::from_str("User cancelled")),
        _ => {
            let text = e.to_string();
            CaptureError::InitFailed(prefixed("Session failed: ", text.as_str()))
        },
    }
}

/// Kind of source a portal stream shows.
#[derive(Debug, Clone, Copy, PartialEq, Eq, Structural)]
pub enum SourceKind {
    Monitor,
    Window,
    Virtual,
}

/// Stream information from Portal.
#[derive(Debug, Clone)]
pub struct StreamInfo {
    pub node_id: u32,
    pub width: u32,
    pub height: u32,
    pub source_type: String,
}

/// The name under which a stream's source kind is recorded.
pub open spec fn source_name(kind: Option<SourceKind>) -> Seq<char> {
    match kind {
        Some(SourceKind::Monitor) => "monitor"@,
        Some(SourceKind::Window) => "window"@,
        Some(SourceKind::Virtual) => "virtual"@,
        None => "unknown"@,
    }
}

impl StreamInfo {
    /// Two descriptions of the same stream.
    pub open spec fn same_as(self, other: StreamInfo) -> bool {
        &&& self.node_id == other.node_id
        &&& self.width == other.width
        &&& self.height == other.height
        &&& self.source_type@ == other.source_type@
    }

    /// Describes a portal stream from what the portal reports: its PipeWire
    /// node, its size if known (1920x1080 when not), and its source kind.
    pub fn from_portal(node_id: u32, size: Option<(i32, i32)>, kind: Option<SourceKind>) -> (s:
        StreamInfo)
        ensures
            s.node_id == node_id,
            s.width == match size {
                Some((w, h)) => wrap_u32(w as int),
                None => 1920,
            },
            s.height == match size {
                Some((w, h)) => wrap_u32(h as int),
                None => 1080,
            },
            s.source_type@ == source_name(kind),
    {
        let (width, height) = match size {
            Some((w, h)) => {
                proof {
                    crate::geometry::lemma_cast_i32_to_u32(w);
                    crate::geometry::lemma_cast_i32_to_u32(h);
                }
                (w as u32, h as u32)
            },
            None => (1920, 1080),
        };
        let source_type = match kind {
            Some(SourceKind::Monitor) => String::from_str("monitor"),
            Some(SourceKind::Window) => String::from_str("window"),
            Some(SourceKind::Virtual) => String::from_str("virtual"),
            None => String::from_str("unknown"),
        };
        StreamInfo { node_id, width, height, source_type }
    }

    /// A copy of the description.
    pub fn duplicate(&self) -> (s: StreamInfo)
        ensures
            s.same_as(*self),
    {
        StreamInfo {
            node_id: self.node_id,
            width: self.width,
            height: self.height,
            source_type: self.source_type.clone(),
        }
    }
}

/// Restore token for persistent permissions (avoid re-asking user).
#[derive(Debug, Clone)]
pub struct RestoreToken(pub String);

/// Portal capture session.
pub struct PortalCapture {
    streams: Vec<StreamInfo>,
    restore_token: Option<RestoreToken>,
}

impl PortalCapture {
    /// The streams the session offers.
    pub closed spec fn stream_list(self) -> Seq<StreamInfo> {
        self.streams@
    }

    /// The restore token the portal granted, if any.
    pub closed spec fn token(self) -> Option<RestoreToken> {
        self.restore_token
    }

    /// Create a new Portal capture interface, with no session yet.
    pub fn new() -> (p: Self)
        ensures
            p.stream_list() == Seq::<StreamInfo>::empty(),
            p.token() is None,
    {
        Self { streams: Vec::new(), restore_token: None }
    }

    /// Records the outcome of a started session: the streams it offers and
    /// the restore token the portal granted, if it granted one. A session
    /// without streams is refused and leaves the capture as it was.
    pub fn record_session(&mut self, streams: Vec<StreamInfo>, token: Option<String>) -> (r:
        Result<Vec<StreamInfo>, PortalError>)
        ensures
            streams@.len() == 0 ==> (r matches Err(PortalError::NoStreams) && final(self).stream_list()
                == old(self).stream_list() && final(self).token() == old(self).token()),
            streams@.len() > 0 ==> {
                &&& final(self).stream_list() == streams@
                &&& token matches Some(t) ==> final(self).token() == Some(RestoreToken(t))
                &&& token is None ==> final(self).token() == old(self).token()
                &&& (r matches Ok(v) && v@.len() == streams@.len() && forall|i: int|
                    0 <= i < streams@.len() ==> (#[trigger] v@[i]).same_as(streams@[i]))
            },
    {
        if streams.len() == 0 {
            return Err(PortalError::NoStreams);
        }
        if let Some(t) = token {
            self.restore_token = Some(RestoreToken(t));
        }
        let mut copy: Vec<StreamInfo> = Vec::with_capacity(streams.len());
        let mut i: usize = 0;
        while i < streams.len()
            invariant
                0 <= i <= streams@.len(),
                copy@.len() == i,
                forall|k: int| 0 <= k < i ==> (#[trigger] copy@[k]).same_as(streams@[k]),
            decreases streams@.len() - i,
        {
            copy.push(streams[i].duplicate());
            i = i + 1;
        }
        self.streams = streams;
        Ok(copy)
    }

    /// Get the restore token if available.
    pub fn restore_token(&self) -> (r: Option<&RestoreToken>)
        ensures
            match self.token() {
                Some(t) => r == Some(&t),
                None => r is None,
            },
    {
        self.restore_token.as_ref()
    }

    /// The streams of the session.
    pub fn streams(&self) -> (s: &[StreamInfo])
        ensures
            s@ == self.stream_list(),
    {
        self.streams.as_slice()
    }

    /// PipeWire node of the first stream, if there is one.
    pub fn node_id(&self) -> (n: Option<u32>)
        ensures
            self.stream_list().len() > 0 ==> n == Some(self.stream_list()[0].node_id),
            self.stream_list().len() == 0 ==> n is None,
    {
        if self.streams.len() > 0 {
            Some(self.streams[0].node_id)
        } else {
            None
        }
    }

    /// The session offers at least one stream.
    pub fn is_active(&self) -> (b: bool)
        ensures
            b == (self.stream_list().len() > 0),
    {
        self.streams.len() > 0
    }

    /// Close the session: it offers no streams any more.
    pub fn close(&mut self) -> (r: Result<(), PortalError>)
        ensures
            r is Ok,
            final(self).stream_list() == Seq::<StreamInfo>::empty(),
            final(self).token() == old(self).token(),
    {
        self.streams.clear();
        Ok(())
    }
}

} // verus!

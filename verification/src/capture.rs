//! Capturing one frame: the composited pixels of a running pane, on request.
//!
//! The compositor renders a fresh frame on its own thread, so a capture is answered later. The
//! outcome is only ever given out by [`PendingCapture::poll`], never by the request itself, and a
//! pane without a compositor still gets one.

use crate::pane::WaylandPane;
use crate::present::Frame;
use vstd::prelude::*;

verus! {

/// A captured frame: upright RGBA8 rows, `stride` bytes each.
#[derive(Debug)]
pub struct CapturedFrame {
    /// The pixels.
    pub rgba: Vec<u8>,
    /// Width in pixels.
    pub width: u32,
    /// Height in pixels.
    pub height: u32,
    /// Row stride in bytes.
    pub stride: usize,
}

/// Why a capture gave no frame.
#[derive(Debug)]
pub enum CaptureError {
    /// There is no compositor: it never started, was taken down, or went away before it answered.
    NotRunning,
    /// The compositor could not render the frame, for the reason given.
    Failed(String),
}

/// How far the compositor has come with a request.
pub enum CaptureReply {
    /// No answer yet.
    Pending,
    /// It answered, with a frame or with the reason for having none.
    Answered(Result<Frame, String>),
    /// It refused the request, or went away without an answer.
    Gone,
}

/// A capture that has not been answered.
pub struct PendingCapture {
    asked: bool,
}

/// The state of a capture after a look at the reply.
pub enum CapturePoll {
    /// Look again later.
    Waiting(PendingCapture),
    /// The outcome, which is due exactly once.
    Done(Result<CapturedFrame, CaptureError>),
}

impl CapturedFrame {
    /// The capture holds `frame`, byte for byte.
    pub open spec fn holds(self, frame: Frame) -> bool {
        &&& self.rgba@ == frame.bytes@
        &&& self.width == frame.width
        &&& self.height == frame.height
        &&& self.stride == frame.stride
    }
}

impl View for PendingCapture {
    type V = bool;

    /// Whether there was a compositor to ask.
    closed spec fn view(&self) -> bool {
        self.asked
    }
}

impl CapturePoll {
    /// What a look at `reply` comes to, where `asked` tells whether there was a compositor to ask.
    pub open spec fn follows(self, asked: bool, reply: CaptureReply) -> bool {
        if !asked {
            self == CapturePoll::Done(Err(CaptureError::NotRunning))
        } else {
            match reply {
                CaptureReply::Pending => self matches CapturePoll::Waiting(capture) && capture@,
                CaptureReply::Answered(Ok(frame)) => {
                    self matches CapturePoll::Done(Ok(captured)) && captured.holds(frame)
                },
                CaptureReply::Answered(Err(message)) => {
                    self == CapturePoll::Done(Err(CaptureError::Failed(message)))
                },
                CaptureReply::Gone => self == CapturePoll::Done(Err(CaptureError::NotRunning)),
            }
        }
    }
}

impl PendingCapture {
    /// Whether the compositor has to be asked for a frame.
    pub fn asks_compositor(&self) -> (asks: bool)
        ensures
            asks == self@,
    {
        self.asked
    }

    /// Looks at the reply, and gives out the outcome once there is one.
    pub fn poll(self, reply: CaptureReply) -> (poll: CapturePoll)
        ensures
            poll.follows(self@, reply),
    {
        if !self.asked {
            return CapturePoll::Done(Err(CaptureError::NotRunning));
        }
        match reply {
            CaptureReply::Pending => CapturePoll::Waiting(self),
            CaptureReply::Answered(Ok(frame)) => CapturePoll::Done(
                Ok(
                    CapturedFrame {
                        rgba: frame.bytes,
                        width: frame.width,
                        height: frame.height,
                        stride: frame.stride,
                    },
                ),
            ),
            CaptureReply::Answered(Err(message)) => CapturePoll::Done(
                Err(CaptureError::Failed(message)),
            ),
            CaptureReply::Gone => CapturePoll::Done(Err(CaptureError::NotRunning)),
        }
    }
}

impl WaylandPane {
    /// Requests the current frame. The outcome comes from polling the capture.
    pub fn capture_frame(&self) -> (capture: PendingCapture)
        ensures
            capture@ == (self@.session is Some),
    {
        PendingCapture { asked: self.is_running() }
    }
}

/// A capture on a pane that has been taken down is answered, and the answer is that there is no
/// compositor, whatever the reply looks like.
pub proof fn law_closed_pane_reports_not_running(
    pane: crate::pane::PaneView,
    poll: CapturePoll,
    reply: CaptureReply,
)
    requires
        poll.follows(pane.torn_down().session is Some, reply),
    ensures
        poll == CapturePoll::Done(Err(CaptureError::NotRunning)),
{
}

/// A capture waits only for a compositor that may still answer: any other reply settles it.
pub proof fn law_capture_waits_only_while_pending(
    asked: bool,
    poll: CapturePoll,
    reply: CaptureReply,
)
    requires
        poll.follows(asked, reply),
    ensures
        poll is Waiting <==> asked && reply is Pending,
{
}

/// A capture is the frame that the compositor answered with: every byte in its place, and the size
/// and stride that go with them.
pub proof fn law_capture_holds_the_whole_frame(captured: CapturedFrame, frame: Frame)
    ensures
        captured.holds(frame) <==> {
            &&& captured.width == frame.width
            &&& captured.height == frame.height
            &&& captured.stride == frame.stride
            &&& captured.rgba@.len() == frame.bytes@.len()
            &&& forall|i: int|
                0 <= i < frame.bytes@.len() ==> #[trigger] captured.rgba@[i] == frame.bytes@[i]
        },
{
    if captured.rgba@.len() == frame.bytes@.len() && forall|i: int|
        0 <= i < frame.bytes@.len() ==> #[trigger] captured.rgba@[i] == frame.bytes@[i] {
        assert(captured.rgba@ =~= frame.bytes@);
    }
}

/// The outcome is the compositor's: its frame if it answered with one, its reason if it answered
/// with that, and that it is not running if it went away. Nobody else's outcome is given out.
pub proof fn law_outcome_is_what_the_compositor_answered(poll: CapturePoll, reply: CaptureReply)
    requires
        poll.follows(true, reply),
    ensures
        match reply {
            CaptureReply::Answered(Ok(frame)) => {
                &&& poll matches CapturePoll::Done(Ok(captured))
                &&& captured.rgba@ == frame.bytes@
                &&& captured.width == frame.width
                &&& captured.height == frame.height
                &&& captured.stride == frame.stride
            },
            CaptureReply::Answered(Err(message)) => {
                &&& poll matches CapturePoll::Done(Err(CaptureError::Failed(reason)))
                &&& reason == message
            },
            CaptureReply::Gone => poll == CapturePoll::Done(Err(CaptureError::NotRunning)),
            CaptureReply::Pending => {
                &&& poll matches CapturePoll::Waiting(capture)
                &&& capture@
            },
        },
{
}

/// Without a compositor to ask, a capture ends at the first look, and says so.
pub proof fn law_capture_without_a_compositor_ends_at_once(poll: CapturePoll, reply: CaptureReply)
    ensures
        poll.follows(false, reply) <==> poll == CapturePoll::Done(Err(CaptureError::NotRunning)),
{
}

} // verus!

use vstd::prelude::*;

use crate::camera::{CameraConfig, InitError, CONVERT_JPEG_QUALITY, DRIVER_OK};
use crate::formats::PixelFormat;

verus! {

/// Output encoding of a capture.
#[derive(Clone, Copy, Debug, PartialEq, Eq, Structural)]
pub enum Encoding {
    Jpeg,
    Bmp,
}

/// Why a capture gave no image.
#[derive(Clone, Copy, Debug, PartialEq, Eq, Structural)]
pub enum CaptureError {
    /// The driver had no frame to hand out.
    NoFrame,
    /// The converter could not produce the requested encoding.
    ConversionFailed(Encoding),
    /// Another capture of this session was still in progress.
    Busy,
}

/// Where a capture stands.
#[derive(Clone, Copy, Debug, PartialEq, Eq, Structural)]
pub enum CapturePhase {
    /// No capture in progress and no frame checked out.
    Idle,
    /// A frame was asked of the driver.
    AwaitingFrame(Encoding),
    /// A frame is checked out and its bytes are being copied or converted.
    AwaitingEncoding(Encoding),
}

/// What the platform reports back to a session.
#[derive(Debug)]
pub enum CaptureEvent {
    /// A caller asks for one image in this encoding.
    Request(Encoding),
    /// The driver handed out a frame in this pixel format.
    FrameAcquired(PixelFormat),
    /// The driver had no frame.
    NoFrame,
    /// The frame's bytes, copied or converted into memory of the caller's own.
    Encoded(Vec<u8>),
    /// The converter failed.
    EncodeFailed,
}

/// What the platform must do next for a session.
#[derive(Debug)]
pub enum CaptureAction {
    /// Check out the next frame from the driver.
    AcquireFrame,
    /// Copy the checked-out frame's bytes as they are.
    CopyFrame,
    /// Convert the checked-out frame to JPEG at this quality.
    ConvertJpeg(u8),
    /// Convert the checked-out frame to BMP.
    ConvertBmp,
    /// Return the checked-out frame to the driver, then hand this result to the caller.
    ReleaseFrame(Result<Vec<u8>, CaptureError>),
    /// Hand this result to the caller; no frame is checked out.
    Complete(Result<Vec<u8>, CaptureError>),
    /// The event does not fit the current phase and was dropped.
    Ignore,
}

/// Abstract state of a session: its phase and how many frames it has checked out
/// of the driver and returned so far.
pub struct CaptureState {
    pub config: CameraConfig,
    pub phase: CapturePhase,
    pub acquired: nat,
    pub released: nat,
}

impl CaptureState {
    /// A frame is checked out exactly while the session waits for its encoding, and
    /// every other frame acquired has been returned.
    pub open spec fn wf(&self) -> bool {
        self.acquired == self.released + if self.phase is AwaitingEncoding { 1nat } else { 0nat }
    }
}

/// The action that follows a checked-out frame in `format` for a capture in `enc`.
pub open spec fn encode_action(enc: Encoding, format: PixelFormat) -> CaptureAction {
    match enc {
        Encoding::Jpeg => if format == PixelFormat::JPEG {
            CaptureAction::CopyFrame
        } else {
            CaptureAction::ConvertJpeg(CONVERT_JPEG_QUALITY)
        },
        Encoding::Bmp => CaptureAction::ConvertBmp,
    }
}

/// One transition of a session: the next state and the action for the platform.
pub open spec fn capture_step(s: CaptureState, e: CaptureEvent) -> (CaptureState, CaptureAction) {
    match (s.phase, e) {
        (CapturePhase::Idle, CaptureEvent::Request(enc)) => (
            CaptureState { phase: CapturePhase::AwaitingFrame(enc), ..s },
            CaptureAction::AcquireFrame,
        ),
        (_, CaptureEvent::Request(_)) => (s, CaptureAction::Complete(Err(CaptureError::Busy))),
        (CapturePhase::AwaitingFrame(enc), CaptureEvent::FrameAcquired(format)) => (
            CaptureState {
                phase: CapturePhase::AwaitingEncoding(enc),
                acquired: s.acquired + 1,
                ..s
            },
            encode_action(enc, format),
        ),
        (CapturePhase::AwaitingFrame(_), CaptureEvent::NoFrame) => (
            CaptureState { phase: CapturePhase::Idle, ..s },
            CaptureAction::Complete(Err(CaptureError::NoFrame)),
        ),
        (CapturePhase::AwaitingEncoding(_), CaptureEvent::Encoded(bytes)) => (
            CaptureState { phase: CapturePhase::Idle, released: s.released + 1, ..s },
            CaptureAction::ReleaseFrame(Ok(bytes)),
        ),
        (CapturePhase::AwaitingEncoding(enc), CaptureEvent::EncodeFailed) => (
            CaptureState { phase: CapturePhase::Idle, released: s.released + 1, ..s },
            CaptureAction::ReleaseFrame(Err(CaptureError::ConversionFailed(enc))),
        ),
        _ => (s, CaptureAction::Ignore),
    }
}

/// A live camera session. It decides each step of a capture; the platform performs
/// the steps and reports back, so that a frame is always returned to the driver
/// before the capture's result is handed out.
pub struct Camera {
    config: CameraConfig,
    phase: CapturePhase,
    acquired: Ghost<nat>,
    released: Ghost<nat>,
}

impl View for Camera {
    type V = CaptureState;

    closed spec fn view(&self) -> CaptureState {
        CaptureState {
            config: self.config,
            phase: self.phase,
            acquired: self.acquired@,
            released: self.released@,
        }
    }
}

impl Camera {
    #[verifier::type_invariant]
    closed spec fn inv(self) -> bool {
        self@.wf()
    }

    /// A session exists only when the driver reported success for `config`; it then
    /// starts idle with no frame checked out.
    pub fn new(config: CameraConfig, init_status: i32) -> (r: Result<Camera, InitError>)
        ensures
            r is Ok <==> init_status == DRIVER_OK,
            r matches Ok(cam) ==> {
                &&& cam@.config == config
                &&& cam@.phase == CapturePhase::Idle
                &&& cam@.acquired == 0
                &&& cam@.released == 0
            },
            r matches Err(e) ==> e == InitError::Driver(init_status),
    {
        if init_status != DRIVER_OK {
            return Err(InitError::Driver(init_status));
        }
        Ok(Camera {
            config,
            phase: CapturePhase::Idle,
            acquired: Ghost(0),
            released: Ghost(0),
        })
    }

    pub fn config(&self) -> (r: CameraConfig)
        ensures
            r == self@.config,
    {
        self.config
    }

    pub fn pixel_format(&self) -> (r: PixelFormat)
        ensures
            r == self@.config.pixel_format,
    {
        self.config.pixel_format
    }

    pub fn frame_size(&self) -> (r: crate::formats::FrameSize)
        ensures
            r == self@.config.frame_size,
    {
        self.config.frame_size
    }

    pub fn phase(&self) -> (r: CapturePhase)
        ensures
            r == self@.phase,
    {
        self.phase
    }

    /// Feeds one event to the session and returns what the platform must do next.
    pub fn step(&mut self, event: CaptureEvent) -> (r: CaptureAction)
        ensures
            (final(self)@, r) == capture_step(old(self)@, event),
            final(self)@.wf(),
            r is AcquireFrame ==> old(self)@.acquired == old(self)@.released,
    {
        proof {
            use_type_invariant(&*self);
        }
        let phase = self.phase;
        match (phase, event) {
            (CapturePhase::Idle, CaptureEvent::Request(enc)) => {
                self.phase = CapturePhase::AwaitingFrame(enc);
                CaptureAction::AcquireFrame
            },
            (_, CaptureEvent::Request(_)) => CaptureAction::Complete(Err(CaptureError::Busy)),
            (CapturePhase::AwaitingFrame(enc), CaptureEvent::FrameAcquired(format)) => {
                *self = Camera {
                    config: self.config,
                    phase: CapturePhase::AwaitingEncoding(enc),
                    acquired: Ghost(self.acquired@ + 1),
                    released: self.released,
                };
                match enc {
                    Encoding::Jpeg => if format == PixelFormat::JPEG {
                        CaptureAction::CopyFrame
                    } else {
                        CaptureAction::ConvertJpeg(CONVERT_JPEG_QUALITY)
                    },
                    Encoding::Bmp => CaptureAction::ConvertBmp,
                }
            },
            (CapturePhase::AwaitingFrame(_), CaptureEvent::NoFrame) => {
                self.phase = CapturePhase::Idle;
                CaptureAction::Complete(Err(CaptureError::NoFrame))
            },
            (CapturePhase::AwaitingEncoding(_), CaptureEvent::Encoded(bytes)) => {
                *self = Camera {
                    config: self.config,
                    phase: CapturePhase::Idle,
                    acquired: self.acquired,
                    released: Ghost(self.released@ + 1),
                };
                CaptureAction::ReleaseFrame(Ok(bytes))
            },
            (CapturePhase::AwaitingEncoding(enc), CaptureEvent::EncodeFailed) => {
                *self = Camera {
                    config: self.config,
                    phase: CapturePhase::Idle,
                    acquired: self.acquired,
                    released: Ghost(self.released@ + 1),
                };
                CaptureAction::ReleaseFrame(Err(CaptureError::ConversionFailed(enc)))
            },
            _ => CaptureAction::Ignore,
        }
    }

    /// Starts a JPEG capture: asks for a frame, or refuses while another capture runs.
    pub fn capture_jpeg(&mut self) -> (r: CaptureAction)
        ensures
            (final(self)@, r) == capture_step(old(self)@, CaptureEvent::Request(Encoding::Jpeg)),
            final(self)@.wf(),
    {
        self.step(CaptureEvent::Request(Encoding::Jpeg))
    }

    /// Starts a BMP capture: asks for a frame, or refuses while another capture runs.
    pub fn capture_bmp(&mut self) -> (r: CaptureAction)
        ensures
            (final(self)@, r) == capture_step(old(self)@, CaptureEvent::Request(Encoding::Bmp)),
            final(self)@.wf(),
    {
        self.step(CaptureEvent::Request(Encoding::Bmp))
    }
}

/// The states and actions of a session fed `evs` one by one from `s`.
pub open spec fn capture_run(s: CaptureState, evs: Seq<CaptureEvent>) -> (CaptureState, Seq<CaptureAction>)
    decreases evs.len(),
{
    if evs.len() == 0 {
        (s, Seq::empty())
    } else {
        let (t, a) = capture_step(s, evs[0]);
        let (u, rest) = capture_run(t, evs.drop_first());
        (u, seq![a] + rest)
    }
}

/// Number of frames returned to the driver by `acts`.
pub open spec fn releases(acts: Seq<CaptureAction>) -> nat
    decreases acts.len(),
{
    if acts.len() == 0 {
        0
    } else {
        (if acts[0] is ReleaseFrame { 1nat } else { 0nat }) + releases(acts.drop_first())
    }
}

/// Number of results that `acts` hand to callers.
pub open spec fn results(acts: Seq<CaptureAction>) -> nat
    decreases acts.len(),
{
    if acts.len() == 0 {
        0
    } else {
        (if acts[0] is ReleaseFrame || acts[0] is Complete { 1nat } else { 0nat }) + results(
            acts.drop_first(),
        )
    }
}

/// Number of capture requests among `evs`.
pub open spec fn requests(evs: Seq<CaptureEvent>) -> nat
    decreases evs.len(),
{
    if evs.len() == 0 {
        0
    } else {
        (if evs[0] is Request { 1nat } else { 0nat }) + requests(evs.drop_first())
    }
}

/// One while a capture is in progress, else zero.
pub open spec fn in_flight(s: CaptureState) -> nat {
    if s.phase is Idle { 0 } else { 1 }
}

/// Over any sequence of events, a session keeps its configuration; every frame it
/// checked out has been returned to the driver except the one of a capture still
/// encoding, so never more than one is out; and each request is answered by exactly
/// one result, unless its capture is still in progress.
pub proof fn lemma_capture_balance(s: CaptureState, evs: Seq<CaptureEvent>)
    requires
        s.wf(),
    ensures
        capture_run(s, evs).0.wf(),
        capture_run(s, evs).0.config == s.config,
        capture_run(s, evs).0.acquired <= capture_run(s, evs).0.released + 1,
        capture_run(s, evs).0.released == s.released + releases(capture_run(s, evs).1),
        results(capture_run(s, evs).1) + in_flight(capture_run(s, evs).0) == in_flight(s)
            + requests(evs),
    decreases evs.len(),
{
    if evs.len() > 0 {
        let (t, a) = capture_step(s, evs[0]);
        let rest = capture_run(t, evs.drop_first()).1;
        lemma_capture_balance(t, evs.drop_first());
        assert((seq![a] + rest).drop_first() =~= rest);
    }
}

/// A JPEG capture of a frame the sensor already encoded as JPEG copies the frame's
/// bytes, returns the frame and hands out exactly those bytes, whatever captures came
/// before: on a source that keeps giving the same frame, every capture gives the
/// same bytes.
pub proof fn lemma_jpeg_passthrough(s: CaptureState, frame: Vec<u8>)
    requires
        s.wf(),
        s.phase is Idle,
    ensures
        ({
            let evs = seq![
                CaptureEvent::Request(Encoding::Jpeg),
                CaptureEvent::FrameAcquired(PixelFormat::JPEG),
                CaptureEvent::Encoded(frame),
            ];
            let (t, acts) = capture_run(s, evs);
            &&& acts.len() == 3
            &&& acts[0] is AcquireFrame
            &&& acts[1] is CopyFrame
            &&& acts[2] == CaptureAction::ReleaseFrame(Ok(frame))
            &&& t.phase is Idle
            &&& t.wf()
            &&& t.acquired == t.released
        }),
{
    let evs = seq![
        CaptureEvent::Request(Encoding::Jpeg),
        CaptureEvent::FrameAcquired(PixelFormat::JPEG),
        CaptureEvent::Encoded(frame),
    ];
    let e1 = evs.drop_first();
    let e2 = e1.drop_first();
    let e3 = e2.drop_first();
    assert(e3.len() == 0);
    let (s1, a0) = capture_step(s, evs[0]);
    let (s2, a1) = capture_step(s1, e1[0]);
    let (s3, a2) = capture_step(s2, e2[0]);
    assert(capture_run(s3, e3).1 =~= Seq::<CaptureAction>::empty());
    assert(capture_run(s2, e2).1 =~= seq![a2]);
    assert(capture_run(s1, e1).1 =~= seq![a1, a2]);
    assert(capture_run(s, evs).1 =~= seq![a0, a1, a2]);
}

} // verus!

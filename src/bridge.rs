use vstd::prelude::*;

use crate::convert::{encodable, format_of_tag, i420_len, yuv_nv12_to_h264, PixelFormat};
use crate::error::{Error, Result};
use crate::distributor::{same_frame, newer, LatestReader, LatestSlot};
use crate::models::FrameEvent;
use crate::session::{Sample, WebRTCManager};

verus! {

/// Frame rate the encoded samples are paced for.
pub const NOMINAL_FPS: u32 = 30;

/// Duration of one sample at `fps` frames per second, in whole milliseconds.
pub fn sample_duration_ms(fps: u32) -> (r: u64)
    requires
        fps > 0,
    ensures
        r == 1000int / (fps as int),
{
    1000 / (fps as u64)
}

/// The task that feeds one session's track from one device's latest frames. It takes
/// each new frame, encodes it and pushes it; the first failure ends it for good.
#[derive(Debug)]
pub struct EncodingBridge {
    connection_id: String,
    reader: LatestReader,
    running: bool,
    duration_ms: u64,
    samples_sent: u64,
}

impl EncodingBridge {
    pub closed spec fn is_running(&self) -> bool {
        self.running
    }

    pub closed spec fn connection(&self) -> Seq<char> {
        self.connection_id@
    }

    pub closed spec fn sample_ms(&self) -> u64 {
        self.duration_ms
    }

    pub closed spec fn sent(&self) -> u64 {
        self.samples_sent
    }

    pub closed spec fn last_seen(&self) -> Option<u64> {
        self.reader.last_seen()
    }

    /// A running bridge to session `connection_id`, pacing samples at `duration_ms`.
    pub fn new(connection_id: String, duration_ms: u64) -> (r: EncodingBridge)
        ensures
            r.is_running(),
            r.connection() == connection_id@,
            r.sample_ms() == duration_ms,
            r.sent() == 0,
            r.last_seen() is None,
    {
        EncodingBridge {
            connection_id,
            reader: LatestReader::new(),
            running: true,
            duration_ms,
            samples_sent: 0,
        }
    }

    /// Whether the bridge still runs.
    pub fn running(&self) -> (r: bool)
        ensures
            r == self.is_running(),
    {
        self.running
    }

    /// Number of samples pushed so far (saturating).
    pub fn samples_sent(&self) -> (r: u64)
        ensures
            r == self.sent(),
    {
        self.samples_sent
    }

    /// The next frame to encode: the slot's frame if it is newer than the last one
    /// taken; nothing once the bridge has stopped.
    pub fn next_frame(&mut self, slot: &LatestSlot) -> (r: Option<FrameEvent>)
        ensures
            final(self).is_running() == old(self).is_running(),
            final(self).connection() == old(self).connection(),
            final(self).sample_ms() == old(self).sample_ms(),
            final(self).sent() == old(self).sent(),
            !old(self).is_running() ==> r is None && final(self).last_seen() == old(self).last_seen(),
            old(self).is_running() && slot.held_id() is Some && newer(
                slot.held_id()->Some_0,
                old(self).last_seen(),
            ) ==> r is Some && same_frame(r->Some_0, slot.held()->Some_0) && final(self).last_seen()
                == slot.held_id(),
            old(self).is_running() && !(slot.held_id() is Some && newer(
                slot.held_id()->Some_0,
                old(self).last_seen(),
            )) ==> r is None && final(self).last_seen() == old(self).last_seen(),
    {
        if !self.running {
            return None;
        }
        self.reader.poll(slot)
    }

    /// Turns the encoder's outcome for one frame into the sample to write on the
    /// session's track: the access unit itself, paced at the bridge's sample duration.
    /// An encoder failure, a session that is gone or one without a track stops the bridge.
    pub fn take_encoded(&mut self, manager: &WebRTCManager, encoded: Result<Vec<u8>>) -> (r:
        Option<Sample>)
        requires
            manager.wf(),
        ensures
            final(self).connection() == old(self).connection(),
            final(self).sample_ms() == old(self).sample_ms(),
            final(self).sent() == old(self).sent(),
            final(self).last_seen() == old(self).last_seen(),
            encoded is Ok && manager.conns().dom().contains(old(self).connection())
                && manager.conns()[old(self).connection()].has_video_track ==> r == Some(
                Sample { data: encoded->Ok_0, duration_ms: old(self).sample_ms() },
            ) && final(self).is_running() == old(self).is_running(),
            !(encoded is Ok && manager.conns().dom().contains(old(self).connection())
                && manager.conns()[old(self).connection()].has_video_track) ==> r is None
                && !final(self).is_running(),
    {
        match encoded {
            Ok(access_unit) => match manager.push_h264_sample(
                &self.connection_id,
                access_unit,
                self.duration_ms,
            ) {
                Ok(sample) => Some(sample),
                Err(_) => {
                    self.running = false;
                    None
                },
            },
            Err(_) => {
                self.running = false;
                None
            },
        }
    }

    /// Encodes a raw NV12 frame and turns the outcome into a sample, as `take_encoded`
    /// does. The encoder's bitstream is not stated; a frame not tagged NV12, one the
    /// encoder cannot take (too short, an odd or zero side) and a session without a track
    /// each stop the bridge.
    pub fn encode_frame(&mut self, manager: &WebRTCManager, frame: &FrameEvent) -> (r: Option<
        Sample,
    >)
        requires
            manager.wf(),
        ensures
            final(self).connection() == old(self).connection(),
            final(self).sample_ms() == old(self).sample_ms(),
            final(self).sent() == old(self).sent(),
            final(self).last_seen() == old(self).last_seen(),
            r is Some ==> final(self).is_running() == old(self).is_running() && r->Some_0.duration_ms
                == old(self).sample_ms(),
            r is None ==> !final(self).is_running(),
            format_of_tag(frame.format@) != Some(PixelFormat::Nv12) ==> r is None,
            frame.data@.len() < i420_len(frame.width, frame.height) ==> r is None,
            !encodable(frame.width, frame.height) ==> r is None,
            !manager.conns().dom().contains(old(self).connection()) ==> r is None,
            manager.conns().dom().contains(old(self).connection()) && !manager.conns()[old(self).connection()].has_video_track ==> r is None,
    {
        let encoded = match PixelFormat::from_tag(&frame.format) {
            Some(PixelFormat::Nv12) => yuv_nv12_to_h264(frame.data.as_slice(), frame.width, frame.height),
            _ => Err(Error::UnsupportedPixelFormat(frame.format.clone())),
        };
        self.take_encoded(manager, encoded)
    }

    /// Records the outcome of writing a sample on the track: a failure stops the bridge.
    pub fn on_pushed(&mut self, pushed: bool)
        ensures
            final(self).connection() == old(self).connection(),
            final(self).sample_ms() == old(self).sample_ms(),
            final(self).last_seen() == old(self).last_seen(),
            pushed ==> final(self).is_running() == old(self).is_running() && final(self).sent() == (
            if old(self).sent() == u64::MAX {
                u64::MAX
            } else {
                (old(self).sent() + 1) as u64
            }),
            !pushed ==> !final(self).is_running() && final(self).sent() == old(self).sent(),
    {
        if pushed {
            if self.samples_sent < u64::MAX {
                self.samples_sent = self.samples_sent + 1;
            }
        } else {
            self.running = false;
        }
    }
}

/// The steps of starting a device session, in order.
#[derive(Debug, Clone, Copy, PartialEq, Eq, Structural)]
pub enum SetupStep {
    /// Bring the capture subsystem up (idempotent).
    InitializeCapture,
    /// Create the transport session.
    CreateSession,
    /// Record which device feeds it.
    RecordBinding,
    /// Attach its video track.
    AttachTrack,
    /// Start the device stream in latest-value mode.
    StartStream,
    /// Start the encoding bridge from the stream to the track.
    BindBridge,
    /// Create and commit the offer.
    CreateOffer,
}

/// What undoes a completed setup step.
#[derive(Debug, Clone, Copy, PartialEq, Eq, Structural)]
pub enum Compensation {
    StopBridge,
    StopStream,
    CloseSession,
}

pub open spec fn setup_order() -> Seq<SetupStep> {
    seq![
        SetupStep::InitializeCapture,
        SetupStep::CreateSession,
        SetupStep::RecordBinding,
        SetupStep::AttachTrack,
        SetupStep::StartStream,
        SetupStep::BindBridge,
        SetupStep::CreateOffer,
    ]
}

/// What to undo when setup fails at `failed`: the steps completed before it, newest
/// first. Initialising capture is idempotent and stays; closing the session also drops
/// its binding and track.
pub open spec fn compensation_for(failed: SetupStep) -> Seq<Compensation> {
    match failed {
        SetupStep::InitializeCapture => seq![],
        SetupStep::CreateSession => seq![],
        SetupStep::RecordBinding => seq![Compensation::CloseSession],
        SetupStep::AttachTrack => seq![Compensation::CloseSession],
        SetupStep::StartStream => seq![Compensation::CloseSession],
        SetupStep::BindBridge => seq![Compensation::StopStream, Compensation::CloseSession],
        SetupStep::CreateOffer => seq![
            Compensation::StopBridge,
            Compensation::StopStream,
            Compensation::CloseSession,
        ],
    }
}

/// The steps of starting a device session, in the order they run.
pub fn setup_steps() -> (r: Vec<SetupStep>)
    ensures
        r@ == setup_order(),
{
    let r = vec![
        SetupStep::InitializeCapture,
        SetupStep::CreateSession,
        SetupStep::RecordBinding,
        SetupStep::AttachTrack,
        SetupStep::StartStream,
        SetupStep::BindBridge,
        SetupStep::CreateOffer,
    ];
    assert(r@ =~= setup_order());
    r
}

/// What to undo, in order, after setup failed at `failed`.
pub fn compensation_after(failed: SetupStep) -> (r: Vec<Compensation>)
    ensures
        r@ == compensation_for(failed),
{
    let r = match failed {
        SetupStep::InitializeCapture => vec![],
        SetupStep::CreateSession => vec![],
        SetupStep::RecordBinding => vec![Compensation::CloseSession],
        SetupStep::AttachTrack => vec![Compensation::CloseSession],
        SetupStep::StartStream => vec![Compensation::CloseSession],
        SetupStep::BindBridge => vec![Compensation::StopStream, Compensation::CloseSession],
        SetupStep::CreateOffer => vec![
            Compensation::StopBridge,
            Compensation::StopStream,
            Compensation::CloseSession,
        ],
    };
    assert(r@ =~= compensation_for(failed));
    r
}

} // verus!

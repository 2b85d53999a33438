use vstd::prelude::*;

use crate::admission::{slot_step, SlotEvent};
use crate::convert::{output_tag, ConvertedFrame};
use crate::error::Result;
use crate::models::FrameEvent;
use crate::stream::FrameGate;

verus! {

/// How a stream hands its converted frames on; fixed when the stream starts.
#[derive(Debug, Clone, Copy, PartialEq, Eq, Structural)]
pub enum DeliveryMode {
    /// Every frame is pushed to an outbound channel.
    Channel,
    /// A single slot always holds the most recent frame.
    LatestValue,
}

/// The frame event a finished conversion yields: one only when the conversion succeeded
/// and the stream is still live. A failed conversion is dropped silently.
pub fn finish_frame(
    live: bool,
    frame_id: u64,
    conversion: Result<ConvertedFrame>,
    width: u32,
    height: u32,
    timestamp_ms: u64,
) -> (r: Option<FrameEvent>)
    ensures
        r is Some <==> conversion is Ok && live,
        r is Some ==> {
            let f = r->Some_0;
            &&& f.frame_id == frame_id
            &&& f.data == conversion->Ok_0.data
            &&& f.width == width
            &&& f.height == height
            &&& f.timestamp_ms == timestamp_ms
            &&& f.format@ == output_tag(conversion->Ok_0.format)
        },
{
    match conversion {
        Ok(converted) => if live {
            Some(FrameEvent::from_converted(frame_id, converted, width, height, timestamp_ms))
        } else {
            None
        },
        Err(_) => None,
    }
}

/// The frame event a raw frame yields on the encoding path, which takes frames as the
/// camera delivered them, tagged with the capture format: one only while the stream is
/// live.
pub fn finish_raw_frame(
    live: bool,
    frame_id: u64,
    data: Vec<u8>,
    format: String,
    width: u32,
    height: u32,
    timestamp_ms: u64,
) -> (r: Option<FrameEvent>)
    ensures
        r is Some <==> live,
        r is Some ==> r->Some_0 == (FrameEvent { frame_id, data, width, height, timestamp_ms, format }),
{
    if live {
        Some(FrameEvent { frame_id, data, width, height, timestamp_ms, format })
    } else {
        None
    }
}

/// Ends the conversion of frame `frame_id`: the slot it held is released whatever the
/// outcome, and a frame event is produced only when the conversion succeeded and the
/// stream is still live. A failed conversion is dropped silently.
pub fn complete_frame(
    gate: &mut FrameGate,
    frame_id: u64,
    conversion: Result<ConvertedFrame>,
    width: u32,
    height: u32,
    timestamp_ms: u64,
) -> (r: Option<FrameEvent>)
    requires
        old(gate).wf(),
    ensures
        final(gate).wf(),
        final(gate).in_flight() <= final(gate).slots(),
        final(gate).in_flight() == slot_step(
            old(gate).in_flight(),
            old(gate).slots(),
            SlotEvent::Complete,
        ),
        final(gate).is_live() == old(gate).is_live(),
        final(gate).next_seq() == old(gate).next_seq(),
        final(gate).spec_keep_every() == old(gate).spec_keep_every(),
        final(gate).slots() == old(gate).slots(),
        r is Some <==> conversion is Ok && old(gate).is_live(),
        r is Some ==> {
            let f = r->Some_0;
            &&& f.frame_id == frame_id
            &&& f.data == conversion->Ok_0.data
            &&& f.width == width
            &&& f.height == height
            &&& f.timestamp_ms == timestamp_ms
            &&& f.format@ == output_tag(conversion->Ok_0.format)
        },
{
    let live = gate.finish_conversion();
    finish_frame(live, frame_id, conversion, width, height, timestamp_ms)
}

/// Ends the hand-off of a raw frame to the encoding path, which takes frames as the
/// camera delivered them: the slot is released unconditionally, and the frame event,
/// tagged with the capture format, is produced only while the stream is live.
pub fn complete_raw_frame(
    gate: &mut FrameGate,
    frame_id: u64,
    data: Vec<u8>,
    format: String,
    width: u32,
    height: u32,
    timestamp_ms: u64,
) -> (r: Option<FrameEvent>)
    requires
        old(gate).wf(),
    ensures
        final(gate).wf(),
        final(gate).in_flight() <= final(gate).slots(),
        final(gate).in_flight() == slot_step(
            old(gate).in_flight(),
            old(gate).slots(),
            SlotEvent::Complete,
        ),
        final(gate).is_live() == old(gate).is_live(),
        final(gate).next_seq() == old(gate).next_seq(),
        final(gate).spec_keep_every() == old(gate).spec_keep_every(),
        final(gate).slots() == old(gate).slots(),
        r is Some <==> old(gate).is_live(),
        r is Some ==> r->Some_0 == (FrameEvent { frame_id, data, width, height, timestamp_ms, format }),
{
    let live = gate.finish_conversion();
    finish_raw_frame(live, frame_id, data, format, width, height, timestamp_ms)
}

} // verus!

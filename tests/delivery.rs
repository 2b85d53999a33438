use camera_stream::Error;
use camera_stream::bridge::{
    compensation_after, sample_duration_ms, setup_steps, Compensation, EncodingBridge, SetupStep,
    NOMINAL_FPS,
};
use camera_stream::distributor::{LatestReader, LatestSlot, OrderGate};
use camera_stream::models::FrameEvent;
use camera_stream::session::WebRTCManager;

fn frame(id: u64) -> FrameEvent {
    FrameEvent {
        frame_id: id,
        data: vec![id as u8; 4],
        width: 1,
        height: 1,
        timestamp_ms: id * 33,
        format: "RGBA".to_string(),
    }
}

#[test]
fn order_gate_refuses_older_frames() {
    let mut gate = OrderGate::new();
    assert!(gate.accept(3));
    assert!(!gate.accept(2));
    assert!(!gate.accept(3));
    assert!(gate.accept(7));
}

#[test]
fn latest_value_consumer_sees_increasing_sparse_ids_ending_at_last() {
    let mut slot = LatestSlot::new();
    let mut reader = LatestReader::new();
    let mut seen = Vec::new();
    // F1 and F2 arrive before the first poll, F3..F5 between later polls.
    assert!(slot.publish(frame(1)));
    assert!(slot.publish(frame(2)));
    if let Some(f) = reader.poll(&slot) {
        seen.push(f.frame_id);
    }
    assert!(slot.publish(frame(3)));
    assert!(slot.publish(frame(4)));
    if let Some(f) = reader.poll(&slot) {
        seen.push(f.frame_id);
    }
    assert!(reader.poll(&slot).is_none());
    assert!(slot.publish(frame(5)));
    if let Some(f) = reader.poll(&slot) {
        seen.push(f.frame_id);
        assert_eq!(f.data, vec![5u8; 4]);
    }
    assert_eq!(seen, vec![2, 4, 5]);
    assert!(seen.windows(2).all(|w| w[0] < w[1]));
}

#[test]
fn latest_slot_keeps_newer_frame() {
    let mut slot = LatestSlot::new();
    assert_eq!(slot.latest_id(), None);
    assert!(slot.publish(frame(9)));
    assert!(!slot.publish(frame(4)));
    assert_eq!(slot.latest_id(), Some(9));
}

#[test]
fn nominal_sample_duration() {
    assert_eq!(sample_duration_ms(NOMINAL_FPS), 33);
    assert_eq!(sample_duration_ms(25), 40);
}

#[test]
fn bridge_stops_when_session_has_no_track() {
    let mut manager = WebRTCManager::new();
    let id = manager.create_peer_connection().unwrap();
    let mut bridge = EncodingBridge::new(id.clone(), 33);
    let mut slot = LatestSlot::new();
    let raw = FrameEvent {
        frame_id: 1,
        data: vec![128u8; 16 * 16 * 3 / 2],
        width: 16,
        height: 16,
        timestamp_ms: 0,
        format: "NV12".to_string(),
    };
    slot.publish(raw);
    let f = bridge.next_frame(&slot).unwrap();
    assert!(bridge.encode_frame(&manager, &f).is_none());
    assert!(!bridge.running());
    assert!(bridge.next_frame(&slot).is_none());
}

#[test]
fn bridge_encodes_and_paces_samples() {
    let mut manager = WebRTCManager::new();
    let id = manager.create_peer_connection().unwrap();
    manager.attach_h264_video_track(&id).unwrap();
    let mut bridge = EncodingBridge::new(id, 33);
    let mut slot = LatestSlot::new();
    slot.publish(FrameEvent {
        frame_id: 4,
        data: vec![100u8; 16 * 16 * 3 / 2],
        width: 16,
        height: 16,
        timestamp_ms: 0,
        format: "NV12".to_string(),
    });
    let f = bridge.next_frame(&slot).unwrap();
    let sample = bridge.encode_frame(&manager, &f).unwrap();
    assert_eq!(sample.duration_ms, 33);
    assert!(!sample.data.is_empty());
    bridge.on_pushed(true);
    assert_eq!(bridge.samples_sent(), 1);
    assert!(bridge.next_frame(&slot).is_none());
    bridge.on_pushed(false);
    assert!(!bridge.running());
}

#[test]
fn setup_order_and_compensation() {
    assert_eq!(
        setup_steps(),
        vec![
            SetupStep::InitializeCapture,
            SetupStep::CreateSession,
            SetupStep::RecordBinding,
            SetupStep::AttachTrack,
            SetupStep::StartStream,
            SetupStep::BindBridge,
            SetupStep::CreateOffer,
        ]
    );
    assert!(compensation_after(SetupStep::CreateSession).is_empty());
    assert_eq!(compensation_after(SetupStep::AttachTrack), vec![Compensation::CloseSession]);
    assert_eq!(
        compensation_after(SetupStep::CreateOffer),
        vec![Compensation::StopBridge, Compensation::StopStream, Compensation::CloseSession]
    );
}

#[test]
fn encoded_access_unit_becomes_the_sample() {
    let mut manager = WebRTCManager::new();
    let id = manager.create_peer_connection().unwrap();
    manager.attach_h264_video_track(&id).unwrap();
    let mut bridge = EncodingBridge::new(id, 40);
    let sample = bridge.take_encoded(&manager, Ok(vec![0, 0, 0, 1, 0x65])).unwrap();
    assert_eq!(sample.data, vec![0, 0, 0, 1, 0x65]);
    assert_eq!(sample.duration_ms, 40);
    assert!(bridge.running());
    assert!(bridge.take_encoded(&manager, Err(Error::EncodingFailed)).is_none());
    assert!(!bridge.running());
}

#[test]
fn encoded_frame_is_not_the_raw_frame() {
    let mut manager = WebRTCManager::new();
    let id = manager.create_peer_connection().unwrap();
    manager.attach_h264_video_track(&id).unwrap();
    let mut bridge = EncodingBridge::new(id, 33);
    let raw = FrameEvent {
        frame_id: 1,
        data: vec![90u8; 16 * 16 * 3 / 2],
        width: 16,
        height: 16,
        timestamp_ms: 0,
        format: "NV12".to_string(),
    };
    let sample = bridge.encode_frame(&manager, &raw).unwrap();
    assert_ne!(sample.data, raw.data);
    assert_eq!(&sample.data[0..4], &[0u8, 0, 0, 1]);
}

#[test]
fn bridge_refuses_frames_not_tagged_nv12() {
    let mut manager = WebRTCManager::new();
    let id = manager.create_peer_connection().unwrap();
    manager.attach_h264_video_track(&id).unwrap();
    let mut bridge = EncodingBridge::new(id, 33);
    let rgb = FrameEvent {
        frame_id: 1,
        data: vec![0u8; 16 * 16 * 3],
        width: 16,
        height: 16,
        timestamp_ms: 0,
        format: "RGB8".to_string(),
    };
    assert!(bridge.encode_frame(&manager, &rgb).is_none());
    assert!(!bridge.running());
}

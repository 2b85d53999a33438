use camera_stream::models::{IceServer, SessionDescriptionData};
use camera_stream::session::{
    description_type, parse_description_type, ConnectionState, SdpType, SessionDescription,
    TrackAttach, WebRTCManager,
};
use camera_stream::{Error, ErrorKind};

#[test]
fn attaching_track_twice_keeps_one_track() {
    let mut m = WebRTCManager::new();
    let id = m.create_peer_connection().unwrap();
    assert_eq!(m.video_track_count(&id).unwrap(), 0);
    assert_eq!(m.attach_h264_video_track(&id).unwrap(), TrackAttach::Created);
    assert_eq!(m.attach_h264_video_track(&id).unwrap(), TrackAttach::AlreadyAttached);
    assert_eq!(m.video_track_count(&id).unwrap(), 1);
    assert_eq!(m.attach_receiver_to_connection(&id).unwrap(), TrackAttach::AlreadyAttached);
    assert_eq!(m.video_track_count(&id).unwrap(), 1);
}

#[test]
fn close_unknown_fails_and_known_closes() {
    let mut m = WebRTCManager::new();
    let err = m.remove_connection(&"nope".to_string()).unwrap_err();
    assert_eq!(err.kind(), ErrorKind::Resource);

    let id = m.create_peer_connection().unwrap();
    assert_eq!(m.get_connection_state(&id).unwrap(), "new");
    m.register_device_for_connection(id.clone(), "cam0".to_string()).unwrap();
    let out = m.remove_connection(&id).unwrap();
    assert!(out.close_connection);
    assert_eq!(out.device_id, Some("cam0".to_string()));
    let err = m.get_connection_state(&id).unwrap_err();
    assert_eq!(err, Error::SessionNotFound(id.clone()));
    assert_eq!(err.kind(), ErrorKind::Resource);
    assert_eq!(m.get_device_for_connection(&id), None);
    assert!(m.remove_connection(&id).is_err());
}

#[test]
fn close_tolerates_binding_without_connection() {
    let mut m = WebRTCManager::new();
    m.register_device_for_connection("orphan".to_string(), "cam1".to_string()).unwrap();
    let out = m.remove_connection(&"orphan".to_string()).unwrap();
    assert!(!out.close_connection);
    assert_eq!(out.device_id, Some("cam1".to_string()));
}

#[test]
fn binding_is_replaced() {
    let mut m = WebRTCManager::new();
    m.register_device_for_connection("c".to_string(), "a".to_string()).unwrap();
    m.register_device_for_connection("c".to_string(), "b".to_string()).unwrap();
    assert_eq!(m.get_device_for_connection(&"c".to_string()), Some("b".to_string()));
}

#[test]
fn unknown_session_is_refused_everywhere() {
    let mut m = WebRTCManager::new();
    let id = "missing".to_string();
    assert_eq!(m.get_connection(&id).unwrap_err(), Error::SessionNotFound(id.clone()));
    assert_eq!(m.attach_h264_video_track(&id).unwrap_err(), Error::SessionNotFound(id.clone()));
    assert_eq!(m.require_connection(&id).unwrap_err(), Error::SessionNotFound(id.clone()));
    assert_eq!(m.video_track_count(&id).unwrap_err(), Error::SessionNotFound(id.clone()));
    assert_eq!(
        m.push_h264_sample(&id, vec![1], 33).unwrap_err(),
        Error::SessionNotFound(id.clone())
    );
}

#[test]
fn sample_needs_a_track() {
    let mut m = WebRTCManager::new();
    let id = m.create_peer_connection().unwrap();
    assert_eq!(m.push_h264_sample(&id, vec![1, 2], 33).unwrap_err(), Error::NoVideoTrack(id.clone()));
    m.attach_h264_video_track(&id).unwrap();
    let s = m.push_h264_sample(&id, vec![1, 2], 33).unwrap();
    assert_eq!(s.data, vec![1, 2]);
    assert_eq!(s.duration_ms, 33);
    m.detach_video_track(&id).unwrap();
    assert_eq!(m.video_track_count(&id).unwrap(), 0);
}

#[test]
fn description_types_parse_ignoring_case() {
    assert_eq!(parse_description_type(&"offer".to_string()).unwrap(), SdpType::Offer);
    assert_eq!(parse_description_type(&"Answer".to_string()).unwrap(), SdpType::Answer);
    let err = parse_description_type(&"PrAnswer".to_string()).unwrap_err();
    assert_eq!(err, Error::UnsupportedDescriptionType("pranswer".to_string()));
    assert_eq!(err.kind(), ErrorKind::Negotiation);
    assert_eq!(description_type(&"answer".to_string()), Some(SdpType::Answer));
    assert_eq!(description_type(&"Answer".to_string()), None);
}

#[test]
fn description_round_trip() {
    for t in [SdpType::Offer, SdpType::Answer] {
        let sdp = "v=0\r\no=- 46117 2 IN IP4 127.0.0.1\r\ns=-\r\n".to_string();
        let data = SessionDescriptionData::from_description(SessionDescription { sdp_type: t, sdp: sdp.clone() });
        let back = data.clone().parse().unwrap();
        assert_eq!(back.sdp_type, t);
        assert_eq!(back.sdp, sdp);
        assert_eq!(SessionDescriptionData::from_description(back), data);
    }
}

#[test]
fn remote_description_checked_before_engine() {
    let mut m = WebRTCManager::new();
    let id = m.create_peer_connection().unwrap();
    let bad = SessionDescriptionData { sdp_type: "rollback".to_string(), sdp: "x".to_string() };
    let err = m.prepare_remote_description(&id, bad).unwrap_err();
    assert_eq!(err.kind(), ErrorKind::Negotiation);
    assert_eq!(m.get_connection(&id).unwrap().remote_description, None);
    let good = SessionDescriptionData { sdp_type: "offer".to_string(), sdp: "x".to_string() };
    let desc = m.prepare_remote_description(&id, good).unwrap();
    m.record_remote_description(&id, desc.sdp_type).unwrap();
    m.record_local_description(&id, SdpType::Answer).unwrap();
    let c = m.get_connection(&id).unwrap();
    assert_eq!(c.remote_description, Some(SdpType::Offer));
    assert_eq!(c.local_description, Some(SdpType::Answer));
    let other = SessionDescriptionData { sdp_type: "offer".to_string(), sdp: "x".to_string() };
    assert_eq!(
        m.prepare_remote_description(&"zzz".to_string(), other).unwrap_err(),
        Error::SessionNotFound("zzz".to_string())
    );
}

#[test]
fn connection_state_snapshots() {
    let mut m = WebRTCManager::new();
    let id = m.create_peer_connection().unwrap();
    m.set_connection_state(&id, ConnectionState::Connected).unwrap();
    assert_eq!(m.get_connection_state(&id).unwrap(), "connected");
    assert_eq!(ConnectionState::Disconnected.tag(), "disconnected");
}

#[test]
fn streams_are_registered_and_forgotten() {
    let mut m = WebRTCManager::new();
    m.start_streaming("s1".to_string(), "cam0".to_string(), Some("c1".to_string())).unwrap();
    let s = m.get_stream(&"s1".to_string()).unwrap();
    assert_eq!(s.device_id, "cam0");
    assert_eq!(s.connection_id, Some("c1".to_string()));
    m.stop_streaming(&"s1".to_string()).unwrap();
    assert_eq!(m.get_stream(&"s1".to_string()).unwrap_err(), Error::NoActiveStream("s1".to_string()));
    m.stop_streaming(&"s1".to_string()).unwrap();
}

#[test]
fn ice_server_defaults() {
    let s = IceServer { urls: vec!["stun:example.org".to_string()], username: None, credential: Some("pw".to_string()) };
    assert_eq!(s.username_or_default(), "");
    assert_eq!(s.credential_or_default(), "pw");
}

#[test]
fn error_kinds() {
    assert_eq!(Error::EncodingFailed.kind(), ErrorKind::Encoding);
    assert_eq!(Error::ChannelSendError.kind(), ErrorKind::ChannelDelivery);
    assert_eq!(Error::CameraError("x".to_string()).kind(), ErrorKind::Camera);
    assert_eq!(Error::NegotiationFailed("x".to_string()).kind(), ErrorKind::Negotiation);
}

#[test]
fn lower_case_remote_description_round_trips() {
    let mut m = WebRTCManager::new();
    let id = m.create_peer_connection().unwrap();
    let data = SessionDescriptionData::from_description(SessionDescription {
        sdp_type: SdpType::Answer,
        sdp: "v=0".to_string(),
    });
    let desc = m.prepare_remote_description(&id, data).unwrap();
    assert_eq!(desc, SessionDescription { sdp_type: SdpType::Answer, sdp: "v=0".to_string() });
}

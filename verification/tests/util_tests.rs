use streamserver::channel::{MediaQueue, RecvOutcome, SendOutcome};
use streamserver::define::{MediaKind, MediaUnit};
use streamserver::entrypoint::{session_path, EntrypointParrams};
use streamserver::handler::{RtmpStreamHandler, StreamHandler, WebRTCStreamHandler};
use streamserver::{ProtocolKind, StreamIdentifier, Uuid};

#[test]
fn test_uuid() {
    let id = Uuid::new();

    let s = id.to_string();

    let serialized = serde_json::to_string(&s).unwrap();

    println!("serialized:{serialized}");

    println!("{s}");

    if let Some(u) = Uuid::from_str2(&s) {
        println!("{:?}", u.to_string());
    }
}

#[test]
fn test_uuid_text_round_trip() {
    let parsed = Uuid::from_str2("a1a2a3a4-b1b2-c1c2-d1d2-d3d4d5d6d7d8").unwrap();
    assert_eq!(parsed.to_string(), "a1a2a3a4-b1b2-c1c2-d1d2-d3d4d5d6d7d8");

    let fresh = Uuid::new();
    let text = fresh.to_string();
    assert_eq!(text.len(), 36);
    assert_eq!(Uuid::from_str2(&text), Some(fresh));
}

#[test]
fn test_uuid_rejects_malformed_text() {
    assert_eq!(Uuid::from_str2("not-a-uuid"), None);
    assert_eq!(Uuid::from_str2(""), None);
}

#[test]
fn test_identifier_equality_spans_all_fields() {
    let a = StreamIdentifier::new(ProtocolKind::Rtmp, "app".to_string(), "s".to_string());
    let b = StreamIdentifier::new(ProtocolKind::Rtmp, "app".to_string(), "s".to_string());
    let other_proto = StreamIdentifier::new(ProtocolKind::WebRTC, "app".to_string(), "s".to_string());
    let other_name = StreamIdentifier::new(ProtocolKind::Rtmp, "app".to_string(), "t".to_string());
    assert_eq!(a, b);
    assert_ne!(a, other_proto);
    assert_ne!(a, other_name);
}

#[test]
fn test_media_queue_is_fifo_and_bounded() {
    let mut q = MediaQueue::new(2);
    assert_eq!(q.try_send(MediaUnit::new(MediaKind::Audio, vec![1])), SendOutcome::Delivered);
    assert_eq!(q.try_send(MediaUnit::new(MediaKind::Audio, vec![2])), SendOutcome::Delivered);
    assert_eq!(q.try_send(MediaUnit::new(MediaKind::Audio, vec![3])), SendOutcome::Full);
    assert_eq!(q.len(), 2);
    match q.recv() {
        RecvOutcome::Unit(u) => assert_eq!(u.payload, vec![1]),
        _ => panic!("expected a unit"),
    }
    match q.recv() {
        RecvOutcome::Unit(u) => assert_eq!(u.payload, vec![2]),
        _ => panic!("expected a unit"),
    }
    assert!(matches!(q.recv(), RecvOutcome::Empty));
}

#[test]
fn test_media_queue_close_keeps_queued_units() {
    let mut q = MediaQueue::new(4);
    q.try_send(MediaUnit::new(MediaKind::Audio, vec![1]));
    q.close();
    assert_eq!(q.try_send(MediaUnit::new(MediaKind::Audio, vec![2])), SendOutcome::Closed);
    assert!(matches!(q.recv(), RecvOutcome::Unit(_)));
    assert!(matches!(q.recv(), RecvOutcome::EndOfStream));
}

#[test]
fn test_webrtc_handler_stores_parameter_sets() {
    let mut h = WebRTCStreamHandler::new();
    h.set_sps(vec![1, 2, 3]);
    h.set_pps(vec![4]);
    assert_eq!(h.sps, vec![1, 2, 3]);
    assert_eq!(h.pps, vec![4]);
    let handler = StreamHandler::WebRtc(h);
    // WebRTC parameter sets travel in-band: nothing is replayed.
    assert!(handler.prior_units(streamserver::define::SubscribeType::PlayerWebrtc).is_empty());
    assert!(handler.get_statistic_data().is_none());
}

#[test]
fn test_rtmp_gop_cache_restarts_on_keyframe() {
    let mut h = RtmpStreamHandler::new();
    h.cache_unit(MediaUnit::new(MediaKind::Video { keyframe: true }, vec![1]));
    h.cache_unit(MediaUnit::new(MediaKind::Video { keyframe: false }, vec![2]));
    h.cache_unit(MediaUnit::new(MediaKind::Audio, vec![3]));
    assert_eq!(h.gop_cache.len(), 3);
    h.cache_unit(MediaUnit::new(MediaKind::Video { keyframe: true }, vec![4]));
    assert_eq!(h.gop_cache.len(), 1);
    assert_eq!(h.gop_cache[0].payload, vec![4]);
}

#[test]
fn test_entry_params_validation() {
    let full = EntrypointParrams {
        app: Some("live".to_string()),
        stream: Some("a".to_string()),
        token: None,
        session_id: None,
    };
    assert!(full.names_given());

    let empty_app = EntrypointParrams {
        app: Some(String::new()),
        stream: Some("a".to_string()),
        token: None,
        session_id: None,
    };
    assert!(!empty_app.names_given());

    let no_stream = EntrypointParrams {
        app: Some("live".to_string()),
        stream: None,
        token: None,
        session_id: None,
    };
    assert!(!no_stream.names_given());
}

#[test]
fn test_session_path_layout() {
    let id = Uuid::from_str2("a1a2a3a4-b1b2-c1c2-d1d2-d3d4d5d6d7d8").unwrap();
    let path = session_path("/whip", "live", "a", id);
    assert_eq!(
        path,
        "/whip?app=live&stream=a&session_id=a1a2a3a4-b1b2-c1c2-d1d2-d3d4d5d6d7d8"
    );
}

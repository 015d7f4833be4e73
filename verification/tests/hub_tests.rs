use streamserver::channel::RecvOutcome;
use streamserver::define::{
    MediaKind, MediaUnit, NotifyInfo, PubDataType, PublishType, PublisherInfo, StreamHubError,
    SubDataType, SubscribeType, SubscriberInfo,
};
use streamserver::handler::{RtmpStreamHandler, StreamHandler, WebRTCStreamHandler};
use streamserver::hub::{HubReply, StreamHubEvent, StreamsHub};
use streamserver::session::{get_publisher_info, get_subscriber_info};
use streamserver::{StreamIdentifier, Uuid};

fn live_stream_id() -> StreamIdentifier {
    StreamIdentifier::webrtc("live".to_string(), "a".to_string())
}

fn webrtc_handler() -> StreamHandler {
    StreamHandler::WebRtc(WebRTCStreamHandler::new())
}

fn unit(kind: MediaKind, payload: Vec<u8>) -> MediaUnit {
    MediaUnit::new(kind, payload)
}

fn recv_payload(hub: &mut StreamsHub, id: &StreamIdentifier, sub: Uuid) -> Option<Vec<u8>> {
    match hub.recv_media(id, sub) {
        RecvOutcome::Unit(u) => Some(u.payload),
        _ => None,
    }
}

#[test]
fn test_publish_returns_sender_kinds() {
    let mut hub = StreamsHub::new(None);
    let id = live_stream_id();
    let kinds = hub
        .publish(id, get_publisher_info(Uuid::new()), webrtc_handler())
        .unwrap();
    assert!(kinds.frame);
    assert!(kinds.packet);
}

#[test]
fn test_duplicate_publish_rejected_without_disturbing_stream() {
    let mut hub = StreamsHub::new(None);
    let id = live_stream_id();
    hub.publish(id.clone(), get_publisher_info(Uuid::new()), webrtc_handler())
        .unwrap();
    let sub = get_subscriber_info(Uuid::new());
    let sub_id = sub.id;
    hub.subscribe(&id, sub).unwrap();

    let second = hub.publish(id.clone(), get_publisher_info(Uuid::new()), webrtc_handler());
    assert_eq!(second.unwrap_err(), StreamHubError::DuplicatePublisher);

    // The existing subscriber still receives media.
    hub.relay_media(&id, &unit(MediaKind::Audio, vec![7])).unwrap();
    assert_eq!(recv_payload(&mut hub, &id, sub_id), Some(vec![7]));
}

#[test]
fn test_end_to_end_two_subscribers_three_units() {
    let mut hub = StreamsHub::new(None);
    let id = live_stream_id();
    let kinds = hub
        .publish(id.clone(), get_publisher_info(Uuid::new()), webrtc_handler())
        .unwrap();
    assert!(kinds.frame && kinds.packet);

    let first = get_subscriber_info(Uuid::new());
    let second = get_subscriber_info(Uuid::new());
    let first_id = first.id;
    let second_id = second.id;
    assert_ne!(first_id, second_id);
    hub.subscribe(&id, first).unwrap();
    hub.subscribe(&id, second).unwrap();

    for b in 1u8..=3 {
        hub.relay_media(&id, &unit(MediaKind::Audio, vec![b])).unwrap();
    }

    // Each receiver observes exactly those units, in publisher order.
    for reader in [first_id, second_id] {
        for b in 1u8..=3 {
            assert_eq!(recv_payload(&mut hub, &id, reader), Some(vec![b]));
        }
        assert!(matches!(hub.recv_media(&id, reader), RecvOutcome::Empty));
    }

    // UnPublish closes both receivers: they observe end-of-stream.
    hub.unpublish(&id);
    assert!(matches!(hub.recv_media(&id, first_id), RecvOutcome::EndOfStream));
    assert!(matches!(hub.recv_media(&id, second_id), RecvOutcome::EndOfStream));
}

#[test]
fn test_unpublish_clears_identifier_and_drains_readers() {
    let mut hub = StreamsHub::new(None);
    let id = live_stream_id();
    hub.publish(id.clone(), get_publisher_info(Uuid::new()), webrtc_handler())
        .unwrap();
    let sub = get_subscriber_info(Uuid::new());
    let sub_id = sub.id;
    hub.subscribe(&id, sub).unwrap();
    hub.relay_media(&id, &unit(MediaKind::Audio, vec![42])).unwrap();

    hub.unpublish(&id);

    // A subscribe now fails until a new publish happens.
    let err = hub.subscribe(&id, get_subscriber_info(Uuid::new())).unwrap_err();
    assert_eq!(err, StreamHubError::StreamNotFound);

    // The detached reader still drains what was queued, then sees the end.
    assert_eq!(recv_payload(&mut hub, &id, sub_id), Some(vec![42]));
    assert!(matches!(hub.recv_media(&id, sub_id), RecvOutcome::EndOfStream));

    // A fresh publish under the same identifier succeeds again.
    hub.publish(id, get_publisher_info(Uuid::new()), webrtc_handler())
        .unwrap();
}

#[test]
fn test_unpublish_is_idempotent() {
    let mut hub = StreamsHub::new(None);
    let id = live_stream_id();
    hub.unpublish(&id);
    hub.publish(id.clone(), get_publisher_info(Uuid::new()), webrtc_handler())
        .unwrap();
    hub.unpublish(&id);
    hub.unpublish(&id);
}

#[test]
fn test_subscriber_count_follows_topology_events() {
    let mut hub = StreamsHub::new(None);
    let id = live_stream_id();
    let publisher_id = Uuid::new();
    hub.publish(id.clone(), get_publisher_info(publisher_id), webrtc_handler())
        .unwrap();

    let count = |hub: &StreamsHub, uuid: Uuid| {
        hub.query_stream_statistics(&id, uuid).unwrap().subscriber_count
    };

    let a = get_subscriber_info(Uuid::new());
    let b = get_subscriber_info(Uuid::new());
    let c = get_subscriber_info(Uuid::new());
    let a_id = a.id;
    hub.subscribe(&id, a).unwrap();
    hub.subscribe(&id, b).unwrap();
    assert_eq!(count(&hub, publisher_id), 2);

    let a_info = get_subscriber_info(a_id);
    hub.unsubscribe(&id, &a_info);
    assert_eq!(count(&hub, publisher_id), 1);

    hub.subscribe(&id, c).unwrap();
    assert_eq!(count(&hub, publisher_id), 2);

    // An unsubscribe for an unknown identity is a no-op, so the count can
    // never go negative.
    let unknown = get_subscriber_info(Uuid::new());
    hub.unsubscribe(&id, &unknown);
    hub.unsubscribe(&id, &unknown);
    assert_eq!(count(&hub, publisher_id), 2);
}

#[test]
fn test_subscribe_count_limit() {
    let mut hub = StreamsHub::new(Some(1));
    let id = live_stream_id();
    hub.publish(id.clone(), get_publisher_info(Uuid::new()), webrtc_handler())
        .unwrap();
    hub.subscribe(&id, get_subscriber_info(Uuid::new())).unwrap();
    let err = hub.subscribe(&id, get_subscriber_info(Uuid::new())).unwrap_err();
    assert_eq!(err, StreamHubError::SubscribeCountLimitReach);
}

#[test]
fn test_subscribe_data_type_mismatch() {
    let mut hub = StreamsHub::new(None);
    let id = live_stream_id();
    let publisher = PublisherInfo {
        id: Uuid::new(),
        pub_type: PublishType::PushRtmp,
        pub_data_type: PubDataType::Frame,
        notify_info: NotifyInfo::new(String::new(), String::new()),
    };
    hub.publish(id.clone(), publisher, webrtc_handler()).unwrap();
    // A packet-only subscriber cannot be served by a frame-only publisher.
    let err = hub.subscribe(&id, get_subscriber_info(Uuid::new())).unwrap_err();
    assert_eq!(err, StreamHubError::NoDataReceiver);

    let frame_sub = SubscriberInfo {
        id: Uuid::new(),
        sub_type: SubscribeType::PlayerRtmp,
        sub_data_type: SubDataType::Frame,
        notify_info: NotifyInfo::new(String::new(), String::new()),
    };
    hub.subscribe(&id, frame_sub).unwrap();
}

#[test]
fn test_relay_to_missing_stream_fails() {
    let mut hub = StreamsHub::new(None);
    let id = live_stream_id();
    let err = hub.relay_media(&id, &unit(MediaKind::Audio, vec![1])).unwrap_err();
    assert_eq!(err, StreamHubError::StreamNotFound);
}

#[test]
fn test_full_channel_drops_without_stalling_others() {
    let mut hub = StreamsHub::new(None);
    let id = live_stream_id();
    hub.publish(id.clone(), get_publisher_info(Uuid::new()), webrtc_handler())
        .unwrap();
    let slow = get_subscriber_info(Uuid::new());
    let slow_id = slow.id;
    hub.subscribe(&id, slow).unwrap();

    // Fill the slow reader's channel past its capacity.
    let cap = streamserver::hub::DEFAULT_CHANNEL_CAPACITY;
    for _ in 0..cap + 5 {
        hub.relay_media(&id, &unit(MediaKind::Audio, vec![9])).unwrap();
    }

    // A healthy late subscriber still gets live units.
    let healthy = get_subscriber_info(Uuid::new());
    let healthy_id = healthy.id;
    hub.subscribe(&id, healthy).unwrap();
    hub.relay_media(&id, &unit(MediaKind::Audio, vec![1])).unwrap();
    assert_eq!(recv_payload(&mut hub, &id, healthy_id), Some(vec![1]));

    // The slow reader holds exactly its capacity: the overflow was dropped.
    let mut drained = 0usize;
    while let RecvOutcome::Unit(_) = hub.recv_media(&id, slow_id) {
        drained += 1;
    }
    assert_eq!(drained, cap);
}

#[test]
fn test_prior_data_replayed_before_live_units() {
    let mut hub = StreamsHub::new(None);
    let id = StreamIdentifier::rtmp("live".to_string(), "a".to_string());
    let mut gop = RtmpStreamHandler::new();
    gop.cache_unit(unit(MediaKind::Video { keyframe: true }, vec![10]));
    gop.cache_unit(unit(MediaKind::Video { keyframe: false }, vec![11]));
    let publisher = PublisherInfo {
        id: Uuid::new(),
        pub_type: PublishType::PushRtmp,
        pub_data_type: PubDataType::Both,
        notify_info: NotifyInfo::new(String::new(), String::new()),
    };
    hub.publish(id.clone(), publisher, StreamHandler::Rtmp(gop)).unwrap();

    let sub = get_subscriber_info(Uuid::new());
    let sub_id = sub.id;
    hub.subscribe(&id, sub).unwrap();
    hub.relay_media(&id, &unit(MediaKind::Video { keyframe: false }, vec![12]))
        .unwrap();

    // The cached group of pictures comes first, then the live unit.
    assert_eq!(recv_payload(&mut hub, &id, sub_id), Some(vec![10]));
    assert_eq!(recv_payload(&mut hub, &id, sub_id), Some(vec![11]));
    assert_eq!(recv_payload(&mut hub, &id, sub_id), Some(vec![12]));
}

#[test]
fn test_process_event_dispatch() {
    let mut hub = StreamsHub::new(None);
    let id = live_stream_id();
    let reply = hub.process_event(StreamHubEvent::Publish {
        identifier: id.clone(),
        info: get_publisher_info(Uuid::new()),
        stream_handler: webrtc_handler(),
    });
    assert!(matches!(reply, HubReply::Publish(Ok(_))));

    let sub = get_subscriber_info(Uuid::new());
    let sub_info = get_subscriber_info(sub.id);
    let reply = hub.process_event(StreamHubEvent::Subscribe { identifier: id.clone(), info: sub });
    assert!(matches!(reply, HubReply::Subscribe(Ok(()))));

    let reply = hub.process_event(StreamHubEvent::UnSubscribe {
        identifier: id.clone(),
        info: sub_info,
    });
    assert!(matches!(reply, HubReply::UnSubscribe));

    let reply = hub.process_event(StreamHubEvent::UnPublish {
        identifier: id.clone(),
        info: get_publisher_info(Uuid::new()),
    });
    assert!(matches!(reply, HubReply::UnPublish));

    let reply = hub.process_event(StreamHubEvent::Subscribe {
        identifier: id,
        info: get_subscriber_info(Uuid::new()),
    });
    assert!(matches!(reply, HubReply::Subscribe(Err(StreamHubError::StreamNotFound))));
}

#[test]
fn test_streams_are_distinct_per_protocol() {
    let mut hub = StreamsHub::new(None);
    let rtmp_id = StreamIdentifier::rtmp("app".to_string(), "s".to_string());
    let webrtc_id = StreamIdentifier::webrtc("app".to_string(), "s".to_string());
    hub.publish(rtmp_id, get_publisher_info(Uuid::new()), webrtc_handler())
        .unwrap();
    // Same names under another protocol tag name a different stream.
    hub.publish(webrtc_id, get_publisher_info(Uuid::new()), webrtc_handler())
        .unwrap();
}

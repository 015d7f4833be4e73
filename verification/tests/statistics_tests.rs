use streamserver::define::{MediaKind, MediaUnit, SubscribeType};
use streamserver::handler::{StreamHandler, WebRTCStreamHandler};
use streamserver::hub::StreamsHub;
use streamserver::session::{get_publisher_info, get_subscriber_info};
use streamserver::statistics::{StatisticSubscriber, StatisticsStream};
use streamserver::{StreamIdentifier, Uuid};

fn stream_id() -> StreamIdentifier {
    StreamIdentifier::rtmp("live".to_string(), "a".to_string())
}

fn subscriber_stat(id: Uuid) -> StatisticSubscriber {
    StatisticSubscriber {
        id,
        start_time: 0,
        remote_address: String::new(),
        sub_type: SubscribeType::PlayerRtmp,
        send_bytes: 0,
        send_bitrate: 0,
        total_send_bytes: 0,
    }
}

#[test]
fn test_new_statistics_are_zeroed() {
    let st = StatisticsStream::new(stream_id());
    assert_eq!(st.subscriber_count, 0);
    assert_eq!(st.total_recv_bytes, 0);
    assert_eq!(st.total_send_bytes, 0);
    assert_eq!(st.publisher.recv_bytes, 0);
    assert_eq!(st.publisher.video.recv_bytes, 0);
    assert_eq!(st.publisher.audio.recv_bytes, 0);
    assert!(st.subscribers.is_empty());
}

#[test]
fn test_ten_second_window_bitrate() {
    // Exactly 10000 bytes over one 10-second window: 10000*8/10/1000 == 8
    // kbits/s, and the consumed accumulator is reset.
    let mut st = StatisticsStream::new(stream_id());
    st.publisher.recv_bytes = 10000;
    st.caculate(10);
    assert_eq!(st.publisher.recv_bitrate, 8);
    assert_eq!(st.publisher.recv_bytes, 0);
}

#[test]
fn test_caculate_derives_all_rates_and_resets() {
    let mut st = StatisticsStream::new(stream_id());
    st.publisher.video.recv_bytes = 125000;
    st.publisher.video.recv_frame_count = 300;
    st.publisher.audio.recv_bytes = 20000;
    st.publisher.recv_bytes = 145000;
    let sub_id = Uuid::new();
    let mut sub = subscriber_stat(sub_id);
    sub.send_bytes = 50000;
    sub.total_send_bytes = 50000;
    st.subscribers.push(sub);

    st.caculate(10);

    assert_eq!(st.publisher.video.bitrate, 100);
    assert_eq!(st.publisher.video.frame_rate, 30);
    assert_eq!(st.publisher.video.recv_bytes, 0);
    assert_eq!(st.publisher.video.recv_frame_count, 0);
    assert_eq!(st.publisher.audio.bitrate, 16);
    assert_eq!(st.publisher.audio.recv_bytes, 0);
    assert_eq!(st.publisher.recv_bitrate, 116);
    assert_eq!(st.publisher.recv_bytes, 0);
    assert_eq!(st.subscribers[0].send_bitrate, 40);
    assert_eq!(st.subscribers[0].send_bytes, 0);
    // Totals are not consumed by the tick.
    assert_eq!(st.subscribers[0].total_send_bytes, 50000);
}

#[test]
fn test_query_by_uuid_for_publisher_clears_subscribers() {
    let mut st = StatisticsStream::new(stream_id());
    let publisher_id = Uuid::new();
    st.publisher.id = publisher_id;
    st.subscribers.push(subscriber_stat(Uuid::new()));
    st.subscribers.push(subscriber_stat(Uuid::new()));
    st.subscriber_count = 2;

    let snap = st.query_by_uuid(publisher_id);
    assert!(snap.subscribers.is_empty());
    assert_eq!(snap.publisher.id, publisher_id);
    assert_eq!(snap.subscriber_count, 2);
}

#[test]
fn test_query_by_uuid_for_subscriber_narrows_to_it() {
    let mut st = StatisticsStream::new(stream_id());
    st.publisher.id = Uuid::new();
    let wanted = Uuid::new();
    st.subscribers.push(subscriber_stat(Uuid::new()));
    st.subscribers.push(subscriber_stat(wanted));
    st.subscribers.push(subscriber_stat(Uuid::new()));

    let snap = st.query_by_uuid(wanted);
    assert_eq!(snap.subscribers.len(), 1);
    assert_eq!(snap.subscribers[0].id, wanted);
}

#[test]
fn test_query_by_uuid_for_unknown_is_empty() {
    let mut st = StatisticsStream::new(stream_id());
    st.publisher.id = Uuid::new();
    st.subscribers.push(subscriber_stat(Uuid::new()));
    let snap = st.query_by_uuid(Uuid::new());
    assert!(snap.subscribers.is_empty());
}

#[test]
fn test_hub_accounts_relayed_traffic_and_aggregates() {
    let mut hub = StreamsHub::new(None);
    let id = StreamIdentifier::webrtc("live".to_string(), "a".to_string());
    let publisher_id = Uuid::new();
    hub.publish(
        id.clone(),
        get_publisher_info(publisher_id),
        StreamHandler::WebRtc(WebRTCStreamHandler::new()),
    )
    .unwrap();
    let sub = get_subscriber_info(Uuid::new());
    let sub_id = sub.id;
    hub.subscribe(&id, sub).unwrap();

    hub.relay_media(&id, &MediaUnit::new(MediaKind::Audio, vec![0u8; 10000]))
        .unwrap();

    let snap = hub.query_stream_statistics(&id, publisher_id).unwrap();
    assert_eq!(snap.publisher.recv_bytes, 10000);
    assert_eq!(snap.publisher.audio.recv_bytes, 10000);
    assert_eq!(snap.total_recv_bytes, 10000);
    assert_eq!(snap.total_send_bytes, 10000);

    hub.caculate_statistics(10);
    let snap = hub.query_stream_statistics(&id, publisher_id).unwrap();
    assert_eq!(snap.publisher.recv_bitrate, 8);
    assert_eq!(snap.publisher.audio.bitrate, 8);
    assert_eq!(snap.publisher.recv_bytes, 0);

    let snap = hub.query_stream_statistics(&id, sub_id).unwrap();
    assert_eq!(snap.subscribers.len(), 1);
    assert_eq!(snap.subscribers[0].id, sub_id);
    assert_eq!(snap.subscribers[0].send_bitrate, 8);
    assert_eq!(snap.subscribers[0].total_send_bytes, 10000);
}

#[test]
fn test_video_keyframes_track_gop() {
    let mut hub = StreamsHub::new(None);
    let id = StreamIdentifier::webrtc("live".to_string(), "v".to_string());
    let publisher_id = Uuid::new();
    hub.publish(
        id.clone(),
        get_publisher_info(publisher_id),
        StreamHandler::WebRtc(WebRTCStreamHandler::new()),
    )
    .unwrap();

    hub.relay_media(&id, &MediaUnit::new(MediaKind::Video { keyframe: true }, vec![1]))
        .unwrap();
    for _ in 0..29 {
        hub.relay_media(&id, &MediaUnit::new(MediaKind::Video { keyframe: false }, vec![2]))
            .unwrap();
    }
    hub.relay_media(&id, &MediaUnit::new(MediaKind::Video { keyframe: true }, vec![3]))
        .unwrap();

    let snap = hub.query_stream_statistics(&id, publisher_id).unwrap();
    // The closed group held the keyframe plus 29 following frames.
    assert_eq!(snap.publisher.video.gop, 30);
    assert_eq!(snap.publisher.video.recv_frame_count, 31);
}

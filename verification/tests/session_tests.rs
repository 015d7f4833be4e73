use streamserver::define::{PubDataType, PublishType, StreamHubError, SubDataType, SubscribeType};
use streamserver::hub::StreamHubEvent;
use streamserver::session::{
    get_publisher_info, get_subscriber_info, unpublish_whip, unsubscribe_whep,
};
use streamserver::{ProtocolKind, Uuid};

#[test]
fn test_publisher_and_subscriber_descriptors() {
    let id = Uuid::new();
    let publisher = get_publisher_info(id);
    assert_eq!(publisher.id, id);
    assert_eq!(publisher.pub_type, PublishType::PushWebRTC);
    assert_eq!(publisher.pub_data_type, PubDataType::Both);
    assert_eq!(publisher.notify_info.request_url, "");
    assert_eq!(publisher.notify_info.remote_addr, "");

    let subscriber = get_subscriber_info(id);
    assert_eq!(subscriber.id, id);
    assert_eq!(subscriber.sub_type, SubscribeType::PlayerWebrtc);
    assert_eq!(subscriber.sub_data_type, SubDataType::Packet);
}

#[test]
fn test_unpublish_whip_delivers_teardown_event() {
    let (sender, mut receiver) = tokio::sync::mpsc::unbounded_channel();
    let session_id = Uuid::new();
    let r = unpublish_whip(&sender, "live".to_string(), "a".to_string(), session_id);
    assert!(r.is_ok());
    match receiver.try_recv().unwrap() {
        StreamHubEvent::UnPublish { identifier, info } => {
            assert_eq!(identifier.protocol, ProtocolKind::WebRTC);
            assert_eq!(identifier.app_name, "live");
            assert_eq!(identifier.stream_name, "a");
            assert_eq!(info.id, session_id);
        }
        _ => panic!("expected an unpublish event"),
    }
}

#[test]
fn test_unsubscribe_whep_delivers_teardown_event() {
    let (sender, mut receiver) = tokio::sync::mpsc::unbounded_channel();
    let session_id = Uuid::new();
    let r = unsubscribe_whep(&sender, "live".to_string(), "a".to_string(), session_id);
    assert!(r.is_ok());
    match receiver.try_recv().unwrap() {
        StreamHubEvent::UnSubscribe { identifier, info } => {
            assert_eq!(identifier.app_name, "live");
            assert_eq!(identifier.stream_name, "a");
            assert_eq!(info.id, session_id);
        }
        _ => panic!("expected an unsubscribe event"),
    }
}

#[test]
fn test_teardown_fails_when_hub_is_gone() {
    let (sender, receiver) = tokio::sync::mpsc::unbounded_channel::<StreamHubEvent>();
    drop(receiver);
    let r = unpublish_whip(&sender, "live".to_string(), "a".to_string(), Uuid::new());
    assert_eq!(r.unwrap_err(), StreamHubError::HubEventSendErr);
    let r = unsubscribe_whep(&sender, "live".to_string(), "a".to_string(), Uuid::new());
    assert_eq!(r.unwrap_err(), StreamHubError::HubEventSendErr);
}

#[test]
fn test_webrtc_server_holds_its_configuration() {
    let (sender, _receiver) = tokio::sync::mpsc::unbounded_channel();
    let auth = streamserver::auth::SimpleTokenAuthenticator::new("123456".to_string());
    let server = streamserver::webrtc::WebRTCServer::new(
        "127.0.0.1:8081".to_string(),
        sender,
        Some(auth),
    );
    assert_eq!(server.address, "127.0.0.1:8081");
    assert!(server.auth.is_some());
}

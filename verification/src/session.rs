//! WebRTC (WHIP/WHEP) session helpers: the descriptors and events a session
//! hands the hub, and the fire-and-forget teardown submissions.

use vstd::prelude::*;
use crate::define::{
    NotifyInfo, PubDataType, PublishType, PublisherInfo, StreamHubError, SubDataType,
    SubscribeType, SubscriberInfo,
};
use crate::hub::StreamHubEvent;
use crate::identifier::{ProtocolKind, StreamIdentifier};
use crate::utils::Uuid;

verus! {

/// The control-plane channel the hub actor consumes events from.
#[verifier::external_type_specification]
#[verifier::external_body]
#[verifier::reject_recursive_types(T)]
pub struct ExUnboundedSender<T>(tokio::sync::mpsc::UnboundedSender<T>);

/// The send half every protocol adapter holds towards the hub actor.
pub type StreamHubEventSender = tokio::sync::mpsc::UnboundedSender<StreamHubEvent>;

/// Relies on `tokio::sync::mpsc::UnboundedSender::send`: queues the event
/// for the hub actor; whether it fails depends on whether the receiver is
/// still alive, so nothing is promised of the outcome.
#[verifier::external_body]
fn send_event(sender: &StreamHubEventSender, event: StreamHubEvent) -> bool {
    sender.send(event).is_ok()
}

/// The publisher descriptor a WHIP session presents: it pushes over WebRTC
/// and feeds both channel kinds.
pub fn get_publisher_info(session_id: Uuid) -> (r: PublisherInfo)
    ensures
        r@ == (session_id, PublishType::PushWebRTC, PubDataType::Both, (
            Seq::<char>::empty(),
            Seq::<char>::empty(),
        )),
{
    let r = PublisherInfo {
        id: session_id,
        pub_type: PublishType::PushWebRTC,
        pub_data_type: PubDataType::Both,
        notify_info: NotifyInfo { request_url: String::new(), remote_addr: String::new() },
    };
    proof {
        assert(r.notify_info@ =~= (Seq::<char>::empty(), Seq::<char>::empty()));
    }
    r
}

/// The subscriber descriptor a WHEP session presents: it plays over WebRTC
/// and consumes the packet channel.
pub fn get_subscriber_info(session_id: Uuid) -> (r: SubscriberInfo)
    ensures
        r@ == (session_id, SubscribeType::PlayerWebrtc, SubDataType::Packet, (
            Seq::<char>::empty(),
            Seq::<char>::empty(),
        )),
{
    let r = SubscriberInfo {
        id: session_id,
        sub_type: SubscribeType::PlayerWebrtc,
        sub_data_type: SubDataType::Packet,
        notify_info: NotifyInfo { request_url: String::new(), remote_addr: String::new() },
    };
    proof {
        assert(r.notify_info@ =~= (Seq::<char>::empty(), Seq::<char>::empty()));
    }
    r
}

/// The teardown event a WHIP session emits for its stream.
pub fn unpublish_event(app_name: String, stream_name: String, session_id: Uuid) -> (ev:
    StreamHubEvent)
    ensures
        ev matches StreamHubEvent::UnPublish { identifier, info } && identifier@ == (
            ProtocolKind::WebRTC,
            app_name@,
            stream_name@,
        ) && info@ == (session_id, PublishType::PushWebRTC, PubDataType::Both, (
            Seq::<char>::empty(),
            Seq::<char>::empty(),
        )),
{
    StreamHubEvent::UnPublish {
        identifier: StreamIdentifier::webrtc(app_name, stream_name),
        info: get_publisher_info(session_id),
    }
}

/// The teardown event a WHEP session emits for its subscription.
pub fn unsubscribe_event(app_name: String, stream_name: String, session_id: Uuid) -> (ev:
    StreamHubEvent)
    ensures
        ev matches StreamHubEvent::UnSubscribe { identifier, info } && identifier@ == (
            ProtocolKind::WebRTC,
            app_name@,
            stream_name@,
        ) && info@ == (session_id, SubscribeType::PlayerWebrtc, SubDataType::Packet, (
            Seq::<char>::empty(),
            Seq::<char>::empty(),
        )),
{
    StreamHubEvent::UnSubscribe {
        identifier: StreamIdentifier::webrtc(app_name, stream_name),
        info: get_subscriber_info(session_id),
    }
}

/// Submits the WHIP teardown for a published stream; fails only where the
/// hub actor is gone.
pub fn unpublish_whip(
    sender: &StreamHubEventSender,
    app_name: String,
    stream_name: String,
    session_id: Uuid,
) -> (r: Result<(), StreamHubError>)
    ensures
        r is Ok || r == Err::<(), StreamHubError>(StreamHubError::HubEventSendErr),
{
    let event = unpublish_event(app_name, stream_name, session_id);
    if send_event(sender, event) {
        Ok(())
    } else {
        Err(StreamHubError::HubEventSendErr)
    }
}

/// Submits the WHEP teardown for a subscription; fails only where the hub
/// actor is gone.
pub fn unsubscribe_whep(
    sender: &StreamHubEventSender,
    app_name: String,
    stream_name: String,
    session_id: Uuid,
) -> (r: Result<(), StreamHubError>)
    ensures
        r is Ok || r == Err::<(), StreamHubError>(StreamHubError::HubEventSendErr),
{
    let event = unsubscribe_event(app_name, stream_name, session_id);
    if send_event(sender, event) {
        Ok(())
    } else {
        Err(StreamHubError::HubEventSendErr)
    }
}

} // verus!

//! Session descriptors, media units and the hub's error kinds.

use vstd::prelude::*;
use crate::utils::Uuid;

verus! {

/// How a publisher pushes media into the hub.
#[derive(Clone, Copy, Debug, PartialEq, Eq, Structural)]
pub enum PublishType {
    PushRtmp,
    PushWebRTC,
    Relay,
}

/// How a subscriber pulls media out of the hub.
#[derive(Clone, Copy, Debug, PartialEq, Eq, Structural)]
pub enum SubscribeType {
    PlayerRtmp,
    PlayerWebrtc,
    PlayerHls,
    Relay,
}

/// Which data-channel kinds a publisher feeds.
#[derive(Clone, Copy, Debug, PartialEq, Eq, Structural)]
pub enum PubDataType {
    Frame,
    Packet,
    Both,
}

/// Which data-channel kind a subscriber consumes.
#[derive(Clone, Copy, Debug, PartialEq, Eq, Structural)]
pub enum SubDataType {
    Frame,
    Packet,
}

/// Static notification metadata carried by a session descriptor.
#[derive(Debug)]
pub struct NotifyInfo {
    pub request_url: String,
    pub remote_addr: String,
}

impl NotifyInfo {
    /// The mathematical value: both texts.
    pub open spec fn view(&self) -> (Seq<char>, Seq<char>) {
        (self.request_url@, self.remote_addr@)
    }

    pub fn new(request_url: String, remote_addr: String) -> (r: Self)
        ensures
            r@ == (request_url@, remote_addr@),
    {
        NotifyInfo { request_url, remote_addr }
    }
}

impl Clone for NotifyInfo {
    fn clone(&self) -> (r: Self)
        ensures
            r@ == self@,
    {
        NotifyInfo { request_url: self.request_url.clone(), remote_addr: self.remote_addr.clone() }
    }
}

/// Identity and capability metadata for one publish attempt.
#[derive(Debug)]
pub struct PublisherInfo {
    pub id: Uuid,
    pub pub_type: PublishType,
    pub pub_data_type: PubDataType,
    pub notify_info: NotifyInfo,
}

impl PublisherInfo {
    /// The mathematical value: identity, kinds and notification texts.
    pub open spec fn view(&self) -> (Uuid, PublishType, PubDataType, (Seq<char>, Seq<char>)) {
        (self.id, self.pub_type, self.pub_data_type, self.notify_info@)
    }
}

impl Clone for PublisherInfo {
    fn clone(&self) -> (r: Self)
        ensures
            r@ == self@,
    {
        PublisherInfo {
            id: self.id,
            pub_type: self.pub_type,
            pub_data_type: self.pub_data_type,
            notify_info: self.notify_info.clone(),
        }
    }
}

/// Identity and capability metadata for one subscribe attempt.
#[derive(Debug)]
pub struct SubscriberInfo {
    pub id: Uuid,
    pub sub_type: SubscribeType,
    pub sub_data_type: SubDataType,
    pub notify_info: NotifyInfo,
}

impl SubscriberInfo {
    /// The mathematical value: identity, kinds and notification texts.
    pub open spec fn view(&self) -> (Uuid, SubscribeType, SubDataType, (Seq<char>, Seq<char>)) {
        (self.id, self.sub_type, self.sub_data_type, self.notify_info@)
    }
}

impl Clone for SubscriberInfo {
    fn clone(&self) -> (r: Self)
        ensures
            r@ == self@,
    {
        SubscriberInfo {
            id: self.id,
            sub_type: self.sub_type,
            sub_data_type: self.sub_data_type,
            notify_info: self.notify_info.clone(),
        }
    }
}

/// Every way a hub request can fail.
#[derive(Clone, Copy, Debug, PartialEq, Eq, Structural)]
pub enum StreamHubError {
    /// Publish on an identifier that already has an attached publisher.
    DuplicatePublisher,
    /// Subscribe on an identifier with no attached publisher.
    StreamNotFound,
    /// Subscribe beyond the configured per-stream subscriber cap.
    SubscribeCountLimitReach,
    /// The hub's event channel is closed: the actor is gone.
    HubEventSendErr,
    /// The reply channel was dropped before an answer arrived.
    ReplyRecvErr,
    /// A data channel could not be built or served.
    SendDataErr,
    /// The publisher offers no channel of the kind the caller asked for.
    NoDataSender,
    /// The subscriber asked for a channel kind the publisher does not feed.
    NoDataReceiver,
}

/// The coarse kind of one media unit. The hub never interprets payloads; the
/// kind only routes statistics and marks keyframes for GOP accounting.
#[derive(Clone, Copy, Debug, PartialEq, Eq, Structural)]
pub enum MediaKind {
    Video { keyframe: bool },
    Audio,
    /// Codec configuration (parameter sets and the like).
    Config,
}

/// One opaque, ordered, framed blob relayed from a publisher to subscribers.
#[derive(Debug)]
pub struct MediaUnit {
    pub kind: MediaKind,
    pub payload: Vec<u8>,
}

impl MediaUnit {
    /// The mathematical value: the kind and the payload bytes.
    pub open spec fn view(&self) -> (MediaKind, Seq<u8>) {
        (self.kind, self.payload@)
    }

    pub fn new(kind: MediaKind, payload: Vec<u8>) -> (r: Self)
        ensures
            r@ == (kind, payload@),
    {
        MediaUnit { kind, payload }
    }
}

impl Clone for MediaUnit {
    fn clone(&self) -> (r: Self)
        ensures
            r@ == self@,
    {
        let payload = self.payload.clone();
        proof {
            assert(payload@ =~= self.payload@);
        }
        MediaUnit { kind: self.kind, payload }
    }
}

} // verus!

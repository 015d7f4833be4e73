//! Stream identity: a composite key naming one logical live stream.

use vstd::prelude::*;

verus! {

/// The protocol namespace a stream lives in. Two streams with equal names but
/// different protocol tags are distinct.
#[derive(Clone, Copy, Debug, PartialEq, Eq, Structural)]
pub enum ProtocolKind {
    Rtmp,
    WebRTC,
    Hls,
}

/// Immutable key naming a logical stream within a protocol namespace.
/// Equality is over all three fields.
#[derive(Debug)]
pub struct StreamIdentifier {
    pub protocol: ProtocolKind,
    pub app_name: String,
    pub stream_name: String,
}

impl StreamIdentifier {
    /// The mathematical value of an identifier: protocol tag plus both names
    /// as character sequences.
    pub open spec fn view(&self) -> (ProtocolKind, Seq<char>, Seq<char>) {
        (self.protocol, self.app_name@, self.stream_name@)
    }

    pub fn new(protocol: ProtocolKind, app_name: String, stream_name: String) -> (r: Self)
        ensures
            r.protocol == protocol,
            r.app_name@ == app_name@,
            r.stream_name@ == stream_name@,
    {
        StreamIdentifier { protocol, app_name, stream_name }
    }

    /// Key for a WebRTC (WHIP/WHEP) stream.
    pub fn webrtc(app_name: String, stream_name: String) -> (r: Self)
        ensures
            r.protocol == ProtocolKind::WebRTC,
            r.app_name@ == app_name@,
            r.stream_name@ == stream_name@,
    {
        StreamIdentifier { protocol: ProtocolKind::WebRTC, app_name, stream_name }
    }

    /// Key for an RTMP stream.
    pub fn rtmp(app_name: String, stream_name: String) -> (r: Self)
        ensures
            r.protocol == ProtocolKind::Rtmp,
            r.app_name@ == app_name@,
            r.stream_name@ == stream_name@,
    {
        StreamIdentifier { protocol: ProtocolKind::Rtmp, app_name, stream_name }
    }
}

impl Clone for StreamIdentifier {
    fn clone(&self) -> (r: Self)
        ensures
            r@ == self@,
    {
        StreamIdentifier {
            protocol: self.protocol,
            app_name: self.app_name.clone(),
            stream_name: self.stream_name.clone(),
        }
    }
}

impl PartialEq for StreamIdentifier {
    fn eq(&self, other: &StreamIdentifier) -> (r: bool)
        ensures
            r == (self@ == other@),
    {
        let tags_equal = match (self.protocol, other.protocol) {
            (ProtocolKind::Rtmp, ProtocolKind::Rtmp) => true,
            (ProtocolKind::WebRTC, ProtocolKind::WebRTC) => true,
            (ProtocolKind::Hls, ProtocolKind::Hls) => true,
            _ => false,
        };
        tags_equal && self.app_name == other.app_name && self.stream_name == other.stream_name
    }
}

impl vstd::std_specs::cmp::PartialEqSpecImpl for StreamIdentifier {
    open spec fn obeys_eq_spec() -> bool {
        true
    }

    open spec fn eq_spec(&self, other: &StreamIdentifier) -> bool {
        self@ == other@
    }
}

impl Eq for StreamIdentifier {}

} // verus!

//! The WebRTC server front: the address it listens on, the hub channel it
//! forwards events to and the authenticator it guards sessions with. The
//! HTTP transport around it lives with the runtime.

use vstd::prelude::*;
use crate::auth::Auth;
use crate::session::StreamHubEventSender;

verus! {

/// The WebRTC (WHIP/WHEP) ingest and playback server.
pub struct WebRTCServer<A: Auth> {
    pub address: String,
    pub event_producer: StreamHubEventSender,
    pub auth: Option<A>,
}

impl<A: Auth> WebRTCServer<A> {
    pub fn new(address: String, event_producer: StreamHubEventSender, auth: Option<A>) -> (r:
        Self)
        ensures
            r.address@ == address@,
            r.event_producer == event_producer,
            r.auth == auth,
    {
        WebRTCServer { address, event_producer, auth }
    }
}

} // verus!

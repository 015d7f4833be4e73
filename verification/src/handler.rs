//! Protocol-specific stream handlers: the codec state an ingest keeps so a
//! late joiner can catch up before live relay begins. The protocol set is
//! fixed, so the capability is a tagged union matched exhaustively.

use vstd::prelude::*;
use crate::define::{MediaKind, MediaUnit, SubscribeType};
use crate::statistics::StatisticsStream;

verus! {

/// Mathematical value of a stream handler.
#[verifier::ext_equal]
pub enum StreamHandlerView {
    WebRtc { sps: Seq<u8>, pps: Seq<u8> },
    Rtmp { gop: Seq<(MediaKind, Seq<u8>)> },
}

/// What a handler replays to a newly joined subscriber before live units.
pub open spec fn spec_prior_units(
    h: StreamHandlerView,
    sub_type: SubscribeType,
) -> Seq<(MediaKind, Seq<u8>)> {
    match h {
        // WebRTC parameter sets travel in-band; nothing is replayed.
        StreamHandlerView::WebRtc { .. } => Seq::empty(),
        // RTMP replays the cached group of pictures.
        StreamHandlerView::Rtmp { gop } => gop,
    }
}

/// Codec state of a WebRTC ingest: cached H.264 parameter sets.
#[derive(Debug)]
pub struct WebRTCStreamHandler {
    pub sps: Vec<u8>,
    pub pps: Vec<u8>,
}

impl WebRTCStreamHandler {
    pub open spec fn view(&self) -> StreamHandlerView {
        StreamHandlerView::WebRtc { sps: self.sps@, pps: self.pps@ }
    }

    pub fn new() -> (r: Self)
        ensures
            r@ == (StreamHandlerView::WebRtc { sps: Seq::<u8>::empty(), pps: Seq::<u8>::empty() }),
    {
        let r = WebRTCStreamHandler { sps: Vec::new(), pps: Vec::new() };
        proof {
            assert(r@ =~= StreamHandlerView::WebRtc {
                sps: Seq::<u8>::empty(),
                pps: Seq::<u8>::empty(),
            });
        }
        r
    }

    /// Replaces the cached sequence parameter set.
    pub fn set_sps(&mut self, sps: Vec<u8>)
        ensures
            final(self)@ == (StreamHandlerView::WebRtc { sps: sps@, pps: old(self)@->pps }),
    {
        self.sps = sps;
    }

    /// Replaces the cached picture parameter set.
    pub fn set_pps(&mut self, pps: Vec<u8>)
        ensures
            final(self)@ == (StreamHandlerView::WebRtc { sps: old(self)@->sps, pps: pps@ }),
    {
        self.pps = pps;
    }
}

/// Codec state of an RTMP ingest: the group of pictures since the last
/// keyframe, replayed to each new subscriber.
#[derive(Debug)]
pub struct RtmpStreamHandler {
    pub gop_cache: Vec<MediaUnit>,
}

impl RtmpStreamHandler {
    pub open spec fn view(&self) -> StreamHandlerView {
        StreamHandlerView::Rtmp { gop: self.gop_cache@.map_values(|u: MediaUnit| u@) }
    }

    pub fn new() -> (r: Self)
        ensures
            r@ == (StreamHandlerView::Rtmp { gop: Seq::<(MediaKind, Seq<u8>)>::empty() }),
    {
        let r = RtmpStreamHandler { gop_cache: Vec::new() };
        proof {
            assert(r@ =~= StreamHandlerView::Rtmp {
                gop: Seq::<(MediaKind, Seq<u8>)>::empty(),
            });
        }
        r
    }

    /// Feeds one relayed unit through the cache: a keyframe starts a new
    /// group of pictures, every other unit extends the current one.
    pub fn cache_unit(&mut self, unit: MediaUnit)
        ensures
            (unit.kind matches MediaKind::Video { keyframe: true }) ==> final(self)@ == (
            StreamHandlerView::Rtmp { gop: seq![unit@] }),
            !(unit.kind matches MediaKind::Video { keyframe: true }) ==> final(self)@ == (
            StreamHandlerView::Rtmp {
                gop: spec_prior_units(old(self)@, SubscribeType::PlayerRtmp).push(unit@),
            }),
    {
        let is_key = match unit.kind {
            MediaKind::Video { keyframe } => keyframe,
            _ => false,
        };
        if is_key {
            self.gop_cache = Vec::new();
        }
        let ghost before = self.gop_cache@.map_values(|u: MediaUnit| u@);
        self.gop_cache.push(unit);
        proof {
            assert(self.gop_cache@.map_values(|u: MediaUnit| u@) =~= before.push(
                self.gop_cache@.last()@,
            ));
        }
    }
}

/// The pluggable per-protocol capability attached to a publisher.
#[derive(Debug)]
pub enum StreamHandler {
    WebRtc(WebRTCStreamHandler),
    Rtmp(RtmpStreamHandler),
}

impl StreamHandler {
    pub open spec fn view(&self) -> StreamHandlerView {
        match self {
            StreamHandler::WebRtc(h) => h@,
            StreamHandler::Rtmp(h) => h@,
        }
    }

    /// The units a newly joined subscriber must receive ahead of live data.
    pub fn prior_units(&self, sub_type: SubscribeType) -> (r: Vec<MediaUnit>)
        ensures
            r@.map_values(|u: MediaUnit| u@) == spec_prior_units(self@, sub_type),
    {
        match self {
            StreamHandler::WebRtc(_) => {
                let r = Vec::<MediaUnit>::new();
                proof {
                    assert(r@.map_values(|u: MediaUnit| u@) =~= spec_prior_units(self@, sub_type));
                }
                r
            },
            StreamHandler::Rtmp(h) => {
                let r = h.gop_cache.clone();
                proof {
                    assert(r@.map_values(|u: MediaUnit| u@) =~= spec_prior_units(self@, sub_type));
                }
                r
            },
        }
    }

    /// Codec-level statistics a handler can merge into a stream's snapshot;
    /// neither handler kind carries any.
    pub fn get_statistic_data(&self) -> (r: Option<StatisticsStream>)
        ensures
            r is None,
    {
        None
    }
}

} // verus!

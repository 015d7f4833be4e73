//! Per-stream traffic statistics: raw accumulators bumped on the hot path and
//! derived rates recomputed on each aggregation tick.

use vstd::prelude::*;
use vstd::arithmetic::div_mod::{lemma_div_is_ordered, lemma_div_is_ordered_by_denominator};
use crate::define::SubscribeType;
use crate::identifier::{ProtocolKind, StreamIdentifier};
use crate::utils::Uuid;

verus! {

/// Derived kbits-per-second over an aggregation window, truncating as the
/// integer divisions do: `bytes * 8 / seconds / 1000`.
pub open spec fn kbits_per_sec(bytes: u64, seconds: u64) -> u64
    recommends
        seconds >= 1,
{
    ((bytes * 8) / (seconds as int) / 1000) as u64
}

/// Computes `kbits_per_sec` without overflow by widening to 128 bits.
fn compute_kbits_per_sec(bytes: u64, seconds: u64) -> (r: u64)
    requires
        seconds >= 1,
    ensures
        r == kbits_per_sec(bytes, seconds),
{
    let wide: u128 = ((bytes as u128) * 8) / (seconds as u128) / 1000;
    proof {
        assert((bytes as int * 8) / (seconds as int) <= bytes as int * 8) by {
            lemma_div_is_ordered_by_denominator(bytes as int * 8, 1, seconds as int);
        }
        lemma_div_is_ordered((bytes as int * 8) / (seconds as int), bytes as int * 8, 1000);
        lemma_div_is_ordered(bytes as int * 8, u64::MAX as int * 8, 1000);
    }
    wide as u64
}

/// Video-side counters of one publisher. Codec identity is carried opaquely
/// as the code numbers found in the stream's configuration records.
#[derive(Clone, Copy, Debug, PartialEq, Eq, Structural)]
pub struct VideoInfo {
    pub codec: u8,
    pub profile: u8,
    pub level: u8,
    pub width: u32,
    pub height: u32,
    /// Raw accumulator consumed by each aggregation tick.
    pub recv_bytes: u64,
    pub bitrate: u64,
    /// Raw accumulator consumed by each aggregation tick.
    pub recv_frame_count: u64,
    pub frame_rate: u64,
    /// Frames seen since the last keyframe.
    pub recv_frame_count_for_gop: u64,
    pub gop: u64,
}

/// Zeroed video counters.
pub open spec fn zero_video() -> VideoInfo {
    VideoInfo {
        codec: 0,
        profile: 0,
        level: 0,
        width: 0,
        height: 0,
        recv_bytes: 0,
        bitrate: 0,
        recv_frame_count: 0,
        frame_rate: 0,
        recv_frame_count_for_gop: 0,
        gop: 0,
    }
}

impl VideoInfo {
    pub fn new() -> (r: Self)
        ensures
            r == zero_video(),
    {
        VideoInfo {
            codec: 0,
            profile: 0,
            level: 0,
            width: 0,
            height: 0,
            recv_bytes: 0,
            bitrate: 0,
            recv_frame_count: 0,
            frame_rate: 0,
            recv_frame_count_for_gop: 0,
            gop: 0,
        }
    }
}

/// Audio-side counters of one publisher.
#[derive(Clone, Copy, Debug, PartialEq, Eq, Structural)]
pub struct AudioInfo {
    pub sound_format: u8,
    pub profile: u8,
    pub samplerate: u32,
    pub channels: u8,
    /// Raw accumulator consumed by each aggregation tick.
    pub recv_bytes: u64,
    pub bitrate: u64,
}

/// Zeroed audio counters.
pub open spec fn zero_audio() -> AudioInfo {
    AudioInfo { sound_format: 0, profile: 0, samplerate: 0, channels: 0, recv_bytes: 0, bitrate: 0 }
}

impl AudioInfo {
    pub fn new() -> (r: Self)
        ensures
            r == zero_audio(),
    {
        AudioInfo { sound_format: 0, profile: 0, samplerate: 0, channels: 0, recv_bytes: 0, bitrate: 0 }
    }
}

/// Mathematical value of a publisher's statistics.
#[verifier::ext_equal]
pub struct StatisticPublisherView {
    pub id: Uuid,
    pub identifier: (ProtocolKind, Seq<char>, Seq<char>),
    pub start_time: i64,
    pub video: VideoInfo,
    pub audio: AudioInfo,
    pub remote_address: Seq<char>,
    pub recv_bytes: u64,
    pub recv_bitrate: u64,
}

/// The zeroed statistics a publisher starts with.
pub open spec fn fresh_publisher_stats(
    identifier: (ProtocolKind, Seq<char>, Seq<char>),
) -> StatisticPublisherView {
    StatisticPublisherView {
        id: Uuid::spec_nil(),
        identifier,
        start_time: 0,
        video: zero_video(),
        audio: zero_audio(),
        remote_address: Seq::<char>::empty(),
        recv_bytes: 0,
        recv_bitrate: 0,
    }
}

/// The receive-side counters of one stream's publisher.
#[derive(Debug)]
pub struct StatisticPublisher {
    pub id: Uuid,
    pub identifier: StreamIdentifier,
    /// Milliseconds since the Unix epoch when the publisher attached.
    pub start_time: i64,
    pub video: VideoInfo,
    pub audio: AudioInfo,
    pub remote_address: String,
    /// Raw accumulator consumed by each aggregation tick.
    pub recv_bytes: u64,
    pub recv_bitrate: u64,
}

impl StatisticPublisher {
    pub open spec fn view(&self) -> StatisticPublisherView {
        StatisticPublisherView {
            id: self.id,
            identifier: self.identifier@,
            start_time: self.start_time,
            video: self.video,
            audio: self.audio,
            remote_address: self.remote_address@,
            recv_bytes: self.recv_bytes,
            recv_bitrate: self.recv_bitrate,
        }
    }

    /// Zeroed counters for a freshly published stream.
    pub fn new(identifier: StreamIdentifier) -> (r: Self)
        ensures
            r@ == fresh_publisher_stats(identifier@),
    {
        let r = StatisticPublisher {
            id: Uuid::nil(),
            identifier,
            start_time: 0,
            video: VideoInfo::new(),
            audio: AudioInfo::new(),
            remote_address: String::new(),
            recv_bytes: 0,
            recv_bitrate: 0,
        };
        proof {
            assert(r@ =~= fresh_publisher_stats(identifier@));
        }
        r
    }
}

impl Clone for StatisticPublisher {
    fn clone(&self) -> (r: Self)
        ensures
            r@ == self@,
    {
        StatisticPublisher {
            id: self.id,
            identifier: self.identifier.clone(),
            start_time: self.start_time,
            video: self.video,
            audio: self.audio,
            remote_address: self.remote_address.clone(),
            recv_bytes: self.recv_bytes,
            recv_bitrate: self.recv_bitrate,
        }
    }
}

/// Mathematical value of a subscriber's statistics.
#[verifier::ext_equal]
pub struct StatisticSubscriberView {
    pub id: Uuid,
    pub start_time: i64,
    pub remote_address: Seq<char>,
    pub sub_type: SubscribeType,
    pub send_bytes: u64,
    pub send_bitrate: u64,
    pub total_send_bytes: u64,
}

/// The send-side counters of one subscriber.
#[derive(Debug)]
pub struct StatisticSubscriber {
    pub id: Uuid,
    /// Milliseconds since the Unix epoch when the subscriber attached.
    pub start_time: i64,
    pub remote_address: String,
    pub sub_type: SubscribeType,
    /// Raw accumulator consumed by each aggregation tick.
    pub send_bytes: u64,
    pub send_bitrate: u64,
    pub total_send_bytes: u64,
}

impl StatisticSubscriber {
    pub open spec fn view(&self) -> StatisticSubscriberView {
        StatisticSubscriberView {
            id: self.id,
            start_time: self.start_time,
            remote_address: self.remote_address@,
            sub_type: self.sub_type,
            send_bytes: self.send_bytes,
            send_bitrate: self.send_bitrate,
            total_send_bytes: self.total_send_bytes,
        }
    }
}

impl Clone for StatisticSubscriber {
    fn clone(&self) -> (r: Self)
        ensures
            r@ == self@,
    {
        StatisticSubscriber {
            id: self.id,
            start_time: self.start_time,
            remote_address: self.remote_address.clone(),
            sub_type: self.sub_type,
            send_bytes: self.send_bytes,
            send_bitrate: self.send_bitrate,
            total_send_bytes: self.total_send_bytes,
        }
    }
}

/// Mathematical value of one stream's statistics.
#[verifier::ext_equal]
pub struct StatisticsStreamView {
    pub publisher: StatisticPublisherView,
    pub subscribers: Seq<StatisticSubscriberView>,
    pub subscriber_count: u64,
    pub total_recv_bytes: u64,
    pub total_send_bytes: u64,
}

/// What one aggregation tick over a `seconds`-long window does to the video
/// counters: derive the rates, reset the consumed accumulators, keep the rest.
pub open spec fn aggregate_video(v: VideoInfo, seconds: u64) -> VideoInfo {
    VideoInfo {
        bitrate: kbits_per_sec(v.recv_bytes, seconds),
        recv_bytes: 0,
        frame_rate: (v.recv_frame_count / seconds) as u64,
        recv_frame_count: 0,
        ..v
    }
}

/// One aggregation tick over the audio counters.
pub open spec fn aggregate_audio(a: AudioInfo, seconds: u64) -> AudioInfo {
    AudioInfo { bitrate: kbits_per_sec(a.recv_bytes, seconds), recv_bytes: 0, ..a }
}

/// One aggregation tick over a publisher's counters.
pub open spec fn aggregate_publisher(
    p: StatisticPublisherView,
    seconds: u64,
) -> StatisticPublisherView {
    StatisticPublisherView {
        video: aggregate_video(p.video, seconds),
        audio: aggregate_audio(p.audio, seconds),
        recv_bitrate: kbits_per_sec(p.recv_bytes, seconds),
        recv_bytes: 0,
        ..p
    }
}

/// One aggregation tick over a subscriber's counters.
pub open spec fn aggregate_subscriber(
    s: StatisticSubscriberView,
    seconds: u64,
) -> StatisticSubscriberView {
    StatisticSubscriberView {
        send_bitrate: kbits_per_sec(s.send_bytes, seconds),
        send_bytes: 0,
        ..s
    }
}

/// One aggregation tick over a whole stream's statistics.
pub open spec fn aggregate_stats(v: StatisticsStreamView, seconds: u64) -> StatisticsStreamView {
    StatisticsStreamView {
        publisher: aggregate_publisher(v.publisher, seconds),
        subscribers: v.subscribers.map_values(
            |s: StatisticSubscriberView| aggregate_subscriber(s, seconds),
        ),
        ..v
    }
}

/// The subscriber entries whose identity is `uuid`.
pub open spec fn stats_for_id(
    subs: Seq<StatisticSubscriberView>,
    uuid: Uuid,
) -> Seq<StatisticSubscriberView> {
    subs.filter(|s: StatisticSubscriberView| s.id == uuid)
}

/// All statistics of one live stream: the publisher's receive side and every
/// subscriber's send side.
#[derive(Debug)]
pub struct StatisticsStream {
    pub publisher: StatisticPublisher,
    pub subscribers: Vec<StatisticSubscriber>,
    pub subscriber_count: u64,
    pub total_recv_bytes: u64,
    pub total_send_bytes: u64,
}

impl StatisticsStream {
    pub open spec fn view(&self) -> StatisticsStreamView {
        StatisticsStreamView {
            publisher: self.publisher@,
            subscribers: self.subscribers@.map_values(|s: StatisticSubscriber| s@),
            subscriber_count: self.subscriber_count,
            total_recv_bytes: self.total_recv_bytes,
            total_send_bytes: self.total_send_bytes,
        }
    }

    /// Fresh statistics for a newly published stream: zeroed counters, no
    /// subscribers.
    pub fn new(identifier: StreamIdentifier) -> (r: Self)
        ensures
            r@.publisher == fresh_publisher_stats(identifier@),
            r@.subscribers == Seq::<StatisticSubscriberView>::empty(),
            r@.subscriber_count == 0,
            r@.total_recv_bytes == 0,
            r@.total_send_bytes == 0,
    {
        let r = StatisticsStream {
            publisher: StatisticPublisher::new(identifier),
            subscribers: Vec::new(),
            subscriber_count: 0,
            total_recv_bytes: 0,
            total_send_bytes: 0,
        };
        proof {
            assert(r@.subscribers =~= Seq::<StatisticSubscriberView>::empty());
        }
        r
    }
}


impl Clone for StatisticsStream {
    fn clone(&self) -> (r: Self)
        ensures
            r@ == self@,
    {
        let subscribers = self.subscribers.clone();
        let r = StatisticsStream {
            publisher: self.publisher.clone(),
            subscribers,
            subscriber_count: self.subscriber_count,
            total_recv_bytes: self.total_recv_bytes,
            total_send_bytes: self.total_send_bytes,
        };
        proof {
            assert(r@ =~= self@);
        }
        r
    }
}

impl StatisticsStream {
    /// One aggregation tick: derive every bitrate and frame rate over a
    /// window of `seconds`, then reset the consumed raw accumulators.
    pub fn caculate(&mut self, seconds: u64)
        requires
            seconds >= 1,
        ensures
            final(self)@ == aggregate_stats(old(self)@, seconds),
    {
        self.publisher.video.bitrate = compute_kbits_per_sec(
            self.publisher.video.recv_bytes,
            seconds,
        );
        self.publisher.video.recv_bytes = 0;
        self.publisher.video.frame_rate = self.publisher.video.recv_frame_count / seconds;
        self.publisher.video.recv_frame_count = 0;
        self.publisher.audio.bitrate = compute_kbits_per_sec(
            self.publisher.audio.recv_bytes,
            seconds,
        );
        self.publisher.audio.recv_bytes = 0;
        self.publisher.recv_bitrate = compute_kbits_per_sec(self.publisher.recv_bytes, seconds);
        self.publisher.recv_bytes = 0;
        let n = self.subscribers.len();
        let mut k: usize = 0;
        while k < n
            invariant
                k <= n,
                n == self.subscribers.len(),
                n == old(self).subscribers.len(),
                seconds >= 1,
                self.publisher@ == aggregate_publisher(old(self).publisher@, seconds),
                self.subscriber_count == old(self).subscriber_count,
                self.total_recv_bytes == old(self).total_recv_bytes,
                self.total_send_bytes == old(self).total_send_bytes,
                forall|j: int|
                    0 <= j < k ==> self.subscribers@[j]@ == aggregate_subscriber(
                        old(self).subscribers@[j]@,
                        seconds,
                    ),
                forall|j: int| k <= j < n ==> self.subscribers@[j] == old(self).subscribers@[j],
            decreases n - k,
        {
            let rate = compute_kbits_per_sec(self.subscribers[k].send_bytes, seconds);
            self.subscribers[k].send_bitrate = rate;
            self.subscribers[k].send_bytes = 0;
            k = k + 1;
        }
        proof {
            assert(final(self)@ =~= aggregate_stats(old(self)@, seconds));
        }
    }

    /// The snapshot handed out for the publisher: everything but the
    /// subscriber entries.
    fn get_publisher(&self) -> (r: StatisticsStream)
        ensures
            r@ == (StatisticsStreamView {
                subscribers: Seq::<StatisticSubscriberView>::empty(),
                ..self@
            }),
    {
        let mut r = self.clone();
        r.subscribers = Vec::new();
        proof {
            assert(r@ =~= StatisticsStreamView {
                subscribers: Seq::<StatisticSubscriberView>::empty(),
                ..self@
            });
        }
        r
    }

    /// The snapshot handed out for one subscriber: the subscriber entries
    /// narrowed to that identity.
    fn get_subscriber(&self, uuid: Uuid) -> (r: StatisticsStream)
        ensures
            r@ == (StatisticsStreamView {
                subscribers: stats_for_id(self@.subscribers, uuid),
                ..self@
            }),
    {
        let mut kept: Vec<StatisticSubscriber> = Vec::new();
        let n = self.subscribers.len();
        let mut k: usize = 0;
        proof {
            assert(kept@.map_values(|s: StatisticSubscriber| s@) =~= stats_for_id(
                self@.subscribers.subrange(0, 0),
                uuid,
            )) by {
                reveal(Seq::filter);
                assert(self@.subscribers.subrange(0, 0) =~= Seq::<StatisticSubscriberView>::empty());
            }
        }
        while k < n
            invariant
                k <= n,
                n == self.subscribers.len(),
                kept@.map_values(|s: StatisticSubscriber| s@) == stats_for_id(
                    self@.subscribers.subrange(0, k as int),
                    uuid,
                ),
            decreases n - k,
        {
            let ghost prefix = self@.subscribers.subrange(0, k as int);
            let ghost xv = self@.subscribers[k as int];
            if self.subscribers[k].id == uuid {
                kept.push(self.subscribers[k].clone());
            }
            proof {
                assert(self@.subscribers.subrange(0, k + 1) =~= prefix.push(xv));
                assert(prefix.push(xv).drop_last() =~= prefix);
                reveal(Seq::filter);
                if xv.id == uuid {
                    assert(kept@.map_values(|s: StatisticSubscriber| s@) =~= stats_for_id(
                        prefix,
                        uuid,
                    ).push(xv));
                } else {
                    assert(kept@.map_values(|s: StatisticSubscriber| s@) == stats_for_id(
                        prefix,
                        uuid,
                    ));
                }
            }
            k = k + 1;
        }
        let mut r = self.clone();
        r.subscribers = kept;
        proof {
            assert(self@.subscribers.subrange(0, n as int) =~= self@.subscribers);
            assert(r@ =~= StatisticsStreamView {
                subscribers: stats_for_id(self@.subscribers, uuid),
                ..self@
            });
        }
        r
    }

    /// A filtered point-in-time snapshot: for the publisher's identity a
    /// snapshot with no subscriber entries, otherwise one whose subscriber
    /// entries are narrowed to exactly the asked identity (none where it is
    /// unknown).
    pub fn query_by_uuid(&self, uuid: Uuid) -> (r: StatisticsStream)
        ensures
            uuid == self.publisher.id ==> r@ == (StatisticsStreamView {
                subscribers: Seq::<StatisticSubscriberView>::empty(),
                ..self@
            }),
            uuid != self.publisher.id ==> r@ == (StatisticsStreamView {
                subscribers: stats_for_id(self@.subscribers, uuid),
                ..self@
            }),
    {
        if uuid == self.publisher.id {
            self.get_publisher()
        } else {
            self.get_subscriber(uuid)
        }
    }
}


} // verus!

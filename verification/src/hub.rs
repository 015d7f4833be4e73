//! The stream hub: the pub/sub broker matching publishers to subscribers by
//! stream identity. It owns the routing table, serializes every topology
//! change, fans media units out to subscribers and keeps per-stream traffic
//! statistics. The surrounding runtime drives it one event at a time, so all
//! topology mutations are linearized.

use vstd::prelude::*;
use crate::channel::{MediaQueue, RecvOutcome, SendOutcome};
use crate::define::{
    MediaKind, MediaUnit, PubDataType, PublishType, PublisherInfo, StreamHubError, SubDataType,
    SubscribeType, SubscriberInfo,
};
use crate::handler::{spec_prior_units, StreamHandler, StreamHandlerView};
use crate::identifier::{ProtocolKind, StreamIdentifier};
use crate::statistics::{
    fresh_publisher_stats, StatisticPublisherView, StatisticSubscriber, StatisticSubscriberView,
    StatisticsStream, StatisticsStreamView,
};
use crate::utils::Uuid;

verus! {

/// How many live units a subscriber channel buffers before the relay starts
/// dropping towards that subscriber.
pub const DEFAULT_CHANNEL_CAPACITY: usize = 128;

/// The channel kinds created for a publisher, matching its data type.
#[derive(Clone, Copy, Debug, PartialEq, Eq, Structural)]
pub struct DataSenderKinds {
    pub frame: bool,
    pub packet: bool,
}

/// The channel kinds owed to a publisher of the given capability.
pub open spec fn data_sender_kinds(t: PubDataType) -> DataSenderKinds {
    DataSenderKinds {
        frame: t == PubDataType::Frame || t == PubDataType::Both,
        packet: t == PubDataType::Packet || t == PubDataType::Both,
    }
}

/// Whether a publisher of capability `p` feeds the channel kind a subscriber
/// of capability `s` consumes.
pub open spec fn data_type_served(p: PubDataType, s: SubDataType) -> bool {
    match p {
        PubDataType::Both => true,
        PubDataType::Frame => s == SubDataType::Frame,
        PubDataType::Packet => s == SubDataType::Packet,
    }
}

/// Mathematical value of one attached subscriber: its descriptor and the
/// state of its outbound channel.
#[verifier::ext_equal]
pub struct StreamSubscriberView {
    pub info: (Uuid, SubscribeType, SubDataType, (Seq<char>, Seq<char>)),
    pub channel: Seq<(MediaKind, Seq<u8>)>,
    pub channel_closed: bool,
    pub channel_cap: usize,
}

/// One attached subscriber: its descriptor and the send side of its channel.
#[derive(Debug)]
pub struct StreamSubscriber {
    pub info: SubscriberInfo,
    pub queue: MediaQueue,
}

impl StreamSubscriber {
    pub open spec fn view(&self) -> StreamSubscriberView {
        StreamSubscriberView {
            info: self.info@,
            channel: self.queue.contents(),
            channel_closed: self.queue.is_closed(),
            channel_cap: self.queue.cap(),
        }
    }
}

/// Mathematical value of one live stream.
#[verifier::ext_equal]
pub struct StreamView {
    pub identifier: (ProtocolKind, Seq<char>, Seq<char>),
    pub publisher: (Uuid, PublishType, PubDataType, (Seq<char>, Seq<char>)),
    pub handler: StreamHandlerView,
    pub subscribers: Seq<StreamSubscriberView>,
    pub statistics: StatisticsStreamView,
}

/// One live stream: exactly one publisher, any number of subscribers, shared
/// statistics. A stream exists in the table iff a publisher is attached.
#[derive(Debug)]
pub struct Stream {
    pub identifier: StreamIdentifier,
    pub publisher: PublisherInfo,
    pub handler: StreamHandler,
    pub subscribers: Vec<StreamSubscriber>,
    pub statistics: StatisticsStream,
}

impl Stream {
    pub open spec fn view(&self) -> StreamView {
        StreamView {
            identifier: self.identifier@,
            publisher: self.publisher@,
            handler: self.handler@,
            subscribers: self.subscribers@.map_values(|s: StreamSubscriber| s@),
            statistics: self.statistics@,
        }
    }
}

/// Internal consistency of one stream: subscriber identities are unique, and
/// the statistics mirror the subscriber entries one for one.
pub open spec fn stream_wf(s: StreamView) -> bool {
    &&& forall|a: int, b: int|
        0 <= a < b < s.subscribers.len() ==> (#[trigger] s.subscribers[a]).info.0 != (
        #[trigger] s.subscribers[b]).info.0
    &&& s.statistics.subscribers.len() == s.subscribers.len()
    &&& forall|a: int|
        0 <= a < s.subscribers.len() ==> (#[trigger] s.statistics.subscribers[a]).id
            == s.subscribers[a].info.0
    &&& s.statistics.subscriber_count == s.subscribers.len()
    &&& s.statistics.publisher.id == s.publisher.0
    &&& s.statistics.publisher.identifier == s.identifier
}

/// Whether `id` names one of `s`'s subscribers.
pub open spec fn stream_has_subscriber(s: StreamView, id: Uuid) -> bool {
    exists|j: int| 0 <= j < s.subscribers.len() && (#[trigger] s.subscribers[j]).info.0 == id
}

/// The index of `id` among `s`'s subscribers; meaningful under `stream_wf`
/// and `stream_has_subscriber`.
pub open spec fn stream_subscriber_index(s: StreamView, id: Uuid) -> int {
    choose|j: int| 0 <= j < s.subscribers.len() && (#[trigger] s.subscribers[j]).info.0 == id
}

/// Subscriber identities within a stream are unique: any index holding `id`
/// is the subscriber's index.
pub proof fn lemma_subscriber_index_is(s: StreamView, j: int)
    requires
        stream_wf(s),
        0 <= j < s.subscribers.len(),
    ensures
        stream_has_subscriber(s, s.subscribers[j].info.0),
        stream_subscriber_index(s, s.subscribers[j].info.0) == j,
{
    let id = s.subscribers[j].info.0;
    assert(stream_has_subscriber(s, id));
    let c = stream_subscriber_index(s, id);
    if c < j {
        assert(s.subscribers[c].info.0 != s.subscribers[j].info.0);
    } else if c > j {
        assert(s.subscribers[j].info.0 != s.subscribers[c].info.0);
    }
}

/// A parked channel of a detached subscriber: its identity, what is left to
/// drain, and whether it is closed (it always is).
pub type ClosedChannelView = (Uuid, Seq<(MediaKind, Seq<u8>)>, bool);

/// Mathematical value of the whole hub.
#[verifier::ext_equal]
pub struct StreamsHubView {
    pub streams: Seq<StreamView>,
    /// Channels of detached subscribers, kept until their reader drains them.
    pub closed_channels: Seq<ClosedChannelView>,
    pub subscribe_limit: Option<usize>,
    pub channel_capacity: usize,
}

/// Whether a parked channel for `id` exists.
pub open spec fn has_closed_channel(cs: Seq<ClosedChannelView>, id: Uuid) -> bool {
    exists|m: int| 0 <= m < cs.len() && (#[trigger] cs[m]).0 == id
}

/// The first parked channel for `id`: the index a reader's lookup finds.
pub open spec fn first_closed_channel(cs: Seq<ClosedChannelView>, id: Uuid) -> int {
    choose|m: int|
        0 <= m < cs.len() && (#[trigger] cs[m]).0 == id && forall|k: int|
            0 <= k < m ==> (#[trigger] cs[k]).0 != id
}

/// A first match is unique, so any witness for it is the chosen one.
pub proof fn lemma_first_closed_channel_is(cs: Seq<ClosedChannelView>, id: Uuid, m: int)
    requires
        0 <= m < cs.len(),
        cs[m].0 == id,
        forall|k: int| 0 <= k < m ==> (#[trigger] cs[k]).0 != id,
    ensures
        has_closed_channel(cs, id),
        first_closed_channel(cs, id) == m,
{
    assert(has_closed_channel(cs, id));
    let c = first_closed_channel(cs, id);
    assert(0 <= c < cs.len() && cs[c].0 == id && (forall|k: int|
        0 <= k < c ==> (#[trigger] cs[k]).0 != id));
    if c < m {
        assert(cs[c].0 != id);
    } else if c > m {
        assert(cs[m].0 != id);
    }
}

impl StreamsHubView {
    /// Whether a publisher is currently attached to `id`.
    pub open spec fn has_stream(self, id: (ProtocolKind, Seq<char>, Seq<char>)) -> bool {
        exists|i: int|
            0 <= i < self.streams.len() && (#[trigger] self.streams[i]).identifier == id
    }

    /// The index of the stream keyed `id`; meaningful under `wf` and
    /// `has_stream`.
    pub open spec fn stream_index(self, id: (ProtocolKind, Seq<char>, Seq<char>)) -> int {
        choose|i: int|
            0 <= i < self.streams.len() && (#[trigger] self.streams[i]).identifier == id
    }

    /// The stream keyed `id`; meaningful under `wf` and `has_stream`.
    pub open spec fn stream_at(self, id: (ProtocolKind, Seq<char>, Seq<char>)) -> StreamView {
        self.streams[self.stream_index(id)]
    }

    /// Internal consistency of the routing table: at most one stream per
    /// identifier, every stream well formed.
    pub open spec fn wf(self) -> bool {
        &&& forall|i: int, j: int|
            0 <= i < j < self.streams.len() ==> (#[trigger] self.streams[i]).identifier != (
            #[trigger] self.streams[j]).identifier
        &&& forall|i: int| 0 <= i < self.streams.len() ==> stream_wf(#[trigger] self.streams[i])
        &&& forall|m: int| 0 <= m < self.closed_channels.len() ==> (#[trigger] self.closed_channels[m]).2
    }
}

/// The identifier of a stream keyed `id` is unique: any index holding `id`
/// is the stream's index.
pub proof fn lemma_stream_index_is(h: StreamsHubView, i: int)
    requires
        h.wf(),
        0 <= i < h.streams.len(),
    ensures
        h.has_stream(h.streams[i].identifier),
        h.stream_index(h.streams[i].identifier) == i,
        h.stream_at(h.streams[i].identifier) == h.streams[i],
{
    let id = h.streams[i].identifier;
    assert(h.has_stream(id));
    let c = h.stream_index(id);
    if c < i {
        assert(h.streams[c].identifier != h.streams[i].identifier);
    } else if c > i {
        assert(h.streams[i].identifier != h.streams[c].identifier);
    }
}

/// The actor owning the routing table. All mutation goes through its methods,
/// one event at a time.
#[derive(Debug)]
pub struct StreamsHub {
    streams: Vec<Stream>,
    closed_channels: Vec<(Uuid, MediaQueue)>,
    subscribe_limit: Option<usize>,
    channel_capacity: usize,
}

impl StreamsHub {
    pub closed spec fn view(&self) -> StreamsHubView {
        StreamsHubView {
            streams: self.streams@.map_values(|s: Stream| s@),
            closed_channels: self.closed_channels@.map_values(
                |c: (Uuid, MediaQueue)| (c.0, c.1.contents(), c.1.is_closed()),
            ),
            subscribe_limit: self.subscribe_limit,
            channel_capacity: self.channel_capacity,
        }
    }

    /// An empty hub with an optional per-stream subscriber cap.
    pub fn new(subscribe_limit: Option<usize>) -> (r: Self)
        ensures
            r@.streams == Seq::<StreamView>::empty(),
            r@.closed_channels == Seq::<ClosedChannelView>::empty(),
            r@.subscribe_limit == subscribe_limit,
            r@.channel_capacity == DEFAULT_CHANNEL_CAPACITY,
            r@.wf(),
    {
        let r = StreamsHub {
            streams: Vec::new(),
            closed_channels: Vec::new(),
            subscribe_limit,
            channel_capacity: DEFAULT_CHANNEL_CAPACITY,
        };
        proof {
            assert(r@.streams =~= Seq::<StreamView>::empty());
            assert(r@.closed_channels =~= Seq::<ClosedChannelView>::empty());
        }
        r
    }

    /// Index of the stream keyed by `identifier`, if one is attached.
    fn find_stream(&self, identifier: &StreamIdentifier) -> (r: Option<usize>)
        ensures
            match r {
                Some(i) => i < self.streams@.len() && self@.streams[i as int].identifier
                    == identifier@,
                None => !self@.has_stream(identifier@),
            },
    {
        let n = self.streams.len();
        let mut i: usize = 0;
        while i < n
            invariant
                i <= n,
                n == self.streams.len(),
                forall|j: int| 0 <= j < i ==> (#[trigger] self@.streams[j]).identifier != identifier@,
            decreases n - i,
        {
            if self.streams[i].identifier == *identifier {
                return Some(i);
            }
            i = i + 1;
        }
        None
    }
}

/// What a successful publish does: one new stream appended, keyed by the
/// identifier, owned by the publisher, with no subscribers and zeroed
/// statistics; everything else untouched. The publisher's start time is the
/// wall clock's and is not constrained.
pub open spec fn publish_effect(
    o: StreamsHubView,
    f: StreamsHubView,
    id: (ProtocolKind, Seq<char>, Seq<char>),
    infov: (Uuid, PublishType, PubDataType, (Seq<char>, Seq<char>)),
    hv: StreamHandlerView,
) -> bool {
    &&& f.streams.len() == o.streams.len() + 1
    &&& f.streams.subrange(0, o.streams.len() as int) == o.streams
    &&& {
        let s = f.streams.last();
        &&& s.identifier == id
        &&& s.publisher == infov
        &&& s.handler == hv
        &&& s.subscribers == Seq::<StreamSubscriberView>::empty()
        &&& s.statistics.publisher == (StatisticPublisherView {
            id: infov.0,
            remote_address: infov.3.1,
            start_time: s.statistics.publisher.start_time,
            ..fresh_publisher_stats(id)
        })
        &&& s.statistics.subscribers == Seq::<StatisticSubscriberView>::empty()
        &&& s.statistics.subscriber_count == 0
        &&& s.statistics.total_recv_bytes == 0
        &&& s.statistics.total_send_bytes == 0
    }
    &&& f.closed_channels == o.closed_channels
    &&& f.subscribe_limit == o.subscribe_limit
    &&& f.channel_capacity == o.channel_capacity
}

impl StreamsHub {
    /// Attaches a publisher to `identifier`. Rejected with
    /// `DuplicatePublisher` — without disturbing the existing stream — if one
    /// is already attached; otherwise the stream is created and the hub owes
    /// the publisher the channel kinds matching its capability.
    pub fn publish(
        &mut self,
        identifier: StreamIdentifier,
        info: PublisherInfo,
        handler: StreamHandler,
    ) -> (r: Result<DataSenderKinds, StreamHubError>)
        requires
            old(self)@.wf(),
        ensures
            final(self)@.wf(),
            old(self)@.has_stream(identifier@) ==> r == Err::<DataSenderKinds, StreamHubError>(
                StreamHubError::DuplicatePublisher,
            ) && *final(self) == *old(self),
            !old(self)@.has_stream(identifier@) ==> (r matches Ok(k) && k == data_sender_kinds(
                info.pub_data_type,
            )) && publish_effect(old(self)@, final(self)@, identifier@, info@, handler@),
    {
        if let Some(_i) = self.find_stream(&identifier) {
            proof {
                lemma_stream_index_is(self@, _i as int);
            }
            return Err(StreamHubError::DuplicatePublisher);
        }
        let kinds = match info.pub_data_type {
            PubDataType::Frame => DataSenderKinds { frame: true, packet: false },
            PubDataType::Packet => DataSenderKinds { frame: false, packet: true },
            PubDataType::Both => DataSenderKinds { frame: true, packet: true },
        };
        let mut statistics = StatisticsStream::new(identifier.clone());
        statistics.publisher.id = info.id;
        statistics.publisher.start_time = crate::utils::now_unix_millis();
        statistics.publisher.remote_address = info.notify_info.remote_addr.clone();
        let stream = Stream {
            identifier,
            publisher: info,
            handler,
            subscribers: Vec::new(),
            statistics,
        };
        let ghost streamv = stream@;
        self.streams.push(stream);
        proof {
            let o = old(self)@;
            let f = self@;
            assert(f.closed_channels == o.closed_channels);
            assert(f.streams =~= o.streams.push(streamv));
            assert(f.streams.subrange(0, o.streams.len() as int) =~= o.streams);
            assert(streamv.subscribers =~= Seq::<StreamSubscriberView>::empty());
            assert(streamv.statistics.subscribers =~= Seq::<StatisticSubscriberView>::empty());
            assert(streamv.statistics.publisher =~= StatisticPublisherView {
                id: streamv.publisher.0,
                remote_address: streamv.publisher.3.1,
                start_time: streamv.statistics.publisher.start_time,
                ..fresh_publisher_stats(streamv.identifier)
            });
            assert(stream_wf(streamv));
            assert forall|k: int| 0 <= k < o.streams.len() implies (
            #[trigger] o.streams[k]).identifier != streamv.identifier by {
                if o.streams[k].identifier == streamv.identifier {
                    assert(o.has_stream(streamv.identifier));
                }
            }
            assert forall|i: int, j: int| 0 <= i < j < f.streams.len() implies (
            #[trigger] f.streams[i]).identifier != (#[trigger] f.streams[j]).identifier by {
                if j == f.streams.len() - 1 {
                    assert(f.streams[i] == o.streams[i]);
                } else {
                    assert(f.streams[i] == o.streams[i]);
                    assert(f.streams[j] == o.streams[j]);
                }
            }
        }
        Ok(kinds)
    }
}


/// Why a subscribe must be rejected, or `None` where it must succeed: no
/// publisher attached, the per-stream cap reached, or the publisher does not
/// feed the channel kind the subscriber consumes — checked in that order.
pub open spec fn spec_subscribe_error(
    h: StreamsHubView,
    id: (ProtocolKind, Seq<char>, Seq<char>),
    infov: (Uuid, SubscribeType, SubDataType, (Seq<char>, Seq<char>)),
) -> Option<StreamHubError> {
    if !h.has_stream(id) {
        Some(StreamHubError::StreamNotFound)
    } else if h.subscribe_limit matches Some(limit) && h.stream_at(id).subscribers.len()
        >= limit {
        Some(StreamHubError::SubscribeCountLimitReach)
    } else if !data_type_served(h.stream_at(id).publisher.2, infov.2) {
        Some(StreamHubError::NoDataReceiver)
    } else {
        None
    }
}

/// What a successful subscribe does to the stream keyed `id`: a new
/// subscriber entry appended, its channel open, bounded by the hub's
/// capacity and preloaded with the handler's prior units; a mirroring
/// statistics entry appended; the count kept consistent. An existing entry
/// under the same identity is detached first: removed, its channel closed
/// and parked. The new entry's start time is the wall clock's and is not
/// constrained.
pub open spec fn subscribe_effect(
    o: StreamsHubView,
    f: StreamsHubView,
    id: (ProtocolKind, Seq<char>, Seq<char>),
    infov: (Uuid, SubscribeType, SubDataType, (Seq<char>, Seq<char>)),
) -> bool {
    let i = o.stream_index(id);
    let s = o.streams[i];
    let s2 = f.streams[i];
    let newsub = s2.subscribers.last();
    let newstat = s2.statistics.subscribers.last();
    &&& f.streams.len() == o.streams.len()
    &&& forall|k: int|
        0 <= k < o.streams.len() && k != i ==> #[trigger] f.streams[k] == o.streams[k]
    &&& s2.identifier == s.identifier
    &&& s2.publisher == s.publisher
    &&& s2.handler == s.handler
    &&& newsub.info == infov
    &&& newsub.channel == spec_prior_units(s.handler, infov.1)
    &&& !newsub.channel_closed
    &&& newsub.channel_cap == o.channel_capacity
    &&& newstat == (StatisticSubscriberView {
        id: infov.0,
        start_time: newstat.start_time,
        remote_address: infov.3.1,
        sub_type: infov.1,
        send_bytes: 0,
        send_bitrate: 0,
        total_send_bytes: 0,
    })
    &&& if !stream_has_subscriber(s, infov.0) {
        &&& s2.subscribers == s.subscribers.push(newsub)
        &&& s2.statistics.subscribers == s.statistics.subscribers.push(newstat)
        &&& f.closed_channels == o.closed_channels
    } else {
        let j = stream_subscriber_index(s, infov.0);
        &&& s2.subscribers == s.subscribers.remove(j).push(newsub)
        &&& s2.statistics.subscribers == s.statistics.subscribers.remove(j).push(newstat)
        &&& f.closed_channels == o.closed_channels.push(
            (infov.0, s.subscribers[j].channel, true),
        )
    }
    &&& s2.statistics.subscriber_count == s2.subscribers.len()
    &&& s2.statistics.publisher == s.statistics.publisher
    &&& s2.statistics.total_recv_bytes == s.statistics.total_recv_bytes
    &&& s2.statistics.total_send_bytes == s.statistics.total_send_bytes
    &&& f.subscribe_limit == o.subscribe_limit
    &&& f.channel_capacity == o.channel_capacity
}

/// Index of the subscriber keyed `id` in `stream`, if attached.
fn find_subscriber(stream: &Stream, id: Uuid) -> (r: Option<usize>)
    ensures
        match r {
            Some(j) => j < stream.subscribers@.len() && stream@.subscribers[j as int].info.0
                == id,
            None => !stream_has_subscriber(stream@, id),
        },
{
    let n = stream.subscribers.len();
    let mut j: usize = 0;
    while j < n
        invariant
            j <= n,
            n == stream.subscribers.len(),
            forall|k: int| 0 <= k < j ==> (#[trigger] stream@.subscribers[k]).info.0 != id,
        decreases n - j,
    {
        if stream.subscribers[j].info.id == id {
            return Some(j);
        }
        j = j + 1;
    }
    None
}

impl StreamsHub {
    /// Attaches a subscriber to the stream keyed `identifier`. Fails with
    /// `StreamNotFound` where no publisher is attached, with
    /// `SubscribeCountLimitReach` beyond the configured cap, and with
    /// `NoDataReceiver` where the publisher does not feed the asked channel
    /// kind; on success the subscriber's channel is registered, preloaded
    /// with the handler's prior units, and the statistics follow.
    pub fn subscribe(&mut self, identifier: &StreamIdentifier, info: SubscriberInfo) -> (r:
        Result<(), StreamHubError>)
        requires
            old(self)@.wf(),
        ensures
            final(self)@.wf(),
            match spec_subscribe_error(old(self)@, identifier@, info@) {
                Some(e) => r == Err::<(), StreamHubError>(e) && *final(self) == *old(self),
                None => r == Ok::<(), StreamHubError>(()) && subscribe_effect(
                    old(self)@,
                    final(self)@,
                    identifier@,
                    info@,
                ),
            },
    {
        let i = match self.find_stream(identifier) {
            None => {
                return Err(StreamHubError::StreamNotFound);
            },
            Some(i) => i,
        };
        proof {
            lemma_stream_index_is(self@, i as int);
        }
        if let Some(limit) = self.subscribe_limit {
            if self.streams[i].subscribers.len() >= limit {
                return Err(StreamHubError::SubscribeCountLimitReach);
            }
        }
        let served = match self.streams[i].publisher.pub_data_type {
            PubDataType::Both => true,
            PubDataType::Frame => matches!(info.sub_data_type, SubDataType::Frame),
            PubDataType::Packet => matches!(info.sub_data_type, SubDataType::Packet),
        };
        if !served {
            return Err(StreamHubError::NoDataReceiver);
        }
        let ghost o = self@;
        let mut stream = self.streams.remove(i);
        let ghost sv = stream@;
        if let Some(j) = find_subscriber(&stream, info.id) {
            proof {
                lemma_subscriber_index_is(sv, j as int);
            }
            let mut oldsub = stream.subscribers.remove(j);
            stream.statistics.subscribers.remove(j);
            oldsub.queue.close();
            self.closed_channels.push((info.id, oldsub.queue));
        } else {
            proof {
                assert(!stream_has_subscriber(sv, info.id));
            }
        }
        let ghost sv_detached = stream@;
        let ghost cs_after = self@.closed_channels;
        let mut queue = MediaQueue::new(self.channel_capacity);
        let prior = stream.handler.prior_units(info.sub_type);
        queue.preload(prior);
        proof {
            assert(queue.contents() =~= spec_prior_units(sv.handler, info.sub_type));
        }
        let sub_id = info.id;
        let sub_type = info.sub_type;
        let remote = info.notify_info.remote_addr.clone();
        let newsub = StreamSubscriber { info, queue };
        let newstat = StatisticSubscriber {
            id: sub_id,
            start_time: crate::utils::now_unix_millis(),
            remote_address: remote,
            sub_type,
            send_bytes: 0,
            send_bitrate: 0,
            total_send_bytes: 0,
        };
        stream.subscribers.push(newsub);
        stream.statistics.subscribers.push(newstat);
        stream.statistics.subscriber_count = stream.subscribers.len() as u64;
        let ghost sv2 = stream@;
        self.streams.insert(i, stream);
        proof {
            let f = self@;
            assert(f.streams =~= o.streams.update(i as int, sv2));
            assert(sv2.subscribers =~= sv_detached.subscribers.push(f.streams[i as int].subscribers.last()));
            assert(sv2.statistics.subscribers =~= sv_detached.statistics.subscribers.push(
                f.streams[i as int].statistics.subscribers.last(),
            ));
            if stream_has_subscriber(sv, info@.0) {
                let j = stream_subscriber_index(sv, info@.0);
                assert(sv_detached.subscribers =~= sv.subscribers.remove(j));
                assert(sv_detached.statistics.subscribers =~= sv.statistics.subscribers.remove(
                    j,
                ));
                assert(f.closed_channels =~= o.closed_channels.push(
                    (info@.0, sv.subscribers[j].channel, true),
                ));
            } else {
                assert(f.closed_channels =~= o.closed_channels);
            }
            assert(subscribe_effect(o, f, identifier@, info@));
            assert(stream_wf(sv2)) by {
                assert(forall|a: int|
                    0 <= a < sv_detached.subscribers.len()
                        ==> (#[trigger] sv_detached.subscribers[a]).info.0 != info@.0);
            }
            assert forall|k: int| 0 <= k < f.streams.len() implies stream_wf(
                #[trigger] f.streams[k],
            ) by {
                if k != i as int {
                    assert(f.streams[k] == o.streams[k]);
                }
            }
            assert forall|a: int, b: int| 0 <= a < b < f.streams.len() implies (
            #[trigger] f.streams[a]).identifier != (#[trigger] f.streams[b]).identifier by {
                assert(f.streams[a].identifier == o.streams[a].identifier);
                assert(f.streams[b].identifier == o.streams[b].identifier);
            }
        }
        Ok(())
    }

    /// Detaches the subscriber keyed by `info`'s identity from the stream
    /// keyed `identifier`: its entry and statistics are removed and its
    /// channel closed and parked for draining. A no-op where the stream or
    /// the subscriber is unknown, so disconnect cleanup can never fail.
    pub fn unsubscribe(&mut self, identifier: &StreamIdentifier, info: &SubscriberInfo)
        requires
            old(self)@.wf(),
        ensures
            final(self)@.wf(),
            !old(self)@.has_stream(identifier@) || !stream_has_subscriber(
                old(self)@.stream_at(identifier@),
                info.id,
            ) ==> *final(self) == *old(self),
            old(self)@.has_stream(identifier@) && stream_has_subscriber(
                old(self)@.stream_at(identifier@),
                info.id,
            ) ==> unsubscribe_effect(old(self)@, final(self)@, identifier@, info.id),
    {
        let i = match self.find_stream(identifier) {
            None => {
                return ;
            },
            Some(i) => i,
        };
        proof {
            lemma_stream_index_is(self@, i as int);
        }
        let ghost o = self@;
        let j = match find_subscriber(&self.streams[i], info.id) {
            None => {
                return ;
            },
            Some(j) => j,
        };
        let mut stream = self.streams.remove(i);
        let ghost sv = stream@;
        proof {
            lemma_subscriber_index_is(sv, j as int);
        }
        let mut oldsub = stream.subscribers.remove(j);
        stream.statistics.subscribers.remove(j);
        oldsub.queue.close();
        self.closed_channels.push((oldsub.info.id, oldsub.queue));
        let new_count = stream.subscribers.len() as u64;
        stream.statistics.subscriber_count = new_count;
        let ghost sv2 = stream@;
        self.streams.insert(i, stream);
        proof {
            let f = self@;
            assert(f.streams =~= o.streams.update(i as int, sv2));
            assert(sv2.subscribers =~= sv.subscribers.remove(j as int));
            assert(sv2.statistics.subscribers =~= sv.statistics.subscribers.remove(j as int));
            assert(f.closed_channels =~= o.closed_channels.push(
                (info.id, sv.subscribers[j as int].channel, true),
            ));
            assert(unsubscribe_effect(o, f, identifier@, info.id));
            assert(stream_wf(sv2));
            assert forall|k: int| 0 <= k < f.streams.len() implies stream_wf(
                #[trigger] f.streams[k],
            ) by {
                if k != i as int {
                    assert(f.streams[k] == o.streams[k]);
                }
            }
            assert forall|a: int, b: int| 0 <= a < b < f.streams.len() implies (
            #[trigger] f.streams[a]).identifier != (#[trigger] f.streams[b]).identifier by {
                assert(f.streams[a].identifier == o.streams[a].identifier);
                assert(f.streams[b].identifier == o.streams[b].identifier);
            }
        }
    }
}

/// What an unsubscribe of an attached subscriber does: its entry and its
/// statistics entry removed, the count kept consistent, its channel closed
/// and parked with what it still held.
pub open spec fn unsubscribe_effect(
    o: StreamsHubView,
    f: StreamsHubView,
    id: (ProtocolKind, Seq<char>, Seq<char>),
    sub_id: Uuid,
) -> bool {
    let i = o.stream_index(id);
    let s = o.streams[i];
    let j = stream_subscriber_index(s, sub_id);
    let s2 = f.streams[i];
    &&& f.streams.len() == o.streams.len()
    &&& forall|k: int|
        0 <= k < o.streams.len() && k != i ==> #[trigger] f.streams[k] == o.streams[k]
    &&& s2.identifier == s.identifier
    &&& s2.publisher == s.publisher
    &&& s2.handler == s.handler
    &&& s2.subscribers == s.subscribers.remove(j)
    &&& s2.statistics.subscribers == s.statistics.subscribers.remove(j)
    &&& s2.statistics.subscriber_count == s2.subscribers.len()
    &&& s2.statistics.publisher == s.statistics.publisher
    &&& s2.statistics.total_recv_bytes == s.statistics.total_recv_bytes
    &&& s2.statistics.total_send_bytes == s.statistics.total_send_bytes
    &&& f.closed_channels == o.closed_channels.push((sub_id, s.subscribers[j].channel, true))
    &&& f.subscribe_limit == o.subscribe_limit
    &&& f.channel_capacity == o.channel_capacity
}



/// The parked form of a stream's subscriber channels: each closed, keyed by
/// its subscriber's identity, holding what it still held.
pub open spec fn parked_channels(subs: Seq<StreamSubscriberView>) -> Seq<ClosedChannelView> {
    subs.map_values(|s: StreamSubscriberView| (s.info.0, s.channel, true))
}

/// What an unpublish of an attached stream does: the stream leaves the
/// routing table and every subscriber's channel is closed and parked, in
/// order, so each reader observes end-of-stream after draining.
pub open spec fn unpublish_effect(
    o: StreamsHubView,
    f: StreamsHubView,
    id: (ProtocolKind, Seq<char>, Seq<char>),
) -> bool {
    let i = o.stream_index(id);
    &&& f.streams == o.streams.remove(i)
    &&& f.closed_channels == o.closed_channels + parked_channels(o.streams[i].subscribers)
    &&& f.subscribe_limit == o.subscribe_limit
    &&& f.channel_capacity == o.channel_capacity
}

impl StreamsHub {
    /// Detaches the publisher of `identifier` and destroys the stream: every
    /// attached subscriber's channel is closed (its reader observes
    /// end-of-stream after draining) and the identifier leaves the routing
    /// table. A no-op where no such stream exists, so eviction on disconnect
    /// can never fail.
    pub fn unpublish(&mut self, identifier: &StreamIdentifier)
        requires
            old(self)@.wf(),
        ensures
            final(self)@.wf(),
            !old(self)@.has_stream(identifier@) ==> *final(self) == *old(self),
            old(self)@.has_stream(identifier@) ==> unpublish_effect(
                old(self)@,
                final(self)@,
                identifier@,
            ),
    {
        let i = match self.find_stream(identifier) {
            None => {
                return ;
            },
            Some(i) => i,
        };
        proof {
            lemma_stream_index_is(self@, i as int);
        }
        let ghost o = self@;
        let mut stream = self.streams.remove(i);
        let ghost sv = stream@;
        proof {
            assert(self@.streams =~= o.streams.remove(i as int));
        }
        let total = stream.subscribers.len();
        let mut k: usize = 0;
        while k < total
            invariant
                k <= total,
                total == sv.subscribers.len(),
                stream.subscribers@.len() == total - k,
                forall|j: int|
                    0 <= j < total - k ==> #[trigger] stream@.subscribers[j] == sv.subscribers[
                        j + k
                    ],
                self@.streams == o.streams.remove(o.stream_index(identifier@)),
                self@.closed_channels == o.closed_channels + parked_channels(
                    sv.subscribers.subrange(0, k as int),
                ),
                self@.subscribe_limit == o.subscribe_limit,
                self@.channel_capacity == o.channel_capacity,
                o.wf(),
                o.stream_index(identifier@) == i as int,
            decreases total - k,
        {
            let ghost subs_before = stream@.subscribers;
            let ghost vec_before = stream.subscribers@;
            let mut sub = stream.subscribers.remove(0);
            proof {
                assert(subs_before[0] == sv.subscribers[k as int]);
                assert(sub == vec_before[0]);
                assert(subs_before[0] == vec_before[0]@);
                assert(sub@ == sv.subscribers[k as int]);
                assert forall|j: int| 0 <= j < total - k - 1 implies #[trigger] stream@
                    .subscribers[j] == sv.subscribers[j + k + 1] by {
                    assert(stream@.subscribers[j] == subs_before[j + 1]);
                }
            }
            sub.queue.close();
            let ghost csv = self@.closed_channels;
            self.closed_channels.push((sub.info.id, sub.queue));
            proof {
                assert(self@.closed_channels =~= csv.push((sv.subscribers[k as int].info.0,
                    sv.subscribers[k as int].channel, true)));
                assert(parked_channels(sv.subscribers.subrange(0, k + 1)) =~= parked_channels(
                    sv.subscribers.subrange(0, k as int),
                ).push((sv.subscribers[k as int].info.0, sv.subscribers[k as int].channel, true)));
                assert(self@.closed_channels =~= o.closed_channels + parked_channels(
                    sv.subscribers.subrange(0, k + 1),
                ));
            }
            k = k + 1;
        }
        proof {
            let f = self@;
            assert(sv.subscribers.subrange(0, total as int) =~= sv.subscribers);
            assert(f.closed_channels == o.closed_channels + parked_channels(sv.subscribers));
            assert(unpublish_effect(o, f, identifier@));
            assert forall|a: int, b: int| 0 <= a < b < f.streams.len() implies (
            #[trigger] f.streams[a]).identifier != (#[trigger] f.streams[b]).identifier by {
                let i0 = i as int;
                let oa: int = if a < i0 { a } else { a + 1 };
                let ob: int = if b < i0 { b } else { b + 1 };
                assert(f.streams[a] == o.streams[oa]);
                assert(f.streams[b] == o.streams[ob]);
            }
            assert forall|j: int| 0 <= j < f.streams.len() implies stream_wf(
                #[trigger] f.streams[j],
            ) by {
                let i0 = i as int;
                let oj: int = if j < i0 { j } else { j + 1 };
                assert(f.streams[j] == o.streams[oj]);
            }
            assert forall|m: int| 0 <= m < f.closed_channels.len() implies (
            #[trigger] f.closed_channels[m]).2 by {
                if m < o.closed_channels.len() {
                    assert(f.closed_channels[m] == o.closed_channels[m]);
                } else {
                    assert(f.closed_channels[m] == parked_channels(sv.subscribers)[m
                        - o.closed_channels.len()]);
                }
            }
        }
    }
}

/// Whether a relayed unit is appended to a subscriber's channel: the channel
/// is open and below its capacity. A full or closed channel drops the unit so
/// a slow subscriber never stalls the others.
pub open spec fn spec_deliverable(s: StreamSubscriberView) -> bool {
    !s.channel_closed && s.channel.len() < s.channel_cap
}

/// What one relayed unit adds to the video counters: its bytes, one frame,
/// and the group-of-pictures accounting — a keyframe publishes the closed
/// group's length and starts a new group with itself.
pub open spec fn bump_video(v: crate::statistics::VideoInfo, u: (MediaKind, Seq<u8>))
    -> crate::statistics::VideoInfo {
    match u.0 {
        MediaKind::Video { keyframe } => crate::statistics::VideoInfo {
            recv_bytes: v.recv_bytes.saturating_add(u.1.len() as u64),
            recv_frame_count: v.recv_frame_count.saturating_add(1),
            recv_frame_count_for_gop: if keyframe {
                1
            } else {
                v.recv_frame_count_for_gop.saturating_add(1)
            },
            gop: if keyframe {
                v.recv_frame_count_for_gop
            } else {
                v.gop
            },
            ..v
        },
        _ => v,
    }
}

/// What one relayed unit adds to the audio counters.
pub open spec fn bump_audio(a: crate::statistics::AudioInfo, u: (MediaKind, Seq<u8>))
    -> crate::statistics::AudioInfo {
    match u.0 {
        MediaKind::Audio => crate::statistics::AudioInfo {
            recv_bytes: a.recv_bytes.saturating_add(u.1.len() as u64),
            ..a
        },
        _ => a,
    }
}

/// What one relayed unit adds to a publisher's counters.
pub open spec fn bump_publisher(p: StatisticPublisherView, u: (MediaKind, Seq<u8>))
    -> StatisticPublisherView {
    StatisticPublisherView {
        video: bump_video(p.video, u),
        audio: bump_audio(p.audio, u),
        recv_bytes: p.recv_bytes.saturating_add(u.1.len() as u64),
        ..p
    }
}

/// What one delivered unit adds to a subscriber's counters.
pub open spec fn bump_subscriber_stat(st: StatisticSubscriberView, bytes: u64)
    -> StatisticSubscriberView {
    StatisticSubscriberView {
        send_bytes: st.send_bytes.saturating_add(bytes),
        total_send_bytes: st.total_send_bytes.saturating_add(bytes),
        ..st
    }
}

/// The stream's total sent bytes after fanning one unit of `bytes` bytes out:
/// `base` grown once per subscriber the unit was delivered to.
pub open spec fn delivered_send_total(
    subs: Seq<StreamSubscriberView>,
    base: u64,
    bytes: u64,
) -> u64 {
    subs.fold_left(
        base,
        |acc: u64, sb: StreamSubscriberView|
            if spec_deliverable(sb) {
                acc.saturating_add(bytes)
            } else {
                acc
            },
    )
}

/// What relaying one media unit through an attached stream does: the unit is
/// appended, in publisher order, to every subscriber channel that is open and
/// below capacity, and dropped towards the rest; the publisher's and each
/// reached subscriber's accumulators grow by the unit.
pub open spec fn relay_effect(
    o: StreamsHubView,
    f: StreamsHubView,
    id: (ProtocolKind, Seq<char>, Seq<char>),
    u: (MediaKind, Seq<u8>),
) -> bool {
    let i = o.stream_index(id);
    let s = o.streams[i];
    let s2 = f.streams[i];
    let bytes = u.1.len() as u64;
    &&& f.streams.len() == o.streams.len()
    &&& forall|k: int|
        0 <= k < o.streams.len() && k != i ==> #[trigger] f.streams[k] == o.streams[k]
    &&& s2.identifier == s.identifier
    &&& s2.publisher == s.publisher
    &&& s2.handler == s.handler
    &&& s2.subscribers.len() == s.subscribers.len()
    &&& forall|j: int|
        0 <= j < s.subscribers.len() ==> #[trigger] s2.subscribers[j] == (StreamSubscriberView {
            channel: if spec_deliverable(s.subscribers[j]) {
                s.subscribers[j].channel.push(u)
            } else {
                s.subscribers[j].channel
            },
            ..s.subscribers[j]
        })
    &&& s2.statistics.publisher == bump_publisher(s.statistics.publisher, u)
    &&& s2.statistics.subscribers.len() == s.statistics.subscribers.len()
    &&& forall|j: int|
        0 <= j < s.subscribers.len() ==> #[trigger] s2.statistics.subscribers[j] == (
        if spec_deliverable(s.subscribers[j]) {
            bump_subscriber_stat(s.statistics.subscribers[j], bytes)
        } else {
            s.statistics.subscribers[j]
        })
    &&& s2.statistics.subscriber_count == s.statistics.subscriber_count
    &&& s2.statistics.total_recv_bytes == s.statistics.total_recv_bytes.saturating_add(bytes)
    &&& s2.statistics.total_send_bytes == delivered_send_total(
        s.subscribers,
        s.statistics.total_send_bytes,
        bytes,
    )
    &&& f.closed_channels == o.closed_channels
    &&& f.subscribe_limit == o.subscribe_limit
    &&& f.channel_capacity == o.channel_capacity
}

impl StreamsHub {
    /// Relays one media unit from the publisher of `identifier` to every
    /// current subscriber with a non-blocking send, and accounts the traffic.
    /// Fails with `StreamNotFound` where no such stream is attached.
    pub fn relay_media(&mut self, identifier: &StreamIdentifier, unit: &MediaUnit) -> (r: Result<
        (),
        StreamHubError,
    >)
        requires
            old(self)@.wf(),
        ensures
            final(self)@.wf(),
            !old(self)@.has_stream(identifier@) ==> r == Err::<(), StreamHubError>(
                StreamHubError::StreamNotFound,
            ) && *final(self) == *old(self),
            old(self)@.has_stream(identifier@) ==> r == Ok::<(), StreamHubError>(())
                && relay_effect(old(self)@, final(self)@, identifier@, unit@),
    {
        let i = match self.find_stream(identifier) {
            None => {
                return Err(StreamHubError::StreamNotFound);
            },
            Some(i) => i,
        };
        proof {
            lemma_stream_index_is(self@, i as int);
        }
        let ghost o = self@;
        let mut stream = self.streams.remove(i);
        let ghost sv = stream@;
        let bytes = unit.payload.len() as u64;
        stream.statistics.publisher.recv_bytes = stream.statistics.publisher.recv_bytes
            .saturating_add(bytes);
        match unit.kind {
            MediaKind::Video { keyframe } => {
                stream.statistics.publisher.video.recv_bytes = stream.statistics.publisher.video
                    .recv_bytes.saturating_add(bytes);
                stream.statistics.publisher.video.recv_frame_count = stream.statistics.publisher
                    .video.recv_frame_count.saturating_add(1);
                if keyframe {
                    stream.statistics.publisher.video.gop = stream.statistics.publisher.video
                        .recv_frame_count_for_gop;
                    stream.statistics.publisher.video.recv_frame_count_for_gop = 1;
                } else {
                    stream.statistics.publisher.video.recv_frame_count_for_gop = stream.statistics
                        .publisher.video.recv_frame_count_for_gop.saturating_add(1);
                }
            },
            MediaKind::Audio => {
                stream.statistics.publisher.audio.recv_bytes = stream.statistics.publisher.audio
                    .recv_bytes.saturating_add(bytes);
            },
            MediaKind::Config => {},
        }
        stream.statistics.total_recv_bytes = stream.statistics.total_recv_bytes.saturating_add(
            bytes,
        );
        proof {
            assert(stream.statistics.publisher@ =~= bump_publisher(sv.statistics.publisher,
                unit@));
        }
        let n = stream.subscribers.len();
        let mut k: usize = 0;
        while k < n
            invariant
                k <= n,
                n == stream.subscribers@.len(),
                n == sv.subscribers.len(),
                n == stream.statistics.subscribers@.len(),
                n == sv.statistics.subscribers.len(),
                stream.identifier@ == sv.identifier,
                stream.publisher@ == sv.publisher,
                stream.handler@ == sv.handler,
                stream.statistics.publisher@ == bump_publisher(sv.statistics.publisher, unit@),
                stream.statistics.subscriber_count == sv.statistics.subscriber_count,
                stream.statistics.total_recv_bytes == sv.statistics.total_recv_bytes
                    .saturating_add(unit@.1.len() as u64),
                bytes == unit@.1.len() as u64,
                forall|j: int|
                    0 <= j < k ==> #[trigger] stream@.subscribers[j] == (StreamSubscriberView {
                        channel: if spec_deliverable(sv.subscribers[j]) {
                            sv.subscribers[j].channel.push(unit@)
                        } else {
                            sv.subscribers[j].channel
                        },
                        ..sv.subscribers[j]
                    }),
                forall|j: int| k <= j < n ==> #[trigger] stream@.subscribers[j]
                    == sv.subscribers[j],
                forall|j: int|
                    0 <= j < k ==> #[trigger] stream.statistics.subscribers@[j]@ == (
                    if spec_deliverable(sv.subscribers[j]) {
                        bump_subscriber_stat(sv.statistics.subscribers[j], bytes)
                    } else {
                        sv.statistics.subscribers[j]
                    }),
                forall|j: int| k <= j < n ==> #[trigger] stream.statistics.subscribers@[j]@
                    == sv.statistics.subscribers[j],
                stream.statistics.total_send_bytes == delivered_send_total(
                    sv.subscribers.subrange(0, k as int),
                    sv.statistics.total_send_bytes,
                    bytes,
                ),
            decreases n - k,
        {
            let ghost prefix = sv.subscribers.subrange(0, k as int);
            let ghost subs_before = stream@.subscribers;
            let mut sub = stream.subscribers.remove(k);
            let outcome = sub.queue.try_send(unit.clone());
            let ghost subv_after = sub@;
            stream.subscribers.insert(k, sub);
            proof {
                assert(stream@.subscribers =~= subs_before.update(k as int, subv_after));
                assert(subs_before[k as int] == sv.subscribers[k as int]);
                if spec_deliverable(sv.subscribers[k as int]) {
                    assert(subv_after =~= StreamSubscriberView {
                        channel: sv.subscribers[k as int].channel.push(unit@),
                        ..sv.subscribers[k as int]
                    });
                    assert(outcome == SendOutcome::Delivered);
                } else {
                    assert(subv_after =~= sv.subscribers[k as int]);
                    assert(outcome != SendOutcome::Delivered);
                }
            }
            match outcome {
                SendOutcome::Delivered => {
                    stream.statistics.subscribers[k].send_bytes = stream.statistics.subscribers[
                        k
                    ].send_bytes.saturating_add(bytes);
                    stream.statistics.subscribers[k].total_send_bytes = stream.statistics
                        .subscribers[k].total_send_bytes.saturating_add(bytes);
                    stream.statistics.total_send_bytes = stream.statistics.total_send_bytes
                        .saturating_add(bytes);
                    proof {
                        assert(stream.statistics.subscribers@[k as int]@ == bump_subscriber_stat(
                            sv.statistics.subscribers[k as int],
                            bytes,
                        ));
                    }
                },
                SendOutcome::Full => {
                    proof {
                        assert(stream.statistics.subscribers@[k as int]@ == sv.statistics
                            .subscribers[k as int]);
                    }
                },
                SendOutcome::Closed => {
                    proof {
                        assert(stream.statistics.subscribers@[k as int]@ == sv.statistics
                            .subscribers[k as int]);
                    }
                },
            }
            proof {
                let base = sv.statistics.total_send_bytes;
                let step = sv.subscribers.subrange(0, k + 1);
                assert(step.drop_last() =~= prefix);
                assert(step.last() == sv.subscribers[k as int]);
                assert(delivered_send_total(step.drop_last(), base, bytes)
                    == delivered_send_total(prefix, base, bytes));
                assert(delivered_send_total(step, base, bytes) == (
                if spec_deliverable(sv.subscribers[k as int]) {
                    delivered_send_total(prefix, base, bytes).saturating_add(bytes)
                } else {
                    delivered_send_total(prefix, base, bytes)
                }));
                assert(stream.statistics.total_send_bytes == delivered_send_total(
                    step,
                    base,
                    bytes,
                ));
            }
            k = k + 1;
        }
        let ghost sv2 = stream@;
        self.streams.insert(i, stream);
        proof {
            let f = self@;
            assert(f.streams =~= o.streams.update(i as int, sv2));
            assert(sv.subscribers.subrange(0, n as int) =~= sv.subscribers);
            assert(relay_effect(o, f, identifier@, unit@));
            assert(stream_wf(sv2));
            assert forall|kk: int| 0 <= kk < f.streams.len() implies stream_wf(
                #[trigger] f.streams[kk],
            ) by {
                if kk != i as int {
                    assert(f.streams[kk] == o.streams[kk]);
                }
            }
            assert forall|a: int, b: int| 0 <= a < b < f.streams.len() implies (
            #[trigger] f.streams[a]).identifier != (#[trigger] f.streams[b]).identifier by {
                assert(f.streams[a].identifier == o.streams[a].identifier);
                assert(f.streams[b].identifier == o.streams[b].identifier);
            }
        }
        Ok(())
    }
}



impl StreamsHub {
    /// Hands the subscriber keyed (`identifier`, `sub_id`) its next media
    /// unit. A live subscriber reads its channel: the oldest unit, `Empty`
    /// while nothing waits, in publisher order. A detached subscriber drains
    /// its parked channel, then observes `EndOfStream`, upon which the parked
    /// channel is released; a reader the hub knows nothing about observes
    /// `EndOfStream` at once.
    pub fn recv_media(&mut self, identifier: &StreamIdentifier, sub_id: Uuid) -> (r: RecvOutcome)
        requires
            old(self)@.wf(),
        ensures
            final(self)@.wf(),
            old(self)@.has_stream(identifier@) && stream_has_subscriber(
                old(self)@.stream_at(identifier@),
                sub_id,
            ) ==> live_recv_ok(old(self)@, final(self)@, identifier@, sub_id, r),
            !(old(self)@.has_stream(identifier@) && stream_has_subscriber(
                old(self)@.stream_at(identifier@),
                sub_id,
            )) && has_closed_channel(old(self)@.closed_channels, sub_id) ==> parked_recv_ok(
                old(self)@,
                final(self)@,
                sub_id,
                r,
            ),
            !(old(self)@.has_stream(identifier@) && stream_has_subscriber(
                old(self)@.stream_at(identifier@),
                sub_id,
            )) && !has_closed_channel(old(self)@.closed_channels, sub_id) ==> (r matches
                RecvOutcome::EndOfStream) && final(self)@ == old(self)@,
    {
        let i = match self.find_stream(identifier) {
            None => {
                return self.recv_closed(sub_id);
            },
            Some(i) => i,
        };
        proof {
            lemma_stream_index_is(self@, i as int);
        }
        let j = match find_subscriber(&self.streams[i], sub_id) {
            None => {
                return self.recv_closed(sub_id);
            },
            Some(j) => j,
        };
        let ghost o = self@;
        let mut stream = self.streams.remove(i);
        let ghost sv = stream@;
        proof {
            lemma_subscriber_index_is(sv, j as int);
        }
        let ghost subs_before = stream@.subscribers;
        let mut sub = stream.subscribers.remove(j);
        let outcome = sub.queue.recv();
        let ghost subv_after = sub@;
        stream.subscribers.insert(j, sub);
        let ghost sv2 = stream@;
        self.streams.insert(i, stream);
        proof {
            let f = self@;
            assert(f.closed_channels == o.closed_channels);
            assert(sv2.subscribers =~= subs_before.update(j as int, subv_after));
            assert(f.streams =~= o.streams.update(i as int, sv2));
            if sv.subscribers[j as int].channel.len() > 0 {
                assert(subv_after =~= StreamSubscriberView {
                    channel: sv.subscribers[j as int].channel.drop_first(),
                    ..sv.subscribers[j as int]
                });
                assert(sv2 =~= StreamView {
                    subscribers: sv.subscribers.update(j as int, subv_after),
                    ..sv
                });
            } else {
                assert(subv_after =~= sv.subscribers[j as int]);
                assert(sv2.subscribers =~= sv.subscribers);
                assert(sv2 =~= sv);
                assert(f.streams =~= o.streams);
                assert(f =~= o);
            }
            assert(stream_wf(sv2));
            assert forall|kk: int| 0 <= kk < f.streams.len() implies stream_wf(
                #[trigger] f.streams[kk],
            ) by {
                if kk != i as int {
                    assert(f.streams[kk] == o.streams[kk]);
                }
            }
            assert forall|a: int, b: int| 0 <= a < b < f.streams.len() implies (
            #[trigger] f.streams[a]).identifier != (#[trigger] f.streams[b]).identifier by {
                assert(f.streams[a].identifier == o.streams[a].identifier);
                assert(f.streams[b].identifier == o.streams[b].identifier);
            }
        }
        outcome
    }

    /// Drains the parked channel of a detached subscriber.
    fn recv_closed(&mut self, sub_id: Uuid) -> (r: RecvOutcome)
        requires
            old(self)@.wf(),
        ensures
            final(self)@.wf(),
            has_closed_channel(old(self)@.closed_channels, sub_id) ==> parked_recv_ok(
                old(self)@,
                final(self)@,
                sub_id,
                r,
            ),
            !has_closed_channel(old(self)@.closed_channels, sub_id) ==> (r matches
                RecvOutcome::EndOfStream) && final(self)@ == old(self)@,
    {
        let n = self.closed_channels.len();
        let mut m: usize = 0;
        while m < n
            invariant
                m <= n,
                n == self.closed_channels.len(),
                self@ == old(self)@,
                old(self)@.wf(),
                forall|k: int| 0 <= k < m ==> (#[trigger] self@.closed_channels[k]).0 != sub_id,
            decreases n - m,
        {
            if self.closed_channels[m].0 == sub_id {
                proof {
                    lemma_first_closed_channel_is(self@.closed_channels, sub_id, m as int);
                }
                let ghost o = self@;
                let ghost csv = self@.closed_channels;
                proof {
                    assert(csv[m as int].2);
                }
                let mut entry = self.closed_channels.remove(m);
                proof {
                    assert(entry.0 == csv[m as int].0);
                    assert(entry.1.contents() == csv[m as int].1);
                    assert(entry.1.is_closed());
                }
                let outcome = entry.1.recv();
                let ghost ev = (entry.0, entry.1.contents(), entry.1.is_closed());
                match outcome {
                    RecvOutcome::Unit(u) => {
                        self.closed_channels.insert(m, entry);
                        proof {
                            assert(ev == (sub_id, csv[m as int].1.drop_first(), true));
                            assert(self@.closed_channels =~= csv.update(m as int, ev));
                            assert(self@.streams =~= o.streams);
                            assert(self@ =~= StreamsHubView {
                                closed_channels: csv.update(m as int, ev),
                                ..o
                            });
                            assert forall|k: int| 0 <= k < self@.closed_channels.len() implies (
                            #[trigger] self@.closed_channels[k]).2 by {
                                if k != m as int {
                                    assert(self@.closed_channels[k] == csv[k]);
                                }
                            }
                        }
                        return RecvOutcome::Unit(u);
                    },
                    RecvOutcome::EndOfStream => {
                        proof {
                            assert(self@.closed_channels =~= csv.remove(m as int));
                            assert(self@.streams =~= o.streams);
                            assert(self@ =~= StreamsHubView {
                                closed_channels: csv.remove(m as int),
                                ..o
                            });
                            assert forall|k: int| 0 <= k < self@.closed_channels.len() implies (
                            #[trigger] self@.closed_channels[k]).2 by {
                                if k < m as int {
                                    assert(self@.closed_channels[k] == csv[k]);
                                } else {
                                    assert(self@.closed_channels[k] == csv[k + 1]);
                                }
                            }
                        }
                        return RecvOutcome::EndOfStream;
                    },
                    RecvOutcome::Empty => {
                        proof {
                            assert(false);
                        }
                        return RecvOutcome::Empty;
                    },
                }
            }
            m = m + 1;
        }
        proof {
            if has_closed_channel(self@.closed_channels, sub_id) {
                let w = choose|mm: int|
                    0 <= mm < self@.closed_channels.len() && (#[trigger] self@.closed_channels[
                        mm
                    ]).0 == sub_id;
                assert(self@.closed_channels[w].0 != sub_id);
            }
        }
        RecvOutcome::EndOfStream
    }

    /// A filtered point-in-time statistics snapshot of the stream keyed
    /// `identifier`, narrowed to the asking identity as `query_by_uuid`
    /// does; `None` where no such stream is attached.
    pub fn query_stream_statistics(&self, identifier: &StreamIdentifier, uuid: Uuid) -> (r:
        Option<StatisticsStream>)
        requires
            self@.wf(),
        ensures
            !self@.has_stream(identifier@) ==> r is None,
            self@.has_stream(identifier@) ==> {
                let st = self@.stream_at(identifier@).statistics;
                &&& r matches Some(snap)
                &&& uuid == st.publisher.id ==> snap@ == (StatisticsStreamView {
                    subscribers: Seq::<StatisticSubscriberView>::empty(),
                    ..st
                })
                &&& uuid != st.publisher.id ==> snap@ == (StatisticsStreamView {
                    subscribers: crate::statistics::stats_for_id(st.subscribers, uuid),
                    ..st
                })
            },
    {
        let i = match self.find_stream(identifier) {
            None => {
                return None;
            },
            Some(i) => i,
        };
        proof {
            lemma_stream_index_is(self@, i as int);
        }
        Some(self.streams[i].statistics.query_by_uuid(uuid))
    }
}

/// What a read by a live subscriber does: the oldest queued unit leaves its
/// channel; an empty open channel reports `Empty`; everything else is
/// untouched. (A live channel is never closed while its stream stands, but
/// the channel state decides.)
pub open spec fn live_recv_ok(
    o: StreamsHubView,
    f: StreamsHubView,
    id: (ProtocolKind, Seq<char>, Seq<char>),
    sub_id: Uuid,
    r: RecvOutcome,
) -> bool {
    let i = o.stream_index(id);
    let s = o.streams[i];
    let j = stream_subscriber_index(s, sub_id);
    let ch = s.subscribers[j].channel;
    &&& ch.len() > 0 ==> {
        &&& r matches RecvOutcome::Unit(u) && u@ == ch[0]
        &&& f.streams.len() == o.streams.len()
        &&& forall|k: int|
            0 <= k < o.streams.len() && k != i ==> #[trigger] f.streams[k] == o.streams[k]
        &&& f.streams[i] == (StreamView {
            subscribers: s.subscribers.update(
                j,
                StreamSubscriberView { channel: ch.drop_first(), ..s.subscribers[j] },
            ),
            ..s
        })
        &&& f.closed_channels == o.closed_channels
        &&& f.subscribe_limit == o.subscribe_limit
        &&& f.channel_capacity == o.channel_capacity
    }
    &&& ch.len() == 0 && !s.subscribers[j].channel_closed ==> (r matches RecvOutcome::Empty) && f
        == o
    &&& ch.len() == 0 && s.subscribers[j].channel_closed ==> (r matches RecvOutcome::EndOfStream)
        && f == o
}

/// What a read from a parked channel does: the oldest remaining unit leaves
/// it, or — once drained — the reader observes `EndOfStream` and the channel
/// is released.
pub open spec fn parked_recv_ok(
    o: StreamsHubView,
    f: StreamsHubView,
    sub_id: Uuid,
    r: RecvOutcome,
) -> bool {
    let m = first_closed_channel(o.closed_channels, sub_id);
    let ch = o.closed_channels[m].1;
    &&& ch.len() > 0 ==> {
        &&& r matches RecvOutcome::Unit(u) && u@ == ch[0]
        &&& f == (StreamsHubView {
            closed_channels: o.closed_channels.update(m, (sub_id, ch.drop_first(), true)),
            ..o
        })
    }
    &&& ch.len() == 0 ==> (r matches RecvOutcome::EndOfStream) && f == (StreamsHubView {
        closed_channels: o.closed_channels.remove(m),
        ..o
    })
}



/// One control-plane request for the hub. Protocol adapters build these and
/// hand them to the actor loop; the reply travels back on a transport-level
/// channel that rides beside the event.
#[derive(Debug)]
pub enum StreamHubEvent {
    Publish { identifier: StreamIdentifier, info: PublisherInfo, stream_handler: StreamHandler },
    UnPublish { identifier: StreamIdentifier, info: PublisherInfo },
    Subscribe { identifier: StreamIdentifier, info: SubscriberInfo },
    UnSubscribe { identifier: StreamIdentifier, info: SubscriberInfo },
}

/// The hub's answer to one event. Teardown events are infallible by
/// idempotence, so their replies carry nothing.
#[derive(Debug)]
pub enum HubReply {
    Publish(Result<DataSenderKinds, StreamHubError>),
    UnPublish,
    Subscribe(Result<(), StreamHubError>),
    UnSubscribe,
}

impl StreamsHub {
    /// The actor's dispatch: consumes one event, mutates the routing table
    /// accordingly and answers. Driven serially, this linearizes every
    /// topology change across all streams.
    pub fn process_event(&mut self, event: StreamHubEvent) -> (r: HubReply)
        requires
            old(self)@.wf(),
        ensures
            final(self)@.wf(),
            event matches StreamHubEvent::Publish { identifier, info, stream_handler } ==> {
                &&& old(self)@.has_stream(identifier@) ==> r == HubReply::Publish(
                    Err(StreamHubError::DuplicatePublisher),
                ) && final(self)@ == old(self)@
                &&& !old(self)@.has_stream(identifier@) ==> r == HubReply::Publish(
                    Ok(data_sender_kinds(info.pub_data_type)),
                ) && publish_effect(old(self)@, final(self)@, identifier@, info@, stream_handler@)
            },
            event matches StreamHubEvent::UnPublish { identifier, info } ==> {
                &&& r == HubReply::UnPublish
                &&& !old(self)@.has_stream(identifier@) ==> final(self)@ == old(self)@
                &&& old(self)@.has_stream(identifier@) ==> unpublish_effect(
                    old(self)@,
                    final(self)@,
                    identifier@,
                )
            },
            event matches StreamHubEvent::Subscribe { identifier, info } ==> (
            match spec_subscribe_error(old(self)@, identifier@, info@) {
                Some(e) => r == HubReply::Subscribe(Err(e)) && final(self)@ == old(self)@,
                None => r == HubReply::Subscribe(Ok(())) && subscribe_effect(
                    old(self)@,
                    final(self)@,
                    identifier@,
                    info@,
                ),
            }),
            event matches StreamHubEvent::UnSubscribe { identifier, info } ==> {
                &&& r == HubReply::UnSubscribe
                &&& !(old(self)@.has_stream(identifier@) && stream_has_subscriber(
                    old(self)@.stream_at(identifier@),
                    info.id,
                )) ==> final(self)@ == old(self)@
                &&& old(self)@.has_stream(identifier@) && stream_has_subscriber(
                    old(self)@.stream_at(identifier@),
                    info.id,
                ) ==> unsubscribe_effect(old(self)@, final(self)@, identifier@, info.id)
            },
    {
        match event {
            StreamHubEvent::Publish { identifier, info, stream_handler } => {
                let outcome = self.publish(identifier, info, stream_handler);
                HubReply::Publish(outcome)
            },
            StreamHubEvent::UnPublish { identifier, info: _ } => {
                self.unpublish(&identifier);
                HubReply::UnPublish
            },
            StreamHubEvent::Subscribe { identifier, info } => {
                let outcome = self.subscribe(&identifier, info);
                HubReply::Subscribe(outcome)
            },
            StreamHubEvent::UnSubscribe { identifier, info } => {
                self.unsubscribe(&identifier, &info);
                HubReply::UnSubscribe
            },
        }
    }
}



impl StreamsHub {
    /// One statistics aggregation tick over every live stream: each stream's
    /// rates are derived over a window of `seconds` and the consumed raw
    /// accumulators reset, as the periodic aggregator does.
    pub fn caculate_statistics(&mut self, seconds: u64)
        requires
            old(self)@.wf(),
            seconds >= 1,
        ensures
            final(self)@.wf(),
            final(self)@.streams.len() == old(self)@.streams.len(),
            forall|i: int|
                0 <= i < old(self)@.streams.len() ==> #[trigger] final(self)@.streams[i] == (
                StreamView {
                    statistics: crate::statistics::aggregate_stats(
                        old(self)@.streams[i].statistics,
                        seconds,
                    ),
                    ..old(self)@.streams[i]
                }),
            final(self)@.closed_channels == old(self)@.closed_channels,
            final(self)@.subscribe_limit == old(self)@.subscribe_limit,
            final(self)@.channel_capacity == old(self)@.channel_capacity,
    {
        let n = self.streams.len();
        let mut i: usize = 0;
        while i < n
            invariant
                i <= n,
                n == self.streams.len(),
                seconds >= 1,
                old(self)@.wf(),
                n == old(self)@.streams.len(),
                forall|k: int|
                    0 <= k < i ==> #[trigger] self@.streams[k] == (StreamView {
                        statistics: crate::statistics::aggregate_stats(
                            old(self)@.streams[k].statistics,
                            seconds,
                        ),
                        ..old(self)@.streams[k]
                    }),
                forall|k: int| i <= k < n ==> #[trigger] self@.streams[k] == old(self)@.streams[k],
                self@.closed_channels == old(self)@.closed_channels,
                self@.subscribe_limit == old(self)@.subscribe_limit,
                self@.channel_capacity == old(self)@.channel_capacity,
            decreases n - i,
        {
            let ghost before = self@.streams;
            let ghost vec_before = self.streams@;
            let mut stream = self.streams.remove(i);
            let ghost sv = stream@;
            proof {
                assert(sv == vec_before[i as int]@);
                assert(before[i as int] == vec_before[i as int]@);
            }
            stream.statistics.caculate(seconds);
            let ghost sv2 = stream@;
            self.streams.insert(i, stream);
            proof {
                assert(self@.streams =~= before.update(i as int, sv2));
                assert(sv == old(self)@.streams[i as int]);
                assert(sv2 =~= StreamView {
                    statistics: crate::statistics::aggregate_stats(sv.statistics, seconds),
                    ..sv
                });
                assert(self@.streams[i as int] == sv2);
            }
            i = i + 1;
        }
        proof {
            let o = old(self)@;
            let f = self@;
            assert forall|a: int, b: int| 0 <= a < b < f.streams.len() implies (
            #[trigger] f.streams[a]).identifier != (#[trigger] f.streams[b]).identifier by {
                assert(f.streams[a].identifier == o.streams[a].identifier);
                assert(f.streams[b].identifier == o.streams[b].identifier);
            }
            assert forall|k: int| 0 <= k < f.streams.len() implies stream_wf(
                #[trigger] f.streams[k],
            ) by {
                let s = o.streams[k];
                let s2 = f.streams[k];
                assert(stream_wf(s));
                assert(s2.statistics.subscribers.len() == s.statistics.subscribers.len());
                assert forall|a: int| 0 <= a < s2.subscribers.len() implies (
                #[trigger] s2.statistics.subscribers[a]).id == s2.subscribers[a].info.0 by {
                    assert(s2.statistics.subscribers[a] == crate::statistics::aggregate_subscriber(
                        s.statistics.subscribers[a],
                        seconds,
                    ));
                }
            }
        }
    }
}


} // verus!

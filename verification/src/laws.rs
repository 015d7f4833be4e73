//! Hub-wide laws: what holds of every run of topology events and of every
//! fan-out, proved over the same mathematical model the hub's contracts use.

use vstd::prelude::*;
use crate::define::{MediaKind, StreamHubError, SubDataType, SubscribeType};
use crate::hub::{
    spec_subscribe_error, stream_has_subscriber, stream_subscriber_index, subscribe_effect,
    unpublish_effect, StreamSubscriberView, StreamsHubView,
};
use crate::identifier::ProtocolKind;
use crate::utils::Uuid;

verus! {

/// One topology decision on one stream, reduced to the subscriber identity
/// it concerns.
pub enum TopologyOp {
    Subscribe(Uuid),
    UnSubscribe(Uuid),
}

/// Whether `id` occurs in a subscriber-identity roster.
pub open spec fn roster_has(ids: Seq<Uuid>, id: Uuid) -> bool {
    exists|j: int| 0 <= j < ids.len() && ids[j] == id
}

/// The index of `id` in the roster; meaningful where identities are unique.
pub open spec fn roster_index(ids: Seq<Uuid>, id: Uuid) -> int {
    choose|j: int| 0 <= j < ids.len() && ids[j] == id
}

/// What one hub-processed topology event does to a stream's subscriber
/// roster, exactly as `subscribe` and `unsubscribe` do to the subscriber
/// entries: a subscribe re-attaches a present identity at the end or appends
/// a fresh one; an unsubscribe removes a present identity and ignores an
/// unknown one.
pub open spec fn apply_topology_op(ids: Seq<Uuid>, op: TopologyOp) -> Seq<Uuid> {
    match op {
        TopologyOp::Subscribe(id) => if roster_has(ids, id) {
            ids.remove(roster_index(ids, id)).push(id)
        } else {
            ids.push(id)
        },
        TopologyOp::UnSubscribe(id) => if roster_has(ids, id) {
            ids.remove(roster_index(ids, id))
        } else {
            ids
        },
    }
}

/// A whole run of topology events, processed in hub-arrival order.
pub open spec fn apply_topology_ops(ids: Seq<Uuid>, ops: Seq<TopologyOp>) -> Seq<Uuid>
    decreases ops.len(),
{
    if ops.len() == 0 {
        ids
    } else {
        apply_topology_ops(apply_topology_op(ids, ops[0]), ops.drop_first())
    }
}

/// How many subscribes of the run attach a fresh identity (each adds one
/// subscriber; a re-attach replaces and adds none).
pub open spec fn effective_subscribes(ids: Seq<Uuid>, ops: Seq<TopologyOp>) -> int
    decreases ops.len(),
{
    if ops.len() == 0 {
        0
    } else {
        let here: int = match ops[0] {
            TopologyOp::Subscribe(id) => if !roster_has(ids, id) {
                1
            } else {
                0
            },
            TopologyOp::UnSubscribe(_) => 0,
        };
        here + effective_subscribes(apply_topology_op(ids, ops[0]), ops.drop_first())
    }
}

/// How many unsubscribes of the run remove a present identity (each removes
/// one subscriber; one naming an unknown identity is a no-op).
pub open spec fn effective_unsubscribes(ids: Seq<Uuid>, ops: Seq<TopologyOp>) -> int
    decreases ops.len(),
{
    if ops.len() == 0 {
        0
    } else {
        let here: int = match ops[0] {
            TopologyOp::Subscribe(_) => 0,
            TopologyOp::UnSubscribe(id) => if roster_has(ids, id) {
                1
            } else {
                0
            },
        };
        here + effective_unsubscribes(apply_topology_op(ids, ops[0]), ops.drop_first())
    }
}

/// Over any interleaving of subscribes and unsubscribes on one stream, the
/// subscriber count after processing equals the count before plus the
/// subscribes processed minus the unsubscribes processed — and, being a
/// length, it is never negative, so the unsubscribes can never outrun the
/// subscribes.
pub proof fn lemma_subscriber_count_consistency(ids: Seq<Uuid>, ops: Seq<TopologyOp>)
    ensures
        apply_topology_ops(ids, ops).len() == ids.len() + effective_subscribes(ids, ops)
            - effective_unsubscribes(ids, ops),
        effective_unsubscribes(ids, ops) <= ids.len() + effective_subscribes(ids, ops),
    decreases ops.len(),
{
    if ops.len() > 0 {
        let next = apply_topology_op(ids, ops[0]);
        match ops[0] {
            TopologyOp::Subscribe(id) => {
                if roster_has(ids, id) {
                    assert(next.len() == ids.len());
                } else {
                    assert(next.len() == ids.len() + 1);
                }
            },
            TopologyOp::UnSubscribe(id) => {
                if roster_has(ids, id) {
                    assert(next.len() == ids.len() - 1);
                } else {
                    assert(next.len() == ids.len());
                }
            },
        }
        lemma_subscriber_count_consistency(next, ops.drop_first());
    }
}

/// The subscriber identities of a stream's entries, in entry order.
pub open spec fn roster_of(subs: Seq<StreamSubscriberView>) -> Seq<Uuid> {
    subs.map_values(|s: StreamSubscriberView| s.info.0)
}

/// What a hub-accepted subscribe does to the stream's roster is exactly one
/// `TopologyOp::Subscribe` of the topology model: the two transition
/// functions agree.
pub proof fn lemma_subscribe_is_topology_op(
    o: StreamsHubView,
    f: StreamsHubView,
    id: (ProtocolKind, Seq<char>, Seq<char>),
    infov: (Uuid, SubscribeType, SubDataType, (Seq<char>, Seq<char>)),
)
    requires
        o.wf(),
        o.has_stream(id),
        spec_subscribe_error(o, id, infov) is None,
        subscribe_effect(o, f, id, infov),
    ensures
        roster_of(f.streams[o.stream_index(id)].subscribers) == apply_topology_op(
            roster_of(o.streams[o.stream_index(id)].subscribers),
            TopologyOp::Subscribe(infov.0),
        ),
{
    let i = o.stream_index(id);
    let s = o.streams[i];
    let s2 = f.streams[i];
    let ids = roster_of(s.subscribers);
    if stream_has_subscriber(s, infov.0) {
        let j = stream_subscriber_index(s, infov.0);
        assert(s.subscribers[j].info.0 == infov.0);
        assert(ids[j] == infov.0);
        assert(roster_has(ids, infov.0));
        let c = roster_index(ids, infov.0);
        assert(s.subscribers[c].info.0 == ids[c]);
        crate::hub::lemma_subscriber_index_is(s, c);
        assert(c == j);
        assert(roster_of(s2.subscribers) =~= ids.remove(j).push(infov.0));
    } else {
        if roster_has(ids, infov.0) {
            let c = roster_index(ids, infov.0);
            assert(s.subscribers[c].info.0 == infov.0);
            assert(stream_has_subscriber(s, infov.0));
        }
        assert(roster_of(s2.subscribers) =~= ids.push(infov.0));
    }
}

/// What a hub-processed unsubscribe of a present subscriber does to the
/// stream's roster is exactly one `TopologyOp::UnSubscribe`.
pub proof fn lemma_unsubscribe_is_topology_op(
    o: StreamsHubView,
    f: StreamsHubView,
    id: (ProtocolKind, Seq<char>, Seq<char>),
    sub_id: Uuid,
)
    requires
        o.wf(),
        o.has_stream(id),
        stream_has_subscriber(o.stream_at(id), sub_id),
        crate::hub::unsubscribe_effect(o, f, id, sub_id),
    ensures
        roster_of(f.streams[o.stream_index(id)].subscribers) == apply_topology_op(
            roster_of(o.streams[o.stream_index(id)].subscribers),
            TopologyOp::UnSubscribe(sub_id),
        ),
{
    let i = o.stream_index(id);
    let s = o.streams[i];
    let s2 = f.streams[i];
    let ids = roster_of(s.subscribers);
    let j = stream_subscriber_index(s, sub_id);
    assert(s.subscribers[j].info.0 == sub_id);
    assert(ids[j] == sub_id);
    assert(roster_has(ids, sub_id));
    let c = roster_index(ids, sub_id);
    assert(s.subscribers[c].info.0 == ids[c]);
    crate::hub::lemma_subscriber_index_is(s, c);
    assert(c == j);
    assert(roster_of(s2.subscribers) =~= ids.remove(j));
}

/// At most one Published stream per identifier: two table entries with one
/// identifier are the same entry.
pub proof fn lemma_at_most_one_publisher(h: StreamsHubView, i: int, j: int)
    requires
        h.wf(),
        0 <= i < h.streams.len(),
        0 <= j < h.streams.len(),
        h.streams[i].identifier == h.streams[j].identifier,
    ensures
        i == j,
{
    if i < j {
        assert(h.streams[i].identifier != h.streams[j].identifier);
    } else if j < i {
        assert(h.streams[j].identifier != h.streams[i].identifier);
    }
}

/// After an unpublish the identifier is out of the routing table: a subscribe
/// on it is refused with `StreamNotFound` until a new publish, and every
/// channel of the stream's subscribers stands parked and closed for its
/// reader to drain to end-of-stream.
pub proof fn lemma_unpublish_clears_stream(
    o: StreamsHubView,
    f: StreamsHubView,
    id: (ProtocolKind, Seq<char>, Seq<char>),
)
    requires
        o.wf(),
        o.has_stream(id),
        unpublish_effect(o, f, id),
    ensures
        !f.has_stream(id),
        forall|infov: (Uuid, SubscribeType, SubDataType, (Seq<char>, Seq<char>))|
            spec_subscribe_error(f, id, infov) == Some(StreamHubError::StreamNotFound),
        forall|j: int|
            0 <= j < o.streams[o.stream_index(id)].subscribers.len()
                ==> #[trigger] f.closed_channels[o.closed_channels.len() + j] == (
            o.streams[o.stream_index(id)].subscribers[j].info.0,
            o.streams[o.stream_index(id)].subscribers[j].channel,
            true,
        ),
{
    let i = o.stream_index(id);
    assert forall|k: int| 0 <= k < f.streams.len() implies (#[trigger] f.streams[k]).identifier
        != id by {
        let ok: int = if k < i {
            k
        } else {
            k + 1
        };
        assert(f.streams[k] == o.streams[ok]);
        lemma_at_most_one_publisher(o, i, i);
        if o.streams[ok].identifier == id {
            lemma_at_most_one_publisher(o, i, ok);
        }
    }
    if f.has_stream(id) {
        let w = choose|k: int|
            0 <= k < f.streams.len() && (#[trigger] f.streams[k]).identifier == id;
        assert(f.streams[w].identifier != id);
    }
    let subs = o.streams[i].subscribers;
    assert forall|j: int| 0 <= j < subs.len() implies #[trigger] f.closed_channels[
        o.closed_channels.len() + j
    ] == (subs[j].info.0, subs[j].channel, true) by {
        assert(f.closed_channels[o.closed_channels.len() + j] == crate::hub::parked_channels(
            subs,
        )[j]);
    }
}

/// The channel contents of a set of subscribers after a whole burst of media
/// units is fanned out to all of them.
pub open spec fn fan_out_all(
    channels: Seq<Seq<(MediaKind, Seq<u8>)>>,
    units: Seq<(MediaKind, Seq<u8>)>,
) -> Seq<Seq<(MediaKind, Seq<u8>)>>
    decreases units.len(),
{
    if units.len() == 0 {
        channels
    } else {
        fan_out_all(
            channels.map_values(|c: Seq<(MediaKind, Seq<u8>)>| c.push(units[0])),
            units.drop_first(),
        )
    }
}

/// Order preservation of the fan-out: when every unit of a burst reaches
/// every channel — as `relay_media` does for each subscriber whose channel
/// is open and below capacity — each channel has received exactly the burst,
/// in publisher order, after what it already held. All subscribers therefore
/// observe the same units in the same relative order.
pub proof fn lemma_fan_out_preserves_order(
    channels: Seq<Seq<(MediaKind, Seq<u8>)>>,
    units: Seq<(MediaKind, Seq<u8>)>,
    j: int,
)
    requires
        0 <= j < channels.len(),
    ensures
        fan_out_all(channels, units).len() == channels.len(),
        fan_out_all(channels, units)[j] == channels[j] + units,
    decreases units.len(),
{
    if units.len() == 0 {
        assert(channels[j] + units =~= channels[j]);
    } else {
        let step = channels.map_values(|c: Seq<(MediaKind, Seq<u8>)>| c.push(units[0]));
        lemma_fan_out_preserves_order(step, units.drop_first(), j);
        assert(step[j] == channels[j].push(units[0]));
        assert(channels[j].push(units[0]) + units.drop_first() =~= channels[j] + units);
    }
}

} // verus!

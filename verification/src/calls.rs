//! What the calls of the library come to, one by one and one after the other.
//!
//! Each law takes a call that was made, with its arguments and its result, and says what the
//! call did in terms of the handles, the packets and the tables that it was about.

use crate::define::{
    AvStatistic, AvStatisticSender, ChannelData, ChannelDataConsumer, ChannelDataProducer,
    ChannelDataView, ClientEvent, ClientEventView, PubSubInfo, PubSubInfoView, SubscribeType,
    SubscriberInfo, TransmitterEvent, TransmitterEventConsumer, TransmitterEventView,
};
use crate::errors::{delivery, ChannelError, ChannelErrorValue};
use crate::links::{
    data_channel, data_channel_of, data_offers, event_channel_of, statistic_channel,
    statistic_clones, statistic_offers, Offer,
};
use crate::manager::notification_body;
use crate::name_map::NameMap;
use crate::netio::{IOReadError, IOReadErrorValue};
use crate::transmitter::{
    all_taken, ever_refused, gop_packets, last_taken, refused_at, refused_within, report, CachedMedia, ReplayFailure, SendFailure, Transmitter, TransmitterAction,
};
use vstd::prelude::*;

verus! {

/// Nothing of a packet is lost on the way to what the laws say of it.
pub proof fn law_packets_are_seen_whole(one: ChannelData, other: ChannelData)
    requires
        one@ == other@,
    ensures
        match one {
            ChannelData::Video { timestamp, data } => other matches ChannelData::Video {
                timestamp: other_timestamp,
                data: other_data,
            } && other_timestamp == timestamp && other_data@ == data@,
            ChannelData::Audio { timestamp, data } => other matches ChannelData::Audio {
                timestamp: other_timestamp,
                data: other_data,
            } && other_timestamp == timestamp && other_data@ == data@,
            ChannelData::MetaData { timestamp, data } => other matches ChannelData::MetaData {
                timestamp: other_timestamp,
                data: other_data,
            } && other_timestamp == timestamp && other_data@ == data@,
        },
{
}

/// A packet says what kind it is, when it is shown and what it holds.
pub proof fn law_packets_are_seen_as_they_are(timestamp: u32, data: Vec<u8>)
    ensures
        (ChannelData::Video { timestamp, data })@ == (ChannelDataView::Video { timestamp, data: data@ }),
        (ChannelData::Audio { timestamp, data })@ == (ChannelDataView::Audio { timestamp, data: data@ }),
        (ChannelData::MetaData { timestamp, data })@ == (ChannelDataView::MetaData { timestamp, data: data@ }),
{
}

/// An event says what a transmitter is told, and with which handle and about whom.
pub proof fn law_events_are_seen_as_they_are(
    producer: ChannelDataProducer,
    info: SubscriberInfo,
    sender: AvStatisticSender,
)
    ensures
        (TransmitterEvent::Subscribe { producer, info })@ == (TransmitterEventView::Subscribe { producer, info }),
        (TransmitterEvent::UnSubscribe { info })@ == (TransmitterEventView::UnSubscribe { info }),
        (TransmitterEvent::UnPublish {  })@ == TransmitterEventView::UnPublish,
        (TransmitterEvent::Api { sender })@ == (TransmitterEventView::Api {
            channel: statistic_channel(sender),
            offers: statistic_offers(sender),
            clones: statistic_clones(sender),
        }),
{
}

/// What the clients are told, and what is remembered of a client, names the stream that it is
/// about.
pub proof fn law_names_are_seen_as_they_are(app_name: String, stream_name: String, sub_info: SubscriberInfo)
    ensures
        (ClientEvent::Publish { app_name, stream_name })@ == (ClientEventView::Publish {
            app_name: app_name@,
            stream_name: stream_name@,
        }),
        (ClientEvent::Subscribe { app_name, stream_name })@ == (ClientEventView::Subscribe {
            app_name: app_name@,
            stream_name: stream_name@,
        }),
        (PubSubInfo::Publish { app_name, stream_name })@ == (PubSubInfoView::Publish {
            app_name: app_name@,
            stream_name: stream_name@,
        }),
        (PubSubInfo::Subscribe { app_name, stream_name, sub_info })@ == (PubSubInfoView::Subscribe {
            app_name: app_name@,
            stream_name: stream_name@,
            sub_info,
        }),
{
}

/// A copy of a packet is the packet, and a copy of an error is the error.
pub proof fn law_copies_are_faithful(
    packet: ChannelData,
    packet_copy: ChannelData,
    error: ChannelError,
    error_copy: ChannelError,
    known: PubSubInfo,
    known_copy: PubSubInfo,
)
    requires
        call_ensures(ChannelData::clone, (&packet,), packet_copy),
        call_ensures(ChannelError::clone, (&error,), error_copy),
        call_ensures(PubSubInfo::clone, (&known,), known_copy),
    ensures
        packet_copy@ == packet@,
        error_copy == error,
        known_copy@ == known@,
{
}

/// What was offered and not taken has failed with a send error, and nothing else has.
pub proof fn law_what_is_not_taken_fails(taken: bool, r: Result<(), ChannelError>)
    requires
        call_ensures(delivery, (taken,), r),
    ensures
        r is Ok <==> taken,
        r matches Err(error) ==> error.value == ChannelErrorValue::SendError,
{
}

/// The notifier is told the request as it was serialized, and otherwise that it is empty.
pub proof fn law_notifications_carry_the_request(serialized: Option<String>, r: String)
    requires
        call_ensures(notification_body, (serialized,), r),
    ensures
        serialized matches Some(text) ==> r@ == text@,
        serialized is None ==> r@ == "empty body"@,
{
}

/// One for a packet that is there, and none for one that is not.
pub open spec fn one_if_any(packet: Option<ChannelData>) -> int {
    if packet is Some {
        1
    } else {
        0
    }
}

/// How many packets the first groups hold.
pub open spec fn packets_in(gops: Seq<Vec<ChannelData>>, count: int) -> int
    decreases count,
{
    if count <= 0 {
        0
    } else {
        packets_in(gops, count - 1) + gops[count - 1]@.len()
    }
}

/// The packets of a group stand together, after those of the groups before it.
proof fn lemma_group_position(gops: Seq<Vec<ChannelData>>, count: int, i: int, j: int)
    requires
        0 <= count <= gops.len(),
    ensures
        gop_packets(gops.take(count)).len() == packets_in(gops, count),
        0 <= i < count && 0 <= j < gops[i]@.len() ==> 0 <= packets_in(gops, i) + j < packets_in(gops, count)
            && gop_packets(gops.take(count))[packets_in(gops, i) + j] == gops[i]@[j]@,
    decreases count,
{
    let head = gops.take(count);
    if count > 0 {
        assert(head.drop_last() =~= gops.take(count - 1));
        assert(head.last() == gops[count - 1]);
        lemma_group_position(gops, count - 1, i, j);
        if i == count - 1 && 0 <= j < gops[i]@.len() {
            lemma_positions(gops, i);
        }
    }
}

/// No number of packets is negative.
proof fn lemma_positions(gops: Seq<Vec<ChannelData>>, count: int)
    requires
        0 <= count <= gops.len(),
    ensures
        packets_in(gops, count) >= 0,
    decreases count,
{
    if count > 0 {
        lemma_positions(gops, count - 1);
    }
}

/// Each of the description, the audio header and the video header that is cached is replayed,
/// whatever else is cached, and in this order: the description first, the audio header directly
/// after it, the video header directly after these, each at the front if nothing is before it.
pub proof fn law_headers_are_replayed(cached: CachedMedia, sub_type: SubscribeType, r: Vec<ChannelData>)
    requires
        call_ensures(CachedMedia::replay, (cached, sub_type), r),
    ensures
        r@.len() >= one_if_any(cached.metadata) + one_if_any(cached.audio_seq) + one_if_any(cached.video_seq),
        cached.metadata matches Some(packet) ==> r@[0]@ == packet@,
        cached.audio_seq matches Some(packet) ==> r@[one_if_any(cached.metadata)]@ == packet@,
        cached.video_seq matches Some(packet) ==> r@[one_if_any(cached.metadata) + one_if_any(
            cached.audio_seq,
        )]@ == packet@,
{
    let seen = r@.map_values(|packet: ChannelData| packet@);
    assert(seen == cached.replay_packets(sub_type));
    assert(seen.len() == r@.len());
    assert(forall|i: int| 0 <= i < r@.len() ==> r@[i]@ == #[trigger] seen[i]);
    if cached.metadata is Some {
        assert(seen[0] == r@[0]@);
    }
    if cached.audio_seq is Some {
        let i = one_if_any(cached.metadata);
        assert(seen[i] == r@[i]@);
    }
    if cached.video_seq is Some {
        let i = one_if_any(cached.metadata) + one_if_any(cached.audio_seq);
        assert(seen[i] == r@[i]@);
    }
}

/// Whoever does not relay the stream is replayed every packet of every cached group, the groups
/// one after the other behind the headers, and nothing more. A relay is replayed the headers and
/// nothing more, and so is everybody if no groups are cached.
pub proof fn law_groups_are_replayed(cached: CachedMedia, sub_type: SubscribeType, r: Vec<ChannelData>)
    requires
        call_ensures(CachedMedia::replay, (cached, sub_type), r),
    ensures
        ({
            let start = one_if_any(cached.metadata) + one_if_any(cached.audio_seq) + one_if_any(cached.video_seq);
            match (sub_type, cached.gops) {
                (SubscribeType::PublisherRtmp, _) => r@.len() == start,
                (_, None) => r@.len() == start,
                (_, Some(gops)) => {
                    &&& r@.len() == start + packets_in(gops@, gops@.len() as int)
                    &&& forall|i: int, j: int|
                        0 <= i < gops@.len() && 0 <= j < gops@[i]@.len() ==> r@[start + packets_in(gops@, i)
                            + j]@ == #[trigger] gops@[i]@[j]@
                },
            }
        }),
{
    let seen = r@.map_values(|packet: ChannelData| packet@);
    let start = one_if_any(cached.metadata) + one_if_any(cached.audio_seq) + one_if_any(cached.video_seq);
    assert(seen == cached.replay_packets(sub_type));
    assert(seen.len() == r@.len());
    if sub_type != SubscribeType::PublisherRtmp {
        if let Some(gops) = cached.gops {
            assert(gops@.take(gops@.len() as int) =~= gops@);
            lemma_group_position(gops@, gops@.len() as int, 0, 0);
            assert forall|i: int, j: int| 0 <= i < gops@.len() && 0 <= j < gops@[i]@.len() implies r@[start
                + packets_in(gops@, i) + j]@ == #[trigger] gops@[i]@[j]@ by {
                lemma_group_position(gops@, gops@.len() as int, i, j);
                assert(seen[start + packets_in(gops@, i) + j] == r@[start + packets_in(gops@, i) + j]@);
            }
        }
    }
}

/// A transmitter begins with the names and channels that it is given, and with nobody to send to.
pub proof fn law_new_transmitter(
    app_name: String,
    stream_name: String,
    data_consumer: ChannelDataConsumer,
    event_consumer: TransmitterEventConsumer,
    gop_num: usize,
    r: Transmitter,
)
    requires
        call_ensures(Transmitter::new, (app_name, stream_name, data_consumer, event_consumer, gop_num), r),
    ensures
        r.data_consumer == data_consumer,
        r.event_consumer == event_consumer,
        r.cache.app_name@ == app_name@,
        r.cache.stream_name@ == stream_name@,
        r.cache.gop_num == gop_num,
        r.subscriberid_to_producer@.dom() == Set::<u128>::empty(),
{
}

/// Whatever a transmitter is told, it goes on listening where it did, for the same stream.
pub proof fn law_events_leave_the_transmitter_in_place(
    transmitter: &mut Transmitter,
    event: TransmitterEvent,
    r: TransmitterAction,
)
    requires
        call_ensures(Transmitter::handle_event, (transmitter, event), r),
    ensures
        data_channel_of(final(transmitter).data_consumer) == data_channel_of(old(transmitter).data_consumer),
        event_channel_of(final(transmitter).event_consumer) == event_channel_of(old(transmitter).event_consumer),
        final(transmitter).cache.app_name@ == old(transmitter).cache.app_name@,
        final(transmitter).cache.stream_name@ == old(transmitter).cache.stream_name@,
        final(transmitter).cache.gop_num == old(transmitter).cache.gop_num,
{
}

/// A transmitter that is told of a player is to bring in that player, with the handle that came
/// with it; until then nobody's handle changes.
pub proof fn law_told_of_a_player(
    transmitter: &mut Transmitter,
    producer: ChannelDataProducer,
    info: SubscriberInfo,
    r: TransmitterAction,
)
    requires
        call_ensures(Transmitter::handle_event, (transmitter, TransmitterEvent::Subscribe { producer, info }), r),
    ensures
        r matches TransmitterAction::Replay { producer: given, info: whom } && given == producer && whom == info,
        final(transmitter).subscriberid_to_producer@ == old(transmitter).subscriberid_to_producer@,
{
}

/// A transmitter that is told that a player has gone no longer has it, gives its handle out as
/// it was, and keeps every other player's.
pub proof fn law_told_that_a_player_has_gone(
    transmitter: &mut Transmitter,
    info: SubscriberInfo,
    r: TransmitterAction,
)
    requires
        call_ensures(Transmitter::handle_event, (transmitter, TransmitterEvent::UnSubscribe { info }), r),
    ensures
        !final(transmitter).subscriberid_to_producer@.contains_key(info.id),
        forall|id: u128|
            id != info.id ==> {
                &&& final(transmitter).subscriberid_to_producer@.contains_key(id) == #[trigger] old(
                    transmitter,
                ).subscriberid_to_producer@.contains_key(id)
                &&& final(transmitter).subscriberid_to_producer@[id] == old(transmitter).subscriberid_to_producer@[id]
            },
        match r {
            TransmitterAction::Forget { producer: Some(handle) } => {
                &&& old(transmitter).subscriberid_to_producer@.contains_key(info.id)
                &&& handle == old(transmitter).subscriberid_to_producer@[info.id]
            },
            TransmitterAction::Forget { producer: None } => !old(
                transmitter,
            ).subscriberid_to_producer@.contains_key(info.id),
            _ => false,
        },
{
}

/// A transmitter stops when its stream is taken away, and then only.
pub proof fn law_stops_when_unpublished(transmitter: &mut Transmitter, event: TransmitterEvent, r: TransmitterAction)
    requires
        call_ensures(Transmitter::handle_event, (transmitter, event), r),
    ensures
        r is Stop <==> event is UnPublish,
        event is UnPublish ==> final(transmitter).subscriberid_to_producer@ == old(
            transmitter,
        ).subscriberid_to_producer@,
{
}

/// A transmitter that is asked for its statistics is to report through the handle that came with
/// the question.
pub proof fn law_reports_to_whoever_asked(transmitter: &mut Transmitter, sender: AvStatisticSender, r: TransmitterAction)
    requires
        call_ensures(Transmitter::handle_event, (transmitter, TransmitterEvent::Api { sender }), r),
    ensures
        r matches TransmitterAction::Report { sender: given } && given == sender,
        final(transmitter).subscriberid_to_producer@ == old(transmitter).subscriberid_to_producer@,
{
}

/// A report is offered once, as it is, on the channel of whoever asked, and `true` says that it
/// was taken.
pub proof fn law_a_report_is_sent_once(sender: &mut AvStatisticSender, statistic: AvStatistic, r: bool)
    requires
        call_ensures(report, (sender, statistic), r),
    ensures
        statistic_channel(*final(sender)) == statistic_channel(*old(sender)),
        statistic_offers(*final(sender)) == statistic_offers(*old(sender)).push(
            Offer { message: statistic.report@, taken: r },
        ),
        statistic_clones(*final(sender)) == statistic_clones(*old(sender)),
{
}

/// A player that is brought in has taken exactly what the cache replays for its kind, packet by
/// packet, on the channel that it came with. From then on the transmitter has it under its
/// number. Nobody else is touched, and the handle that it had before is given out as it was.
pub proof fn law_a_player_is_given_the_cache(
    transmitter: &mut Transmitter,
    producer: ChannelDataProducer,
    info: SubscriberInfo,
    cached: CachedMedia,
    replayed: Vec<ChannelData>,
    r: Result<Option<ChannelDataProducer>, ReplayFailure>,
)
    requires
        call_ensures(Transmitter::subscribe, (transmitter, producer, info, cached), r),
        call_ensures(CachedMedia::replay, (cached, info.sub_type), replayed),
        r is Ok,
    ensures
        ({
            let before = old(transmitter).subscriberid_to_producer@;
            let after = final(transmitter).subscriberid_to_producer@;
            let handle = after[info.id];
            let start = data_offers(producer).len();
            &&& after.contains_key(info.id)
            &&& data_channel(handle) == data_channel(producer)
            &&& data_offers(handle).len() == start + replayed@.len()
            &&& data_offers(producer).is_prefix_of(data_offers(handle))
            &&& forall|i: int|
                0 <= i < replayed@.len() ==> data_offers(handle)[start + i] == (Offer {
                    message: (#[trigger] replayed@[i])@,
                    taken: true,
                })
            &&& forall|id: u128|
                id != info.id ==> after.contains_key(id) == #[trigger] before.contains_key(id) && after[id] == before[id]
            &&& r->Ok_0 is Some <==> before.contains_key(info.id)
            &&& r->Ok_0 matches Some(replaced) ==> replaced == before[info.id]
        }),
{
    let seen = replayed@.map_values(|packet: ChannelData| packet@);
    let handle = final(transmitter).subscriberid_to_producer@[info.id];
    let start = data_offers(producer).len();
    assert(seen == cached.replay_packets(info.sub_type));
    assert(data_offers(handle) == data_offers(producer) + all_taken(seen));
    assert forall|i: int| 0 <= i < replayed@.len() implies data_offers(handle)[start + i] == (Offer {
        message: (#[trigger] replayed@[i])@,
        taken: true,
    }) by {
        assert(seen[i] == replayed@[i]@);
        assert(all_taken(seen)[i].message == seen[i]);
    }
}

/// A player that does not take all of the replay was offered it in order up to the packet that
/// was handed back; its handle comes back, and nobody is brought in or touched. One for which
/// nothing is replayed is always brought in, and one whose channel is known to be closed never
/// takes a replay.
pub proof fn law_a_player_that_is_gone_is_not_brought_in(
    transmitter: &mut Transmitter,
    producer: ChannelDataProducer,
    info: SubscriberInfo,
    cached: CachedMedia,
    replayed: Vec<ChannelData>,
    r: Result<Option<ChannelDataProducer>, ReplayFailure>,
)
    requires
        call_ensures(Transmitter::subscribe, (transmitter, producer, info, cached), r),
        call_ensures(CachedMedia::replay, (cached, info.sub_type), replayed),
    ensures
        replayed@.len() == 0 ==> r is Ok,
        replayed@.len() > 0 && data_offers(producer).len() > 0 && !data_offers(producer).last().taken ==> r is Err,
        r matches Err(failure) ==> {
            let offers = data_offers(failure.producer);
            let start = data_offers(producer).len();
            &&& failure.error.value == ChannelErrorValue::SendError
            &&& data_channel(failure.producer) == data_channel(producer)
            &&& data_offers(producer).is_prefix_of(offers)
            &&& start < offers.len() <= start + replayed@.len()
            &&& forall|i: int|
                start <= i < offers.len() ==> (#[trigger] offers[i]).message == replayed@[i - start]@
                    && offers[i].taken == (i < offers.len() - 1)
            &&& final(transmitter).subscriberid_to_producer@ == old(transmitter).subscriberid_to_producer@
        },
{
    let seen = replayed@.map_values(|packet: ChannelData| packet@);
    let start = data_offers(producer).len();
    assert(seen == cached.replay_packets(info.sub_type));
    assert(seen.len() == replayed@.len());
    if start > 0 && !data_offers(producer).last().taken {
        assert(!data_offers(producer)[start - 1].taken);
        assert(ever_refused(producer));
    }
    if let Err(failure) = r {
        let offers = data_offers(failure.producer);
        assert(refused_within(producer, failure.producer, seen));
        let k = choose|k: int| refused_at(producer, failure.producer, seen, k);
        assert(refused_at(producer, failure.producer, seen, k));
        assert(offers.len() == start + k + 1);
        assert forall|i: int| start <= i < offers.len() implies (#[trigger] offers[i]).message == replayed@[i
            - start]@ && offers[i].taken == (i < offers.len() - 1) by {
            let j = i - start;
            assert(seen[j] == replayed@[j]@);
            if j < k {
                assert(all_taken(seen.take(k))[j].message == seen[j]);
            }
        }
    }
}

/// A packet that the cache could not keep goes to nobody, and the reason comes back.
pub proof fn law_what_is_not_kept_is_not_passed_on(
    transmitter: &mut Transmitter,
    data: ChannelData,
    error: ChannelError,
    r: Result<Vec<SendFailure>, ChannelError>,
)
    requires
        call_ensures(Transmitter::handle_data, (transmitter, data, Err(error)), r),
    ensures
        r matches Err(reason) && reason == error,
        final(transmitter).subscriberid_to_producer@ == old(transmitter).subscriberid_to_producer@,
{
}

/// A packet of sound or pictures that was kept is offered to every player once, as it is, on the
/// player's channel, and to nobody else; the description of the stream is offered to nobody.
pub proof fn law_a_packet_goes_to_every_player(
    transmitter: &mut Transmitter,
    data: ChannelData,
    r: Result<Vec<SendFailure>, ChannelError>,
)
    requires
        call_ensures(Transmitter::handle_data, (transmitter, data, Ok(())), r),
    ensures
        r is Ok,
        final(transmitter).subscriberid_to_producer@.dom() == old(transmitter).subscriberid_to_producer@.dom(),
        data is MetaData ==> r->Ok_0@.len() == 0 && final(transmitter).subscriberid_to_producer@ == old(
            transmitter,
        ).subscriberid_to_producer@,
        data !is MetaData ==> forall|id: u128| #[trigger]
            old(transmitter).subscriberid_to_producer@.contains_key(id) ==> {
                let before = old(transmitter).subscriberid_to_producer@[id];
                let after = final(transmitter).subscriberid_to_producer@[id];
                &&& data_channel(after) == data_channel(before)
                &&& data_offers(after).len() == data_offers(before).len() + 1
                &&& data_offers(before).is_prefix_of(data_offers(after))
                &&& data_offers(after).last().message == data@
            },
{
}

/// The failures that come back are the players that did not take the packet, each of them once,
/// with the kind of packet as the reason.
pub proof fn law_players_that_are_gone_are_reported(
    transmitter: &mut Transmitter,
    data: ChannelData,
    r: Result<Vec<SendFailure>, ChannelError>,
)
    requires
        call_ensures(Transmitter::handle_data, (transmitter, data, Ok(())), r),
        data !is MetaData,
    ensures
        r is Ok,
        ({
            let after = final(transmitter).subscriberid_to_producer@;
            let failures = r->Ok_0@;
            &&& forall|id: u128|
                (exists|i: int| 0 <= i < failures.len() && (#[trigger] failures[i]).id == id) <==> (
                #[trigger] after.contains_key(id) && !data_offers(after[id]).last().taken)
            &&& forall|i: int, j: int|
                0 <= i < j < failures.len() ==> (#[trigger] failures[i]).id != (#[trigger] failures[j]).id
            &&& forall|i: int|
                0 <= i < failures.len() ==> (#[trigger] failures[i]).error.value == (if data is Audio {
                    ChannelErrorValue::SendAudioError
                } else {
                    ChannelErrorValue::SendVideoError
                })
        }),
{
    let after = final(transmitter).subscriberid_to_producer@;
    let failures = r->Ok_0@;
    assert forall|id: u128|
        (exists|i: int| 0 <= i < failures.len() && (#[trigger] failures[i]).id == id) <==> (
        #[trigger] after.contains_key(id) && !data_offers(after[id]).last().taken) by {
        if exists|i: int| 0 <= i < failures.len() && (#[trigger] failures[i]).id == id {
            let i = choose|i: int| 0 <= i < failures.len() && (#[trigger] failures[i]).id == id;
            assert(after.contains_key(failures[i].id));
        }
        if after.contains_key(id) && !data_offers(after[id]).last().taken {
            assert(!last_taken(after[id]));
        }
    }
}

/// Passing a packet on leaves the transmitter where it was, and so does bringing a player in.
pub proof fn law_packets_leave_the_transmitter_in_place(
    transmitter: &mut Transmitter,
    data: ChannelData,
    saved: Result<(), ChannelError>,
    passed: Result<Vec<SendFailure>, ChannelError>,
    producer: ChannelDataProducer,
    info: SubscriberInfo,
    cached: CachedMedia,
    brought: Result<Option<ChannelDataProducer>, ReplayFailure>,
)
    requires
        call_ensures(Transmitter::handle_data, (transmitter, data, saved), passed) || call_ensures(
            Transmitter::subscribe,
            (transmitter, producer, info, cached),
            brought,
        ),
    ensures
        data_channel_of(final(transmitter).data_consumer) == data_channel_of(old(transmitter).data_consumer),
        event_channel_of(final(transmitter).event_consumer) == event_channel_of(old(transmitter).event_consumer),
        final(transmitter).cache.app_name@ == old(transmitter).cache.app_name@,
        final(transmitter).cache.stream_name@ == old(transmitter).cache.stream_name@,
        final(transmitter).cache.gop_num == old(transmitter).cache.gop_num,
{
}

/// A player that the transmitter was told has gone is not among those that the next packet goes
/// to, and one that was brought in is, until it goes: the packet follows what was replayed.
pub proof fn law_players_come_and_go(
    first: &mut Transmitter,
    producer: ChannelDataProducer,
    info: SubscriberInfo,
    cached: CachedMedia,
    replayed: Vec<ChannelData>,
    brought: Result<Option<ChannelDataProducer>, ReplayFailure>,
    second: &mut Transmitter,
    data: ChannelData,
    passed: Result<Vec<SendFailure>, ChannelError>,
    third: &mut Transmitter,
    gone: TransmitterAction,
    fourth: &mut Transmitter,
    later: ChannelData,
    passed_later: Result<Vec<SendFailure>, ChannelError>,
)
    requires
        data_offers(producer).len() == 0,
        call_ensures(Transmitter::subscribe, (first, producer, info, cached), brought),
        call_ensures(CachedMedia::replay, (cached, info.sub_type), replayed),
        brought is Ok,
        *old(second) == *final(first),
        call_ensures(Transmitter::handle_data, (second, data, Ok(())), passed),
        data !is MetaData,
        *old(third) == *final(second),
        call_ensures(Transmitter::handle_event, (third, TransmitterEvent::UnSubscribe { info }), gone),
        *old(fourth) == *final(third),
        call_ensures(Transmitter::handle_data, (fourth, later, Ok(())), passed_later),
    ensures
        gone matches TransmitterAction::Forget { producer: Some(handle) } && {
            &&& data_channel(handle) == data_channel(producer)
            &&& data_offers(handle).len() == replayed@.len() + 1
            &&& forall|i: int|
                0 <= i < replayed@.len() ==> data_offers(handle)[i].message == (#[trigger] replayed@[i])@
            &&& data_offers(handle)[replayed@.len() as int].message == data@
        },
        !final(fourth).subscriberid_to_producer@.contains_key(info.id),
{
    law_a_player_is_given_the_cache(first, producer, info, cached, replayed, brought);
    law_a_packet_goes_to_every_player(second, data, passed);
    law_told_that_a_player_has_gone(third, info, gone);
    law_a_packet_goes_to_every_player(fourth, later, passed_later);
    assert(old(second).subscriberid_to_producer@.contains_key(info.id));
    assert(final(second).subscriberid_to_producer@.contains_key(info.id));
    let handle = final(second).subscriberid_to_producer@[info.id];
    let before = final(first).subscriberid_to_producer@[info.id];
    assert forall|i: int| 0 <= i < replayed@.len() implies data_offers(handle)[i].message == (
    #[trigger] replayed@[i])@ by {
        assert(data_offers(before)[i] == data_offers(before)[0 + i]);
        assert(data_offers(handle)[i] == data_offers(before)[i]);
    }
}

/// A table of names gives back what was last put under a name, forgets what was taken out, and
/// is the same under every other name.
pub proof fn law_names_are_kept<V>(
    table: &mut NameMap<V>,
    name: String,
    value: V,
    asked: &String,
    removed: Option<V>,
    found: Option<&V>,
    known: bool,
)
    ensures
        call_ensures(NameMap::<V>::insert, (table, name, value), ()) ==> {
            &&& final(table)@.contains_key(name@) && final(table)@[name@] == value
            &&& forall|other: Seq<char>|
                other != name@ ==> final(table)@.contains_key(other) == #[trigger] old(table)@.contains_key(other)
                    && final(table)@[other] == old(table)@[other]
        },
        call_ensures(NameMap::<V>::remove, (table, asked), removed) ==> {
            &&& removed is Some <==> old(table)@.contains_key(asked@)
            &&& removed matches Some(taken) ==> taken == old(table)@[asked@]
            &&& !final(table)@.contains_key(asked@)
            &&& forall|other: Seq<char>|
                other != asked@ ==> final(table)@.contains_key(other) == #[trigger] old(table)@.contains_key(other)
                    && final(table)@[other] == old(table)@[other]
        },
        call_ensures(NameMap::<V>::get, (&*old(table), asked), found) ==> {
            &&& found is Some <==> old(table)@.contains_key(asked@)
            &&& found matches Some(given) ==> *given == old(table)@[asked@]
        },
        call_ensures(NameMap::<V>::contains_key, (&*old(table), asked), known) ==> known == old(
            table,
        )@.contains_key(asked@),
{
}

/// An error of reading from the network keeps the reason that it was made from.
pub proof fn law_read_errors_keep_their_reason(
    value: IOReadErrorValue,
    from_value: IOReadError,
    io: std::io::Error,
    from_io: IOReadError,
    elapsed: tokio::time::error::Elapsed,
    from_elapsed: IOReadError,
)
    requires
        call_ensures(<IOReadError as From<IOReadErrorValue>>::from, (value,), from_value),
        call_ensures(<IOReadError as From<std::io::Error>>::from, (io,), from_io),
        call_ensures(<IOReadError as From<tokio::time::error::Elapsed>>::from, (elapsed,), from_elapsed),
    ensures
        from_value.value == value,
        from_io.value matches IOReadErrorValue::IO(error) && error == io,
        from_elapsed.value matches IOReadErrorValue::TimeoutError(error) && error == elapsed,
{
}

} // verus!

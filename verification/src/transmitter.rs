//! The transmitter of one stream, which hands packets on to the subscribers.

use crate::define::{
    AvStatistic, AvStatisticSender, ChannelData, ChannelDataConsumer, ChannelDataProducer, ChannelDataView,
    SubscribeType, SubscriberInfo, TransmitterEvent, TransmitterEventConsumer,
};
use crate::errors::{ChannelError, ChannelErrorValue};
use crate::links::{
    data_channel, data_channel_of, data_offers, event_channel_of, send_data, send_statistic,
    statistic_channel, statistic_clones, statistic_offers, Offer,
};
use std::collections::hash_map::Entry;
use std::collections::HashMap;
use vstd::prelude::*;

verus! {

broadcast use vstd::std_specs::hash::group_hash_axioms;

/// What the media cache of a stream is opened with.
#[derive(Debug, PartialEq, Eq)]
pub struct CacheConfig {
    pub app_name: String,
    pub stream_name: String,
    /// How many groups of pictures the cache keeps.
    pub gop_num: usize,
}

/// What the media cache of a stream holds for a new subscriber.
pub struct CachedMedia {
    /// The description of the stream.
    pub metadata: Option<ChannelData>,
    /// The packet that an audio decoder starts with.
    pub audio_seq: Option<ChannelData>,
    /// The packet that a video decoder starts with.
    pub video_seq: Option<ChannelData>,
    /// The groups of pictures, oldest first, each with its packets.
    pub gops: Option<Vec<Vec<ChannelData>>>,
}

/// Receives the packets of a publisher, and sends them to the subscribers.
pub struct Transmitter {
    /// Where the packets of the publisher come from.
    pub data_consumer: ChannelDataConsumer,
    /// Where the events come from.
    pub event_consumer: TransmitterEventConsumer,
    /// What the media cache is opened with.
    pub cache: CacheConfig,
    /// Where the packets go, by subscriber.
    pub subscriberid_to_producer: HashMap<u128, ChannelDataProducer>,
}

/// A transmitter, its handles replaced by the channels they belong to.
pub struct TransmitterView {
    pub data_channel: int,
    pub event_channel: int,
    pub app_name: Seq<char>,
    pub stream_name: Seq<char>,
    pub gop_num: usize,
    pub subscribers: Map<u128, ChannelDataProducer>,
}

/// A transmitter that waits to be started.
pub struct Waiting {
    pub transmitter: Transmitter,
    /// What the publisher would have sent its packets through, if it was refused.
    pub unused: Option<ChannelDataProducer>,
}

/// What the task of a transmitter has to do after an event.
pub enum TransmitterAction {
    /// Read the cache, and bring the subscriber in with what it holds.
    Replay { producer: ChannelDataProducer, info: SubscriberInfo },
    /// Drop the handle of a subscriber that has gone, and wait for the next event.
    Forget { producer: Option<ChannelDataProducer> },
    /// Read the statistics, and send them.
    Report { sender: AvStatisticSender },
    /// End the task.
    Stop,
}

/// A subscriber that did not take all that the cache holds for it, with its handle.
#[derive(Debug)]
pub struct ReplayFailure {
    pub producer: ChannelDataProducer,
    pub error: ChannelError,
}

/// A subscriber that did not take a packet.
#[derive(Debug, PartialEq, Eq)]
pub struct SendFailure {
    pub id: u128,
    pub error: ChannelError,
}

/// The views of a list of packets.
pub open spec fn packets(list: Seq<ChannelData>) -> Seq<ChannelDataView> {
    list.map_values(|packet: ChannelData| packet@)
}

/// The packet, if there is one.
pub open spec fn optional_packet(packet: Option<ChannelData>) -> Seq<ChannelDataView> {
    match packet {
        Some(packet) => seq![packet@],
        None => Seq::empty(),
    }
}

/// The packets of all groups, one group after the other.
pub open spec fn gop_packets(gops: Seq<Vec<ChannelData>>) -> Seq<ChannelDataView>
    decreases gops.len(),
{
    if gops.len() == 0 {
        Seq::empty()
    } else {
        gop_packets(gops.drop_last()) + packets(gops.last()@)
    }
}

/// Whether a subscriber is given the groups of pictures when it comes.
pub open spec fn wants_gops(sub_type: SubscribeType) -> bool {
    sub_type != SubscribeType::PublisherRtmp
}

impl CachedMedia {
    /// What a subscriber is given when it comes: the description of the stream, what the
    /// decoders start with, and, unless it relays the stream, the groups of pictures.
    pub open spec fn replay_packets(self, sub_type: SubscribeType) -> Seq<ChannelDataView> {
        optional_packet(self.metadata) + optional_packet(self.audio_seq) + optional_packet(self.video_seq) + (
        match self.gops {
            Some(gops) if wants_gops(sub_type) => gop_packets(gops@),
            _ => Seq::empty(),
        })
    }

    /// The packets that a subscriber is given when it comes.
    pub fn replay(self, sub_type: SubscribeType) -> (r: Vec<ChannelData>)
        ensures
            packets(r@) == self.replay_packets(sub_type),
    {
        let mut list: Vec<ChannelData> = Vec::new();
        if let Some(packet) = self.metadata {
            list.push(packet);
        }
        if let Some(packet) = self.audio_seq {
            list.push(packet);
        }
        if let Some(packet) = self.video_seq {
            list.push(packet);
        }
        let ghost head = packets(list@);
        assert(head =~= optional_packet(self.metadata) + optional_packet(self.audio_seq) + optional_packet(
            self.video_seq,
        ));
        match sub_type {
            SubscribeType::PlayerRtmp
            | SubscribeType::PlayerHttpFlv
            | SubscribeType::PlayerHls
            | SubscribeType::GenerateHls => {
                if let Some(gops) = self.gops {
                    let ghost all = gops@;
                    for gop in it: gops
                        invariant
                            it.seq() == all,
                            packets(list@) == head + gop_packets(all.take(it.index())),
                    {
                        let mut gop = gop;
                        let ghost before = packets(list@);
                        let ghost added = packets(gop@);
                        list.append(&mut gop);
                        proof {
                            assert(packets(list@) =~= before + added);
                            assert(all.take(it.index() + 1).drop_last() =~= all.take(it.index()));
                        }
                    }
                    assert(all.take(all.len() as int) =~= all);
                }
            },
            SubscribeType::PublisherRtmp => {},
        }
        list
    }
}

/// Whether the last packet that was offered through a handle was taken.
pub open spec fn last_taken(producer: ChannelDataProducer) -> bool {
    data_offers(producer).last().taken
}

/// Whether a handle has ever had a packet handed back.
pub open spec fn ever_refused(producer: ChannelDataProducer) -> bool {
    exists|i: int| 0 <= i < data_offers(producer).len() && !(#[trigger] data_offers(producer)[i]).taken
}

/// `post` is the handle `pre` after a packet has been offered through it once. A handle that
/// has had a packet handed back does not get another one through.
pub open spec fn offered(pre: ChannelDataProducer, post: ChannelDataProducer, packet: ChannelDataView) -> bool {
    &&& data_channel(post) == data_channel(pre)
    &&& data_offers(post) == data_offers(pre).push(Offer { message: packet, taken: last_taken(post) })
    &&& ever_refused(pre) ==> !last_taken(post)
}

/// `post` are the subscribers `pre` after a packet has been offered to each of them once.
pub open spec fn offered_to_all(
    pre: Map<u128, ChannelDataProducer>,
    post: Map<u128, ChannelDataProducer>,
    packet: ChannelDataView,
) -> bool {
    &&& post.dom() == pre.dom()
    &&& forall|id: u128| #[trigger] pre.contains_key(id) ==> offered(pre[id], post[id], packet)
}

/// The failures are those of the subscribers that did not take the last packet, one for each,
/// and all for the same reason.
pub open spec fn reports_refusals(
    failures: Seq<SendFailure>,
    subscribers: Map<u128, ChannelDataProducer>,
    reason: ChannelErrorValue,
) -> bool {
    &&& forall|i: int|
        0 <= i < failures.len() ==> {
            &&& subscribers.contains_key((#[trigger] failures[i]).id)
            &&& !last_taken(subscribers[failures[i].id])
            &&& failures[i].error.value == reason
        }
    &&& forall|i: int, j: int|
        #![trigger failures[i], failures[j]]
        0 <= i < j < failures.len() ==> failures[i].id != failures[j].id
    &&& forall|id: u128| #[trigger]
        subscribers.contains_key(id) && !last_taken(subscribers[id]) ==> exists|i: int|
            0 <= i < failures.len() && (#[trigger] failures[i]).id == id
}

/// The offers of packets that were all taken.
pub open spec fn all_taken(list: Seq<ChannelDataView>) -> Seq<Offer<ChannelDataView>> {
    list.map_values(|packet: ChannelDataView| Offer { message: packet, taken: true })
}

/// `post` is the handle `pre` after all packets of the list have been taken, in order.
pub open spec fn took_all(pre: ChannelDataProducer, post: ChannelDataProducer, list: Seq<ChannelDataView>) -> bool {
    &&& data_channel(post) == data_channel(pre)
    &&& data_offers(post) == data_offers(pre) + all_taken(list)
}

/// `post` is the handle `pre` after the packets of the list before the one at `k` have been
/// taken, in order, and that one has been handed back.
pub open spec fn refused_at(
    pre: ChannelDataProducer,
    post: ChannelDataProducer,
    list: Seq<ChannelDataView>,
    k: int,
) -> bool {
    &&& 0 <= k < list.len()
    &&& data_channel(post) == data_channel(pre)
    &&& data_offers(post) == data_offers(pre) + all_taken(list.take(k)).push(
        Offer { message: list[k], taken: false },
    )
}

/// `post` is the handle `pre` after packets of the list have been taken, in order, up to one
/// that has been handed back.
pub open spec fn refused_within(
    pre: ChannelDataProducer,
    post: ChannelDataProducer,
    list: Seq<ChannelDataView>,
) -> bool {
    exists|k: int| refused_at(pre, post, list, k)
}

/// Sends packets in order, up to the first one that is handed back.
fn send_each(producer: &mut ChannelDataProducer, list: Vec<ChannelData>) -> (r: Result<(), ChannelError>)
    ensures
        match r {
            Ok(_) => took_all(*old(producer), *final(producer), packets(list@)),
            Err(error) => {
                &&& error.value == ChannelErrorValue::SendError
                &&& refused_within(*old(producer), *final(producer), packets(list@))
            },
        },
        ever_refused(*old(producer)) && list@.len() > 0 ==> r is Err,
{
    let ghost pre = *producer;
    let ghost all = packets(list@);
    let ghost given = list@;
    for packet in it: list
        invariant
            it.seq() == given,
            all == packets(given),
            pre == *old(producer),
            took_all(pre, *producer, all.take(it.index())),
            it.index() > 0 ==> !ever_refused(pre),
    {
        let ghost k = it.index();
        let ghost message = packet@;
        assert(k == 0 ==> data_offers(*producer) =~= data_offers(pre));
        match send_data(producer, packet) {
            Ok(_) => {
                proof {
                    assert(all.take(k + 1) =~= all.take(k).push(message));
                    assert(all_taken(all.take(k + 1)) =~= all_taken(all.take(k)).push(
                        Offer { message, taken: true },
                    ));
                    assert(data_offers(*producer) =~= data_offers(pre) + all_taken(all.take(k + 1)));
                }
            },
            Err(_) => {
                proof {
                    assert(data_offers(*producer) =~= data_offers(pre) + all_taken(all.take(k)).push(
                        Offer { message: all[k], taken: false },
                    ));
                    assert(refused_at(pre, *producer, all, k));
                }
                return Err(ChannelError { value: ChannelErrorValue::SendError });
            },
        }
    }
    assert(all.take(all.len() as int) =~= all);
    Ok(())
}

/// `post` is the handle `pre` after a report has been offered through it once.
pub open spec fn statistic_offered(
    pre: AvStatisticSender,
    post: AvStatisticSender,
    report: Seq<char>,
    taken: bool,
) -> bool {
    &&& statistic_channel(post) == statistic_channel(pre)
    &&& statistic_offers(post) == statistic_offers(pre).push(Offer { message: report, taken })
    &&& statistic_clones(post) == statistic_clones(pre)
}

/// Sends the statistics of a stream to whoever asked for them, and says whether they arrived.
pub fn report(sender: &mut AvStatisticSender, statistic: AvStatistic) -> (r: bool)
    ensures
        statistic_offered(*old(sender), *final(sender), statistic.report@, r),
{
    send_statistic(sender, statistic).is_ok()
}

impl Transmitter {
    /// The transmitter, its handles replaced by the channels they belong to.
    pub open spec fn view(&self) -> TransmitterView {
        TransmitterView {
            data_channel: data_channel_of(self.data_consumer),
            event_channel: event_channel_of(self.event_consumer),
            app_name: self.cache.app_name@,
            stream_name: self.cache.stream_name@,
            gop_num: self.cache.gop_num,
            subscribers: self.subscriberid_to_producer@,
        }
    }

    /// A transmitter without subscribers.
    pub fn new(
        app_name: String,
        stream_name: String,
        data_consumer: ChannelDataConsumer,
        event_consumer: TransmitterEventConsumer,
        gop_num: usize,
    ) -> (r: Self)
        ensures
            r.data_consumer == data_consumer,
            r.event_consumer == event_consumer,
            r@ == (TransmitterView {
                data_channel: data_channel_of(data_consumer),
                event_channel: event_channel_of(event_consumer),
                app_name: app_name@,
                stream_name: stream_name@,
                gop_num,
                subscribers: Map::empty(),
            }),
    {
        Transmitter {
            data_consumer,
            event_consumer,
            cache: CacheConfig { app_name, stream_name, gop_num },
            subscriberid_to_producer: HashMap::new(),
        }
    }

    /// Takes in an event, and says what has to be done about it.
    pub fn handle_event(&mut self, event: TransmitterEvent) -> (r: TransmitterAction)
        ensures
            match event {
                TransmitterEvent::Subscribe { producer, info } => {
                    &&& r == (TransmitterAction::Replay { producer, info })
                    &&& final(self)@ == old(self)@
                },
                TransmitterEvent::UnSubscribe { info } => {
                    &&& r == (TransmitterAction::Forget { producer: old(self)@.subscribers.get(info.id) })
                    &&& final(self)@ == (TransmitterView {
                        subscribers: old(self)@.subscribers.remove(info.id),
                        ..old(self)@
                    })
                },
                TransmitterEvent::UnPublish {  } => {
                    &&& r == TransmitterAction::Stop
                    &&& final(self)@ == old(self)@
                },
                TransmitterEvent::Api { sender } => {
                    &&& r == (TransmitterAction::Report { sender })
                    &&& final(self)@ == old(self)@
                },
            },
    {
        match event {
            TransmitterEvent::Subscribe { producer, info } => TransmitterAction::Replay { producer, info },
            TransmitterEvent::UnSubscribe { info } => {
                TransmitterAction::Forget { producer: self.subscriberid_to_producer.remove(&info.id) }
            },
            TransmitterEvent::UnPublish {  } => TransmitterAction::Stop,
            TransmitterEvent::Api { sender } => TransmitterAction::Report { sender },
        }
    }

    /// Brings a subscriber in: it is given what the cache holds for it, and from then on
    /// every packet. One that does not take all of it is not brought in, and its handle is
    /// handed back. So is the handle that a subscriber had before, if it comes again.
    pub fn subscribe(&mut self, producer: ChannelDataProducer, info: SubscriberInfo, cached: CachedMedia) -> (r: Result<
        Option<ChannelDataProducer>,
        ReplayFailure,
    >)
        ensures
            match r {
                Ok(replaced) => {
                    &&& replaced == old(self)@.subscribers.get(info.id)
                    &&& took_all(
                        producer,
                        final(self)@.subscribers[info.id],
                        cached.replay_packets(info.sub_type),
                    )
                    &&& final(self)@ == (TransmitterView {
                        subscribers: old(self)@.subscribers.insert(info.id, final(self)@.subscribers[info.id]),
                        ..old(self)@
                    })
                },
                Err(failure) => {
                    &&& failure.error.value == ChannelErrorValue::SendError
                    &&& refused_within(producer, failure.producer, cached.replay_packets(info.sub_type))
                    &&& final(self)@ == old(self)@
                },
            },
            cached.replay_packets(info.sub_type).len() == 0 ==> r is Ok,
            ever_refused(producer) && cached.replay_packets(info.sub_type).len() > 0 ==> r is Err,
    {
        let mut producer = producer;
        let list = cached.replay(info.sub_type);
        match send_each(&mut producer, list) {
            Ok(_) => Ok(self.subscriberid_to_producer.insert(info.id, producer)),
            Err(error) => Err(ReplayFailure { producer, error }),
        }
    }

    /// The numbers of the subscribers.
    fn subscriber_ids(&self) -> (r: Vec<u128>)
        ensures
            r@.no_duplicates(),
            r@.to_set() == self@.subscribers.dom(),
    {
        let mut ids: Vec<u128> = Vec::new();
        for id in it: self.subscriberid_to_producer.keys()
            invariant
                it.seq().unref().to_set() == self@.subscribers.dom(),
                it.seq().no_duplicates(),
                ids@ == it.seq().unref().take(it.index()),
                it.index() == it.seq().len() ==> ids@ == it.seq().unref(),
        {
            ids.push(*id);
            assert(ids@ =~= it.seq().unref().take(it.index() + 1));
        }
        ids
    }

    /// Offers a packet to every subscriber, and reports those that did not take it.
    fn forward(&mut self, data: &ChannelData, reason: ChannelErrorValue) -> (r: Vec<SendFailure>)
        ensures
            offered_to_all(old(self)@.subscribers, final(self)@.subscribers, data@),
            reports_refusals(r@, final(self)@.subscribers, reason),
            final(self)@ == (TransmitterView { subscribers: final(self)@.subscribers, ..old(self)@ }),
    {
        let mut failures: Vec<SendFailure> = Vec::new();
        let ids = self.subscriber_ids();
        let ghost pre = self@;
        let mut i: usize = 0;
        while i < ids.len()
            invariant
                i <= ids@.len(),
                ids@.no_duplicates(),
                ids@.to_set() == pre.subscribers.dom(),
                self@ == (TransmitterView { subscribers: self@.subscribers, ..pre }),
                self@.subscribers.dom() == pre.subscribers.dom(),
                forall|j: int|
                    0 <= j < i ==> offered(
                        pre.subscribers[#[trigger] ids@[j]],
                        self@.subscribers[ids@[j]],
                        data@,
                    ),
                forall|j: int|
                    i <= j < ids@.len() ==> self@.subscribers[#[trigger] ids@[j]] == pre.subscribers[ids@[j]],
                forall|k: int|
                    0 <= k < failures@.len() ==> {
                        &&& ids@.take(i as int).contains((#[trigger] failures@[k]).id)
                        &&& !last_taken(self@.subscribers[failures@[k].id])
                        &&& failures@[k].error.value == reason
                    },
                forall|k: int, l: int|
                    #![trigger failures@[k], failures@[l]]
                    0 <= k < l < failures@.len() ==> failures@[k].id != failures@[l].id,
                forall|j: int|
                    0 <= j < i && !last_taken(self@.subscribers[#[trigger] ids@[j]]) ==> exists|k: int|
                        0 <= k < failures@.len() && (#[trigger] failures@[k]).id == ids@[j],
            decreases ids@.len() - i,
        {
            let id = ids[i];
            let ghost before = self@.subscribers;
            let ghost failed = failures@;
            proof {
                assert(ids@.to_set().contains(id));
            }
            if let Entry::Occupied(entry) = self.subscriberid_to_producer.entry(id) {
                if let Err(_) = send_data(entry.into_mut(), data.clone()) {
                    failures.push(SendFailure { id, error: ChannelError { value: reason.clone() } });
                }
            }
            proof {
                assert(self@.subscribers =~= before.insert(id, self@.subscribers[id]));
                assert(offered(before[id], self@.subscribers[id], data@));
                let walked = ids@.take(i + 1);
                assert(walked =~= ids@.take(i as int).push(id));
                assert(walked[i as int] == id);
                assert forall|k: int| 0 <= k < failed.len() implies walked.contains((#[trigger] failed[k]).id)
                    && failed[k].id != id by {
                    assert(ids@.take(i as int).contains(failed[k].id));
                    let j = choose|j: int| 0 <= j < i && ids@.take(i as int)[j] == failed[k].id;
                    assert(walked[j] == failed[k].id);
                }
                if !last_taken(self@.subscribers[id]) {
                    assert(failures@[failed.len() as int].id == id);
                }
                assert forall|j: int| 0 <= j < i && !last_taken(self@.subscribers[#[trigger] ids@[j]]) implies exists|k: int|
                    0 <= k < failures@.len() && (#[trigger] failures@[k]).id == ids@[j] by {
                    let k = choose|k: int| 0 <= k < failed.len() && (#[trigger] failed[k]).id == ids@[j];
                    assert(failures@[k] == failed[k]);
                }
            }
            i += 1;
        }
        failures
    }

    /// Passes on a packet that the cache was asked to keep. `saved` is what the cache made of
    /// it: without the cache the transmitter does not go on. Sound and pictures go to every
    /// subscriber; the description of the stream stays in the cache, for those to come.
    pub fn handle_data(&mut self, data: ChannelData, saved: Result<(), ChannelError>) -> (r: Result<
        Vec<SendFailure>,
        ChannelError,
    >)
        ensures
            match saved {
                Err(error) => r == Err::<Vec<SendFailure>, ChannelError>(error) && final(self)@ == old(self)@,
                Ok(_) => r is Ok,
            },
            r matches Ok(failures) ==> match data@ {
                ChannelDataView::MetaData { .. } => failures@.len() == 0 && final(self)@ == old(self)@,
                ChannelDataView::Audio { .. } => {
                    &&& offered_to_all(old(self)@.subscribers, final(self)@.subscribers, data@)
                    &&& reports_refusals(failures@, final(self)@.subscribers, ChannelErrorValue::SendAudioError)
                },
                ChannelDataView::Video { .. } => {
                    &&& offered_to_all(old(self)@.subscribers, final(self)@.subscribers, data@)
                    &&& reports_refusals(failures@, final(self)@.subscribers, ChannelErrorValue::SendVideoError)
                },
            },
            final(self)@ == (TransmitterView { subscribers: final(self)@.subscribers, ..old(self)@ }),
    {
        match saved {
            Err(error) => Err(error),
            Ok(_) => match &data {
                ChannelData::MetaData { .. } => Ok(Vec::new()),
                ChannelData::Audio { .. } => Ok(self.forward(&data, ChannelErrorValue::SendAudioError)),
                ChannelData::Video { .. } => Ok(self.forward(&data, ChannelErrorValue::SendVideoError)),
            },
        }
    }
}

} // verus!

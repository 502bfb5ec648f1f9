//! The manager, which knows the published streams and answers the requests of the sessions.

use crate::define::{
    AvStatisticSender, ChannelDataConsumer, ChannelDataProducer, ChannelDataView,
    ChannelEvent, ChannelEventConsumer, ChannelEventProducer, ClientEvent, ClientEventConsumer,
    ClientEventProducer, ClientEventView, EventOutcome, Leftover, Notification, NotificationKind,
    PubSubInfo, PubSubInfoView, PublishResponder, PublisherInfo, StatisticOutcome,
    StreamStatisticSizeSender, SubscribeResponder, SubscriberInfo, TransmitterEvent,
    TransmitterEventProducer, TransmitterEventView,
};
use crate::errors::{delivery, ChannelError, ChannelErrorValue};
use crate::links::{
    answer_publish, answer_subscribe, client_capacity, client_channel, client_channel_of,
    client_consumers, client_offers, client_start, clone_request_producer, data_channel,
    data_channel_of, data_offers, event_channel, event_offers, open_client_channel,
    open_data_channel, open_event_channel, open_request_channel, publish_offer, request_channel,
    request_channel_of, send_client_event, send_size, size_offer, subscribe_client_events,
    subscribe_offer, Offer,
};
use crate::streams::{
    all_before, all_took, asked, event_offered, has_stream, missing, multiplied, one_refused,
    statistic_request, stream_count, stream_names, with_stream, without_stream, StreamTable, Streams,
};
use crate::transmitter::{Transmitter, TransmitterView, Waiting};
use std::collections::HashMap;
use vstd::prelude::*;

verus! {

broadcast use vstd::std_specs::hash::group_hash_axioms;

/// How many client events wait for a slow client.
pub const CLIENT_EVENT_CAPACITY: usize = 100;

/// Knows which streams are published, and by whom.
#[verifier::reject_recursive_types(N)]
pub struct ChannelsManager<N> {
    /// The handles on the transmitters, by application and stream name.
    channels: StreamTable,
    /// What is known of the clients, so that they can be thrown out.
    channels_info: HashMap<u128, PubSubInfo>,
    /// Where the requests of the sessions come from.
    channel_event_consumer: ChannelEventConsumer,
    /// What the sessions send their requests through.
    channel_event_producer: ChannelEventProducer,
    /// What the push and pull clients are told through.
    client_event_producer: ClientEventProducer,
    /// How many groups of pictures are cached.
    rtmp_gop_num: usize,
    /// Whether published streams are pushed to other servers.
    rtmp_push_enabled: bool,
    /// Whether missing streams are pulled from other servers.
    rtmp_pull_enabled: bool,
    /// Whether published streams are cut into HLS segments.
    hls_enabled: bool,
    /// Who is notified of what the clients do.
    notifier: Option<N>,
    /// The transmitters that wait to be started.
    transmitters: Vec<Waiting>,
}

/// The manager, its tables as maps.
pub struct ManagerView<N> {
    pub channels: Streams,
    pub channels_info: Map<u128, PubSubInfoView>,
    pub request_consumer: ChannelEventConsumer,
    pub request_producer: ChannelEventProducer,
    pub client_producer: ClientEventProducer,
    pub rtmp_gop_num: usize,
    pub rtmp_push_enabled: bool,
    pub rtmp_pull_enabled: bool,
    pub hls_enabled: bool,
    pub notifier: Option<N>,
    pub transmitters: Seq<Waiting>,
}

/// `post` is the handle `pre` after a client event has been offered through it once. Where
/// nobody ever listened it is not taken.
pub open spec fn client_offered(
    pre: ClientEventProducer,
    post: ClientEventProducer,
    event: ClientEventView,
    taken: bool,
) -> bool {
    &&& client_channel(post) == client_channel(pre)
    &&& client_capacity(post) == client_capacity(pre)
    &&& client_consumers(post) == client_consumers(pre)
    &&& client_offers(post) == client_offers(pre).push(Offer { message: event, taken })
    &&& client_consumers(pre) == 0 ==> !taken
}

/// `post` is the handle `pre` after one more client has begun to listen.
pub open spec fn client_heard(pre: ClientEventProducer, post: ClientEventProducer) -> bool {
    &&& client_channel(post) == client_channel(pre)
    &&& client_capacity(post) == client_capacity(pre)
    &&& client_consumers(post) == client_consumers(pre) + 1
    &&& client_offers(post) == client_offers(pre)
}

/// A handle on this channel, through which nothing has been offered.
pub open spec fn unused_on(channel: int, producer: ChannelDataProducer) -> bool {
    &&& data_channel(producer) == channel
    &&& data_offers(producer) == Seq::<Offer<ChannelDataView>>::empty()
}

/// What publishing a stream does. A stream that is published already is refused. Otherwise it
/// gets a transmitter with new channels, and the push and HLS clients are told, where there are
/// such; if none of them listens the publisher is refused, though the stream is there.
pub open spec fn publish_step<N>(
    pre: ManagerView<N>,
    app: Seq<char>,
    stream: Seq<char>,
    post: ManagerView<N>,
    r: Result<ChannelDataProducer, ChannelError>,
) -> bool {
    if has_stream(pre.channels, app, stream) {
        &&& post == pre
        &&& r matches Err(error) && error.value == ChannelErrorValue::Exists
    } else {
        let producer = post.channels[app][stream];
        let waiting = post.transmitters.last();
        let transmitter = waiting.transmitter;
        &&& post == (ManagerView {
            channels: with_stream(pre.channels, app, stream, producer),
            client_producer: post.client_producer,
            transmitters: pre.transmitters.push(waiting),
            ..pre
        })
        &&& event_offers(producer) == Seq::<Offer<TransmitterEventView>>::empty()
        &&& transmitter@ == (TransmitterView {
            data_channel: transmitter@.data_channel,
            event_channel: event_channel(producer),
            app_name: app,
            stream_name: stream,
            gop_num: pre.rtmp_gop_num,
            subscribers: Map::empty(),
        })
        &&& all_before(pre.channels, transmitter@.data_channel)
        &&& all_before(pre.channels, transmitter@.event_channel)
        &&& transmitter@.data_channel < transmitter@.event_channel
        &&& if pre.rtmp_push_enabled || pre.hls_enabled {
            client_offered(
                pre.client_producer,
                post.client_producer,
                ClientEventView::Publish { app_name: app, stream_name: stream },
                r is Ok,
            )
        } else {
            post.client_producer == pre.client_producer && r is Ok
        }
        &&& match r {
            Ok(data) => unused_on(transmitter@.data_channel, data) && waiting.unused is None,
            Err(error) => {
                &&& error.value == ChannelErrorValue::SendError
                &&& waiting.unused matches Some(data) && unused_on(transmitter@.data_channel, data)
            },
        }
    }
}

/// What subscribing to a stream does. The transmitter of the stream is handed one end of a new
/// channel and the subscriber the other. If there is no such stream the subscriber is refused,
/// and the pull clients are told, where there are such.
pub open spec fn subscribe_step<N>(
    pre: ManagerView<N>,
    app: Seq<char>,
    stream: Seq<char>,
    info: SubscriberInfo,
    post: ManagerView<N>,
    r: Result<ChannelDataConsumer, ChannelError>,
) -> bool {
    if has_stream(pre.channels, app, stream) {
        let producer = post.channels[app][stream];
        &&& post == (ManagerView { channels: with_stream(pre.channels, app, stream, producer), ..pre })
        &&& match event_offers(producer).last().message {
            TransmitterEventView::Subscribe { producer: data, .. } => {
                &&& event_offered(
                    pre.channels[app][stream],
                    producer,
                    TransmitterEventView::Subscribe { producer: data, info },
                    r is Ok,
                )
                &&& data_offers(data) == Seq::<Offer<ChannelDataView>>::empty()
                &&& all_before(pre.channels, data_channel(data))
                &&& match r {
                    Ok(consumer) => data_channel_of(consumer) == data_channel(data),
                    Err(error) => error.value == ChannelErrorValue::SendError,
                }
            },
            _ => false,
        }
    } else {
        &&& r is Err
        &&& post == (ManagerView { client_producer: post.client_producer, ..pre })
        &&& if pre.rtmp_pull_enabled {
            &&& r->Err_0.value == ChannelErrorValue::NoAppOrStreamName || r->Err_0.value
                == ChannelErrorValue::SendError
            &&& client_offered(
                pre.client_producer,
                post.client_producer,
                ClientEventView::Subscribe { app_name: app, stream_name: stream },
                r->Err_0.value == ChannelErrorValue::NoAppOrStreamName,
            )
        } else {
            &&& r->Err_0.value == ChannelErrorValue::NoAppOrStreamName
            &&& post.client_producer == pre.client_producer
        }
    }
}

/// What leaving a stream does: its transmitter is told.
pub open spec fn unsubscribe_step<N>(
    pre: ManagerView<N>,
    app: Seq<char>,
    stream: Seq<char>,
    info: SubscriberInfo,
    post: ManagerView<N>,
    r: Result<(), ChannelError>,
) -> bool {
    if has_stream(pre.channels, app, stream) {
        let producer = post.channels[app][stream];
        &&& post == (ManagerView { channels: with_stream(pre.channels, app, stream, producer), ..pre })
        &&& event_offered(
            pre.channels[app][stream],
            producer,
            TransmitterEventView::UnSubscribe { info },
            r is Ok,
        )
        &&& r matches Err(error) ==> error.value == ChannelErrorValue::SendError
    } else {
        &&& post == pre
        &&& r matches Err(error) && error.value == missing(pre.channels, app)
    }
}

/// What taking a stream away does: its transmitter is told, and the stream is gone; the handle
/// is handed out. If the transmitter cannot be told the stream stays.
pub open spec fn unpublish_step<N>(
    pre: ManagerView<N>,
    app: Seq<char>,
    stream: Seq<char>,
    post: ManagerView<N>,
    r: Result<TransmitterEventProducer, ChannelError>,
) -> bool {
    if has_stream(pre.channels, app, stream) {
        match r {
            Ok(producer) => {
                &&& event_offered(pre.channels[app][stream], producer, TransmitterEventView::UnPublish, true)
                &&& post == (ManagerView { channels: without_stream(pre.channels, app, stream), ..pre })
            },
            Err(error) => {
                let producer = post.channels[app][stream];
                &&& error.value == ChannelErrorValue::SendError
                &&& event_offered(pre.channels[app][stream], producer, TransmitterEventView::UnPublish, false)
                &&& post == (ManagerView { channels: with_stream(pre.channels, app, stream, producer), ..pre })
            },
        }
    } else {
        &&& post == pre
        &&& r matches Err(error) && error.value == missing(pre.channels, app)
    }
}

/// What asking for the statistics does. Every stream is asked, and the number of streams is
/// reported; but one stream whose transmitter is gone puts an end to it, and no number is
/// reported.
pub open spec fn statistic_step<N>(
    pre: ManagerView<N>,
    data_sender: AvStatisticSender,
    size_sender: StreamStatisticSizeSender,
    post: ManagerView<N>,
    outcome: StatisticOutcome,
) -> bool {
    let event = statistic_request(data_sender);
    &&& post == (ManagerView { channels: post.channels, ..pre })
    &&& multiplied(data_sender, outcome.data_sender, asked(pre.channels, post.channels).len() as int)
    &&& outcome.result matches Err(error) ==> error.value == ChannelErrorValue::SendError
    &&& match outcome.size_sender {
        None => {
            &&& all_took(pre.channels, post.channels, event)
            &&& size_offer(size_sender).message == stream_count(pre.channels)
            &&& size_offer(size_sender).taken == outcome.result is Ok
        },
        Some(kept) => {
            &&& one_refused(pre.channels, post.channels, event)
            &&& kept == size_sender
            &&& outcome.result is Err
        },
    }
}

/// What throwing a client out does: a publisher's stream is taken away and its handle handed
/// out, and a player is taken off its stream. Nothing is done about one that is not known.
pub open spec fn kick_step<N>(
    pre: ManagerView<N>,
    uid: u128,
    post: ManagerView<N>,
    r: Result<Option<TransmitterEventProducer>, ChannelError>,
) -> bool {
    if pre.channels_info.contains_key(uid) {
        match pre.channels_info[uid] {
            PubSubInfoView::Publish { app_name, stream_name } => match r {
                Ok(Some(producer)) => unpublish_step(pre, app_name, stream_name, post, Ok(producer)),
                Ok(None) => false,
                Err(error) => unpublish_step(pre, app_name, stream_name, post, Err(error)),
            },
            PubSubInfoView::Subscribe { app_name, stream_name, sub_info } => match r {
                Ok(Some(_)) => false,
                Ok(None) => unsubscribe_step(pre, app_name, stream_name, sub_info, post, Ok(())),
                Err(error) => unsubscribe_step(pre, app_name, stream_name, sub_info, post, Err(error)),
            },
        }
    } else {
        post == pre && r == Ok::<Option<TransmitterEventProducer>, ChannelError>(None)
    }
}

/// There is a notification of this kind exactly if somebody is to be notified.
pub open spec fn notifies<N>(
    notifier: Option<N>,
    notification: Option<Notification>,
    kind: NotificationKind,
    body: Seq<char>,
) -> bool {
    match notification {
        Some(notification) => notifier is Some && notification.kind == kind && notification.body@ == body,
        None => notifier is None,
    }
}

/// What the notifier is told of a request: the request, if it could be serialized.
pub open spec fn body_text(serialized: Option<String>) -> Seq<char> {
    match serialized {
        Some(text) => text@,
        None => "empty body"@,
    }
}

/// What the notifier is told of a request.
pub fn notification_body(serialized: Option<String>) -> (r: String)
    ensures
        r@ == body_text(serialized),
{
    match serialized {
        Some(text) => text,
        None => "empty body".to_owned(),
    }
}

/// The value of a request that went through, or its error.
pub open spec fn answered<T>(result: Result<(), ChannelError>, value: T) -> Result<T, ChannelError> {
    match result {
        Ok(_) => Ok(value),
        Err(error) => Err(error),
    }
}

/// What a `Publish` request leaves over once it is answered: what was to be sent, if nobody
/// waited for the answer any more.
pub open spec fn unheard_publisher(responder: PublishResponder) -> Option<Leftover> {
    if publish_offer(responder).taken {
        None
    } else {
        Some(Leftover::Publisher { producer: publish_offer(responder).message })
    }
}

/// What a request to the manager does. Whoever is refused gets no answer: the responder is left
/// over.
pub open spec fn request_step<N>(
    pre: ManagerView<N>,
    message: ChannelEvent,
    post: ManagerView<N>,
    result: Result<(), ChannelError>,
    left_over: Option<Leftover>,
) -> bool {
    match message {
        ChannelEvent::Publish { app_name, stream_name, info, responder } => {
            &&& publish_step(
                pre,
                app_name@,
                stream_name@,
                ManagerView { channels_info: pre.channels_info, ..post },
                answered(result, publish_offer(responder).message),
            )
            &&& if result is Ok {
                &&& post.channels_info == pre.channels_info.insert(
                    info.id,
                    PubSubInfoView::Publish { app_name: app_name@, stream_name: stream_name@ },
                )
                &&& left_over == unheard_publisher(responder)
            } else {
                &&& post.channels_info == pre.channels_info
                &&& left_over == Some(Leftover::PublishRequest { responder })
            }
        },
        ChannelEvent::UnPublish { app_name, stream_name, .. } => match (result, left_over) {
            (Ok(_), Some(Leftover::Stream { producer })) => unpublish_step(
                pre,
                app_name@,
                stream_name@,
                post,
                Ok(producer),
            ),
            (Err(error), None) => unpublish_step(pre, app_name@, stream_name@, post, Err(error)),
            _ => false,
        },
        ChannelEvent::Subscribe { app_name, stream_name, info, responder } => {
            &&& subscribe_step(
                pre,
                app_name@,
                stream_name@,
                info,
                ManagerView { channels_info: pre.channels_info, ..post },
                answered(result, subscribe_offer(responder).message),
            )
            &&& if result is Ok {
                &&& post.channels_info == pre.channels_info.insert(
                    info.id,
                    PubSubInfoView::Subscribe { app_name: app_name@, stream_name: stream_name@, sub_info: info },
                )
                &&& left_over is None
            } else {
                &&& post.channels_info == pre.channels_info
                &&& left_over == Some(Leftover::SubscribeRequest { responder })
            }
        },
        ChannelEvent::UnSubscribe { app_name, stream_name, info } => {
            &&& unsubscribe_step(pre, app_name@, stream_name@, info, post, result)
            &&& left_over is None
        },
        ChannelEvent::ApiStatistic { data_sender, size_sender } => match left_over {
            Some(Leftover::Statistic { data_sender: data_left, size_sender: size_left }) => statistic_step(
                pre,
                data_sender,
                size_sender,
                post,
                StatisticOutcome { result, data_sender: data_left, size_sender: size_left },
            ),
            _ => false,
        },
        ChannelEvent::ApiKickClient { id } => match (result, left_over) {
            (Ok(_), Some(Leftover::Stream { producer })) => kick_step(pre, id, post, Ok(Some(producer))),
            (Ok(_), None) => kick_step(pre, id, post, Ok(None)),
            (Err(error), None) => kick_step(pre, id, post, Err(error)),
            _ => false,
        },
    }
}

/// What the notifier is to be told after a request, if anything.
pub open spec fn notification_due(message: ChannelEvent, result: Result<(), ChannelError>) -> Option<NotificationKind> {
    match message {
        ChannelEvent::Publish { .. } if result is Ok => Some(NotificationKind::Publish),
        ChannelEvent::UnPublish { .. } => Some(NotificationKind::UnPublish),
        ChannelEvent::Subscribe { .. } if result is Ok => Some(NotificationKind::Play),
        ChannelEvent::UnSubscribe { .. } if result is Ok => Some(NotificationKind::Stop),
        ChannelEvent::ApiKickClient { .. } => Some(NotificationKind::UnPublish),
        _ => None,
    }
}

/// What a request to the manager does, and what the notifier is told.
pub open spec fn event_step<N>(
    pre: ManagerView<N>,
    message: ChannelEvent,
    body: Seq<char>,
    post: ManagerView<N>,
    outcome: EventOutcome,
) -> bool {
    &&& request_step(pre, message, post, outcome.result, outcome.left_over)
    &&& match notification_due(message, outcome.result) {
        Some(kind) => notifies(pre.notifier, outcome.notification, kind, body),
        None => outcome.notification is None,
    }
}

impl<N> ChannelsManager<N> {
    /// No name occurs twice.
    pub closed spec fn wf(self) -> bool {
        self.channels.wf()
    }

    /// The manager, its tables as maps.
    pub closed spec fn view(&self) -> ManagerView<N> {
        ManagerView {
            channels: self.channels@,
            channels_info: self.channels_info@.map_values(|info: PubSubInfo| info@),
            request_consumer: self.channel_event_consumer,
            request_producer: self.channel_event_producer,
            client_producer: self.client_event_producer,
            rtmp_gop_num: self.rtmp_gop_num,
            rtmp_push_enabled: self.rtmp_push_enabled,
            rtmp_pull_enabled: self.rtmp_pull_enabled,
            hls_enabled: self.hls_enabled,
            notifier: self.notifier,
            transmitters: self.transmitters@,
        }
    }

    /// There are finitely many streams.
    pub proof fn law_streams_are_finite(self)
        requires
            self.wf(),
        ensures
            stream_names(self@.channels).finite(),
    {
        self.channels.lemma_finite();
    }

    /// A manager without streams, with one group of pictures to cache and everything else off.
    pub fn new(notifier: Option<N>) -> (r: Self)
        ensures
            r.wf(),
            r@ == (ManagerView {
                channels: Streams::empty(),
                channels_info: Map::empty(),
                request_consumer: r@.request_consumer,
                request_producer: r@.request_producer,
                client_producer: r@.client_producer,
                rtmp_gop_num: 1,
                rtmp_push_enabled: false,
                rtmp_pull_enabled: false,
                hls_enabled: false,
                notifier,
                transmitters: Seq::empty(),
            }),
            request_channel(r@.request_producer) == request_channel_of(r@.request_consumer),
            client_capacity(r@.client_producer) == CLIENT_EVENT_CAPACITY,
            client_offers(r@.client_producer) == Seq::<Offer<ClientEventView>>::empty(),
            client_consumers(r@.client_producer) == 0,
            stream_count(r@.channels) == 0,
    {
        let (event_producer, event_consumer) = open_request_channel();
        let client_producer = open_client_channel(CLIENT_EVENT_CAPACITY);
        let r = ChannelsManager {
            channels: StreamTable::new(),
            channels_info: HashMap::new(),
            channel_event_consumer: event_consumer,
            channel_event_producer: event_producer,
            client_event_producer: client_producer,
            rtmp_gop_num: 1,
            rtmp_push_enabled: false,
            rtmp_pull_enabled: false,
            hls_enabled: false,
            notifier,
            transmitters: Vec::new(),
        };
        assert(r@.channels_info =~= Map::empty());
        assert(stream_names(r@.channels) =~= Set::empty());
        r
    }

    /// Sets whether published streams are pushed to other servers.
    pub fn set_rtmp_push_enabled(&mut self, enabled: bool)
        ensures
            final(self).wf() == old(self).wf(),
            final(self)@ == (ManagerView { rtmp_push_enabled: enabled, ..old(self)@ }),
    {
        self.rtmp_push_enabled = enabled;
    }

    /// Sets whether missing streams are pulled from other servers.
    pub fn set_rtmp_pull_enabled(&mut self, enabled: bool)
        ensures
            final(self).wf() == old(self).wf(),
            final(self)@ == (ManagerView { rtmp_pull_enabled: enabled, ..old(self)@ }),
    {
        self.rtmp_pull_enabled = enabled;
    }

    /// Sets how many groups of pictures are cached for the streams that are published from now
    /// on.
    pub fn set_rtmp_gop_num(&mut self, gop_num: usize)
        ensures
            final(self).wf() == old(self).wf(),
            final(self)@ == (ManagerView { rtmp_gop_num: gop_num, ..old(self)@ }),
    {
        self.rtmp_gop_num = gop_num;
    }

    /// Sets whether published streams are cut into HLS segments.
    pub fn set_hls_enabled(&mut self, enabled: bool)
        ensures
            final(self).wf() == old(self).wf(),
            final(self)@ == (ManagerView { hls_enabled: enabled, ..old(self)@ }),
    {
        self.hls_enabled = enabled;
    }

    /// A handle through which a session can send its requests.
    pub fn get_channel_event_producer(&mut self) -> (r: ChannelEventProducer)
        ensures
            request_channel(r) == request_channel(old(self)@.request_producer),
            *final(self) == *old(self),
    {
        clone_request_producer(&self.channel_event_producer)
    }

    /// A handle from which a push or pull client hears what it should do.
    pub fn get_client_event_consumer(&mut self) -> (r: ClientEventConsumer)
        ensures
            client_channel_of(r) == client_channel(old(self)@.client_producer),
            client_start(r) == client_offers(old(self)@.client_producer).len(),
            final(self).wf() == old(self).wf(),
            final(self)@ == (ManagerView { client_producer: final(self)@.client_producer, ..old(self)@ }),
            client_heard(old(self)@.client_producer, final(self)@.client_producer),
    {
        subscribe_client_events(&mut self.client_event_producer)
    }

    /// Where the requests of the sessions come from.
    pub fn channel_event_consumer(&mut self) -> (r: &mut ChannelEventConsumer)
        ensures
            *r == old(self)@.request_consumer,
            final(self).wf() == old(self).wf(),
            final(self)@ == (ManagerView { request_consumer: *final(r), ..old(self)@ }),
    {
        &mut self.channel_event_consumer
    }

    /// Who is notified of what the clients do.
    pub fn notifier(&self) -> (r: &Option<N>)
        ensures
            *r == self@.notifier,
    {
        &self.notifier
    }

    /// Takes the transmitters that wait to be started, oldest first.
    pub fn take_transmitters(&mut self) -> (r: Vec<Waiting>)
        ensures
            r@ == old(self)@.transmitters,
            final(self).wf() == old(self).wf(),
            final(self)@ == (ManagerView { transmitters: Seq::empty(), ..old(self)@ }),
    {
        let mut taken: Vec<Waiting> = Vec::new();
        std::mem::swap(&mut taken, &mut self.transmitters);
        taken
    }

    /// Publishes a stream.
    pub fn publish(&mut self, app_name: &String, stream_name: &String) -> (r: Result<ChannelDataProducer, ChannelError>)
        requires
            old(self).wf(),
        ensures
            final(self).wf(),
            publish_step(old(self)@, app_name@, stream_name@, final(self)@, r),
    {
        if self.channels.contains(app_name, stream_name) {
            return Err(ChannelError { value: ChannelErrorValue::Exists });
        }
        let (data_publisher, data_consumer) = open_data_channel(&self.channels);
        let (event_publisher, event_consumer) = open_event_channel(&self.channels, &data_publisher);
        let transmitter = Transmitter::new(
            app_name.clone(),
            stream_name.clone(),
            data_consumer,
            event_consumer,
            self.rtmp_gop_num,
        );
        self.channels.insert(app_name, stream_name, event_publisher);
        let mut told = true;
        if self.rtmp_push_enabled || self.hls_enabled {
            let client_event = ClientEvent::Publish { app_name: app_name.clone(), stream_name: stream_name.clone() };
            told = send_client_event(&mut self.client_event_producer, client_event).is_ok();
        }
        match delivery(told) {
            Ok(_) => {
                self.transmitters.push(Waiting { transmitter, unused: None });
                Ok(data_publisher)
            },
            Err(error) => {
                self.transmitters.push(Waiting { transmitter, unused: Some(data_publisher) });
                Err(error)
            },
        }
    }

    /// Subscribes a player to a stream.
    pub fn subscribe(&mut self, app_name: &String, stream_name: &String, sub_info: SubscriberInfo) -> (r: Result<
        ChannelDataConsumer,
        ChannelError,
    >)
        requires
            old(self).wf(),
        ensures
            final(self).wf(),
            subscribe_step(old(self)@, app_name@, stream_name@, sub_info, final(self)@, r),
    {
        if self.channels.contains(app_name, stream_name) {
            let (channel_data_producer, channel_data_consumer) = open_data_channel(&self.channels);
            let event = TransmitterEvent::Subscribe { producer: channel_data_producer, info: sub_info };
            return match self.channels.offer(app_name, stream_name, event) {
                Ok(taken) => match delivery(taken) {
                    Ok(_) => Ok(channel_data_consumer),
                    Err(error) => Err(error),
                },
                Err(error) => Err(error),
            };
        }
        if self.rtmp_pull_enabled {
            let client_event = ClientEvent::Subscribe { app_name: app_name.clone(), stream_name: stream_name.clone() };
            let told = send_client_event(&mut self.client_event_producer, client_event).is_ok();
            if let Err(error) = delivery(told) {
                return Err(error);
            }
        }
        Err(ChannelError { value: ChannelErrorValue::NoAppOrStreamName })
    }

    /// Takes a player off a stream.
    pub fn unsubscribe(&mut self, app_name: &String, stream_name: &String, sub_info: SubscriberInfo) -> (r: Result<
        (),
        ChannelError,
    >)
        requires
            old(self).wf(),
        ensures
            final(self).wf(),
            unsubscribe_step(old(self)@, app_name@, stream_name@, sub_info, final(self)@, r),
    {
        match self.channels.offer(app_name, stream_name, TransmitterEvent::UnSubscribe { info: sub_info }) {
            Ok(taken) => delivery(taken),
            Err(error) => Err(error),
        }
    }

    /// Closes a stream whose transmitter has been told that it is no longer published, and hands
    /// out its handle. `taken` is whether the transmitter took that: if not, the stream stays.
    pub fn close_stream(&mut self, app_name: &String, stream_name: &String, taken: bool) -> (r: Result<
        TransmitterEventProducer,
        ChannelError,
    >)
        requires
            old(self).wf(),
            has_stream(old(self)@.channels, app_name@, stream_name@),
        ensures
            final(self).wf(),
            match r {
                Ok(producer) => taken && producer == old(self)@.channels[app_name@][stream_name@],
                Err(error) => !taken && error.value == ChannelErrorValue::SendError,
            },
            final(self)@ == (ManagerView {
                channels: if taken {
                    without_stream(old(self)@.channels, app_name@, stream_name@)
                } else {
                    old(self)@.channels
                },
                ..old(self)@
            }),
    {
        match delivery(taken) {
            Ok(_) => match self.channels.remove(app_name, stream_name) {
                Some(producer) => Ok(producer),
                None => Err(ChannelError { value: ChannelErrorValue::NoStreamName }),
            },
            Err(error) => Err(error),
        }
    }

    /// Takes a stream away, and hands out the handle on its transmitter.
    pub fn unpublish(&mut self, app_name: &String, stream_name: &String) -> (r: Result<
        TransmitterEventProducer,
        ChannelError,
    >)
        requires
            old(self).wf(),
        ensures
            final(self).wf(),
            unpublish_step(old(self)@, app_name@, stream_name@, final(self)@, r),
    {
        let ghost pre = self@;
        match self.channels.offer(app_name, stream_name, TransmitterEvent::UnPublish {  }) {
            Ok(taken) => {
                let ghost producer = self@.channels[app_name@][stream_name@];
                let r = self.close_stream(app_name, stream_name, taken);
                proof {
                    let streams = pre.channels[app_name@];
                    assert(streams.insert(stream_name@, producer).remove(stream_name@) =~= streams.remove(stream_name@));
                    assert(taken ==> self@.channels =~= without_stream(pre.channels, app_name@, stream_name@));
                }
                r
            },
            Err(error) => Err(error),
        }
    }

    /// Asks every stream for its statistics, and says how many will report. What collects the
    /// statistics is handed back, and what takes the number too, if it was not told.
    pub fn api_statistic(
        &mut self,
        data_sender: AvStatisticSender,
        size_sender: StreamStatisticSizeSender,
    ) -> (r: StatisticOutcome)
        requires
            old(self).wf(),
            stream_count(old(self)@.channels) <= usize::MAX,
        ensures
            final(self).wf(),
            statistic_step(old(self)@, data_sender, size_sender, final(self)@, r),
    {
        let mut data_sender = data_sender;
        match self.channels.offer_statistics(&mut data_sender) {
            Ok(count) => StatisticOutcome {
                result: delivery(send_size(size_sender, count).is_ok()),
                data_sender,
                size_sender: None,
            },
            Err(error) => StatisticOutcome { result: Err(error), data_sender, size_sender: Some(size_sender) },
        }
    }

    /// Throws a client out. If its stream is taken away, the handle on the transmitter is handed
    /// out.
    pub fn api_kick_off_client(&mut self, uid: u128) -> (r: Result<Option<TransmitterEventProducer>, ChannelError>)
        requires
            old(self).wf(),
        ensures
            final(self).wf(),
            kick_step(old(self)@, uid, final(self)@, r),
    {
        let ghost pre = self@;
        let info = match self.channels_info.get(&uid) {
            Some(info) => info.clone(),
            None => {
                return Ok(None);
            },
        };
        assert(pre.channels_info.contains_key(uid) && pre.channels_info[uid] == info@);
        match info {
            PubSubInfo::Publish { app_name, stream_name } => match self.unpublish(&app_name, &stream_name) {
                Ok(producer) => Ok(Some(producer)),
                Err(error) => Err(error),
            },
            PubSubInfo::Subscribe { app_name, stream_name, sub_info } => match self.unsubscribe(
                &app_name,
                &stream_name,
                sub_info,
            ) {
                Ok(_) => Ok(None),
                Err(error) => Err(error),
            },
        }
    }

    /// The notification, if somebody is to be notified.
    fn notify(&self, kind: NotificationKind, body: String) -> (r: Option<Notification>)
        ensures
            notifies(self@.notifier, r, kind, body@),
    {
        if self.notifier.is_some() {
            Some(Notification { kind, body })
        } else {
            None
        }
    }

    /// Answers a `Publish` request with what publishing the stream came to, and remembers the
    /// publisher. A request that was refused is not answered: its responder is left over.
    pub fn finish_publish(
        &mut self,
        result: Result<ChannelDataProducer, ChannelError>,
        app_name: String,
        stream_name: String,
        info: PublisherInfo,
        responder: PublishResponder,
        body: String,
    ) -> (r: EventOutcome)
        requires
            old(self).wf(),
        ensures
            final(self).wf(),
            match result {
                Ok(producer) => {
                    &&& r.result is Ok
                    &&& publish_offer(responder).message == producer
                    &&& r.left_over == unheard_publisher(responder)
                    &&& notifies(old(self)@.notifier, r.notification, NotificationKind::Publish, body@)
                    &&& final(self)@ == (ManagerView {
                        channels_info: old(self)@.channels_info.insert(
                            info.id,
                            PubSubInfoView::Publish { app_name: app_name@, stream_name: stream_name@ },
                        ),
                        ..old(self)@
                    })
                },
                Err(error) => {
                    &&& r == (EventOutcome {
                        result: Err(error),
                        notification: None,
                        left_over: Some(Leftover::PublishRequest { responder }),
                    })
                    &&& final(self)@ == old(self)@
                },
            },
    {
        match result {
            Ok(producer) => {
                let left_over = match answer_publish(responder, producer) {
                    Ok(_) => None,
                    Err(producer) => Some(Leftover::Publisher { producer }),
                };
                let notification = self.notify(NotificationKind::Publish, body);
                let ghost pre = self@;
                self.channels_info.insert(info.id, PubSubInfo::Publish { app_name, stream_name });
                assert(self@.channels_info =~= pre.channels_info.insert(
                    info.id,
                    PubSubInfoView::Publish { app_name: app_name@, stream_name: stream_name@ },
                ));
                EventOutcome { result: Ok(()), notification, left_over }
            },
            Err(error) => EventOutcome {
                result: Err(error),
                notification: None,
                left_over: Some(Leftover::PublishRequest { responder }),
            },
        }
    }

    /// Answers a `Subscribe` request with what subscribing to the stream came to, and remembers
    /// the subscriber. A request that was refused is not answered: its responder is left over.
    pub fn finish_subscribe(
        &mut self,
        result: Result<ChannelDataConsumer, ChannelError>,
        app_name: String,
        stream_name: String,
        info: SubscriberInfo,
        responder: SubscribeResponder,
        body: String,
    ) -> (r: EventOutcome)
        requires
            old(self).wf(),
        ensures
            final(self).wf(),
            match result {
                Ok(consumer) => {
                    &&& r.result is Ok
                    &&& subscribe_offer(responder).message == consumer
                    &&& r.left_over is None
                    &&& notifies(old(self)@.notifier, r.notification, NotificationKind::Play, body@)
                    &&& final(self)@ == (ManagerView {
                        channels_info: old(self)@.channels_info.insert(
                            info.id,
                            PubSubInfoView::Subscribe {
                                app_name: app_name@,
                                stream_name: stream_name@,
                                sub_info: info,
                            },
                        ),
                        ..old(self)@
                    })
                },
                Err(error) => {
                    &&& r == (EventOutcome {
                        result: Err(error),
                        notification: None,
                        left_over: Some(Leftover::SubscribeRequest { responder }),
                    })
                    &&& final(self)@ == old(self)@
                },
            },
    {
        match result {
            Ok(consumer) => {
                let _ = answer_subscribe(responder, consumer);
                let notification = self.notify(NotificationKind::Play, body);
                let ghost pre = self@;
                self.channels_info.insert(
                    info.id,
                    PubSubInfo::Subscribe { app_name, stream_name, sub_info: info },
                );
                assert(self@.channels_info =~= pre.channels_info.insert(
                    info.id,
                    PubSubInfoView::Subscribe { app_name: app_name@, stream_name: stream_name@, sub_info: info },
                ));
                EventOutcome { result: Ok(()), notification, left_over: None }
            },
            Err(error) => EventOutcome {
                result: Err(error),
                notification: None,
                left_over: Some(Leftover::SubscribeRequest { responder }),
            },
        }
    }

    /// Does what a request asks for. `serialized` is the request in the form in which the
    /// notifier is told of it, if it has one.
    pub fn handle_event(&mut self, message: ChannelEvent, serialized: Option<String>) -> (r: EventOutcome)
        requires
            old(self).wf(),
            message is ApiStatistic ==> stream_count(old(self)@.channels) <= usize::MAX,
        ensures
            final(self).wf(),
            event_step(old(self)@, message, body_text(serialized), final(self)@, r),
    {
        let body = notification_body(serialized);
        match message {
            ChannelEvent::Publish { app_name, stream_name, info, responder } => {
                let result = self.publish(&app_name, &stream_name);
                self.finish_publish(result, app_name, stream_name, info, responder, body)
            },
            ChannelEvent::UnPublish { app_name, stream_name, info: _ } => {
                let result = self.unpublish(&app_name, &stream_name);
                let notification = self.notify(NotificationKind::UnPublish, body);
                match result {
                    Ok(producer) => EventOutcome {
                        result: Ok(()),
                        notification,
                        left_over: Some(Leftover::Stream { producer }),
                    },
                    Err(error) => EventOutcome { result: Err(error), notification, left_over: None },
                }
            },
            ChannelEvent::Subscribe { app_name, stream_name, info, responder } => {
                let result = self.subscribe(&app_name, &stream_name, info);
                self.finish_subscribe(result, app_name, stream_name, info, responder, body)
            },
            ChannelEvent::UnSubscribe { app_name, stream_name, info } => {
                let result = self.unsubscribe(&app_name, &stream_name, info);
                let notification = if result.is_ok() {
                    self.notify(NotificationKind::Stop, body)
                } else {
                    None
                };
                EventOutcome { result, notification, left_over: None }
            },
            ChannelEvent::ApiStatistic { data_sender, size_sender } => {
                let StatisticOutcome { result, data_sender, size_sender } = self.api_statistic(data_sender, size_sender);
                EventOutcome {
                    result,
                    notification: None,
                    left_over: Some(Leftover::Statistic { data_sender, size_sender }),
                }
            },
            ChannelEvent::ApiKickClient { id } => {
                let result = self.api_kick_off_client(id);
                let notification = self.notify(NotificationKind::UnPublish, body);
                match result {
                    Ok(Some(producer)) => EventOutcome {
                        result: Ok(()),
                        notification,
                        left_over: Some(Leftover::Stream { producer }),
                    },
                    Ok(None) => EventOutcome { result: Ok(()), notification, left_over: None },
                    Err(error) => EventOutcome { result: Err(error), notification, left_over: None },
                }
            },
        }
    }
}

} // verus!

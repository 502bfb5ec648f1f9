//! What holds of the channels across several operations.

use crate::define::{
    AvStatisticSender, ChannelDataConsumer, ChannelDataProducer, ChannelDataView, ChannelEvent,
    EventOutcome, Leftover, Notification, PubSubInfoView, StatisticOutcome,
    StreamStatisticSizeSender, SubscribeType, SubscriberInfo, TransmitterEventProducer,
    TransmitterEventView,
};
use crate::errors::{ChannelError, ChannelErrorValue};
use crate::links::{
    client_consumers, data_channel, data_channel_of, data_offers, event_channel, event_offers,
    publish_offer, size_offer, subscribe_offer, Offer,
};
use crate::manager::{
    answered, event_step, notification_due, publish_step, request_step, statistic_step,
    subscribe_step, unpublish_step, unsubscribe_step, ManagerView,
};
use crate::streams::{
    all_took, asked, event_offered, event_refused, has_stream, multiplied, one_refused,
    statistic_request, stream_count, stream_names, told_before, Streams,
};
use crate::transmitter::{
    all_taken, offered, offered_to_all, took_all, wants_gops, CachedMedia, TransmitterView,
};
use vstd::prelude::*;

verus! {

/// A stream can be published once: whatever the first attempt came to, the stream is there
/// after it, and a second attempt is refused and changes nothing.
pub proof fn law_published_once<N>(
    s0: ManagerView<N>,
    s1: ManagerView<N>,
    s2: ManagerView<N>,
    app: Seq<char>,
    stream: Seq<char>,
    r1: Result<ChannelDataProducer, ChannelError>,
    r2: Result<ChannelDataProducer, ChannelError>,
)
    requires
        publish_step(s0, app, stream, s1, r1),
        publish_step(s1, app, stream, s2, r2),
    ensures
        has_stream(s1.channels, app, stream),
        r2 matches Err(error) && error.value == ChannelErrorValue::Exists,
        s2 == s1,
{
}

/// Taking a stream away undoes publishing it, except that its application stays known.
pub proof fn law_unpublish_undoes_publish<N>(
    s0: ManagerView<N>,
    s1: ManagerView<N>,
    s2: ManagerView<N>,
    app: Seq<char>,
    stream: Seq<char>,
    r1: Result<ChannelDataProducer, ChannelError>,
    closed: TransmitterEventProducer,
)
    requires
        !has_stream(s0.channels, app, stream),
        publish_step(s0, app, stream, s1, r1),
        unpublish_step(s1, app, stream, s2, Ok(closed)),
    ensures
        s2.channels == (if s0.channels.contains_key(app) {
            s0.channels
        } else {
            s0.channels.insert(app, Map::empty())
        }),
        s2.channels_info == s0.channels_info,
{
    let producer = s1.channels[app][stream];
    if s0.channels.contains_key(app) {
        assert(s1.channels[app].remove(stream) =~= s0.channels[app]);
    } else {
        assert(s1.channels[app].remove(stream) =~= Map::empty());
    }
    assert(s2.channels =~= (if s0.channels.contains_key(app) {
        s0.channels
    } else {
        s0.channels.insert(app, Map::empty())
    }));
}

/// A stream that has been taken away is not there: it cannot be taken away again, nobody can
/// leave it or get onto it, and it can be published anew.
pub proof fn law_unpublished_is_gone<N>(
    s0: ManagerView<N>,
    s1: ManagerView<N>,
    s2: ManagerView<N>,
    app: Seq<char>,
    stream: Seq<char>,
    info: SubscriberInfo,
    closed: TransmitterEventProducer,
    unpublished: Result<TransmitterEventProducer, ChannelError>,
    left: Result<(), ChannelError>,
    subscribed: Result<ChannelDataConsumer, ChannelError>,
    published: Result<ChannelDataProducer, ChannelError>,
)
    requires
        has_stream(s0.channels, app, stream),
        unpublish_step(s0, app, stream, s1, Ok(closed)),
    ensures
        !has_stream(s1.channels, app, stream),
        unpublish_step(s1, app, stream, s2, unpublished) ==> s2 == s1 && (unpublished matches Err(error)
            && error.value == ChannelErrorValue::NoStreamName),
        unsubscribe_step(s1, app, stream, info, s2, left) ==> s2 == s1 && (left matches Err(error) && error.value
            == ChannelErrorValue::NoStreamName),
        subscribe_step(s1, app, stream, info, s2, subscribed) ==> s2.channels == s1.channels && subscribed is Err,
        publish_step(s1, app, stream, s2, published) ==> has_stream(s2.channels, app, stream) && (
        published matches Err(error) ==> error.value == ChannelErrorValue::SendError),
{
}

/// Every stream but one is left as it was.
pub open spec fn others_kept(pre: Streams, post: Streams, app: Seq<char>, stream: Seq<char>) -> bool {
    forall|other_app: Seq<char>, other: Seq<char>|
        #![trigger has_stream(pre, other_app, other)]
        #![trigger has_stream(post, other_app, other)]
        (other_app, other) != (app, stream) ==> {
            &&& has_stream(post, other_app, other) == has_stream(pre, other_app, other)
            &&& has_stream(pre, other_app, other) ==> post[other_app][other] == pre[other_app][other]
        }
}

/// What is done about one stream leaves every other stream as it was.
pub proof fn law_streams_are_independent<N>(
    pre: ManagerView<N>,
    post: ManagerView<N>,
    app: Seq<char>,
    stream: Seq<char>,
    info: SubscriberInfo,
    published: Result<ChannelDataProducer, ChannelError>,
    subscribed: Result<ChannelDataConsumer, ChannelError>,
    left: Result<(), ChannelError>,
    unpublished: Result<TransmitterEventProducer, ChannelError>,
)
    requires
        publish_step(pre, app, stream, post, published) || subscribe_step(pre, app, stream, info, post, subscribed)
            || unsubscribe_step(pre, app, stream, info, post, left) || unpublish_step(
            pre,
            app,
            stream,
            post,
            unpublished,
        ),
    ensures
        others_kept(pre.channels, post.channels, app, stream),
{
}

/// The handle `post` is the handle `pre`, with nothing but more events offered through it.
pub open spec fn continues(pre: TransmitterEventProducer, post: TransmitterEventProducer) -> bool {
    &&& event_channel(post) == event_channel(pre)
    &&& event_offers(pre).is_prefix_of(event_offers(post))
    &&& event_refused(pre) ==> forall|i: int|
        event_offers(pre).len() <= i < event_offers(post).len() ==> !(#[trigger] event_offers(post)[i]).taken
}

/// A request does not make a transmitter forget what it was told, nor puts another transmitter
/// in its place: as long as a stream stays published, its handle only has events added. A
/// transmitter that has once been found gone takes none of them.
pub proof fn law_transmitters_stay<N>(
    pre: ManagerView<N>,
    message: ChannelEvent,
    body: Seq<char>,
    post: ManagerView<N>,
    outcome: EventOutcome,
    app: Seq<char>,
    stream: Seq<char>,
)
    requires
        event_step(pre, message, body, post, outcome),
        has_stream(pre.channels, app, stream),
        has_stream(post.channels, app, stream),
    ensures
        continues(pre.channels[app][stream], post.channels[app][stream]),
{
}

/// A request to publish that is refused because the stream is published already changes
/// nothing, nobody is notified, and the request is not answered.
pub proof fn law_refused_publish_changes_nothing<N>(
    pre: ManagerView<N>,
    message: ChannelEvent,
    body: Seq<char>,
    post: ManagerView<N>,
    outcome: EventOutcome,
)
    requires
        event_step(pre, message, body, post, outcome),
        message matches ChannelEvent::Publish { app_name, stream_name, .. } && has_stream(
            pre.channels,
            app_name@,
            stream_name@,
        ),
    ensures
        post == pre,
        outcome.result matches Err(error) && error.value == ChannelErrorValue::Exists,
        outcome.notification is None,
        message matches ChannelEvent::Publish { responder, .. } && outcome.left_over == Some(
            Leftover::PublishRequest { responder },
        ),
{
}

/// Whoever is refused gets no answer: the responder comes back, and so does what takes the
/// number of streams if a stream refused to report.
pub proof fn law_refused_requests_are_not_answered<N>(
    pre: ManagerView<N>,
    message: ChannelEvent,
    body: Seq<char>,
    post: ManagerView<N>,
    outcome: EventOutcome,
)
    requires
        event_step(pre, message, body, post, outcome),
        outcome.result is Err,
    ensures
        match message {
            ChannelEvent::Publish { responder, .. } => outcome.left_over == Some(Leftover::PublishRequest { responder }),
            ChannelEvent::Subscribe { responder, .. } => outcome.left_over == Some(
                Leftover::SubscribeRequest { responder },
            ),
            ChannelEvent::ApiStatistic { data_sender, size_sender } => match outcome.left_over {
                Some(Leftover::Statistic { size_sender: Some(kept), .. }) => kept == size_sender && one_refused(
                    pre.channels,
                    post.channels,
                    statistic_request(data_sender),
                ),
                Some(Leftover::Statistic { size_sender: None, .. }) => !size_offer(size_sender).taken && all_took(
                    pre.channels,
                    post.channels,
                    statistic_request(data_sender),
                ),
                _ => false,
            },
            _ => outcome.left_over is None,
        },
{
}

/// The client that a request adds to those that can be thrown out.
pub open spec fn added_client(message: ChannelEvent) -> Option<(u128, PubSubInfoView)> {
    match message {
        ChannelEvent::Publish { app_name, stream_name, info, .. } => Some(
            (info.id, PubSubInfoView::Publish { app_name: app_name@, stream_name: stream_name@ }),
        ),
        ChannelEvent::Subscribe { app_name, stream_name, info, .. } => Some(
            (
                info.id,
                PubSubInfoView::Subscribe { app_name: app_name@, stream_name: stream_name@, sub_info: info },
            ),
        ),
        _ => None,
    }
}

/// A client is remembered exactly if its request to publish or to subscribe went through, and
/// nobody is ever forgotten.
pub proof fn law_clients_are_remembered<N>(
    pre: ManagerView<N>,
    message: ChannelEvent,
    body: Seq<char>,
    post: ManagerView<N>,
    outcome: EventOutcome,
)
    requires
        event_step(pre, message, body, post, outcome),
    ensures
        post.channels_info == match added_client(message) {
            Some(client) if outcome.result is Ok => pre.channels_info.insert(client.0, client.1),
            _ => pre.channels_info,
        },
        pre.channels_info.dom().subset_of(post.channels_info.dom()),
{
}

/// Throwing a publisher out takes away the stream that it published.
pub proof fn law_kicked_publisher_is_unpublished<N>(
    s0: ManagerView<N>,
    publish: ChannelEvent,
    body: Seq<char>,
    s1: ManagerView<N>,
    published: EventOutcome,
    kick: ChannelEvent,
    kick_body: Seq<char>,
    s2: ManagerView<N>,
    kicked: EventOutcome,
)
    requires
        event_step(s0, publish, body, s1, published),
        published.result is Ok,
        event_step(s1, kick, kick_body, s2, kicked),
        publish matches ChannelEvent::Publish { info, .. } && kick == (ChannelEvent::ApiKickClient { id: info.id }),
    ensures
        publish matches ChannelEvent::Publish { app_name, stream_name, .. } && has_stream(
            s1.channels,
            app_name@,
            stream_name@,
        ) && match (kicked.result, kicked.left_over) {
            (Ok(_), Some(Leftover::Stream { producer })) => unpublish_step(
                s1,
                app_name@,
                stream_name@,
                s2,
                Ok(producer),
            ),
            (Err(error), None) => unpublish_step(s1, app_name@, stream_name@, s2, Err(error)),
            _ => false,
        },
{
}

/// Throwing a player out takes it off the stream that it subscribed to.
pub proof fn law_kicked_player_is_unsubscribed<N>(
    s0: ManagerView<N>,
    subscribe: ChannelEvent,
    body: Seq<char>,
    s1: ManagerView<N>,
    subscribed: EventOutcome,
    kick: ChannelEvent,
    kick_body: Seq<char>,
    s2: ManagerView<N>,
    kicked: EventOutcome,
)
    requires
        event_step(s0, subscribe, body, s1, subscribed),
        subscribed.result is Ok,
        event_step(s1, kick, kick_body, s2, kicked),
        subscribe matches ChannelEvent::Subscribe { info, .. } && kick == (ChannelEvent::ApiKickClient {
            id: info.id,
        }),
    ensures
        subscribe matches ChannelEvent::Subscribe { app_name, stream_name, info, .. } && has_stream(
            s1.channels,
            app_name@,
            stream_name@,
        ) && unsubscribe_step(s1, app_name@, stream_name@, info, s2, kicked.result),
{
}

/// No request changes how the manager is set up, and without a notifier nobody is notified.
pub proof fn law_settings_stay<N>(
    pre: ManagerView<N>,
    message: ChannelEvent,
    body: Seq<char>,
    post: ManagerView<N>,
    outcome: EventOutcome,
)
    requires
        event_step(pre, message, body, post, outcome),
    ensures
        post == (ManagerView {
            channels: post.channels,
            channels_info: post.channels_info,
            client_producer: post.client_producer,
            transmitters: post.transmitters,
            ..pre
        }),
        outcome.notification is Some ==> pre.notifier is Some,
{
}

/// The push and pull clients are told of a request only if there are such: of a new stream if
/// streams are pushed or cut into HLS segments, and of a missing one if streams are pulled.
pub proof fn law_clients_are_told_when_asked_for<N>(
    pre: ManagerView<N>,
    message: ChannelEvent,
    body: Seq<char>,
    post: ManagerView<N>,
    outcome: EventOutcome,
)
    requires
        event_step(pre, message, body, post, outcome),
        post.client_producer != pre.client_producer,
    ensures
        match message {
            ChannelEvent::Publish { app_name, stream_name, .. } => {
                &&& pre.rtmp_push_enabled || pre.hls_enabled
                &&& !has_stream(pre.channels, app_name@, stream_name@)
            },
            ChannelEvent::Subscribe { app_name, stream_name, .. } => {
                &&& pre.rtmp_pull_enabled
                &&& !has_stream(pre.channels, app_name@, stream_name@)
            },
            _ => false,
        },
{
}

/// As long as no push or pull client has ever listened, what they would have to be told of is
/// refused: a new stream, if streams are pushed or cut into HLS segments, though the stream is
/// there; and a missing one, if streams are pulled.
pub proof fn law_unheard_clients_refuse<N>(
    pre: ManagerView<N>,
    post: ManagerView<N>,
    app: Seq<char>,
    stream: Seq<char>,
    info: SubscriberInfo,
    published: Result<ChannelDataProducer, ChannelError>,
    subscribed: Result<ChannelDataConsumer, ChannelError>,
)
    requires
        client_consumers(pre.client_producer) == 0,
        !has_stream(pre.channels, app, stream),
    ensures
        publish_step(pre, app, stream, post, published) && (pre.rtmp_push_enabled || pre.hls_enabled) ==> has_stream(
            post.channels,
            app,
            stream,
        ) && (published matches Err(error) && error.value == ChannelErrorValue::SendError),
        subscribe_step(pre, app, stream, info, post, subscribed) && pre.rtmp_pull_enabled ==> (
        subscribed matches Err(error) && error.value == ChannelErrorValue::SendError),
{
}

/// No request makes a push or pull client listen.
pub proof fn law_requests_bring_no_clients<N>(
    pre: ManagerView<N>,
    message: ChannelEvent,
    body: Seq<char>,
    post: ManagerView<N>,
    outcome: EventOutcome,
)
    requires
        event_step(pre, message, body, post, outcome),
    ensures
        client_consumers(post.client_producer) == client_consumers(pre.client_producer),
{
}

/// The manager, with another notifier or with none.
pub open spec fn with_notifier<N, M>(state: ManagerView<N>, notifier: Option<M>) -> ManagerView<M> {
    ManagerView {
        channels: state.channels,
        channels_info: state.channels_info,
        request_consumer: state.request_consumer,
        request_producer: state.request_producer,
        client_producer: state.client_producer,
        rtmp_gop_num: state.rtmp_gop_num,
        rtmp_push_enabled: state.rtmp_push_enabled,
        rtmp_pull_enabled: state.rtmp_pull_enabled,
        hls_enabled: state.hls_enabled,
        notifier,
        transmitters: state.transmitters,
    }
}

/// What a notifier is told after a request, if there is one.
pub open spec fn told_of<M>(
    notifier: Option<M>,
    message: ChannelEvent,
    result: Result<(), ChannelError>,
    body: String,
) -> Option<Notification> {
    match notification_due(message, result) {
        Some(kind) if notifier is Some => Some(Notification { kind, body }),
        _ => None,
    }
}

/// The notifier changes nothing but what is notified: what a request does with one notifier it
/// does with any other and with none, to the streams, the clients, the transmitters and whoever
/// made the request.
pub proof fn law_notifier_changes_nothing<N, M>(
    pre: ManagerView<N>,
    message: ChannelEvent,
    body: String,
    post: ManagerView<N>,
    outcome: EventOutcome,
    notifier: Option<M>,
)
    requires
        event_step(pre, message, body@, post, outcome),
    ensures
        event_step(
            with_notifier(pre, notifier),
            message,
            body@,
            with_notifier(post, notifier),
            EventOutcome {
                result: outcome.result,
                notification: told_of(notifier, message, outcome.result, body),
                left_over: outcome.left_over,
            },
        ),
{
    let other_pre = with_notifier(pre, notifier);
    let other_post = with_notifier(post, notifier);
    let result = outcome.result;
    match message {
        ChannelEvent::Publish { app_name, stream_name, info, responder } => {
            assert(publish_step(
                other_pre,
                app_name@,
                stream_name@,
                ManagerView { channels_info: other_pre.channels_info, ..other_post },
                answered(result, publish_offer(responder).message),
            ));
        },
        ChannelEvent::Subscribe { app_name, stream_name, info, responder } => {
            assert(subscribe_step(
                other_pre,
                app_name@,
                stream_name@,
                info,
                ManagerView { channels_info: other_pre.channels_info, ..other_post },
                answered(result, subscribe_offer(responder).message),
            ));
        },
        _ => {},
    }
    assert(request_step(other_pre, message, other_post, result, outcome.left_over));
}

/// A request for the statistics that no stream refuses makes one handle for each stream, and
/// what takes the number of streams is told how many those are.
pub proof fn law_statistics_are_counted<N>(
    pre: ManagerView<N>,
    data_sender: AvStatisticSender,
    size_sender: StreamStatisticSizeSender,
    post: ManagerView<N>,
    outcome: StatisticOutcome,
)
    requires
        statistic_step(pre, data_sender, size_sender, post, outcome),
        outcome.size_sender is None,
    ensures
        multiplied(data_sender, outcome.data_sender, stream_count(pre.channels) as int),
        size_offer(size_sender).message == stream_count(pre.channels),
{
    let event = statistic_request(data_sender);
    assert forall|name: (Seq<char>, Seq<char>)|
        asked(pre.channels, post.channels).contains(name) <==> stream_names(pre.channels).contains(name) by {
        if has_stream(pre.channels, name.0, name.1) {
            let before = pre.channels[name.0][name.1];
            let after = post.channels[name.0][name.1];
            assert(event_offered(before, after, event, true));
            assert(event_offers(after).len() != event_offers(before).len());
        }
    }
    assert(asked(pre.channels, post.channels) =~= stream_names(pre.channels));
}

/// A transmitter waits to be started exactly for each stream that becomes published.
pub proof fn law_one_transmitter_per_publication<N>(
    pre: ManagerView<N>,
    message: ChannelEvent,
    body: Seq<char>,
    post: ManagerView<N>,
    outcome: EventOutcome,
)
    requires
        event_step(pre, message, body, post, outcome),
    ensures
        match message {
            ChannelEvent::Publish { app_name, stream_name, .. } if !has_stream(
                pre.channels,
                app_name@,
                stream_name@,
            ) => {
                &&& has_stream(post.channels, app_name@, stream_name@)
                &&& post.transmitters == pre.transmitters.push(post.transmitters.last())
                &&& post.transmitters.last().transmitter@.event_channel == event_channel(
                    post.channels[app_name@][stream_name@],
                )
            },
            _ => {
                &&& post.transmitters == pre.transmitters
                &&& forall|app: Seq<char>, stream: Seq<char>| #[trigger]
                    has_stream(post.channels, app, stream) ==> has_stream(pre.channels, app, stream)
            },
        },
{
}

/// A stream whose transmitter is gone is stuck: it cannot be taken away, nobody gets onto it or
/// leaves it, and it cannot be published anew.
pub proof fn law_dead_stream_is_stuck<N>(
    pre: ManagerView<N>,
    post: ManagerView<N>,
    app: Seq<char>,
    stream: Seq<char>,
    info: SubscriberInfo,
    published: Result<ChannelDataProducer, ChannelError>,
    subscribed: Result<ChannelDataConsumer, ChannelError>,
    left: Result<(), ChannelError>,
    unpublished: Result<TransmitterEventProducer, ChannelError>,
)
    requires
        has_stream(pre.channels, app, stream),
        event_refused(pre.channels[app][stream]),
    ensures
        publish_step(pre, app, stream, post, published) ==> published is Err && post == pre,
        subscribe_step(pre, app, stream, info, post, subscribed) ==> subscribed is Err,
        unsubscribe_step(pre, app, stream, info, post, left) ==> left is Err,
        unpublish_step(pre, app, stream, post, unpublished) ==> unpublished is Err && has_stream(
            post.channels,
            app,
            stream,
        ),
{
}

/// Publishing a stream that was not there adds one to the number of streams, and taking a
/// stream away that was there takes one off.
pub proof fn law_streams_are_counted<N>(
    pre: ManagerView<N>,
    post: ManagerView<N>,
    app: Seq<char>,
    stream: Seq<char>,
    published: Result<ChannelDataProducer, ChannelError>,
    closed: TransmitterEventProducer,
)
    requires
        stream_names(pre.channels).finite(),
    ensures
        publish_step(pre, app, stream, post, published) ==> stream_count(post.channels) == stream_count(pre.channels)
            + (if has_stream(pre.channels, app, stream) {
            0int
        } else {
            1int
        }),
        has_stream(pre.channels, app, stream) && unpublish_step(pre, app, stream, post, Ok(closed)) ==> stream_count(
            post.channels,
        ) == stream_count(pre.channels) - 1,
{
    if publish_step(pre, app, stream, post, published) && !has_stream(pre.channels, app, stream) {
        assert(stream_names(post.channels) =~= stream_names(pre.channels).insert((app, stream)));
    }
    if has_stream(pre.channels, app, stream) && unpublish_step(pre, app, stream, post, Ok(closed)) {
        assert(stream_names(pre.channels).contains((app, stream)));
        assert(stream_names(post.channels) =~= stream_names(pre.channels).remove((app, stream)));
    }
}

/// The four kinds of players are given the same when they come, and one that relays the stream
/// is given the same but for the groups of pictures.
pub proof fn law_players_are_given_the_same(cached: CachedMedia, one: SubscribeType, other: SubscribeType)
    ensures
        wants_gops(one) && wants_gops(other) ==> cached.replay_packets(one) == cached.replay_packets(other),
        !wants_gops(one) ==> cached.replay_packets(one).is_prefix_of(cached.replay_packets(other)),
{
}

/// The packets that were offered, in order.
pub open spec fn messages(offers: Seq<Offer<ChannelDataView>>) -> Seq<ChannelDataView> {
    offers.map_values(|offer: Offer<ChannelDataView>| offer.message)
}

/// After one packet has been handed back, none is taken: what was taken is an unbroken run.
pub open spec fn unbroken(offers: Seq<Offer<ChannelDataView>>) -> bool {
    forall|i: int, j: int|
        #![trigger offers[i], offers[j]]
        0 <= i < j < offers.len() && offers[j].taken ==> offers[i].taken
}

/// What happens to the subscribers of a stream, seen by one of them: a packet is passed on, or
/// somebody else comes or goes.
pub open spec fn passes(
    pre: Map<u128, ChannelDataProducer>,
    post: Map<u128, ChannelDataProducer>,
    packet: Option<ChannelDataView>,
    id: u128,
) -> bool {
    match packet {
        Some(packet) => offered_to_all(pre, post, packet),
        None => pre.contains_key(id) ==> post.contains_key(id) && post[id] == pre[id],
    }
}

/// The packets among the steps.
pub open spec fn passed_on(steps: Seq<Option<ChannelDataView>>) -> Seq<ChannelDataView>
    decreases steps.len(),
{
    if steps.len() == 0 {
        Seq::empty()
    } else {
        match steps.last() {
            Some(packet) => passed_on(steps.drop_last()).push(packet),
            None => passed_on(steps.drop_last()),
        }
    }
}

/// `states` are the subscribers before, between and after the steps.
pub open spec fn runs(
    states: Seq<Map<u128, ChannelDataProducer>>,
    steps: Seq<Option<ChannelDataView>>,
    id: u128,
) -> bool {
    &&& states.len() == steps.len() + 1
    &&& forall|i: int| 0 <= i < steps.len() ==> passes(#[trigger] states[i], states[i + 1], steps[i], id)
}

/// As long as a subscriber stays, whoever else comes and goes, it is offered every packet, in
/// order, on the channel that it came with; and what it takes of them is an unbroken run.
pub proof fn law_packets_arrive_in_order(
    states: Seq<Map<u128, ChannelDataProducer>>,
    steps: Seq<Option<ChannelDataView>>,
    id: u128,
)
    requires
        runs(states, steps, id),
        states.first().contains_key(id),
    ensures
        states.last().contains_key(id),
        data_channel(states.last()[id]) == data_channel(states.first()[id]),
        messages(data_offers(states.last()[id])) == messages(data_offers(states.first()[id])) + passed_on(steps),
        unbroken(data_offers(states.first()[id])) ==> unbroken(data_offers(states.last()[id])),
    decreases steps.len(),
{
    let start = messages(data_offers(states.first()[id]));
    if steps.len() == 0 {
        assert(start + passed_on(steps) =~= start);
    } else {
        let earlier = states.drop_last();
        let before = steps.drop_last();
        assert(runs(earlier, before, id)) by {
            assert forall|i: int| 0 <= i < before.len() implies passes(
                #[trigger] earlier[i],
                earlier[i + 1],
                before[i],
                id,
            ) by {
                assert(passes(states[i], states[i + 1], steps[i], id));
            }
        }
        law_packets_arrive_in_order(earlier, before, id);
        let n = steps.len() - 1;
        assert(passes(states[n], states[n + 1], steps[n], id));
        if let Some(packet) = steps[n] {
            let pre = states[n][id];
            let post = states[n + 1][id];
            assert(offered(pre, post, packet));
            assert(messages(data_offers(post)) =~= messages(data_offers(pre)).push(packet));
            assert(start + passed_on(steps) =~= (start + passed_on(before)).push(packet));
        }
    }
}

/// A subscriber that comes with a new channel is offered what the cache holds for it, and then
/// every packet that is passed on while it stays, and nothing else.
pub proof fn law_cache_comes_before_packets(
    producer: ChannelDataProducer,
    info: SubscriberInfo,
    cached: CachedMedia,
    states: Seq<Map<u128, ChannelDataProducer>>,
    steps: Seq<Option<ChannelDataView>>,
)
    requires
        data_offers(producer) == Seq::<Offer<ChannelDataView>>::empty(),
        states.first().contains_key(info.id),
        took_all(producer, states.first()[info.id], cached.replay_packets(info.sub_type)),
        runs(states, steps, info.id),
    ensures
        states.last().contains_key(info.id),
        data_channel(states.last()[info.id]) == data_channel(producer),
        messages(data_offers(states.last()[info.id])) == cached.replay_packets(info.sub_type) + passed_on(steps),
        unbroken(data_offers(states.last()[info.id])),
{
    let replay = cached.replay_packets(info.sub_type);
    let first = states.first()[info.id];
    law_packets_arrive_in_order(states, steps, info.id);
    assert(data_offers(first) =~= all_taken(replay));
    assert(messages(data_offers(first)) =~= replay);
}

/// A subscriber that has gone is offered nothing more.
pub proof fn law_gone_subscriber_is_left_alone(
    pre: TransmitterView,
    info: SubscriberInfo,
    post: Map<u128, ChannelDataProducer>,
    packet: ChannelDataView,
)
    requires
        offered_to_all(pre.subscribers.remove(info.id), post, packet),
    ensures
        !post.contains_key(info.id),
        post.dom() == pre.subscribers.dom().remove(info.id),
{
}

/// A player that subscribes to a stream is put through to the transmitter that the publisher of
/// the stream feeds: the transmitter has been told to send on the player's channel, and that is
/// the first thing it has been told.
pub proof fn law_player_reaches_publisher<N>(
    s0: ManagerView<N>,
    s1: ManagerView<N>,
    s2: ManagerView<N>,
    app: Seq<char>,
    stream: Seq<char>,
    info: SubscriberInfo,
    data: ChannelDataProducer,
    consumer: ChannelDataConsumer,
)
    requires
        publish_step(s0, app, stream, s1, Ok(data)),
        subscribe_step(s1, app, stream, info, s2, Ok(consumer)),
    ensures
        s1.transmitters.len() == s0.transmitters.len() + 1,
        s1.transmitters.last().transmitter@.data_channel == data_channel(data),
        s1.transmitters.last().transmitter@.event_channel == event_channel(s2.channels[app][stream]),
        event_offers(s2.channels[app][stream]).len() == 1,
        event_offers(s2.channels[app][stream])[0].taken,
        event_offers(s2.channels[app][stream])[0].message matches TransmitterEventView::Subscribe {
            producer,
            info: told,
        } && told == info && data_channel(producer) == data_channel_of(consumer) && data_offers(producer)
            == Seq::<Offer<ChannelDataView>>::empty(),
{
}

/// One request, or something that leaves the streams alone.
pub open spec fn follows<N>(pre: ManagerView<N>, post: ManagerView<N>) -> bool {
    post.channels == pre.channels || exists|message: ChannelEvent, body: Seq<char>, outcome: EventOutcome|
        event_step(pre, message, body, post, outcome)
}

/// The manager goes through these states, and the stream is published in all of them.
pub open spec fn stays_published<N>(states: Seq<ManagerView<N>>, app: Seq<char>, stream: Seq<char>) -> bool {
    &&& states.len() > 0
    &&& forall|i: int| 0 <= i < states.len() ==> has_stream((#[trigger] states[i]).channels, app, stream)
    &&& forall|i: int| 0 <= i < states.len() - 1 ==> follows(#[trigger] states[i], states[i + 1])
}

/// As long as a stream stays published, however many requests are served, its transmitter stays
/// the same and only has events added.
pub proof fn law_transmitters_last<N>(states: Seq<ManagerView<N>>, app: Seq<char>, stream: Seq<char>)
    requires
        stays_published(states, app, stream),
    ensures
        continues(states.first().channels[app][stream], states.last().channels[app][stream]),
    decreases states.len(),
{
    let n = states.len() - 1;
    if n > 0 {
        let earlier = states.drop_last();
        assert(stays_published(earlier, app, stream)) by {
            assert forall|i: int| 0 <= i < earlier.len() implies has_stream(
                (#[trigger] earlier[i]).channels,
                app,
                stream,
            ) by {
                assert(has_stream(states[i].channels, app, stream));
            }
            assert forall|i: int| 0 <= i < earlier.len() - 1 implies follows(#[trigger] earlier[i], earlier[i + 1]) by {
                assert(follows(states[i], states[i + 1]));
            }
        }
        law_transmitters_last(earlier, app, stream);
        let pre = states[n - 1];
        let post = states[n];
        assert(follows(pre, post));
        assert(has_stream(pre.channels, app, stream) && has_stream(post.channels, app, stream));
        if post.channels != pre.channels {
            let (message, body, outcome) = choose|message: ChannelEvent, body: Seq<char>, outcome: EventOutcome|
                event_step(pre, message, body, post, outcome);
            law_transmitters_stay(pre, message, body, post, outcome, app, stream);
        }
    }
}

/// The last thing that a transmitter was told is to send to this player, on its channel.
pub open spec fn told_of_player(
    producer: TransmitterEventProducer,
    info: SubscriberInfo,
    consumer: ChannelDataConsumer,
) -> bool {
    event_offers(producer).last().taken && (event_offers(producer).last().message matches
        TransmitterEventView::Subscribe { producer: data, info: told } && told == info && data_channel(data)
        == data_channel_of(consumer))
}

/// The streams are kept apart. A stream that is published while another one stays published has
/// channels of its own: its publisher feeds another transmitter, and a player of either stream is
/// told to the transmitter of that stream and not to the other. So no packet of the one stream
/// reaches a player of the other, also where they share the application or the stream name.
pub proof fn law_streams_are_kept_apart<N>(
    s0: ManagerView<N>,
    first_app: Seq<char>,
    first_stream: Seq<char>,
    first_data: ChannelDataProducer,
    between: Seq<ManagerView<N>>,
    app: Seq<char>,
    stream: Seq<char>,
    data: ChannelDataProducer,
    after: Seq<ManagerView<N>>,
    on_first: bool,
    info: SubscriberInfo,
    s3: ManagerView<N>,
    consumer: ChannelDataConsumer,
)
    requires
        publish_step(s0, first_app, first_stream, between.first(), Ok(first_data)),
        stays_published(between, first_app, first_stream),
        publish_step(between.last(), app, stream, after.first(), Ok(data)),
        stays_published(after, first_app, first_stream),
        stays_published(after, app, stream),
        subscribe_step(
            after.last(),
            if on_first {
                first_app
            } else {
                app
            },
            if on_first {
                first_stream
            } else {
                stream
            },
            info,
            s3,
            Ok(consumer),
        ),
    ensures
        ({
            let feeding = between.first().transmitters.last().transmitter@;
            let other = after.first().transmitters.last().transmitter@;
            &&& feeding.data_channel == data_channel(first_data)
            &&& other.data_channel == data_channel(data)
            &&& feeding.data_channel != other.data_channel
            &&& feeding.event_channel != other.event_channel
            &&& event_channel(s3.channels[first_app][first_stream]) == feeding.event_channel
            &&& event_channel(s3.channels[app][stream]) == other.event_channel
            &&& if on_first {
                &&& told_of_player(s3.channels[first_app][first_stream], info, consumer)
                &&& s3.channels[app][stream] == after.last().channels[app][stream]
            } else {
                &&& told_of_player(s3.channels[app][stream], info, consumer)
                &&& s3.channels[first_app][first_stream] == after.last().channels[first_app][first_stream]
            }
            &&& data_channel_of(consumer) != feeding.data_channel
            &&& data_channel_of(consumer) != other.data_channel
        }),
{
    law_transmitters_last(between, first_app, first_stream);
    law_transmitters_last(after, first_app, first_stream);
    law_transmitters_last(after, app, stream);
    assert(has_stream(between.first().channels, first_app, first_stream));
    assert(has_stream(between.last().channels, first_app, first_stream));
    assert(has_stream(after.first().channels, first_app, first_stream));
    assert(has_stream(after.last().channels, first_app, first_stream));
    assert(has_stream(after.last().channels, app, stream));
    assert((first_app, first_stream) != (app, stream));
    law_streams_are_independent(
        between.last(),
        after.first(),
        app,
        stream,
        info,
        Ok(data),
        Ok(consumer),
        Ok(()),
        Ok(after.first().channels[app][stream]),
    );
    assert(told_before(
        between.last().channels[first_app][first_stream],
        after.first().transmitters.last().transmitter@.data_channel,
    ));
    assert(told_before(
        between.last().channels[first_app][first_stream],
        after.first().transmitters.last().transmitter@.event_channel,
    ));
    assert(told_before(after.last().channels[app][stream], data_channel_of(consumer)));
    assert(told_before(after.last().channels[first_app][first_stream], data_channel_of(consumer)));
}

/// Every player has a channel of its own: one that subscribes while the stream of another one
/// stays published does not share that one's channel, be it on the same stream or not.
pub proof fn law_players_have_their_own_channels<N>(
    s0: ManagerView<N>,
    first_app: Seq<char>,
    first_stream: Seq<char>,
    first_info: SubscriberInfo,
    first_consumer: ChannelDataConsumer,
    between: Seq<ManagerView<N>>,
    app: Seq<char>,
    stream: Seq<char>,
    info: SubscriberInfo,
    consumer: ChannelDataConsumer,
    s2: ManagerView<N>,
)
    requires
        subscribe_step(s0, first_app, first_stream, first_info, between.first(), Ok(first_consumer)),
        stays_published(between, first_app, first_stream),
        subscribe_step(between.last(), app, stream, info, s2, Ok(consumer)),
    ensures
        data_channel_of(first_consumer) != data_channel_of(consumer),
{
    law_transmitters_last(between, first_app, first_stream);
    let start = between.first().channels[first_app][first_stream];
    let end = between.last().channels[first_app][first_stream];
    let k = event_offers(start).len() - 1;
    assert(has_stream(between.last().channels, first_app, first_stream));
    assert(event_offers(end)[k] == event_offers(start)[k]);
    assert(told_before(end, data_channel_of(consumer)));
}

/// A packet that is passed on while two players are on a stream is offered to both of them, to
/// each on the channel that it came with.
pub proof fn law_packets_go_to_every_player(
    pre: Map<u128, ChannelDataProducer>,
    post: Map<u128, ChannelDataProducer>,
    packet: ChannelDataView,
    one: u128,
    other: u128,
)
    requires
        offered_to_all(pre, post, packet),
        pre.contains_key(one),
        pre.contains_key(other),
        data_channel(pre[one]) != data_channel(pre[other]),
    ensures
        one != other,
        data_channel(post[one]) == data_channel(pre[one]),
        data_channel(post[other]) == data_channel(pre[other]),
        messages(data_offers(post[one])) == messages(data_offers(pre[one])).push(packet),
        messages(data_offers(post[other])) == messages(data_offers(pre[other])).push(packet),
{
    assert(offered(pre[one], post[one], packet));
    assert(offered(pre[other], post[other], packet));
    assert(messages(data_offers(post[one])) =~= messages(data_offers(pre[one])).push(packet));
    assert(messages(data_offers(post[other])) =~= messages(data_offers(pre[other])).push(packet));
}

} // verus!

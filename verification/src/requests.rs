//! What the calls of the manager come to, one by one and one after the other.
//!
//! Each law takes a call that was made, with its arguments and its result, and says what the
//! call did in terms of the streams, the handles on their transmitters, and the answers.

use crate::define::{
    AvStatisticSender, ChannelDataConsumer, ChannelDataProducer, ChannelEvent, ChannelEventProducer,
    ClientEventConsumer, ClientEventProducer, ClientEventView, EventOutcome, Leftover,
    NotificationKind, PubSubInfoView, PublishResponder, PublisherInfo, StatisticOutcome,
    StreamStatisticSizeSender, SubscribeResponder, SubscriberInfo, TransmitterEvent,
    TransmitterEventProducer, TransmitterEventView,
};
use crate::errors::{ChannelError, ChannelErrorValue};
use crate::links::{
    client_capacity, client_channel, client_channel_of, client_consumers, client_offers,
    client_start, data_channel, data_channel_of, data_offers, event_channel, event_channel_of,
    event_offers, publish_offer, request_channel, request_channel_of, size_offer,
    statistic_channel, statistic_clones, statistic_offers, subscribe_offer, Offer,
};
use crate::manager::{statistic_step, ChannelsManager, ManagerView};
use crate::streams::{
    asked, event_offered, event_refused, has_stream, kept_or_took, statistic_request, stream_names,
    told_before, StreamTable, Streams,
};
use crate::transmitter::Waiting;
use vstd::prelude::*;

verus! {

/// Whether a stream is among the published ones.
pub open spec fn published(streams: Streams, app: Seq<char>, stream: Seq<char>) -> bool {
    streams.dom().contains(app) && streams[app].dom().contains(stream)
}

/// Every other stream is published if it was, with the handle that it had.
pub open spec fn others_untouched(pre: Streams, post: Streams, app: Seq<char>, stream: Seq<char>) -> bool {
    forall|a: Seq<char>, s: Seq<char>|
        #![trigger published(pre, a, s)]
        #![trigger published(post, a, s)]
        a != app || s != stream ==> published(post, a, s) == published(pre, a, s) && (published(pre, a, s)
            ==> post[a][s] == pre[a][s])
}

/// A transmitter was told one thing more, on the channel that it listens on.
pub open spec fn told_one_more(
    pre: TransmitterEventProducer,
    post: TransmitterEventProducer,
    event: TransmitterEventView,
    taken: bool,
) -> bool {
    &&& event_channel(post) == event_channel(pre)
    &&& event_offers(post).len() == event_offers(pre).len() + 1
    &&& event_offers(pre).is_prefix_of(event_offers(post))
    &&& event_offers(post).last() == (Offer { message: event, taken })
}

/// The clients were told one thing more, on the channel that they listen on.
pub open spec fn clients_told_one_more(
    pre: ClientEventProducer,
    post: ClientEventProducer,
    event: ClientEventView,
    taken: bool,
) -> bool {
    &&& client_channel(post) == client_channel(pre)
    &&& client_consumers(post) == client_consumers(pre)
    &&& client_offers(post).len() == client_offers(pre).len() + 1
    &&& client_offers(pre).is_prefix_of(client_offers(post))
    &&& client_offers(post).last() == (Offer { message: event, taken })
}

/// The manager is set up as it was.
pub open spec fn set_up_as_before<N>(pre: ManagerView<N>, post: ManagerView<N>) -> bool {
    &&& post.request_consumer == pre.request_consumer
    &&& post.request_producer == pre.request_producer
    &&& post.rtmp_gop_num == pre.rtmp_gop_num
    &&& post.rtmp_push_enabled == pre.rtmp_push_enabled
    &&& post.rtmp_pull_enabled == pre.rtmp_pull_enabled
    &&& post.hls_enabled == pre.hls_enabled
    &&& post.notifier == pre.notifier
}

/// The table of the streams finds what was put in under both names, forgets what was taken out
/// and gives its handle out as it was; every other stream stays as it is.
pub proof fn law_table_of_streams(
    table: &mut StreamTable,
    app_name: &String,
    stream_name: &String,
    producer: TransmitterEventProducer,
    found: bool,
    removed: Option<TransmitterEventProducer>,
)
    ensures
        call_ensures(StreamTable::contains, (&*old(table), app_name, stream_name), found) ==> found == published(
            old(table)@,
            app_name@,
            stream_name@,
        ),
        call_ensures(StreamTable::insert, (table, app_name, stream_name, producer), ()) ==> {
            &&& published(final(table)@, app_name@, stream_name@)
            &&& final(table)@[app_name@][stream_name@] == producer
            &&& others_untouched(old(table)@, final(table)@, app_name@, stream_name@)
        },
        published(old(table)@, app_name@, stream_name@) && call_ensures(
            StreamTable::remove,
            (table, app_name, stream_name),
            removed,
        ) ==> {
            &&& removed matches Some(handle) && handle == old(table)@[app_name@][stream_name@]
            &&& !published(final(table)@, app_name@, stream_name@)
            &&& others_untouched(old(table)@, final(table)@, app_name@, stream_name@)
        },
{
}

/// An event that is offered to a stream goes to the transmitter of that stream, once, and to no
/// other; for a stream that is not published it goes to nobody.
pub proof fn law_events_go_to_their_stream(
    table: &mut StreamTable,
    app_name: &String,
    stream_name: &String,
    event: TransmitterEvent,
    r: Result<bool, ChannelError>,
)
    requires
        call_ensures(StreamTable::offer, (table, app_name, stream_name, event), r),
    ensures
        r is Ok <==> published(old(table)@, app_name@, stream_name@),
        r matches Ok(taken) ==> {
            &&& told_one_more(
                old(table)@[app_name@][stream_name@],
                final(table)@[app_name@][stream_name@],
                event@,
                taken,
            )
            &&& published(final(table)@, app_name@, stream_name@)
            &&& others_untouched(old(table)@, final(table)@, app_name@, stream_name@)
        },
        r matches Err(error) ==> not_found(old(table)@, app_name@, error) && final(table)@ == old(table)@,
{
}

/// A new manager knows no stream and no client, has nothing to start, and has everything
/// switched off but the cache of one group of pictures.
pub proof fn law_new_manager<N>(notifier: Option<N>, r: ChannelsManager<N>)
    requires
        call_ensures(ChannelsManager::<N>::new, (notifier,), r),
    ensures
        forall|app: Seq<char>, stream: Seq<char>| !published(r@.channels, app, stream),
        r@.channels.dom() == Set::<Seq<char>>::empty(),
        r@.channels_info.dom() == Set::<u128>::empty(),
        r@.transmitters.len() == 0,
        r@.rtmp_gop_num == 1,
        !r@.rtmp_push_enabled && !r@.rtmp_pull_enabled && !r@.hls_enabled,
        r@.notifier == notifier,
        request_channel(r@.request_producer) == request_channel_of(r@.request_consumer),
        client_capacity(r@.client_producer) == 100,
        client_offers(r@.client_producer).len() == 0,
        client_consumers(r@.client_producer) == 0,
{
}

/// Each setting is set to what it is given, whatever that is, and nothing else changes.
pub proof fn law_settings_are_set<N>(manager: &mut ChannelsManager<N>, enabled: bool, gop_num: usize)
    ensures
        call_ensures(ChannelsManager::<N>::set_rtmp_push_enabled, (manager, enabled), ()) ==> final(manager)@ == (
        ManagerView { rtmp_push_enabled: enabled, ..old(manager)@ }),
        call_ensures(ChannelsManager::<N>::set_rtmp_pull_enabled, (manager, enabled), ()) ==> final(manager)@ == (
        ManagerView { rtmp_pull_enabled: enabled, ..old(manager)@ }),
        call_ensures(ChannelsManager::<N>::set_hls_enabled, (manager, enabled), ()) ==> final(manager)@ == (
        ManagerView { hls_enabled: enabled, ..old(manager)@ }),
        call_ensures(ChannelsManager::<N>::set_rtmp_gop_num, (manager, gop_num), ()) ==> final(manager)@ == (
        ManagerView { rtmp_gop_num: gop_num, ..old(manager)@ }),
{
}

/// The handles that are given out belong to the channels of the manager: requests arrive where
/// the manager listens, and a client hears of all that it is told from then on.
pub proof fn law_handles_belong_to_the_manager<N>(
    manager: &mut ChannelsManager<N>,
    producer: ChannelEventProducer,
    consumer: ClientEventConsumer,
    notifier: &Option<N>,
)
    ensures
        call_ensures(ChannelsManager::<N>::notifier, (&*old(manager),), notifier) ==> *notifier == old(
            manager,
        )@.notifier,
        call_ensures(ChannelsManager::<N>::get_channel_event_producer, (manager,), producer) ==> request_channel(producer)
            == request_channel(old(manager)@.request_producer) && final(manager)@ == old(manager)@,
        call_ensures(ChannelsManager::<N>::get_client_event_consumer, (manager,), consumer) ==> {
            &&& client_channel_of(consumer) == client_channel(final(manager)@.client_producer)
            &&& client_channel(final(manager)@.client_producer) == client_channel(old(manager)@.client_producer)
            &&& client_start(consumer) == client_offers(final(manager)@.client_producer).len()
            &&& client_offers(final(manager)@.client_producer) == client_offers(old(manager)@.client_producer)
            &&& client_consumers(final(manager)@.client_producer) == client_consumers(old(manager)@.client_producer)
                + 1
            &&& final(manager)@.channels == old(manager)@.channels
            &&& final(manager)@.channels_info == old(manager)@.channels_info
            &&& final(manager)@.transmitters == old(manager)@.transmitters
            &&& set_up_as_before(old(manager)@, final(manager)@)
        },
{
}

/// All transmitters that wait are handed out, oldest first, and none is handed out twice.
pub proof fn law_waiting_transmitters_are_handed_out_once<N>(
    first: &mut ChannelsManager<N>,
    taken: Vec<Waiting>,
    second: &mut ChannelsManager<N>,
    taken_again: Vec<Waiting>,
)
    requires
        call_ensures(ChannelsManager::<N>::take_transmitters, (first,), taken),
        *old(second) == *final(first),
        call_ensures(ChannelsManager::<N>::take_transmitters, (second,), taken_again),
    ensures
        taken@ == old(first)@.transmitters,
        taken_again@.len() == 0,
        final(first)@.channels == old(first)@.channels,
        final(first)@.channels_info == old(first)@.channels_info,
        final(first)@.client_producer == old(first)@.client_producer,
        set_up_as_before(old(first)@, final(first)@),
{
}

/// A stream has been brought in: it is published, nothing has been told to its transmitter, and
/// that transmitter waits behind the others, listening on the channel of the handle, for the
/// stream of this name, with nobody to send to.
pub open spec fn brought_in<N>(pre: ManagerView<N>, post: ManagerView<N>, app: Seq<char>, stream: Seq<char>) -> bool {
    let waiting = post.transmitters.last();
    &&& published(post.channels, app, stream)
    &&& others_untouched(pre.channels, post.channels, app, stream)
    &&& post.channels.dom() == pre.channels.dom().insert(app)
    &&& event_offers(post.channels[app][stream]).len() == 0
    &&& post.transmitters.len() == pre.transmitters.len() + 1
    &&& pre.transmitters.is_prefix_of(post.transmitters)
    &&& event_channel_of(waiting.transmitter.event_consumer) == event_channel(post.channels[app][stream])
    &&& waiting.transmitter.cache.app_name@ == app
    &&& waiting.transmitter.cache.stream_name@ == stream
    &&& waiting.transmitter.cache.gop_num == pre.rtmp_gop_num
    &&& waiting.transmitter.subscriberid_to_producer@.dom() == Set::<u128>::empty()
}

/// What a publisher is given goes to the newest transmitter, and nothing has gone through it.
pub open spec fn feeds_newest<N>(post: ManagerView<N>, data: ChannelDataProducer) -> bool {
    let waiting = post.transmitters.last();
    &&& data_channel(data) == data_channel_of(waiting.transmitter.data_consumer)
    &&& data_offers(data).len() == 0
    &&& waiting.unused is None
}

/// The clients were told of a new stream exactly if streams are pushed or cut for HLS, and
/// `heard` is whether one of them took that.
pub open spec fn clients_told_of_stream<N>(
    pre: ManagerView<N>,
    post: ManagerView<N>,
    app: Seq<char>,
    stream: Seq<char>,
    heard: bool,
) -> bool {
    if pre.rtmp_push_enabled || pre.hls_enabled {
        clients_told_one_more(
            pre.client_producer,
            post.client_producer,
            ClientEventView::Publish { app_name: app, stream_name: stream },
            heard,
        )
    } else {
        heard && post.client_producer == pre.client_producer
    }
}

/// Publishing a stream that is published already is refused and changes nothing. Otherwise the
/// stream is there after it, with a transmitter of its own; the clients are told where there are
/// such, and the publisher is refused, with a send error, exactly if none of them heard of it. A
/// publisher that is not refused feeds the transmitter of its stream.
pub proof fn law_publish<N>(
    manager: &mut ChannelsManager<N>,
    app_name: &String,
    stream_name: &String,
    r: Result<ChannelDataProducer, ChannelError>,
)
    requires
        call_ensures(ChannelsManager::<N>::publish, (manager, app_name, stream_name), r),
    ensures
        published(old(manager)@.channels, app_name@, stream_name@) ==> final(manager)@ == old(manager)@ && (
        r matches Err(error) && error.value == ChannelErrorValue::Exists),
        !published(old(manager)@.channels, app_name@, stream_name@) ==> {
            &&& brought_in(old(manager)@, final(manager)@, app_name@, stream_name@)
            &&& clients_told_of_stream(old(manager)@, final(manager)@, app_name@, stream_name@, r is Ok)
            &&& r matches Ok(data) ==> feeds_newest(final(manager)@, data)
            &&& r matches Err(error) ==> error.value == ChannelErrorValue::SendError
            &&& r is Err ==> (final(manager)@.transmitters.last().unused matches Some(data) && data_offers(data).len()
                == 0)
        },
        final(manager)@.channels_info == old(manager)@.channels_info,
        set_up_as_before(old(manager)@, final(manager)@),
{
    let pre = old(manager)@;
    let post = final(manager)@;
    if !published(pre.channels, app_name@, stream_name@) {
        assert(post.channels.dom() =~= pre.channels.dom().insert(app_name@));
    }
}

/// The transmitter of a stream was told of a player and of nothing else: who the player is, and a
/// handle on the player's channel that nothing has gone through. No other transmitter was told
/// anything.
pub open spec fn told_of_new_player(
    pre: Streams,
    post: Streams,
    app: Seq<char>,
    stream: Seq<char>,
    info: SubscriberInfo,
    taken: bool,
) -> bool {
    let offer = event_offers(post[app][stream]).last();
    &&& published(post, app, stream)
    &&& others_untouched(pre, post, app, stream)
    &&& post.dom() == pre.dom()
    &&& offer.message matches TransmitterEventView::Subscribe { producer, info: whom } && {
        &&& whom.id == info.id
        &&& whom.sub_type == info.sub_type
        &&& data_offers(producer).len() == 0
    }
    &&& told_one_more(pre[app][stream], post[app][stream], offer.message, taken)
}

/// The channel that a transmitter was last told to send on.
pub open spec fn last_channel_told(producer: TransmitterEventProducer) -> int {
    match event_offers(producer).last().message {
        TransmitterEventView::Subscribe { producer: data, .. } => data_channel(data),
        _ => 0,
    }
}

/// Subscribing to a published stream tells its transmitter of the player, once, and no other
/// transmitter anything; it goes through exactly if the transmitter took that, and the player
/// then receives from the channel that the transmitter was told to send on. For a stream that is
/// not published the player is refused; the clients are told to pull it where there are such,
/// and a send error says that none of them heard of it.
pub proof fn law_subscribe<N>(
    manager: &mut ChannelsManager<N>,
    app_name: &String,
    stream_name: &String,
    info: SubscriberInfo,
    r: Result<ChannelDataConsumer, ChannelError>,
)
    requires
        call_ensures(ChannelsManager::<N>::subscribe, (manager, app_name, stream_name, info), r),
    ensures
        published(old(manager)@.channels, app_name@, stream_name@) ==> {
            &&& told_of_new_player(
                old(manager)@.channels,
                final(manager)@.channels,
                app_name@,
                stream_name@,
                info,
                r is Ok,
            )
            &&& r matches Ok(consumer) ==> data_channel_of(consumer) == last_channel_told(
                final(manager)@.channels[app_name@][stream_name@],
            )
            &&& r matches Err(error) ==> error.value == ChannelErrorValue::SendError
            &&& final(manager)@.client_producer == old(manager)@.client_producer
        },
        !published(old(manager)@.channels, app_name@, stream_name@) ==> refused_for_want_of_a_stream(
            old(manager)@,
            final(manager)@,
            app_name@,
            stream_name@,
            r,
        ),
        final(manager)@.channels_info == old(manager)@.channels_info,
        final(manager)@.transmitters == old(manager)@.transmitters,
        set_up_as_before(old(manager)@, final(manager)@),
{
    let pre = old(manager)@;
    let post = final(manager)@;
    if published(pre.channels, app_name@, stream_name@) {
        assert(post.channels.dom() =~= pre.channels.dom());
    }
}

/// A player is refused because there is no such stream, and the clients are told to pull it
/// where there are such.
pub open spec fn refused_for_want_of_a_stream<T, N>(
    pre: ManagerView<N>,
    post: ManagerView<N>,
    app: Seq<char>,
    stream: Seq<char>,
    r: Result<T, ChannelError>,
) -> bool {
    &&& post.channels == pre.channels
    &&& r matches Err(error) && {
        &&& error.value == ChannelErrorValue::NoAppOrStreamName || error.value == ChannelErrorValue::SendError
        &&& pre.rtmp_pull_enabled ==> clients_told_one_more(
            pre.client_producer,
            post.client_producer,
            ClientEventView::Subscribe { app_name: app, stream_name: stream },
            error.value == ChannelErrorValue::NoAppOrStreamName,
        )
        &&& !pre.rtmp_pull_enabled ==> post.client_producer == pre.client_producer && error.value
            == ChannelErrorValue::NoAppOrStreamName
    }
}

/// The reason for which a stream is not found: the application is not known, or has no such
/// stream.
pub open spec fn not_found(streams: Streams, app: Seq<char>, error: ChannelError) -> bool {
    if streams.dom().contains(app) {
        error.value == ChannelErrorValue::NoStreamName
    } else {
        error.value == ChannelErrorValue::NoAppName
    }
}

/// Leaving a published stream tells its transmitter, once, that this player has gone, and no
/// other transmitter anything; it goes through exactly if the transmitter took that. Leaving a
/// stream that is not published is refused and changes nothing.
pub open spec fn player_taken_off<N>(
    pre: ManagerView<N>,
    post: ManagerView<N>,
    app: Seq<char>,
    stream: Seq<char>,
    info: SubscriberInfo,
    r: Result<(), ChannelError>,
) -> bool {
    &&& published(pre.channels, app, stream) ==> {
        &&& published(post.channels, app, stream)
        &&& told_one_more(
            pre.channels[app][stream],
            post.channels[app][stream],
            TransmitterEventView::UnSubscribe { info },
            r is Ok,
        )
        &&& others_untouched(pre.channels, post.channels, app, stream)
        &&& post.channels.dom() == pre.channels.dom()
        &&& r matches Err(error) ==> error.value == ChannelErrorValue::SendError
    }
    &&& !published(pre.channels, app, stream) ==> post.channels == pre.channels && (r matches Err(error)
        && not_found(pre.channels, app, error))
    &&& post.channels_info == pre.channels_info
    &&& post.client_producer == pre.client_producer
    &&& post.transmitters == pre.transmitters
    &&& set_up_as_before(pre, post)
}

/// A player that leaves is taken off its stream.
pub proof fn law_unsubscribe<N>(
    manager: &mut ChannelsManager<N>,
    app_name: &String,
    stream_name: &String,
    info: SubscriberInfo,
    r: Result<(), ChannelError>,
)
    requires
        call_ensures(ChannelsManager::<N>::unsubscribe, (manager, app_name, stream_name, info), r),
    ensures
        player_taken_off(old(manager)@, final(manager)@, app_name@, stream_name@, info, r),
{
    let pre = old(manager)@;
    let post = final(manager)@;
    if published(pre.channels, app_name@, stream_name@) {
        assert(post.channels.dom() =~= pre.channels.dom());
    }
}

/// Taking a published stream away tells its transmitter so, once, and no other transmitter
/// anything. If the transmitter took that the stream is no longer published, its application
/// stays known, and the handle comes back; if not the stream stays, and it is a send error.
/// Taking away a stream that is not published is refused and changes nothing.
pub open spec fn stream_taken_away<N>(
    pre: ManagerView<N>,
    post: ManagerView<N>,
    app: Seq<char>,
    stream: Seq<char>,
    r: Result<TransmitterEventProducer, ChannelError>,
) -> bool {
    &&& published(pre.channels, app, stream) ==> {
        &&& published(post.channels, app, stream) <==> r is Err
        &&& told_one_more(
            pre.channels[app][stream],
            match r {
                Ok(handle) => handle,
                Err(_) => post.channels[app][stream],
            },
            TransmitterEventView::UnPublish,
            r is Ok,
        )
        &&& others_untouched(pre.channels, post.channels, app, stream)
        &&& post.channels.dom() == pre.channels.dom()
        &&& r matches Err(error) ==> error.value == ChannelErrorValue::SendError
    }
    &&& !published(pre.channels, app, stream) ==> post.channels == pre.channels && (r matches Err(error)
        && not_found(pre.channels, app, error))
    &&& post.channels_info == pre.channels_info
    &&& post.client_producer == pre.client_producer
    &&& post.transmitters == pre.transmitters
    &&& set_up_as_before(pre, post)
}

/// A stream that is taken away stops its transmitter and is forgotten.
pub proof fn law_unpublish<N>(
    manager: &mut ChannelsManager<N>,
    app_name: &String,
    stream_name: &String,
    r: Result<TransmitterEventProducer, ChannelError>,
)
    requires
        call_ensures(ChannelsManager::<N>::unpublish, (manager, app_name, stream_name), r),
    ensures
        stream_taken_away(old(manager)@, final(manager)@, app_name@, stream_name@, r),
{
    let pre = old(manager)@;
    let post = final(manager)@;
    if published(pre.channels, app_name@, stream_name@) {
        assert(post.channels.dom() =~= pre.channels.dom());
    }
}

/// A stream is closed exactly if its transmitter was told: then it is no longer published, and
/// its handle comes back as it was. Nothing else changes.
pub proof fn law_close_stream<N>(
    manager: &mut ChannelsManager<N>,
    app_name: &String,
    stream_name: &String,
    taken: bool,
    r: Result<TransmitterEventProducer, ChannelError>,
)
    requires
        published(old(manager)@.channels, app_name@, stream_name@),
        call_ensures(ChannelsManager::<N>::close_stream, (manager, app_name, stream_name, taken), r),
    ensures
        r is Ok <==> taken,
        published(final(manager)@.channels, app_name@, stream_name@) <==> !taken,
        r matches Ok(handle) ==> handle == old(manager)@.channels[app_name@][stream_name@],
        r matches Err(error) ==> error.value == ChannelErrorValue::SendError && final(manager)@ == old(manager)@,
        others_untouched(old(manager)@.channels, final(manager)@.channels, app_name@, stream_name@),
        final(manager)@.channels_info == old(manager)@.channels_info,
        final(manager)@.client_producer == old(manager)@.client_producer,
        final(manager)@.transmitters == old(manager)@.transmitters,
        set_up_as_before(old(manager)@, final(manager)@),
{
}

/// The names of the published streams.
pub open spec fn published_names(streams: Streams) -> Set<(Seq<char>, Seq<char>)> {
    Set::new(|name: (Seq<char>, Seq<char>)| published(streams, name.0, name.1))
}

/// The question for the statistics, with a handle on the channel of whoever asks that nothing
/// has gone through.
pub open spec fn question(data_sender: AvStatisticSender) -> TransmitterEventView {
    TransmitterEventView::Api { channel: statistic_channel(data_sender), offers: Seq::empty(), clones: 0 }
}

/// What asking for the statistics comes to.
///
/// If every transmitter took the question, whoever collects the statistics is told the number of
/// published streams, and it goes through exactly if that was taken. If one did not, the number
/// is told to nobody, no further transmitter is asked, and it is a send error. Every transmitter
/// is asked once at most, and nothing goes through the handle of whoever asks: as many handles
/// are made from it as transmitters were asked.
pub open spec fn statistics_asked_for<N>(
    pre: ManagerView<N>,
    post: ManagerView<N>,
    data_sender: AvStatisticSender,
    size_sender: StreamStatisticSizeSender,
    result: Result<(), ChannelError>,
    data_left: AvStatisticSender,
    size_left: Option<StreamStatisticSizeSender>,
) -> bool {
    &&& forall|a: Seq<char>, s: Seq<char>| #[trigger]
        published(post.channels, a, s) == published(pre.channels, a, s)
    &&& size_left is None ==> {
        &&& forall|a: Seq<char>, s: Seq<char>| #[trigger]
            published(pre.channels, a, s) ==> told_one_more(
                pre.channels[a][s],
                post.channels[a][s],
                question(data_sender),
                true,
            )
        &&& size_offer(size_sender).message == published_names(pre.channels).len()
        &&& size_offer(size_sender).taken <==> result is Ok
        &&& statistic_clones(data_left) == statistic_clones(data_sender) + published_names(pre.channels).len()
    }
    &&& size_left matches Some(kept) ==> {
        &&& kept == size_sender
        &&& result is Err
        &&& exists|a: Seq<char>, s: Seq<char>| #[trigger]
            published(pre.channels, a, s) && told_one_more(
                pre.channels[a][s],
                post.channels[a][s],
                question(data_sender),
                false,
            ) && forall|b: Seq<char>, t: Seq<char>| #[trigger]
                published(pre.channels, b, t) && (b != a || t != s) ==> post.channels[b][t] == pre.channels[b][t]
                    || told_one_more(pre.channels[b][t], post.channels[b][t], question(data_sender), true)
    }
    &&& result matches Err(error) ==> error.value == ChannelErrorValue::SendError
    &&& statistic_channel(data_left) == statistic_channel(data_sender)
    &&& statistic_offers(data_left) == statistic_offers(data_sender)
    &&& post.channels_info == pre.channels_info
    &&& post.client_producer == pre.client_producer
    &&& post.transmitters == pre.transmitters
    &&& set_up_as_before(pre, post)
}

/// What a step of the statistics comes to.
proof fn lemma_statistics<N>(
    pre: ManagerView<N>,
    post: ManagerView<N>,
    data_sender: AvStatisticSender,
    size_sender: StreamStatisticSizeSender,
    outcome: StatisticOutcome,
)
    requires
        statistic_step(pre, data_sender, size_sender, post, outcome),
    ensures
        statistics_asked_for(
            pre,
            post,
            data_sender,
            size_sender,
            outcome.result,
            outcome.data_sender,
            outcome.size_sender,
        ),
{
    let event = question(data_sender);
    let used = asked(pre.channels, post.channels);
    assert(event == statistic_request(data_sender));
    assert forall|a: Seq<char>, s: Seq<char>| #[trigger] published(post.channels, a, s) == published(
        pre.channels,
        a,
        s,
    ) by {
        if pre.channels.contains_key(a) {
            assert(post.channels[a].dom() == pre.channels[a].dom());
        }
    }
    if outcome.size_sender is None {
        assert forall|a: Seq<char>, s: Seq<char>| #[trigger] published(pre.channels, a, s) implies told_one_more(
            pre.channels[a][s],
            post.channels[a][s],
            event,
            true,
        ) by {
            assert(has_stream(pre.channels, a, s));
        }
        assert forall|name: (Seq<char>, Seq<char>)|
            used.contains(name) <==> published_names(pre.channels).contains(name) by {
            if published(pre.channels, name.0, name.1) {
                assert(told_one_more(pre.channels[name.0][name.1], post.channels[name.0][name.1], event, true));
            }
        }
        assert(used =~= published_names(pre.channels));
        assert(stream_names(pre.channels) =~= published_names(pre.channels));
    } else {
        let (a, s) = choose|a: Seq<char>, s: Seq<char>| #[trigger]
            has_stream(pre.channels, a, s) && event_offered(
                pre.channels[a][s],
                post.channels[a][s],
                event,
                false,
            ) && (forall|b: Seq<char>, t: Seq<char>| #[trigger]
                has_stream(pre.channels, b, t) && (b, t) != (a, s) ==> kept_or_took(
                    pre.channels[b][t],
                    post.channels[b][t],
                    event,
                ));
        assert(published(pre.channels, a, s));
        assert forall|b: Seq<char>, t: Seq<char>| #[trigger] published(pre.channels, b, t) && (b != a || t
            != s) implies post.channels[b][t] == pre.channels[b][t] || told_one_more(
            pre.channels[b][t],
            post.channels[b][t],
            event,
            true,
        ) by {
            assert(has_stream(pre.channels, b, t));
        }
    }
}

/// Asking for the statistics asks every stream, and tells how many streams those are.
pub proof fn law_api_statistic<N>(
    manager: &mut ChannelsManager<N>,
    data_sender: AvStatisticSender,
    size_sender: StreamStatisticSizeSender,
    r: StatisticOutcome,
)
    requires
        call_ensures(ChannelsManager::<N>::api_statistic, (manager, data_sender, size_sender), r),
    ensures
        statistics_asked_for(
            old(manager)@,
            final(manager)@,
            data_sender,
            size_sender,
            r.result,
            r.data_sender,
            r.size_sender,
        ),
{
    lemma_statistics(old(manager)@, final(manager)@, data_sender, size_sender, r);
}

/// What throwing a client out comes to. The stream of a publisher is taken away, and a player is
/// taken off its stream, as they were remembered under this number; nothing is done about a
/// client that is not remembered.
pub open spec fn thrown_out<N>(
    pre: ManagerView<N>,
    post: ManagerView<N>,
    uid: u128,
    r: Result<Option<TransmitterEventProducer>, ChannelError>,
) -> bool {
    &&& !pre.channels_info.dom().contains(uid) ==> post == pre && (r matches Ok(handle) && handle is None)
    &&& pre.channels_info.dom().contains(uid) ==> match pre.channels_info[uid] {
        PubSubInfoView::Publish { app_name, stream_name } => {
            &&& r matches Ok(handle) ==> handle is Some
            &&& stream_taken_away(
                pre,
                post,
                app_name,
                stream_name,
                match r {
                    Ok(handle) => Ok(handle->0),
                    Err(error) => Err(error),
                },
            )
        },
        PubSubInfoView::Subscribe { app_name, stream_name, sub_info } => {
            &&& r matches Ok(handle) ==> handle is None
            &&& player_taken_off(
                pre,
                post,
                app_name,
                stream_name,
                sub_info,
                match r {
                    Ok(_) => Ok(()),
                    Err(error) => Err(error),
                },
            )
        },
    }
}

/// Throwing a client out takes back what it was let in for.
pub proof fn law_api_kick_off_client<N>(
    manager: &mut ChannelsManager<N>,
    uid: u128,
    r: Result<Option<TransmitterEventProducer>, ChannelError>,
)
    requires
        call_ensures(ChannelsManager::<N>::api_kick_off_client, (manager, uid), r),
    ensures
        thrown_out(old(manager)@, final(manager)@, uid, r),
{
    lemma_same_applications(old(manager)@.channels, final(manager)@.channels);
}

/// Two tables know the same applications if each application of the one is one of the other.
proof fn lemma_same_applications(pre: Streams, post: Streams)
    ensures
        (forall|app: Seq<char>| #[trigger] post.dom().contains(app) == pre.dom().contains(app)) ==> post.dom()
            == pre.dom(),
{
    if forall|app: Seq<char>| #[trigger] post.dom().contains(app) == pre.dom().contains(app) {
        assert(post.dom() =~= pre.dom());
    }
}

/// A request to publish a stream that is published already is refused, changes nothing, is not
/// answered, and nobody is notified of it.
pub proof fn law_publish_request_for_a_published_stream<N>(
    manager: &mut ChannelsManager<N>,
    app_name: String,
    stream_name: String,
    info: PublisherInfo,
    responder: PublishResponder,
    serialized: Option<String>,
    r: EventOutcome,
)
    requires
        published(old(manager)@.channels, app_name@, stream_name@),
        call_ensures(
            ChannelsManager::<N>::handle_event,
            (manager, ChannelEvent::Publish { app_name, stream_name, info, responder }, serialized),
            r,
        ),
    ensures
        final(manager)@ == old(manager)@,
        r.result matches Err(error) && error.value == ChannelErrorValue::Exists,
        r.left_over == Some(Leftover::PublishRequest { responder }),
        r.notification is None,
{
}

/// A request to publish a stream that is not published yet brings it in, and goes through
/// exactly if the clients heard of it where there are such. Then the publisher is answered with
/// what feeds the transmitter of this stream, and is remembered under its number, with its
/// stream. Otherwise it is not answered, and not remembered.
pub proof fn law_publish_request<N>(
    manager: &mut ChannelsManager<N>,
    app_name: String,
    stream_name: String,
    info: PublisherInfo,
    responder: PublishResponder,
    serialized: Option<String>,
    r: EventOutcome,
)
    requires
        !published(old(manager)@.channels, app_name@, stream_name@),
        call_ensures(
            ChannelsManager::<N>::handle_event,
            (manager, ChannelEvent::Publish { app_name, stream_name, info, responder }, serialized),
            r,
        ),
    ensures
        brought_in(old(manager)@, final(manager)@, app_name@, stream_name@),
        clients_told_of_stream(old(manager)@, final(manager)@, app_name@, stream_name@, r.result is Ok),
        r.result is Ok ==> {
            &&& feeds_newest(final(manager)@, publish_offer(responder).message)
            &&& final(manager)@.channels_info == old(manager)@.channels_info.insert(
                info.id,
                PubSubInfoView::Publish { app_name: app_name@, stream_name: stream_name@ },
            )
            &&& publish_offer(responder).taken <==> r.left_over is None
            &&& r.left_over matches Some(left_over) ==> left_over == (Leftover::Publisher {
                producer: publish_offer(responder).message,
            })
        },
        r.result matches Err(error) ==> {
            &&& error.value == ChannelErrorValue::SendError
            &&& r.left_over == Some(Leftover::PublishRequest { responder })
            &&& final(manager)@.channels_info == old(manager)@.channels_info
        },
        set_up_as_before(old(manager)@, final(manager)@),
{
    let pre = old(manager)@;
    let post = final(manager)@;
    assert(post.channels.dom() =~= pre.channels.dom().insert(app_name@));
}

/// A request to subscribe to a published stream tells the stream's transmitter, once, of the
/// player that asks, and goes through exactly if that was taken. Then the player is answered
/// with the channel that the transmitter was told to send on, and is remembered under its
/// number, with its stream. Otherwise it is not answered, and not remembered.
pub proof fn law_subscribe_request<N>(
    manager: &mut ChannelsManager<N>,
    app_name: String,
    stream_name: String,
    info: SubscriberInfo,
    responder: SubscribeResponder,
    serialized: Option<String>,
    r: EventOutcome,
)
    requires
        published(old(manager)@.channels, app_name@, stream_name@),
        call_ensures(
            ChannelsManager::<N>::handle_event,
            (manager, ChannelEvent::Subscribe { app_name, stream_name, info, responder }, serialized),
            r,
        ),
    ensures
        told_of_new_player(
            old(manager)@.channels,
            final(manager)@.channels,
            app_name@,
            stream_name@,
            info,
            r.result is Ok,
        ),
        r.result is Ok ==> {
            &&& data_channel_of(subscribe_offer(responder).message) == last_channel_told(
                final(manager)@.channels[app_name@][stream_name@],
            )
            &&& final(manager)@.channels_info == old(manager)@.channels_info.insert(
                info.id,
                PubSubInfoView::Subscribe { app_name: app_name@, stream_name: stream_name@, sub_info: info },
            )
            &&& r.left_over is None
        },
        r.result matches Err(error) ==> {
            &&& error.value == ChannelErrorValue::SendError
            &&& r.left_over == Some(Leftover::SubscribeRequest { responder })
            &&& final(manager)@.channels_info == old(manager)@.channels_info
        },
        final(manager)@.client_producer == old(manager)@.client_producer,
        final(manager)@.transmitters == old(manager)@.transmitters,
        set_up_as_before(old(manager)@, final(manager)@),
{
    assert(final(manager)@.channels.dom() =~= old(manager)@.channels.dom());
}

/// A request to subscribe to a stream that is not published is refused and not answered, and the
/// player is not remembered; the clients are told to pull the stream where there are such.
pub proof fn law_subscribe_request_for_a_missing_stream<N>(
    manager: &mut ChannelsManager<N>,
    app_name: String,
    stream_name: String,
    info: SubscriberInfo,
    responder: SubscribeResponder,
    serialized: Option<String>,
    r: EventOutcome,
)
    requires
        !published(old(manager)@.channels, app_name@, stream_name@),
        call_ensures(
            ChannelsManager::<N>::handle_event,
            (manager, ChannelEvent::Subscribe { app_name, stream_name, info, responder }, serialized),
            r,
        ),
    ensures
        refused_for_want_of_a_stream(old(manager)@, final(manager)@, app_name@, stream_name@, r.result),
        r.left_over == Some(Leftover::SubscribeRequest { responder }),
        r.notification is None,
        final(manager)@.channels_info == old(manager)@.channels_info,
        final(manager)@.transmitters == old(manager)@.transmitters,
        set_up_as_before(old(manager)@, final(manager)@),
{
}

/// A request to take a stream away takes it away, whoever asks and whoever is remembered: if it
/// goes through the stream is not published any more, and its transmitter was told so once.
pub proof fn law_unpublish_request<N>(
    manager: &mut ChannelsManager<N>,
    app_name: String,
    stream_name: String,
    info: PublisherInfo,
    serialized: Option<String>,
    r: EventOutcome,
)
    requires
        call_ensures(
            ChannelsManager::<N>::handle_event,
            (manager, ChannelEvent::UnPublish { app_name, stream_name, info }, serialized),
            r,
        ),
    ensures
        r.result is Ok ==> r.left_over is Some && r.left_over->0 is Stream && stream_taken_away(
            old(manager)@,
            final(manager)@,
            app_name@,
            stream_name@,
            Ok(r.left_over->0->Stream_producer),
        ),
        r.result matches Err(error) ==> r.left_over is None && stream_taken_away(
            old(manager)@,
            final(manager)@,
            app_name@,
            stream_name@,
            Err(error),
        ),
        r.result is Ok ==> published(old(manager)@.channels, app_name@, stream_name@) && !published(
            final(manager)@.channels,
            app_name@,
            stream_name@,
        ),
{
    let pre = old(manager)@;
    let post = final(manager)@;
    if published(pre.channels, app_name@, stream_name@) {
        assert(post.channels.dom() =~= pre.channels.dom());
    }
}

/// A request to leave a stream takes the player that asks off that stream.
pub proof fn law_unsubscribe_request<N>(
    manager: &mut ChannelsManager<N>,
    app_name: String,
    stream_name: String,
    info: SubscriberInfo,
    serialized: Option<String>,
    r: EventOutcome,
)
    requires
        call_ensures(
            ChannelsManager::<N>::handle_event,
            (manager, ChannelEvent::UnSubscribe { app_name, stream_name, info }, serialized),
            r,
        ),
    ensures
        player_taken_off(old(manager)@, final(manager)@, app_name@, stream_name@, info, r.result),
        r.left_over is None,
{
    let pre = old(manager)@;
    let post = final(manager)@;
    if published(pre.channels, app_name@, stream_name@) {
        assert(post.channels.dom() =~= pre.channels.dom());
    }
}

/// A request for the statistics asks every stream, and tells how many streams those are.
pub proof fn law_statistic_request<N>(
    manager: &mut ChannelsManager<N>,
    data_sender: AvStatisticSender,
    size_sender: StreamStatisticSizeSender,
    serialized: Option<String>,
    r: EventOutcome,
)
    requires
        call_ensures(
            ChannelsManager::<N>::handle_event,
            (manager, ChannelEvent::ApiStatistic { data_sender, size_sender }, serialized),
            r,
        ),
    ensures
        r.left_over is Some && r.left_over->0 is Statistic,
        statistics_asked_for(
            old(manager)@,
            final(manager)@,
            data_sender,
            size_sender,
            r.result,
            r.left_over->0->data_sender,
            r.left_over->0->size_sender,
        ),
{
    lemma_statistics(
        old(manager)@,
        final(manager)@,
        data_sender,
        size_sender,
        StatisticOutcome {
            result: r.result,
            data_sender: r.left_over->0->data_sender,
            size_sender: r.left_over->0->size_sender,
        },
    );
}

/// A request to throw a client out takes back what the client was let in for.
pub proof fn law_kick_request<N>(
    manager: &mut ChannelsManager<N>,
    id: u128,
    serialized: Option<String>,
    r: EventOutcome,
)
    requires
        call_ensures(
            ChannelsManager::<N>::handle_event,
            (manager, ChannelEvent::ApiKickClient { id }, serialized),
            r,
        ),
    ensures
        r.left_over matches Some(left_over) ==> left_over is Stream,
        thrown_out(
            old(manager)@,
            final(manager)@,
            id,
            match r.result {
                Ok(_) => Ok(
                    match r.left_over {
                        Some(left_over) => Some(left_over->Stream_producer),
                        None => None,
                    },
                ),
                Err(error) => Err(error),
            },
        ),
        r.result is Err ==> r.left_over is None,
{
    lemma_same_applications(old(manager)@.channels, final(manager)@.channels);
}

/// Who is notified of what. With a notifier, it is told of a stream that was published, of a
/// player that has started and of one that has stopped if the request went through, and of a
/// stream to be taken away and of a client to be thrown out in any case; of the statistics it is
/// never told. Without a notifier nobody is told anything.
pub proof fn law_who_is_notified<N>(
    manager: &mut ChannelsManager<N>,
    message: ChannelEvent,
    serialized: Option<String>,
    r: EventOutcome,
)
    requires
        call_ensures(ChannelsManager::<N>::handle_event, (manager, message, serialized), r),
    ensures
        old(manager)@.notifier is None ==> r.notification is None,
        old(manager)@.notifier is Some ==> (r.notification is Some <==> match message {
            ChannelEvent::UnPublish { .. } => true,
            ChannelEvent::ApiKickClient { .. } => true,
            ChannelEvent::ApiStatistic { .. } => false,
            _ => r.result is Ok,
        }),
        r.notification matches Some(notification) ==> {
            &&& notification.kind == match message {
                ChannelEvent::Publish { .. } => NotificationKind::Publish,
                ChannelEvent::Subscribe { .. } => NotificationKind::Play,
                ChannelEvent::UnSubscribe { .. } => NotificationKind::Stop,
                _ => NotificationKind::UnPublish,
            }
            &&& serialized matches Some(text) ==> notification.body@ == text@
            &&& serialized is None ==> notification.body@ == "empty body"@
        },
        final(manager)@.notifier == old(manager)@.notifier,
{
}

/// What publishing came to is what the publisher is told: the handle if there is one, and
/// otherwise nothing. The publisher is remembered exactly if there is one.
pub proof fn law_finish_publish<N>(
    manager: &mut ChannelsManager<N>,
    result: Result<ChannelDataProducer, ChannelError>,
    app_name: String,
    stream_name: String,
    info: PublisherInfo,
    responder: PublishResponder,
    body: String,
    r: EventOutcome,
)
    requires
        call_ensures(
            ChannelsManager::<N>::finish_publish,
            (manager, result, app_name, stream_name, info, responder, body),
            r,
        ),
    ensures
        r.result is Ok <==> result is Ok,
        result matches Ok(producer) ==> {
            &&& publish_offer(responder).message == producer
            &&& r.left_over is None <==> publish_offer(responder).taken
            &&& final(manager)@.channels_info == old(manager)@.channels_info.insert(
                info.id,
                PubSubInfoView::Publish { app_name: app_name@, stream_name: stream_name@ },
            )
            &&& r.notification is Some <==> old(manager)@.notifier is Some
            &&& r.notification matches Some(notification) ==> notification.kind == NotificationKind::Publish
                && notification.body@ == body@
        },
        result matches Err(error) ==> {
            &&& r.result matches Err(reason) && reason == error
            &&& r.left_over == Some(Leftover::PublishRequest { responder })
            &&& r.notification is None
            &&& final(manager)@.channels_info == old(manager)@.channels_info
        },
        final(manager)@.channels == old(manager)@.channels,
        final(manager)@.client_producer == old(manager)@.client_producer,
        final(manager)@.transmitters == old(manager)@.transmitters,
        set_up_as_before(old(manager)@, final(manager)@),
{
}

/// What subscribing came to is what the player is told: the handle if there is one, and
/// otherwise nothing. The player is remembered exactly if there is one.
pub proof fn law_finish_subscribe<N>(
    manager: &mut ChannelsManager<N>,
    result: Result<ChannelDataConsumer, ChannelError>,
    app_name: String,
    stream_name: String,
    info: SubscriberInfo,
    responder: SubscribeResponder,
    body: String,
    r: EventOutcome,
)
    requires
        call_ensures(
            ChannelsManager::<N>::finish_subscribe,
            (manager, result, app_name, stream_name, info, responder, body),
            r,
        ),
    ensures
        r.result is Ok <==> result is Ok,
        result matches Ok(consumer) ==> {
            &&& subscribe_offer(responder).message == consumer
            &&& r.left_over is None
            &&& final(manager)@.channels_info == old(manager)@.channels_info.insert(
                info.id,
                PubSubInfoView::Subscribe { app_name: app_name@, stream_name: stream_name@, sub_info: info },
            )
            &&& r.notification is Some <==> old(manager)@.notifier is Some
            &&& r.notification matches Some(notification) ==> notification.kind == NotificationKind::Play
                && notification.body@ == body@
        },
        result matches Err(error) ==> {
            &&& r.result matches Err(reason) && reason == error
            &&& r.left_over == Some(Leftover::SubscribeRequest { responder })
            &&& r.notification is None
            &&& final(manager)@.channels_info == old(manager)@.channels_info
        },
        final(manager)@.channels == old(manager)@.channels,
        final(manager)@.client_producer == old(manager)@.client_producer,
        final(manager)@.transmitters == old(manager)@.transmitters,
        set_up_as_before(old(manager)@, final(manager)@),
{
}

/// The life of a stream, seen from outside. A stream that is brought in by a request, found by a
/// player and taken away by a request has told its transmitter exactly that: to send to the
/// player on the channel that the player was answered with, and to stop. The publisher was
/// answered with what feeds the same transmitter, and the stream can be published anew.
pub proof fn law_life_of_a_stream<N>(
    first: &mut ChannelsManager<N>,
    app_name: String,
    stream_name: String,
    publisher: PublisherInfo,
    publish_responder: PublishResponder,
    publish_text: Option<String>,
    publish: EventOutcome,
    second: &mut ChannelsManager<N>,
    waiting: Vec<Waiting>,
    third: &mut ChannelsManager<N>,
    player: SubscriberInfo,
    subscribe_responder: SubscribeResponder,
    subscribe_text: Option<String>,
    subscribe: EventOutcome,
    fourth: &mut ChannelsManager<N>,
    who: PublisherInfo,
    unpublish_text: Option<String>,
    unpublish: EventOutcome,
    fifth: &mut ChannelsManager<N>,
    next: PublisherInfo,
    next_responder: PublishResponder,
    next_text: Option<String>,
    again: EventOutcome,
)
    requires
        call_ensures(
            ChannelsManager::<N>::handle_event,
            (
                first,
                ChannelEvent::Publish { app_name, stream_name, info: publisher, responder: publish_responder },
                publish_text,
            ),
            publish,
        ),
        publish.result is Ok,
        *old(second) == *final(first),
        call_ensures(ChannelsManager::<N>::take_transmitters, (second,), waiting),
        *old(third) == *final(second),
        call_ensures(
            ChannelsManager::<N>::handle_event,
            (
                third,
                ChannelEvent::Subscribe { app_name, stream_name, info: player, responder: subscribe_responder },
                subscribe_text,
            ),
            subscribe,
        ),
        subscribe.result is Ok,
        *old(fourth) == *final(third),
        call_ensures(
            ChannelsManager::<N>::handle_event,
            (fourth, ChannelEvent::UnPublish { app_name, stream_name, info: who }, unpublish_text),
            unpublish,
        ),
        unpublish.result is Ok,
        *old(fifth) == *final(fourth),
        call_ensures(
            ChannelsManager::<N>::handle_event,
            (
                fifth,
                ChannelEvent::Publish { app_name, stream_name, info: next, responder: next_responder },
                next_text,
            ),
            again,
        ),
    ensures
        waiting@.len() > 0,
        data_channel(publish_offer(publish_responder).message) == data_channel_of(
            waiting@.last().transmitter.data_consumer,
        ),
        unpublish.left_over matches Some(Leftover::Stream { producer: handle }) && {
            &&& event_channel(handle) == event_channel_of(waiting@.last().transmitter.event_consumer)
            &&& event_offers(handle).len() == 2
            &&& event_offers(handle)[0].taken
            &&& event_offers(handle)[0].message matches TransmitterEventView::Subscribe { producer, info: whom }
                && whom == player && data_channel(producer) == data_channel_of(
                subscribe_offer(subscribe_responder).message,
            )
            &&& event_offers(handle)[1].taken
            &&& event_offers(handle)[1].message == TransmitterEventView::UnPublish
        },
        again.result matches Err(error) ==> error.value != ChannelErrorValue::Exists,
{
    if published(old(first)@.channels, app_name@, stream_name@) {
        law_publish_request_for_a_published_stream(
            first,
            app_name,
            stream_name,
            publisher,
            publish_responder,
            publish_text,
            publish,
        );
    }
    law_publish_request(first, app_name, stream_name, publisher, publish_responder, publish_text, publish);
    law_subscribe_request(third, app_name, stream_name, player, subscribe_responder, subscribe_text, subscribe);
    law_unpublish_request(fourth, app_name, stream_name, who, unpublish_text, unpublish);
    law_publish_request(fifth, app_name, stream_name, next, next_responder, next_text, again);
    let handle = unpublish.left_over->0->Stream_producer;
    let before = final(third)@.channels[app_name@][stream_name@];
    assert(event_offers(handle)[0] == event_offers(before)[0]);
    assert(event_offers(before).last() == event_offers(before)[0]);
}

/// A stream can be brought in once: while it is there, a second request to publish it is refused
/// and not answered, whoever asks.
pub proof fn law_a_stream_is_published_once<N>(
    first: &mut ChannelsManager<N>,
    app_name: String,
    stream_name: String,
    info: PublisherInfo,
    responder: PublishResponder,
    text: Option<String>,
    r: EventOutcome,
    second: &mut ChannelsManager<N>,
    other_info: PublisherInfo,
    other_responder: PublishResponder,
    other_text: Option<String>,
    again: EventOutcome,
)
    requires
        call_ensures(
            ChannelsManager::<N>::handle_event,
            (first, ChannelEvent::Publish { app_name, stream_name, info, responder }, text),
            r,
        ),
        *old(second) == *final(first),
        call_ensures(
            ChannelsManager::<N>::handle_event,
            (
                second,
                ChannelEvent::Publish { app_name, stream_name, info: other_info, responder: other_responder },
                other_text,
            ),
            again,
        ),
    ensures
        again.result matches Err(error) && error.value == ChannelErrorValue::Exists,
        again.left_over == Some(Leftover::PublishRequest { responder: other_responder }),
        final(second)@ == old(second)@,
{
    if !published(old(first)@.channels, app_name@, stream_name@) {
        law_publish_request(first, app_name, stream_name, info, responder, text, r);
    } else {
        law_publish_request_for_a_published_stream(first, app_name, stream_name, info, responder, text, r);
    }
    law_publish_request_for_a_published_stream(
        second,
        app_name,
        stream_name,
        other_info,
        other_responder,
        other_text,
        again,
    );
}

/// A publisher that is thrown out right after its request to publish went through loses its
/// stream: the transmitter is told to stop and nothing else, or, if it is gone, the stream stays.
pub proof fn law_a_publisher_is_thrown_out<N>(
    first: &mut ChannelsManager<N>,
    app_name: String,
    stream_name: String,
    info: PublisherInfo,
    responder: PublishResponder,
    text: Option<String>,
    r: EventOutcome,
    second: &mut ChannelsManager<N>,
    kick_text: Option<String>,
    kicked: EventOutcome,
)
    requires
        call_ensures(
            ChannelsManager::<N>::handle_event,
            (first, ChannelEvent::Publish { app_name, stream_name, info, responder }, text),
            r,
        ),
        r.result is Ok,
        *old(second) == *final(first),
        call_ensures(
            ChannelsManager::<N>::handle_event,
            (second, ChannelEvent::ApiKickClient { id: info.id }, kick_text),
            kicked,
        ),
    ensures
        kicked.result is Ok ==> {
            &&& kicked.left_over matches Some(Leftover::Stream { producer: handle }) && {
                &&& event_channel(handle) == event_channel(final(first)@.channels[app_name@][stream_name@])
                &&& event_offers(handle).len() == 1
                &&& event_offers(handle)[0] == (Offer { message: TransmitterEventView::UnPublish, taken: true })
            }
            &&& !published(final(second)@.channels, app_name@, stream_name@)
        },
        kicked.result matches Err(error) ==> error.value == ChannelErrorValue::SendError && published(
            final(second)@.channels,
            app_name@,
            stream_name@,
        ),
{
    if published(old(first)@.channels, app_name@, stream_name@) {
        law_publish_request_for_a_published_stream(first, app_name, stream_name, info, responder, text, r);
    }
    law_publish_request(first, app_name, stream_name, info, responder, text, r);
    law_kick_request(second, info.id, kick_text, kicked);
}

/// A player that is thrown out right after its request to subscribe went through is taken off its
/// stream: the transmitter that was told of it is told that it, and nobody else, has gone.
pub proof fn law_a_player_is_thrown_out<N>(
    first: &mut ChannelsManager<N>,
    app_name: String,
    stream_name: String,
    info: SubscriberInfo,
    responder: SubscribeResponder,
    text: Option<String>,
    r: EventOutcome,
    second: &mut ChannelsManager<N>,
    kick_text: Option<String>,
    kicked: EventOutcome,
)
    requires
        call_ensures(
            ChannelsManager::<N>::handle_event,
            (first, ChannelEvent::Subscribe { app_name, stream_name, info, responder }, text),
            r,
        ),
        r.result is Ok,
        *old(second) == *final(first),
        call_ensures(
            ChannelsManager::<N>::handle_event,
            (second, ChannelEvent::ApiKickClient { id: info.id }, kick_text),
            kicked,
        ),
    ensures
        published(final(second)@.channels, app_name@, stream_name@),
        told_one_more(
            final(first)@.channels[app_name@][stream_name@],
            final(second)@.channels[app_name@][stream_name@],
            TransmitterEventView::UnSubscribe { info },
            kicked.result is Ok,
        ),
        others_untouched(final(first)@.channels, final(second)@.channels, app_name@, stream_name@),
        kicked.left_over is None,
{
    if !published(old(first)@.channels, app_name@, stream_name@) {
        law_subscribe_request_for_a_missing_stream(first, app_name, stream_name, info, responder, text, r);
    }
    law_subscribe_request(first, app_name, stream_name, info, responder, text, r);
    law_kick_request(second, info.id, kick_text, kicked);
}

/// Two players that subscribe one after the other are both told to the transmitter, each with its
/// own number and kind and its own channel, and a player that leaves is told under its number.
pub proof fn law_players_are_told_apart<N>(
    first: &mut ChannelsManager<N>,
    app_name: String,
    stream_name: String,
    one: SubscriberInfo,
    one_responder: SubscribeResponder,
    one_text: Option<String>,
    one_outcome: EventOutcome,
    second: &mut ChannelsManager<N>,
    other: SubscriberInfo,
    other_responder: SubscribeResponder,
    other_text: Option<String>,
    other_outcome: EventOutcome,
    third: &mut ChannelsManager<N>,
    leave_text: Option<String>,
    left: EventOutcome,
)
    requires
        call_ensures(
            ChannelsManager::<N>::handle_event,
            (
                first,
                ChannelEvent::Subscribe { app_name, stream_name, info: one, responder: one_responder },
                one_text,
            ),
            one_outcome,
        ),
        one_outcome.result is Ok,
        *old(second) == *final(first),
        call_ensures(
            ChannelsManager::<N>::handle_event,
            (
                second,
                ChannelEvent::Subscribe { app_name, stream_name, info: other, responder: other_responder },
                other_text,
            ),
            other_outcome,
        ),
        other_outcome.result is Ok,
        *old(third) == *final(second),
        call_ensures(
            ChannelsManager::<N>::handle_event,
            (third, ChannelEvent::UnSubscribe { app_name, stream_name, info: one }, leave_text),
            left,
        ),
    ensures
        data_channel_of(subscribe_offer(one_responder).message) != data_channel_of(
            subscribe_offer(other_responder).message,
        ),
        ({
            let start: int = event_offers(old(first)@.channels[app_name@][stream_name@]).len() as int;
            let offers = event_offers(final(third)@.channels[app_name@][stream_name@]);
            &&& offers.len() == start + 3
            &&& offers[start].message matches TransmitterEventView::Subscribe { producer, info } && info == one
                && data_channel(producer) == data_channel_of(subscribe_offer(one_responder).message)
            &&& offers[start + 1].message matches TransmitterEventView::Subscribe { producer, info } && info == other
                && data_channel(producer) == data_channel_of(subscribe_offer(other_responder).message)
            &&& offers[start + 2].message == (TransmitterEventView::UnSubscribe { info: one })
            &&& offers[start + 2].taken <==> left.result is Ok
        }),
{
    if !published(old(first)@.channels, app_name@, stream_name@) {
        law_subscribe_request_for_a_missing_stream(
            first,
            app_name,
            stream_name,
            one,
            one_responder,
            one_text,
            one_outcome,
        );
    }
    law_subscribe_request(first, app_name, stream_name, one, one_responder, one_text, one_outcome);
    law_subscribe_request(second, app_name, stream_name, other, other_responder, other_text, other_outcome);
    law_unsubscribe_request(third, app_name, stream_name, one, leave_text, left);
    let start: int = event_offers(old(first)@.channels[app_name@][stream_name@]).len() as int;
    let a = event_offers(final(first)@.channels[app_name@][stream_name@]);
    let b = event_offers(final(second)@.channels[app_name@][stream_name@]);
    let c = event_offers(final(third)@.channels[app_name@][stream_name@]);
    assert(b[start] == a[start]);
    assert(c[start] == b[start]);
    assert(c[start + 1] == b[start + 1]);
    let handle = final(first)@.channels[app_name@][stream_name@];
    assert(has_stream(old(second)@.channels, app_name@, stream_name@));
    assert(told_before(handle, last_channel_told(final(second)@.channels[app_name@][stream_name@])));
}

/// As long as no client has ever listened, a new manager that is to push streams or to cut them
/// refuses every publisher, and one that is to pull streams has nobody to pull a missing one.
pub proof fn law_nobody_to_tell<N>(
    manager: &mut ChannelsManager<N>,
    app_name: &String,
    stream_name: &String,
    info: SubscriberInfo,
    published_as: Result<ChannelDataProducer, ChannelError>,
    subscribed_as: Result<ChannelDataConsumer, ChannelError>,
)
    requires
        client_consumers(old(manager)@.client_producer) == 0,
        !published(old(manager)@.channels, app_name@, stream_name@),
    ensures
        call_ensures(ChannelsManager::<N>::publish, (manager, app_name, stream_name), published_as) && (old(
            manager,
        )@.rtmp_push_enabled || old(manager)@.hls_enabled) ==> (published_as matches Err(error) && error.value
            == ChannelErrorValue::SendError),
        call_ensures(ChannelsManager::<N>::subscribe, (manager, app_name, stream_name, info), subscribed_as) && old(
            manager,
        )@.rtmp_pull_enabled ==> (subscribed_as matches Err(error) && error.value == ChannelErrorValue::SendError),
{
}

/// A transmitter that has once been found gone takes nothing more: nobody gets onto its stream or
/// leaves it, and the stream cannot be taken away.
pub proof fn law_a_transmitter_that_is_gone_takes_nothing<N>(
    manager: &mut ChannelsManager<N>,
    app_name: &String,
    stream_name: &String,
    info: SubscriberInfo,
    i: int,
    subscribed_as: Result<ChannelDataConsumer, ChannelError>,
    left_as: Result<(), ChannelError>,
    unpublished_as: Result<TransmitterEventProducer, ChannelError>,
)
    requires
        published(old(manager)@.channels, app_name@, stream_name@),
        0 <= i < event_offers(old(manager)@.channels[app_name@][stream_name@]).len(),
        !event_offers(old(manager)@.channels[app_name@][stream_name@])[i].taken,
    ensures
        call_ensures(ChannelsManager::<N>::subscribe, (manager, app_name, stream_name, info), subscribed_as)
            ==> subscribed_as is Err,
        call_ensures(ChannelsManager::<N>::unsubscribe, (manager, app_name, stream_name, info), left_as)
            ==> left_as is Err,
        call_ensures(ChannelsManager::<N>::unpublish, (manager, app_name, stream_name), unpublished_as)
            ==> unpublished_as is Err && published(final(manager)@.channels, app_name@, stream_name@),
{
    let handle = old(manager)@.channels[app_name@][stream_name@];
    assert(event_refused(handle));
}

} // verus!

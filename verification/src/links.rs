//! The channels of tokio, and what is taken for granted of them.
//!
//! A handle on a channel is opaque. What the contracts say of it goes through names: the
//! channel that a handle belongs to, and what the library has offered through the handle. An
//! offer is a call of `send`; the channel takes the message or hands it back. Whether it does
//! depends on whether somebody still holds the receiving end, so no contract promises it.
//!
//! A sending handle is passed by `&mut` although tokio asks only for `&`, because the call adds
//! to what has been offered through it, or to the handles that have been made from it. The
//! sender of a one-shot channel is used up by its one `send`, so what is offered through it is a
//! property of the sender itself. A function that is done with a sending handle hands it back,
//! for its caller to drop: only so can its contract say what was offered through the handle, and
//! that it was nothing else.
//!
//! The channels are told apart by numbers, in the order in which they were opened, whatever they
//! carry. So a channel that is opened comes after every channel that there is a handle on, and is
//! a new one. The functions that open a channel are shown such handles for that reason alone.

use crate::define::{
    AvStatistic, AvStatisticSender, ChannelData, ChannelDataConsumer, ChannelDataProducer, ChannelDataView,
    ChannelEventConsumer, ChannelEventProducer, ClientEvent, ClientEventConsumer,
    ClientEventProducer, ClientEventView, PublishResponder, StreamStatisticSizeSender,
    SubscribeResponder, TransmitterEvent, TransmitterEventConsumer, TransmitterEventProducer,
    TransmitterEventView,
};
use crate::streams::{all_before, StreamTable};
use vstd::prelude::*;

verus! {

/// `tokio::sync::mpsc::UnboundedSender`, held and passed on unopened.
#[verifier::external_type_specification]
#[verifier::external_body]
#[verifier::reject_recursive_types(T)]
pub struct ExUnboundedSender<T>(tokio::sync::mpsc::UnboundedSender<T>);

/// `tokio::sync::mpsc::UnboundedReceiver`, held and passed on unopened.
#[verifier::external_type_specification]
#[verifier::external_body]
#[verifier::reject_recursive_types(T)]
pub struct ExUnboundedReceiver<T>(tokio::sync::mpsc::UnboundedReceiver<T>);

/// `tokio::sync::mpsc::error::SendError`, of which only its presence counts.
#[verifier::external_type_specification]
#[verifier::external_body]
#[verifier::reject_recursive_types(T)]
pub struct ExMpscSendError<T>(tokio::sync::mpsc::error::SendError<T>);

/// `tokio::sync::broadcast::Sender`, held and passed on unopened.
#[verifier::external_type_specification]
#[verifier::external_body]
#[verifier::reject_recursive_types(T)]
pub struct ExBroadcastSender<T>(tokio::sync::broadcast::Sender<T>);

/// `tokio::sync::broadcast::Receiver`, held and passed on unopened.
#[verifier::external_type_specification]
#[verifier::external_body]
#[verifier::reject_recursive_types(T)]
pub struct ExBroadcastReceiver<T>(tokio::sync::broadcast::Receiver<T>);

/// `tokio::sync::broadcast::error::SendError`, of which only its presence counts.
#[verifier::external_type_specification]
#[verifier::external_body]
#[verifier::reject_recursive_types(T)]
pub struct ExBroadcastSendError<T>(tokio::sync::broadcast::error::SendError<T>);

/// `tokio::sync::oneshot::Sender`, held and passed on unopened.
#[verifier::external_type_specification]
#[verifier::external_body]
#[verifier::reject_recursive_types(T)]
pub struct ExOneshotSender<T>(tokio::sync::oneshot::Sender<T>);

/// A message that was offered to a channel, and whether the channel took it.
pub struct Offer<M> {
    pub message: M,
    pub taken: bool,
}

/// The channel that a handle sends packets to.
pub uninterp spec fn data_channel(producer: ChannelDataProducer) -> int;

/// The channel that a handle receives packets from.
pub uninterp spec fn data_channel_of(consumer: ChannelDataConsumer) -> int;

/// What the library has offered through a handle for packets, oldest first.
pub uninterp spec fn data_offers(producer: ChannelDataProducer) -> Seq<Offer<ChannelDataView>>;

/// The channel that a handle sends events to.
pub uninterp spec fn event_channel(producer: TransmitterEventProducer) -> int;

/// The channel that a handle receives events from.
pub uninterp spec fn event_channel_of(consumer: TransmitterEventConsumer) -> int;

/// What the library has offered through a handle for events, oldest first.
pub uninterp spec fn event_offers(producer: TransmitterEventProducer) -> Seq<Offer<TransmitterEventView>>;

/// The channel that a handle sends requests to.
pub uninterp spec fn request_channel(producer: ChannelEventProducer) -> int;

/// The channel that a handle receives requests from.
pub uninterp spec fn request_channel_of(consumer: ChannelEventConsumer) -> int;

/// The channel that a handle tells clients through.
pub uninterp spec fn client_channel(producer: ClientEventProducer) -> int;

/// How many handles that hear of client events there have been on the channel since it was
/// opened. The library holds the one sending handle on it, so all of them are made from that one.
pub uninterp spec fn client_consumers(producer: ClientEventProducer) -> int;

/// The channel that a handle hears of client events from.
pub uninterp spec fn client_channel_of(consumer: ClientEventConsumer) -> int;

/// How much had been offered through the sending handle when this receiving one was made: it
/// hears of what is offered from then on.
pub uninterp spec fn client_start(consumer: ClientEventConsumer) -> int;

/// The number of client events that the channel was made to hold.
pub uninterp spec fn client_capacity(producer: ClientEventProducer) -> int;

/// What the library has offered through a handle for client events, oldest first.
pub uninterp spec fn client_offers(producer: ClientEventProducer) -> Seq<Offer<ClientEventView>>;

/// The channel that a handle sends statistics to.
pub uninterp spec fn statistic_channel(sender: AvStatisticSender) -> int;

/// The reports that the library has offered through a handle for statistics, oldest first.
pub uninterp spec fn statistic_offers(sender: AvStatisticSender) -> Seq<Offer<Seq<char>>>;

/// How many other handles on the same channel the library has made from this one.
pub uninterp spec fn statistic_clones(sender: AvStatisticSender) -> int;

/// The one offer that is made through a sender for the number of streams.
pub uninterp spec fn size_offer(sender: StreamStatisticSizeSender) -> Offer<usize>;

/// The one offer that is made through a responder to a `Publish` request.
pub uninterp spec fn publish_offer(responder: PublishResponder) -> Offer<ChannelDataProducer>;

/// The one offer that is made through a responder to a `Subscribe` request.
pub uninterp spec fn subscribe_offer(responder: SubscribeResponder) -> Offer<ChannelDataConsumer>;

/// `tokio::sync::mpsc::unbounded_channel` for packets: the two handles belong to one channel,
/// which is a new one, later than those of the streams and of their players, and nothing has
/// been offered through the sending one.
#[allow(unused_variables)]
#[verifier::external_body]
pub(crate) fn open_data_channel(streams: &StreamTable) -> (r: (ChannelDataProducer, ChannelDataConsumer))
    ensures
        all_before(streams@, data_channel(r.0)),
        data_channel(r.0) == data_channel_of(r.1),
        data_offers(r.0) == Seq::<Offer<ChannelDataView>>::empty(),
{
    tokio::sync::mpsc::unbounded_channel()
}

/// `tokio::sync::mpsc::UnboundedSender::send` for packets: the packet is offered through the
/// handle, which stays on its channel, and `Ok` says that the channel took it. A channel that
/// has handed a packet back is closed for good, and hands back every later one.
#[verifier::external_body]
pub(crate) fn send_data(producer: &mut ChannelDataProducer, message: ChannelData) -> (r: Result<
    (),
    tokio::sync::mpsc::error::SendError<ChannelData>,
>)
    ensures
        data_channel(*final(producer)) == data_channel(*old(producer)),
        data_offers(*final(producer)) == data_offers(*old(producer)).push(
            Offer { message: message@, taken: r is Ok },
        ),
        (exists|i: int|
            0 <= i < data_offers(*old(producer)).len() && !(#[trigger] data_offers(*old(producer))[i]).taken)
            ==> r is Err,
{
    producer.send(message)
}

/// `tokio::sync::mpsc::unbounded_channel` for events: the two handles belong to one channel,
/// which is a new one, later than those of the streams and of their players and than that of
/// the publisher, and nothing has been offered through the sending one.
#[allow(unused_variables)]
#[verifier::external_body]
pub(crate) fn open_event_channel(streams: &StreamTable, publisher: &ChannelDataProducer) -> (r: (
    TransmitterEventProducer,
    TransmitterEventConsumer,
))
    ensures
        all_before(streams@, event_channel(r.0)),
        data_channel(*publisher) < event_channel(r.0),
        event_channel(r.0) == event_channel_of(r.1),
        event_offers(r.0) == Seq::<Offer<TransmitterEventView>>::empty(),
{
    tokio::sync::mpsc::unbounded_channel()
}

/// `tokio::sync::mpsc::UnboundedSender::send` for events: the event is offered through the
/// handle, which stays on its channel, and `Ok` says that the channel took it. A channel that
/// has handed an event back is closed for good, and hands back every later one.
#[verifier::external_body]
pub(crate) fn send_event(producer: &mut TransmitterEventProducer, message: TransmitterEvent) -> (r: Result<
    (),
    tokio::sync::mpsc::error::SendError<TransmitterEvent>,
>)
    ensures
        event_channel(*final(producer)) == event_channel(*old(producer)),
        event_offers(*final(producer)) == event_offers(*old(producer)).push(
            Offer { message: message@, taken: r is Ok },
        ),
        (exists|i: int|
            0 <= i < event_offers(*old(producer)).len() && !(#[trigger] event_offers(*old(producer))[i]).taken)
            ==> r is Err,
{
    producer.send(message)
}

/// `tokio::sync::mpsc::unbounded_channel` for requests: the two handles belong to one channel.
#[verifier::external_body]
pub(crate) fn open_request_channel() -> (r: (ChannelEventProducer, ChannelEventConsumer))
    ensures
        request_channel(r.0) == request_channel_of(r.1),
{
    tokio::sync::mpsc::unbounded_channel()
}

/// `tokio::sync::mpsc::UnboundedSender::clone` for requests: another handle on the same channel.
#[verifier::external_body]
pub(crate) fn clone_request_producer(producer: &ChannelEventProducer) -> (r: ChannelEventProducer)
    ensures
        request_channel(r) == request_channel(*producer),
{
    producer.clone()
}

/// `tokio::sync::mpsc::UnboundedSender::clone` for statistics: another handle on the same
/// channel, through which nothing has been offered and from which no other has been made.
#[verifier::external_body]
pub(crate) fn clone_statistic_sender(sender: &mut AvStatisticSender) -> (r: AvStatisticSender)
    ensures
        statistic_channel(r) == statistic_channel(*old(sender)),
        statistic_offers(r) == Seq::<Offer<Seq<char>>>::empty(),
        statistic_clones(r) == 0,
        statistic_channel(*final(sender)) == statistic_channel(*old(sender)),
        statistic_offers(*final(sender)) == statistic_offers(*old(sender)),
        statistic_clones(*final(sender)) == statistic_clones(*old(sender)) + 1,
{
    sender.clone()
}

/// `tokio::sync::mpsc::UnboundedSender::send` for statistics: the report is offered through the
/// handle, which stays on its channel, and `Ok` says that the channel took it.
#[verifier::external_body]
pub(crate) fn send_statistic(sender: &mut AvStatisticSender, statistic: AvStatistic) -> (r: Result<
    (),
    tokio::sync::mpsc::error::SendError<AvStatistic>,
>)
    ensures
        statistic_channel(*final(sender)) == statistic_channel(*old(sender)),
        statistic_offers(*final(sender)) == statistic_offers(*old(sender)).push(
            Offer { message: statistic.report@, taken: r is Ok },
        ),
        statistic_clones(*final(sender)) == statistic_clones(*old(sender)),
{
    sender.send(statistic)
}

/// `tokio::sync::broadcast::channel` for client events: a channel that was made for `capacity`
/// events, of which the sending handle is kept and the receiving one dropped. Nothing has been
/// offered through the handle, and nobody hears of what is. tokio panics on the capacities that
/// are left out.
#[verifier::external_body]
pub(crate) fn open_client_channel(capacity: usize) -> (r: ClientEventProducer)
    requires
        0 < capacity <= usize::MAX / 2,
    ensures
        client_capacity(r) == capacity,
        client_offers(r) == Seq::<Offer<ClientEventView>>::empty(),
        client_consumers(r) == 0,
{
    tokio::sync::broadcast::channel(capacity).0
}

/// `tokio::sync::broadcast::Sender::send`: the event is offered through the handle, which stays
/// on its channel. `Ok` says that the channel took it, and for how many receivers; with no
/// receiver the event is handed back, so it is if none has ever been made.
#[verifier::external_body]
pub(crate) fn send_client_event(producer: &mut ClientEventProducer, message: ClientEvent) -> (r: Result<
    usize,
    tokio::sync::broadcast::error::SendError<ClientEvent>,
>)
    ensures
        client_channel(*final(producer)) == client_channel(*old(producer)),
        client_capacity(*final(producer)) == client_capacity(*old(producer)),
        client_consumers(*final(producer)) == client_consumers(*old(producer)),
        client_offers(*final(producer)) == client_offers(*old(producer)).push(
            Offer { message: message@, taken: r is Ok },
        ),
        r matches Ok(receivers) ==> receivers > 0,
        client_consumers(*old(producer)) == 0 ==> r is Err,
{
    producer.send(message)
}

/// `tokio::sync::broadcast::Sender::subscribe`: a handle that receives from the same channel
/// what is sent after the call. It counts as one that was made from the sending handle, of which
/// nothing else changes.
#[verifier::external_body]
pub(crate) fn subscribe_client_events(producer: &mut ClientEventProducer) -> (r: ClientEventConsumer)
    ensures
        client_channel_of(r) == client_channel(*old(producer)),
        client_start(r) == client_offers(*old(producer)).len(),
        client_channel(*final(producer)) == client_channel(*old(producer)),
        client_capacity(*final(producer)) == client_capacity(*old(producer)),
        client_offers(*final(producer)) == client_offers(*old(producer)),
        client_consumers(*final(producer)) == client_consumers(*old(producer)) + 1,
{
    producer.subscribe()
}

/// `tokio::sync::oneshot::Sender::send` for the number of streams. The sender is used up, so
/// this is the one offer that is ever made through it; `Ok` says that it was taken.
#[verifier::external_body]
pub(crate) fn send_size(sender: StreamStatisticSizeSender, size: usize) -> (r: Result<(), usize>)
    ensures
        size_offer(sender) == (Offer { message: size, taken: r is Ok }),
        r matches Err(back) ==> back == size,
{
    sender.send(size)
}

/// `tokio::sync::oneshot::Sender::send` for the answer to a `Publish` request. The responder is
/// used up, so this is the one offer that is ever made through it; `Ok` says that it was taken.
#[verifier::external_body]
pub(crate) fn answer_publish(responder: PublishResponder, producer: ChannelDataProducer) -> (r: Result<
    (),
    ChannelDataProducer,
>)
    ensures
        publish_offer(responder) == (Offer { message: producer, taken: r is Ok }),
        r matches Err(back) ==> back == producer,
{
    responder.send(producer)
}

/// `tokio::sync::oneshot::Sender::send` for the answer to a `Subscribe` request. The responder
/// is used up, so this is the one offer that is ever made through it; `Ok` says that it was
/// taken.
#[verifier::external_body]
pub(crate) fn answer_subscribe(responder: SubscribeResponder, consumer: ChannelDataConsumer) -> (r: Result<
    (),
    ChannelDataConsumer,
>)
    ensures
        subscribe_offer(responder) == (Offer { message: consumer, taken: r is Ok }),
        r matches Err(back) ==> back == consumer,
{
    responder.send(consumer)
}

} // verus!

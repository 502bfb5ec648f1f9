//! What travels over the channels.

use crate::errors::ChannelError;
use crate::links::{statistic_channel, statistic_clones, statistic_offers, Offer};
use tokio::sync::{broadcast, mpsc, oneshot};
use vstd::prelude::*;

verus! {

/// What a subscriber of a stream is.
#[derive(Debug, Clone, Copy, PartialEq, Eq, Structural)]
pub enum SubscribeType {
    /// A player that speaks RTMP.
    PlayerRtmp,
    /// A player that reads HTTP-FLV.
    PlayerHttpFlv,
    /// A player that reads HLS.
    PlayerHls,
    /// The task that cuts a stream into HLS segments.
    GenerateHls,
    /// A publisher that relays the stream to another RTMP server.
    PublisherRtmp,
}

/// Who subscribes to a stream.
#[derive(Debug, Clone, Copy, PartialEq, Eq, Structural)]
pub struct SubscriberInfo {
    /// The number of the subscriber's UUID.
    pub id: u128,
    /// What the subscriber is.
    pub sub_type: SubscribeType,
}

/// Who publishes a stream.
#[derive(Debug, Clone, Copy, PartialEq, Eq, Structural)]
pub struct PublisherInfo {
    /// The number of the publisher's UUID.
    pub id: u128,
}

/// A packet of a stream.
#[derive(Debug, PartialEq, Eq)]
pub enum ChannelData {
    /// A video packet.
    Video { timestamp: u32, data: Vec<u8> },
    /// An audio packet.
    Audio { timestamp: u32, data: Vec<u8> },
    /// The description of the stream.
    MetaData { timestamp: u32, data: Vec<u8> },
}

/// A packet of a stream, its bytes as a sequence.
pub enum ChannelDataView {
    Video { timestamp: u32, data: Seq<u8> },
    Audio { timestamp: u32, data: Seq<u8> },
    MetaData { timestamp: u32, data: Seq<u8> },
}

impl View for ChannelData {
    type V = ChannelDataView;

    open spec fn view(&self) -> ChannelDataView {
        match *self {
            ChannelData::Video { timestamp, data } => ChannelDataView::Video { timestamp, data: data@ },
            ChannelData::Audio { timestamp, data } => ChannelDataView::Audio { timestamp, data: data@ },
            ChannelData::MetaData { timestamp, data } => ChannelDataView::MetaData { timestamp, data: data@ },
        }
    }
}

impl Clone for ChannelData {
    fn clone(&self) -> (r: Self)
        ensures
            r@ == self@,
    {
        match self {
            ChannelData::Video { timestamp, data } => {
                let copy = data.clone();
                assert(copy@ =~= data@);
                ChannelData::Video { timestamp: *timestamp, data: copy }
            },
            ChannelData::Audio { timestamp, data } => {
                let copy = data.clone();
                assert(copy@ =~= data@);
                ChannelData::Audio { timestamp: *timestamp, data: copy }
            },
            ChannelData::MetaData { timestamp, data } => {
                let copy = data.clone();
                assert(copy@ =~= data@);
                ChannelData::MetaData { timestamp: *timestamp, data: copy }
            },
        }
    }
}

/// What the statistics of one stream report.
#[derive(Debug, Clone, PartialEq, Eq)]
pub struct AvStatistic {
    /// The report, in the form in which the API hands it out.
    pub report: String,
}

/// Sends packets to a transmitter or to a subscriber.
pub type ChannelDataProducer = mpsc::UnboundedSender<ChannelData>;

/// Receives the packets of a stream.
pub type ChannelDataConsumer = mpsc::UnboundedReceiver<ChannelData>;

/// Sends events to a transmitter.
pub type TransmitterEventProducer = mpsc::UnboundedSender<TransmitterEvent>;

/// Receives the events of a transmitter.
pub type TransmitterEventConsumer = mpsc::UnboundedReceiver<TransmitterEvent>;

/// Sends requests to the manager.
pub type ChannelEventProducer = mpsc::UnboundedSender<ChannelEvent>;

/// Receives the requests to the manager.
pub type ChannelEventConsumer = mpsc::UnboundedReceiver<ChannelEvent>;

/// Tells the push and pull clients what they should do.
pub type ClientEventProducer = broadcast::Sender<ClientEvent>;

/// Receives what the push and pull clients should do.
pub type ClientEventConsumer = broadcast::Receiver<ClientEvent>;

/// Collects the statistics of the streams.
pub type AvStatisticSender = mpsc::UnboundedSender<AvStatistic>;

/// Takes the number of streams that will report their statistics.
pub type StreamStatisticSizeSender = oneshot::Sender<usize>;

/// Takes the answer to a `Publish` request.
pub type PublishResponder = oneshot::Sender<ChannelDataProducer>;

/// Takes the answer to a `Subscribe` request.
pub type SubscribeResponder = oneshot::Sender<ChannelDataConsumer>;

/// An event for the transmitter of one stream.
#[derive(Debug)]
pub enum TransmitterEvent {
    /// A subscriber has come, and takes its packets from `producer`'s channel.
    Subscribe { producer: ChannelDataProducer, info: SubscriberInfo },
    /// A subscriber has gone.
    UnSubscribe { info: SubscriberInfo },
    /// The stream is no longer published.
    UnPublish {},
    /// The statistics of the stream are asked for.
    Api { sender: AvStatisticSender },
}

/// An event for the transmitter of one stream. Of the handle that the statistics go through it
/// keeps the channel, what has been offered, and how many handles have been made from it.
pub enum TransmitterEventView {
    Subscribe { producer: ChannelDataProducer, info: SubscriberInfo },
    UnSubscribe { info: SubscriberInfo },
    UnPublish,
    Api { channel: int, offers: Seq<Offer<Seq<char>>>, clones: int },
}

impl View for TransmitterEvent {
    type V = TransmitterEventView;

    open spec fn view(&self) -> TransmitterEventView {
        match *self {
            TransmitterEvent::Subscribe { producer, info } => TransmitterEventView::Subscribe { producer, info },
            TransmitterEvent::UnSubscribe { info } => TransmitterEventView::UnSubscribe { info },
            TransmitterEvent::UnPublish {  } => TransmitterEventView::UnPublish,
            TransmitterEvent::Api { sender } => TransmitterEventView::Api {
                channel: statistic_channel(sender),
                offers: statistic_offers(sender),
                clones: statistic_clones(sender),
            },
        }
    }
}

/// A request to the manager.
#[derive(Debug)]
pub enum ChannelEvent {
    /// A player wants a stream.
    Subscribe { app_name: String, stream_name: String, info: SubscriberInfo, responder: SubscribeResponder },
    /// A player leaves a stream.
    UnSubscribe { app_name: String, stream_name: String, info: SubscriberInfo },
    /// A publisher brings a stream.
    Publish { app_name: String, stream_name: String, info: PublisherInfo, responder: PublishResponder },
    /// A publisher takes its stream away.
    UnPublish { app_name: String, stream_name: String, info: PublisherInfo },
    /// The statistics of all streams are asked for.
    ApiStatistic { data_sender: AvStatisticSender, size_sender: StreamStatisticSizeSender },
    /// A client is to be thrown out.
    ApiKickClient { id: u128 },
}

/// What the push and pull clients should do.
#[derive(Debug, Clone, PartialEq, Eq)]
pub enum ClientEvent {
    /// Push a stream that has been published here.
    Publish { app_name: String, stream_name: String },
    /// Pull a stream that somebody asked for.
    Subscribe { app_name: String, stream_name: String },
}

/// What the push and pull clients should do, the names as sequences.
pub enum ClientEventView {
    Publish { app_name: Seq<char>, stream_name: Seq<char> },
    Subscribe { app_name: Seq<char>, stream_name: Seq<char> },
}

impl View for ClientEvent {
    type V = ClientEventView;

    open spec fn view(&self) -> ClientEventView {
        match *self {
            ClientEvent::Publish { app_name, stream_name } => ClientEventView::Publish {
                app_name: app_name@,
                stream_name: stream_name@,
            },
            ClientEvent::Subscribe { app_name, stream_name } => ClientEventView::Subscribe {
                app_name: app_name@,
                stream_name: stream_name@,
            },
        }
    }
}

/// What is remembered of a client, so that it can be thrown out.
#[derive(Debug, PartialEq, Eq)]
pub enum PubSubInfo {
    /// The client plays this stream.
    Subscribe { app_name: String, stream_name: String, sub_info: SubscriberInfo },
    /// The client publishes this stream.
    Publish { app_name: String, stream_name: String },
}

/// What is remembered of a client, the names as sequences.
pub enum PubSubInfoView {
    Subscribe { app_name: Seq<char>, stream_name: Seq<char>, sub_info: SubscriberInfo },
    Publish { app_name: Seq<char>, stream_name: Seq<char> },
}

impl View for PubSubInfo {
    type V = PubSubInfoView;

    open spec fn view(&self) -> PubSubInfoView {
        match *self {
            PubSubInfo::Subscribe { app_name, stream_name, sub_info } => PubSubInfoView::Subscribe {
                app_name: app_name@,
                stream_name: stream_name@,
                sub_info,
            },
            PubSubInfo::Publish { app_name, stream_name } => PubSubInfoView::Publish {
                app_name: app_name@,
                stream_name: stream_name@,
            },
        }
    }
}

impl Clone for PubSubInfo {
    fn clone(&self) -> (r: Self)
        ensures
            r@ == self@,
    {
        match self {
            PubSubInfo::Subscribe { app_name, stream_name, sub_info } => PubSubInfo::Subscribe {
                app_name: app_name.clone(),
                stream_name: stream_name.clone(),
                sub_info: *sub_info,
            },
            PubSubInfo::Publish { app_name, stream_name } => PubSubInfo::Publish {
                app_name: app_name.clone(),
                stream_name: stream_name.clone(),
            },
        }
    }
}

/// What the notifier can be told of.
#[derive(Debug, Clone, Copy, PartialEq, Eq, Structural)]
pub enum NotificationKind {
    /// A stream has been published.
    Publish,
    /// A stream has been taken away, or a client has been thrown out.
    UnPublish,
    /// A player has started.
    Play,
    /// A player has stopped.
    Stop,
}

/// What the notifier is to be told, with the request that it is about.
#[derive(Debug, PartialEq, Eq)]
pub struct Notification {
    pub kind: NotificationKind,
    pub body: String,
}

/// A handle that a request has left over, for whoever made the request to drop.
#[derive(Debug)]
pub enum Leftover {
    /// The responder of a `Publish` request that was refused, without an answer.
    PublishRequest { responder: PublishResponder },
    /// The responder of a `Subscribe` request that was refused, without an answer.
    SubscribeRequest { responder: SubscribeResponder },
    /// What a publisher would have sent its packets through, had it waited for the answer.
    Publisher { producer: ChannelDataProducer },
    /// The handle on the transmitter of a stream that has been taken away.
    Stream { producer: TransmitterEventProducer },
    /// What collects the statistics, and what takes the number of streams, if it was not told.
    Statistic { data_sender: AvStatisticSender, size_sender: Option<StreamStatisticSizeSender> },
}

/// What became of a request for the statistics.
#[derive(Debug)]
pub struct StatisticOutcome {
    /// Whether the request went through.
    pub result: Result<(), ChannelError>,
    /// What collects the statistics.
    pub data_sender: AvStatisticSender,
    /// What takes the number of streams, if it was not told.
    pub size_sender: Option<StreamStatisticSizeSender>,
}

/// What became of a request to the manager.
#[derive(Debug)]
pub struct EventOutcome {
    /// Whether the request went through.
    pub result: Result<(), ChannelError>,
    /// What the notifier is to be told.
    pub notification: Option<Notification>,
    /// What is left over of the request.
    pub left_over: Option<Leftover>,
}

} // verus!

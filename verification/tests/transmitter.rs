use rtmp_channels::define::{
    AvStatistic, ChannelData, ChannelDataConsumer, ChannelDataProducer, SubscribeType,
    SubscriberInfo, TransmitterEvent,
};
use rtmp_channels::errors::{ChannelError, ChannelErrorValue};
use rtmp_channels::transmitter::{report, CachedMedia, SendFailure, Transmitter, TransmitterAction};
use tokio::sync::mpsc;

fn transmitter() -> Transmitter {
    let (_, data_consumer) = mpsc::unbounded_channel();
    let (_, event_consumer) = mpsc::unbounded_channel();
    Transmitter::new(String::from("live"), String::from("a"), data_consumer, event_consumer, 2)
}

fn audio(byte: u8) -> ChannelData {
    ChannelData::Audio { timestamp: 10, data: vec![byte] }
}

fn video(byte: u8) -> ChannelData {
    ChannelData::Video { timestamp: 20, data: vec![byte] }
}

fn metadata(byte: u8) -> ChannelData {
    ChannelData::MetaData { timestamp: 30, data: vec![byte] }
}

fn empty() -> CachedMedia {
    CachedMedia { metadata: None, audio_seq: None, video_seq: None, gops: None }
}

fn full() -> CachedMedia {
    CachedMedia {
        metadata: Some(metadata(1)),
        audio_seq: Some(audio(2)),
        video_seq: Some(video(3)),
        gops: Some(vec![vec![video(4), audio(5)], vec![], vec![video(6)]]),
    }
}

fn info(id: u128, sub_type: SubscribeType) -> SubscriberInfo {
    SubscriberInfo { id, sub_type }
}

fn player(id: u128) -> SubscriberInfo {
    info(id, SubscribeType::PlayerRtmp)
}

fn all(consumer: &mut ChannelDataConsumer) -> Vec<ChannelData> {
    let mut list = Vec::new();
    while let Ok(packet) = consumer.try_recv() {
        list.push(packet);
    }
    list
}

fn link() -> (ChannelDataProducer, ChannelDataConsumer) {
    mpsc::unbounded_channel()
}

#[test]
fn a_new_transmitter_has_no_subscribers() {
    let transmitter = transmitter();
    assert_eq!(transmitter.cache.app_name, "live");
    assert_eq!(transmitter.cache.stream_name, "a");
    assert_eq!(transmitter.cache.gop_num, 2);
    assert!(transmitter.subscriberid_to_producer.is_empty());
}

#[test]
fn players_are_given_the_cache_in_order() {
    let expected = vec![metadata(1), audio(2), video(3), video(4), audio(5), video(6)];
    for sub_type in [
        SubscribeType::PlayerRtmp,
        SubscribeType::PlayerHttpFlv,
        SubscribeType::PlayerHls,
        SubscribeType::GenerateHls,
    ] {
        assert_eq!(full().replay(sub_type), expected);
    }
}

#[test]
fn a_relay_is_not_given_the_groups_of_pictures() {
    assert_eq!(full().replay(SubscribeType::PublisherRtmp), vec![metadata(1), audio(2), video(3)]);
}

#[test]
fn what_the_cache_lacks_is_left_out() {
    assert!(empty().replay(SubscribeType::PlayerHls).is_empty());
    let cached = CachedMedia { video_seq: Some(video(7)), ..empty() };
    assert_eq!(cached.replay(SubscribeType::PlayerHls), vec![video(7)]);
}

#[test]
fn a_subscriber_gets_the_cache_and_then_the_packets() {
    let mut transmitter = transmitter();
    let (producer, mut consumer) = link();
    transmitter.subscribe(producer, player(1), full()).unwrap();
    let (late_producer, mut late) = link();
    assert!(transmitter.handle_data(audio(7), Ok(())).unwrap().is_empty());
    transmitter.subscribe(late_producer, player(2), empty()).unwrap();
    assert!(transmitter.handle_data(video(8), Ok(())).unwrap().is_empty());
    assert_eq!(
        all(&mut consumer),
        vec![metadata(1), audio(2), video(3), video(4), audio(5), video(6), audio(7), video(8)]
    );
    assert_eq!(all(&mut late), vec![video(8)]);
}

#[test]
fn the_description_of_the_stream_is_not_passed_on() {
    let mut transmitter = transmitter();
    let (producer, mut consumer) = link();
    transmitter.subscribe(producer, player(1), empty()).unwrap();
    assert!(transmitter.handle_data(metadata(9), Ok(())).unwrap().is_empty());
    assert!(all(&mut consumer).is_empty());
}

#[test]
fn a_packet_that_cannot_be_kept_is_not_passed_on() {
    let mut transmitter = transmitter();
    let (producer, mut consumer) = link();
    transmitter.subscribe(producer, player(1), empty()).unwrap();
    let error = ChannelError { value: ChannelErrorValue::CacheError(String::from("full")) };
    let result = transmitter.handle_data(audio(9), Err(error.clone()));
    assert_eq!(result, Err(error));
    assert!(all(&mut consumer).is_empty());
}

#[test]
fn subscribers_that_are_gone_are_reported_and_stay() {
    let mut transmitter = transmitter();
    let (gone, gone_consumer) = link();
    let (producer, mut consumer) = link();
    transmitter.subscribe(gone, player(1), empty()).unwrap();
    transmitter.subscribe(producer, player(2), empty()).unwrap();
    drop(gone_consumer);
    for _ in 0..2 {
        assert_eq!(
            transmitter.handle_data(audio(3), Ok(())).unwrap(),
            vec![SendFailure {
                id: 1,
                error: ChannelError { value: ChannelErrorValue::SendAudioError }
            }]
        );
    }
    assert_eq!(
        transmitter.handle_data(video(4), Ok(())).unwrap(),
        vec![SendFailure { id: 1, error: ChannelError { value: ChannelErrorValue::SendVideoError } }]
    );
    assert_eq!(all(&mut consumer), vec![audio(3), audio(3), video(4)]);
    assert_eq!(transmitter.subscriberid_to_producer.len(), 2);
}

#[test]
fn a_subscriber_that_does_not_take_the_cache_is_not_brought_in() {
    let mut transmitter = transmitter();
    let (mut producer, consumer) = link();
    drop(consumer);
    match transmitter.subscribe(producer.clone(), player(1), full()) {
        Err(failure) => {
            assert!(failure.producer.same_channel(&producer));
            producer = failure.producer;
        }
        Ok(_) => panic!("brought in"),
    }
    assert_eq!(
        transmitter.subscribe(producer, player(1), full()).err().map(|failure| failure.error.value),
        Some(ChannelErrorValue::SendError)
    );
    assert!(transmitter.subscriberid_to_producer.is_empty());
    let (producer, consumer) = link();
    drop(consumer);
    assert!(transmitter.subscribe(producer, player(1), empty()).is_ok());
}

#[test]
fn a_subscriber_that_comes_again_replaces_itself() {
    let mut transmitter = transmitter();
    let (old, mut old_consumer) = link();
    let (new, mut new_consumer) = link();
    assert!(transmitter.subscribe(old.clone(), player(1), empty()).unwrap().is_none());
    let replaced = transmitter.subscribe(new, player(1), empty()).unwrap().unwrap();
    assert!(replaced.same_channel(&old));
    assert!(transmitter.handle_data(audio(3), Ok(())).unwrap().is_empty());
    assert!(all(&mut old_consumer).is_empty());
    assert_eq!(all(&mut new_consumer), vec![audio(3)]);
}

#[test]
fn a_subscriber_that_has_gone_is_left_alone() {
    let mut transmitter = transmitter();
    let (producer, mut consumer) = link();
    transmitter.subscribe(producer.clone(), player(1), empty()).unwrap();
    match transmitter.handle_event(TransmitterEvent::UnSubscribe { info: player(1) }) {
        TransmitterAction::Forget { producer: Some(gone) } => assert!(gone.same_channel(&producer)),
        _ => panic!("nothing to forget"),
    }
    assert!(transmitter.handle_data(audio(3), Ok(())).unwrap().is_empty());
    assert!(all(&mut consumer).is_empty());
    let action = transmitter.handle_event(TransmitterEvent::UnSubscribe { info: player(5) });
    assert!(matches!(action, TransmitterAction::Forget { producer: None }));
}

#[test]
fn a_new_subscriber_is_brought_in_with_the_cache() {
    let mut transmitter = transmitter();
    let (producer, _consumer) = link();
    let event =
        TransmitterEvent::Subscribe { producer: producer.clone(), info: player(4) };
    match transmitter.handle_event(event) {
        TransmitterAction::Replay { producer: given, info } => {
            assert!(given.same_channel(&producer));
            assert_eq!(info, player(4));
        }
        _ => panic!("no replay"),
    }
    assert!(transmitter.subscriberid_to_producer.is_empty());
}

#[test]
fn a_transmitter_stops_when_its_stream_is_taken_away() {
    let mut transmitter = transmitter();
    let action = transmitter.handle_event(TransmitterEvent::UnPublish {});
    assert!(matches!(action, TransmitterAction::Stop));
}

#[test]
fn statistics_are_reported_to_whoever_asked() {
    let mut transmitter = transmitter();
    let (sender, mut receiver) = mpsc::unbounded_channel();
    match transmitter.handle_event(TransmitterEvent::Api { sender }) {
        TransmitterAction::Report { mut sender } => {
            assert!(report(&mut sender, AvStatistic { report: String::from("ok") }));
        }
        _ => panic!("no report"),
    }
    assert_eq!(receiver.try_recv().unwrap().report, "ok");
    assert!(receiver.try_recv().is_err());
    let (mut sender, receiver) = mpsc::unbounded_channel();
    drop(receiver);
    assert!(!report(&mut sender, AvStatistic { report: String::from("ok") }));
}

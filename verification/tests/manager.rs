use rtmp_channels::define::{
    AvStatistic, ChannelData, ChannelDataConsumer, ChannelEvent, ClientEvent, EventOutcome,
    Leftover, Notification, NotificationKind, PublisherInfo, SubscribeType, SubscriberInfo, TransmitterEvent,
};
use rtmp_channels::errors::{delivery, ChannelErrorValue};
use rtmp_channels::manager::{notification_body, ChannelsManager};
use rtmp_channels::transmitter::{CachedMedia, Transmitter, TransmitterAction};
use tokio::sync::{mpsc, oneshot};

const PLAYER: SubscriberInfo = SubscriberInfo { id: 7, sub_type: SubscribeType::PlayerRtmp };
const OTHER: SubscriberInfo = SubscriberInfo { id: 8, sub_type: SubscribeType::PlayerHls };

fn name(text: &str) -> String {
    String::from(text)
}

fn manager() -> ChannelsManager<&'static str> {
    ChannelsManager::new(None)
}

fn notified() -> ChannelsManager<&'static str> {
    ChannelsManager::new(Some("notifier"))
}

fn why<T>(result: Result<T, rtmp_channels::errors::ChannelError>) -> Option<ChannelErrorValue> {
    result.err().map(|error| error.value)
}

fn packet(byte: u8) -> ChannelData {
    ChannelData::Audio { timestamp: 1, data: vec![byte] }
}

/// Publishes a stream and returns its transmitter.
fn published(manager: &mut ChannelsManager<&'static str>, app: &str, stream: &str) -> Transmitter {
    assert!(manager.publish(&name(app), &name(stream)).is_ok());
    let mut waiting = manager.take_transmitters();
    assert_eq!(waiting.len(), 1);
    let waiting = waiting.remove(0);
    assert!(waiting.unused.is_none());
    waiting.transmitter
}

fn publish_event(
    app: &str,
    stream: &str,
    id: u128,
) -> (ChannelEvent, oneshot::Receiver<mpsc::UnboundedSender<ChannelData>>) {
    let (responder, answer) = oneshot::channel();
    let event = ChannelEvent::Publish {
        app_name: name(app),
        stream_name: name(stream),
        info: PublisherInfo { id },
        responder,
    };
    (event, answer)
}

fn subscribe_event(
    app: &str,
    stream: &str,
    info: SubscriberInfo,
) -> (ChannelEvent, oneshot::Receiver<ChannelDataConsumer>) {
    let (responder, answer) = oneshot::channel();
    let event =
        ChannelEvent::Subscribe { app_name: name(app), stream_name: name(stream), info, responder };
    (event, answer)
}

fn told(kind: NotificationKind, body: &str) -> Option<Notification> {
    Some(Notification { kind, body: name(body) })
}

#[test]
fn a_new_manager_knows_no_stream() {
    let mut manager = manager();
    assert!(manager.take_transmitters().is_empty());
    assert!(manager.notifier().is_none());
    assert_eq!(why(manager.unpublish(&name("live"), &name("a"))), Some(ChannelErrorValue::NoAppName));
    assert_eq!(notified().notifier(), &Some("notifier"));
}

#[test]
fn publishing_queues_a_transmitter_that_the_publisher_feeds() {
    let mut manager = manager();
    let producer = manager.publish(&name("live"), &name("a")).unwrap();
    let mut waiting = manager.take_transmitters();
    assert_eq!(waiting.len(), 1);
    assert!(manager.take_transmitters().is_empty());
    let mut transmitter = waiting.remove(0).transmitter;
    assert_eq!(transmitter.cache.app_name, "live");
    assert_eq!(transmitter.cache.stream_name, "a");
    assert_eq!(transmitter.cache.gop_num, 1);
    assert!(transmitter.subscriberid_to_producer.is_empty());
    assert!(transmitter.event_consumer.try_recv().is_err());
    producer.send(packet(5)).unwrap();
    assert_eq!(transmitter.data_consumer.try_recv().unwrap(), packet(5));
}

#[test]
fn a_stream_can_be_published_once() {
    let mut manager = manager();
    assert!(manager.publish(&name("live"), &name("a")).is_ok());
    assert_eq!(why(manager.publish(&name("live"), &name("a"))), Some(ChannelErrorValue::Exists));
    assert_eq!(manager.take_transmitters().len(), 1);
    assert!(manager.publish(&name("live"), &name("b")).is_ok());
    assert!(manager.publish(&name("other"), &name("a")).is_ok());
    assert_eq!(manager.take_transmitters().len(), 2);
}

#[test]
fn the_number_of_cached_groups_is_handed_to_the_transmitter() {
    let mut manager = manager();
    manager.set_rtmp_gop_num(4);
    assert_eq!(published(&mut manager, "live", "a").cache.gop_num, 4);
}

#[test]
fn clients_are_told_of_a_new_stream_if_there_are_such() {
    for (push, hls) in [(true, false), (false, true), (true, true)] {
        let mut manager = manager();
        manager.set_rtmp_push_enabled(push);
        manager.set_hls_enabled(hls);
        let mut client = manager.get_client_event_consumer();
        assert!(manager.publish(&name("live"), &name("a")).is_ok());
        assert_eq!(
            client.try_recv().unwrap(),
            ClientEvent::Publish { app_name: name("live"), stream_name: name("a") }
        );
        assert!(client.try_recv().is_err());
    }
    let mut manager = manager();
    manager.set_rtmp_pull_enabled(true);
    let mut client = manager.get_client_event_consumer();
    assert!(manager.publish(&name("live"), &name("a")).is_ok());
    assert!(client.try_recv().is_err());
}

#[test]
fn a_publisher_is_refused_if_no_client_listens_though_the_stream_is_there() {
    let mut manager = manager();
    manager.set_rtmp_push_enabled(true);
    assert_eq!(why(manager.publish(&name("live"), &name("a"))), Some(ChannelErrorValue::SendError));
    let mut waiting = manager.take_transmitters();
    assert_eq!(waiting.len(), 1);
    let mut waiting = waiting.remove(0);
    assert!(waiting.transmitter.data_consumer.try_recv().is_err());
    waiting.unused.unwrap().send(packet(8)).unwrap();
    assert_eq!(waiting.transmitter.data_consumer.try_recv().unwrap(), packet(8));
    assert_eq!(why(manager.publish(&name("live"), &name("a"))), Some(ChannelErrorValue::Exists));
}

#[test]
fn without_a_client_that_ever_listened_what_needs_one_is_refused() {
    let mut manager = manager();
    manager.set_hls_enabled(true);
    manager.set_rtmp_pull_enabled(true);
    let refused = Some(ChannelErrorValue::SendError);
    assert_eq!(why(manager.publish(&name("live"), &name("a"))), refused);
    assert_eq!(why(manager.subscribe(&name("live"), &name("b"), PLAYER)), refused);
    assert!(manager.unpublish(&name("live"), &name("a")).is_ok());
    assert_eq!(why(manager.publish(&name("live"), &name("c"))), refused);
    let _client = manager.get_client_event_consumer();
    assert!(manager.publish(&name("live"), &name("a")).is_ok());
}

#[test]
fn client_events_wait_for_a_slow_client() {
    let mut manager = manager();
    manager.set_hls_enabled(true);
    let mut client = manager.get_client_event_consumer();
    for i in 0..100 {
        assert!(manager.publish(&name("live"), &format!("{}", i)).is_ok());
    }
    for i in 0..100 {
        let event = ClientEvent::Publish { app_name: name("live"), stream_name: format!("{}", i) };
        assert_eq!(client.try_recv().unwrap(), event);
    }
}

#[test]
fn a_player_is_put_through_to_the_transmitter() {
    let mut manager = manager();
    let mut transmitter = published(&mut manager, "live", "a");
    let mut consumer = manager.subscribe(&name("live"), &name("a"), PLAYER).unwrap();
    match transmitter.event_consumer.try_recv().unwrap() {
        TransmitterEvent::Subscribe { producer, info } => {
            assert_eq!(info, PLAYER);
            producer.send(packet(9)).unwrap();
        }
        event => panic!("{:?}", event),
    }
    assert_eq!(consumer.try_recv().unwrap(), packet(9));
}

#[test]
fn a_missing_stream_cannot_be_subscribed_to() {
    let mut manager = manager();
    let missing = Some(ChannelErrorValue::NoAppOrStreamName);
    assert_eq!(why(manager.subscribe(&name("live"), &name("a"), PLAYER)), missing);
    published(&mut manager, "live", "b");
    assert_eq!(why(manager.subscribe(&name("live"), &name("a"), PLAYER)), missing);
}

#[test]
fn a_missing_stream_is_pulled_if_streams_are_pulled() {
    let mut manager = manager();
    manager.set_rtmp_pull_enabled(true);
    assert_eq!(
        why(manager.subscribe(&name("live"), &name("a"), PLAYER)),
        Some(ChannelErrorValue::SendError)
    );
    let mut client = manager.get_client_event_consumer();
    assert_eq!(
        why(manager.subscribe(&name("live"), &name("a"), PLAYER)),
        Some(ChannelErrorValue::NoAppOrStreamName)
    );
    assert_eq!(
        client.try_recv().unwrap(),
        ClientEvent::Subscribe { app_name: name("live"), stream_name: name("a") }
    );
    let _transmitter = published(&mut manager, "live", "a");
    assert!(manager.subscribe(&name("live"), &name("a"), PLAYER).is_ok());
    assert!(client.try_recv().is_err());
}

#[test]
fn leaving_tells_the_transmitter() {
    let mut manager = manager();
    let mut transmitter = published(&mut manager, "live", "a");
    assert!(manager.unsubscribe(&name("live"), &name("a"), OTHER).is_ok());
    match transmitter.event_consumer.try_recv().unwrap() {
        TransmitterEvent::UnSubscribe { info } => assert_eq!(info, OTHER),
        event => panic!("{:?}", event),
    }
    assert_eq!(
        why(manager.unsubscribe(&name("live"), &name("b"), OTHER)),
        Some(ChannelErrorValue::NoStreamName)
    );
    assert_eq!(
        why(manager.unsubscribe(&name("other"), &name("a"), OTHER)),
        Some(ChannelErrorValue::NoAppName)
    );
}

#[test]
fn taking_a_stream_away_undoes_publishing_it() {
    let mut manager = manager();
    let mut transmitter = published(&mut manager, "live", "a");
    let closed = manager.unpublish(&name("live"), &name("a")).unwrap();
    assert!(matches!(transmitter.event_consumer.try_recv(), Ok(TransmitterEvent::UnPublish {})));
    assert!(transmitter.event_consumer.try_recv().is_err());
    closed.send(TransmitterEvent::UnSubscribe { info: OTHER }).unwrap();
    assert!(transmitter.event_consumer.try_recv().is_ok());
    drop(closed);
    assert!(matches!(
        transmitter.event_consumer.try_recv(),
        Err(mpsc::error::TryRecvError::Disconnected)
    ));
    let gone = Some(ChannelErrorValue::NoStreamName);
    assert_eq!(why(manager.unpublish(&name("live"), &name("a"))), gone);
    assert_eq!(why(manager.unsubscribe(&name("live"), &name("a"), PLAYER)), gone);
    assert_eq!(
        why(manager.subscribe(&name("live"), &name("a"), PLAYER)),
        Some(ChannelErrorValue::NoAppOrStreamName)
    );
    assert_eq!(
        why(manager.unpublish(&name("other"), &name("a"))),
        Some(ChannelErrorValue::NoAppName)
    );
    published(&mut manager, "live", "a");
}

#[test]
fn streams_are_independent() {
    let mut manager = manager();
    let mut first = published(&mut manager, "live", "a");
    let mut second = published(&mut manager, "live", "b");
    assert!(manager.subscribe(&name("live"), &name("a"), PLAYER).is_ok());
    assert!(manager.unpublish(&name("live"), &name("a")).is_ok());
    assert!(second.event_consumer.try_recv().is_err());
    assert!(first.event_consumer.try_recv().is_ok());
    assert!(manager.unsubscribe(&name("live"), &name("b"), PLAYER).is_ok());
    assert!(second.event_consumer.try_recv().is_ok());
}

#[test]
fn a_stream_whose_transmitter_is_gone_is_stuck() {
    let mut manager = manager();
    drop(published(&mut manager, "live", "a"));
    let refused = Some(ChannelErrorValue::SendError);
    for _ in 0..2 {
        assert_eq!(why(manager.unpublish(&name("live"), &name("a"))), refused);
        assert_eq!(why(manager.subscribe(&name("live"), &name("a"), PLAYER)), refused);
        assert_eq!(why(manager.unsubscribe(&name("live"), &name("a"), PLAYER)), refused);
        assert_eq!(
            why(manager.publish(&name("live"), &name("a"))),
            Some(ChannelErrorValue::Exists)
        );
    }
}

#[test]
fn a_stream_is_closed_only_if_its_transmitter_was_told() {
    let mut manager = manager();
    let _transmitter = published(&mut manager, "live", "a");
    assert_eq!(
        why(manager.close_stream(&name("live"), &name("a"), false)),
        Some(ChannelErrorValue::SendError)
    );
    assert!(manager.unsubscribe(&name("live"), &name("a"), PLAYER).is_ok());
    assert!(manager.close_stream(&name("live"), &name("a"), true).is_ok());
    assert_eq!(
        why(manager.unsubscribe(&name("live"), &name("a"), PLAYER)),
        Some(ChannelErrorValue::NoStreamName)
    );
}

#[test]
fn a_delivery_fails_if_the_offer_was_not_taken() {
    assert!(delivery(true).is_ok());
    assert_eq!(why(delivery(false)), Some(ChannelErrorValue::SendError));
}

#[test]
fn statistics_are_asked_of_every_stream() {
    let mut manager = manager();
    let mut transmitters = vec![
        published(&mut manager, "live", "a"),
        published(&mut manager, "live", "b"),
        published(&mut manager, "other", "a"),
    ];
    let _removed = published(&mut manager, "live", "c");
    assert!(manager.unpublish(&name("live"), &name("c")).is_ok());
    let (data_sender, mut data) = mpsc::unbounded_channel();
    let (size_sender, mut size) = oneshot::channel();
    assert!(manager.api_statistic(data_sender, size_sender).result.is_ok());
    assert_eq!(size.try_recv().unwrap(), 3);
    for transmitter in transmitters.iter_mut() {
        match transmitter.event_consumer.try_recv().unwrap() {
            TransmitterEvent::Api { sender } => {
                sender.send(AvStatistic { report: name("report") }).unwrap()
            }
            event => panic!("{:?}", event),
        }
        assert!(transmitter.event_consumer.try_recv().is_err());
        assert_eq!(data.try_recv().unwrap().report, "report");
    }
}

#[test]
fn statistics_of_no_stream() {
    let mut manager = manager();
    let (data_sender, _data) = mpsc::unbounded_channel();
    let (size_sender, mut size) = oneshot::channel();
    assert!(manager.api_statistic(data_sender, size_sender).result.is_ok());
    assert_eq!(size.try_recv().unwrap(), 0);
}

#[test]
fn a_transmitter_that_is_gone_puts_an_end_to_the_statistics() {
    let mut manager = manager();
    drop(published(&mut manager, "live", "a"));
    let (data_sender, mut data) = mpsc::unbounded_channel();
    let (size_sender, mut size) = oneshot::channel::<usize>();
    let outcome = manager.api_statistic(data_sender, size_sender);
    assert_eq!(why(outcome.result), Some(ChannelErrorValue::SendError));
    assert!(size.try_recv().is_err());
    assert!(data.try_recv().is_err());
    assert!(outcome.size_sender.unwrap().send(77).is_ok());
    assert_eq!(size.try_recv().unwrap(), 77);
}

#[test]
fn statistics_fail_if_nobody_waits_for_the_number() {
    let mut manager = manager();
    let mut transmitter = published(&mut manager, "live", "a");
    let (data_sender, _data) = mpsc::unbounded_channel();
    let (size_sender, size) = oneshot::channel::<usize>();
    drop(size);
    let outcome = manager.api_statistic(data_sender, size_sender);
    assert_eq!(why(outcome.result), Some(ChannelErrorValue::SendError));
    assert!(outcome.size_sender.is_none());
    assert!(transmitter.event_consumer.try_recv().is_ok());
}

#[test]
fn a_publish_request_is_answered_and_remembered() {
    let mut manager = notified();
    let (event, mut answer) = publish_event("live", "a", 3);
    let outcome = manager.handle_event(event, Some(name("request")));
    assert!(outcome.result.is_ok());
    assert_eq!(outcome.notification, told(NotificationKind::Publish, "request"));
    let mut transmitter = manager.take_transmitters().remove(0).transmitter;
    answer.try_recv().unwrap().send(packet(2)).unwrap();
    assert_eq!(transmitter.data_consumer.try_recv().unwrap(), packet(2));

    let kicked = manager.handle_event(ChannelEvent::ApiKickClient { id: 3 }, Some(name("kick")));
    assert!(kicked.result.is_ok());
    assert_eq!(kicked.notification, told(NotificationKind::UnPublish, "kick"));
    assert!(matches!(transmitter.event_consumer.try_recv(), Ok(TransmitterEvent::UnPublish {})));
    assert_eq!(
        why(manager.unpublish(&name("live"), &name("a"))),
        Some(ChannelErrorValue::NoStreamName)
    );
}

#[test]
fn a_refused_publish_request_is_neither_answered_nor_remembered() {
    let mut manager = notified();
    let mut transmitter = published(&mut manager, "live", "a");
    let (event, mut answer) = publish_event("live", "a", 4);
    let outcome = manager.handle_event(event, None);
    assert_eq!(why(outcome.result), Some(ChannelErrorValue::Exists));
    assert_eq!(outcome.notification, None);
    assert!(matches!(answer.try_recv(), Err(oneshot::error::TryRecvError::Empty)));
    assert!(matches!(outcome.left_over, Some(Leftover::PublishRequest { .. })));
    drop(outcome.left_over);
    assert!(matches!(answer.try_recv(), Err(oneshot::error::TryRecvError::Closed)));
    assert!(matches!(manager.api_kick_off_client(4), Ok(None)));
    assert!(transmitter.event_consumer.try_recv().is_err());
}

#[test]
fn a_subscribe_request_is_answered_and_remembered() {
    let mut manager = notified();
    let mut transmitter = published(&mut manager, "live", "a");
    let (event, mut answer) = subscribe_event("live", "a", PLAYER);
    let outcome = manager.handle_event(event, Some(name("request")));
    assert!(outcome.result.is_ok());
    assert_eq!(outcome.notification, told(NotificationKind::Play, "request"));
    let mut consumer = answer.try_recv().unwrap();
    match transmitter.event_consumer.try_recv().unwrap() {
        TransmitterEvent::Subscribe { producer, .. } => producer.send(packet(6)).unwrap(),
        event => panic!("{:?}", event),
    }
    assert_eq!(consumer.try_recv().unwrap(), packet(6));

    assert!(matches!(manager.api_kick_off_client(PLAYER.id), Ok(None)));
    match transmitter.event_consumer.try_recv().unwrap() {
        TransmitterEvent::UnSubscribe { info } => assert_eq!(info, PLAYER),
        event => panic!("{:?}", event),
    }
    // The player stays known, so that it can be thrown out again.
    assert!(matches!(manager.api_kick_off_client(PLAYER.id), Ok(None)));
    assert!(transmitter.event_consumer.try_recv().is_ok());
}

#[test]
fn a_refused_subscribe_request_is_neither_answered_nor_remembered() {
    let mut manager = notified();
    let (event, mut answer) = subscribe_event("live", "a", PLAYER);
    let outcome = manager.handle_event(event, None);
    assert_eq!(why(outcome.result), Some(ChannelErrorValue::NoAppOrStreamName));
    assert_eq!(outcome.notification, None);
    assert!(matches!(answer.try_recv(), Err(oneshot::error::TryRecvError::Empty)));
    assert!(matches!(outcome.left_over, Some(Leftover::SubscribeRequest { .. })));
    drop(outcome.left_over);
    assert!(matches!(answer.try_recv(), Err(oneshot::error::TryRecvError::Closed)));
    let mut transmitter = published(&mut manager, "live", "a");
    assert!(matches!(manager.api_kick_off_client(PLAYER.id), Ok(None)));
    assert!(transmitter.event_consumer.try_recv().is_err());
}

#[test]
fn packets_reach_every_player_of_their_stream_and_no_other() {
    let mut manager = manager();
    let streams = [("live", "a"), ("live", "b"), ("other", "a")];
    let mut publishers = Vec::new();
    let mut transmitters = Vec::new();
    let mut players = Vec::new();
    for (app, stream) in streams {
        publishers.push(manager.publish(&name(app), &name(stream)).unwrap());
        transmitters.push(manager.take_transmitters().remove(0).transmitter);
        for info in [PLAYER, OTHER] {
            players.push(manager.subscribe(&name(app), &name(stream), info).unwrap());
        }
    }
    for transmitter in transmitters.iter_mut() {
        while let Ok(event) = transmitter.event_consumer.try_recv() {
            if let TransmitterAction::Replay { producer, info } = transmitter.handle_event(event) {
                let cached =
                    CachedMedia { metadata: None, audio_seq: None, video_seq: None, gops: None };
                assert!(transmitter.subscribe(producer, info, cached).unwrap().is_none());
            }
        }
    }
    for (i, publisher) in publishers.iter().enumerate() {
        publisher.send(packet(i as u8)).unwrap();
    }
    for transmitter in transmitters.iter_mut() {
        let data = transmitter.data_consumer.try_recv().unwrap();
        assert!(transmitter.data_consumer.try_recv().is_err());
        assert!(transmitter.handle_data(data, Ok(())).unwrap().is_empty());
    }
    for (i, player) in players.iter_mut().enumerate() {
        assert_eq!(player.try_recv().unwrap(), packet((i / 2) as u8));
        assert!(player.try_recv().is_err());
    }
}

/// What a run of requests comes to, apart from what is notified.
fn run_of_requests(mut manager: ChannelsManager<&'static str>) -> Vec<Option<ChannelErrorValue>> {
    manager.set_rtmp_pull_enabled(true);
    let mut client = manager.get_client_event_consumer();
    let mut results = Vec::new();
    let (publish, mut producer) = publish_event("live", "a", 3);
    let (again, mut refused) = publish_event("live", "a", 4);
    let (subscribe, mut consumer) = subscribe_event("live", "a", PLAYER);
    let (pull, mut missing) = subscribe_event("live", "b", OTHER);
    let kick = ChannelEvent::ApiKickClient { id: 3 };
    let unpublish = ChannelEvent::UnPublish {
        app_name: name("live"),
        stream_name: name("a"),
        info: PublisherInfo { id: 3 },
    };
    for event in [publish, again, subscribe, pull, kick, unpublish] {
        results.push(why(manager.handle_event(event, None).result));
    }
    let mut transmitter = manager.take_transmitters().remove(0).transmitter;
    assert!(producer.try_recv().is_ok() && consumer.try_recv().is_ok());
    assert!(refused.try_recv().is_err() && missing.try_recv().is_err());
    assert!(client.try_recv().is_ok() && client.try_recv().is_err());
    let events = &mut transmitter.event_consumer;
    assert!(matches!(events.try_recv(), Ok(TransmitterEvent::Subscribe { .. })));
    assert!(matches!(events.try_recv(), Ok(TransmitterEvent::UnPublish {})));
    assert!(events.try_recv().is_err());
    results
}

#[test]
fn a_notifier_changes_no_result() {
    let results = run_of_requests(manager());
    assert_eq!(
        results,
        vec![
            None,
            Some(ChannelErrorValue::Exists),
            None,
            Some(ChannelErrorValue::NoAppOrStreamName),
            None,
            Some(ChannelErrorValue::NoStreamName),
        ]
    );
    assert_eq!(run_of_requests(notified()), results);
}

#[test]
fn the_handle_of_a_stream_that_is_taken_away_is_left_over() {
    let mut manager = notified();
    let mut transmitter = published(&mut manager, "live", "a");
    let event = ChannelEvent::UnPublish {
        app_name: name("live"),
        stream_name: name("a"),
        info: PublisherInfo { id: 3 },
    };
    let outcome = manager.handle_event(event, None);
    assert!(outcome.result.is_ok());
    match outcome.left_over {
        Some(Leftover::Stream { producer }) => {
            assert!(matches!(
                transmitter.event_consumer.try_recv(),
                Ok(TransmitterEvent::UnPublish {})
            ));
            producer.send(TransmitterEvent::UnSubscribe { info: PLAYER }).unwrap();
            assert!(transmitter.event_consumer.try_recv().is_ok());
        }
        left_over => panic!("{:?}", left_over),
    }
}

#[test]
fn a_client_that_cannot_be_thrown_out_is_reported() {
    let mut manager = notified();
    let (event, _answer) = publish_event("live", "a", 3);
    manager.handle_event(event, None);
    drop(manager.take_transmitters());
    let outcome = manager.handle_event(ChannelEvent::ApiKickClient { id: 3 }, None);
    assert_eq!(why(outcome.result), Some(ChannelErrorValue::SendError));
    assert!(outcome.left_over.is_none());
    assert_eq!(outcome.notification, told(NotificationKind::UnPublish, "empty body"));
}

#[test]
fn a_statistics_request_that_a_stream_refuses_leaves_the_number_untold() {
    let mut manager = manager();
    drop(published(&mut manager, "live", "a"));
    let (data_sender, mut data) = mpsc::unbounded_channel();
    let (size_sender, mut size) = oneshot::channel::<usize>();
    let outcome: EventOutcome =
        manager.handle_event(ChannelEvent::ApiStatistic { data_sender, size_sender }, None);
    assert_eq!(why(outcome.result), Some(ChannelErrorValue::SendError));
    assert!(matches!(size.try_recv(), Err(oneshot::error::TryRecvError::Empty)));
    assert!(matches!(data.try_recv(), Err(mpsc::error::TryRecvError::Empty)));
    assert!(matches!(outcome.left_over, Some(Leftover::Statistic { size_sender: Some(_), .. })));
}

#[test]
fn an_answer_that_nobody_waits_for_changes_nothing() {
    let mut manager = notified();
    let (event, answer) = publish_event("live", "a", 3);
    drop(answer);
    let outcome = manager.handle_event(event, None);
    assert!(outcome.result.is_ok());
    let mut transmitter = manager.take_transmitters().remove(0).transmitter;
    assert!(transmitter.data_consumer.try_recv().is_err());
    match outcome.left_over {
        Some(Leftover::Publisher { producer }) => producer.send(packet(4)).unwrap(),
        left_over => panic!("{:?}", left_over),
    }
    assert_eq!(transmitter.data_consumer.try_recv().unwrap(), packet(4));
    let (event, answer) = subscribe_event("live", "a", PLAYER);
    drop(answer);
    assert!(manager.handle_event(event, None).notification.is_some());
}

#[test]
fn unpublishing_is_notified_of_in_any_case() {
    let mut manager = notified();
    let event = ChannelEvent::UnPublish {
        app_name: name("live"),
        stream_name: name("a"),
        info: PublisherInfo { id: 3 },
    };
    let outcome = manager.handle_event(event, None);
    assert_eq!(why(outcome.result), Some(ChannelErrorValue::NoAppName));
    assert_eq!(outcome.notification, told(NotificationKind::UnPublish, "empty body"));
    let outcome = manager.handle_event(ChannelEvent::ApiKickClient { id: 99 }, None);
    assert!(outcome.result.is_ok());
    assert_eq!(outcome.notification, told(NotificationKind::UnPublish, "empty body"));
}

#[test]
fn leaving_is_notified_of_only_if_it_went_through() {
    let mut manager = notified();
    let leave = || ChannelEvent::UnSubscribe {
        app_name: name("live"),
        stream_name: name("a"),
        info: PLAYER,
    };
    let outcome = manager.handle_event(leave(), Some(name("request")));
    assert_eq!(why(outcome.result), Some(ChannelErrorValue::NoAppName));
    assert_eq!(outcome.notification, None);
    let _transmitter = published(&mut manager, "live", "a");
    let outcome = manager.handle_event(leave(), Some(name("request")));
    assert!(outcome.result.is_ok());
    assert_eq!(outcome.notification, told(NotificationKind::Stop, "request"));
}

#[test]
fn a_statistics_request_is_not_notified_of() {
    let mut manager = notified();
    let (data_sender, _data) = mpsc::unbounded_channel();
    let (size_sender, mut size) = oneshot::channel();
    let outcome =
        manager.handle_event(ChannelEvent::ApiStatistic { data_sender, size_sender }, None);
    assert!(outcome.result.is_ok());
    assert_eq!(outcome.notification, None);
    assert!(matches!(outcome.left_over, Some(Leftover::Statistic { size_sender: None, .. })));
    assert_eq!(size.try_recv().unwrap(), 0);
}

#[test]
fn without_a_notifier_nobody_is_notified() {
    let mut manager = manager();
    let (event, _answer) = publish_event("live", "a", 3);
    assert_eq!(manager.handle_event(event, None).notification, None);
    let kick = ChannelEvent::ApiKickClient { id: 3 };
    assert_eq!(manager.handle_event(kick, None).notification, None);
}

#[test]
fn requests_leave_the_settings_alone() {
    let mut manager = manager();
    manager.set_rtmp_gop_num(6);
    manager.set_rtmp_pull_enabled(true);
    let mut client = manager.get_client_event_consumer();
    let (event, _answer) = publish_event("live", "a", 3);
    manager.handle_event(event, None);
    let (event, _answer) = subscribe_event("live", "missing", PLAYER);
    manager.handle_event(event, None);
    assert!(client.try_recv().is_ok());
    assert_eq!(manager.take_transmitters().len(), 1);
    assert_eq!(published(&mut manager, "live", "b").cache.gop_num, 6);
    assert!(client.try_recv().is_err());
}

#[test]
fn a_transmitter_hears_of_everything_in_order() {
    let mut manager = manager();
    let mut transmitter = published(&mut manager, "live", "a");
    assert!(manager.subscribe(&name("live"), &name("a"), PLAYER).is_ok());
    assert!(manager.unsubscribe(&name("live"), &name("a"), PLAYER).is_ok());
    let (data_sender, _data) = mpsc::unbounded_channel();
    let (size_sender, _size) = oneshot::channel();
    assert!(manager.api_statistic(data_sender, size_sender).result.is_ok());
    assert!(manager.unpublish(&name("live"), &name("a")).is_ok());
    let events = &mut transmitter.event_consumer;
    assert!(matches!(events.try_recv(), Ok(TransmitterEvent::Subscribe { .. })));
    assert!(matches!(events.try_recv(), Ok(TransmitterEvent::UnSubscribe { .. })));
    assert!(matches!(events.try_recv(), Ok(TransmitterEvent::Api { .. })));
    assert!(matches!(events.try_recv(), Ok(TransmitterEvent::UnPublish {})));
    assert!(events.try_recv().is_err());
}

#[test]
fn requests_arrive_where_the_manager_listens() {
    let mut manager = manager();
    let producer = manager.get_channel_event_producer();
    producer.send(ChannelEvent::ApiKickClient { id: 12 }).unwrap();
    match manager.channel_event_consumer().try_recv().unwrap() {
        ChannelEvent::ApiKickClient { id } => assert_eq!(id, 12),
        event => panic!("{:?}", event),
    }
}

#[test]
fn a_request_that_cannot_be_serialized_has_an_empty_body() {
    assert_eq!(notification_body(Some(name("{}"))), "{}");
    assert_eq!(notification_body(None), "empty body");
}

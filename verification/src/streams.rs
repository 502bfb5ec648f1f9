//! The published streams, by application and name.

use crate::define::{
    AvStatisticSender, TransmitterEvent, TransmitterEventProducer, TransmitterEventView,
};
use crate::errors::{ChannelError, ChannelErrorValue};
use crate::links::{
    clone_statistic_sender, data_channel, event_channel, event_offers, send_event, statistic_channel,
    statistic_clones, statistic_offers, Offer,
};
use crate::name_map::NameMap;
use vstd::prelude::*;

verus! {

/// The published streams: by application and stream name, the handle on the transmitter.
pub type Streams = Map<Seq<char>, Map<Seq<char>, TransmitterEventProducer>>;

/// Whether a stream is published.
pub open spec fn has_stream(streams: Streams, app: Seq<char>, stream: Seq<char>) -> bool {
    streams.contains_key(app) && streams[app].contains_key(stream)
}

/// The streams, with one more or with another handle for one of them.
pub open spec fn with_stream(
    streams: Streams,
    app: Seq<char>,
    stream: Seq<char>,
    producer: TransmitterEventProducer,
) -> Streams {
    if streams.contains_key(app) {
        streams.insert(app, streams[app].insert(stream, producer))
    } else {
        streams.insert(app, Map::empty().insert(stream, producer))
    }
}

/// The streams without one of them. Its application stays known.
pub open spec fn without_stream(streams: Streams, app: Seq<char>, stream: Seq<char>) -> Streams {
    streams.insert(app, streams[app].remove(stream))
}

/// The names of the published streams.
pub open spec fn stream_names(streams: Streams) -> Set<(Seq<char>, Seq<char>)> {
    Set::new(|name: (Seq<char>, Seq<char>)| has_stream(streams, name.0, name.1))
}

/// The number of published streams.
pub open spec fn stream_count(streams: Streams) -> nat {
    stream_names(streams).len()
}

/// Whether a handle has ever had an event handed back.
pub open spec fn event_refused(producer: TransmitterEventProducer) -> bool {
    exists|i: int| 0 <= i < event_offers(producer).len() && !(#[trigger] event_offers(producer)[i]).taken
}

/// `post` is the handle `pre` after an event has been offered through it once. A handle that
/// has had an event handed back does not get another one through.
pub open spec fn event_offered(
    pre: TransmitterEventProducer,
    post: TransmitterEventProducer,
    event: TransmitterEventView,
    taken: bool,
) -> bool {
    &&& event_channel(post) == event_channel(pre)
    &&& event_offers(post) == event_offers(pre).push(Offer { message: event, taken })
    &&& event_refused(pre) ==> !taken
}

/// The channels of the streams, and those that their transmitters were told to send on, were
/// opened before the channel with this number.
pub open spec fn all_before(streams: Streams, channel: int) -> bool {
    forall|app: Seq<char>, stream: Seq<char>| #[trigger]
        has_stream(streams, app, stream) ==> told_before(streams[app][stream], channel)
}

/// The channel of a transmitter, and those that it was told to send on, were opened before the
/// channel with this number.
pub open spec fn told_before(producer: TransmitterEventProducer, channel: int) -> bool {
    &&& event_channel(producer) < channel
    &&& forall|i: int|
        0 <= i < event_offers(producer).len() ==> ((#[trigger] event_offers(producer)[i]).message matches
            TransmitterEventView::Subscribe { producer: data, .. } ==> data_channel(data) < channel)
}

/// Why a stream is not found.
pub open spec fn missing(streams: Streams, app: Seq<char>) -> ChannelErrorValue {
    if streams.contains_key(app) {
        ChannelErrorValue::NoStreamName
    } else {
        ChannelErrorValue::NoAppName
    }
}

/// `post` is the handle `pre`, or that handle after an event was offered through it and taken.
pub open spec fn kept_or_took(
    pre: TransmitterEventProducer,
    post: TransmitterEventProducer,
    event: TransmitterEventView,
) -> bool {
    post == pre || event_offered(pre, post, event, true)
}

/// The same streams are published under the same names.
pub open spec fn same_names(pre: Streams, post: Streams) -> bool {
    &&& post.dom() == pre.dom()
    &&& forall|app: Seq<char>| #[trigger] pre.contains_key(app) ==> post[app].dom() == pre[app].dom()
}

/// Every stream has taken an event that was offered to it once.
pub open spec fn all_took(pre: Streams, post: Streams, event: TransmitterEventView) -> bool {
    &&& same_names(pre, post)
    &&& forall|app: Seq<char>, stream: Seq<char>| #[trigger]
        has_stream(pre, app, stream) ==> event_offered(pre[app][stream], post[app][stream], event, true)
}

/// One stream has handed an event back, and it was not offered to any other after that: the
/// others have taken it, or it was not offered to them.
pub open spec fn one_refused(pre: Streams, post: Streams, event: TransmitterEventView) -> bool {
    &&& same_names(pre, post)
    &&& exists|app: Seq<char>, stream: Seq<char>| #[trigger]
        has_stream(pre, app, stream) && event_offered(pre[app][stream], post[app][stream], event, false) && (
        forall|other_app: Seq<char>, other: Seq<char>| #[trigger]
            has_stream(pre, other_app, other) && (other_app, other) != (app, stream) ==> kept_or_took(
                pre[other_app][other],
                post[other_app][other],
                event,
            ))
}

/// The event that asks a stream for its statistics: it brings a handle on the channel of
/// `sender` that nothing has been done with.
pub open spec fn statistic_request(sender: AvStatisticSender) -> TransmitterEventView {
    TransmitterEventView::Api { channel: statistic_channel(sender), offers: Seq::empty(), clones: 0 }
}

/// The names of the streams whose handles were used.
pub open spec fn asked(pre: Streams, post: Streams) -> Set<(Seq<char>, Seq<char>)> {
    Set::new(
        |name: (Seq<char>, Seq<char>)|
            has_stream(pre, name.0, name.1) && post[name.0][name.1] != pre[name.0][name.1],
    )
}

/// `post` is the handle `pre` after so many other handles have been made from it.
pub open spec fn multiplied(pre: AvStatisticSender, post: AvStatisticSender, count: int) -> bool {
    &&& statistic_channel(post) == statistic_channel(pre)
    &&& statistic_offers(post) == statistic_offers(pre)
    &&& statistic_clones(post) == statistic_clones(pre) + count
}

/// The names among those of one application whose handles were used.
spec fn asked_in(
    pre: Map<Seq<char>, TransmitterEventProducer>,
    post: Map<Seq<char>, TransmitterEventProducer>,
) -> Set<Seq<char>> {
    Set::new(|stream: Seq<char>| pre.contains_key(stream) && post[stream] != pre[stream])
}

/// The names of the streams of one application.
spec fn names_of(app: Seq<char>, names: Set<Seq<char>>) -> Set<(Seq<char>, Seq<char>)> {
    names.map(|stream: Seq<char>| (app, stream))
}

/// An application has as many stream names as it has streams.
proof fn lemma_names_of(app: Seq<char>, names: Set<Seq<char>>)
    requires
        names.finite(),
    ensures
        names_of(app, names).finite(),
        names_of(app, names).len() == names.len(),
        forall|name: (Seq<char>, Seq<char>)| #[trigger]
            names_of(app, names).contains(name) <==> name.0 == app && names.contains(name.1),
{
    let pair = |stream: Seq<char>| (app, stream);
    vstd::set_lib::lemma_map_size(names, names_of(app, names), pair);
    assert forall|name: (Seq<char>, Seq<char>)| name.0 == app && names.contains(name.1) implies #[trigger] names_of(
        app,
        names,
    ).contains(name) by {
        assert(pair(name.1) == name);
    }
}

/// Finitely many applications with finitely many streams each have finitely many streams.
proof fn lemma_stream_names_finite(streams: Streams)
    requires
        streams.dom().finite(),
        forall|app: Seq<char>| #[trigger] streams.contains_key(app) ==> streams[app].dom().finite(),
    ensures
        stream_names(streams).finite(),
    decreases streams.dom().len(),
{
    if streams.dom().len() == 0 {
        assert(stream_names(streams) =~= Set::empty());
    } else {
        let app = streams.dom().choose();
        assert(streams.contains_key(app));
        let rest = streams.remove(app);
        assert forall|other: Seq<char>| #[trigger] rest.contains_key(other) implies rest[other].dom().finite() by {
            assert(streams.contains_key(other));
        }
        lemma_stream_names_finite(rest);
        lemma_names_of(app, streams[app].dom());
        assert(stream_names(streams) =~= stream_names(rest).union(names_of(app, streams[app].dom())));
    }
}

/// A handle that an event was offered through is not what it was.
proof fn lemma_offered_differs(
    pre: TransmitterEventProducer,
    post: TransmitterEventProducer,
    event: TransmitterEventView,
    taken: bool,
)
    requires
        event_offered(pre, post, event, taken),
    ensures
        post != pre,
{
    assert(event_offers(post).len() != event_offers(pre).len());
}

/// If the streams up to a place were asked, and no other, then as many were asked.
proof fn lemma_asked_in(
    pre: Map<Seq<char>, TransmitterEventProducer>,
    post: Map<Seq<char>, TransmitterEventProducer>,
    names: Seq<Seq<char>>,
    count: int,
)
    requires
        names.no_duplicates(),
        names.to_set() == pre.dom(),
        0 <= count <= names.len(),
        forall|j: int|
            0 <= j < count ==> event_offers(post[#[trigger] names[j]]).len() == event_offers(pre[names[j]]).len() + 1,
        forall|j: int| count <= j < names.len() ==> post[#[trigger] names[j]] == pre[names[j]],
    ensures
        asked_in(pre, post) == names.take(count).to_set(),
        asked_in(pre, post).finite(),
        asked_in(pre, post).len() == count,
{
    let walked = names.take(count);
    assert forall|stream: Seq<char>| asked_in(pre, post).contains(stream) <==> walked.to_set().contains(stream) by {
        if pre.contains_key(stream) {
            assert(names.to_set().contains(stream));
            let j = choose|j: int| 0 <= j < names.len() && names[j] == stream;
            assert(names[j] == stream);
            if j < count {
                assert(walked[j] == stream);
            }
            if walked.contains(stream) {
                let k = choose|k: int| 0 <= k < walked.len() && walked[k] == stream;
                assert(names[k] == names[j]);
            }
        }
        if walked.contains(stream) {
            let k = choose|k: int| 0 <= k < walked.len() && walked[k] == stream;
            assert(names[k] == stream);
            assert(names.to_set().contains(stream));
        }
    }
    assert(asked_in(pre, post) =~= walked.to_set());
    walked.unique_seq_to_set();
}

/// The table of the published streams.
pub struct StreamTable {
    apps: NameMap<NameMap<TransmitterEventProducer>>,
}

impl StreamTable {
    /// No name occurs twice.
    pub closed spec fn wf(self) -> bool {
        &&& self.apps.wf()
        &&& forall|app: Seq<char>| #[trigger] self.apps@.contains_key(app) ==> self.apps@[app].wf()
    }

    /// The handles by name.
    pub closed spec fn view(&self) -> Streams {
        self.apps@.map_values(|streams: NameMap<TransmitterEventProducer>| streams@)
    }

    /// An empty table.
    pub fn new() -> (r: Self)
        ensures
            r.wf(),
            r@ == Streams::empty(),
    {
        let r = StreamTable { apps: NameMap::new() };
        assert(r@ =~= Streams::empty());
        r
    }

    /// Whether a stream is published.
    pub fn contains(&self, app_name: &String, stream_name: &String) -> (r: bool)
        requires
            self.wf(),
        ensures
            r == has_stream(self@, app_name@, stream_name@),
    {
        match self.apps.get(app_name) {
            Some(streams) => streams.contains_key(stream_name),
            None => false,
        }
    }

    /// Adds a stream.
    pub fn insert(&mut self, app_name: &String, stream_name: &String, producer: TransmitterEventProducer)
        requires
            old(self).wf(),
        ensures
            final(self).wf(),
            final(self)@ == with_stream(old(self)@, app_name@, stream_name@, producer),
    {
        let ghost pre = self@;
        match self.apps.get_mut(app_name) {
            Some(streams) => {
                streams.insert(stream_name.clone(), producer);
            },
            None => {
                let mut streams = NameMap::new();
                streams.insert(stream_name.clone(), producer);
                self.apps.insert(app_name.clone(), streams);
            },
        }
        assert(self@ =~= with_stream(pre, app_name@, stream_name@, producer));
    }

    /// Takes a stream out, and hands out its handle. Its application stays known.
    pub fn remove(&mut self, app_name: &String, stream_name: &String) -> (r: Option<TransmitterEventProducer>)
        requires
            old(self).wf(),
            has_stream(old(self)@, app_name@, stream_name@),
        ensures
            final(self).wf(),
            final(self)@ == without_stream(old(self)@, app_name@, stream_name@),
            r == Some(old(self)@[app_name@][stream_name@]),
    {
        let ghost pre = self@;
        let r = match self.apps.get_mut(app_name) {
            Some(streams) => streams.remove(stream_name),
            None => None,
        };
        assert(self@ =~= without_stream(pre, app_name@, stream_name@));
        r
    }

    /// Offers an event to the transmitter of a stream, and says whether it took it.
    pub fn offer(&mut self, app_name: &String, stream_name: &String, event: TransmitterEvent) -> (r: Result<
        bool,
        ChannelError,
    >)
        requires
            old(self).wf(),
        ensures
            final(self).wf(),
            match r {
                Ok(taken) => {
                    &&& has_stream(old(self)@, app_name@, stream_name@)
                    &&& final(self)@ == with_stream(
                        old(self)@,
                        app_name@,
                        stream_name@,
                        final(self)@[app_name@][stream_name@],
                    )
                    &&& event_offered(
                        old(self)@[app_name@][stream_name@],
                        final(self)@[app_name@][stream_name@],
                        event@,
                        taken,
                    )
                },
                Err(error) => {
                    &&& !has_stream(old(self)@, app_name@, stream_name@)
                    &&& error.value == missing(old(self)@, app_name@)
                    &&& final(self)@ == old(self)@
                },
            },
    {
        let ghost pre = self@;
        let r = match self.apps.get_mut(app_name) {
            Some(streams) => match streams.get_mut(stream_name) {
                Some(producer) => match send_event(producer, event) {
                    Ok(_) => Ok(true),
                    Err(_) => Ok(false),
                },
                None => Err(ChannelError { value: ChannelErrorValue::NoStreamName }),
            },
            None => Err(ChannelError { value: ChannelErrorValue::NoAppName }),
        };
        proof {
            if r is Ok {
                assert(self@ =~= with_stream(pre, app_name@, stream_name@, self@[app_name@][stream_name@]));
            } else {
                assert(self@ =~= pre);
            }
        }
        r
    }

    /// There are finitely many streams.
    pub proof fn lemma_finite(self)
        requires
            self.wf(),
        ensures
            stream_names(self@).finite(),
    {
        self.apps.lemma_names();
        assert(self@.dom() =~= self.apps@.dom());
        assert forall|app: Seq<char>| #[trigger] self@.contains_key(app) implies self@[app].dom().finite() by {
            assert(self.apps@.contains_key(app));
            self.apps@[app].lemma_names();
        }
        lemma_stream_names_finite(self@);
    }

    /// Asks the streams of one application for their statistics, up to the first one whose
    /// transmitter is gone, and counts them.
    fn offer_statistics_in(streams: &mut NameMap<TransmitterEventProducer>, sender: &mut AvStatisticSender) -> (r: Option<
        usize,
    >)
        requires
            old(streams).wf(),
        ensures
            final(streams).wf(),
            final(streams)@.dom() == old(streams)@.dom(),
            asked_in(old(streams)@, final(streams)@).finite(),
            multiplied(*old(sender), *final(sender), asked_in(old(streams)@, final(streams)@).len() as int),
            match r {
                Some(count) => {
                    &&& count == old(streams)@.dom().len()
                    &&& asked_in(old(streams)@, final(streams)@) == old(streams)@.dom()
                    &&& forall|stream: Seq<char>| #[trigger]
                        old(streams)@.contains_key(stream) ==> event_offered(
                            old(streams)@[stream],
                            final(streams)@[stream],
                            statistic_request(*old(sender)),
                            true,
                        )
                },
                None => exists|stream: Seq<char>| #[trigger]
                    old(streams)@.contains_key(stream) && event_offered(
                        old(streams)@[stream],
                        final(streams)@[stream],
                        statistic_request(*old(sender)),
                        false,
                    ) && (forall|other: Seq<char>| #[trigger]
                        old(streams)@.contains_key(other) && other != stream ==> kept_or_took(
                            old(streams)@[other],
                            final(streams)@[other],
                            statistic_request(*old(sender)),
                        )),
            },
    {
        let ghost pre = streams@;
        let ghost event = statistic_request(*sender);
        let ghost names = streams.names();
        proof {
            streams.lemma_names();
        }
        let count = streams.len();
        let mut i: usize = 0;
        while i < count
            invariant
                streams.wf(),
                streams.names() == names,
                names.no_duplicates(),
                names.to_set() == pre.dom(),
                names.len() == count,
                streams@.dom() == pre.dom(),
                i <= count,
                pre == old(streams)@,
                event == statistic_request(*old(sender)),
                multiplied(*old(sender), *sender, i as int),
                forall|j: int|
                    0 <= j < i ==> event_offered(pre[#[trigger] names[j]], streams@[names[j]], event, true),
                forall|j: int| i <= j < count ==> streams@[#[trigger] names[j]] == pre[names[j]],
            decreases count - i,
        {
            let ghost before = streams@;
            let ghost name = names[i as int];
            proof {
                assert(names.to_set().contains(name));
            }
            let request = TransmitterEvent::Api { sender: clone_statistic_sender(sender) };
            assert(request@ == event);
            let sent = send_event(streams.value_at_mut(i), request);
            proof {
                assert(streams@.dom() =~= pre.dom());
            }
            if sent.is_err() {
                proof {
                    assert(pre.contains_key(name) && event_offered(pre[name], streams@[name], event, false));
                    assert forall|other: Seq<char>| #[trigger] pre.contains_key(other) && other != name implies kept_or_took(
                        pre[other],
                        streams@[other],
                        event,
                    ) by {
                        assert(names.to_set().contains(other));
                        let j = choose|j: int| 0 <= j < names.len() && names[j] == other;
                        assert(streams@[names[j]] == before[names[j]]);
                    }
                    lemma_asked_in(pre, streams@, names, i + 1);
                }
                return None;
            }
            i += 1;
        }
        proof {
            assert forall|stream: Seq<char>| #[trigger] pre.contains_key(stream) implies event_offered(
                pre[stream],
                streams@[stream],
                event,
                true,
            ) by {
                assert(names.to_set().contains(stream));
                let j = choose|j: int| 0 <= j < names.len() && names[j] == stream;
                assert(names[j] == stream);
            }
            lemma_asked_in(pre, streams@, names, count as int);
            assert(names.take(count as int) =~= names);
        }
        Some(count)
    }

    /// Asks every stream for its statistics, up to the first one whose transmitter is gone,
    /// and counts the streams. From `sender` one handle is made for each stream that is asked.
    pub fn offer_statistics(&mut self, sender: &mut AvStatisticSender) -> (r: Result<usize, ChannelError>)
        requires
            old(self).wf(),
            stream_count(old(self)@) <= usize::MAX,
        ensures
            final(self).wf(),
            multiplied(*old(sender), *final(sender), asked(old(self)@, final(self)@).len() as int),
            match r {
                Ok(count) => {
                    &&& count == stream_count(old(self)@)
                    &&& all_took(
                        old(self)@,
                        final(self)@,
                        statistic_request(*old(sender)),
                    )
                },
                Err(error) => {
                    &&& error.value == ChannelErrorValue::SendError
                    &&& one_refused(
                        old(self)@,
                        final(self)@,
                        statistic_request(*old(sender)),
                    )
                },
            },
    {
        let ghost pre = self@;
        let ghost event = statistic_request(*sender);
        let ghost apps = self.apps.names();
        let ghost mut done: Set<(Seq<char>, Seq<char>)> = Set::empty();
        let mut count: usize = 0;
        proof {
            self.apps.lemma_names();
            self.lemma_finite();
            assert(self@.dom() =~= self.apps@.dom());
        }
        let app_count = self.apps.len();
        let mut i: usize = 0;
        while i < app_count
            invariant
                self.wf(),
                self.apps.names() == apps,
                apps.len() == app_count,
                apps.no_duplicates(),
                apps.to_set() == pre.dom(),
                i <= app_count,
                same_names(pre, self@),
                done.finite(),
                done.len() == count,
                stream_names(pre).finite(),
                stream_count(pre) <= usize::MAX,
                pre == old(self)@,
                event == statistic_request(*old(sender)),
                multiplied(*old(sender), *sender, count as int),
                forall|name: (Seq<char>, Seq<char>)| #[trigger]
                    done.contains(name) <==> has_stream(pre, name.0, name.1) && apps.take(i as int).contains(name.0),
                forall|app: Seq<char>, stream: Seq<char>| #[trigger]
                    has_stream(pre, app, stream) ==> if done.contains((app, stream)) {
                        event_offered(pre[app][stream], self@[app][stream], event, true)
                    } else {
                        self@[app][stream] == pre[app][stream]
                    },
            decreases app_count - i,
        {
            let ghost before = self@;
            let ghost app = apps[i as int];
            let ghost added = names_of(app, pre[app].dom());
            proof {
                assert(apps.to_set().contains(app));
                assert(self.apps@.contains_key(app));
                self.apps@[app].lemma_names();
                assert(before[app] =~= pre[app]) by {
                    assert forall|stream: Seq<char>| #[trigger] pre[app].contains_key(stream) implies before[app][stream]
                        == pre[app][stream] by {
                        assert(has_stream(pre, app, stream));
                        assert(!done.contains((app, stream)));
                    }
                }
            }
            let some = Self::offer_statistics_in(self.apps.value_at_mut(i), sender);
            proof {
                assert(self@ =~= before.insert(app, self@[app]));
                assert(same_names(pre, self@)) by {
                    assert(self@.dom() =~= pre.dom());
                }
            }
            match some {
                Some(added_count) => {
                    proof {
                        lemma_names_of(app, pre[app].dom());
                        assert(done.disjoint(added)) by {
                            assert forall|name: (Seq<char>, Seq<char>)|
                                !(done.contains(name) && added.contains(name)) by {
                                if done.contains(name) && added.contains(name) {
                                    let j = choose|j: int| 0 <= j < i && apps.take(i as int)[j] == name.0;
                                    assert(apps[j] == apps[i as int]);
                                }
                            }
                        }
                        vstd::set_lib::lemma_set_disjoint_lens(done, added);
                        let walked = apps.take(i + 1);
                        assert(walked =~= apps.take(i as int).push(app));
                        assert forall|name: (Seq<char>, Seq<char>)| #[trigger]
                            (done + added).contains(name) <==> has_stream(pre, name.0, name.1) && walked.contains(
                                name.0,
                            ) by {
                            if apps.take(i as int).contains(name.0) {
                                let j = choose|j: int| 0 <= j < i && apps.take(i as int)[j] == name.0;
                                assert(walked[j] == name.0);
                            }
                            assert(walked[i as int] == app);
                            if walked.contains(name.0) {
                                let j = choose|j: int| 0 <= j < i + 1 && walked[j] == name.0;
                                if j < i {
                                    assert(apps.take(i as int)[j] == name.0);
                                }
                            }
                        }
                        vstd::set_lib::lemma_len_subset(done + added, stream_names(pre));
                        assert forall|other: Seq<char>, stream: Seq<char>| #[trigger]
                            has_stream(pre, other, stream) implies if (done + added).contains((other, stream)) {
                            event_offered(pre[other][stream], self@[other][stream], event, true)
                        } else {
                            self@[other][stream] == pre[other][stream]
                        } by {
                            assert(done.contains((other, stream)) || !done.contains((other, stream)));
                            assert(added.contains((other, stream)) <==> other == app);
                            if other == app {
                                assert(pre[app].contains_key(stream));
                                assert(before[app][stream] == pre[app][stream]);
                            } else {
                                assert(self@[other] == before[other]);
                            }
                        }
                        done = done + added;
                    }
                    count += added_count;
                },
                None => {
                    proof {
                        let stream = choose|stream: Seq<char>| #[trigger]
                            pre[app].contains_key(stream) && event_offered(
                                pre[app][stream],
                                self@[app][stream],
                                event,
                                false,
                            ) && (forall|other: Seq<char>| #[trigger]
                                pre[app].contains_key(other) && other != stream ==> kept_or_took(
                                    pre[app][other],
                                    self@[app][other],
                                    event,
                                ));
                        assert(has_stream(pre, app, stream));
                        assert forall|other_app: Seq<char>, other: Seq<char>| #[trigger]
                            has_stream(pre, other_app, other) && (other_app, other) != (app, stream) implies kept_or_took(
                            pre[other_app][other],
                            self@[other_app][other],
                            event,
                        ) by {
                            if other_app == app {
                                assert(pre[app].contains_key(other));
                            } else {
                                assert(self@[other_app] == before[other_app]);
                                assert(done.contains((other_app, other)) || !done.contains((other_app, other)));
                            }
                        }
                        assert(one_refused(pre, self@, event));
                        let used = names_of(app, asked_in(pre[app], self@[app]));
                        lemma_names_of(app, asked_in(pre[app], self@[app]));
                        assert(done.disjoint(used)) by {
                            assert forall|name: (Seq<char>, Seq<char>)| !(done.contains(name) && used.contains(name)) by {
                                if done.contains(name) && used.contains(name) {
                                    let j = choose|j: int| 0 <= j < i && apps.take(i as int)[j] == name.0;
                                    assert(apps[j] == apps[i as int]);
                                }
                            }
                        }
                        vstd::set_lib::lemma_set_disjoint_lens(done, used);
                        assert forall|name: (Seq<char>, Seq<char>)|
                            asked(pre, self@).contains(name) <==> (done + used).contains(name) by {
                            if has_stream(pre, name.0, name.1) {
                                assert(used.contains(name) <==> name.0 == app && self@[app][name.1] != pre[app][name.1]);
                                if name.0 != app {
                                    assert(self@[name.0] == before[name.0]);
                                }
                                assert(done.contains((name.0, name.1)) == done.contains(name));
                                if done.contains(name) {
                                    let j = choose|j: int| 0 <= j < i && apps.take(i as int)[j] == name.0;
                                    assert(apps[j] == name.0);
                                    assert(name.0 != app);
                                    lemma_offered_differs(
                                        pre[name.0][name.1],
                                        self@[name.0][name.1],
                                        event,
                                        true,
                                    );
                                }
                            }
                        }
                        assert(asked(pre, self@) =~= done + used);
                    }
                    return Err(ChannelError { value: ChannelErrorValue::SendError });
                },
            }
            i += 1;
        }
        proof {
            assert(apps.take(app_count as int) =~= apps);
            assert forall|name: (Seq<char>, Seq<char>)| done.contains(name) <==> stream_names(pre).contains(name) by {
                if has_stream(pre, name.0, name.1) {
                    assert(apps.to_set().contains(name.0));
                }
            }
            assert(done =~= stream_names(pre));
            assert(all_took(pre, self@, event)) by {
                assert forall|app: Seq<char>, stream: Seq<char>| #[trigger] has_stream(pre, app, stream) implies event_offered(
                    pre[app][stream],
                    self@[app][stream],
                    event,
                    true,
                ) by {
                    assert(stream_names(pre).contains((app, stream)));
                }
            }
            assert forall|name: (Seq<char>, Seq<char>)|
                asked(pre, self@).contains(name) <==> stream_names(pre).contains(name) by {
                if has_stream(pre, name.0, name.1) {
                    lemma_offered_differs(pre[name.0][name.1], self@[name.0][name.1], event, true);
                }
            }
            assert(asked(pre, self@) =~= stream_names(pre));
        }
        Ok(count)
    }
}

} // verus!

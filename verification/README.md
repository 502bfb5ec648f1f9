# rtmp_channels

Publish/subscribe channels of an RTMP media server, verified with Verus.

* `src/define.rs`, `src/errors.rs`: what travels over the channels, and their errors.
* `src/links.rs`: the channels of tokio, and what is taken for granted of them.
* `src/name_map.rs`, `src/streams.rs`: the table of the published streams.
* `src/transmitter.rs`: the transmitter of one stream, which passes packets on to subscribers.
* `src/manager.rs`: the manager, which answers the requests of the sessions.
* `src/laws.rs`: what holds across several operations.
* `src/netio.rs`: errors of reading from the network.
* `app/`: the tasks that wait for requests and packets and call the library.

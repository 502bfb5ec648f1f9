//! Publish/subscribe channels of an RTMP media server.
//!
//! A publisher hands the audio and video of one stream to a [`transmitter::Transmitter`],
//! which keeps the players of that stream and passes every packet on to them. The
//! [`manager::ChannelsManager`] knows which streams are published, answers the requests
//! of the sessions, and tells the transmitters who comes and goes.

pub mod calls;
pub mod define;
pub mod errors;
pub mod laws;
pub mod links;
pub mod manager;
pub mod name_map;
pub mod netio;
pub mod requests;
pub mod streams;
pub mod transmitter;

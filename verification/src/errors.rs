//! Errors of the channels.

use vstd::prelude::*;

verus! {

/// Why an operation on the channels did not go through.
#[derive(Debug, PartialEq, Eq)]
pub enum ChannelErrorValue {
    /// Nothing has been published under this application name.
    NoAppName,
    /// The application is known, but has no stream of this name.
    NoStreamName,
    /// There is no such stream to subscribe to.
    NoAppOrStreamName,
    /// The stream is published already.
    Exists,
    /// The receiving end of a channel is gone.
    SendError,
    /// A video packet could not be handed to a player.
    SendVideoError,
    /// An audio packet could not be handed to a player.
    SendAudioError,
    /// The media cache could not take a packet.
    CacheError(String),
}

impl Clone for ChannelErrorValue {
    fn clone(&self) -> (r: Self)
        ensures
            r == *self,
    {
        match self {
            ChannelErrorValue::NoAppName => ChannelErrorValue::NoAppName,
            ChannelErrorValue::NoStreamName => ChannelErrorValue::NoStreamName,
            ChannelErrorValue::NoAppOrStreamName => ChannelErrorValue::NoAppOrStreamName,
            ChannelErrorValue::Exists => ChannelErrorValue::Exists,
            ChannelErrorValue::SendError => ChannelErrorValue::SendError,
            ChannelErrorValue::SendVideoError => ChannelErrorValue::SendVideoError,
            ChannelErrorValue::SendAudioError => ChannelErrorValue::SendAudioError,
            ChannelErrorValue::CacheError(message) => ChannelErrorValue::CacheError(message.clone()),
        }
    }
}

/// Error of an operation on the channels.
#[derive(Debug, PartialEq, Eq)]
pub struct ChannelError {
    /// What went wrong.
    pub value: ChannelErrorValue,
}

impl Clone for ChannelError {
    fn clone(&self) -> (r: Self)
        ensures
            r == *self,
    {
        ChannelError { value: self.value.clone() }
    }
}

/// What an offer to a channel comes to for whoever made it.
pub fn delivery(taken: bool) -> (r: Result<(), ChannelError>)
    ensures
        match r {
            Ok(_) => taken,
            Err(error) => !taken && error.value == ChannelErrorValue::SendError,
        },
{
    if taken {
        Ok(())
    } else {
        Err(ChannelError { value: ChannelErrorValue::SendError })
    }
}

} // verus!

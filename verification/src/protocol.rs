//! Wire codec of the control channel.
//!
//! A request and a response are each a single byte on the socket: no length
//! prefix, no payload beyond the code.

use vstd::prelude::*;

verus! {

/// Request code of [`Message::Ping`].
pub const MSG_PING: u8 = 0;
/// Request code of [`Message::Save`].
pub const MSG_SAVE: u8 = 1;
/// Request code of [`Message::Stop`].
pub const MSG_STOP: u8 = 2;

/// Response code of [`ResponseMessage::Success`].
pub const RESPONSE_SUCCESS: u8 = 0;
/// Response code of [`ResponseMessage::UnknownMessage`].
pub const RESPONSE_UNKNOWN_MESSAGE: u8 = 1;
/// Response code of [`ResponseMessage::Failed`].
pub const RESPONSE_FAILED: u8 = 2;

/// A request that a control-channel client can deliver to the daemon.
#[derive(Clone, Copy, Debug, PartialEq, Eq, Structural)]
pub enum Message {
    /// Liveness probe; no side effect.  A successful `Ping` is the singleton
    /// check: it tells a launcher that a daemon already listens.
    Ping,
    /// Flush the record buffer to the store now.
    Save,
    /// Begin a graceful shutdown.
    Stop,
}

/// The outcome the daemon reports for one request.
#[derive(Clone, Copy, Debug, PartialEq, Eq, Structural)]
pub enum ResponseMessage {
    /// The request was handled.
    Success,
    /// The request byte did not decode to a known request.
    UnknownMessage,
    /// The handler ran but errored.
    Failed,
}

impl Message {
    /// The byte that stands for this request on the wire.
    pub open spec fn spec_byte(self) -> u8 {
        match self {
            Message::Ping => MSG_PING,
            Message::Save => MSG_SAVE,
            Message::Stop => MSG_STOP,
        }
    }

    /// Encode the request as its wire byte.
    pub fn as_byte(self) -> (b: u8)
        ensures
            b == self.spec_byte(),
    {
        match self {
            Message::Ping => MSG_PING,
            Message::Save => MSG_SAVE,
            Message::Stop => MSG_STOP,
        }
    }

    /// The request a wire byte decodes to, if any.
    pub open spec fn spec_from_byte(value: u8) -> Result<Message, ()> {
        if value == MSG_PING {
            Ok(Message::Ping)
        } else if value == MSG_SAVE {
            Ok(Message::Save)
        } else if value == MSG_STOP {
            Ok(Message::Stop)
        } else {
            Err(())
        }
    }

    /// Decode a wire byte into a request; every byte above the known codes
    /// is rejected.
    pub fn try_from_byte(value: u8) -> (r: Result<Message, ()>)
        ensures
            r == Message::spec_from_byte(value),
    {
        if value == MSG_PING {
            Ok(Message::Ping)
        } else if value == MSG_SAVE {
            Ok(Message::Save)
        } else if value == MSG_STOP {
            Ok(Message::Stop)
        } else {
            Err(())
        }
    }
}

impl ResponseMessage {
    /// The byte that stands for this response on the wire.
    pub open spec fn spec_byte(self) -> u8 {
        match self {
            ResponseMessage::Success => RESPONSE_SUCCESS,
            ResponseMessage::UnknownMessage => RESPONSE_UNKNOWN_MESSAGE,
            ResponseMessage::Failed => RESPONSE_FAILED,
        }
    }

    /// Encode the response as its wire byte.
    pub fn as_byte(self) -> (b: u8)
        ensures
            b == self.spec_byte(),
    {
        match self {
            ResponseMessage::Success => RESPONSE_SUCCESS,
            ResponseMessage::UnknownMessage => RESPONSE_UNKNOWN_MESSAGE,
            ResponseMessage::Failed => RESPONSE_FAILED,
        }
    }

    /// The response a wire byte decodes to, if any.
    pub open spec fn spec_from_byte(value: u8) -> Result<ResponseMessage, ()> {
        if value == RESPONSE_SUCCESS {
            Ok(ResponseMessage::Success)
        } else if value == RESPONSE_UNKNOWN_MESSAGE {
            Ok(ResponseMessage::UnknownMessage)
        } else if value == RESPONSE_FAILED {
            Ok(ResponseMessage::Failed)
        } else {
            Err(())
        }
    }

    /// Decode a wire byte into a response.
    pub fn try_from_byte(value: u8) -> (r: Result<ResponseMessage, ()>)
        ensures
            r == ResponseMessage::spec_from_byte(value),
    {
        if value == RESPONSE_SUCCESS {
            Ok(ResponseMessage::Success)
        } else if value == RESPONSE_UNKNOWN_MESSAGE {
            Ok(ResponseMessage::UnknownMessage)
        } else if value == RESPONSE_FAILED {
            Ok(ResponseMessage::Failed)
        } else {
            Err(())
        }
    }
}

/// Decoding a request's own wire byte gives the request back: the codec
/// loses nothing.
pub proof fn lemma_message_round_trip(m: Message)
    ensures
        Message::spec_from_byte(m.spec_byte()) == Ok::<Message, ()>(m),
{
}

/// Decoding a response's own wire byte gives the response back.
pub proof fn lemma_response_round_trip(r: ResponseMessage)
    ensures
        ResponseMessage::spec_from_byte(r.spec_byte()) == Ok::<ResponseMessage, ()>(r),
{
}

} // verus!

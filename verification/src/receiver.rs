//! The receiving side: what to read next from the caster and what each
//! read means.

use vstd::prelude::*;
use vstd::string::*;
use crate::endian::u32_from_be;
use crate::frame::{Frame, FrameView, DecodeError, decode_spec};
use crate::wire::{is_close_spec, is_close_sentinel, message_length};

verus! {

/// Where the receiver is in the stream.
#[derive(Debug, Clone, Copy, PartialEq, Eq)]
pub enum ReceiverState {
    /// The next four bytes are a length prefix.
    AwaitingLength,
    /// The next `length` bytes are a payload.
    AwaitingPayload { length: u32 },
    /// The session has ended; nothing more is read.
    Stopped,
}

/// What a completed read gave.
#[derive(Debug, PartialEq, Eq)]
pub enum Received {
    /// A length prefix: the payload is read next.
    Length,
    /// A frame for the handler.
    Frame(Frame),
    /// A payload that is no frame; it is dropped and reading goes on.
    Undecodable(DecodeError),
    /// The caster closed the stream.
    Closed,
    /// Fewer or more bytes than were asked for: the connection has failed.
    Failed,
    /// The session had ended before.
    Ignored,
}

/// The receiver of one session.
pub struct ReceiverClient {
    state: ReceiverState,
}

/// The bytes that a receiver in `state` asks for; `None` once it has stopped.
pub open spec fn wanted_spec(state: ReceiverState) -> Option<nat> {
    match state {
        ReceiverState::AwaitingLength => Some(4nat),
        ReceiverState::AwaitingPayload { length } => Some(length as nat),
        ReceiverState::Stopped => None,
    }
}

/// The state after a read that gave `bytes`.
pub open spec fn after_read(state: ReceiverState, bytes: Seq<u8>) -> ReceiverState {
    match state {
        ReceiverState::Stopped => ReceiverState::Stopped,
        ReceiverState::AwaitingLength => if bytes.len() == 4 {
            ReceiverState::AwaitingPayload { length: u32_from_be(bytes) }
        } else {
            ReceiverState::Stopped
        },
        ReceiverState::AwaitingPayload { length } => if bytes.len() != length || is_close_spec(bytes) {
            ReceiverState::Stopped
        } else {
            ReceiverState::AwaitingLength
        },
    }
}

impl ReceiverClient {
    pub closed spec fn state(&self) -> ReceiverState {
        self.state
    }

    /// A receiver at the start of a stream.
    pub fn new() -> (client: ReceiverClient)
        ensures
            client.state() == ReceiverState::AwaitingLength,
    {
        ReceiverClient { state: ReceiverState::AwaitingLength }
    }

    /// The state, for callers that show or log it.
    pub fn current_state(&self) -> (s: ReceiverState)
        ensures
            s == self.state(),
    {
        self.state
    }

    /// Whether the session is still going.
    pub fn is_running(&self) -> (b: bool)
        ensures
            b == (self.state() != ReceiverState::Stopped),
    {
        match self.state {
            ReceiverState::Stopped => false,
            _ => true,
        }
    }

    /// How many bytes to read next, exactly; `None` once the session has ended.
    pub fn wanted(&self) -> (count: Option<usize>)
        ensures
            count is Some <==> wanted_spec(self.state()) is Some,
            count matches Some(n) ==> wanted_spec(self.state()) == Some(n as nat),
    {
        match self.state {
            ReceiverState::AwaitingLength => Some(4),
            ReceiverState::AwaitingPayload { length } => Some(length as usize),
            ReceiverState::Stopped => None,
        }
    }

    /// Takes the bytes of a completed read.
    ///
    /// A length prefix makes the receiver ask for the payload. A payload of
    /// the announced length is the close sentinel, a frame, or undecodable;
    /// after the last two the receiver asks for the next prefix. Any other
    /// number of bytes ends the session.
    pub fn receive(&mut self, bytes: &[u8]) -> (received: Received)
        ensures
            final(self).state() == after_read(old(self).state(), bytes@),
            match old(self).state() {
                ReceiverState::Stopped => received == Received::Ignored,
                ReceiverState::AwaitingLength => if bytes@.len() == 4 {
                    received == Received::Length
                } else {
                    received == Received::Failed
                },
                ReceiverState::AwaitingPayload { length } => if bytes@.len() != length {
                    received == Received::Failed
                } else if is_close_spec(bytes@) {
                    received == Received::Closed
                } else {
                    match received {
                        Received::Frame(f) => decode_spec(bytes@) == Ok::<FrameView, DecodeError>(f@),
                        Received::Undecodable(e) => decode_spec(bytes@) == Err::<FrameView, DecodeError>(e),
                        _ => false,
                    }
                },
            },
    {
        match self.state {
            ReceiverState::Stopped => Received::Ignored,
            ReceiverState::AwaitingLength => {
                match message_length(bytes) {
                    Some(length) => {
                        self.state = ReceiverState::AwaitingPayload { length };
                        Received::Length
                    },
                    None => {
                        self.state = ReceiverState::Stopped;
                        Received::Failed
                    },
                }
            },
            ReceiverState::AwaitingPayload { length } => {
                if bytes.len() != length as usize {
                    self.state = ReceiverState::Stopped;
                    Received::Failed
                } else if is_close_sentinel(bytes) {
                    self.state = ReceiverState::Stopped;
                    Received::Closed
                } else {
                    self.state = ReceiverState::AwaitingLength;
                    match Frame::decode(bytes) {
                        Ok(frame) => Received::Frame(frame),
                        Err(e) => Received::Undecodable(e),
                    }
                }
            },
        }
    }

    /// The read failed or came up short: the session ends.
    pub fn read_failed(&mut self)
        ensures
            final(self).state() == ReceiverState::Stopped,
    {
        self.state = ReceiverState::Stopped;
    }

    /// The stop signal was sent: the session ends.
    pub fn stop(&mut self)
        ensures
            final(self).state() == ReceiverState::Stopped,
    {
        self.state = ReceiverState::Stopped;
    }
}

/// A receiver that has stopped asks for nothing and stays stopped,
/// whatever arrives.
pub proof fn lemma_stopped_stays_stopped(bytes: Seq<u8>)
    ensures
        wanted_spec(ReceiverState::Stopped) is None,
        after_read(ReceiverState::Stopped, bytes) == ReceiverState::Stopped,
{
}

/// A whole message, read as the receiver asks for it, brings the receiver
/// back to where it awaits a length: the prefix announces the payload's
/// length, and a payload of that length that is not the close sentinel is
/// taken.
pub proof fn lemma_message_is_read(payload: Seq<u8>)
    requires
        payload.len() <= u32::MAX,
        !is_close_spec(payload),
    ensures
        wanted_spec(ReceiverState::AwaitingLength) == Some(4nat),
        after_read(ReceiverState::AwaitingLength, crate::endian::be_bytes_u32(payload.len() as u32))
            == (ReceiverState::AwaitingPayload { length: payload.len() as u32 }),
        wanted_spec(ReceiverState::AwaitingPayload { length: payload.len() as u32 }) == Some(payload.len()),
        after_read(ReceiverState::AwaitingPayload { length: payload.len() as u32 }, payload)
            == ReceiverState::AwaitingLength,
{
    crate::endian::lemma_u32_be_round_trip(payload.len() as u32);
}

/// The address to connect to for a caster at `host`: the host, a colon and the port.
pub fn caster_endpoint(host: &str) -> (endpoint: String)
    ensures
        endpoint@ == host@ + ":8080"@,
{
    let mut endpoint = String::from_str(host);
    endpoint.append(":8080");
    endpoint
}

} // verus!

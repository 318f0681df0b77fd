//! One request, one correlated reply, over the connection to the driver.
//!
//! Sending and waiting are done by the caller; this module prepares the
//! request, and turns what came of the exchange into a reply or an error.
use vstd::prelude::*;

use crate::codec::{
    decode, encode, encoded_command, expected_reply, parse_reply, command_fits, CommandView,
    DecodeError, Reply, RuleCommand,
};
use crate::connection::{ConnState, ConnectError, ConnectionManager, connect_result, released_handle, state_after_connect};

verus! {

/// How long to wait for the driver's reply, in milliseconds.
pub const DEFAULT_TIMEOUT_MS: u32 = 5000;

/// Why an exchange with the driver gave no usable reply.
#[derive(Clone, Copy, Debug, PartialEq, Eq, Structural)]
pub enum ChannelError {
    /// No reply came in time; whether the driver acted is unknown.
    Timeout,
    /// The connection is lost, now or by an earlier failure.
    Disconnected,
    /// The reply could not be decoded.
    Codec(DecodeError),
    /// The reply answers another request than the one sent.
    UnexpectedReply,
}

/// What came of sending one request to the driver.
#[derive(Clone, Debug, PartialEq, Eq)]
pub enum Exchange {
    /// The driver replied with these bytes.
    Replied(Vec<u8>),
    /// No reply came before the timeout.
    TimedOut,
    /// The operating system reported a failure during the exchange.
    Failed,
}

/// What the bytes of a reply to command `c` amount to.
pub open spec fn reply_result(c: CommandView, b: Seq<u8>) -> Result<Reply, ChannelError> {
    match parse_reply(b) {
        Err(e) => Err(ChannelError::Codec(e)),
        Ok(r) => if r.kind == expected_reply(c) {
            Ok(r)
        } else {
            Err(ChannelError::UnexpectedReply)
        },
    }
}

/// What an exchange for command `c`, over a connection in state `s`, amounts to.
pub open spec fn exchange_result(s: ConnState, c: CommandView, outcome: Exchange) -> Result<Reply, ChannelError> {
    if !(s is Open) {
        Err(ChannelError::Disconnected)
    } else {
        match outcome {
            Exchange::TimedOut => Err(ChannelError::Timeout),
            Exchange::Failed => Err(ChannelError::Disconnected),
            Exchange::Replied(b) => reply_result(c, b@),
        }
    }
}

/// The connection state after an exchange from state `s`: a failed exchange
/// leaves the connection lost, anything else leaves it as it was.
pub open spec fn state_after_exchange(s: ConnState, outcome: Exchange) -> ConnState {
    match (s, outcome) {
        (ConnState::Open(h), Exchange::Failed) => ConnState::Lost(h),
        _ => s,
    }
}

/// A channel to the driver over a connection it owns.
pub struct RuleChannel {
    conn: ConnectionManager,
}

impl RuleChannel {
    pub closed spec fn state(&self) -> ConnState {
        self.conn.state()
    }

    /// A channel over a connection that is not open yet.
    pub fn new() -> (r: RuleChannel)
        ensures
            r.state() == ConnState::Closed,
    {
        RuleChannel { conn: ConnectionManager::new() }
    }

    /// The connection the channel owns.
    pub fn connection(&self) -> (r: &ConnectionManager)
        ensures
            r.state() == self.state(),
    {
        &self.conn
    }

    /// Whether the port may be opened now (see [`ConnectionManager::ready_to_connect`]).
    pub fn ready_to_connect(&self) -> (r: Result<(), ConnectError>)
        ensures
            r == (if !(self.state() is Closed) {
                Err(ConnectError::AlreadyConnected)
            } else {
                Ok::<(), ConnectError>(())
            }),
    {
        self.conn.ready_to_connect()
    }

    /// Records the outcome of opening the port.
    pub fn connect(&mut self, opened: Result<u64, u32>) -> (r: Result<(), ConnectError>)
        ensures
            r == connect_result(old(self).state(), opened),
            final(self).state() == state_after_connect(old(self).state(), opened),
    {
        self.conn.connect(opened)
    }

    /// Gives up the handle for closing. After a lost connection this is what
    /// must happen before the port is opened again: the channel never
    /// reconnects by itself.
    pub fn disconnect(&mut self) -> (r: Option<u64>)
        ensures
            r == released_handle(old(self).state()),
            final(self).state() == ConnState::Closed,
    {
        self.conn.disconnect()
    }

    /// The message to send for `command`; a lost or closed connection fails fast.
    pub fn request(&self, command: &RuleCommand) -> (r: Result<Vec<u8>, ChannelError>)
        requires
            command_fits(command@),
        ensures
            match r {
                Ok(b) => self.state() is Open && b@ == encoded_command(command@),
                Err(e) => !(self.state() is Open) && e == ChannelError::Disconnected,
            },
    {
        if !self.conn.is_usable() {
            return Err(ChannelError::Disconnected);
        }
        Ok(encode(command))
    }

    /// Turns what came of the exchange for `command` into its reply.
    pub fn complete(&mut self, command: &RuleCommand, outcome: Exchange) -> (r: Result<Reply, ChannelError>)
        ensures
            r == exchange_result(old(self).state(), command@, outcome),
            final(self).state() == state_after_exchange(old(self).state(), outcome),
    {
        if !self.conn.is_usable() {
            return Err(ChannelError::Disconnected);
        }
        match outcome {
            Exchange::TimedOut => Err(ChannelError::Timeout),
            Exchange::Failed => {
                self.conn.mark_lost();
                Err(ChannelError::Disconnected)
            },
            Exchange::Replied(bytes) => match decode(bytes.as_slice()) {
                Err(e) => Err(ChannelError::Codec(e)),
                Ok(reply) => {
                    if reply.kind == command.expected_reply() {
                        Ok(reply)
                    } else {
                        Err(ChannelError::UnexpectedReply)
                    }
                },
            },
        }
    }
}

/// After a failed exchange every later one fails fast as disconnected, until
/// the connection is closed and opened again.
pub proof fn lemma_lost_fails_fast(h: u64, c: CommandView, d: CommandView, later: Exchange)
    ensures
        state_after_exchange(ConnState::Open(h), Exchange::Failed) == ConnState::Lost(h),
        exchange_result(ConnState::Lost(h), d, later) == Err::<Reply, ChannelError>(ChannelError::Disconnected),
        state_after_exchange(ConnState::Lost(h), later) == ConnState::Lost(h),
        exchange_result(ConnState::Open(h), c, Exchange::Failed) == Err::<Reply, ChannelError>(ChannelError::Disconnected),
{
}

} // verus!

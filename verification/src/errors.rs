//! Error values of the channel layer, the codec and the configuration.

use vstd::prelude::*;

verus! {

/// Failure of a channel operation.
///
/// The variants fall into the three classes the design distinguishes:
/// creation errors (the named object could not be allocated), connect
/// errors (no usable peer; retried by the client) and I/O errors (a read
/// or write failed after a connection was established; fatal to a
/// receive loop).
#[derive(Clone, Copy, Debug, PartialEq, Eq, Structural)]
pub enum ChannelError {
    /// Creation failed: another channel with the same name already exists.
    NameInUse,
    /// Connect failed: no channel with the requested name exists.
    ServerNotFound,
    /// Connect failed: the channel already has its single allowed peer.
    ServerBusy,
    /// Connect failed: the endpoint direction does not match the channel.
    AccessDenied,
    /// Accept found no connected peer yet (the host call would block).
    NoPeer,
    /// I/O failed: no peer is connected to the channel.
    NotConnected,
    /// I/O failed: the channel has been closed.
    Closed,
    /// I/O failed: the message does not fit in the channel buffer.
    MessageTooLarge,
}

impl ChannelError {
    /// True for errors raised while creating a named channel.
    pub open spec fn spec_is_creation(self) -> bool {
        self is NameInUse
    }

    /// True for errors raised while connecting to a named channel.
    pub open spec fn spec_is_connect(self) -> bool {
        self is ServerNotFound || self is ServerBusy || self is AccessDenied || self is NoPeer
    }

    /// True for errors raised by a read or write on a connected channel.
    pub open spec fn spec_is_io(self) -> bool {
        self is NotConnected || self is Closed || self is MessageTooLarge
    }

    /// True for errors raised while creating a named channel.
    pub fn is_creation(&self) -> (r: bool)
        ensures
            r == self.spec_is_creation(),
    {
        matches!(self, ChannelError::NameInUse)
    }

    /// True for errors raised while connecting to a named channel.
    pub fn is_connect(&self) -> (r: bool)
        ensures
            r == self.spec_is_connect(),
    {
        matches!(
            self,
            ChannelError::ServerNotFound
                | ChannelError::ServerBusy
                | ChannelError::AccessDenied
                | ChannelError::NoPeer
        )
    }

    /// True for errors raised by a read or write on a connected channel.
    pub fn is_io(&self) -> (r: bool)
        ensures
            r == self.spec_is_io(),
    {
        matches!(
            self,
            ChannelError::NotConnected | ChannelError::Closed | ChannelError::MessageTooLarge
        )
    }

    /// A short description of the error.
    pub fn message(&self) -> (r: &'static str)
        ensures
            self is NameInUse ==> r@ == "channel name is already in use"@,
            self is ServerNotFound ==> r@ == "no channel with this name exists"@,
            self is ServerBusy ==> r@ == "channel already has a connected peer"@,
            self is AccessDenied ==> r@ == "endpoint direction does not match the channel"@,
            self is NoPeer ==> r@ == "no peer has connected yet"@,
            self is NotConnected ==> r@ == "no peer is connected"@,
            self is Closed ==> r@ == "channel is closed"@,
            self is MessageTooLarge ==> r@ == "message exceeds the channel buffer"@,
    {
        match self {
            ChannelError::NameInUse => "channel name is already in use",
            ChannelError::ServerNotFound => "no channel with this name exists",
            ChannelError::ServerBusy => "channel already has a connected peer",
            ChannelError::AccessDenied => "endpoint direction does not match the channel",
            ChannelError::NoPeer => "no peer has connected yet",
            ChannelError::NotConnected => "no peer is connected",
            ChannelError::Closed => "channel is closed",
            ChannelError::MessageTooLarge => "message exceeds the channel buffer",
        }
    }
}

/// Failure to decode a received message.
///
/// Any of these is fatal to the receive loop that observes it: the
/// channel is assumed desynchronized beyond recovery.
#[derive(Clone, Copy, Debug, PartialEq, Eq, Structural)]
pub enum DecodeError {
    /// The buffer ends before the encoding is complete.
    Truncated,
    /// The leading tag does not name a known command.
    UnknownTag,
    /// A string field does not hold valid UTF-8.
    InvalidUtf8,
    /// Bytes remain after a complete encoding was read.
    TrailingBytes,
}

impl DecodeError {
    /// A short description of the error.
    pub fn message(&self) -> (r: &'static str)
        ensures
            self is Truncated ==> r@ == "message is truncated"@,
            self is UnknownTag ==> r@ == "message tag names no known command"@,
            self is InvalidUtf8 ==> r@ == "message field is not valid UTF-8"@,
            self is TrailingBytes ==> r@ == "message has trailing bytes"@,
    {
        match self {
            DecodeError::Truncated => "message is truncated",
            DecodeError::UnknownTag => "message tag names no known command",
            DecodeError::InvalidUtf8 => "message field is not valid UTF-8",
            DecodeError::TrailingBytes => "message has trailing bytes",
        }
    }
}

/// Failure to receive a command: either the channel failed, or the
/// message's bytes decode to no command.  Both are fatal to the receive
/// loop that observes them.
#[derive(Clone, Copy, Debug, PartialEq, Eq, Structural)]
pub enum ReadError {
    Channel(ChannelError),
    Decode(DecodeError),
}

/// Failure to load or create the persisted configuration.
#[derive(Clone, Copy, Debug, PartialEq, Eq, Structural)]
pub enum ConfigError {
    CouldNotLoadOrCreate,
}

impl ConfigError {
    /// A short description of the error.
    pub fn message(&self) -> (r: &'static str)
        ensures
            r@ == "Could not load or create config!"@,
    {
        match self {
            ConfigError::CouldNotLoadOrCreate => "Could not load or create config!",
        }
    }
}

} // verus!

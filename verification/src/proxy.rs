//! The service's handle on the proxy process, and the proxy's side of
//! the same channel.
//!
//! The service owns the writing end of the channel named
//! [`PIPE_NAME`](crate::PIPE_NAME) and sends one encoded [`ProxyCommand`]
//! per write.  The proxy process owns the reading end: it receives one
//! command at a time and turns it into the [`TransitionPlan`] the host
//! then carries out.  A received command that decodes to nothing is fatal
//! to the receive loop; a plan that fails while being carried out is the
//! host's to log, and the loop continues.

use vstd::prelude::*;

use crate::channel::{ChannelState, Client, Pipe, Read, Registry, Server, StreamMode, Write,
    spec_connect_error, spec_write_error};
use crate::codec::{decode_proxy_command, encode_proxy_command, spec_encode_proxy};
use crate::commands::{PowerConfigSelection, ProxyCommand};
use crate::config::{spec_plan_for, PowerConfig, TransitionPlan};
use crate::errors::{ChannelError, ReadError};
use crate::{PIPE_BUFFER_SIZE, PIPE_NAME};

verus! {

/// The service's writing end of the proxy channel.
pub struct Proxy {
    pub pipe: Pipe<Server, Write>,
}

impl Proxy {
    /// Publishes the proxy channel and takes its writing end.
    ///
    /// Fails exactly when the channel name is already in use.
    pub fn create(reg: &mut Registry) -> (r: Result<Proxy, ChannelError>)
        requires
            old(reg).wf(),
        ensures
            final(reg).wf(),
            match r {
                Ok(p) => {
                    &&& !old(reg).has_channel(PIPE_NAME@)
                    &&& p.pipe.chan == old(reg).channels@.len()
                    &&& p.pipe.valid_for(*final(reg))
                    &&& final(reg).channels@.len() == old(reg).channels@.len() + 1
                    &&& forall|j: int|
                        0 <= j < old(reg).channels@.len() ==> final(reg).channels@[j] == old(reg).channels@[j]
                    &&& final(reg).channels@[p.pipe.chan as int].name@ == PIPE_NAME@
                    &&& p.pipe.state(*final(reg)).capacity == PIPE_BUFFER_SIZE
                    &&& p.pipe.queue(*final(reg)) =~= Seq::<Seq<u8>>::empty()
                    &&& !p.pipe.state(*final(reg)).client_connected
                    &&& !p.pipe.state(*final(reg)).closed
                },
                Err(e) => {
                    &&& e == ChannelError::NameInUse
                    &&& old(reg).has_channel(PIPE_NAME@)
                    &&& *final(reg) == *old(reg)
                },
            },
    {
        match Pipe::<Server, Write>::create_server(reg, PIPE_NAME, PIPE_BUFFER_SIZE) {
            Ok(pipe) => Ok(Proxy { pipe }),
            Err(e) => Err(e),
        }
    }

    /// Reports whether the proxy process has connected yet; the host
    /// waits on this before entering its running state.
    pub fn accept(&self, reg: &Registry) -> (r: Result<(), ChannelError>)
        requires
            self.pipe.chan < reg.channels@.len(),
        ensures
            r is Ok <==> (self.pipe.state(*reg).client_connected && !self.pipe.state(*reg).closed),
            r matches Err(e) ==> e == if self.pipe.state(*reg).closed {
                ChannelError::Closed
            } else {
                ChannelError::NoPeer
            },
    {
        self.pipe.connect(reg)
    }

    /// Encodes the command and writes it to the channel in one call.
    ///
    /// On success exactly one message — the command's encoding — is
    /// queued behind those already pending; independent channels are
    /// untouched.
    pub fn send_command(&self, reg: &mut Registry, command: &ProxyCommand) -> (r: Result<
        (),
        ChannelError,
    >)
        requires
            old(reg).wf(),
            self.pipe.valid_for(*old(reg)),
        ensures
            final(reg).wf(),
            self.pipe.valid_for(*final(reg)),
            final(reg).channels@.len() == old(reg).channels@.len(),
            forall|j: int|
                0 <= j < old(reg).channels@.len() && j != self.pipe.chan ==> final(reg).channels@[j] == old(reg).channels@[j],
            match r {
                Ok(()) => {
                    &&& spec_write_error(
                        self.pipe.state(*old(reg)),
                        spec_encode_proxy(*command).len(),
                    ) is None
                    &&& self.pipe.queue(*final(reg)) == self.pipe.queue(*old(reg)).push(
                        spec_encode_proxy(*command),
                    )
                    &&& self.pipe.state(*final(reg)).client_connected
                    &&& !self.pipe.state(*final(reg)).closed
                },
                Err(e) => {
                    &&& Some(e) == spec_write_error(
                        self.pipe.state(*old(reg)),
                        spec_encode_proxy(*command).len(),
                    )
                    &&& *final(reg) == *old(reg)
                },
            },
    {
        let bytes = encode_proxy_command(command);
        self.pipe.write(reg, bytes.as_slice())
    }

    /// Closes the channel; closing again changes nothing.
    pub fn terminate(&self, reg: &mut Registry)
        requires
            old(reg).wf(),
            self.pipe.chan < old(reg).channels@.len(),
        ensures
            final(reg).wf(),
            final(reg).channels@.len() == old(reg).channels@.len(),
            forall|j: int|
                0 <= j < old(reg).channels@.len() && j != self.pipe.chan ==> final(reg).channels@[j] == old(reg).channels@[j],
            final(reg).channels@[self.pipe.chan as int].name@ == old(reg).channels@[self.pipe.chan as int].name@,
            self.pipe.state(*final(reg)) == (ChannelState {
                closed: true,
                ..self.pipe.state(*old(reg))
            }),
    {
        self.pipe.close(reg)
    }
}

impl Pipe<Client, Read> {
    /// Connects to the proxy channel as its reading end, retrying while
    /// the service may not have published it yet.
    pub fn connect_proxy_channel(reg: &mut Registry, max_attempts: u32) -> (r: Result<
        Pipe<Client, Read>,
        ChannelError,
    >)
        requires
            old(reg).wf(),
            max_attempts > 0,
        ensures
            final(reg).wf(),
            match r {
                Ok(p) => {
                    &&& spec_connect_error(
                        *old(reg),
                        PIPE_NAME@,
                        <Read as StreamMode>::spec_direction(),
                    ) is None
                    &&& p.chan == crate::channel::find_named(old(reg).channels@, PIPE_NAME@)
                    &&& p.valid_for(*final(reg))
                    &&& final(reg).channels@.len() == old(reg).channels@.len()
                    &&& forall|j: int|
                        0 <= j < old(reg).channels@.len() && j != p.chan ==> final(reg).channels@[j] == old(reg).channels@[j]
                    &&& final(reg).channels@[p.chan as int].name@ == old(reg).channels@[p.chan as int].name@
                    &&& p.state(*final(reg)) == (ChannelState {
                        client_connected: true,
                        ..old(reg).channels@[p.chan as int].state
                    })
                },
                Err(e) => {
                    &&& Some(e) == spec_connect_error(
                        *old(reg),
                        PIPE_NAME@,
                        <Read as StreamMode>::spec_direction(),
                    )
                    &&& *final(reg) == *old(reg)
                },
            },
    {
        Pipe::<Client, Read>::create_client_retrying(reg, PIPE_NAME, max_attempts)
    }

    /// Receives one command: takes the oldest message off the channel
    /// and decodes it.
    ///
    /// A message that is no encoding of any command is consumed and
    /// reported as a decode failure — fatal to the caller's loop, since
    /// the channel can no longer be trusted to be in step.
    pub fn read_command(&self, reg: &mut Registry) -> (r: Result<ProxyCommand, ReadError>)
        requires
            old(reg).wf(),
            self.valid_for(*old(reg)),
            self.queue(*old(reg)).len() > 0 || self.state(*old(reg)).closed,
        ensures
            final(reg).wf(),
            self.valid_for(*final(reg)),
            final(reg).channels@.len() == old(reg).channels@.len(),
            forall|j: int|
                0 <= j < old(reg).channels@.len() && j != self.chan ==> final(reg).channels@[j]
                    == old(reg).channels@[j],
            match r {
                Ok(c) => {
                    &&& self.queue(*old(reg)).len() > 0
                    &&& spec_encode_proxy(c) == self.queue(*old(reg))[0]
                    &&& (forall|c2: ProxyCommand|
                        spec_encode_proxy(c2) == self.queue(*old(reg))[0] ==> c2 == c)
                    &&& self.queue(*final(reg)) == self.queue(*old(reg)).drop_first()
                    &&& self.state(*final(reg)) == (ChannelState {
                        messages: self.state(*final(reg)).messages,
                        ..self.state(*old(reg))
                    })
                    &&& final(reg).channels@[self.chan as int].name@ == old(reg).channels@[self.chan as int].name@
                },
                Err(ReadError::Channel(e)) => {
                    &&& e == ChannelError::Closed
                    &&& self.state(*old(reg)).closed
                    &&& *final(reg) == *old(reg)
                },
                Err(ReadError::Decode(_)) => {
                    &&& self.queue(*old(reg)).len() > 0
                    &&& (forall|c2: ProxyCommand| spec_encode_proxy(c2) != self.queue(*old(reg))[0])
                    &&& self.queue(*final(reg)) == self.queue(*old(reg)).drop_first()
                    &&& self.state(*final(reg)) == (ChannelState {
                        messages: self.state(*final(reg)).messages,
                        ..self.state(*old(reg))
                    })
                    &&& final(reg).channels@[self.chan as int].name@ == old(reg).channels@[self.chan as int].name@
                },
            },
    {
        let msg = match self.read(reg) {
            Ok(m) => m,
            Err(e) => {
                return Err(ReadError::Channel(e));
            },
        };
        match decode_proxy_command(msg.as_slice()) {
            Ok(c) => Ok(c),
            Err(e) => Err(ReadError::Decode(e)),
        }
    }
}

/// No-partial-delivery law: a command whose encoding fits the buffer,
/// written in one call and followed immediately by a read on the peer,
/// comes back as exactly one message that decodes to the command sent —
/// and channels other than this one are never touched in between.
pub fn delivered_command_round_trip(
    proxy: &Proxy,
    client: &Pipe<Client, Read>,
    reg: &mut Registry,
    command: &ProxyCommand,
) -> (r: ProxyCommand)
    requires
        old(reg).wf(),
        proxy.pipe.valid_for(*old(reg)),
        client.valid_for(*old(reg)),
        client.chan == proxy.pipe.chan,
        proxy.pipe.queue(*old(reg)).len() == 0,
        spec_write_error(proxy.pipe.state(*old(reg)), spec_encode_proxy(*command).len()) is None,
    ensures
        r == *command,
        final(reg).wf(),
        client.queue(*final(reg)) == client.queue(*old(reg)),
        forall|j: int|
            0 <= j < old(reg).channels@.len() && j != client.chan ==> final(reg).channels@[j]
                == old(reg).channels@[j],
{
    let ghost encoded = spec_encode_proxy(*command);
    match proxy.send_command(reg, command) {
        Ok(()) => {},
        Err(_) => {
            proof {
                assert(false);
            }
            return *command;
        },
    }
    let ghost mid = *reg;
    proof {
        assert(client.queue(mid) == proxy.pipe.queue(mid));
        assert(client.state(mid) == proxy.pipe.state(mid));
        assert(client.queue(mid)[0] == encoded);
    }
    match client.read_command(reg) {
        Ok(c) => {
            proof {
                assert(spec_encode_proxy(c) == client.queue(mid)[0]);
                assert(client.queue(*reg) =~= Seq::<Seq<u8>>::empty());
            }
            c
        },
        Err(e) => {
            proof {
                match e {
                    ReadError::Channel(_) => {
                        assert(!client.state(mid).closed);
                        assert(false);
                    },
                    ReadError::Decode(_) => {
                        assert(spec_encode_proxy(*command) == client.queue(mid)[0]);
                        assert(false);
                    },
                }
            }
            *command
        },
    }
}

/// The plan for a power-source change: the profile the selection names,
/// turned into the actions to perform.
pub fn change_power_config(config: &PowerConfig, selection: PowerConfigSelection) -> (p:
    TransitionPlan)
    ensures
        selection is Wired ==> spec_plan_for(config.wired_config, p),
        selection is Battery ==> spec_plan_for(config.battery_config, p),
{
    config.select(selection).change_plan()
}

/// Dispatches one received command: each command variant selects exactly
/// its own profile, never the other.
pub fn execute_command(command: &ProxyCommand, config: &PowerConfig) -> (p: TransitionPlan)
    ensures
        *command == ProxyCommand::ChangePowerConfig(PowerConfigSelection::Wired)
            ==> spec_plan_for(config.wired_config, p),
        *command == ProxyCommand::ChangePowerConfig(PowerConfigSelection::Battery)
            ==> spec_plan_for(config.battery_config, p),
{
    match command {
        ProxyCommand::ChangePowerConfig(selection) => change_power_config(config, *selection),
    }
}

} // verus!

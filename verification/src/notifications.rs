//! The sender's handle on the notification provider, and the provider's
//! own dispatch.
//!
//! The sending process owns the writing end of the channel named
//! [`NOTIFICATION_PIPE_NAME`](crate::NOTIFICATION_PIPE_NAME) and sends
//! one encoded [`NotificationCommand`] per write.  The provider owns the
//! reading end; it acts on commands named `"display"` by showing a toast
//! built from the command's content, silently ignores commands with any
//! other name, and treats an undecodable message as fatal to its loop.

use vstd::prelude::*;

use crate::channel::{ChannelState, Client, Pipe, Read, Registry, Server, StreamMode, Write,
    spec_connect_error, spec_write_error};
use crate::codec::{decode_notification_command, encode_notification_command,
    spec_encode_notification};
use crate::commands::{find_char, spec_first_line, spec_second_line, split_display_content,
    NotificationCommand};
use crate::errors::{ChannelError, ReadError};
use crate::toast::Toast;
use crate::{NOTIFICATION_PIPE_NAME, PIPE_BUFFER_SIZE};

verus! {

/// The writing end of the notification channel.
pub struct NotificationProvider {
    pub pipe: Pipe<Server, Write>,
}

impl NotificationProvider {
    /// Publishes the notification channel and takes its writing end.
    ///
    /// Fails exactly when the channel name is already in use.
    pub fn create(reg: &mut Registry) -> (r: Result<NotificationProvider, ChannelError>)
        requires
            old(reg).wf(),
        ensures
            final(reg).wf(),
            match r {
                Ok(p) => {
                    &&& !old(reg).has_channel(NOTIFICATION_PIPE_NAME@)
                    &&& p.pipe.chan == old(reg).channels@.len()
                    &&& p.pipe.valid_for(*final(reg))
                    &&& final(reg).channels@.len() == old(reg).channels@.len() + 1
                    &&& forall|j: int|
                        0 <= j < old(reg).channels@.len() ==> final(reg).channels@[j] == old(reg).channels@[j]
                    &&& final(reg).channels@[p.pipe.chan as int].name@ == NOTIFICATION_PIPE_NAME@
                    &&& p.pipe.state(*final(reg)).capacity == PIPE_BUFFER_SIZE
                    &&& p.pipe.queue(*final(reg)) =~= Seq::<Seq<u8>>::empty()
                    &&& !p.pipe.state(*final(reg)).client_connected
                    &&& !p.pipe.state(*final(reg)).closed
                },
                Err(e) => {
                    &&& e == ChannelError::NameInUse
                    &&& old(reg).has_channel(NOTIFICATION_PIPE_NAME@)
                    &&& *final(reg) == *old(reg)
                },
            },
    {
        match Pipe::<Server, Write>::create_server(reg, NOTIFICATION_PIPE_NAME, PIPE_BUFFER_SIZE) {
            Ok(pipe) => Ok(NotificationProvider { pipe }),
            Err(e) => Err(e),
        }
    }

    /// Reports whether the provider process has connected yet.
    pub fn accept(&self, reg: &Registry) -> (r: Result<(), ChannelError>)
        requires
            self.pipe.chan < reg.channels@.len(),
        ensures
            r is Ok <==> (self.pipe.state(*reg).client_connected && !self.pipe.state(*reg).closed),
            r matches Err(e) ==> e == if self.pipe.state(*reg).closed {
                ChannelError::Closed
            } else {
                ChannelError::NoPeer
            },
    {
        self.pipe.connect(reg)
    }

    /// Builds the display command for the given title and body, encodes
    /// it and writes it to the channel in one call.
    ///
    /// On success exactly one message — the encoding of a `"display"`
    /// command whose content is the title, a newline, and the body — is
    /// queued behind those already pending.
    pub fn send_display_command(&self, reg: &mut Registry, title: &str, description: &str) -> (r:
        Result<(), ChannelError>)
        requires
            old(reg).wf(),
            self.pipe.valid_for(*old(reg)),
        ensures
            final(reg).wf(),
            self.pipe.valid_for(*final(reg)),
            final(reg).channels@.len() == old(reg).channels@.len(),
            forall|j: int|
                0 <= j < old(reg).channels@.len() && j != self.pipe.chan ==> final(reg).channels@[j] == old(reg).channels@[j],
            match r {
                Ok(()) => {
                    &&& spec_write_error(
                        self.pipe.state(*old(reg)),
                        spec_encode_notification("display"@, title@ + "\n"@ + description@).len(),
                    ) is None
                    &&& self.pipe.queue(*final(reg)) == self.pipe.queue(*old(reg)).push(
                        spec_encode_notification("display"@, title@ + "\n"@ + description@),
                    )
                    &&& self.pipe.state(*final(reg)).client_connected
                    &&& !self.pipe.state(*final(reg)).closed
                },
                Err(e) => {
                    &&& Some(e) == spec_write_error(
                        self.pipe.state(*old(reg)),
                        spec_encode_notification("display"@, title@ + "\n"@ + description@).len(),
                    )
                    &&& *final(reg) == *old(reg)
                },
            },
    {
        let command = NotificationCommand::display(title, description);
        let bytes = encode_notification_command(&command);
        self.pipe.write(reg, bytes.as_slice())
    }

    /// Closes the channel; closing again changes nothing.
    pub fn terminate(&self, reg: &mut Registry)
        requires
            old(reg).wf(),
            self.pipe.chan < old(reg).channels@.len(),
        ensures
            final(reg).wf(),
            final(reg).channels@.len() == old(reg).channels@.len(),
            forall|j: int|
                0 <= j < old(reg).channels@.len() && j != self.pipe.chan ==> final(reg).channels@[j] == old(reg).channels@[j],
            final(reg).channels@[self.pipe.chan as int].name@ == old(reg).channels@[self.pipe.chan as int].name@,
            self.pipe.state(*final(reg)) == (ChannelState {
                closed: true,
                ..self.pipe.state(*old(reg))
            }),
    {
        self.pipe.close(reg)
    }
}

impl Pipe<Client, Read> {
    /// Connects to the notification channel as its reading end, retrying
    /// while the sender may not have published it yet.
    pub fn connect_notification_channel(reg: &mut Registry, max_attempts: u32) -> (r: Result<
        Pipe<Client, Read>,
        ChannelError,
    >)
        requires
            old(reg).wf(),
            max_attempts > 0,
        ensures
            final(reg).wf(),
            match r {
                Ok(p) => {
                    &&& spec_connect_error(
                        *old(reg),
                        NOTIFICATION_PIPE_NAME@,
                        <Read as StreamMode>::spec_direction(),
                    ) is None
                    &&& p.chan == crate::channel::find_named(old(reg).channels@, NOTIFICATION_PIPE_NAME@)
                    &&& p.valid_for(*final(reg))
                    &&& final(reg).channels@.len() == old(reg).channels@.len()
                    &&& forall|j: int|
                        0 <= j < old(reg).channels@.len() && j != p.chan ==> final(reg).channels@[j] == old(reg).channels@[j]
                    &&& final(reg).channels@[p.chan as int].name@ == old(reg).channels@[p.chan as int].name@
                    &&& p.state(*final(reg)) == (ChannelState {
                        client_connected: true,
                        ..old(reg).channels@[p.chan as int].state
                    })
                },
                Err(e) => {
                    &&& Some(e) == spec_connect_error(
                        *old(reg),
                        NOTIFICATION_PIPE_NAME@,
                        <Read as StreamMode>::spec_direction(),
                    )
                    &&& *final(reg) == *old(reg)
                },
            },
    {
        Pipe::<Client, Read>::create_client_retrying(reg, NOTIFICATION_PIPE_NAME, max_attempts)
    }

    /// Receives one notification command: takes the oldest message off
    /// the channel and decodes it.
    pub fn read_notification_command(&self, reg: &mut Registry) -> (r: Result<
        NotificationCommand,
        ReadError,
    >)
        requires
            old(reg).wf(),
            self.valid_for(*old(reg)),
            self.queue(*old(reg)).len() > 0 || self.state(*old(reg)).closed,
        ensures
            final(reg).wf(),
            self.valid_for(*final(reg)),
            final(reg).channels@.len() == old(reg).channels@.len(),
            forall|j: int|
                0 <= j < old(reg).channels@.len() && j != self.chan ==> final(reg).channels@[j]
                    == old(reg).channels@[j],
            match r {
                Ok(c) => {
                    &&& self.queue(*old(reg)).len() > 0
                    &&& spec_encode_notification(c.name@, c.content@) == self.queue(*old(reg))[0]
                    &&& (forall|n2: Seq<char>, t2: Seq<char>|
                        spec_encode_notification(n2, t2) == self.queue(*old(reg))[0] ==> n2
                            == c.name@ && t2 == c.content@)
                    &&& self.queue(*final(reg)) == self.queue(*old(reg)).drop_first()
                    &&& self.state(*final(reg)) == (ChannelState {
                        messages: self.state(*final(reg)).messages,
                        ..self.state(*old(reg))
                    })
                    &&& final(reg).channels@[self.chan as int].name@ == old(reg).channels@[self.chan as int].name@
                },
                Err(ReadError::Channel(e)) => {
                    &&& e == ChannelError::Closed
                    &&& self.state(*old(reg)).closed
                    &&& *final(reg) == *old(reg)
                },
                Err(ReadError::Decode(_)) => {
                    &&& self.queue(*old(reg)).len() > 0
                    &&& (forall|n2: Seq<char>, t2: Seq<char>|
                        spec_encode_notification(n2, t2) != self.queue(*old(reg))[0])
                    &&& self.queue(*final(reg)) == self.queue(*old(reg)).drop_first()
                    &&& self.state(*final(reg)) == (ChannelState {
                        messages: self.state(*final(reg)).messages,
                        ..self.state(*old(reg))
                    })
                    &&& final(reg).channels@[self.chan as int].name@ == old(reg).channels@[self.chan as int].name@
                },
            },
    {
        let msg = match self.read(reg) {
            Ok(m) => m,
            Err(e) => {
                return Err(ReadError::Channel(e));
            },
        };
        match decode_notification_command(msg.as_slice()) {
            Ok(c) => Ok(c),
            Err(e) => Err(ReadError::Decode(e)),
        }
    }
}

/// What the notification provider does with one received command.
pub enum NotifierAction {
    /// Show this toast.
    Show(Toast),
    /// The command's name is not `"display"`: accepted and ignored.
    Ignore,
    /// A display command whose content has no newline to split at; the
    /// host logs it and the loop continues.
    Malformed,
}

/// Dispatches one received notification command.
///
/// A command named `"display"` whose content holds a newline becomes a
/// toast: the title is the content's first line, the body its second.
/// A display command without a newline is malformed; any other name is
/// ignored, so that unknown commands stay harmless.
pub fn execute_notification_command(command: &NotificationCommand) -> (r: NotifierAction)
    ensures
        command.name@ != "display"@ ==> r is Ignore,
        command.name@ == "display"@ && find_char(command.content@, '\n') == command.content@.len()
            ==> r is Malformed,
        command.name@ == "display"@ && find_char(command.content@, '\n') < command.content@.len()
            ==> {
            &&& r is Show
            &&& r->Show_0.title@ == spec_first_line(command.content@)
            &&& r->Show_0.description@ == spec_second_line(command.content@)
        },
{
    let display = String::from_str("display");
    if command.name == display {
        match split_display_content(command.content.as_str()) {
            Some((title, body)) => NotifierAction::Show(
                Toast::new(title.as_str(), body.as_str()),
            ),
            None => NotifierAction::Malformed,
        }
    } else {
        NotifierAction::Ignore
    }
}

} // verus!

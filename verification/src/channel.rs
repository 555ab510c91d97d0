//! A model of the named, message-oriented channel connecting two processes.
//!
//! A [`Registry`] stands for the host's namespace of channels: creating a
//! server endpoint publishes a name, and a client endpoint can connect to
//! it only while it exists and still has its single peer slot free.  Each
//! channel carries whole messages in order; a write either queues the
//! complete message or fails, so a reader never observes a partial one.
//!
//! Endpoints are typed twice over, as in the real transport: by role
//! ([`Server`] creates and accepts, [`Client`] connects) and by direction
//! ([`Read`] or [`Write`]), so that a write-only endpoint cannot be read
//! and only the creating role can accept.  The platform calls that back
//! this model on the host live outside the library; everything the logic
//! relies on — ordering, whole-message delivery, the connect rules — is
//! stated and proved here.

use vstd::prelude::*;
use vstd::string::StringExecFns;

use crate::errors::ChannelError;

verus! {

/// The direction of a simplex endpoint.
#[derive(Clone, Copy, Debug, PartialEq, Eq, Structural)]
pub enum Direction {
    ReadOnly,
    WriteOnly,
}

/// Direction marker for endpoints that only read.
pub struct Read;

/// Direction marker for endpoints that only write.
pub struct Write;

/// Marker trait tying a direction marker type to its [`Direction`].
pub trait StreamMode: Sized {
    /// The direction this marker stands for.
    spec fn spec_direction() -> Direction;

    /// The direction this marker stands for.
    fn direction() -> (d: Direction)
        ensures
            d == Self::spec_direction(),
    ;
}

impl StreamMode for Read {
    open spec fn spec_direction() -> Direction {
        Direction::ReadOnly
    }

    fn direction() -> Direction {
        Direction::ReadOnly
    }
}

impl StreamMode for Write {
    open spec fn spec_direction() -> Direction {
        Direction::WriteOnly
    }

    fn direction() -> Direction {
        Direction::WriteOnly
    }
}

/// Role marker for the endpoint that creates a channel and accepts its peer.
pub struct Server;

/// Role marker for the endpoint that connects to an existing channel.
pub struct Client;

/// Marker trait telling the two endpoint roles apart.
pub trait PipeRole: Sized {
    /// True for the server role.
    spec fn spec_is_server() -> bool;
}

impl PipeRole for Server {
    open spec fn spec_is_server() -> bool {
        true
    }
}

impl PipeRole for Client {
    open spec fn spec_is_server() -> bool {
        false
    }
}

/// The state of one named channel.
pub struct ChannelState {
    /// Size in bytes of the largest message the channel accepts.
    pub capacity: usize,
    /// The direction of the server endpoint; the client has the other.
    pub server_direction: Direction,
    /// The queued messages, oldest first.
    pub messages: Vec<Vec<u8>>,
    /// Whether the single client peer has connected.
    pub client_connected: bool,
    /// Whether the channel has been closed.
    pub closed: bool,
}

/// A channel together with the name it was published under.
pub struct NamedChannel {
    pub name: String,
    pub state: ChannelState,
}

/// The namespace of channels visible to every process on the host.
pub struct Registry {
    pub channels: Vec<NamedChannel>,
}

/// Index of the first channel named `name`, or `cs.len()` if none is.
pub open spec fn find_named(cs: Seq<NamedChannel>, name: Seq<char>) -> int
    decreases cs.len(),
{
    if cs.len() == 0 {
        0
    } else if cs[0].name@ == name {
        0
    } else {
        1 + find_named(cs.drop_first(), name)
    }
}

/// `find_named` returns the index of the first channel with the name:
/// every entry before it has another name, and the index is in range
/// exactly when the name is present.
pub proof fn lemma_find_named(cs: Seq<NamedChannel>, name: Seq<char>)
    ensures
        0 <= find_named(cs, name) <= cs.len(),
        find_named(cs, name) < cs.len() ==> cs[find_named(cs, name)].name@ == name,
        forall|j: int| 0 <= j < find_named(cs, name) ==> cs[j].name@ != name,
    decreases cs.len(),
{
    if cs.len() != 0 && cs[0].name@ != name {
        lemma_find_named(cs.drop_first(), name);
        assert forall|j: int| 0 <= j < find_named(cs, name) implies cs[j].name@ != name by {
            if j > 0 {
                assert(cs.drop_first()[j - 1] == cs[j]);
            }
        }
    }
}

/// A prefix of other names that ends at the name or at the end of the
/// sequence pins down `find_named`.
pub proof fn lemma_find_named_is(cs: Seq<NamedChannel>, name: Seq<char>, i: int)
    requires
        0 <= i <= cs.len(),
        forall|j: int| 0 <= j < i ==> cs[j].name@ != name,
        i < cs.len() ==> cs[i].name@ == name,
    ensures
        find_named(cs, name) == i,
    decreases cs.len(),
{
    if cs.len() != 0 && cs[0].name@ != name {
        assert forall|j: int| 0 <= j < i - 1 implies cs.drop_first()[j].name@ != name by {
            assert(cs.drop_first()[j] == cs[j + 1]);
        }
        assert(i - 1 < cs.drop_first().len() ==> cs.drop_first()[i - 1].name@ == name);
        lemma_find_named_is(cs.drop_first(), name, i - 1);
    }
}

impl Registry {
    /// No two channels share a name.
    pub open spec fn wf(self) -> bool {
        forall|i: int, j: int|
            0 <= i < j < self.channels@.len() ==> self.channels@[i].name@
                != self.channels@[j].name@
    }

    /// True when a channel named `name` exists.
    pub open spec fn has_channel(self, name: Seq<char>) -> bool {
        find_named(self.channels@, name) < self.channels@.len()
    }

    /// An empty namespace.
    pub fn new() -> (r: Registry)
        ensures
            r.channels@.len() == 0,
            r.wf(),
    {
        Registry { channels: Vec::new() }
    }

    /// How many channels have been published.
    pub fn channel_count(&self) -> (r: usize)
        ensures
            r == self.channels@.len(),
    {
        self.channels.len()
    }

    /// Index of the channel named `name`, if one exists.
    fn find_channel(&self, name: &str) -> (r: Option<usize>)
        ensures
            match r {
                Some(i) => i == find_named(self.channels@, name@) && i < self.channels@.len(),
                None => find_named(self.channels@, name@) == self.channels@.len(),
            },
    {
        let key = String::from_str(name);
        let n = self.channels.len();
        let mut i: usize = 0;
        while i < n
            invariant
                0 <= i <= n,
                n == self.channels@.len(),
                key@ == name@,
                forall|j: int| 0 <= j < i ==> self.channels@[j].name@ != name@,
            decreases n - i,
        {
            if self.channels[i].name == key {
                proof {
                    lemma_find_named_is(self.channels@, name@, i as int);
                }
                return Some(i);
            }
            i = i + 1;
        }
        proof {
            lemma_find_named_is(self.channels@, name@, n as int);
        }
        None
    }
}

/// A simplex endpoint of a named channel, typed by role and direction.
pub struct Pipe<R, M> {
    /// Index of the channel in the registry it was created against.
    pub chan: usize,
    pub _role: core::marker::PhantomData<R>,
    pub _mode: core::marker::PhantomData<M>,
}

impl<R, M> Pipe<R, M> {
    /// The messages queued in this endpoint's channel, oldest first.
    pub open spec fn queue(self, reg: Registry) -> Seq<Seq<u8>> {
        reg.channels@[self.chan as int].state.messages.deep_view()
    }

    /// This endpoint's channel state.
    pub open spec fn state(self, reg: Registry) -> ChannelState {
        reg.channels@[self.chan as int].state
    }
}

impl<R: PipeRole, M: StreamMode> Pipe<R, M> {
    /// The endpoint refers to a channel of the registry, on the side its
    /// role and direction entitle it to.
    pub open spec fn valid_for(self, reg: Registry) -> bool {
        &&& self.chan < reg.channels@.len()
        &&& if R::spec_is_server() {
            self.state(reg).server_direction == M::spec_direction()
        } else {
            self.state(reg).server_direction != M::spec_direction()
        }
    }
}

/// Why a client connect attempt fails against the given registry, or
/// `None` when it succeeds: the channel must exist, be open, still have
/// its peer slot free, and have the opposite direction on its server end.
pub open spec fn spec_connect_error(reg: Registry, name: Seq<char>, d: Direction) -> Option<
    ChannelError,
> {
    let i = find_named(reg.channels@, name);
    if i >= reg.channels@.len() {
        Some(ChannelError::ServerNotFound)
    } else {
        let st = reg.channels@[i].state;
        if st.closed {
            Some(ChannelError::ServerNotFound)
        } else if st.client_connected {
            Some(ChannelError::ServerBusy)
        } else if st.server_direction == d {
            Some(ChannelError::AccessDenied)
        } else {
            None
        }
    }
}

impl<M: StreamMode> Pipe<Server, M> {
    /// Publishes a new channel under `name` and returns its server
    /// endpoint.  Fails exactly when the name is already in use; the new
    /// channel starts open, empty and without a peer.
    pub fn create_server(reg: &mut Registry, name: &str, capacity: usize) -> (r: Result<
        Pipe<Server, M>,
        ChannelError,
    >)
        requires
            old(reg).wf(),
        ensures
            final(reg).wf(),
            match r {
                Ok(p) => {
                    &&& !old(reg).has_channel(name@)
                    &&& p.chan == old(reg).channels@.len()
                    &&& final(reg).channels@.len() == old(reg).channels@.len() + 1
                    &&& forall|j: int|
                        0 <= j < old(reg).channels@.len() ==> final(reg).channels@[j] == old(reg).channels@[j]
                    &&& final(reg).channels@[p.chan as int].name@ == name@
                    &&& p.state(*final(reg)).capacity == capacity
                    &&& p.state(*final(reg)).server_direction == M::spec_direction()
                    &&& p.queue(*final(reg)) =~= Seq::<Seq<u8>>::empty()
                    &&& !p.state(*final(reg)).client_connected
                    &&& !p.state(*final(reg)).closed
                    &&& p.valid_for(*final(reg))
                },
                Err(e) => {
                    &&& e == ChannelError::NameInUse
                    &&& old(reg).has_channel(name@)
                    &&& *final(reg) == *old(reg)
                },
            },
    {
        match reg.find_channel(name) {
            Some(_) => Err(ChannelError::NameInUse),
            None => {
                let idx = reg.channels.len();
                let state = ChannelState {
                    capacity,
                    server_direction: M::direction(),
                    messages: Vec::new(),
                    client_connected: false,
                    closed: false,
                };
                let entry = NamedChannel { name: String::from_str(name), state };
                proof {
                    // Every existing entry has another name, so the new
                    // one keeps the names distinct.
                    lemma_find_named(reg.channels@, name@);
                }
                reg.channels.push(entry);
                proof {
                    assert(reg.wf());
                }
                Ok(Pipe {
                    chan: idx,
                    _role: core::marker::PhantomData,
                    _mode: core::marker::PhantomData,
                })
            },
        }
    }

    /// Completes the channel by accepting its peer.
    ///
    /// The host's accept blocks until a client connects; this model
    /// instead reports whether the peer is there yet, so a caller retries
    /// until it is.
    pub fn connect(&self, reg: &Registry) -> (r: Result<(), ChannelError>)
        requires
            self.chan < reg.channels@.len(),
        ensures
            match r {
                Ok(()) => self.state(*reg).client_connected && !self.state(*reg).closed,
                Err(e) => {
                    &&& (self.state(*reg).closed || !self.state(*reg).client_connected)
                    &&& e == if self.state(*reg).closed {
                        ChannelError::Closed
                    } else {
                        ChannelError::NoPeer
                    }
                },
            },
    {
        let entry = &self.registry_entry(reg).state;
        if entry.closed {
            Err(ChannelError::Closed)
        } else if entry.client_connected {
            Ok(())
        } else {
            Err(ChannelError::NoPeer)
        }
    }

    /// Shared borrow of this endpoint's registry entry.
    fn registry_entry<'a>(&self, reg: &'a Registry) -> (r: &'a NamedChannel)
        requires
            self.chan < reg.channels@.len(),
        ensures
            *r == reg.channels@[self.chan as int],
    {
        &reg.channels[self.chan]
    }
}

impl<M: StreamMode> Pipe<Client, M> {
    /// Connects to the channel named `name` as its single client peer.
    ///
    /// Succeeds exactly when the channel exists, is open, has no peer
    /// yet, and its server end has the opposite direction; the error
    /// otherwise says which of these failed.
    pub fn create_client(reg: &mut Registry, name: &str) -> (r: Result<
        Pipe<Client, M>,
        ChannelError,
    >)
        requires
            old(reg).wf(),
        ensures
            final(reg).wf(),
            match r {
                Ok(p) => {
                    &&& spec_connect_error(*old(reg), name@, M::spec_direction()) is None
                    &&& p.chan == find_named(old(reg).channels@, name@)
                    &&& final(reg).channels@.len() == old(reg).channels@.len()
                    &&& forall|j: int|
                        0 <= j < old(reg).channels@.len() && j != p.chan ==> final(reg).channels@[j] == old(reg).channels@[j]
                    &&& final(reg).channels@[p.chan as int].name@ == old(reg).channels@[p.chan as int].name@
                    &&& p.state(*final(reg)) == (ChannelState {
                        client_connected: true,
                        ..old(reg).channels@[p.chan as int].state
                    })
                    &&& p.valid_for(*final(reg))
                },
                Err(e) => {
                    &&& Some(e) == spec_connect_error(*old(reg), name@, M::spec_direction())
                    &&& *final(reg) == *old(reg)
                },
            },
    {
        proof {
            lemma_find_named(old(reg).channels@, name@);
        }
        match reg.find_channel(name) {
            None => Err(ChannelError::ServerNotFound),
            Some(i) => {
                let entry = &reg.channels[i];
                if entry.state.closed {
                    Err(ChannelError::ServerNotFound)
                } else if entry.state.client_connected {
                    Err(ChannelError::ServerBusy)
                } else if entry.state.server_direction == M::direction() {
                    Err(ChannelError::AccessDenied)
                } else {
                    let entry = &mut reg.channels[i];
                    entry.state.client_connected = true;
                    proof {
                        assert(reg.wf());
                    }
                    Ok(Pipe {
                        chan: i,
                        _role: core::marker::PhantomData,
                        _mode: core::marker::PhantomData,
                    })
                }
            },
        }
    }
}

/// Why a write fails against the given channel state and message length,
/// or `None` when it succeeds: the channel must be open, have its peer,
/// and the message must fit in its buffer.
pub open spec fn spec_write_error(st: ChannelState, len: nat) -> Option<ChannelError> {
    if st.closed {
        Some(ChannelError::Closed)
    } else if !st.client_connected {
        Some(ChannelError::NotConnected)
    } else if len > st.capacity {
        Some(ChannelError::MessageTooLarge)
    } else {
        None
    }
}

impl<R: PipeRole> Pipe<R, Write> {
    /// Queues one whole message on the channel.
    ///
    /// On success the message is appended behind the ones already queued
    /// and nothing else changes — in particular every other channel is
    /// untouched, so independent channels never interfere.  On failure
    /// the registry is unchanged and the error says why.
    pub fn write(&self, reg: &mut Registry, msg: &[u8]) -> (r: Result<(), ChannelError>)
        requires
            old(reg).wf(),
            self.valid_for(*old(reg)),
        ensures
            final(reg).wf(),
            self.valid_for(*final(reg)),
            final(reg).channels@.len() == old(reg).channels@.len(),
            forall|j: int|
                0 <= j < old(reg).channels@.len() && j != self.chan ==> final(reg).channels@[j] == old(reg).channels@[j],
            final(reg).channels@[self.chan as int].name@ == old(reg).channels@[self.chan as int].name@,
            match r {
                Ok(()) => {
                    &&& spec_write_error(self.state(*old(reg)), msg@.len()) is None
                    &&& self.queue(*final(reg)) == self.queue(*old(reg)).push(msg@)
                    &&& self.state(*final(reg)).capacity == self.state(*old(reg)).capacity
                    &&& self.state(*final(reg)).server_direction == self.state(
                        *old(reg),
                    ).server_direction
                    &&& self.state(*final(reg)).client_connected
                    &&& !self.state(*final(reg)).closed
                },
                Err(e) => {
                    &&& Some(e) == spec_write_error(self.state(*old(reg)), msg@.len())
                    &&& *final(reg) == *old(reg)
                },
            },
    {
        let entry = &reg.channels[self.chan];
        if entry.state.closed {
            return Err(ChannelError::Closed);
        }
        if !entry.state.client_connected {
            return Err(ChannelError::NotConnected);
        }
        if msg.len() > entry.state.capacity {
            return Err(ChannelError::MessageTooLarge);
        }
        let owned = vstd::slice::slice_to_vec(msg);
        let ghost old_deep = self.queue(*reg);
        let entry = &mut reg.channels[self.chan];
        entry.state.messages.push(owned);
        proof {
            assert(self.queue(*reg) =~~= old_deep.push(msg@));
        }
        Ok(())
    }
}

impl<R: PipeRole> Pipe<R, Read> {
    /// How many whole messages wait on the channel.
    pub fn pending_messages(&self, reg: &Registry) -> (r: usize)
        requires
            self.chan < reg.channels@.len(),
        ensures
            r == self.queue(*reg).len(),
    {
        reg.channels[self.chan].state.messages.len()
    }

    /// Takes the oldest queued message off the channel, whole.
    ///
    /// The host's read blocks while the channel is empty; this model
    /// instead asks its caller to have seen a pending message (or a
    /// closed channel, on which reading fails) before calling.
    pub fn read(&self, reg: &mut Registry) -> (r: Result<Vec<u8>, ChannelError>)
        requires
            old(reg).wf(),
            self.valid_for(*old(reg)),
            self.queue(*old(reg)).len() > 0 || self.state(*old(reg)).closed,
        ensures
            final(reg).wf(),
            self.valid_for(*final(reg)),
            final(reg).channels@.len() == old(reg).channels@.len(),
            forall|j: int|
                0 <= j < old(reg).channels@.len() && j != self.chan ==> final(reg).channels@[j] == old(reg).channels@[j],
            match r {
                Ok(m) => {
                    &&& !self.state(*old(reg)).closed
                    &&& self.queue(*old(reg)).len() > 0
                    &&& m@ == self.queue(*old(reg))[0]
                    &&& self.queue(*final(reg)) == self.queue(*old(reg)).drop_first()
                    &&& self.state(*final(reg)) == (ChannelState {
                        messages: self.state(*final(reg)).messages,
                        ..self.state(*old(reg))
                    })
                    &&& final(reg).channels@[self.chan as int].name@ == old(reg).channels@[self.chan as int].name@
                },
                Err(e) => {
                    &&& e == ChannelError::Closed
                    &&& self.state(*old(reg)).closed
                    &&& *final(reg) == *old(reg)
                },
            },
    {
        let entry = &reg.channels[self.chan];
        if entry.state.closed {
            return Err(ChannelError::Closed);
        }
        let ghost old_deep = self.queue(*reg);
        let entry = &mut reg.channels[self.chan];
        let m = entry.state.messages.remove(0);
        proof {
            assert(self.queue(*reg) =~~= old_deep.drop_first());
            assert(m@ == old_deep[0]);
        }
        Ok(m)
    }
}

impl<R: PipeRole, M: StreamMode> Pipe<R, M> {
    /// Closes the channel.  Closing is idempotent: the first call marks
    /// the channel closed and later calls change nothing.
    pub fn close(&self, reg: &mut Registry)
        requires
            old(reg).wf(),
            self.chan < old(reg).channels@.len(),
        ensures
            final(reg).wf(),
            final(reg).channels@.len() == old(reg).channels@.len(),
            forall|j: int|
                0 <= j < old(reg).channels@.len() && j != self.chan ==> final(reg).channels@[j] == old(reg).channels@[j],
            final(reg).channels@[self.chan as int].name@ == old(reg).channels@[self.chan as int].name@,
            self.state(*final(reg)) == (ChannelState { closed: true, ..self.state(*old(reg)) }),
    {
        let entry = &mut reg.channels[self.chan];
        entry.state.closed = true;
    }

    /// Whether the channel has been closed.
    pub fn is_closed(&self, reg: &Registry) -> (r: bool)
        requires
            self.chan < reg.channels@.len(),
        ensures
            r == self.state(*reg).closed,
    {
        reg.channels[self.chan].state.closed
    }
}

} // verus!

//! The bounded connect-retry policy of the client endpoint.
//!
//! Process start order is not guaranteed, so a client that finds no
//! server retries for a while before giving up.  A [`ConnectRetry`]
//! records how many attempts were made and keeps the error of the
//! *first* failed attempt: that error names the root cause (usually
//! "server does not exist yet") rather than whatever a later attempt
//! happened to see.  The delay between attempts is the caller's.

use vstd::prelude::*;

use crate::channel::{find_named, spec_connect_error, ChannelState, Client, Pipe, Registry,
    StreamMode};
use crate::errors::ChannelError;

verus! {

/// Book-keeping of one bounded run of connect attempts.
pub struct ConnectRetry {
    /// How many attempts may be made in all.
    pub max_attempts: u32,
    /// How many attempts have failed so far.
    pub attempts_made: u32,
    /// The error of the first failed attempt, once one has failed.
    pub first_error: Option<ChannelError>,
}

/// A fresh schedule that allows `max_attempts` attempts.
pub open spec fn spec_retry_new(max_attempts: u32) -> ConnectRetry {
    ConnectRetry { max_attempts, attempts_made: 0, first_error: None }
}

impl ConnectRetry {
    /// An attempt has failed exactly when an error has been kept.
    pub open spec fn wf(self) -> bool {
        &&& self.attempts_made <= self.max_attempts
        &&& (self.attempts_made > 0 <==> self.first_error is Some)
    }

    /// The schedule after one more failed attempt: the count grows and
    /// the first error, once set, never changes.
    pub open spec fn spec_record(self, e: ChannelError) -> ConnectRetry {
        ConnectRetry {
            attempts_made: (self.attempts_made + 1) as u32,
            first_error: if self.first_error is Some {
                self.first_error
            } else {
                Some(e)
            },
            ..self
        }
    }

    /// A fresh schedule that allows `max_attempts` attempts.
    pub fn new(max_attempts: u32) -> (r: ConnectRetry)
        ensures
            r == spec_retry_new(max_attempts),
            r.wf(),
    {
        ConnectRetry { max_attempts, attempts_made: 0, first_error: None }
    }

    /// Records one failed attempt.
    pub fn record_failure(&mut self, e: ChannelError)
        requires
            old(self).wf(),
            old(self).attempts_made < old(self).max_attempts,
        ensures
            *final(self) == old(self).spec_record(e),
            final(self).wf(),
    {
        self.attempts_made = self.attempts_made + 1;
        if self.first_error.is_none() {
            self.first_error = Some(e);
        }
    }

    /// True once every allowed attempt has been made.
    pub fn exhausted(&self) -> (r: bool)
        ensures
            r == (self.attempts_made >= self.max_attempts),
    {
        self.attempts_made >= self.max_attempts
    }

    /// The error of the first failed attempt.
    pub fn into_error(self) -> (e: ChannelError)
        requires
            self.first_error is Some,
        ensures
            Some(e) == self.first_error,
    {
        match self.first_error {
            Some(e) => e,
            None => {
                proof {
                    assert(false);
                }
                ChannelError::ServerNotFound
            },
        }
    }
}

/// The schedule after the given failures, in order.
pub open spec fn spec_record_all(s: ConnectRetry, errs: Seq<ChannelError>) -> ConnectRetry
    decreases errs.len(),
{
    if errs.len() == 0 {
        s
    } else {
        spec_record_all(s.spec_record(errs[0]), errs.drop_first())
    }
}

/// Recording failures adds their number to the count and keeps the
/// earliest error.
pub proof fn lemma_record_all(s: ConnectRetry, errs: Seq<ChannelError>)
    requires
        s.attempts_made + errs.len() <= u32::MAX,
    ensures
        spec_record_all(s, errs).max_attempts == s.max_attempts,
        spec_record_all(s, errs).attempts_made == s.attempts_made + errs.len(),
        spec_record_all(s, errs).first_error == if s.first_error is Some {
            s.first_error
        } else if errs.len() > 0 {
            Some(errs[0])
        } else {
            Option::<ChannelError>::None
        },
    decreases errs.len(),
{
    if errs.len() > 0 {
        lemma_record_all(s.spec_record(errs[0]), errs.drop_first());
    }
}

/// Retry bound law: against a peer that fails every attempt, a run with
/// `max_attempts = n` performs exactly `n` attempts and then reports the
/// error of the first attempt — not the last.
pub proof fn lemma_retry_bound(n: u32, errs: Seq<ChannelError>)
    requires
        errs.len() == n,
        n > 0,
    ensures
        spec_record_all(spec_retry_new(n), errs).attempts_made == n,
        spec_record_all(spec_retry_new(n), errs).first_error == Some(errs[0]),
{
    lemma_record_all(spec_retry_new(n), errs);
}

impl<M: StreamMode> Pipe<Client, M> {
    /// Connects to the channel named `name`, retrying up to
    /// `max_attempts` times before giving up with the error of the first
    /// attempt.
    ///
    /// The host's retry loop sleeps between attempts while the server
    /// may still appear; within this model nothing changes between
    /// attempts, so failure reports the error the first attempt saw.
    pub fn create_client_retrying(reg: &mut Registry, name: &str, max_attempts: u32) -> (r: Result<
        Pipe<Client, M>,
        ChannelError,
    >)
        requires
            old(reg).wf(),
            max_attempts > 0,
        ensures
            final(reg).wf(),
            match r {
                Ok(p) => {
                    &&& spec_connect_error(*old(reg), name@, M::spec_direction()) is None
                    &&& p.chan == find_named(old(reg).channels@, name@)
                    &&& p.valid_for(*final(reg))
                    &&& final(reg).channels@.len() == old(reg).channels@.len()
                    &&& forall|j: int|
                        0 <= j < old(reg).channels@.len() && j != p.chan ==> final(reg).channels@[j] == old(reg).channels@[j]
                    &&& final(reg).channels@[p.chan as int].name@ == old(reg).channels@[p.chan as int].name@
                    &&& p.state(*final(reg)) == (ChannelState {
                        client_connected: true,
                        ..old(reg).channels@[p.chan as int].state
                    })
                },
                Err(e) => {
                    &&& Some(e) == spec_connect_error(*old(reg), name@, M::spec_direction())
                    &&& *final(reg) == *old(reg)
                },
            },
    {
        let mut schedule = ConnectRetry::new(max_attempts);
        loop
            invariant
                reg.wf(),
                *reg == *old(reg),
                schedule.wf(),
                schedule.max_attempts == max_attempts,
                schedule.attempts_made < max_attempts,
                schedule.first_error is Some ==> Some(schedule.first_error->0)
                    == spec_connect_error(*old(reg), name@, M::spec_direction()),
            decreases max_attempts - schedule.attempts_made,
        {
            match Self::create_client(reg, name) {
                Ok(p) => {
                    return Ok(p);
                },
                Err(e) => {
                    schedule.record_failure(e);
                },
            }
            if schedule.exhausted() {
                return Err(schedule.into_error());
            }
        }
    }
}

} // verus!

//! Finding the interactive user session the notifier must run in.
//!
//! The host enumerates the sessions; the logic here picks the first one
//! that is active, or the sentinel id 0 when none is (a machine sitting
//! at its logon screen).  Launching a process in the chosen session is a
//! platform call outside the library.

use vstd::prelude::*;

verus! {

/// The connection state of a session, as far as the lookup reads it.
#[derive(Clone, Copy, Debug, PartialEq, Eq, Structural)]
pub enum SessionState {
    /// A user is logged on and the session is on the console.
    Active,
    /// Any other connection state.
    Inactive,
}

/// The fields of an enumerated session that the lookup reads.
#[derive(Clone, Copy, Debug, PartialEq, Eq, Structural)]
pub struct SessionInfo {
    /// The session's numeric id.
    pub session_id: u32,
    /// Its connection state.
    pub state: SessionState,
}

/// The id of the first active session, or 0 when none is active.
pub open spec fn spec_first_active_session(sessions: Seq<SessionInfo>) -> u32
    decreases sessions.len(),
{
    if sessions.len() == 0 {
        0
    } else if sessions[0].state is Active {
        sessions[0].session_id
    } else {
        spec_first_active_session(sessions.drop_first())
    }
}

/// A prefix of inactive sessions pins the lookup to what follows it.
proof fn lemma_first_active_after(sessions: Seq<SessionInfo>, i: int)
    requires
        0 <= i <= sessions.len(),
        forall|j: int| 0 <= j < i ==> !(sessions[j].state is Active),
    ensures
        spec_first_active_session(sessions) == if i < sessions.len() && sessions[i].state
            is Active {
            sessions[i].session_id
        } else if i == sessions.len() {
            0u32
        } else {
            spec_first_active_session(sessions)
        },
    decreases i,
{
    if i > 0 && sessions.len() > 0 {
        assert forall|j: int| 0 <= j < i - 1 implies !(sessions.drop_first()[j].state
            is Active) by {
            assert(sessions.drop_first()[j] == sessions[j + 1]);
        }
        lemma_first_active_after(sessions.drop_first(), i - 1);
        if i < sessions.len() {
            assert(sessions.drop_first()[i - 1] == sessions[i]);
        }
    }
}

/// The id of the first active session among those enumerated, or 0 when
/// no session is active.
pub fn get_current_session_id(sessions: &Vec<SessionInfo>) -> (r: u32)
    ensures
        r == spec_first_active_session(sessions@),
{
    let n = sessions.len();
    let mut i: usize = 0;
    while i < n
        invariant
            0 <= i <= n,
            n == sessions@.len(),
            forall|j: int| 0 <= j < i ==> !(sessions@[j].state is Active),
        decreases n - i,
    {
        let info = sessions[i];
        match info.state {
            SessionState::Active => {
                proof {
                    lemma_first_active_after(sessions@, i as int);
                }
                return info.session_id;
            },
            SessionState::Inactive => {},
        }
        i = i + 1;
    }
    proof {
        lemma_first_active_after(sessions@, n as int);
    }
    0
}

} // verus!

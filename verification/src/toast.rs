//! The toast notification a provider shows on the user's desktop.
//!
//! A [`Toast`] is the value the logic builds and hands over; rendering it
//! through the platform's notification API is the host's work.

use vstd::prelude::*;
use vstd::string::StringExecFns;

verus! {

/// A desktop notification: a title and a body.
#[derive(Debug)]
pub struct Toast {
    pub title: String,
    pub description: String,
}

impl Toast {
    /// A toast with the given title and body.
    pub fn new(title: &str, description: &str) -> (r: Toast)
        ensures
            r.title@ == title@,
            r.description@ == description@,
    {
        Toast { title: String::from_str(title), description: String::from_str(description) }
    }
}

} // verus!

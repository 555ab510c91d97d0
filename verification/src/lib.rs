//! A typed inter-process command channel and service lifecycle model.
//!
//! The library verifies the logic of a small power-management service that
//! reacts to AC/battery transitions: the framed binary codec for the commands
//! the processes exchange, a model of the named message channel connecting
//! them (with its connect-retry policy), the service control state machine,
//! and the pure parts of configuration, display-mode selection and session
//! lookup.  The platform calls that carry these values live outside the
//! library.

use vstd::prelude::*;

pub mod channel;
pub mod codec;
pub mod commands;
pub mod config;
pub mod display;
pub mod errors;
pub mod logging;
pub mod notifications;
pub mod proxy;
pub mod retry;
pub mod service;
pub mod session;
pub mod toast;
pub mod winstr;

verus! {

/// Size in bytes of the message buffer each channel is created with.
pub const PIPE_BUFFER_SIZE: usize = 1024;

/// Name of the channel between the service and the proxy process.
pub const PIPE_NAME: &'static str = "AutoPowerProxy";

/// Name of the channel between the proxy and the notification provider.
pub const NOTIFICATION_PIPE_NAME: &'static str = "AutoPowerPipe";

} // verus!

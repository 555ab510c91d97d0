//! The service control state machine.
//!
//! The service moves through `NotStarted → StartPending → Running →
//! StopPending → Stopped`, never backwards.  The host's control
//! dispatcher delivers control codes on arbitrary threads; the handlers
//! here are the decisions those threads make, and each is quick: the
//! host schedules the real work elsewhere and returns.  One manual-reset
//! stop signal, created during startup, is signalled exactly once — the
//! stop handler's guard makes a second stop request a no-op — and the
//! main thread's wait on it ends the run.

use vstd::prelude::*;

use crate::channel::{spec_write_error, Registry};
use crate::commands::{PowerConfigSelection, ProxyCommand};
use crate::errors::ChannelError;
use crate::proxy::Proxy;

verus! {

/// Control code delivered when the service must stop.
pub const SERVICE_CONTROL_STOP: u32 = 1;

/// Control code delivered when a power event occurred.
pub const SERVICE_CONTROL_POWEREVENT: u32 = 13;

/// Power event type announcing a changed power setting.
pub const PBT_POWERSETTINGCHANGE: u32 = 32787;

/// Power event type: the system asks whether it may suspend.
pub const PBT_APMQUERYSUSPEND: u32 = 0;

/// Power event type: the system asks whether it may stand by.
pub const PBT_APMQUERYSTANDBY: u32 = 1;

/// Power event type: a requested suspend was denied.
pub const PBT_APMQUERYSUSPENDFAILED: u32 = 2;

/// Power event type: a requested standby was denied.
pub const PBT_APMQUERYSTANDBYFAILED: u32 = 3;

/// Power event type: the system is suspending.
pub const PBT_APMSUSPEND: u32 = 4;

/// Power event type: the system is entering standby.
pub const PBT_APMSTANDBY: u32 = 5;

/// Power event type: resume after a critical suspension.
pub const PBT_APMRESUMECRITICAL: u32 = 6;

/// Power event type: resume from suspend.
pub const PBT_APMRESUMESUSPEND: u32 = 7;

/// Power event type: resume from standby.
pub const PBT_APMRESUMESTANDBY: u32 = 8;

/// Power event type: the power status changed.
pub const PBT_APMPOWERSTATUSCHANGE: u32 = 10;

/// Power event type: an OEM-defined event occurred.
pub const PBT_APMOEMEVENT: u32 = 11;

/// Power event type: automatic resume.
pub const PBT_APMRESUMEAUTOMATIC: u32 = 18;

/// Power condition value for wired (AC) power.
pub const POWER_CONDITION_AC: u8 = 0;

/// Power condition value for battery (DC) power.
pub const POWER_CONDITION_DC: u8 = 1;

/// The lifecycle states of the service, in the order they are entered.
#[derive(Clone, Copy, Debug, PartialEq, Eq, Structural)]
pub enum ServiceState {
    NotStarted,
    StartPending,
    Running,
    StopPending,
    Stopped,
}

/// Position of a state in the lifecycle's order.
pub open spec fn spec_state_rank(s: ServiceState) -> int {
    match s {
        ServiceState::NotStarted => 0,
        ServiceState::StartPending => 1,
        ServiceState::Running => 2,
        ServiceState::StopPending => 3,
        ServiceState::Stopped => 4,
    }
}

/// The transitions a run may take: staying put (the host republishes a
/// state), or one step forward along the lifecycle.
pub open spec fn spec_transition_allowed(from: ServiceState, to: ServiceState) -> bool {
    ||| from == to
    ||| (from is NotStarted && to is StartPending)
    ||| (from is StartPending && to is Running)
    ||| (from is Running && to is StopPending)
    ||| (from is StopPending && to is Stopped)
}

/// Transitions never move backwards: the lifecycle is monotonic within
/// one run.
pub proof fn lemma_transitions_monotonic(from: ServiceState, to: ServiceState)
    requires
        spec_transition_allowed(from, to),
    ensures
        spec_state_rank(from) <= spec_state_rank(to),
{
}

/// The one manual-reset signal that ends the main thread's wait.
pub struct StopSignal {
    /// Whether the signal has been set.
    pub signaled: bool,
    /// How many times `signal` was invoked.
    pub signal_count: u64,
}

impl StopSignal {
    /// Set exactly when it has been signalled at least once.
    pub open spec fn wf(self) -> bool {
        self.signaled <==> self.signal_count > 0
    }

    /// A fresh, unsignalled signal.
    pub fn new() -> (r: StopSignal)
        ensures
            !r.signaled,
            r.signal_count == 0,
            r.wf(),
    {
        StopSignal { signaled: false, signal_count: 0 }
    }

    /// Sets the signal; the count records every invocation.
    pub fn signal(&mut self)
        requires
            old(self).signal_count < u64::MAX,
        ensures
            final(self).signaled,
            final(self).signal_count == old(self).signal_count + 1,
            final(self).wf(),
    {
        self.signaled = true;
        self.signal_count = self.signal_count + 1;
    }

    /// Whether the signal has been set.
    pub fn is_signaled(&self) -> (r: bool)
        ensures
            r == self.signaled,
    {
        self.signaled
    }
}

/// The service's own state: its lifecycle position and the resources it
/// acquires during startup.
pub struct PowerService {
    pub state: ServiceState,
    pub stop_event: Option<StopSignal>,
    pub proxy: Option<Proxy>,
}

/// How many times the service's stop signal has been signalled.
pub open spec fn spec_signal_count(s: PowerService) -> int {
    match s.stop_event {
        Some(ev) => ev.signal_count as int,
        None => 0,
    }
}

/// The stop transition: from `Running` the service moves to
/// `StopPending` and signals the stop event once; in any other state the
/// request is a no-op.
pub open spec fn spec_handle_stop(s: PowerService) -> PowerService {
    if s.state is Running && s.stop_event is Some {
        PowerService {
            state: ServiceState::StopPending,
            stop_event: Some(
                StopSignal {
                    signaled: true,
                    signal_count: (s.stop_event->0.signal_count + 1) as u64,
                },
            ),
            ..s
        }
    } else {
        s
    }
}

impl PowerService {
    /// Once running (or stopping), the startup resources are in place
    /// and the stop signal has not been consumed by overflow.
    pub open spec fn wf(self) -> bool {
        &&& (self.state is Running || self.state is StopPending) ==> (self.stop_event is Some
            && self.proxy is Some)
        &&& self.stop_event is Some ==> self.stop_event->0.wf()
        &&& self.state is Running ==> !self.stop_event->0.signaled
    }

    /// A service that has not been started.
    pub fn new() -> (r: PowerService)
        ensures
            r.state is NotStarted,
            r.stop_event is None,
            r.proxy is None,
            r.wf(),
    {
        PowerService { state: ServiceState::NotStarted, stop_event: None, proxy: None }
    }

    /// Publishes a new lifecycle state, which must be the current one or
    /// the next along the lifecycle; entering `Running` needs every
    /// startup resource in place.
    pub fn set_service_status(&mut self, to: ServiceState)
        requires
            old(self).wf(),
            spec_transition_allowed(old(self).state, to),
            (to is Running || to is StopPending) ==> (old(self).stop_event is Some && old(
                self,
            ).proxy is Some),
            to is Running ==> !old(self).stop_event->0.signaled,
        ensures
            final(self).state == to,
            final(self).stop_event == old(self).stop_event,
            final(self).proxy == old(self).proxy,
            final(self).wf(),
    {
        self.state = to;
    }

    /// Hands the service its connected proxy during startup.
    pub fn attach_proxy(&mut self, proxy: Proxy)
        requires
            old(self).wf(),
            old(self).state is StartPending,
        ensures
            final(self).proxy == Some(proxy),
            final(self).state == old(self).state,
            final(self).stop_event == old(self).stop_event,
            final(self).wf(),
    {
        self.proxy = Some(proxy);
    }

    /// Creates the stop signal during startup.
    pub fn create_stop_event(&mut self)
        requires
            old(self).wf(),
            old(self).state is StartPending,
        ensures
            final(self).stop_event matches Some(ev) && !ev.signaled && ev.signal_count == 0,
            final(self).state == old(self).state,
            final(self).proxy == old(self).proxy,
            final(self).wf(),
    {
        self.stop_event = Some(StopSignal::new());
    }

    /// Handles a stop request.
    ///
    /// Only a running service reacts: it enters `StopPending` and
    /// signals the stop event, returning `true`.  In any other state —
    /// in particular when a second stop request races the first — the
    /// request is a no-op and nothing is signalled.
    pub fn handle_stop(&mut self) -> (signaled: bool)
        requires
            old(self).wf(),
            old(self).state is Running ==> old(self).stop_event->0.signal_count < u64::MAX,
        ensures
            *final(self) == spec_handle_stop(*old(self)),
            signaled == (old(self).state is Running),
            final(self).wf(),
    {
        match &self.current_status() {
            ServiceState::Running => {},
            _ => {
                return false;
            },
        }
        self.state = ServiceState::StopPending;
        match &mut self.stop_event {
            Some(ev) => {
                ev.signal();
            },
            None => {
                proof {
                    assert(false);
                }
            },
        }
        true
    }

    /// The current lifecycle state.
    pub fn current_status(&self) -> (r: ServiceState)
        ensures
            r == self.state,
    {
        self.state
    }

    /// Completes the shutdown after the main thread's wait has ended:
    /// the stop signal is closed and the service is `Stopped`.
    pub fn complete_stop(&mut self)
        requires
            old(self).wf(),
            old(self).state is StopPending,
        ensures
            final(self).state is Stopped,
            final(self).stop_event is None,
            final(self).proxy == old(self).proxy,
            final(self).wf(),
    {
        self.state = ServiceState::Stopped;
        self.stop_event = None;
    }

    /// The startup sequence up to the point where the service must wait
    /// for its peer: announce `StartPending`, publish the proxy channel
    /// and create the stop signal.
    ///
    /// A failed acquisition is fatal to the start: the service is left
    /// in `StartPending` with nothing signalled and the host aborts, so
    /// it never runs half-initialized.
    pub fn begin_startup(&mut self, reg: &mut Registry) -> (r: Result<(), ChannelError>)
        requires
            old(self).wf(),
            old(self).state is NotStarted,
            old(reg).wf(),
        ensures
            final(reg).wf(),
            final(self).wf(),
            final(self).state is StartPending,
            match r {
                Ok(()) => {
                    &&& !old(reg).has_channel(crate::PIPE_NAME@)
                    &&& final(self).proxy is Some
                    &&& final(self).proxy->0.pipe.chan == old(reg).channels@.len()
                    &&& final(self).proxy->0.pipe.valid_for(*final(reg))
                    &&& final(reg).channels@.len() == old(reg).channels@.len() + 1
                    &&& forall|j: int|
                        0 <= j < old(reg).channels@.len() ==> final(reg).channels@[j] == old(reg).channels@[j]
                    &&& final(reg).channels@[final(self).proxy->0.pipe.chan as int].name@
                        == crate::PIPE_NAME@
                    &&& final(self).proxy->0.pipe.state(*final(reg)).capacity
                        == crate::PIPE_BUFFER_SIZE
                    &&& final(self).proxy->0.pipe.queue(*final(reg)) =~= Seq::<Seq<u8>>::empty()
                    &&& !final(self).proxy->0.pipe.state(*final(reg)).client_connected
                    &&& !final(self).proxy->0.pipe.state(*final(reg)).closed
                    &&& (final(self).stop_event matches Some(ev) && !ev.signaled)
                },
                Err(e) => {
                    &&& e == ChannelError::NameInUse
                    &&& old(reg).has_channel(crate::PIPE_NAME@)
                    &&& *final(reg) == *old(reg)
                },
            },
    {
        self.set_service_status(ServiceState::StartPending);
        let proxy = match Proxy::create(reg) {
            Ok(p) => p,
            Err(e) => {
                return Err(e);
            },
        };
        self.attach_proxy(proxy);
        self.create_stop_event();
        Ok(())
    }

    /// The last step of the startup sequence, once the host's accept has
    /// seen the proxy process connect: the service enters `Running`.
    ///
    /// While no peer has connected the service stays in `StartPending`
    /// and the host keeps waiting.
    pub fn enter_running(&mut self, reg: &Registry) -> (r: Result<(), ChannelError>)
        requires
            old(self).wf(),
            old(self).state is StartPending,
            old(self).proxy is Some,
            old(self).stop_event is Some,
            !old(self).stop_event->0.signaled,
            old(self).proxy->0.pipe.chan < reg.channels@.len(),
        ensures
            final(self).wf(),
            final(self).proxy == old(self).proxy,
            final(self).stop_event == old(self).stop_event,
            match r {
                Ok(()) => {
                    &&& final(self).state is Running
                    &&& old(self).proxy->0.pipe.state(*reg).client_connected
                },
                Err(e) => {
                    &&& final(self).state is StartPending
                    &&& !(old(self).proxy->0.pipe.state(*reg).client_connected && !old(
                        self,
                    ).proxy->0.pipe.state(*reg).closed)
                    &&& e == if old(self).proxy->0.pipe.state(*reg).closed {
                        ChannelError::Closed
                    } else {
                        ChannelError::NoPeer
                    }
                },
            },
    {
        let connected = match &self.proxy {
            Some(p) => p.accept(reg),
            None => {
                proof {
                    assert(false);
                }
                Err(ChannelError::NotConnected)
            },
        };
        match connected {
            Ok(()) => {
                self.set_service_status(ServiceState::Running);
                Ok(())
            },
            Err(e) => Err(e),
        }
    }

    /// Handles one delivered power event on a worker thread.
    ///
    /// Only a power-source change is acted on: the matching command is
    /// sent to the proxy process, and `Ok(true)` reports that one was.
    /// Every other event is ignored with `Ok(false)`.  A failed send —
    /// a worker racing shutdown may write into a closing channel — is
    /// returned for the host to log; the service carries on.
    pub fn handle_power_event(&self, reg: &mut Registry, event: &PowerEvent) -> (r: Result<
        bool,
        ChannelError,
    >)
        requires
            old(reg).wf(),
            self.proxy is Some,
            self.proxy->0.pipe.valid_for(*old(reg)),
        ensures
            final(reg).wf(),
            self.proxy->0.pipe.valid_for(*final(reg)),
            match spec_power_event_command(*event) {
                Some(cmd) => match r {
                    Ok(sent) => sent && self.proxy->0.pipe.queue(*final(reg))
                        == self.proxy->0.pipe.queue(*old(reg)).push(
                        crate::codec::spec_encode_proxy(cmd),
                    ),
                    Err(e) => {
                        &&& Some(e) == spec_write_error(
                            self.proxy->0.pipe.state(*old(reg)),
                            crate::codec::spec_encode_proxy(cmd).len(),
                        )
                        &&& *final(reg) == *old(reg)
                    },
                },
                None => r == Ok::<bool, ChannelError>(false) && *final(reg) == *old(reg),
            },
    {
        let command = match select_power_command(event) {
            Some(c) => c,
            None => {
                return Ok(false);
            },
        };
        match &self.proxy {
            Some(proxy) => match proxy.send_command(reg, &command) {
                Ok(()) => Ok(true),
                Err(e) => Err(e),
            },
            None => {
                proof {
                    assert(false);
                }
                Err(ChannelError::NotConnected)
            },
        }
    }

    /// Sends the wired-power command to the proxy process.
    pub fn handle_on_wired_power(&self, reg: &mut Registry) -> (r: Result<(), ChannelError>)
        requires
            old(reg).wf(),
            self.proxy is Some,
            self.proxy->0.pipe.valid_for(*old(reg)),
        ensures
            final(reg).wf(),
            self.proxy->0.pipe.valid_for(*final(reg)),
            r is Ok ==> self.proxy->0.pipe.queue(*final(reg)) == self.proxy->0.pipe.queue(
                *old(reg),
            ).push(
                crate::codec::spec_encode_proxy(
                    ProxyCommand::ChangePowerConfig(PowerConfigSelection::Wired),
                ),
            ),
            r matches Err(e) ==> Some(e) == spec_write_error(
                self.proxy->0.pipe.state(*old(reg)),
                crate::codec::spec_encode_proxy(
                    ProxyCommand::ChangePowerConfig(PowerConfigSelection::Wired),
                ).len(),
            ) && *final(reg) == *old(reg),
    {
        match &self.proxy {
            Some(proxy) => proxy.send_command(
                reg,
                &ProxyCommand::ChangePowerConfig(PowerConfigSelection::Wired),
            ),
            None => {
                proof {
                    assert(false);
                }
                Err(ChannelError::NotConnected)
            },
        }
    }

    /// Sends the battery-power command to the proxy process.
    pub fn handle_on_battery_power(&self, reg: &mut Registry) -> (r: Result<(), ChannelError>)
        requires
            old(reg).wf(),
            self.proxy is Some,
            self.proxy->0.pipe.valid_for(*old(reg)),
        ensures
            final(reg).wf(),
            self.proxy->0.pipe.valid_for(*final(reg)),
            r is Ok ==> self.proxy->0.pipe.queue(*final(reg)) == self.proxy->0.pipe.queue(
                *old(reg),
            ).push(
                crate::codec::spec_encode_proxy(
                    ProxyCommand::ChangePowerConfig(PowerConfigSelection::Battery),
                ),
            ),
            r matches Err(e) ==> Some(e) == spec_write_error(
                self.proxy->0.pipe.state(*old(reg)),
                crate::codec::spec_encode_proxy(
                    ProxyCommand::ChangePowerConfig(PowerConfigSelection::Battery),
                ).len(),
            ) && *final(reg) == *old(reg),
    {
        match &self.proxy {
            Some(proxy) => proxy.send_command(
                reg,
                &ProxyCommand::ChangePowerConfig(PowerConfigSelection::Battery),
            ),
            None => {
                proof {
                    assert(false);
                }
                Err(ChannelError::NotConnected)
            },
        }
    }
}

/// Idempotent stop law: from any well-formed service state, issuing the
/// stop transition twice in sequence signals the stop event exactly once
/// when the service was running, and never otherwise — the second
/// request is always a no-op.
pub proof fn lemma_stop_idempotent(s: PowerService)
    requires
        s.wf(),
        s.state is Running ==> s.stop_event->0.signal_count < u64::MAX,
    ensures
        spec_handle_stop(spec_handle_stop(s)) == spec_handle_stop(s),
        spec_signal_count(spec_handle_stop(spec_handle_stop(s))) == spec_signal_count(s) + (
        if s.state is Running {
            1int
        } else {
            0int
        }),
{
}

/// What a power event asks the service to do, as read from the event's
/// payload: the event type, whether the changed setting is the power
/// source, and the new power condition.
pub struct PowerEvent {
    /// The power event type the host delivered.
    pub event_type: u32,
    /// Whether the changed setting is the AC/DC power source.
    pub is_power_source_setting: bool,
    /// The new power condition value.
    pub condition: u8,
}

/// The command a power event calls for.
///
/// Only a power-setting-change event for the power-source setting is
/// acted on: condition 0 (AC) selects the wired profile and condition 1
/// (DC) the battery profile.  Every other event asks for nothing.
pub open spec fn spec_power_event_command(e: PowerEvent) -> Option<ProxyCommand> {
    if e.event_type == PBT_POWERSETTINGCHANGE && e.is_power_source_setting {
        if e.condition == POWER_CONDITION_AC {
            Some(ProxyCommand::ChangePowerConfig(PowerConfigSelection::Wired))
        } else if e.condition == POWER_CONDITION_DC {
            Some(ProxyCommand::ChangePowerConfig(PowerConfigSelection::Battery))
        } else {
            None
        }
    } else {
        None
    }
}

/// Decides what a delivered power event asks for.
pub fn select_power_command(e: &PowerEvent) -> (r: Option<ProxyCommand>)
    ensures
        r == spec_power_event_command(*e),
{
    if e.event_type == PBT_POWERSETTINGCHANGE && e.is_power_source_setting {
        if e.condition == POWER_CONDITION_AC {
            Some(ProxyCommand::ChangePowerConfig(PowerConfigSelection::Wired))
        } else if e.condition == POWER_CONDITION_DC {
            Some(ProxyCommand::ChangePowerConfig(PowerConfigSelection::Battery))
        } else {
            None
        }
    } else {
        None
    }
}

/// The name of a power event type, for the diagnostic log; writing the
/// log line is the host's work.
pub fn power_event_type_name(event_type: u32) -> (r: &'static str)
    ensures
        event_type == PBT_APMQUERYSUSPEND ==> r@ == "PBT_APMQUERYSUSPEND"@,
        event_type == PBT_APMQUERYSTANDBY ==> r@ == "PBT_APMQUERYSTANDBY"@,
        event_type == PBT_APMQUERYSUSPENDFAILED ==> r@ == "PBT_APMQUERYSUSPENDFAILED"@,
        event_type == PBT_APMQUERYSTANDBYFAILED ==> r@ == "PBT_APMQUERYSTANDBYFAILED"@,
        event_type == PBT_APMSUSPEND ==> r@ == "PBT_APMSUSPEND"@,
        event_type == PBT_APMSTANDBY ==> r@ == "PBT_APMSTANDBY"@,
        event_type == PBT_APMRESUMECRITICAL ==> r@ == "PBT_APMRESUMECRITICAL"@,
        event_type == PBT_APMRESUMESUSPEND ==> r@ == "PBT_APMRESUMESUSPEND"@,
        event_type == PBT_APMRESUMESTANDBY ==> r@ == "PBT_APMRESUMESTANDBY"@,
        event_type == PBT_APMPOWERSTATUSCHANGE ==> r@ == "PBT_APMPOWERSTATUSCHANGE"@,
        event_type == PBT_APMOEMEVENT ==> r@ == "PBT_APMOEMEVENT"@,
        event_type == PBT_APMRESUMEAUTOMATIC ==> r@ == "PBT_APMRESUMEAUTOMATIC"@,
        event_type == PBT_POWERSETTINGCHANGE ==> r@ == "PBT_POWERSETTINGCHANGE"@,
{
    match event_type {
        PBT_APMQUERYSUSPEND => "PBT_APMQUERYSUSPEND",
        PBT_APMQUERYSTANDBY => "PBT_APMQUERYSTANDBY",
        PBT_APMQUERYSUSPENDFAILED => "PBT_APMQUERYSUSPENDFAILED",
        PBT_APMQUERYSTANDBYFAILED => "PBT_APMQUERYSTANDBYFAILED",
        PBT_APMSUSPEND => "PBT_APMSUSPEND",
        PBT_APMSTANDBY => "PBT_APMSTANDBY",
        PBT_APMRESUMECRITICAL => "PBT_APMRESUMECRITICAL",
        PBT_APMRESUMESUSPEND => "PBT_APMRESUMESUSPEND",
        PBT_APMRESUMESTANDBY => "PBT_APMRESUMESTANDBY",
        PBT_APMPOWERSTATUSCHANGE => "PBT_APMPOWERSTATUSCHANGE",
        PBT_APMOEMEVENT => "PBT_APMOEMEVENT",
        PBT_APMRESUMEAUTOMATIC => "PBT_APMRESUMEAUTOMATIC",
        PBT_POWERSETTINGCHANGE => "PBT_POWERSETTINGCHANGE",
        _ => "unknown",
    }
}

/// What the control dispatcher schedules for a delivered control code.
#[derive(Clone, Copy, Debug, PartialEq, Eq, Structural)]
pub enum ControlAction {
    /// Handle a power event on a worker thread.
    HandlePowerEvent,
    /// Handle a stop request on a worker thread.
    HandleStop,
    /// An unknown code: log it and do nothing.
    Ignore,
}

/// Decides what a delivered control code asks for.  The dispatch itself
/// does no work: the host spawns a worker for the returned action and
/// returns at once, as the control callback must.
pub fn control_dispatch(ctrl_code: u32) -> (r: ControlAction)
    ensures
        ctrl_code == SERVICE_CONTROL_POWEREVENT ==> r is HandlePowerEvent,
        ctrl_code == SERVICE_CONTROL_STOP ==> r is HandleStop,
        (ctrl_code != SERVICE_CONTROL_POWEREVENT && ctrl_code != SERVICE_CONTROL_STOP) ==> r
            is Ignore,
{
    if ctrl_code == SERVICE_CONTROL_POWEREVENT {
        ControlAction::HandlePowerEvent
    } else if ctrl_code == SERVICE_CONTROL_STOP {
        ControlAction::HandleStop
    } else {
        ControlAction::Ignore
    }
}

} // verus!

//! The service lifecycle, the stop guard, the control and power-event
//! dispatch, and the end-to-end command scenarios.

use autopower::channel::{Client, Pipe, Read, Registry, Server, Write};
use autopower::commands::{PowerConfigSelection, ProxyCommand};
use autopower::config::{PowerConfig, PowerScheme};
use autopower::errors::ChannelError;
use autopower::notifications::{
    execute_notification_command, NotificationProvider, NotifierAction,
};
use autopower::proxy::{delivered_command_round_trip, execute_command};
use autopower::service::{
    control_dispatch, power_event_type_name, select_power_command, ControlAction, PowerEvent,
    PowerService, ServiceState, PBT_APMSUSPEND, PBT_POWERSETTINGCHANGE, POWER_CONDITION_AC,
    POWER_CONDITION_DC, SERVICE_CONTROL_POWEREVENT, SERVICE_CONTROL_STOP,
};

/// Brings a service to `Running` with a connected proxy channel, and
/// returns the proxy process's reading end beside it.
fn running_service(reg: &mut Registry) -> (PowerService, Pipe<Client, Read>) {
    let mut service = PowerService::new();
    service.begin_startup(reg).unwrap();
    // The service's accept finds no peer until the proxy process has
    // connected.
    assert!(service.enter_running(reg).is_err());
    assert_eq!(service.current_status(), ServiceState::StartPending);
    let reader = Pipe::<Client, Read>::connect_proxy_channel(reg, 15).unwrap();
    service.enter_running(reg).unwrap();
    (service, reader)
}

#[test]
fn stop_transition_signals_exactly_once() {
    let mut reg = Registry::new();
    let (mut service, _reader) = running_service(&mut reg);
    assert_eq!(service.current_status(), ServiceState::Running);
    // First stop request: the service leaves Running and signals.
    assert!(service.handle_stop());
    assert_eq!(service.current_status(), ServiceState::StopPending);
    assert_eq!(service.stop_event.as_ref().unwrap().signal_count, 1);
    // Second stop request in sequence: a no-op, nothing more signalled.
    assert!(!service.handle_stop());
    assert_eq!(service.current_status(), ServiceState::StopPending);
    assert_eq!(service.stop_event.as_ref().unwrap().signal_count, 1);
    service.complete_stop();
    assert_eq!(service.current_status(), ServiceState::Stopped);
}

#[test]
fn startup_aborts_when_the_channel_name_is_taken() {
    let mut reg = Registry::new();
    // Another process already owns the proxy channel's name.
    Pipe::<Server, Write>::create_server(&mut reg, "AutoPowerProxy", 1024).unwrap();
    let mut service = PowerService::new();
    assert_eq!(
        service.begin_startup(&mut reg).unwrap_err(),
        ChannelError::NameInUse
    );
    assert_eq!(service.current_status(), ServiceState::StartPending);
}

#[test]
fn power_event_types_have_names() {
    assert_eq!(power_event_type_name(PBT_POWERSETTINGCHANGE), "PBT_POWERSETTINGCHANGE");
    assert_eq!(power_event_type_name(PBT_APMSUSPEND), "PBT_APMSUSPEND");
    assert_eq!(power_event_type_name(9999), "unknown");
}

#[test]
fn stop_before_running_is_a_no_op() {
    let mut service = PowerService::new();
    assert!(!service.handle_stop());
    assert_eq!(service.current_status(), ServiceState::NotStarted);
    service.set_service_status(ServiceState::StartPending);
    assert!(!service.handle_stop());
    assert_eq!(service.current_status(), ServiceState::StartPending);
}

#[test]
fn control_codes_dispatch_to_their_handlers() {
    assert_eq!(
        control_dispatch(SERVICE_CONTROL_POWEREVENT),
        ControlAction::HandlePowerEvent
    );
    assert_eq!(control_dispatch(SERVICE_CONTROL_STOP), ControlAction::HandleStop);
    assert_eq!(control_dispatch(3), ControlAction::Ignore);
}

#[test]
fn power_events_select_their_command() {
    let battery = PowerEvent {
        event_type: PBT_POWERSETTINGCHANGE,
        is_power_source_setting: true,
        condition: POWER_CONDITION_DC,
    };
    assert_eq!(
        select_power_command(&battery),
        Some(ProxyCommand::ChangePowerConfig(PowerConfigSelection::Battery))
    );
    let wired = PowerEvent { condition: POWER_CONDITION_AC, ..battery };
    assert_eq!(
        select_power_command(&wired),
        Some(ProxyCommand::ChangePowerConfig(PowerConfigSelection::Wired))
    );
    let other_setting = PowerEvent { is_power_source_setting: false, ..battery };
    assert_eq!(select_power_command(&other_setting), None);
    let other_event = PowerEvent { event_type: 1, ..battery };
    assert_eq!(select_power_command(&other_event), None);
    let unknown_condition = PowerEvent { condition: 2, ..battery };
    assert_eq!(select_power_command(&unknown_condition), None);
}

#[test]
fn battery_command_dispatches_only_the_battery_path() {
    // Scenario: ChangePowerConfig(Battery) travels the channel; the
    // receiver's dispatch must take the battery path, never the wired
    // one.
    let mut reg = Registry::new();
    let (service, reader) = running_service(&mut reg);
    service.handle_on_battery_power(&mut reg).unwrap();
    assert_eq!(reader.pending_messages(&reg), 1);
    let command = reader.read_command(&mut reg).unwrap();
    assert_eq!(
        command,
        ProxyCommand::ChangePowerConfig(PowerConfigSelection::Battery)
    );
    let config = PowerConfig::get_or_create(None);
    let plan = execute_command(&command, &config);
    // The battery profile — and only it — carries the balanced scheme.
    assert_eq!(plan.power_scheme, PowerScheme::Balanced);
    let notification = plan.notification.unwrap();
    assert_eq!(notification.content, "AutoPower\nSwitching to Battery.");
    // The wired path was not taken: its plan differs in every marker.
    let wired_plan = execute_command(
        &ProxyCommand::ChangePowerConfig(PowerConfigSelection::Wired),
        &config,
    );
    assert_eq!(wired_plan.power_scheme, PowerScheme::HighPerformance);
    assert_eq!(
        wired_plan.notification.unwrap().content,
        "AutoPower\nSwitching to Wired."
    );
}

#[test]
fn power_event_handler_sends_or_ignores() {
    let mut reg = Registry::new();
    let (service, reader) = running_service(&mut reg);
    let battery_event = PowerEvent {
        event_type: PBT_POWERSETTINGCHANGE,
        is_power_source_setting: true,
        condition: POWER_CONDITION_DC,
    };
    assert_eq!(service.handle_power_event(&mut reg, &battery_event), Ok(true));
    // An event for another setting is ignored without touching the
    // channel.
    let other = PowerEvent { is_power_source_setting: false, ..battery_event };
    assert_eq!(service.handle_power_event(&mut reg, &other), Ok(false));
    assert_eq!(reader.pending_messages(&reg), 1);
    assert_eq!(
        reader.read_command(&mut reg).unwrap(),
        ProxyCommand::ChangePowerConfig(PowerConfigSelection::Battery)
    );
}

#[test]
fn wired_command_travels_the_channel() {
    let mut reg = Registry::new();
    let (service, reader) = running_service(&mut reg);
    service.handle_on_wired_power(&mut reg).unwrap();
    assert_eq!(
        reader.read_command(&mut reg).unwrap(),
        ProxyCommand::ChangePowerConfig(PowerConfigSelection::Wired)
    );
}

#[test]
fn send_after_terminate_is_an_error_not_a_crash() {
    // A power-event worker racing shutdown may write into a closing
    // channel; the send fails and is reported, nothing more.
    let mut reg = Registry::new();
    let (service, _reader) = running_service(&mut reg);
    match &service.proxy {
        Some(p) => p.terminate(&mut reg),
        None => unreachable!(),
    }
    assert_eq!(
        service.handle_on_battery_power(&mut reg).err().unwrap(),
        ChannelError::Closed
    );
}

#[test]
fn delivery_is_whole_and_exact() {
    // One write, one read, one command — the no-partial-delivery law on
    // concrete values.
    let mut reg = Registry::new();
    let (service, reader) = running_service(&mut reg);
    let proxy = service.proxy.as_ref().unwrap();
    let sent = ProxyCommand::ChangePowerConfig(PowerConfigSelection::Battery);
    let received = delivered_command_round_trip(proxy, &reader, &mut reg, &sent);
    assert_eq!(received, sent);
    assert_eq!(reader.pending_messages(&reg), 0);
}

#[test]
fn display_command_reaches_the_notifier_byte_for_byte() {
    // Scenario: Display { title: "AutoPower", body: "Switching to
    // Balanced." } crosses the notification channel and the decoded
    // strings match exactly, embedded newline included.
    let mut reg = Registry::new();
    let provider = NotificationProvider::create(&mut reg).unwrap();
    let reader = Pipe::<Client, Read>::connect_notification_channel(&mut reg, 15).unwrap();
    assert!(provider.accept(&reg).is_ok());
    provider
        .send_display_command(&mut reg, "AutoPower", "Switching to Balanced.")
        .unwrap();
    let command = reader.read_notification_command(&mut reg).unwrap();
    assert_eq!(command.name, "display");
    assert_eq!(command.content, "AutoPower\nSwitching to Balanced.");
    match execute_notification_command(&command) {
        NotifierAction::Show(toast) => {
            assert_eq!(toast.title, "AutoPower");
            assert_eq!(toast.description, "Switching to Balanced.");
        },
        _ => panic!("display command must show a toast"),
    }
}

#[test]
fn notifier_ignores_unknown_commands() {
    let command = autopower::commands::NotificationCommand {
        name: "reload".to_string(),
        content: "whatever".to_string(),
    };
    assert!(matches!(
        execute_notification_command(&command),
        NotifierAction::Ignore
    ));
    let malformed = autopower::commands::NotificationCommand {
        name: "display".to_string(),
        content: "no newline here".to_string(),
    };
    assert!(matches!(
        execute_notification_command(&malformed),
        NotifierAction::Malformed
    ));
}

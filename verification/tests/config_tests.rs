//! Configuration, display-mode selection, session lookup, wide strings,
//! logging and error descriptions.

use autopower::commands::{split_display_content, NotificationCommand};
use autopower::config::{PowerConfig, PowerScheme, StateConfig};
use autopower::display::{
    get_closest_match_display_mode, modes_matching_current, DisplayMode, RefreshRateMode,
};
use autopower::errors::{ChannelError, ConfigError, DecodeError};
use autopower::logging::{LogLevel, Logger};
use autopower::session::{get_current_session_id, SessionInfo, SessionState};
use autopower::winstr::{get_nullterminated_utf16_from_utf8, Win32String};

fn mode(frequency: u32) -> DisplayMode {
    DisplayMode { width: 1920, height: 1080, bits_per_pixel: 32, frequency }
}

#[test]
fn default_config_profiles() {
    let config = PowerConfig::get_or_create(None);
    let wired = config.get_wired_config();
    assert_eq!(wired.state_name, "Wired");
    assert_eq!(wired.power_scheme, PowerScheme::HighPerformance);
    assert!(wired.change_refresh_rate);
    assert_eq!(wired.screen_refresh_rate, RefreshRateMode::Max);
    assert!(wired.send_notification);
    let battery = config.get_battery_config();
    assert_eq!(battery.state_name, "Battery");
    assert_eq!(battery.power_scheme, PowerScheme::Balanced);
    assert_eq!(battery.screen_refresh_rate, RefreshRateMode::Value(60));
}

#[test]
fn get_or_create_prefers_what_was_loaded() {
    let mut loaded = PowerConfig::get_or_create(None);
    loaded.battery_config.send_notification = false;
    loaded.battery_config.state_name = "Unplugged".to_string();
    let config = PowerConfig::get_or_create(Some(loaded));
    assert_eq!(config.battery_config.state_name, "Unplugged");
    assert!(!config.battery_config.send_notification);
}

#[test]
fn change_plan_lists_exactly_the_asked_actions() {
    let profile = StateConfig {
        state_name: "Battery".to_string(),
        power_scheme: PowerScheme::Balanced,
        change_refresh_rate: true,
        screen_refresh_rate: RefreshRateMode::Value(60),
        send_notification: true,
    };
    let plan = profile.change_plan();
    assert_eq!(plan.power_scheme, PowerScheme::Balanced);
    let notification = plan.notification.unwrap();
    assert_eq!(notification.name, "display");
    assert_eq!(notification.content, "AutoPower\nSwitching to Battery.");
    assert_eq!(plan.refresh_rate, Some(RefreshRateMode::Value(60)));

    let quiet = StateConfig {
        send_notification: false,
        change_refresh_rate: false,
        ..profile
    };
    let quiet_plan = quiet.change_plan();
    assert!(quiet_plan.notification.is_none());
    assert!(quiet_plan.refresh_rate.is_none());
}

#[test]
fn scheme_names() {
    assert_eq!(PowerScheme::HighPerformance.get_name(), "High Performance");
    assert_eq!(PowerScheme::Balanced.get_name(), "Balanced");
    assert_eq!(PowerScheme::PowerSavings.get_name(), "Power Saver");
    assert_eq!(
        PowerScheme::Custom("381b4222-f694-41f0-9685-ff5bb260df2e".to_string()).get_name(),
        "Custom"
    );
}

#[test]
fn schemes_copy_exactly() {
    let custom = PowerScheme::Custom("381b4222-f694-41f0-9685-ff5bb260df2e".to_string());
    assert_eq!(custom.duplicate(), custom);
    assert_eq!(PowerScheme::PowerSavings.duplicate(), PowerScheme::PowerSavings);
}

#[test]
fn custom_scheme_profiles_are_kept() {
    // A persisted configuration may select the power-savings scheme or a
    // custom one by its identifier; both survive loading and planning.
    let mut loaded = PowerConfig::get_or_create(None);
    loaded.wired_config.power_scheme =
        PowerScheme::Custom("381b4222-f694-41f0-9685-ff5bb260df2e".to_string());
    loaded.battery_config.power_scheme = PowerScheme::PowerSavings;
    let config = PowerConfig::get_or_create(Some(loaded));
    let wired_plan = config.get_wired_config().change_plan();
    assert_eq!(
        wired_plan.power_scheme,
        PowerScheme::Custom("381b4222-f694-41f0-9685-ff5bb260df2e".to_string())
    );
    let battery_plan = config.get_battery_config().change_plan();
    assert_eq!(battery_plan.power_scheme, PowerScheme::PowerSavings);
}

#[test]
fn matching_modes_filters_resolution_and_color() {
    let current = mode(60);
    let candidates = vec![
        mode(60),
        DisplayMode { width: 1280, ..mode(120) },
        mode(144),
        DisplayMode { bits_per_pixel: 16, ..mode(75) },
    ];
    let matching = modes_matching_current(&candidates, &current);
    assert_eq!(matching, vec![mode(60), mode(144)]);
}

#[test]
fn max_policy_picks_the_fastest() {
    let candidates = vec![mode(60), mode(144), mode(120)];
    let picked = get_closest_match_display_mode(&candidates, mode(60), RefreshRateMode::Max);
    assert_eq!(picked, mode(144));
}

#[test]
fn min_policy_picks_the_slowest() {
    let candidates = vec![mode(60), mode(30), mode(144)];
    let picked = get_closest_match_display_mode(&candidates, mode(60), RefreshRateMode::Min);
    assert_eq!(picked, mode(30));
}

#[test]
fn value_policy_picks_the_closest_and_prefers_the_first() {
    let candidates = vec![mode(48), mode(75), mode(144)];
    let picked =
        get_closest_match_display_mode(&candidates, mode(144), RefreshRateMode::Value(60));
    assert_eq!(picked, mode(48));
    // 55 and 65 are equally close to 60: the earlier candidate wins.
    let tied = vec![mode(55), mode(65)];
    let picked = get_closest_match_display_mode(&tied, mode(30), RefreshRateMode::Value(60));
    assert_eq!(picked, mode(55));
    // A candidate 1000 Hz or further away never beats the current mode.
    let far = vec![mode(2000)];
    let picked = get_closest_match_display_mode(&far, mode(60), RefreshRateMode::Value(100));
    assert_eq!(picked, mode(60));
}

#[test]
fn first_active_session_wins() {
    let sessions = vec![
        SessionInfo { session_id: 0, state: SessionState::Inactive },
        SessionInfo { session_id: 3, state: SessionState::Active },
        SessionInfo { session_id: 5, state: SessionState::Active },
    ];
    assert_eq!(get_current_session_id(&sessions), 3);
}

#[test]
fn no_active_session_yields_the_sentinel() {
    let sessions = vec![SessionInfo { session_id: 7, state: SessionState::Inactive }];
    assert_eq!(get_current_session_id(&sessions), 0);
    assert_eq!(get_current_session_id(&Vec::new()), 0);
}

#[test]
fn utf16_is_nullterminated() {
    assert_eq!(get_nullterminated_utf16_from_utf8("ab"), vec![97, 98, 0]);
    assert_eq!(get_nullterminated_utf16_from_utf8(""), vec![0]);
    // U+1F600 needs a surrogate pair.
    assert_eq!(
        get_nullterminated_utf16_from_utf8("😀"),
        vec![0xD83D, 0xDE00, 0]
    );
    // Matches the standard library's own UTF-16 encoding.
    let text = "pipe\\AutoPowerProxy — ünïcode 😀";
    let mut expected: Vec<u16> = text.encode_utf16().collect();
    expected.push(0);
    assert_eq!(get_nullterminated_utf16_from_utf8(text), expected);
}

#[test]
fn win32_strings_build_and_append() {
    let mut s = Win32String::from_str("ab");
    assert_eq!(s.data, vec![97, 98, 0]);
    s.push(Win32String::from_buffer(vec![99]));
    assert_eq!(s.data, vec![97, 98, 0, 99]);
}

#[test]
fn display_content_splits_at_newlines() {
    let split = split_display_content("title\nbody").unwrap();
    assert_eq!(split.0, "title");
    assert_eq!(split.1, "body");
    // Only the first two lines are used.
    let split = split_display_content("a\nb\nc").unwrap();
    assert_eq!(split.0, "a");
    assert_eq!(split.1, "b");
    assert!(split_display_content("no newline").is_none());
}

#[test]
fn notification_command_builds_and_renders() {
    let c = NotificationCommand::display("AutoPower", "Switching to Balanced.");
    assert_eq!(c.name, "display");
    assert_eq!(c.content, "AutoPower\nSwitching to Balanced.");
    assert_eq!(c.to_text(), "display\nAutoPower\nSwitching to Balanced.");
}

#[test]
fn log_levels_filter_by_gravity() {
    assert!(LogLevel::Error.passes(&LogLevel::Debug));
    assert!(LogLevel::Error.passes(&LogLevel::Error));
    assert!(LogLevel::Debug.passes(&LogLevel::Debug));
    assert!(!LogLevel::Debug.passes(&LogLevel::Error));
}

#[test]
fn log_lines_have_the_fixed_shape() {
    let logger = Logger::new("power_service", "autopower");
    assert_eq!(
        logger.format_line("2024-01-01 10:00:00", "Stopping..."),
        "[2024-01-01 10:00:00 | (autopower - power_service)] Stopping..."
    );
}

#[test]
fn error_descriptions() {
    assert_eq!(
        ConfigError::CouldNotLoadOrCreate.message(),
        "Could not load or create config!"
    );
    assert_eq!(DecodeError::Truncated.message(), "message is truncated");
    assert!(ChannelError::NameInUse.is_creation());
    assert!(ChannelError::ServerNotFound.is_connect());
    assert!(ChannelError::NoPeer.is_connect());
    assert!(ChannelError::Closed.is_io());
    assert!(!ChannelError::Closed.is_connect());
    assert_eq!(ChannelError::ServerBusy.message(), "channel already has a connected peer");
}

//! The two power profiles and what applying one of them does.
//!
//! A [`PowerConfig`] holds one profile per power source.  It is loaded
//! once at service start from persistent storage — reading that file is
//! the host's work — and [`PowerConfig::get_or_create`] falls back to the
//! built-in default when nothing could be loaded.  Applying a profile is
//! described by a [`TransitionPlan`]: the scheme to activate, the
//! notification to show and the refresh-rate change to make, which the
//! host then carries out.

use vstd::prelude::*;
use vstd::string::StringExecFns;

use crate::commands::{NotificationCommand, PowerConfigSelection};
use crate::display::RefreshRateMode;

verus! {

/// The power scheme a profile activates: one of the three well-known
/// schemes, or a custom one named by its identifier string, which the
/// host parses when activating it.
#[derive(Clone, Debug, PartialEq, Eq, Hash)]
pub enum PowerScheme {
    HighPerformance,
    Balanced,
    PowerSavings,
    Custom(String),
}

impl PowerScheme {
    /// The scheme's display name; a custom scheme is only known by its
    /// identifier.
    pub fn get_name(&self) -> (r: &'static str)
        ensures
            *self is HighPerformance ==> r@ == "High Performance"@,
            *self is Balanced ==> r@ == "Balanced"@,
            *self is PowerSavings ==> r@ == "Power Saver"@,
            *self is Custom ==> r@ == "Custom"@,
    {
        match self {
            PowerScheme::HighPerformance => "High Performance",
            PowerScheme::Balanced => "Balanced",
            PowerScheme::PowerSavings => "Power Saver",
            PowerScheme::Custom(_) => "Custom",
        }
    }

    /// An owned copy of the scheme, equal to the original.
    pub fn duplicate(&self) -> (r: PowerScheme)
        ensures
            r == *self,
    {
        match self {
            PowerScheme::HighPerformance => PowerScheme::HighPerformance,
            PowerScheme::Balanced => PowerScheme::Balanced,
            PowerScheme::PowerSavings => PowerScheme::PowerSavings,
            PowerScheme::Custom(id) => PowerScheme::Custom(id.clone()),
        }
    }
}

/// What to do when one power source becomes active.
pub struct StateConfig {
    /// Name of the profile, used in the notification text.
    pub state_name: String,
    /// The power scheme to activate.
    pub power_scheme: PowerScheme,
    /// Whether to change the display refresh rate.
    pub change_refresh_rate: bool,
    /// Which refresh rate to change to.
    pub screen_refresh_rate: RefreshRateMode,
    /// Whether to show a notification.
    pub send_notification: bool,
}

/// The actions that applying a profile performs, as data: the host
/// carries each one out with a platform call.
pub struct TransitionPlan {
    /// The scheme to activate.
    pub power_scheme: PowerScheme,
    /// The display command to send, when the profile asks for one.
    pub notification: Option<NotificationCommand>,
    /// The refresh-rate policy to apply, when the profile asks for one.
    pub refresh_rate: Option<RefreshRateMode>,
}

impl StateConfig {
    /// The notification body announcing this profile.
    pub fn notification_body(&self) -> (r: String)
        ensures
            r@ == "Switching to "@ + self.state_name@ + "."@,
    {
        let mut body = String::from_str("Switching to ");
        body.append(self.state_name.as_str());
        body.append(".");
        body
    }

    /// What applying this profile does: always activate its scheme;
    /// show a toast titled `AutoPower` announcing the profile, if asked;
    /// change the refresh rate, if asked.
    pub fn change_plan(&self) -> (p: TransitionPlan)
        ensures
            spec_plan_for(*self, p),
    {
        let notification = if self.send_notification {
            let body = self.notification_body();
            Some(NotificationCommand::display("AutoPower", body.as_str()))
        } else {
            None
        };
        let refresh_rate = if self.change_refresh_rate {
            Some(self.screen_refresh_rate)
        } else {
            None
        };
        TransitionPlan { power_scheme: self.power_scheme.duplicate(), notification, refresh_rate }
    }
}

/// `p` is exactly the plan that applying the profile `cfg` performs:
/// its scheme is activated; a toast titled `AutoPower` announcing the
/// profile is sent exactly when the profile asks to notify; the
/// profile's refresh rate is applied exactly when it asks for that.
pub open spec fn spec_plan_for(cfg: StateConfig, p: TransitionPlan) -> bool {
    &&& p.power_scheme == cfg.power_scheme
    &&& (p.notification is Some <==> cfg.send_notification)
    &&& (cfg.send_notification ==> {
        &&& p.notification->0.name@ == "display"@
        &&& p.notification->0.content@ == "AutoPower"@ + "\n"@ + ("Switching to "@
            + cfg.state_name@ + "."@)
    })
    &&& p.refresh_rate == if cfg.change_refresh_rate {
        Some(cfg.screen_refresh_rate)
    } else {
        Option::<RefreshRateMode>::None
    }
}

/// One profile per power source.
pub struct PowerConfig {
    pub wired_config: StateConfig,
    pub battery_config: StateConfig,
}

/// The built-in configuration: on wired power, the high-performance
/// scheme and the highest refresh rate; on battery, the balanced scheme
/// and 60 Hz; both notify.
pub open spec fn spec_is_default_config(c: PowerConfig) -> bool {
    &&& c.wired_config.state_name@ == "Wired"@
    &&& c.wired_config.power_scheme == PowerScheme::HighPerformance
    &&& c.wired_config.change_refresh_rate == true
    &&& c.wired_config.screen_refresh_rate == RefreshRateMode::Max
    &&& c.wired_config.send_notification == true
    &&& c.battery_config.state_name@ == "Battery"@
    &&& c.battery_config.power_scheme == PowerScheme::Balanced
    &&& c.battery_config.change_refresh_rate == true
    &&& c.battery_config.screen_refresh_rate == RefreshRateMode::Value(60)
    &&& c.battery_config.send_notification == true
}

impl Default for PowerConfig {
    /// The built-in configuration used when none was persisted.
    fn default() -> (r: PowerConfig)
        ensures
            spec_is_default_config(r),
    {
        PowerConfig {
            wired_config: StateConfig {
                state_name: String::from_str("Wired"),
                power_scheme: PowerScheme::HighPerformance,
                change_refresh_rate: true,
                screen_refresh_rate: RefreshRateMode::Max,
                send_notification: true,
            },
            battery_config: StateConfig {
                state_name: String::from_str("Battery"),
                power_scheme: PowerScheme::Balanced,
                change_refresh_rate: true,
                screen_refresh_rate: RefreshRateMode::Value(60),
                send_notification: true,
            },
        }
    }
}

impl PowerConfig {
    /// The configuration to run with: what was loaded from persistent
    /// storage, or the built-in default when nothing could be.
    pub fn get_or_create(loaded: Option<PowerConfig>) -> (r: PowerConfig)
        ensures
            match loaded {
                Some(c) => r == c,
                None => spec_is_default_config(r),
            },
    {
        match loaded {
            Some(c) => c,
            None => PowerConfig::default(),
        }
    }

    /// The profile for wired power.
    pub fn get_wired_config(&self) -> (r: &StateConfig)
        ensures
            *r == self.wired_config,
    {
        &self.wired_config
    }

    /// The profile for battery power.
    pub fn get_battery_config(&self) -> (r: &StateConfig)
        ensures
            *r == self.battery_config,
    {
        &self.battery_config
    }

    /// The profile a selection names.
    pub fn select(&self, selection: PowerConfigSelection) -> (r: &StateConfig)
        ensures
            selection is Wired ==> *r == self.wired_config,
            selection is Battery ==> *r == self.battery_config,
    {
        match selection {
            PowerConfigSelection::Wired => &self.wired_config,
            PowerConfigSelection::Battery => &self.battery_config,
        }
    }
}

} // verus!

//! The temperature and fan control configuration handed to the monitor, and
//! the mode-dependent rules that produce it.

use vstd::prelude::*;
use crate::option_default::OptionDefault;

verus! {

/// How temperature and fans are controlled.
#[derive(Clone, Copy, Debug, PartialEq, Eq, Structural)]
pub enum TempControlMode {
    /// Fans follow a target temperature; thermal limits are enforced.
    Auto,
    /// Fans run at a fixed speed; thermal limits are enforced.
    Manual,
    /// Fans run at a fixed speed; no thermal limits.
    Disable,
}

/// Thermal limits, in millidegrees Celsius.
#[derive(Clone, Copy, Debug, PartialEq, Eq, Structural)]
pub struct TempControlConfig {
    pub dangerous_temp: i32,
    pub hot_temp: i32,
}

/// What drives the fans.
#[derive(Clone, Copy, Debug, PartialEq, Eq, Structural)]
pub enum FanControlMode {
    /// Keep the chips at this temperature, in millidegrees Celsius.
    TargetTemperature(i32),
    /// Run the fans at this speed, in percent.
    FixedSpeed(usize),
}

#[derive(Clone, Copy, Debug, PartialEq, Eq, Structural)]
pub struct FanControlConfig {
    pub mode: FanControlMode,
    /// Fewest fans that must be running.
    pub min_fans: usize,
}

/// Configuration of the temperature and fan monitor.
#[derive(Clone, Copy, Debug, PartialEq, Eq, Structural)]
pub struct MonitorConfig {
    pub temp_config: Option<TempControlConfig>,
    pub fan_config: Option<FanControlConfig>,
}

/// A supplied setting that the active mode leaves unused; it carries the value.
#[derive(Clone, Copy, Debug, PartialEq, Eq, Structural)]
pub enum Advisory {
    /// `hot_temp` under `Disable`.
    UnusedHotTemp(i32),
    /// `dangerous_temp` under `Disable`.
    UnusedDangerousTemp(i32),
    /// Fan `speed` under `Auto`.
    UnusedFanSpeed(usize),
    /// `target_temp` outside `Auto`.
    UnusedTargetTemp(i32),
}

pub open spec fn thermal_config(
    mode: TempControlMode,
    hot: OptionDefault<i32>,
    dangerous: OptionDefault<i32>,
) -> Option<TempControlConfig> {
    match mode {
        TempControlMode::Disable => None,
        _ => Some(TempControlConfig { dangerous_temp: dangerous.value, hot_temp: hot.value }),
    }
}

pub open spec fn thermal_advisories(
    mode: TempControlMode,
    hot: OptionDefault<i32>,
    dangerous: OptionDefault<i32>,
) -> Seq<Advisory> {
    match mode {
        TempControlMode::Disable => {
            let h = if hot.explicit {
                seq![Advisory::UnusedHotTemp(hot.value)]
            } else {
                Seq::empty()
            };
            let d = if dangerous.explicit {
                seq![Advisory::UnusedDangerousTemp(dangerous.value)]
            } else {
                Seq::empty()
            };
            h + d
        },
        _ => Seq::empty(),
    }
}

/// Fans need no control when both fan settings are explicitly zero outside
/// `Auto`.
pub open spec fn fans_switched_off(speed: OptionDefault<usize>, min_fans: OptionDefault<usize>) -> bool {
    speed.explicit && speed.value == 0 && min_fans.explicit && min_fans.value == 0
}

pub open spec fn fan_config(
    mode: TempControlMode,
    target: OptionDefault<i32>,
    speed: OptionDefault<usize>,
    min_fans: OptionDefault<usize>,
) -> Option<FanControlConfig> {
    match mode {
        TempControlMode::Auto => Some(
            FanControlConfig {
                mode: FanControlMode::TargetTemperature(target.value),
                min_fans: min_fans.value,
            },
        ),
        _ => if fans_switched_off(speed, min_fans) {
            None
        } else {
            Some(
                FanControlConfig {
                    mode: FanControlMode::FixedSpeed(speed.value),
                    min_fans: min_fans.value,
                },
            )
        },
    }
}

pub open spec fn fan_advisories(
    mode: TempControlMode,
    target: OptionDefault<i32>,
    speed: OptionDefault<usize>,
) -> Seq<Advisory> {
    match mode {
        TempControlMode::Auto => if speed.explicit {
            seq![Advisory::UnusedFanSpeed(speed.value)]
        } else {
            Seq::empty()
        },
        _ => if target.explicit {
            seq![Advisory::UnusedTargetTemp(target.value)]
        } else {
            Seq::empty()
        },
    }
}

/// Thermal limits under `mode`; records the limits that `Disable` leaves unused.
pub fn resolve_thermal(
    mode: TempControlMode,
    hot: OptionDefault<i32>,
    dangerous: OptionDefault<i32>,
    advisories: &mut Vec<Advisory>,
) -> (r: Option<TempControlConfig>)
    ensures
        r == thermal_config(mode, hot, dangerous),
        final(advisories)@ == old(advisories)@ + thermal_advisories(mode, hot, dangerous),
{
    match mode {
        TempControlMode::Auto | TempControlMode::Manual => {
            assert(old(advisories)@ + Seq::<Advisory>::empty() =~= old(advisories)@);
            Some(TempControlConfig { dangerous_temp: dangerous.value(), hot_temp: hot.value() })
        },
        TempControlMode::Disable => {
            let ghost start = advisories@;
            if hot.is_some() {
                advisories.push(Advisory::UnusedHotTemp(hot.value()));
            }
            if dangerous.is_some() {
                advisories.push(Advisory::UnusedDangerousTemp(dangerous.value()));
            }
            assert(advisories@ =~= start + thermal_advisories(mode, hot, dangerous));
            None
        },
    }
}

/// Fan control under `mode`; records the fan settings that `mode` leaves unused.
pub fn resolve_fan(
    mode: TempControlMode,
    target: OptionDefault<i32>,
    speed: OptionDefault<usize>,
    min_fans: OptionDefault<usize>,
    advisories: &mut Vec<Advisory>,
) -> (r: Option<FanControlConfig>)
    ensures
        r == fan_config(mode, target, speed, min_fans),
        final(advisories)@ == old(advisories)@ + fan_advisories(mode, target, speed),
{
    let ghost start = advisories@;
    match mode {
        TempControlMode::Auto => {
            if speed.is_some() {
                advisories.push(Advisory::UnusedFanSpeed(speed.value()));
            }
            assert(advisories@ =~= start + fan_advisories(mode, target, speed));
            Some(
                FanControlConfig {
                    mode: FanControlMode::TargetTemperature(target.value()),
                    min_fans: min_fans.value(),
                },
            )
        },
        TempControlMode::Manual | TempControlMode::Disable => {
            let config = if speed.eq_some(0) && min_fans.eq_some(0) {
                None
            } else {
                Some(
                    FanControlConfig {
                        mode: FanControlMode::FixedSpeed(speed.value()),
                        min_fans: min_fans.value(),
                    },
                )
            };
            if target.is_some() {
                advisories.push(Advisory::UnusedTargetTemp(target.value()));
            }
            assert(advisories@ =~= start + fan_advisories(mode, target, speed));
            config
        },
    }
}

} // verus!

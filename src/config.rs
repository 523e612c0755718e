//! The S9 configuration record, its defaults, and the rules that turn it into
//! the settings of each hash chain and of the temperature and fan monitor.

use vstd::prelude::*;
use crate::chain_index::{key_names_chain, parse_chain_index, is_decimal_of, parses_as_usize, parsed_usize};
use crate::monitor::{
    resolve_fan, resolve_thermal, fan_advisories, fan_config, thermal_advisories, thermal_config,
    Advisory, FanControlConfig, FanControlMode, MonitorConfig, TempControlMode,
};
use crate::option_default::{option_default, resolve_or, OptionDefault};
use crate::power::{voltage_in_range, Voltage};

verus! {

/// Expected configuration version.
pub const FORMAT_VERSION: &'static str = "beta";

/// Expected configuration model.
pub const FORMAT_MODEL: &'static str = "Antminer S9";

/// Drain channel size of the logger, which the miner tends to flood in bursts.
pub const ASYNC_LOGGER_DRAIN_CHANNEL_SIZE: usize = 4096;

/// Location of the default configuration file.
pub const DEFAULT_CONFIG_PATH: &'static str = "/etc/bosminer.toml";

/// Number of midstates when AsicBoost is enabled.
pub const ASIC_BOOST_MIDSTATE_COUNT: usize = 4;

/// Number of midstates when AsicBoost is disabled.
pub const MINIMAL_MIDSTATE_COUNT: usize = 1;

/// Whether AsicBoost is enabled when the configuration does not say.
pub const DEFAULT_ASIC_BOOST: bool = true;

/// Default PLL frequency for clocking the chips, in kHz.
pub const DEFAULT_FREQUENCY: u32 = 650_000;

/// Default supply voltage, in millivolts.
pub const DEFAULT_VOLTAGE: u32 = 8_800;

/// Default temperature control mode.
pub const DEFAULT_TEMP_CONTROL_MODE: TempControlMode = TempControlMode::Auto;

/// Default temperatures for temperature control, in millidegrees Celsius.
pub const DEFAULT_TARGET_TEMP: i32 = 75_000;
pub const DEFAULT_HOT_TEMP: i32 = 95_000;
pub const DEFAULT_DANGEROUS_TEMP: i32 = 105_000;

/// Default fan speed in manual mode, in percent.
pub const DEFAULT_FAN_SPEED: usize = 100;

/// Default number of fans that must be running.
pub const DEFAULT_MIN_FANS: usize = 1;

/// Index of the hashboard that is instantiated.
pub const S9_HASHBOARD_INDEX: usize = 8;

/// Range of hash chain indices.
pub const HASH_CHAIN_INDEX_MIN: usize = 1;
pub const HASH_CHAIN_INDEX_MAX: usize = 9;

/// Default ASIC difficulty.
pub const ASIC_DIFFICULTY: usize = 64;

/// Interval of the hashrate statistics, in seconds.
pub const DEFAULT_HASHRATE_INTERVAL_SECS: u64 = 60;

/// Longest time one job takes under normal circumstances, in seconds.
pub const JOB_TIMEOUT_SECS: u64 = 5;

/// Final settings of one hash chain.
#[derive(Debug)]
pub struct ResolvedChainConfig {
    pub midstate_count: usize,
    /// PLL frequency in Hz.
    pub frequency: u64,
    pub voltage: Voltage,
}

/// Identity of the configuration format.
#[derive(Clone, Debug)]
pub struct Format {
    pub version: String,
    pub model: String,
    pub generator: Option<String>,
    pub timestamp: Option<u32>,
}

impl Default for Format {
    fn default() -> (r: Self)
        ensures
            r.version@ == FORMAT_VERSION@,
            r.model@ == FORMAT_MODEL@,
            r.generator is None,
            r.timestamp is None,
    {
        Format {
            version: FORMAT_VERSION.to_owned(),
            model: FORMAT_MODEL.to_owned(),
            generator: None,
            timestamp: None,
        }
    }
}

/// Clock and voltage settings that may be given for all chains or for one.
#[derive(Clone, Copy, Debug, Default, PartialEq, Eq, Structural)]
pub struct HashChain {
    /// PLL frequency in kHz.
    pub frequency: Option<u32>,
    /// Supply voltage in millivolts.
    pub voltage: Option<u32>,
}

/// Settings of all hash chains.
#[derive(Clone, Copy, Debug, Default, PartialEq, Eq, Structural)]
pub struct HashChainGlobal {
    pub asic_boost: Option<bool>,
    pub overridable: Option<HashChain>,
}

/// Temperature control settings; temperatures in millidegrees Celsius.
#[derive(Clone, Copy, Debug, Default, PartialEq, Eq, Structural)]
pub struct TempControl {
    pub mode: Option<TempControlMode>,
    pub target_temp: Option<i32>,
    pub hot_temp: Option<i32>,
    pub dangerous_temp: Option<i32>,
}

/// Fan control settings.
#[derive(Clone, Copy, Debug, Default, PartialEq, Eq, Structural)]
pub struct FanControl {
    /// Fixed fan speed, in percent.
    pub speed: Option<usize>,
    pub min_fans: Option<usize>,
}

/// A pool as the configuration names it.
#[derive(Clone, Debug)]
pub struct PoolConfig {
    pub url: String,
    pub user: String,
}

/// A configuration record as decoded from the configuration file.
///
/// `hash_chains` holds the per-chain settings under their keys, which name
/// chain indices in decimal; a decoded table has each key at most once.
#[derive(Clone, Debug, Default)]
pub struct Backend {
    pub format: Format,
    pub pools: Option<Vec<PoolConfig>>,
    pub hash_chain_global: Option<HashChainGlobal>,
    pub hash_chains: Option<Vec<(String, HashChain)>>,
    pub temp_control: Option<TempControl>,
    pub fan_control: Option<FanControl>,
}

/// Why a configuration cannot be used.
#[derive(Clone, Debug)]
pub enum ConfigError {
    /// The format model is not `FORMAT_MODEL`; carries the model found.
    IncompatibleModel(String),
    /// The format version is not `FORMAT_VERSION`; carries the version found.
    IncompatibleVersion(String),
    /// A per-chain key is not a number; carries the key.
    ChainIndexNotNumber(String),
    /// A per-chain key is a number outside the chain index range; carries the key.
    ChainIndexOutOfRange(String),
    /// The resolved voltage of a chain, in millivolts, cannot be supplied.
    VoltageOutOfRange(u32),
}

// ---- per-chain settings ----

/// The settings given for chain `idx` in `entries`: those under the first key
/// that names `idx`.
pub open spec fn chain_override_in(entries: Seq<(String, HashChain)>, idx: nat) -> Option<HashChain>
    decreases entries.len(),
{
    if entries.len() == 0 {
        None
    } else if is_decimal_of(entries[0].0@, idx) {
        Some(entries[0].1)
    } else {
        chain_override_in(entries.skip(1), idx)
    }
}

pub open spec fn chain_override(b: Backend, idx: nat) -> Option<HashChain> {
    match b.hash_chains {
        Some(v) => chain_override_in(v@, idx),
        None => None,
    }
}

/// The clock and voltage settings given for all chains.
pub open spec fn global_chain(b: Backend) -> Option<HashChain> {
    match b.hash_chain_global {
        Some(g) => g.overridable,
        None => None,
    }
}

pub open spec fn global_frequency(b: Backend) -> Option<u32> {
    match global_chain(b) {
        Some(c) => c.frequency,
        None => None,
    }
}

pub open spec fn global_voltage(b: Backend) -> Option<u32> {
    match global_chain(b) {
        Some(c) => c.voltage,
        None => None,
    }
}

/// Frequency of chain `idx` in kHz: the chain's own setting, else the global
/// one, else the default.
pub open spec fn resolved_frequency(b: Backend, idx: nat) -> u32 {
    let base = resolve_or(global_frequency(b), DEFAULT_FREQUENCY);
    match chain_override(b, idx) {
        Some(c) => resolve_or(c.frequency, base),
        None => base,
    }
}

/// Voltage of chain `idx` in millivolts: the chain's own setting, else the
/// global one, else the default.
pub open spec fn resolved_voltage(b: Backend, idx: nat) -> u32 {
    let base = resolve_or(global_voltage(b), DEFAULT_VOLTAGE);
    match chain_override(b, idx) {
        Some(c) => resolve_or(c.voltage, base),
        None => base,
    }
}

pub open spec fn asic_boost(b: Backend) -> bool {
    match b.hash_chain_global {
        Some(g) => resolve_or(g.asic_boost, DEFAULT_ASIC_BOOST),
        None => DEFAULT_ASIC_BOOST,
    }
}

pub open spec fn spec_midstate_count(b: Backend) -> usize {
    if asic_boost(b) {
        ASIC_BOOST_MIDSTATE_COUNT
    } else {
        MINIMAL_MIDSTATE_COUNT
    }
}

// ---- monitor settings ----

pub open spec fn temp_mode(b: Backend) -> OptionDefault<TempControlMode> {
    option_default(
        match b.temp_control {
            Some(t) => t.mode,
            None => None,
        },
        DEFAULT_TEMP_CONTROL_MODE,
    )
}

pub open spec fn target_temp(b: Backend) -> OptionDefault<i32> {
    option_default(
        match b.temp_control {
            Some(t) => t.target_temp,
            None => None,
        },
        DEFAULT_TARGET_TEMP,
    )
}

pub open spec fn hot_temp(b: Backend) -> OptionDefault<i32> {
    option_default(
        match b.temp_control {
            Some(t) => t.hot_temp,
            None => None,
        },
        DEFAULT_HOT_TEMP,
    )
}

pub open spec fn dangerous_temp(b: Backend) -> OptionDefault<i32> {
    option_default(
        match b.temp_control {
            Some(t) => t.dangerous_temp,
            None => None,
        },
        DEFAULT_DANGEROUS_TEMP,
    )
}

pub open spec fn fan_speed(b: Backend) -> OptionDefault<usize> {
    option_default(
        match b.fan_control {
            Some(f) => f.speed,
            None => None,
        },
        DEFAULT_FAN_SPEED,
    )
}

pub open spec fn min_fans(b: Backend) -> OptionDefault<usize> {
    option_default(
        match b.fan_control {
            Some(f) => f.min_fans,
            None => None,
        },
        DEFAULT_MIN_FANS,
    )
}

pub open spec fn monitor_config(b: Backend) -> MonitorConfig {
    let mode = temp_mode(b).value;
    MonitorConfig {
        temp_config: thermal_config(mode, hot_temp(b), dangerous_temp(b)),
        fan_config: fan_config(mode, target_temp(b), fan_speed(b), min_fans(b)),
    }
}

/// The settings that the active mode leaves unused: thermal ones first.
pub open spec fn monitor_advisories(b: Backend) -> Seq<Advisory> {
    let mode = temp_mode(b).value;
    thermal_advisories(mode, hot_temp(b), dangerous_temp(b)) + fan_advisories(
        mode,
        target_temp(b),
        fan_speed(b),
    )
}

// ---- validation ----

pub open spec fn chain_index_valid(key: Seq<char>) -> bool {
    parses_as_usize(key) && HASH_CHAIN_INDEX_MIN <= parsed_usize(key) <= HASH_CHAIN_INDEX_MAX
}

/// The first per-chain key that names no valid chain index.
pub open spec fn first_bad_key_in(entries: Seq<(String, HashChain)>) -> Option<String>
    decreases entries.len(),
{
    if entries.len() == 0 {
        None
    } else if !chain_index_valid(entries[0].0@) {
        Some(entries[0].0)
    } else {
        first_bad_key_in(entries.skip(1))
    }
}

pub open spec fn first_bad_key(b: Backend) -> Option<String> {
    match b.hash_chains {
        Some(v) => first_bad_key_in(v@),
        None => None,
    }
}

pub open spec fn key_error(key: String) -> ConfigError {
    if parses_as_usize(key@) {
        ConfigError::ChainIndexOutOfRange(key)
    } else {
        ConfigError::ChainIndexNotNumber(key)
    }
}

/// What loading `b` gives: the first failed check, or `b` itself.
pub open spec fn load_result(b: Backend) -> Result<Backend, ConfigError> {
    if b.format.model@ != FORMAT_MODEL@ {
        Err(ConfigError::IncompatibleModel(b.format.model))
    } else if b.format.version@ != FORMAT_VERSION@ {
        Err(ConfigError::IncompatibleVersion(b.format.version))
    } else {
        match first_bad_key(b) {
            Some(k) => Err(key_error(k)),
            None => Ok(b),
        }
    }
}

proof fn lemma_skip_step<T>(s: Seq<T>, i: int)
    requires
        0 <= i < s.len(),
    ensures
        s.skip(i)[0] == s[i],
        s.skip(i).skip(1) =~= s.skip(i + 1),
{
}

impl Backend {
    /// The settings given for chain `idx` alone, if any.
    fn chain_override(&self, idx: usize) -> (r: Option<HashChain>)
        ensures
            r == chain_override(*self, idx as nat),
    {
        match &self.hash_chains {
            None => None,
            Some(entries) => {
                let mut i: usize = 0;
                assert(entries@.skip(0) =~= entries@);
                while i < entries.len()
                    invariant
                        0 <= i <= entries@.len(),
                        self.hash_chains == Some(*entries),
                        chain_override_in(entries@, idx as nat) == chain_override_in(
                            entries@.skip(i as int),
                            idx as nat,
                        ),
                    decreases entries@.len() - i,
                {
                    proof {
                        lemma_skip_step(entries@, i as int);
                    }
                    if key_names_chain(entries[i].0.as_str(), idx) {
                        return Some(entries[i].1);
                    }
                    i = i + 1;
                }
                assert(entries@.skip(i as int).len() == 0);
                None
            },
        }
    }

    /// Final settings of chain `hash_chain_idx`: its own frequency and voltage
    /// where given, else the global ones, else the defaults; the midstate
    /// count follows the global AsicBoost setting alone. Fails where the
    /// resolved voltage cannot be supplied.
    pub fn resolve_chain_config(&self, hash_chain_idx: usize) -> (r: Result<ResolvedChainConfig, ConfigError>)
        ensures
            r is Ok <==> voltage_in_range(resolved_voltage(*self, hash_chain_idx as nat)),
            r matches Ok(c) ==> {
                &&& c.midstate_count == spec_midstate_count(*self)
                &&& c.frequency == resolved_frequency(*self, hash_chain_idx as nat) as u64 * 1000
                &&& c.voltage@ == resolved_voltage(*self, hash_chain_idx as nat)
            },
            r matches Err(e) ==> e == ConfigError::VoltageOutOfRange(
                resolved_voltage(*self, hash_chain_idx as nat),
            ),
    {
        let global = match &self.hash_chain_global {
            Some(g) => g.overridable,
            None => None,
        };
        let (global_frequency, global_voltage) = match global {
            Some(c) => (c.frequency, c.voltage),
            None => (None, None),
        };
        let mut frequency = OptionDefault::new(global_frequency, DEFAULT_FREQUENCY);
        let mut voltage = OptionDefault::new(global_voltage, DEFAULT_VOLTAGE);

        if let Some(chain) = self.chain_override(hash_chain_idx) {
            frequency = frequency.overridden_by(chain.frequency);
            voltage = voltage.overridden_by(chain.voltage);
        }

        let hz = frequency.value() as u64 * 1000;
        match Voltage::from_millivolts(voltage.value()) {
            Some(v) => Ok(
                ResolvedChainConfig { midstate_count: self.midstate_count(), frequency: hz, voltage: v },
            ),
            None => Err(ConfigError::VoltageOutOfRange(voltage.value())),
        }
    }

    /// Temperature and fan control under the configured mode, with the
    /// supplied settings that the mode leaves unused.
    pub fn resolve_monitor_config(&self) -> (r: (MonitorConfig, Vec<Advisory>))
        ensures
            r.0 == monitor_config(*self),
            r.1@ == monitor_advisories(*self),
    {
        let (mode, target, hot, dangerous) = match &self.temp_control {
            Some(t) => (t.mode, t.target_temp, t.hot_temp, t.dangerous_temp),
            None => (None, None, None, None),
        };
        let (speed, fans) = match &self.fan_control {
            Some(f) => (f.speed, f.min_fans),
            None => (None, None),
        };
        let mode = OptionDefault::new(mode, DEFAULT_TEMP_CONTROL_MODE);
        let target_temp = OptionDefault::new(target, DEFAULT_TARGET_TEMP);
        let hot_temp = OptionDefault::new(hot, DEFAULT_HOT_TEMP);
        let dangerous_temp = OptionDefault::new(dangerous, DEFAULT_DANGEROUS_TEMP);
        let fan_speed = OptionDefault::new(speed, DEFAULT_FAN_SPEED);
        let min_fans = OptionDefault::new(fans, DEFAULT_MIN_FANS);

        let mut advisories: Vec<Advisory> = Vec::new();
        let temp_config = resolve_thermal(mode.value(), hot_temp, dangerous_temp, &mut advisories);
        let fan_config = resolve_fan(mode.value(), target_temp, fan_speed, min_fans, &mut advisories);
        assert(advisories@ =~= monitor_advisories(*self));
        (MonitorConfig { temp_config, fan_config }, advisories)
    }

    /// Number of midstates: `ASIC_BOOST_MIDSTATE_COUNT` with AsicBoost,
    /// `MINIMAL_MIDSTATE_COUNT` without.
    pub fn midstate_count(&self) -> (r: usize)
        ensures
            r == spec_midstate_count(*self),
    {
        let boost = match &self.hash_chain_global {
            Some(g) => match g.asic_boost {
                Some(b) => b,
                None => DEFAULT_ASIC_BOOST,
            },
            None => DEFAULT_ASIC_BOOST,
        };
        if boost {
            ASIC_BOOST_MIDSTATE_COUNT
        } else {
            MINIMAL_MIDSTATE_COUNT
        }
    }

    /// Checks a decoded configuration record: its format model, then its
    /// format version, then every per-chain key in order. Returns the record
    /// when all checks pass, else the first failure.
    pub fn parse(backend_config: Backend) -> (r: Result<Backend, ConfigError>)
        ensures
            r == load_result(backend_config),
    {
        let model = FORMAT_MODEL.to_owned();
        if !(backend_config.format.model == model) {
            return Err(ConfigError::IncompatibleModel(backend_config.format.model));
        }
        let version = FORMAT_VERSION.to_owned();
        if !(backend_config.format.version == version) {
            return Err(ConfigError::IncompatibleVersion(backend_config.format.version));
        }
        if let Some(entries) = &backend_config.hash_chains {
            let mut i: usize = 0;
            assert(entries@.skip(0) =~= entries@);
            while i < entries.len()
                invariant
                    0 <= i <= entries@.len(),
                    backend_config.format.model@ == FORMAT_MODEL@,
                    backend_config.format.version@ == FORMAT_VERSION@,
                    backend_config.hash_chains == Some(*entries),
                    first_bad_key_in(entries@) == first_bad_key_in(entries@.skip(i as int)),
                decreases entries@.len() - i,
            {
                proof {
                    lemma_skip_step(entries@, i as int);
                }
                let key = &entries[i].0;
                match parse_chain_index(key.as_str()) {
                    None => {
                        return Err(ConfigError::ChainIndexNotNumber(key.clone()));
                    },
                    Some(idx) => {
                        if idx < HASH_CHAIN_INDEX_MIN || idx > HASH_CHAIN_INDEX_MAX {
                            return Err(ConfigError::ChainIndexOutOfRange(key.clone()));
                        }
                    },
                }
                i = i + 1;
            }
            assert(entries@.skip(i as int).len() == 0);
        }
        Ok(backend_config)
    }
}

// ---- laws of resolution ----

/// A chain without settings of its own, where no global frequency or voltage
/// is given, gets the default frequency and voltage, which the regulator
/// accepts.
pub proof fn lemma_defaults_without_overrides(b: Backend, idx: nat)
    requires
        chain_override(b, idx) is None,
        global_frequency(b) is None,
        global_voltage(b) is None,
    ensures
        resolved_frequency(b, idx) == DEFAULT_FREQUENCY,
        resolved_voltage(b, idx) == DEFAULT_VOLTAGE,
        voltage_in_range(DEFAULT_VOLTAGE),
{
}

/// A chain's own frequency and voltage, where given, win over the global
/// settings and the defaults.
pub proof fn lemma_chain_settings_take_precedence(b: Backend, idx: nat, c: HashChain)
    requires
        chain_override(b, idx) == Some(c),
    ensures
        c.frequency matches Some(f) ==> resolved_frequency(b, idx) == f,
        c.voltage matches Some(v) ==> resolved_voltage(b, idx) == v,
{
}

/// The midstate count follows the global AsicBoost flag where it is given,
/// whatever the per-chain settings are.
pub proof fn lemma_midstate_follows_boost_flag(
    b: Backend,
    boost: bool,
    chains: Option<Vec<(String, HashChain)>>,
)
    requires
        b.hash_chain_global matches Some(g) && g.asic_boost == Some(boost),
    ensures
        spec_midstate_count(b) == (if boost {
            ASIC_BOOST_MIDSTATE_COUNT
        } else {
            MINIMAL_MIDSTATE_COUNT
        }),
        spec_midstate_count(Backend { hash_chains: chains, ..b }) == spec_midstate_count(b),
{
}

/// With thermal control disabled there are no thermal limits, whatever
/// thresholds are supplied; each supplied threshold is reported as unused.
pub proof fn lemma_disabled_has_no_thermal_limits(b: Backend)
    requires
        temp_mode(b).value == TempControlMode::Disable,
    ensures
        monitor_config(b).temp_config is None,
        thermal_advisories(temp_mode(b).value, hot_temp(b), dangerous_temp(b)).len() == (if hot_temp(
            b,
        ).explicit {
            1int
        } else {
            0int
        }) + (if dangerous_temp(b).explicit {
            1int
        } else {
            0int
        }),
{
}

/// In automatic mode the fans follow the target temperature, whatever fixed
/// speed is supplied; a supplied speed is reported as unused.
pub proof fn lemma_auto_fans_follow_target(b: Backend)
    requires
        temp_mode(b).value == TempControlMode::Auto,
    ensures
        monitor_config(b).fan_config == Some(
            FanControlConfig {
                mode: FanControlMode::TargetTemperature(target_temp(b).value),
                min_fans: min_fans(b).value,
            },
        ),
        fan_speed(b).explicit ==> monitor_advisories(b).contains(
            Advisory::UnusedFanSpeed(fan_speed(b).value),
        ),
{
    if fan_speed(b).explicit {
        let t = thermal_advisories(temp_mode(b).value, hot_temp(b), dangerous_temp(b));
        assert(t.len() == 0);
        assert(monitor_advisories(b)[0] == Advisory::UnusedFanSpeed(fan_speed(b).value));
    }
}

/// Outside automatic mode the fans run at the fixed speed, and fan control
/// is absent exactly when both the speed and the minimum fan count are given
/// as zero.
pub proof fn lemma_fixed_speed_fans(b: Backend)
    requires
        temp_mode(b).value != TempControlMode::Auto,
    ensures
        monitor_config(b).fan_config is None <==> (b.fan_control matches Some(f) && f.speed
            == Some(0usize) && f.min_fans == Some(0usize)),
        monitor_config(b).fan_config is Some ==> monitor_config(b).fan_config == Some(
            FanControlConfig {
                mode: FanControlMode::FixedSpeed(fan_speed(b).value),
                min_fans: min_fans(b).value,
            },
        ),
{
}

} // verus!

use s9_config::chain_index::{key_names_chain, parse_chain_index};
use s9_config::config::{
    Backend, ConfigError, FanControl, Format, HashChain, HashChainGlobal, TempControl,
    ASIC_BOOST_MIDSTATE_COUNT, DEFAULT_FREQUENCY, DEFAULT_VOLTAGE, FORMAT_MODEL, FORMAT_VERSION,
    MINIMAL_MIDSTATE_COUNT,
};
use s9_config::monitor::{Advisory, FanControlConfig, FanControlMode, TempControlConfig, TempControlMode};
use s9_config::option_default::OptionDefault;
use s9_config::power::Voltage;

fn with_chains(chains: Vec<(&str, HashChain)>) -> Backend {
    Backend {
        hash_chains: Some(chains.into_iter().map(|(k, c)| (k.to_string(), c)).collect()),
        ..Backend::default()
    }
}

fn with_temp(mode: TempControlMode, temp: TempControl, fan: Option<FanControl>) -> Backend {
    Backend {
        temp_control: Some(TempControl { mode: Some(mode), ..temp }),
        fan_control: fan,
        ..Backend::default()
    }
}

#[test]
fn defaults_apply_without_overrides() {
    let b = Backend::default();
    for idx in 1..=9 {
        let c = b.resolve_chain_config(idx).unwrap();
        assert_eq!(c.frequency, DEFAULT_FREQUENCY as u64 * 1000);
        assert_eq!(c.frequency, 650_000_000);
        assert_eq!(c.voltage.millivolts(), DEFAULT_VOLTAGE);
        assert_eq!(c.midstate_count, ASIC_BOOST_MIDSTATE_COUNT);
    }
}

#[test]
fn global_settings_apply_to_every_chain() {
    let b = Backend {
        hash_chain_global: Some(HashChainGlobal {
            asic_boost: None,
            overridable: Some(HashChain { frequency: Some(600_000), voltage: Some(9_000) }),
        }),
        ..Backend::default()
    };
    let c = b.resolve_chain_config(6).unwrap();
    assert_eq!(c.frequency, 600_000_000);
    assert_eq!(c.voltage.millivolts(), 9_000);
}

#[test]
fn chain_settings_take_precedence() {
    let mut b = with_chains(vec![("6", HashChain { frequency: Some(700_000), voltage: None })]);
    b.hash_chain_global = Some(HashChainGlobal {
        asic_boost: None,
        overridable: Some(HashChain { frequency: Some(600_000), voltage: Some(9_000) }),
    });
    let c = b.resolve_chain_config(6).unwrap();
    assert_eq!(c.frequency, 700_000_000);
    assert_eq!(c.voltage.millivolts(), 9_000);
    let other = b.resolve_chain_config(7).unwrap();
    assert_eq!(other.frequency, 600_000_000);
}

#[test]
fn chain_key_must_be_exact_decimal_to_match() {
    let b = with_chains(vec![("06", HashChain { frequency: Some(700_000), voltage: None })]);
    assert_eq!(b.resolve_chain_config(6).unwrap().frequency, 650_000_000);
}

#[test]
fn voltage_out_of_range_is_an_error() {
    let b = with_chains(vec![("8", HashChain { frequency: None, voltage: Some(12_000) })]);
    assert!(matches!(b.resolve_chain_config(8), Err(ConfigError::VoltageOutOfRange(12_000))));
    assert!(b.resolve_chain_config(7).is_ok());
}

#[test]
fn voltage_bounds() {
    assert!(Voltage::from_millivolts(7_950).is_some());
    assert!(Voltage::from_millivolts(9_400).is_some());
    assert!(Voltage::from_millivolts(7_949).is_none());
    assert!(Voltage::from_millivolts(9_401).is_none());
}

#[test]
fn midstate_count_follows_boost_flag() {
    let mut b = with_chains(vec![("3", HashChain { frequency: Some(500_000), voltage: None })]);
    b.hash_chain_global = Some(HashChainGlobal { asic_boost: Some(false), overridable: None });
    assert_eq!(b.midstate_count(), MINIMAL_MIDSTATE_COUNT);
    assert_eq!(b.resolve_chain_config(3).unwrap().midstate_count, 1);
    b.hash_chain_global = Some(HashChainGlobal { asic_boost: Some(true), overridable: None });
    assert_eq!(b.resolve_chain_config(3).unwrap().midstate_count, ASIC_BOOST_MIDSTATE_COUNT);
    assert_eq!(b.resolve_chain_config(4).unwrap().midstate_count, 4);
    b.hash_chain_global = None;
    assert_eq!(b.midstate_count(), 4);
}

#[test]
fn chain_key_validation() {
    for key in ["0", "10"] {
        match Backend::parse(with_chains(vec![(key, HashChain::default())])) {
            Err(ConfigError::ChainIndexOutOfRange(k)) => assert_eq!(k, key),
            other => panic!("unexpected {:?}", other),
        }
    }
    match Backend::parse(with_chains(vec![("abc", HashChain::default())])) {
        Err(ConfigError::ChainIndexNotNumber(k)) => assert_eq!(k, "abc"),
        other => panic!("unexpected {:?}", other),
    }
    assert!(Backend::parse(with_chains(vec![("5", HashChain::default())])).is_ok());
}

#[test]
fn first_bad_chain_key_is_reported() {
    let b = with_chains(vec![
        ("1", HashChain::default()),
        ("x", HashChain::default()),
        ("42", HashChain::default()),
    ]);
    assert!(matches!(Backend::parse(b), Err(ConfigError::ChainIndexNotNumber(k)) if k == "x"));
}

#[test]
fn wrong_model_is_rejected() {
    let mut b = with_chains(vec![("5", HashChain::default())]);
    b.format.model = "Wrong Model".to_string();
    match Backend::parse(b) {
        Err(ConfigError::IncompatibleModel(m)) => assert_eq!(m, "Wrong Model"),
        other => panic!("unexpected {:?}", other),
    }
}

#[test]
fn wrong_version_is_rejected() {
    let mut b = Backend::default();
    b.format.version = "alpha".to_string();
    assert!(matches!(Backend::parse(b), Err(ConfigError::IncompatibleVersion(v)) if v == "alpha"));
}

#[test]
fn valid_config_is_returned_unchanged() {
    let b = with_chains(vec![("9", HashChain { frequency: Some(1), voltage: Some(2) })]);
    let parsed = Backend::parse(b).unwrap();
    let chains = parsed.hash_chains.unwrap();
    assert_eq!(chains.len(), 1);
    assert_eq!(chains[0].0, "9");
    assert_eq!(chains[0].1, HashChain { frequency: Some(1), voltage: Some(2) });
}

#[test]
fn default_format_is_compatible() {
    let f = Format::default();
    assert_eq!(f.model, FORMAT_MODEL);
    assert_eq!(f.version, FORMAT_VERSION);
    assert_eq!(f.model, "Antminer S9");
    assert_eq!(f.version, "beta");
}

#[test]
fn default_monitor_config() {
    let (m, adv) = Backend::default().resolve_monitor_config();
    assert_eq!(m.temp_config, Some(TempControlConfig { dangerous_temp: 105_000, hot_temp: 95_000 }));
    assert_eq!(
        m.fan_config,
        Some(FanControlConfig { mode: FanControlMode::TargetTemperature(75_000), min_fans: 1 })
    );
    assert!(adv.is_empty());
}

#[test]
fn disabled_mode_drops_thermal_limits() {
    let temp = TempControl { hot_temp: Some(90_000), ..TempControl::default() };
    let (m, adv) = with_temp(TempControlMode::Disable, temp, None).resolve_monitor_config();
    assert_eq!(m.temp_config, None);
    assert_eq!(adv, vec![Advisory::UnusedHotTemp(90_000)]);
    assert_eq!(
        m.fan_config,
        Some(FanControlConfig { mode: FanControlMode::FixedSpeed(100), min_fans: 1 })
    );
}

#[test]
fn disabled_mode_reports_both_thresholds() {
    let temp = TempControl {
        hot_temp: Some(90_000),
        dangerous_temp: Some(100_000),
        ..TempControl::default()
    };
    let (_, adv) = with_temp(TempControlMode::Disable, temp, None).resolve_monitor_config();
    assert_eq!(adv, vec![Advisory::UnusedHotTemp(90_000), Advisory::UnusedDangerousTemp(100_000)]);
}

#[test]
fn auto_mode_ignores_fan_speed() {
    let fan = FanControl { speed: Some(50), min_fans: None };
    let (m, adv) = with_temp(TempControlMode::Auto, TempControl::default(), Some(fan)).resolve_monitor_config();
    assert_eq!(adv, vec![Advisory::UnusedFanSpeed(50)]);
    assert_eq!(
        m.fan_config,
        Some(FanControlConfig { mode: FanControlMode::TargetTemperature(75_000), min_fans: 1 })
    );
    assert!(m.temp_config.is_some());
}

#[test]
fn manual_mode_with_zero_fans_drops_fan_control() {
    let fan = FanControl { speed: Some(0), min_fans: Some(0) };
    let (m, adv) = with_temp(TempControlMode::Manual, TempControl::default(), Some(fan)).resolve_monitor_config();
    assert_eq!(m.fan_config, None);
    assert!(adv.is_empty());
    assert_eq!(m.temp_config, Some(TempControlConfig { dangerous_temp: 105_000, hot_temp: 95_000 }));
}

#[test]
fn manual_mode_with_one_fan_keeps_fixed_speed() {
    let fan = FanControl { speed: Some(0), min_fans: Some(1) };
    let (m, _) = with_temp(TempControlMode::Manual, TempControl::default(), Some(fan)).resolve_monitor_config();
    assert_eq!(m.fan_config, Some(FanControlConfig { mode: FanControlMode::FixedSpeed(0), min_fans: 1 }));
}

#[test]
fn manual_mode_reports_target_temp() {
    let temp = TempControl { target_temp: Some(70_000), ..TempControl::default() };
    let (_, adv) = with_temp(TempControlMode::Manual, temp, None).resolve_monitor_config();
    assert_eq!(adv, vec![Advisory::UnusedTargetTemp(70_000)]);
}

#[test]
fn parse_chain_index_reads_like_std() {
    assert_eq!(parse_chain_index("5"), Some(5));
    assert_eq!(parse_chain_index("+7"), Some(7));
    assert_eq!(parse_chain_index("007"), Some(7));
    assert_eq!(parse_chain_index("123"), Some(123));
    assert_eq!(parse_chain_index(""), None);
    assert_eq!(parse_chain_index("+"), None);
    assert_eq!(parse_chain_index("-1"), None);
    assert_eq!(parse_chain_index("1a"), None);
    assert_eq!(parse_chain_index("99999999999999999999999"), None);
    let max = usize::MAX.to_string();
    assert_eq!(parse_chain_index(&max), Some(usize::MAX));
}

#[test]
fn key_names_chain_is_exact() {
    assert!(key_names_chain("5", 5));
    assert!(key_names_chain("0", 0));
    assert!(!key_names_chain("05", 5));
    assert!(!key_names_chain("+5", 5));
    assert!(!key_names_chain("6", 5));
    assert!(!key_names_chain("", 0));
}

#[test]
fn option_default_records_provenance() {
    let d = OptionDefault::new(None, 3usize);
    assert_eq!(d.value(), 3);
    assert!(!d.is_some());
    let s = OptionDefault::new(Some(0usize), 3);
    assert!(s.eq_some(0));
    assert!(!d.eq_some(3));
    let o = d.overridden_by(Some(9));
    assert_eq!(o.value(), 9);
    assert!(o.is_some());
    assert_eq!(s.overridden_by(None), s);
}

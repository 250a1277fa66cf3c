use op_charge_controller::config::{
    accept_profile, format_toml, profile_path_or_default, reload_profile, Config, ConfigError,
    ProfileError,
};

fn valid() -> Config {
    Config {
        ufcs_max_vote: 6200,
        ufcs_ramp_step_ma: 300,
        ufcs_taper_step_ma: 100,
        constant_voltage_mv: 4500,
        charge_cutoff_mv: 4570,
        shell_back_emul_temp_enabled: true,
    }
}

#[test]
fn format_profile_formats_profiles_with_four_space_indentation() {
    let input = "[section]\nkey = \"value\"\n";

    assert_eq!(format_toml(input), input);
}

#[test]
fn formats_profiles_with_four_space_indentation() {
    let input = "[section]\nkey = \"value\"\n";

    assert_eq!(format_toml(input), input);
}

#[test]
fn format_profile_formatting_is_idempotent() {
    let once = format_toml("[section]\nkey=\"value\"\n");

    assert_eq!(format_toml(&once), once);
}

#[test]
fn formatting_is_idempotent() {
    let once = format_toml("[section]\nkey=\"value\"\n");

    assert_eq!(format_toml(&once), once);
}

#[test]
fn formatting_spaces_out_keys() {
    assert_eq!(format_toml("ufcs_max_vote=6200\n"), "ufcs_max_vote = 6200\n");
}

#[test]
fn valid_profiles_are_accepted() {
    assert_eq!(valid().validate(), Ok(()));
    let equal = Config { charge_cutoff_mv: 4500, ..valid() };
    assert_eq!(equal.validate(), Ok(()));
}

#[test]
fn each_broken_rule_is_reported() {
    let cases = [
        (Config { ufcs_max_vote: -1, ..valid() }, ConfigError::MaxVoteNotPositive),
        (Config { ufcs_max_vote: 0, ..valid() }, ConfigError::MaxVoteNotPositive),
        (Config { ufcs_ramp_step_ma: 0, ..valid() }, ConfigError::RampStepZero),
        (Config { ufcs_taper_step_ma: 0, ..valid() }, ConfigError::TaperStepZero),
        (Config { constant_voltage_mv: 0, ..valid() }, ConfigError::ConstantVoltageNotPositive),
        (Config { charge_cutoff_mv: 0, ..valid() }, ConfigError::CutoffNotPositive),
        (
            Config { constant_voltage_mv: 4570, charge_cutoff_mv: 4500, ..valid() },
            ConfigError::CutoffBelowConstantVoltage,
        ),
        (
            Config { ufcs_max_vote: 0, ufcs_ramp_step_ma: 0, ..valid() },
            ConfigError::MaxVoteNotPositive,
        ),
    ];
    for (config, error) in cases {
        assert_eq!(config.validate(), Err(error));
    }
}

#[test]
fn error_descriptions_name_the_field() {
    assert!(ConfigError::MaxVoteNotPositive.description().contains("ufcs_max_vote"));
    assert!(ConfigError::RampStepZero.description().contains("ufcs_ramp_step_ma"));
    assert!(ConfigError::TaperStepZero.description().contains("ufcs_taper_step_ma"));
    assert!(ConfigError::ConstantVoltageNotPositive.description().contains("constant_voltage_mv"));
    assert!(ConfigError::CutoffNotPositive.description().contains("charge_cutoff_mv"));
    assert!(ConfigError::CutoffBelowConstantVoltage.description().contains("charge_cutoff_mv"));
}

#[test]
fn profile_path_defaults_when_none_is_named() {
    assert_eq!(profile_path_or_default(None), "./op_charge.toml");
    assert_eq!(profile_path_or_default(Some("/data/p.toml".to_string())), "/data/p.toml");
}

#[test]
fn a_reload_keeps_the_last_valid_profile() {
    let current = valid();
    let reloaded = Config { ufcs_max_vote: 5000, ..valid() };
    assert_eq!(reload_profile(current, Some(reloaded)), (reloaded, Ok(())));
    let broken = Config { ufcs_max_vote: -1, ..valid() };
    assert_eq!(
        reload_profile(reloaded, Some(broken)),
        (reloaded, Err(ProfileError::Invalid(ConfigError::MaxVoteNotPositive)))
    );
    assert_eq!(
        reload_profile(reloaded, None),
        (reloaded, Err(ProfileError::Malformed))
    );
    let disabled = Config { shell_back_emul_temp_enabled: false, ..valid() };
    assert_eq!(reload_profile(current, Some(disabled)).0, disabled);
}

#[test]
fn invalid_profiles_are_refused() {
    let cases = [
        Config { ufcs_ramp_step_ma: 0, ..valid() },
        Config { ufcs_taper_step_ma: 0, ..valid() },
        Config { constant_voltage_mv: 4570, charge_cutoff_mv: 4500, ..valid() },
    ];
    for config in cases {
        assert!(matches!(accept_profile(Some(config)), Err(ProfileError::Invalid(_))));
    }
    assert_eq!(accept_profile(None), Err(ProfileError::Malformed));
    assert_eq!(accept_profile(Some(valid())), Ok(valid()));
}

#[test]
fn shell_back_emul_temp_is_reset_unless_the_profile_says_otherwise() {
    assert!(op_charge_controller::config::shell_back_emul_temp_default());
}

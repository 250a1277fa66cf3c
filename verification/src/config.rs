//! The charge profile and its validation rules.

use vstd::prelude::*;

verus! {

/// The charge profile, as read from the TOML profile file.
#[derive(Clone, Copy, Debug, PartialEq, Eq, Structural)]
pub struct Config {
    /// Upper limit of the UFCS current vote, in mA.
    pub ufcs_max_vote: i32,
    /// Current added per sample while ramping up, in mA (locked per session).
    pub ufcs_ramp_step_ma: u32,
    /// Current taken off the measured current while tapering, in mA.
    pub ufcs_taper_step_ma: u32,
    /// Cell voltage at which the constant-voltage stage starts, in mV.
    pub constant_voltage_mv: i32,
    /// Cell voltage at which charging is cut off, in mV.
    pub charge_cutoff_mv: i32,
    /// Whether the shell-back emulated temperature is reset at start-up.
    pub shell_back_emul_temp_enabled: bool,
}

/// Whether the shell-back emulated temperature is reset when a profile does
/// not say: it is.
pub fn shell_back_emul_temp_default() -> (r: bool)
    ensures
        r,
{
    true
}

/// The first rule of the profile that a value breaks.
#[derive(Clone, Copy, Debug, PartialEq, Eq, Structural)]
pub enum ConfigError {
    MaxVoteNotPositive,
    RampStepZero,
    TaperStepZero,
    ConstantVoltageNotPositive,
    CutoffNotPositive,
    CutoffBelowConstantVoltage,
}

impl Config {
    /// The first rule that this profile breaks, in the order the rules are checked.
    pub open spec fn first_violation(self) -> Option<ConfigError> {
        if self.ufcs_max_vote <= 0 {
            Some(ConfigError::MaxVoteNotPositive)
        } else if self.ufcs_ramp_step_ma == 0 {
            Some(ConfigError::RampStepZero)
        } else if self.ufcs_taper_step_ma == 0 {
            Some(ConfigError::TaperStepZero)
        } else if self.constant_voltage_mv <= 0 {
            Some(ConfigError::ConstantVoltageNotPositive)
        } else if self.charge_cutoff_mv <= 0 {
            Some(ConfigError::CutoffNotPositive)
        } else if self.charge_cutoff_mv < self.constant_voltage_mv {
            Some(ConfigError::CutoffBelowConstantVoltage)
        } else {
            None
        }
    }

    /// A profile that the controller accepts.
    pub open spec fn valid(self) -> bool {
        self.first_violation() is None
    }

    /// Checks the profile; a profile is accepted exactly when every limit and
    /// step is positive and the cut-off is not below the constant voltage.
    pub fn validate(&self) -> (r: Result<(), ConfigError>)
        ensures
            r is Ok <==> self.valid(),
            r is Ok <==> (self.ufcs_max_vote > 0 && self.ufcs_ramp_step_ma > 0
                && self.ufcs_taper_step_ma > 0 && self.constant_voltage_mv > 0
                && self.charge_cutoff_mv > 0 && self.charge_cutoff_mv >= self.constant_voltage_mv),
            r matches Err(e) ==> self.first_violation() == Some(e),
    {
        if self.ufcs_max_vote <= 0 {
            return Err(ConfigError::MaxVoteNotPositive);
        }
        if self.ufcs_ramp_step_ma == 0 {
            return Err(ConfigError::RampStepZero);
        }
        if self.ufcs_taper_step_ma == 0 {
            return Err(ConfigError::TaperStepZero);
        }
        if self.constant_voltage_mv <= 0 {
            return Err(ConfigError::ConstantVoltageNotPositive);
        }
        if self.charge_cutoff_mv <= 0 {
            return Err(ConfigError::CutoffNotPositive);
        }
        if self.charge_cutoff_mv < self.constant_voltage_mv {
            return Err(ConfigError::CutoffBelowConstantVoltage);
        }
        Ok(())
    }
}

impl ConfigError {
    /// The rule that was broken, as the controller reports it.
    pub open spec fn text(self) -> Seq<char> {
        match self {
            ConfigError::MaxVoteNotPositive => "ufcs_max_vote 必须为正数"@,
            ConfigError::RampStepZero => "ufcs_ramp_step_ma 必须为正数"@,
            ConfigError::TaperStepZero => "ufcs_taper_step_ma 必须为正数"@,
            ConfigError::ConstantVoltageNotPositive => "constant_voltage_mv 必须为正数"@,
            ConfigError::CutoffNotPositive => "charge_cutoff_mv 必须为正数"@,
            ConfigError::CutoffBelowConstantVoltage => "charge_cutoff_mv 不能小于 constant_voltage_mv"@,
        }
    }

    /// The message that names the broken rule.
    pub fn description(&self) -> (r: &'static str)
        ensures
            r@ == self.text(),
    {
        match self {
            ConfigError::MaxVoteNotPositive => "ufcs_max_vote 必须为正数",
            ConfigError::RampStepZero => "ufcs_ramp_step_ma 必须为正数",
            ConfigError::TaperStepZero => "ufcs_taper_step_ma 必须为正数",
            ConfigError::ConstantVoltageNotPositive => "constant_voltage_mv 必须为正数",
            ConfigError::CutoffNotPositive => "charge_cutoff_mv 必须为正数",
            ConfigError::CutoffBelowConstantVoltage => "charge_cutoff_mv 不能小于 constant_voltage_mv",
        }
    }
}

/// Why a profile read from disk was refused.
#[derive(Clone, Copy, Debug, PartialEq, Eq, Structural)]
pub enum ProfileError {
    /// The text is not a TOML profile with the expected fields.
    Malformed,
    /// The profile breaks one of the rules.
    Invalid(ConfigError),
}

/// The verdict on a profile read from disk (`None` when its text could not
/// be parsed): a valid one is taken; otherwise the reason it is refused.
pub open spec fn profile_verdict(candidate: Option<Config>) -> Result<Config, ProfileError> {
    match candidate {
        None => Err(ProfileError::Malformed),
        Some(c) => match c.first_violation() {
            None => Ok(c),
            Some(e) => Err(ProfileError::Invalid(e)),
        },
    }
}

/// Takes a profile read from disk if it is valid.
pub fn accept_profile(candidate: Option<Config>) -> (r: Result<Config, ProfileError>)
    ensures
        r == profile_verdict(candidate),
        r matches Ok(c) ==> c.valid(),
{
    match candidate {
        None => Err(ProfileError::Malformed),
        Some(c) => match c.validate() {
            Ok(()) => Ok(c),
            Err(e) => Err(ProfileError::Invalid(e)),
        },
    }
}

/// The profile in force after a reload: the one read, if it is taken;
/// otherwise the one that was in force.
pub open spec fn profile_after_reload(current: Config, candidate: Option<Config>) -> Config {
    match profile_verdict(candidate) {
        Ok(c) => c,
        Err(_) => current,
    }
}

/// Reloads the profile: a valid profile read from disk replaces the one in
/// force; anything else keeps the last valid one, and says why.
pub fn reload_profile(current: Config, candidate: Option<Config>) -> (r: (Config, Result<(), ProfileError>))
    ensures
        r.0 == profile_after_reload(current, candidate),
        match profile_verdict(candidate) {
            Ok(_) => r.1 is Ok,
            Err(e) => r.1 == Err::<(), ProfileError>(e),
        },
{
    match accept_profile(candidate) {
        Ok(c) => (c, Ok(())),
        Err(e) => (current, Err(e)),
    }
}

/// The profile read when none is named on the command line.
pub open spec fn default_profile() -> Seq<char> {
    "./op_charge.toml"@
}

/// The profile path: the one named on the command line, else the default.
pub fn profile_path_or_default(arg: Option<String>) -> (r: String)
    ensures
        match arg {
            Some(p) => r@ == p@,
            None => r@ == default_profile(),
        },
{
    match arg {
        Some(profile) => profile,
        None => String::from_str("./op_charge.toml"),
    }
}

/// What taplo's formatter makes of `input` with all its default options but
/// the indentation, which is `indent`.
pub uninterp spec fn taplo_formatted(input: Seq<char>, indent: Seq<char>) -> Seq<char>;

/// Texts below this many characters are below 2^32 bytes in UTF-8, the
/// largest text (and token) that taplo's syntax tree can measure.
pub const FORMAT_INPUT_CHARS_LIMIT: usize = 0x4000_0000;

/// Calls `taplo::formatter::format` on `input`, with the default
/// `taplo::formatter::Options` except `indent_string`, set to `indent`.
/// Claims that the result is a function of these two texts alone; what the
/// formatter does with them is not stated. The input is bounded because the
/// syntax tree measures each token (a comment line is one) in a `u32` and
/// panics past it.
#[verifier::external_body]
fn taplo_format(input: &str, indent: &str) -> (r: String)
    requires
        input@.len() < FORMAT_INPUT_CHARS_LIMIT,
    ensures
        r@ == taplo_formatted(input@, indent@),
{
    let options = taplo::formatter::Options {
        indent_string: indent.to_string(),
        ..Default::default()
    };
    taplo::formatter::format(input, options)
}

/// The indentation that profiles are formatted with: four spaces.
pub open spec fn profile_indent() -> Seq<char> {
    "    "@
}

/// Formats a TOML profile the way the controller keeps it: taplo's layout,
/// indented by four spaces. The text must be under
/// `FORMAT_INPUT_CHARS_LIMIT` characters, which the formatter can measure.
pub fn format_toml(input: &str) -> (r: String)
    requires
        input@.len() < FORMAT_INPUT_CHARS_LIMIT,
    ensures
        r@ == taplo_formatted(input@, profile_indent()),
{
    taplo_format(input, "    ")
}

} // verus!

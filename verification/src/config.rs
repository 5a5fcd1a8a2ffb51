//! The policy model: the three-way mode and the stored configuration.

use vstd::prelude::*;

use crate::text::str_eq;

verus! {

/// What the tool does with a patch payload.
#[derive(Clone, Copy, Debug, PartialEq, Eq, Structural)]
pub enum Mode {
    Apply,
    Refuse,
    Warn,
}

/// The lowercase name under which a mode is stored and reported.
pub open spec fn spec_mode_str(m: Mode) -> Seq<char> {
    match m {
        Mode::Apply => "apply"@,
        Mode::Refuse => "refuse"@,
        Mode::Warn => "warn"@,
    }
}

pub fn mode_str(m: Mode) -> (r: &'static str)
    ensures
        r@ == spec_mode_str(m),
{
    match m {
        Mode::Apply => "apply",
        Mode::Refuse => "refuse",
        Mode::Warn => "warn",
    }
}

/// Which mode, if any, a literal names.
pub open spec fn spec_parse_mode(s: Seq<char>) -> Option<Mode> {
    if s == "apply"@ {
        Some(Mode::Apply)
    } else if s == "refuse"@ {
        Some(Mode::Refuse)
    } else if s == "warn"@ {
        Some(Mode::Warn)
    } else {
        None
    }
}

pub fn parse_mode(s: &str) -> (r: Option<Mode>)
    ensures
        r == spec_parse_mode(s@),
{
    if str_eq(s, "apply") {
        Some(Mode::Apply)
    } else if str_eq(s, "refuse") {
        Some(Mode::Refuse)
    } else if str_eq(s, "warn") {
        Some(Mode::Warn)
    } else {
        None
    }
}

/// Every mode's name parses back to that mode.
pub proof fn lemma_mode_str_parses(m: Mode)
    ensures
        spec_parse_mode(spec_mode_str(m)) == Some(m),
{
    reveal_strlit("apply");
    reveal_strlit("refuse");
    reveal_strlit("warn");
    assert("apply"@.len() == 5);
    assert("refuse"@.len() == 6);
    assert("warn"@.len() == 4);
}

impl Default for Mode {
    /// Absent or unrecognized modes fall back to applying.
    fn default() -> (r: Self)
        ensures
            r == Mode::Apply,
    {
        Mode::Apply
    }
}

/// The persisted policy: a mode and an optional override for each notice.
/// An absent message means the built-in text is used.
#[derive(Clone, Debug, PartialEq, Eq)]
pub struct Config {
    pub mode: Mode,
    pub refuse_message: Option<String>,
    pub warn_message: Option<String>,
}

/// The mathematical value of a configuration.
pub struct ConfigView {
    pub mode: Mode,
    pub refuse_message: Option<Seq<char>>,
    pub warn_message: Option<Seq<char>>,
}

impl View for Config {
    type V = ConfigView;

    open spec fn view(&self) -> ConfigView {
        ConfigView {
            mode: self.mode,
            refuse_message: self.refuse_message.deep_view(),
            warn_message: self.warn_message.deep_view(),
        }
    }
}

/// The all-defaults configuration: apply, with both built-in notices.
pub open spec fn spec_default_config() -> ConfigView {
    ConfigView { mode: Mode::Apply, refuse_message: None, warn_message: None }
}

impl Default for Config {
    fn default() -> (r: Self)
        ensures
            r@ == spec_default_config(),
    {
        Config { mode: Mode::Apply, refuse_message: None, warn_message: None }
    }
}

} // verus!

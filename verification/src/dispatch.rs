//! What each invocation does: the built-in notices, every message the tool
//! prints, the effect of a configuration command, and the dispatch of a
//! patch payload under the three modes. Each function here decides; the
//! binary around the library only carries the decisions out.

use vstd::prelude::*;

use crate::args::ConfigUpdate;
use crate::args::SpecArgs;
use crate::args::SpecScan;
use crate::args::SpecScanResult;
use crate::args::SpecUpdate;
use crate::args::SpecUsage;
use crate::args::UsageError;
use crate::args::spec_has_config_flags;
use crate::args::spec_init_scan;
use crate::args::spec_interpret;
use crate::args::spec_scan;
use crate::config::Config;
use crate::config::ConfigView;
use crate::config::Mode;
use crate::config::lemma_mode_str_parses;
use crate::config::mode_str;
use crate::config::spec_mode_str;
use crate::persist::serialize_config;
use crate::persist::spec_config_doc;

verus! {

/// The whole invocation went through.
pub const EXIT_SUCCESS: i32 = 0;

/// An operational failure: unresolvable config path, a failed write, a
/// failed engine run, or arguments that are not text.
pub const EXIT_FAILURE: i32 = 1;

/// A malformed invocation.
pub const EXIT_USAGE: i32 = 2;

// ----- the fixed texts -----

pub open spec fn spec_default_refuse_text() -> Seq<char> {
    "NOTE TO LLM:\nYou just ran `apply_patch` as a shell command, not as a model-native editing tool.\nThis environment is configured to refuse shell-based patching, so nothing was changed.\n\nUse your native editing tool (your built-in patch/editor tool) to apply this change now, and do not run `apply_patch` in the shell for future changes."@
}

/// The built-in refuse notice, used when no override is stored.
pub fn default_refuse_message() -> (r: String)
    ensures
        r@ == spec_default_refuse_text(),
{
    String::from_str(
        "NOTE TO LLM:\nYou just ran `apply_patch` as a shell command, not as a model-native editing tool.\nThis environment is configured to refuse shell-based patching, so nothing was changed.\n\nUse your native editing tool (your built-in patch/editor tool) to apply this change now, and do not run `apply_patch` in the shell for future changes.",
    )
}

pub open spec fn spec_default_warn_text() -> Seq<char> {
    "NOTE TO LLM:\nThe patch was applied by a shell `apply_patch` wrapper.\nFor future changes, use your native editing tool instead of running `apply_patch` in the shell."@
}

/// The built-in warn notice, used when no override is stored.
pub fn default_warn_message() -> (r: String)
    ensures
        r@ == spec_default_warn_text(),
{
    String::from_str(
        "NOTE TO LLM:\nThe patch was applied by a shell `apply_patch` wrapper.\nFor future changes, use your native editing tool instead of running `apply_patch` in the shell.",
    )
}

pub open spec fn spec_help_text() -> Seq<char> {
    "apply_patch\n\nApplies Codex-style *** Begin Patch patches from stdin (or a single PATCH argument).\n\nConfig flags (persist in your home directory):\n  --show-config\n  --mode <apply|refuse|warn>   (aliases: --apply, --refuse, --warn)\n  --set-refuse-message <text>\n  --clear-refuse-message\n  --set-warn-message <text>\n  --clear-warn-message\n\nNotes:\n  - Config is stored at $XDG_CONFIG_HOME/.apply_patch/config.json (or ~/.apply_patch/config.json).\n  - You can override the config path with $APPLY_PATCH_CONFIG.\n"@
}

/// The usage text, ready to print, with its trailing newline.
pub fn print_help() -> (r: String)
    ensures
        r@ == spec_help_text(),
{
    String::from_str(
        "apply_patch\n\nApplies Codex-style *** Begin Patch patches from stdin (or a single PATCH argument).\n\nConfig flags (persist in your home directory):\n  --show-config\n  --mode <apply|refuse|warn>   (aliases: --apply, --refuse, --warn)\n  --set-refuse-message <text>\n  --clear-refuse-message\n  --set-warn-message <text>\n  --clear-warn-message\n\nNotes:\n  - Config is stored at $XDG_CONFIG_HOME/.apply_patch/config.json (or ~/.apply_patch/config.json).\n  - You can override the config path with $APPLY_PATCH_CONFIG.\n",
    )
}

// ----- one line for every failure -----

pub open spec fn spec_usage_message(e: SpecUsage) -> Seq<char> {
    match e {
        SpecUsage::ModeMissingValue => "Error: --mode requires a value."@,
        SpecUsage::InvalidMode(v) => "Error: invalid --mode value: "@ + v,
        SpecUsage::RefuseMessageMissingValue => "Error: --set-refuse-message requires a value."@,
        SpecUsage::WarnMessageMissingValue => "Error: --set-warn-message requires a value."@,
        SpecUsage::UnknownOption(a) => "Error: unknown option: "@ + a,
        SpecUsage::ConflictingPatchArgument => "Error: configuration flags cannot be combined with a PATCH argument."@,
        SpecUsage::TooManyPatchArguments => "Error: apply_patch accepts exactly one argument."@,
        SpecUsage::EmptyStdinPatch => "Usage: apply_patch 'PATCH'\n       echo 'PATCH' | apply-patch"@,
    }
}

/// The one-line explanation of a usage error, for the error stream.
pub fn usage_error_message(e: &UsageError) -> (r: String)
    ensures
        r@ == spec_usage_message(e@),
{
    match e {
        UsageError::ModeMissingValue => String::from_str("Error: --mode requires a value."),
        UsageError::InvalidMode(v) => {
            let mut s = String::from_str("Error: invalid --mode value: ");
            s.append(v.as_str());
            s
        },
        UsageError::RefuseMessageMissingValue => String::from_str(
            "Error: --set-refuse-message requires a value.",
        ),
        UsageError::WarnMessageMissingValue => String::from_str(
            "Error: --set-warn-message requires a value.",
        ),
        UsageError::UnknownOption(a) => {
            let mut s = String::from_str("Error: unknown option: ");
            s.append(a.as_str());
            s
        },
        UsageError::ConflictingPatchArgument => String::from_str(
            "Error: configuration flags cannot be combined with a PATCH argument.",
        ),
        UsageError::TooManyPatchArguments => String::from_str(
            "Error: apply_patch accepts exactly one argument.",
        ),
        UsageError::EmptyStdinPatch => String::from_str(
            "Usage: apply_patch 'PATCH'\n       echo 'PATCH' | apply-patch",
        ),
    }
}

pub open spec fn spec_no_path_text() -> Seq<char> {
    "Error: could not determine config path (HOME/XDG_CONFIG_HOME not set)."@
}

/// The explanation printed when no configuration path can be resolved.
pub fn path_undetermined_message() -> (r: String)
    ensures
        r@ == spec_no_path_text(),
{
    String::from_str("Error: could not determine config path (HOME/XDG_CONFIG_HOME not set).")
}

/// The explanation printed when persisting the configuration failed; the
/// detail is the underlying I/O error's own text.
pub fn write_config_failed_message(detail: &str) -> (r: String)
    ensures
        r@ == "Error: failed to write config: "@ + detail@,
{
    let mut s = String::from_str("Error: failed to write config: ");
    s.append(detail);
    s
}

/// The explanation printed when standard input could not be read.
pub fn stdin_read_failed_message(detail: &str) -> (r: String)
    ensures
        r@ == "Error: Failed to read PATCH from stdin.\n"@ + detail@,
{
    let mut s = String::from_str("Error: Failed to read PATCH from stdin.\n");
    s.append(detail);
    s
}

/// The explanation printed when an argument is not valid text.
pub fn non_utf8_args_message() -> (r: String)
    ensures
        r@ == "Error: apply_patch requires a UTF-8 PATCH argument."@,
{
    String::from_str("Error: apply_patch requires a UTF-8 PATCH argument.")
}

// ----- the effective notices -----

/// The refuse notice an invocation prints: the stored override, or the
/// built-in text when none is stored.
pub open spec fn spec_effective_refuse(c: ConfigView) -> Seq<char> {
    match c.refuse_message {
        Some(m) => m,
        None => spec_default_refuse_text(),
    }
}

pub fn effective_refuse_message(cfg: &Config) -> (r: String)
    ensures
        r@ == spec_effective_refuse(cfg@),
{
    match &cfg.refuse_message {
        Some(m) => m.clone(),
        None => default_refuse_message(),
    }
}

/// The warn notice an invocation prints after a successful application.
pub open spec fn spec_effective_warn(c: ConfigView) -> Seq<char> {
    match c.warn_message {
        Some(m) => m,
        None => spec_default_warn_text(),
    }
}

pub fn effective_warn_message(cfg: &Config) -> (r: String)
    ensures
        r@ == spec_effective_warn(cfg@),
{
    match &cfg.warn_message {
        Some(m) => m.clone(),
        None => default_warn_message(),
    }
}

// ----- the configuration command -----

/// What a requested update does to a loaded configuration: each field that
/// the update carries replaces the stored one; the rest stay.
pub open spec fn spec_apply_update(c: ConfigView, u: SpecUpdate) -> ConfigView {
    ConfigView {
        mode: match u.mode {
            Some(m) => m,
            None => c.mode,
        },
        refuse_message: match u.refuse_message {
            Some(v) => v,
            None => c.refuse_message,
        },
        warn_message: match u.warn_message {
            Some(v) => v,
            None => c.warn_message,
        },
    }
}

pub fn apply_update(cfg: Config, upd: &ConfigUpdate) -> (r: Config)
    ensures
        r@ == spec_apply_update(cfg@, upd@),
{
    let mode = match upd.mode {
        Some(m) => m,
        None => cfg.mode,
    };
    let refuse_message = match &upd.refuse_message {
        Some(Some(s)) => Some(s.clone()),
        Some(None) => None,
        None => cfg.refuse_message,
    };
    let warn_message = match &upd.warn_message {
        Some(Some(s)) => Some(s.clone()),
        Some(None) => None,
        None => cfg.warn_message,
    };
    Config { mode: mode, refuse_message: refuse_message, warn_message: warn_message }
}

/// Whether the update changes anything at all (showing alone does not).
pub open spec fn spec_has_mutation(u: SpecUpdate) -> bool {
    u.mode is Some || u.refuse_message is Some || u.warn_message is Some
}

pub open spec fn spec_custom_or_default(m: Option<Seq<char>>) -> Seq<char> {
    if m is Some {
        "custom"@
    } else {
        "default"@
    }
}

/// The `--show-config` report: the resolved path, the mode's name, and for
/// each message whether an override is stored or the built-in text applies.
pub open spec fn spec_show_report(path: Seq<char>, c: ConfigView) -> Seq<char> {
    "Config file: "@ + path + "\n"@ + "mode: "@ + spec_mode_str(c.mode) + "\n"@
        + "refuse_message: "@ + spec_custom_or_default(c.refuse_message) + "\n"@
        + "warn_message: "@ + spec_custom_or_default(c.warn_message) + "\n"@
}

pub fn show_report(path: &str, cfg: &Config) -> (r: String)
    ensures
        r@ == spec_show_report(path@, cfg@),
{
    let mut out = String::new();
    out.append("Config file: ");
    out.append(path);
    out.append("\n");
    out.append("mode: ");
    out.append(mode_str(cfg.mode));
    out.append("\n");
    out.append("refuse_message: ");
    match &cfg.refuse_message {
        Some(_) => out.append("custom"),
        None => out.append("default"),
    }
    out.append("\n");
    out.append("warn_message: ");
    match &cfg.warn_message {
        Some(_) => out.append("custom"),
        None => out.append("default"),
    }
    out.append("\n");
    proof {
        assert(out@ =~= spec_show_report(path@, cfg@));
    }
    out
}

/// The confirmation printed after a mutation without `--show-config`.
pub fn updated_message(path: &str) -> (r: String)
    ensures
        r@ == "Updated config: "@ + path@ + "\n"@,
{
    let mut s = String::from_str("Updated config: ");
    s.append(path);
    s.append("\n");
    proof {
        assert(s@ =~= "Updated config: "@ + path@ + "\n"@);
    }
    s
}

/// Everything a configuration command leaves to carry out: the document to
/// persist (exactly when a mutation was requested), the text for standard
/// output, and the status to exit with.
#[derive(Debug, PartialEq, Eq)]
pub struct CommandPlan {
    pub save: Option<String>,
    pub output: String,
    pub exit_code: i32,
}

/// Plans a configuration command against the loaded configuration: applies
/// the requested update, persists only when something changed, and reports
/// either the full configuration or a one-line confirmation.
pub fn config_command_plan(upd: &ConfigUpdate, path: &str, loaded: Config) -> (plan: CommandPlan)
    ensures
        ({
            let c2 = spec_apply_update(loaded@, upd@);
            &&& plan.save.deep_view() == (if spec_has_mutation(upd@) {
                Some(spec_config_doc(c2))
            } else {
                Option::<Seq<char>>::None
            })
            &&& plan.output@ == (if upd@.show {
                spec_show_report(path@, c2)
            } else {
                "Updated config: "@ + path@ + "\n"@
            })
            &&& plan.exit_code == EXIT_SUCCESS
        }),
{
    let has_mutation = upd.mode.is_some() || upd.refuse_message.is_some()
        || upd.warn_message.is_some();
    let new_cfg = apply_update(loaded, upd);
    let save = if has_mutation {
        Some(serialize_config(&new_cfg))
    } else {
        None
    };
    let output = if upd.show {
        show_report(path, &new_cfg)
    } else {
        updated_message(path)
    };
    CommandPlan { save: save, output: output, exit_code: EXIT_SUCCESS }
}

// ----- the patch-execution path -----

/// Where the payload comes from: the single positional, or standard input.
#[derive(Debug, PartialEq, Eq)]
pub enum PatchSource {
    Stdin,
    Arg(String),
}

pub enum SpecSource {
    Stdin,
    Arg(Seq<char>),
}

impl View for PatchSource {
    type V = SpecSource;

    open spec fn view(&self) -> SpecSource {
        match self {
            PatchSource::Stdin => SpecSource::Stdin,
            PatchSource::Arg(s) => SpecSource::Arg(s@),
        }
    }
}

/// Chooses the payload source from the positionals: none reads standard
/// input, exactly one is the payload, more than one is a usage error.
pub fn select_patch_source(positionals: Vec<String>) -> (r: Result<PatchSource, UsageError>)
    ensures
        ({
            let pos = positionals.deep_view();
            match r {
                Ok(src) => {
                    &&& pos.len() <= 1
                    &&& (pos.len() == 0 ==> src@ == SpecSource::Stdin)
                    &&& (pos.len() == 1 ==> src@ == SpecSource::Arg(pos[0]))
                },
                Err(e) => {
                    &&& pos.len() >= 2
                    &&& e@ == SpecUsage::TooManyPatchArguments
                },
            }
        }),
{
    let mut positionals = positionals;
    if positionals.len() == 0 {
        Ok(PatchSource::Stdin)
    } else if positionals.len() == 1 {
        let s = positionals.remove(0);
        Ok(PatchSource::Arg(s))
    } else {
        Err(UsageError::TooManyPatchArguments)
    }
}

/// Accepts a payload read from standard input only when it holds anything.
pub fn check_stdin_payload(s: String) -> (r: Result<String, UsageError>)
    ensures
        match r {
            Ok(t) => s@.len() > 0 && t@ == s@,
            Err(e) => s@.len() == 0 && e@ == SpecUsage::EmptyStdinPatch,
        },
{
    if s.as_str().is_empty() {
        Err(UsageError::EmptyStdinPatch)
    } else {
        Ok(s)
    }
}

/// What the payload's arrival triggers: printing the refuse notice and
/// stopping, or running the engine, possibly with a notice to add after a
/// successful run.
#[derive(Debug, PartialEq, Eq)]
pub enum PatchPlan {
    /// Print this and exit successfully; the filesystem stays untouched.
    PrintRefuse(String),
    /// Run the engine; after success, print the notice if one is carried.
    RunEngine { warn_after: Option<String> },
}

pub enum SpecPlan {
    PrintRefuse(Seq<char>),
    RunEngine { warn_after: Option<Seq<char>> },
}

impl View for PatchPlan {
    type V = SpecPlan;

    open spec fn view(&self) -> SpecPlan {
        match self {
            PatchPlan::PrintRefuse(s) => SpecPlan::PrintRefuse(s@),
            PatchPlan::RunEngine { warn_after } => SpecPlan::RunEngine {
                warn_after: warn_after.deep_view(),
            },
        }
    }
}

/// The dispatch on the mode: refuse prints the effective refuse notice and
/// never runs the engine; apply runs it silently; warn runs it and carries
/// the effective warn notice for after a success.
pub open spec fn spec_patch_plan(c: ConfigView) -> SpecPlan {
    match c.mode {
        Mode::Refuse => SpecPlan::PrintRefuse(spec_effective_refuse(c)),
        Mode::Apply => SpecPlan::RunEngine { warn_after: None },
        Mode::Warn => SpecPlan::RunEngine { warn_after: Some(spec_effective_warn(c)) },
    }
}

pub fn patch_plan(cfg: &Config) -> (r: PatchPlan)
    ensures
        r@ == spec_patch_plan(cfg@),
{
    match cfg.mode {
        Mode::Refuse => PatchPlan::PrintRefuse(effective_refuse_message(cfg)),
        Mode::Apply => PatchPlan::RunEngine { warn_after: None },
        Mode::Warn => PatchPlan::RunEngine { warn_after: Some(effective_warn_message(cfg)) },
    }
}

/// What follows the engine run: after a success the carried notice (if any)
/// is printed and the invocation succeeds; after a failure nothing more is
/// printed and the invocation fails, the engine's own diagnostics standing
/// as the explanation.
pub fn engine_outcome(warn_after: Option<String>, engine_ok: bool) -> (r: (Option<String>, i32))
    ensures
        engine_ok ==> r.0 == warn_after && r.1 == EXIT_SUCCESS,
        !engine_ok ==> r.0 is None && r.1 == EXIT_FAILURE,
{
    if engine_ok {
        (warn_after, EXIT_SUCCESS)
    } else {
        (None, EXIT_FAILURE)
    }
}

// ----- the properties that tie the pieces together -----

/// Setting a mode and asking for the report in one invocation stores that
/// mode and reports its name: `--mode <m> --show-config` is a command whose
/// update carries `m`, and the report of the updated configuration carries
/// the line `mode: <m>`, whatever was stored before.
pub proof fn lemma_mode_set_then_show(path: Seq<char>, c: ConfigView, m: Mode)
    ensures
        ({
            let args = seq!["--mode"@, spec_mode_str(m), "--show-config"@];
            let u = SpecUpdate { show: true, mode: Some(m), refuse_message: None, warn_message: None };
            &&& spec_interpret(args) == SpecArgs::Command(u)
            &&& spec_apply_update(c, u).mode == m
            &&& spec_show_report(path, spec_apply_update(c, u)) == "Config file: "@ + path + "\n"@
                + "mode: "@ + spec_mode_str(m) + "\n"@ + "refuse_message: "@
                + spec_custom_or_default(c.refuse_message) + "\n"@ + "warn_message: "@
                + spec_custom_or_default(c.warn_message) + "\n"@
        }),
{
    lemma_mode_str_parses(m);
    reveal_strlit("--mode");
    reveal_strlit("--show-config");
    reveal_strlit("apply");
    reveal_strlit("refuse");
    reveal_strlit("warn");
    let args = seq!["--mode"@, spec_mode_str(m), "--show-config"@];
    let st0 = spec_init_scan();
    assert("--mode"@.len() == 6);
    assert("--show-config"@.len() == 13);
    assert(args[0] == "--mode"@);
    assert(args[1] == spec_mode_str(m));
    assert(args[2] == "--show-config"@);
    let st1 = SpecScan { mode: Some(m), ..st0 };
    let st2 = SpecScan { show: true, ..st1 };
    assert(spec_scan(args, 0, st0) == spec_scan(args, 2, st1));
    assert(spec_scan(args, 2, st1) == spec_scan(args, 3, st2));
    assert(spec_scan(args, 3, st2) == SpecScanResult::Done(st2));
    assert(spec_has_config_flags(st2));
    assert(st2.positionals.len() == 0);
}

/// Clearing the stored overrides restores both built-in notices on the next
/// relevant invocation, whatever was stored before.
pub proof fn lemma_clear_restores_builtin(c: ConfigView)
    ensures
        ({
            let clear = SpecUpdate {
                show: false,
                mode: None,
                refuse_message: Some(None),
                warn_message: Some(None),
            };
            &&& spec_effective_refuse(spec_apply_update(c, clear)) == spec_default_refuse_text()
            &&& spec_effective_warn(spec_apply_update(c, clear)) == spec_default_warn_text()
        }),
{
}

/// Configuration flags never stand beside a positional: whenever the scan
/// finishes having seen both, the whole invocation is the combined-usage
/// error, and nothing else.
pub proof fn lemma_flags_exclude_positionals(args: Seq<Seq<char>>, st: SpecScan)
    requires
        spec_scan(args, 0, spec_init_scan()) == SpecScanResult::Done(st),
        spec_has_config_flags(st),
        st.positionals.len() > 0,
    ensures
        spec_interpret(args) == SpecArgs::Usage(SpecUsage::ConflictingPatchArgument),
{
}

} // verus!

//! Interpretation of the command line.
//!
//! A left-to-right scan classifies the arguments into one of four outcomes:
//! a request for the usage text, a usage error, a configuration command
//! (flags that inspect or mutate the stored policy), or a plain list of
//! positional arguments for the patch-execution path. The scan is specified
//! by a recursive spec function over the argument views, and the executable
//! scanner is proved to agree with it on every argument list.

use vstd::prelude::*;

use crate::config::Mode;
use crate::config::spec_parse_mode;
use crate::config::parse_mode;
use crate::text::str_eq;

verus! {

/// The mutations and reports a configuration command requests.
/// `refuse_message` and `warn_message` are `Some(Some(text))` to store an
/// override, `Some(None)` to clear one, and `None` to leave it untouched.
#[derive(Debug, PartialEq, Eq)]
pub struct ConfigUpdate {
    pub show: bool,
    pub mode: Option<Mode>,
    pub refuse_message: Option<Option<String>>,
    pub warn_message: Option<Option<String>>,
}

/// The mathematical value of a requested update.
pub struct SpecUpdate {
    pub show: bool,
    pub mode: Option<Mode>,
    pub refuse_message: Option<Option<Seq<char>>>,
    pub warn_message: Option<Option<Seq<char>>>,
}

impl View for ConfigUpdate {
    type V = SpecUpdate;

    open spec fn view(&self) -> SpecUpdate {
        SpecUpdate {
            show: self.show,
            mode: self.mode,
            refuse_message: self.refuse_message.deep_view(),
            warn_message: self.warn_message.deep_view(),
        }
    }
}

/// The ways an invocation can be malformed. Every one exits with the
/// usage status and a one-line explanation on the error stream.
#[derive(Debug, PartialEq, Eq)]
pub enum UsageError {
    /// `--mode` stood last, with no value after it.
    ModeMissingValue,
    /// The value after `--mode` names no mode; the value is carried along.
    InvalidMode(String),
    /// `--set-refuse-message` stood last, with no value after it.
    RefuseMessageMissingValue,
    /// `--set-warn-message` stood last, with no value after it.
    WarnMessageMissingValue,
    /// A token beginning with `-` that names no known flag.
    UnknownOption(String),
    /// Configuration flags stood beside a positional patch argument.
    ConflictingPatchArgument,
    /// More than one positional patch argument was given.
    TooManyPatchArguments,
    /// Standard input was to supply the payload but held nothing.
    EmptyStdinPatch,
}

/// The mathematical value of a usage error.
pub enum SpecUsage {
    ModeMissingValue,
    InvalidMode(Seq<char>),
    RefuseMessageMissingValue,
    WarnMessageMissingValue,
    UnknownOption(Seq<char>),
    ConflictingPatchArgument,
    TooManyPatchArguments,
    EmptyStdinPatch,
}

impl View for UsageError {
    type V = SpecUsage;

    open spec fn view(&self) -> SpecUsage {
        match self {
            UsageError::ModeMissingValue => SpecUsage::ModeMissingValue,
            UsageError::InvalidMode(s) => SpecUsage::InvalidMode(s@),
            UsageError::RefuseMessageMissingValue => SpecUsage::RefuseMessageMissingValue,
            UsageError::WarnMessageMissingValue => SpecUsage::WarnMessageMissingValue,
            UsageError::UnknownOption(s) => SpecUsage::UnknownOption(s@),
            UsageError::ConflictingPatchArgument => SpecUsage::ConflictingPatchArgument,
            UsageError::TooManyPatchArguments => SpecUsage::TooManyPatchArguments,
            UsageError::EmptyStdinPatch => SpecUsage::EmptyStdinPatch,
        }
    }
}

/// What an argument list asks of the process.
#[derive(Debug, PartialEq, Eq)]
pub enum ArgsOutcome {
    /// `-h` or `--help` was seen: print the usage text and stop, successfully.
    Help,
    /// The invocation was malformed.
    Usage(UsageError),
    /// At least one configuration flag, and no positionals.
    Command(ConfigUpdate),
    /// No configuration flag anywhere: the positionals, in order.
    Patch(Vec<String>),
}

/// The mathematical value of an interpretation outcome.
pub enum SpecArgs {
    Help,
    Usage(SpecUsage),
    Command(SpecUpdate),
    Patch(Seq<Seq<char>>),
}

impl View for ArgsOutcome {
    type V = SpecArgs;

    open spec fn view(&self) -> SpecArgs {
        match self {
            ArgsOutcome::Help => SpecArgs::Help,
            ArgsOutcome::Usage(e) => SpecArgs::Usage(e@),
            ArgsOutcome::Command(u) => SpecArgs::Command(u@),
            ArgsOutcome::Patch(p) => SpecArgs::Patch(p.deep_view()),
        }
    }
}

/// The running state of the scan: what has been requested so far and the
/// positionals collected so far.
pub struct SpecScan {
    pub show: bool,
    pub mode: Option<Mode>,
    pub refuse_message: Option<Option<Seq<char>>>,
    pub warn_message: Option<Option<Seq<char>>>,
    pub positionals: Seq<Seq<char>>,
}

/// How a scan ends: the whole list consumed, a help request, or an error.
pub enum SpecScanResult {
    Done(SpecScan),
    Help,
    Fail(SpecUsage),
}

pub open spec fn spec_init_scan() -> SpecScan {
    SpecScan {
        show: false,
        mode: None,
        refuse_message: None,
        warn_message: None,
        positionals: Seq::empty(),
    }
}

/// One token at a time, left to right. A value-bearing flag consumes the
/// following token as its value; a token that starts with `-` and names no
/// flag is an error; anything else is collected as a positional.
pub open spec fn spec_scan(args: Seq<Seq<char>>, i: int, st: SpecScan) -> SpecScanResult
    decreases args.len() - i,
{
    if i < 0 || i >= args.len() {
        SpecScanResult::Done(st)
    } else {
        let a = args[i];
        if a == "--show-config"@ {
            spec_scan(args, i + 1, SpecScan { show: true, ..st })
        } else if a == "--mode"@ {
            if i + 1 >= args.len() {
                SpecScanResult::Fail(SpecUsage::ModeMissingValue)
            } else {
                match spec_parse_mode(args[i + 1]) {
                    Some(m) => spec_scan(args, i + 2, SpecScan { mode: Some(m), ..st }),
                    None => SpecScanResult::Fail(SpecUsage::InvalidMode(args[i + 1])),
                }
            }
        } else if a == "--apply"@ {
            spec_scan(args, i + 1, SpecScan { mode: Some(Mode::Apply), ..st })
        } else if a == "--refuse"@ {
            spec_scan(args, i + 1, SpecScan { mode: Some(Mode::Refuse), ..st })
        } else if a == "--warn"@ {
            spec_scan(args, i + 1, SpecScan { mode: Some(Mode::Warn), ..st })
        } else if a == "--set-refuse-message"@ {
            if i + 1 >= args.len() {
                SpecScanResult::Fail(SpecUsage::RefuseMessageMissingValue)
            } else {
                spec_scan(args, i + 2, SpecScan { refuse_message: Some(Some(args[i + 1])), ..st })
            }
        } else if a == "--clear-refuse-message"@ {
            spec_scan(args, i + 1, SpecScan { refuse_message: Some(None), ..st })
        } else if a == "--set-warn-message"@ {
            if i + 1 >= args.len() {
                SpecScanResult::Fail(SpecUsage::WarnMessageMissingValue)
            } else {
                spec_scan(args, i + 2, SpecScan { warn_message: Some(Some(args[i + 1])), ..st })
            }
        } else if a == "--clear-warn-message"@ {
            spec_scan(args, i + 1, SpecScan { warn_message: Some(None), ..st })
        } else if a == "-h"@ || a == "--help"@ {
            SpecScanResult::Help
        } else if a.len() > 0 && a[0] == '-' {
            SpecScanResult::Fail(SpecUsage::UnknownOption(a))
        } else {
            spec_scan(args, i + 1, SpecScan { positionals: st.positionals.push(a), ..st })
        }
    }
}

/// Whether the scan saw any configuration flag at all.
pub open spec fn spec_has_config_flags(st: SpecScan) -> bool {
    st.show || st.mode is Some || st.refuse_message is Some || st.warn_message is Some
}

/// What a whole argument list means. Configuration flags refuse to stand
/// beside positionals; without any of them the list is purely positional.
pub open spec fn spec_interpret(args: Seq<Seq<char>>) -> SpecArgs {
    match spec_scan(args, 0, spec_init_scan()) {
        SpecScanResult::Help => SpecArgs::Help,
        SpecScanResult::Fail(e) => SpecArgs::Usage(e),
        SpecScanResult::Done(st) => {
            if !spec_has_config_flags(st) {
                SpecArgs::Patch(st.positionals)
            } else if st.positionals.len() > 0 {
                SpecArgs::Usage(SpecUsage::ConflictingPatchArgument)
            } else {
                SpecArgs::Command(
                    SpecUpdate {
                        show: st.show,
                        mode: st.mode,
                        refuse_message: st.refuse_message,
                        warn_message: st.warn_message,
                    },
                )
            }
        },
    }
}

/// Classifies an argument list, agreeing with `spec_interpret` exactly.
pub fn interpret_args(args: &Vec<String>) -> (r: ArgsOutcome)
    ensures
        r@ == spec_interpret(args.deep_view()),
{
    let ghost dv = args.deep_view();
    let mut show: bool = false;
    let mut mode: Option<Mode> = None;
    let mut refuse_message: Option<Option<String>> = None;
    let mut warn_message: Option<Option<String>> = None;
    let mut positionals: Vec<String> = Vec::new();
    let mut i: usize = 0;
    proof {
        assert(positionals.deep_view() =~= Seq::<Seq<char>>::empty());
    }
    while i < args.len()
        invariant
            dv == args.deep_view(),
            dv.len() == args.len(),
            i <= args.len(),
            spec_scan(
                dv,
                i as int,
                SpecScan {
                    show: show,
                    mode: mode,
                    refuse_message: refuse_message.deep_view(),
                    warn_message: warn_message.deep_view(),
                    positionals: positionals.deep_view(),
                },
            ) == spec_scan(dv, 0, spec_init_scan()),
        decreases args.len() - i,
    {
        proof {
            assert(dv[i as int] == args@[i as int]@);
        }
        let a = &args[i];
        if str_eq(a.as_str(), "--show-config") {
            show = true;
            i = i + 1;
        } else if str_eq(a.as_str(), "--mode") {
            if i + 1 >= args.len() {
                return ArgsOutcome::Usage(UsageError::ModeMissingValue);
            }
            proof {
                assert(dv[i + 1] == args@[i + 1]@);
            }
            let val = &args[i + 1];
            match parse_mode(val.as_str()) {
                Some(m) => {
                    mode = Some(m);
                    i = i + 2;
                },
                None => {
                    return ArgsOutcome::Usage(UsageError::InvalidMode(val.clone()));
                },
            }
        } else if str_eq(a.as_str(), "--apply") {
            mode = Some(Mode::Apply);
            i = i + 1;
        } else if str_eq(a.as_str(), "--refuse") {
            mode = Some(Mode::Refuse);
            i = i + 1;
        } else if str_eq(a.as_str(), "--warn") {
            mode = Some(Mode::Warn);
            i = i + 1;
        } else if str_eq(a.as_str(), "--set-refuse-message") {
            if i + 1 >= args.len() {
                return ArgsOutcome::Usage(UsageError::RefuseMessageMissingValue);
            }
            proof {
                assert(dv[i + 1] == args@[i + 1]@);
            }
            let val = &args[i + 1];
            refuse_message = Some(Some(val.clone()));
            i = i + 2;
        } else if str_eq(a.as_str(), "--clear-refuse-message") {
            refuse_message = Some(None);
            i = i + 1;
        } else if str_eq(a.as_str(), "--set-warn-message") {
            if i + 1 >= args.len() {
                return ArgsOutcome::Usage(UsageError::WarnMessageMissingValue);
            }
            proof {
                assert(dv[i + 1] == args@[i + 1]@);
            }
            let val = &args[i + 1];
            warn_message = Some(Some(val.clone()));
            i = i + 2;
        } else if str_eq(a.as_str(), "--clear-warn-message") {
            warn_message = Some(None);
            i = i + 1;
        } else if str_eq(a.as_str(), "-h") || str_eq(a.as_str(), "--help") {
            return ArgsOutcome::Help;
        } else {
            let n = a.as_str().unicode_len();
            if n > 0 && a.as_str().get_char(0) == '-' {
                return ArgsOutcome::Usage(UsageError::UnknownOption(a.clone()));
            }
            let ghost old_pos = positionals.deep_view();
            positionals.push(a.clone());
            proof {
                assert(positionals.deep_view() =~= old_pos.push(dv[i as int]));
            }
            i = i + 1;
        }
    }
    let has_config_flags = show || mode.is_some() || refuse_message.is_some()
        || warn_message.is_some();
    if !has_config_flags {
        return ArgsOutcome::Patch(positionals);
    }
    if positionals.len() > 0 {
        return ArgsOutcome::Usage(UsageError::ConflictingPatchArgument);
    }
    ArgsOutcome::Command(
        ConfigUpdate {
            show: show,
            mode: mode,
            refuse_message: refuse_message,
            warn_message: warn_message,
        },
    )
}

} // verus!

//! The command line: which command an argument list asks for.

use vstd::prelude::*;
use vstd::string::*;
use crate::errors::CliError;
use crate::text::str_eq;

verus! {

/// A command the front end can run; paths are as given.
#[derive(Debug, Clone, PartialEq, Eq)]
pub enum Command {
    Help,
    Version,
    CheckConfig { config: String },
    StateInit { data_dir: String },
    StateVerify { data_dir: String },
    PaperRunOnce { config: String, fixtures: String },
    RiskExplain { config: String, order_intent: String },
    Health { config: String },
    LiveCheck { config: String },
    LiveSubmit { config: String, order_intent: String, confirm_live: bool },
    ResearchBacktest { config: String, fixtures: String },
    ResearchApprove { config: String, report: String },
}

/// A command with its paths as text.
pub enum CommandView {
    Help,
    Version,
    CheckConfig(Seq<char>),
    StateInit(Seq<char>),
    StateVerify(Seq<char>),
    PaperRunOnce(Seq<char>, Seq<char>),
    RiskExplain(Seq<char>, Seq<char>),
    Health(Seq<char>),
    LiveCheck(Seq<char>),
    LiveSubmit(Seq<char>, Seq<char>, bool),
    ResearchBacktest(Seq<char>, Seq<char>),
    ResearchApprove(Seq<char>, Seq<char>),
}

/// A parse failure with its parts as text.
pub enum CliErrorView {
    UnknownCommand(Seq<char>),
    UnknownSubcommand(Seq<char>, Seq<char>),
    MissingArgument(Seq<char>, Seq<char>, Seq<char>),
    UnexpectedArgument(Seq<char>, Seq<char>, Seq<char>),
}

impl Command {
    /// The command with its paths as text.
    pub open spec fn spec_view(&self) -> CommandView {
        match self {
            Command::Help => CommandView::Help,
            Command::Version => CommandView::Version,
            Command::CheckConfig { config } => CommandView::CheckConfig(config@),
            Command::StateInit { data_dir } => CommandView::StateInit(data_dir@),
            Command::StateVerify { data_dir } => CommandView::StateVerify(data_dir@),
            Command::PaperRunOnce { config, fixtures } => CommandView::PaperRunOnce(
                config@,
                fixtures@,
            ),
            Command::RiskExplain { config, order_intent } => CommandView::RiskExplain(
                config@,
                order_intent@,
            ),
            Command::Health { config } => CommandView::Health(config@),
            Command::LiveCheck { config } => CommandView::LiveCheck(config@),
            Command::LiveSubmit { config, order_intent, confirm_live } => CommandView::LiveSubmit(
                config@,
                order_intent@,
                *confirm_live,
            ),
            Command::ResearchBacktest { config, fixtures } => CommandView::ResearchBacktest(
                config@,
                fixtures@,
            ),
            Command::ResearchApprove { config, report } => CommandView::ResearchApprove(
                config@,
                report@,
            ),
        }
    }
}

/// The parse failure with its parts as text.
pub open spec fn cli_error_view(e: CliError) -> CliErrorView {
    match e {
        CliError::UnknownCommand { command } => CliErrorView::UnknownCommand(command@),
        CliError::UnknownSubcommand { command, subcommand } => CliErrorView::UnknownSubcommand(
            command@,
            subcommand@,
        ),
        CliError::MissingArgument { command, argument, hint } => CliErrorView::MissingArgument(
            command@,
            argument@,
            hint@,
        ),
        CliError::UnexpectedArgument { command, argument, hint } =>
            CliErrorView::UnexpectedArgument(command@, argument@, hint@),
    }
}

/// `--help` or `-h`.
pub open spec fn spec_is_help(s: Seq<char>) -> bool {
    s == "--help"@ || s == "-h"@
}

/// `--version` or `-V`.
pub open spec fn spec_is_version(s: Seq<char>) -> bool {
    s == "--version"@ || s == "-V"@
}

fn is_help_flag(s: &str) -> (r: bool)
    ensures
        r == spec_is_help(s@),
{
    str_eq(s, "--help") || str_eq(s, "-h")
}

fn is_version_flag(s: &str) -> (r: bool)
    ensures
        r == spec_is_version(s@),
{
    str_eq(s, "--version") || str_eq(s, "-V")
}

/// How a run of `--flag value` pairs reads.
pub enum FlagsView {
    Help,
    Values(Seq<Seq<char>>, bool),
    Missing(Seq<char>),
    WrongFlag(Seq<char>),
    Extra(Seq<char>),
}

/// The pairs `flags[k] value` from position `p` of `args` on, in order;
/// then, where `optional` names a flag, that flag alone or nothing; then
/// nothing more. A missing flag or value names its label.
pub open spec fn spec_pairs(
    args: Seq<Seq<char>>,
    p: int,
    flags: Seq<Seq<char>>,
    labels: Seq<Seq<char>>,
    optional: Option<Seq<char>>,
) -> FlagsView
    decreases flags.len(),
{
    if flags.len() == 0 {
        if args.len() > p {
            if optional == Some(args[p]) {
                if args.len() > p + 1 {
                    FlagsView::Extra(args[p + 1])
                } else {
                    FlagsView::Values(Seq::empty(), true)
                }
            } else {
                FlagsView::Extra(args[p])
            }
        } else {
            FlagsView::Values(Seq::empty(), false)
        }
    } else if args.len() <= p {
        FlagsView::Missing(labels[0])
    } else if args[p] != flags[0] {
        FlagsView::WrongFlag(args[p])
    } else if args.len() <= p + 1 {
        FlagsView::Missing(labels[0])
    } else {
        match spec_pairs(args, p + 2, flags.drop_first(), labels.drop_first(), optional) {
            FlagsView::Values(vs, o) => FlagsView::Values(seq![args[p + 1]] + vs, o),
            other => other,
        }
    }
}

/// A command's arguments from position `i` of `args`: help when the first
/// asks for it, else the flag pairs.
pub open spec fn spec_flags(
    args: Seq<Seq<char>>,
    i: int,
    flags: Seq<Seq<char>>,
    labels: Seq<Seq<char>>,
    optional: Option<Seq<char>>,
) -> FlagsView {
    if args.len() > i && spec_is_help(args[i]) {
        FlagsView::Help
    } else {
        spec_pairs(args, i, flags, labels, optional)
    }
}

enum Flags {
    Help,
    Values(Vec<String>, bool),
    Missing(&'static str),
    WrongFlag(String),
    Extra(String),
}

spec fn flags_view(f: Flags) -> FlagsView {
    match f {
        Flags::Help => FlagsView::Help,
        Flags::Values(v, o) => FlagsView::Values(v@.map_values(|s: String| s@), o),
        Flags::Missing(l) => FlagsView::Missing(l@),
        Flags::WrongFlag(a) => FlagsView::WrongFlag(a@),
        Flags::Extra(a) => FlagsView::Extra(a@),
    }
}

/// The texts of an argument list.
pub open spec fn args_view(args: Seq<String>) -> Seq<Seq<char>> {
    args.map_values(|s: String| s@)
}

spec fn strs_view(v: Seq<&'static str>) -> Seq<Seq<char>> {
    v.map_values(|s: &'static str| s@)
}

proof fn lemma_pairs_values(
    args: Seq<Seq<char>>,
    p: int,
    flags: Seq<Seq<char>>,
    labels: Seq<Seq<char>>,
    optional: Option<Seq<char>>,
)
    requires
        0 <= p,
        flags.len() == labels.len(),
    ensures
        spec_pairs(args, p, flags, labels, optional) matches FlagsView::Values(vs, _) ==> vs.len()
            == flags.len(),
    decreases flags.len(),
{
    if flags.len() > 0 && args.len() > p + 1 && args[p] == flags[0] {
        lemma_pairs_values(args, p + 2, flags.drop_first(), labels.drop_first(), optional);
    }
}

/// Reads `flags[k] value` pairs from position `i` on, as `spec_flags`
/// states.
fn read_flags(
    args: &Vec<String>,
    i: usize,
    flags: &Vec<&'static str>,
    labels: &Vec<&'static str>,
    optional: Option<&'static str>,
) -> (r: Flags)
    requires
        flags@.len() == labels@.len(),
        flags@.len() > 0,
        i <= args@.len(),
        args@.len() + 2 * flags@.len() < usize::MAX,
    ensures
        flags_view(r) == spec_flags(
            args_view(args@),
            i as int,
            strs_view(flags@),
            strs_view(labels@),
            match optional {
                Some(o) => Some(o@),
                None => None,
            },
        ),
{
    let ghost a = args_view(args@);
    let ghost fs = strs_view(flags@);
    let ghost ls = strs_view(labels@);
    let ghost opt = match optional {
        Some(o) => Some(o@),
        None => None::<Seq<char>>,
    };
    if i < args.len() && is_help_flag(args[i].as_str()) {
        return Flags::Help;
    }
    assert(i < args@.len() ==> a[i as int] == args@[i as int]@);
    let mut values: Vec<String> = Vec::new();
    let mut k: usize = 0;
    let mut p: usize = i;
    proof {
        assert(fs.subrange(0, fs.len() as int) =~= fs);
        assert(ls.subrange(0, ls.len() as int) =~= ls);
        assert(values@.map_values(|s: String| s@) =~= Seq::<Seq<char>>::empty());
        match spec_pairs(a, i as int, fs, ls, opt) {
            FlagsView::Values(vs, o) => {
                assert(Seq::<Seq<char>>::empty() + vs =~= vs);
            },
            _ => {},
        }
    }
    while k < flags.len()
        invariant
            flags@.len() == labels@.len(),
            a == args_view(args@),
            fs == strs_view(flags@),
            ls == strs_view(labels@),
            opt == (match optional {
                Some(o) => Some(o@),
                None => None::<Seq<char>>,
            }),
            k <= flags@.len(),
            p == i + 2 * k,
            i <= args@.len(),
            p <= args@.len(),
            a.len() == args@.len(),
            !(a.len() > i && spec_is_help(a[i as int])),
            args@.len() + 2 * flags@.len() < usize::MAX,
            values@.len() == k,
            forall|j: int| 0 <= j < k ==> #[trigger] values@[j]@ == a[i + 2 * j + 1],
            spec_pairs(a, i as int, fs, ls, opt) == (match spec_pairs(
                a,
                p as int,
                fs.subrange(k as int, fs.len() as int),
                ls.subrange(k as int, ls.len() as int),
                opt,
            ) {
                FlagsView::Values(vs, o) => FlagsView::Values(
                    values@.map_values(|s: String| s@) + vs,
                    o,
                ),
                other => other,
            }),
        decreases flags@.len() - k,
    {
        let ghost rest_f = fs.subrange(k as int, fs.len() as int);
        let ghost rest_l = ls.subrange(k as int, ls.len() as int);
        assert(rest_f[0] == flags@[k as int]@);
        assert(rest_l[0] == labels@[k as int]@);
        if p >= args.len() {
            assert(spec_pairs(a, p as int, rest_f, rest_l, opt) == FlagsView::Missing(rest_l[0]));
            return Flags::Missing(labels[k]);
        }
        if !str_eq(args[p].as_str(), flags[k]) {
            assert(a[p as int] == args@[p as int]@);
            assert(spec_pairs(a, p as int, rest_f, rest_l, opt) == FlagsView::WrongFlag(
                a[p as int],
            ));
            return Flags::WrongFlag(args[p].clone());
        }
        if p + 1 >= args.len() {
            assert(a[p as int] == args@[p as int]@);
            assert(spec_pairs(a, p as int, rest_f, rest_l, opt) == FlagsView::Missing(rest_l[0]));
            return Flags::Missing(labels[k]);
        }
        let ghost before = values@.map_values(|s: String| s@);
        values.push(args[p + 1].clone());
        proof {
            assert(a[p as int] == args@[p as int]@);
            assert(a[p + 1] == args@[p + 1]@);
            let x = a[p + 1];
            assert(rest_f.drop_first() =~= fs.subrange(k + 1, fs.len() as int));
            assert(rest_l.drop_first() =~= ls.subrange(k + 1, ls.len() as int));
            assert(values@.map_values(|s: String| s@) =~= before.push(x));
            match spec_pairs(a, p + 2, rest_f.drop_first(), rest_l.drop_first(), opt) {
                FlagsView::Values(vs, o) => {
                    assert(before + (seq![x] + vs) =~= before.push(x) + vs);
                },
                _ => {},
            }
        }
        k = k + 1;
        p = p + 2;
    }
    proof {
        assert(fs.subrange(k as int, fs.len() as int) =~= Seq::<Seq<char>>::empty());
        assert(ls.subrange(k as int, ls.len() as int) =~= Seq::<Seq<char>>::empty());
    }
    if p < args.len() {
        match optional {
            Some(o) => {
                if str_eq(args[p].as_str(), o) {
                    if p + 1 < args.len() {
                        return Flags::Extra(args[p + 1].clone());
                    }
                    proof {
                        assert(values@.map_values(|s: String| s@) + Seq::<Seq<char>>::empty()
                            =~= values@.map_values(|s: String| s@));
                    }
                    return Flags::Values(values, true);
                }
            },
            None => {},
        }
        return Flags::Extra(args[p].clone());
    }
    proof {
        assert(values@.map_values(|s: String| s@) + Seq::<Seq<char>>::empty() =~= values@.map_values(
            |s: String| s@,
        ));
    }
    Flags::Values(values, false)
}

/// The hint for a malformed command line.
pub open spec fn spec_form_hint() -> Seq<char> {
    "run the command with --help to see the required form."@
}

/// The hint for an argument too many.
pub open spec fn spec_extra_hint() -> Seq<char> {
    "remove the extra argument and try again."@
}

/// What a subcommand named `command` reads from `f`, with `make` giving
/// the command from the values, `wrong_hint` and `missing_hint` the hints
/// for a wrong flag and a missing argument.
pub open spec fn spec_finish(
    command: Seq<char>,
    f: FlagsView,
    made: CommandView,
    wrong_hint: Seq<char>,
    missing_hint: Seq<char>,
) -> Result<CommandView, CliErrorView> {
    match f {
        FlagsView::Help => Ok(CommandView::Help),
        FlagsView::Values(_, _) => Ok(made),
        FlagsView::Missing(l) => Err(CliErrorView::MissingArgument(command, l, missing_hint)),
        FlagsView::WrongFlag(a) => Err(CliErrorView::UnexpectedArgument(command, a, wrong_hint)),
        FlagsView::Extra(a) => Err(CliErrorView::UnexpectedArgument(command, a, spec_extra_hint())),
    }
}

/// The value at position `k` of what the flags read, if they read values.
pub open spec fn spec_value(f: FlagsView, k: int) -> Seq<char> {
    match f {
        FlagsView::Values(vs, _) => vs[k],
        _ => Seq::empty(),
    }
}

/// Whether the optional flag was given.
pub open spec fn spec_optional_given(f: FlagsView) -> bool {
    f matches FlagsView::Values(_, true)
}

/// A subcommand of one `--flag value` pair.
pub open spec fn spec_one(
    args: Seq<Seq<char>>,
    i: int,
    command: Seq<char>,
    flag: Seq<char>,
    label: Seq<char>,
    make: spec_fn(Seq<char>) -> CommandView,
) -> Result<CommandView, CliErrorView> {
    let f = spec_flags(args, i, seq![flag], seq![label], None);
    spec_finish(command, f, make(spec_value(f, 0)), spec_form_hint(), spec_form_hint())
}

/// A subcommand of two `--flag value` pairs, with an optional trailing
/// flag.
pub open spec fn spec_two(
    args: Seq<Seq<char>>,
    i: int,
    command: Seq<char>,
    flags: (Seq<char>, Seq<char>),
    labels: (Seq<char>, Seq<char>),
    optional: Option<Seq<char>>,
    make: spec_fn(Seq<char>, Seq<char>, bool) -> CommandView,
) -> Result<CommandView, CliErrorView> {
    let f = spec_flags(args, i, seq![flags.0, flags.1], seq![labels.0, labels.1], optional);
    spec_finish(
        command,
        f,
        make(spec_value(f, 0), spec_value(f, 1), spec_optional_given(f)),
        spec_form_hint(),
        spec_form_hint(),
    )
}

/// A command group whose subcommand stands at position 1: missing, help,
/// one of the known ones, or unknown.
pub open spec fn spec_group(
    args: Seq<Seq<char>>,
    command: Seq<char>,
    choices: Seq<char>,
    known: spec_fn(Seq<char>) -> Option<Result<CommandView, CliErrorView>>,
) -> Result<CommandView, CliErrorView> {
    if args.len() <= 1 {
        Err(
            CliErrorView::MissingArgument(
                command,
                choices,
                "run `optionclaw "@ + command + " --help`."@,
            ),
        )
    } else if spec_is_help(args[1]) {
        Ok(CommandView::Help)
    } else {
        match known(args[1]) {
            Some(r) => r,
            None => Err(CliErrorView::UnknownSubcommand(command, args[1])),
        }
    }
}

/// `check-config --config <path>`.
pub open spec fn spec_parse_check_config(args: Seq<Seq<char>>) -> Result<CommandView, CliErrorView> {
    let f = spec_flags(args, 1, seq!["--config"@], seq!["--config <path>"@], None);
    spec_finish(
        "check-config"@,
        f,
        CommandView::CheckConfig(spec_value(f, 0)),
        "use `--config <path>`."@,
        "run `optionclaw check-config --help`."@,
    )
}

/// `state init --data-dir <path>`.
pub open spec fn spec_parse_state_init(args: Seq<Seq<char>>) -> Result<CommandView, CliErrorView> {
    spec_one(
        args,
        2,
        "state init"@,
        "--data-dir"@,
        "--data-dir <path>"@,
        |v: Seq<char>| CommandView::StateInit(v),
    )
}

/// `state verify --data-dir <path>`.
pub open spec fn spec_parse_state_verify(args: Seq<Seq<char>>) -> Result<CommandView, CliErrorView> {
    spec_one(
        args,
        2,
        "state verify"@,
        "--data-dir"@,
        "--data-dir <path>"@,
        |v: Seq<char>| CommandView::StateVerify(v),
    )
}

/// `state <init|verify> ...`.
pub open spec fn spec_parse_state(args: Seq<Seq<char>>) -> Result<CommandView, CliErrorView> {
    spec_group(
        args,
        "state"@,
        "<init|verify>"@,
        |s: Seq<char>|
            if s == "init"@ {
                Some(spec_parse_state_init(args))
            } else if s == "verify"@ {
                Some(spec_parse_state_verify(args))
            } else {
                None
            },
    )
}

/// `paper run-once --config <path> --fixtures <path>`.
pub open spec fn spec_parse_paper_run_once(args: Seq<Seq<char>>) -> Result<CommandView, CliErrorView> {
    spec_two(
        args,
        2,
        "paper run-once"@,
        ("--config"@, "--fixtures"@),
        ("--config <path>"@, "--fixtures <path>"@),
        None,
        |a: Seq<char>, b: Seq<char>, o: bool| CommandView::PaperRunOnce(a, b),
    )
}

/// `paper <run-once> ...`.
pub open spec fn spec_parse_paper(args: Seq<Seq<char>>) -> Result<CommandView, CliErrorView> {
    spec_group(
        args,
        "paper"@,
        "<run-once>"@,
        |s: Seq<char>|
            if s == "run-once"@ {
                Some(spec_parse_paper_run_once(args))
            } else {
                None
            },
    )
}

/// `risk explain --config <path> --order-intent <path>`.
pub open spec fn spec_parse_risk_explain(args: Seq<Seq<char>>) -> Result<CommandView, CliErrorView> {
    spec_two(
        args,
        2,
        "risk explain"@,
        ("--config"@, "--order-intent"@),
        ("--config <path>"@, "--order-intent <path>"@),
        None,
        |a: Seq<char>, b: Seq<char>, o: bool| CommandView::RiskExplain(a, b),
    )
}

/// `risk <explain> ...`.
pub open spec fn spec_parse_risk(args: Seq<Seq<char>>) -> Result<CommandView, CliErrorView> {
    spec_group(
        args,
        "risk"@,
        "<explain>"@,
        |s: Seq<char>|
            if s == "explain"@ {
                Some(spec_parse_risk_explain(args))
            } else {
                None
            },
    )
}

/// `health --config <path>`.
pub open spec fn spec_parse_health(args: Seq<Seq<char>>) -> Result<CommandView, CliErrorView> {
    spec_one(args, 1, "health"@, "--config"@, "--config <path>"@, |v: Seq<char>| CommandView::Health(v))
}

/// `live check --config <path>`.
pub open spec fn spec_parse_live_check(args: Seq<Seq<char>>) -> Result<CommandView, CliErrorView> {
    spec_one(
        args,
        2,
        "live check"@,
        "--config"@,
        "--config <path>"@,
        |v: Seq<char>| CommandView::LiveCheck(v),
    )
}

/// `live submit --config <path> --order-intent <path> [--confirm-live]`.
pub open spec fn spec_parse_live_submit(args: Seq<Seq<char>>) -> Result<CommandView, CliErrorView> {
    spec_two(
        args,
        2,
        "live submit"@,
        ("--config"@, "--order-intent"@),
        ("--config <path>"@, "--order-intent <path>"@),
        Some("--confirm-live"@),
        |a: Seq<char>, b: Seq<char>, o: bool| CommandView::LiveSubmit(a, b, o),
    )
}

/// `live <check|submit> ...`.
pub open spec fn spec_parse_live(args: Seq<Seq<char>>) -> Result<CommandView, CliErrorView> {
    spec_group(
        args,
        "live"@,
        "<check|submit>"@,
        |s: Seq<char>|
            if s == "check"@ {
                Some(spec_parse_live_check(args))
            } else if s == "submit"@ {
                Some(spec_parse_live_submit(args))
            } else {
                None
            },
    )
}

/// `research backtest --config <path> --fixtures <path>`.
pub open spec fn spec_parse_research_backtest(args: Seq<Seq<char>>) -> Result<CommandView, CliErrorView> {
    spec_two(
        args,
        2,
        "research backtest"@,
        ("--config"@, "--fixtures"@),
        ("--config <path>"@, "--fixtures <path>"@),
        None,
        |a: Seq<char>, b: Seq<char>, o: bool| CommandView::ResearchBacktest(a, b),
    )
}

/// `research approve --config <path> --report <path>`.
pub open spec fn spec_parse_research_approve(args: Seq<Seq<char>>) -> Result<CommandView, CliErrorView> {
    spec_two(
        args,
        2,
        "research approve"@,
        ("--config"@, "--report"@),
        ("--config <path>"@, "--report <path>"@),
        None,
        |a: Seq<char>, b: Seq<char>, o: bool| CommandView::ResearchApprove(a, b),
    )
}

/// `research <backtest|approve> ...`.
pub open spec fn spec_parse_research(args: Seq<Seq<char>>) -> Result<CommandView, CliErrorView> {
    spec_group(
        args,
        "research"@,
        "<backtest|approve>"@,
        |s: Seq<char>|
            if s == "backtest"@ {
                Some(spec_parse_research_backtest(args))
            } else if s == "approve"@ {
                Some(spec_parse_research_approve(args))
            } else {
                None
            },
    )
}

/// What an argument list (without the program name) asks for.
pub open spec fn spec_parse(args: Seq<Seq<char>>) -> Result<CommandView, CliErrorView> {
    if args.len() == 0 {
        Ok(CommandView::Help)
    } else if spec_is_help(args[0]) {
        Ok(CommandView::Help)
    } else if spec_is_version(args[0]) {
        Ok(CommandView::Version)
    } else if args[0] == "check-config"@ {
        spec_parse_check_config(args)
    } else if args[0] == "state"@ {
        spec_parse_state(args)
    } else if args[0] == "paper"@ {
        spec_parse_paper(args)
    } else if args[0] == "risk"@ {
        spec_parse_risk(args)
    } else if args[0] == "health"@ {
        spec_parse_health(args)
    } else if args[0] == "live"@ {
        spec_parse_live(args)
    } else if args[0] == "research"@ {
        spec_parse_research(args)
    } else {
        Err(CliErrorView::UnknownCommand(args[0]))
    }
}

/// A parse outcome with its parts as text.
pub open spec fn parse_result_view(r: Result<Command, CliError>) -> Result<CommandView, CliErrorView> {
    match r {
        Ok(c) => Ok(c.spec_view()),
        Err(e) => Err(cli_error_view(e)),
    }
}

/// The error a subcommand's flags give, if any.
fn flags_error(
    command: &'static str,
    f: Flags,
    wrong_hint: &'static str,
    missing_hint: &'static str,
) -> (r: Result<Flags, CliError>)
    ensures
        match r {
            Ok(g) => g == f && (f is Help || f is Values),
            Err(e) => !(f is Help || f is Values) && spec_finish(
                command@,
                flags_view(f),
                CommandView::Help,
                wrong_hint@,
                missing_hint@,
            ) == Err::<CommandView, CliErrorView>(cli_error_view(e)),
        },
{
    match f {
        Flags::Missing(l) => Err(
            CliError::MissingArgument { command, argument: l, hint: missing_hint },
        ),
        Flags::WrongFlag(a) => Err(
            CliError::UnexpectedArgument { command, argument: a, hint: wrong_hint },
        ),
        Flags::Extra(a) => Err(
            CliError::UnexpectedArgument {
                command,
                argument: a,
                hint: "remove the extra argument and try again.",
            },
        ),
        other => Ok(other),
    }
}

/// One `--flag value` pair from position `i`: `None` for help, else the
/// value.
fn one_value(
    args: &Vec<String>,
    i: usize,
    command: &'static str,
    flag: &'static str,
    label: &'static str,
    wrong_hint: &'static str,
    missing_hint: &'static str,
) -> (r: Result<Option<String>, CliError>)
    requires
        i <= args@.len(),
        args@.len() + 2 < usize::MAX,
    ensures
        ({
            let f = spec_flags(args_view(args@), i as int, seq![flag@], seq![label@], None);
            match r {
                Ok(None) => f is Help,
                Ok(Some(v)) => f is Values && v@ == spec_value(f, 0),
                Err(e) => spec_finish(command@, f, CommandView::Help, wrong_hint@, missing_hint@)
                    == Err::<CommandView, CliErrorView>(cli_error_view(e)),
            }
        }),
{
    let flags = vec![flag];
    let labels = vec![label];
    assert(strs_view(flags@) =~= seq![flag@]);
    assert(strs_view(labels@) =~= seq![label@]);
    let f = read_flags(args, i, &flags, &labels, None);
    proof {
        lemma_pairs_values(args_view(args@), i as int, seq![flag@], seq![label@], None);
    }
    match flags_error(command, f, wrong_hint, missing_hint)? {
        Flags::Values(mut vs, _) => {
            assert(vs@.map_values(|s: String| s@)[0] == vs@[0]@);
            Ok(Some(vs.swap_remove(0)))
        },
        _ => Ok(None),
    }
}

/// Two `--flag value` pairs from position `i`, then the optional flag:
/// `None` for help, else the values and whether the optional flag came.
fn two_values(
    args: &Vec<String>,
    i: usize,
    command: &'static str,
    flags: (&'static str, &'static str),
    labels: (&'static str, &'static str),
    optional: Option<&'static str>,
) -> (r: Result<Option<(String, String, bool)>, CliError>)
    requires
        i <= args@.len(),
        args@.len() + 4 < usize::MAX,
    ensures
        ({
            let f = spec_flags(
                args_view(args@),
                i as int,
                seq![flags.0@, flags.1@],
                seq![labels.0@, labels.1@],
                match optional {
                    Some(o) => Some(o@),
                    None => None,
                },
            );
            match r {
                Ok(None) => f is Help,
                Ok(Some((a, b, o))) => f is Values && a@ == spec_value(f, 0) && b@ == spec_value(f, 1)
                    && o == spec_optional_given(f),
                Err(e) => spec_finish(command@, f, CommandView::Help, spec_form_hint(), spec_form_hint())
                    == Err::<CommandView, CliErrorView>(cli_error_view(e)),
            }
        }),
{
    let fv = vec![flags.0, flags.1];
    let lv = vec![labels.0, labels.1];
    assert(strs_view(fv@) =~= seq![flags.0@, flags.1@]);
    assert(strs_view(lv@) =~= seq![labels.0@, labels.1@]);
    let f = read_flags(args, i, &fv, &lv, optional);
    proof {
        lemma_pairs_values(
            args_view(args@),
            i as int,
            seq![flags.0@, flags.1@],
            seq![labels.0@, labels.1@],
            match optional {
                Some(o) => Some(o@),
                None => None,
            },
        );
    }
    let hint = "run the command with --help to see the required form.";
    proof {
        reveal_strlit("run the command with --help to see the required form.");
    }
    match flags_error(command, f, hint, hint)? {
        Flags::Values(mut vs, o) => {
            assert(vs@.map_values(|s: String| s@)[0] == vs@[0]@);
            assert(vs@.map_values(|s: String| s@)[1] == vs@[1]@);
            let b = vs.swap_remove(1);
            let a = vs.swap_remove(0);
            Ok(Some((a, b, o)))
        },
        _ => Ok(None),
    }
}

/// `check-config --config <path>`, as `spec_parse_check_config` states.
fn parse_check_config(args: &Vec<String>) -> (r: Result<Command, CliError>)
    requires
        args@.len() >= 1,
        args@.len() + 4 < usize::MAX,
    ensures
        parse_result_view(r) == spec_parse_check_config(args_view(args@)),
{
    match one_value(args, 1, "check-config", "--config", "--config <path>", "use `--config <path>`.",
        "run `optionclaw check-config --help`.")? {
        Some(config) => Ok(Command::CheckConfig { config }),
        None => Ok(Command::Help),
    }
}

/// The `state` group, as `spec_parse_state` states.
fn parse_state(args: &Vec<String>) -> (r: Result<Command, CliError>)
    requires
        args@.len() >= 1,
        args@.len() + 4 < usize::MAX,
    ensures
        parse_result_view(r) == spec_parse_state(args_view(args@)),
{
    let ghost a = args_view(args@);
    if args.len() <= 1 {
        proof {
            reveal_strlit("run `optionclaw state --help`.");
            reveal_strlit("state");
            reveal_strlit("run `optionclaw ");
            reveal_strlit(" --help`.");
            assert("run `optionclaw state --help`."@ =~= "run `optionclaw "@ + "state"@ + " --help`."@);
        }
        return Err(
            CliError::MissingArgument {
                command: "state",
                argument: "<init|verify>",
                hint: "run `optionclaw state --help`.",
            },
        );
    }
    assert(a[1] == args@[1]@);
    let sub = args[1].as_str();
    if is_help_flag(sub) {
        return Ok(Command::Help);
    }
    if str_eq(sub, "init") {
        return parse_state_init(args);
    }
    if str_eq(sub, "verify") {
        return parse_state_verify(args);
    }
    Err(CliError::UnknownSubcommand { command: "state", subcommand: args[1].clone() })
}

/// `state init --data-dir <path>`, as `spec_parse_state_init` states.
fn parse_state_init(args: &Vec<String>) -> (r: Result<Command, CliError>)
    requires
        args@.len() >= 2,
        args@.len() + 4 < usize::MAX,
    ensures
        parse_result_view(r) == spec_parse_state_init(args_view(args@)),
{
    let hint = "run the command with --help to see the required form.";
    proof {
        reveal_strlit("run the command with --help to see the required form.");
    }
    match one_value(args, 2, "state init", "--data-dir", "--data-dir <path>", hint, hint)? {
        Some(data_dir) => Ok(Command::StateInit { data_dir }),
        None => Ok(Command::Help),
    }
}

/// `state verify --data-dir <path>`, as `spec_parse_state_verify` states.
fn parse_state_verify(args: &Vec<String>) -> (r: Result<Command, CliError>)
    requires
        args@.len() >= 2,
        args@.len() + 4 < usize::MAX,
    ensures
        parse_result_view(r) == spec_parse_state_verify(args_view(args@)),
{
    let hint = "run the command with --help to see the required form.";
    proof {
        reveal_strlit("run the command with --help to see the required form.");
    }
    match one_value(args, 2, "state verify", "--data-dir", "--data-dir <path>", hint, hint)? {
        Some(data_dir) => Ok(Command::StateVerify { data_dir }),
        None => Ok(Command::Help),
    }
}

/// The `paper` group, as `spec_parse_paper` states.
fn parse_paper(args: &Vec<String>) -> (r: Result<Command, CliError>)
    requires
        args@.len() >= 1,
        args@.len() + 4 < usize::MAX,
    ensures
        parse_result_view(r) == spec_parse_paper(args_view(args@)),
{
    let ghost a = args_view(args@);
    if args.len() <= 1 {
        proof {
            reveal_strlit("run `optionclaw paper --help`.");
            reveal_strlit("paper");
            reveal_strlit("run `optionclaw ");
            reveal_strlit(" --help`.");
            assert("run `optionclaw paper --help`."@ =~= "run `optionclaw "@ + "paper"@ + " --help`."@);
        }
        return Err(
            CliError::MissingArgument {
                command: "paper",
                argument: "<run-once>",
                hint: "run `optionclaw paper --help`.",
            },
        );
    }
    assert(a[1] == args@[1]@);
    let sub = args[1].as_str();
    if is_help_flag(sub) {
        return Ok(Command::Help);
    }
    if str_eq(sub, "run-once") {
        return parse_paper_run_once(args);
    }
    Err(CliError::UnknownSubcommand { command: "paper", subcommand: args[1].clone() })
}

/// `paper run-once --config <path> --fixtures <path>`, as `spec_parse_paper_run_once` states.
fn parse_paper_run_once(args: &Vec<String>) -> (r: Result<Command, CliError>)
    requires
        args@.len() >= 2,
        args@.len() + 4 < usize::MAX,
    ensures
        parse_result_view(r) == spec_parse_paper_run_once(args_view(args@)),
{
    match two_values(
        args,
        2,
        "paper run-once",
        ("--config", "--fixtures"),
        ("--config <path>", "--fixtures <path>"),
        None,
    )? {
        Some((config, fixtures, _)) => Ok(Command::PaperRunOnce { config, fixtures }),
        None => Ok(Command::Help),
    }
}

/// The `risk` group, as `spec_parse_risk` states.
fn parse_risk(args: &Vec<String>) -> (r: Result<Command, CliError>)
    requires
        args@.len() >= 1,
        args@.len() + 4 < usize::MAX,
    ensures
        parse_result_view(r) == spec_parse_risk(args_view(args@)),
{
    let ghost a = args_view(args@);
    if args.len() <= 1 {
        proof {
            reveal_strlit("run `optionclaw risk --help`.");
            reveal_strlit("risk");
            reveal_strlit("run `optionclaw ");
            reveal_strlit(" --help`.");
            assert("run `optionclaw risk --help`."@ =~= "run `optionclaw "@ + "risk"@ + " --help`."@);
        }
        return Err(
            CliError::MissingArgument {
                command: "risk",
                argument: "<explain>",
                hint: "run `optionclaw risk --help`.",
            },
        );
    }
    assert(a[1] == args@[1]@);
    let sub = args[1].as_str();
    if is_help_flag(sub) {
        return Ok(Command::Help);
    }
    if str_eq(sub, "explain") {
        return parse_risk_explain(args);
    }
    Err(CliError::UnknownSubcommand { command: "risk", subcommand: args[1].clone() })
}

/// `risk explain --config <path> --order-intent <path>`, as `spec_parse_risk_explain` states.
fn parse_risk_explain(args: &Vec<String>) -> (r: Result<Command, CliError>)
    requires
        args@.len() >= 2,
        args@.len() + 4 < usize::MAX,
    ensures
        parse_result_view(r) == spec_parse_risk_explain(args_view(args@)),
{
    match two_values(
        args,
        2,
        "risk explain",
        ("--config", "--order-intent"),
        ("--config <path>", "--order-intent <path>"),
        None,
    )? {
        Some((config, order_intent, _)) => Ok(Command::RiskExplain { config, order_intent }),
        None => Ok(Command::Help),
    }
}

/// `health --config <path>`, as `spec_parse_health` states.
fn parse_health(args: &Vec<String>) -> (r: Result<Command, CliError>)
    requires
        args@.len() >= 1,
        args@.len() + 4 < usize::MAX,
    ensures
        parse_result_view(r) == spec_parse_health(args_view(args@)),
{
    let hint = "run the command with --help to see the required form.";
    proof {
        reveal_strlit("run the command with --help to see the required form.");
    }
    match one_value(args, 1, "health", "--config", "--config <path>", hint, hint)? {
        Some(config) => Ok(Command::Health { config }),
        None => Ok(Command::Help),
    }
}

/// The `live` group, as `spec_parse_live` states.
fn parse_live(args: &Vec<String>) -> (r: Result<Command, CliError>)
    requires
        args@.len() >= 1,
        args@.len() + 4 < usize::MAX,
    ensures
        parse_result_view(r) == spec_parse_live(args_view(args@)),
{
    let ghost a = args_view(args@);
    if args.len() <= 1 {
        proof {
            reveal_strlit("run `optionclaw live --help`.");
            reveal_strlit("live");
            reveal_strlit("run `optionclaw ");
            reveal_strlit(" --help`.");
            assert("run `optionclaw live --help`."@ =~= "run `optionclaw "@ + "live"@ + " --help`."@);
        }
        return Err(
            CliError::MissingArgument {
                command: "live",
                argument: "<check|submit>",
                hint: "run `optionclaw live --help`.",
            },
        );
    }
    assert(a[1] == args@[1]@);
    let sub = args[1].as_str();
    if is_help_flag(sub) {
        return Ok(Command::Help);
    }
    if str_eq(sub, "check") {
        return parse_live_check(args);
    }
    if str_eq(sub, "submit") {
        return parse_live_submit(args);
    }
    Err(CliError::UnknownSubcommand { command: "live", subcommand: args[1].clone() })
}

/// `live check --config <path>`, as `spec_parse_live_check` states.
fn parse_live_check(args: &Vec<String>) -> (r: Result<Command, CliError>)
    requires
        args@.len() >= 2,
        args@.len() + 4 < usize::MAX,
    ensures
        parse_result_view(r) == spec_parse_live_check(args_view(args@)),
{
    let hint = "run the command with --help to see the required form.";
    proof {
        reveal_strlit("run the command with --help to see the required form.");
    }
    match one_value(args, 2, "live check", "--config", "--config <path>", hint, hint)? {
        Some(config) => Ok(Command::LiveCheck { config }),
        None => Ok(Command::Help),
    }
}

/// `live submit --config <path> --order-intent <path> [--confirm-live]`, as `spec_parse_live_submit` states.
fn parse_live_submit(args: &Vec<String>) -> (r: Result<Command, CliError>)
    requires
        args@.len() >= 2,
        args@.len() + 4 < usize::MAX,
    ensures
        parse_result_view(r) == spec_parse_live_submit(args_view(args@)),
{
    match two_values(
        args,
        2,
        "live submit",
        ("--config", "--order-intent"),
        ("--config <path>", "--order-intent <path>"),
        Some("--confirm-live"),
    )? {
        Some((config, order_intent, confirm_live)) => Ok(Command::LiveSubmit { config, order_intent, confirm_live }),
        None => Ok(Command::Help),
    }
}

/// The `research` group, as `spec_parse_research` states.
fn parse_research(args: &Vec<String>) -> (r: Result<Command, CliError>)
    requires
        args@.len() >= 1,
        args@.len() + 4 < usize::MAX,
    ensures
        parse_result_view(r) == spec_parse_research(args_view(args@)),
{
    let ghost a = args_view(args@);
    if args.len() <= 1 {
        proof {
            reveal_strlit("run `optionclaw research --help`.");
            reveal_strlit("research");
            reveal_strlit("run `optionclaw ");
            reveal_strlit(" --help`.");
            assert("run `optionclaw research --help`."@ =~= "run `optionclaw "@ + "research"@ + " --help`."@);
        }
        return Err(
            CliError::MissingArgument {
                command: "research",
                argument: "<backtest|approve>",
                hint: "run `optionclaw research --help`.",
            },
        );
    }
    assert(a[1] == args@[1]@);
    let sub = args[1].as_str();
    if is_help_flag(sub) {
        return Ok(Command::Help);
    }
    if str_eq(sub, "backtest") {
        return parse_research_backtest(args);
    }
    if str_eq(sub, "approve") {
        return parse_research_approve(args);
    }
    Err(CliError::UnknownSubcommand { command: "research", subcommand: args[1].clone() })
}

/// `research backtest --config <path> --fixtures <path>`, as `spec_parse_research_backtest` states.
fn parse_research_backtest(args: &Vec<String>) -> (r: Result<Command, CliError>)
    requires
        args@.len() >= 2,
        args@.len() + 4 < usize::MAX,
    ensures
        parse_result_view(r) == spec_parse_research_backtest(args_view(args@)),
{
    match two_values(
        args,
        2,
        "research backtest",
        ("--config", "--fixtures"),
        ("--config <path>", "--fixtures <path>"),
        None,
    )? {
        Some((config, fixtures, _)) => Ok(Command::ResearchBacktest { config, fixtures }),
        None => Ok(Command::Help),
    }
}

/// `research approve --config <path> --report <path>`, as `spec_parse_research_approve` states.
fn parse_research_approve(args: &Vec<String>) -> (r: Result<Command, CliError>)
    requires
        args@.len() >= 2,
        args@.len() + 4 < usize::MAX,
    ensures
        parse_result_view(r) == spec_parse_research_approve(args_view(args@)),
{
    match two_values(
        args,
        2,
        "research approve",
        ("--config", "--report"),
        ("--config <path>", "--report <path>"),
        None,
    )? {
        Some((config, report, _)) => Ok(Command::ResearchApprove { config, report }),
        None => Ok(Command::Help),
    }
}

/// The command an argument list (without the program name) asks for, as
/// `spec_parse` states.
pub fn parse_command(args: &Vec<String>) -> (r: Result<Command, CliError>)
    requires
        args@.len() + 4 < usize::MAX,
    ensures
        parse_result_view(r) == spec_parse(args_view(args@)),
{
    let ghost a = args_view(args@);
    if args.len() == 0 {
        return Ok(Command::Help);
    }
    assert(a[0] == args@[0]@);
    let first = args[0].as_str();
    if is_help_flag(first) {
        return Ok(Command::Help);
    }
    if is_version_flag(first) {
        return Ok(Command::Version);
    }
    if str_eq(first, "check-config") {
        return parse_check_config(args);
    }
    if str_eq(first, "state") {
        return parse_state(args);
    }
    if str_eq(first, "paper") {
        return parse_paper(args);
    }
    if str_eq(first, "risk") {
        return parse_risk(args);
    }
    if str_eq(first, "health") {
        return parse_health(args);
    }
    if str_eq(first, "live") {
        return parse_live(args);
    }
    if str_eq(first, "research") {
        return parse_research(args);
    }
    Err(CliError::UnknownCommand { command: args[0].clone() })
}

} // verus!

//! The verb translators: each rewrites the raw argument list of one canonical
//! verb (control flags, defaults, the verb actually looked up) and resolves it.

use vstd::prelude::*;
use vstd::string::*;
use crate::args::{contains_flag, exclude, str_eq, strs_view, without};
use crate::command::{
    get_command, lemma_run_line, outcome_view, resolve_spec, CommandError, CommandModel,
    ErrorModel, ResolveCommandReturn,
};
use crate::table::{is_agent, lemma_literal_heads};

verus! {

/// Per-invocation settings supplied by the caller.
#[derive(Debug, Clone, Default)]
pub struct RunnerContext {
    /// Whether the tool runs without prompting.
    pub programmatic: Option<bool>,
    /// Whether the project has a lockfile.
    pub has_lock: Option<bool>,
    /// The directory to work in, where it is not the current one.
    pub cwd: Option<String>,
}

/// The lockfile presence that a context carries, if any.
pub open spec fn lock_of(ctx: Option<RunnerContext>) -> Option<bool> {
    match ctx {
        Some(c) => c.has_lock,
        None => None,
    }
}

/// Whether an argument is flag-like.
pub open spec fn is_flag(a: Seq<char>) -> bool {
    a.len() > 0 && a[0] == '-'
}

/// Whether every argument is flag-like (vacuously so for none).
pub open spec fn all_flags(args: Seq<Seq<char>>) -> bool {
    forall|i: int| 0 <= i < args.len() ==> is_flag(#[trigger] args[i])
}

/// bun spells the dev-dependency flag `-d` where the others write `-D`.
pub open spec fn dev_alias(a: Seq<char>) -> Seq<char> {
    if a == "-D"@ {
        "-d"@
    } else {
        a
    }
}

/// The arguments as the install family hands them on for `agent`.
pub open spec fn bun_aliased(agent: Seq<char>, args: Seq<Seq<char>>) -> Seq<Seq<char>> {
    if agent == "bun"@ {
        args.map_values(|a: Seq<char>| dev_alias(a))
    } else {
        args
    }
}

/// Whether the install translator needs the context's lockfile flag.
pub open spec fn needs_lock(agent: Seq<char>, args: Seq<Seq<char>>) -> bool {
    let a = bun_aliased(agent, args);
    !a.contains("-g"@) && a.contains("--frozen-if-present"@)
}

/// What the install translator yields.
pub open spec fn install_spec(agent: Seq<char>, args: Seq<Seq<char>>, has_lock: bool) -> Result<
    CommandModel,
    ErrorModel,
> {
    let a = bun_aliased(agent, args);
    if a.contains("-g"@) {
        resolve_spec(agent, "global"@, without(a, "-g"@))
    } else if a.contains("--frozen-if-present"@) {
        let verb = if has_lock {
            "frozen"@
        } else {
            "install"@
        };
        resolve_spec(agent, verb, without(without(a, "--frozen-if-present"@), "-g"@))
    } else if a.contains("--frozen"@) {
        resolve_spec(agent, "frozen"@, without(a, "--frozen"@))
    } else if all_flags(a) {
        resolve_spec(agent, "install"@, a)
    } else {
        resolve_spec(agent, "add"@, a)
    }
}

/// The script arguments of the run translator: `start` where none are given.
pub open spec fn run_args(args: Seq<Seq<char>>) -> Seq<Seq<char>> {
    if args.len() == 0 {
        seq!["start"@]
    } else {
        args
    }
}

/// What the run translator yields: an `--if-present` flag is taken out before
/// the lookup and put back right after the agent's `run` keyword.
pub open spec fn run_spec(agent: Seq<char>, args: Seq<Seq<char>>) -> Result<
    CommandModel,
    ErrorModel,
> {
    let a = run_args(args);
    if a.contains("--if-present"@) {
        match resolve_spec(agent, "run"@, without(a, "--if-present"@)) {
            Ok(c) => Ok(CommandModel { command: c.command, args: c.args.insert(1, "--if-present"@) }),
            Err(e) => Err(e),
        }
    } else {
        resolve_spec(agent, "run"@, a)
    }
}

/// What the upgrade translator yields.
pub open spec fn upgrade_spec(agent: Seq<char>, args: Seq<Seq<char>>) -> Result<
    CommandModel,
    ErrorModel,
> {
    if args.contains("-i"@) {
        resolve_spec(agent, "upgrade-interactive"@, without(args, "-i"@))
    } else {
        resolve_spec(agent, "upgrade"@, args)
    }
}

/// What the uninstall translator yields.
pub open spec fn uninstall_spec(agent: Seq<char>, args: Seq<Seq<char>>) -> Result<
    CommandModel,
    ErrorModel,
> {
    if args.contains("-g"@) {
        resolve_spec(agent, "global_uninstall"@, without(args, "-g"@))
    } else {
        resolve_spec(agent, "uninstall"@, args)
    }
}

/// `args` with `-D` written `-d` where the agent is bun.
fn alias_dev_flag<'a>(agent: &str, args: Vec<&'a str>) -> (r: Vec<&'a str>)
    ensures
        strs_view(r@) == bun_aliased(agent@, strs_view(args@)),
{
    if !str_eq(agent, "bun") {
        return args;
    }
    let mut out: Vec<&'a str> = Vec::new();
    let mut i: usize = 0;
    while i < args.len()
        invariant
            i <= args@.len(),
            out@.len() == i,
            forall|j: int| 0 <= j < i ==> out@[j]@ == dev_alias(#[trigger] args@[j]@),
        decreases args@.len() - i,
    {
        if str_eq(args[i], "-D") {
            out.push("-d");
        } else {
            out.push(args[i]);
        }
        i = i + 1;
    }
    assert(strs_view(out@) =~= bun_aliased(agent@, strs_view(args@)));
    out
}

/// Whether every argument starts with `-`.
fn all_flag_like(args: &Vec<&str>) -> (r: bool)
    ensures
        r == all_flags(strs_view(args@)),
{
    let mut i: usize = 0;
    while i < args.len()
        invariant
            i <= args@.len(),
            forall|j: int| 0 <= j < i ==> is_flag(#[trigger] args@[j]@),
        decreases args@.len() - i,
    {
        let s = args[i];
        if s.unicode_len() == 0 || s.get_char(0) != '-' {
            assert(!is_flag(strs_view(args@)[i as int]));
            return false;
        }
        i = i + 1;
    }
    true
}

/// Translates an install: global (`-g`), lockfile-dependent
/// (`--frozen-if-present`), frozen (`--frozen`), plain install (only flags)
/// or adding packages.
pub fn parse_ni(agent: &str, args: Vec<&str>, ctx: Option<RunnerContext>) -> (r: Result<
    ResolveCommandReturn,
    CommandError,
>)
    requires
        needs_lock(agent@, strs_view(args@)) ==> lock_of(ctx) is Some,
    ensures
        outcome_view(r) == install_spec(
            agent@,
            strs_view(args@),
            needs_lock(agent@, strs_view(args@)) && lock_of(ctx) == Some(true),
        ),
{
    let args = alias_dev_flag(agent, args);
    if contains_flag(&args, "-g") {
        return get_command(agent, "global", exclude(&args, "-g"));
    }
    if contains_flag(&args, "--frozen-if-present") {
        let rest = exclude(&args, "--frozen-if-present");
        let has_lock = match ctx {
            Some(c) => match c.has_lock {
                Some(b) => b,
                None => false,
            },
            None => false,
        };
        let verb = if has_lock {
            "frozen"
        } else {
            "install"
        };
        return get_command(agent, verb, exclude(&rest, "-g"));
    }
    if contains_flag(&args, "--frozen") {
        return get_command(agent, "frozen", exclude(&args, "--frozen"));
    }
    if all_flag_like(&args) {
        return get_command(agent, "install", args);
    }
    get_command(agent, "add", args)
}

/// Translates a script run: `start` by default, `--if-present` kept right
/// after the agent's `run` keyword.
pub fn parse_nr(agent: &str, args: Vec<&str>, _ctx: Option<RunnerContext>) -> (r: Result<
    ResolveCommandReturn,
    CommandError,
>)
    ensures
        outcome_view(r) == run_spec(agent@, strs_view(args@)),
{
    let mut args = args;
    if args.len() == 0 {
        args.push("start");
        assert(strs_view(args@) =~= seq!["start"@]);
    }
    let has_if_present = contains_flag(&args, "--if-present");
    if has_if_present {
        args = exclude(&args, "--if-present");
    }
    match get_command(agent, "run", args) {
        Ok(cmd) => {
            let mut cmd = cmd;
            if has_if_present {
                proof {
                    lemma_run_line(agent@, strs_view(args@));
                }
                let ghost before = cmd.args@;
                cmd.args.insert(1, String::from_str("--if-present"));
                assert(cmd.args@.map_values(|s: String| s@) =~= before.map_values(
                    |s: String| s@,
                ).insert(1, "--if-present"@));
            }
            Ok(cmd)
        },
        Err(e) => Err(e),
    }
}

/// Translates an upgrade: interactive where `-i` is given.
pub fn parse_nu(agent: &str, args: Vec<&str>, _ctx: Option<RunnerContext>) -> (r: Result<
    ResolveCommandReturn,
    CommandError,
>)
    ensures
        outcome_view(r) == upgrade_spec(agent@, strs_view(args@)),
{
    if contains_flag(&args, "-i") {
        return get_command(agent, "upgrade-interactive", exclude(&args, "-i"));
    }
    get_command(agent, "upgrade", args)
}

/// Translates an uninstall: global where `-g` is given.
pub fn parse_nun(agent: &str, args: Vec<&str>, _ctx: Option<RunnerContext>) -> (r: Result<
    ResolveCommandReturn,
    CommandError,
>)
    ensures
        outcome_view(r) == uninstall_spec(agent@, strs_view(args@)),
{
    if contains_flag(&args, "-g") {
        return get_command(agent, "global_uninstall", exclude(&args, "-g"));
    }
    get_command(agent, "uninstall", args)
}

/// Translates a one-off package execution.
pub fn parse_nlx(agent: &str, args: Vec<&str>, _ctx: Option<RunnerContext>) -> (r: Result<
    ResolveCommandReturn,
    CommandError,
>)
    ensures
        outcome_view(r) == resolve_spec(agent@, "execute"@, strs_view(args@)),
{
    get_command(agent, "execute", args)
}

/// Hands the arguments to the agent's own command runner.
pub fn parse_na(agent: &str, args: Vec<&str>, _ctx: Option<RunnerContext>) -> (r: Result<
    ResolveCommandReturn,
    CommandError,
>)
    ensures
        outcome_view(r) == resolve_spec(agent@, "agent"@, strs_view(args@)),
{
    get_command(agent, "agent", args)
}

} // verus!

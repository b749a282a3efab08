//! The command resolver: looks an agent and a verb up in the package-manager
//! table and fills the entry with the caller's arguments.

use vstd::prelude::*;
use vstd::string::*;
use crate::args::{str_eq, strs_view};
use crate::table::{command_table, expand, fill, is_agent, is_script_agent, is_verb, lemma_literal_heads, placeholder, TemplateModel};
use package_manager_detector_rs::{resolve_command, COMMANDS};

verus! {

/// A resolved command: the executable and its argument list.
pub struct CommandModel {
    pub command: Seq<char>,
    pub args: Seq<Seq<char>>,
}

/// Why a command could not be resolved.
pub enum ErrorModel {
    UnsupportedAgent(Seq<char>),
    UnsupportedVerb(Seq<char>, Seq<char>),
    TemplateInterpolation,
}

/// The executable and arguments that an agent's package manager is run with.
#[derive(Debug, Clone, PartialEq, Eq)]
pub struct ResolveCommandReturn {
    pub command: String,
    pub args: Vec<String>,
}

impl View for ResolveCommandReturn {
    type V = CommandModel;

    open spec fn view(&self) -> CommandModel {
        CommandModel { command: self.command@, args: self.args@.map_values(|s: String| s@) }
    }
}

/// A failed lookup or interpolation.
#[derive(Debug, Clone, PartialEq, Eq)]
pub enum CommandError {
    /// The agent is not in the table.
    UnsupportedAgent(String),
    /// The agent (first) has no entry for the verb (second).
    UnsupportedVerb(String, String),
    /// The entry cannot be filled with the given arguments.
    TemplateInterpolation,
}

impl View for CommandError {
    type V = ErrorModel;

    open spec fn view(&self) -> ErrorModel {
        match self {
            CommandError::UnsupportedAgent(a) => ErrorModel::UnsupportedAgent(a@),
            CommandError::UnsupportedVerb(a, v) => ErrorModel::UnsupportedVerb(a@, v@),
            CommandError::TemplateInterpolation => ErrorModel::TemplateInterpolation,
        }
    }
}

/// The user-facing text of an error.
pub open spec fn message_of(e: ErrorModel) -> Seq<char> {
    match e {
        ErrorModel::UnsupportedAgent(a) => "Unsupported agent '"@ + a + "'"@,
        ErrorModel::UnsupportedVerb(a, v) => "Command '"@ + v + "' is not support by agent '"@ + a
            + "'"@,
        ErrorModel::TemplateInterpolation => "Cannot build the command from its template"@,
    }
}

impl CommandError {
    /// The message shown to the user for this error.
    pub fn message(&self) -> (r: String)
        ensures
            r@ == message_of(self@),
    {
        match self {
            CommandError::UnsupportedAgent(a) => {
                let mut s = String::from_str("Unsupported agent '");
                s.append(a.as_str());
                s.append("'");
                s
            },
            CommandError::UnsupportedVerb(a, v) => {
                let mut s = String::from_str("Command '");
                s.append(v.as_str());
                s.append("' is not support by agent '");
                s.append(a.as_str());
                s.append("'");
                s
            },
            CommandError::TemplateInterpolation => String::from_str(
                "Cannot build the command from its template",
            ),
        }
    }
}

/// The model of a resolver outcome.
pub open spec fn outcome_view(r: Result<ResolveCommandReturn, CommandError>) -> Result<
    CommandModel,
    ErrorModel,
> {
    match r {
        Ok(c) => Ok(c@),
        Err(e) => Err(e@),
    }
}

/// A full command line split into executable and arguments.
pub open spec fn line_command(l: Seq<Seq<char>>) -> CommandModel {
    CommandModel { command: l[0], args: l.drop_first() }
}

/// What resolving `verb` for `agent` with `args` yields.
pub open spec fn resolve_spec(agent: Seq<char>, verb: Seq<char>, args: Seq<Seq<char>>) -> Result<
    CommandModel,
    ErrorModel,
> {
    if !is_agent(agent) {
        Err(ErrorModel::UnsupportedAgent(agent))
    } else if !is_verb(verb) {
        Err(ErrorModel::UnsupportedVerb(agent, verb))
    } else {
        match expand(command_table(agent, verb), args) {
            Some(l) => if l.len() > 0 {
                Ok(line_command(l))
            } else {
                Err(ErrorModel::TemplateInterpolation)
            },
            None => Err(ErrorModel::TemplateInterpolation),
        }
    }
}

/// Whether the entry of a known agent and verb is a script runner.
pub open spec fn scripted_entry(agent: Seq<char>, verb: Seq<char>) -> bool {
    verb == "run"@ && (agent == "npm"@ || agent == "pnpm@6"@ || agent == "deno"@)
}

/// The shape of the table's entries: a fixed template starts with a literal
/// executable, script runners belong to the agents that have a rule, and the
/// `run` entries take the script name right after their `run` keyword.
pub proof fn lemma_entry_shape(agent: Seq<char>, verb: Seq<char>)
    requires
        is_agent(agent),
        is_verb(verb),
    ensures
        command_table(agent, verb) is Scripted <==> scripted_entry(agent, verb),
        command_table(agent, verb) matches TemplateModel::Scripted(a) ==> is_script_agent(a),
        command_table(agent, verb) matches TemplateModel::Fixed(t) ==> t.len() > 0 && t[0]
            != placeholder(),
        verb == "run"@ ==> (command_table(agent, verb) matches TemplateModel::Fixed(t) ==> t.len()
            == 3 && t[1] == "run"@ && t[2] == placeholder()),
{
    lemma_literal_heads();
}

/// A resolved `run` command starts its arguments with the `run` keyword.
pub proof fn lemma_run_line(agent: Seq<char>, args: Seq<Seq<char>>)
    requires
        is_agent(agent),
    ensures
        resolve_spec(agent, "run"@, args) matches Ok(c) ==> c.args.len() >= 1 && c.args[0]
            == "run"@,
{
    lemma_literal_heads();
    lemma_entry_shape(agent, "run"@);
    if let TemplateModel::Fixed(t) = command_table(agent, "run"@) {
        let t1 = t.drop_first();
        let t2 = t1.drop_first();
        assert(t2.drop_first() =~= seq![]);
        assert(fill(t2.drop_first(), args) =~= seq![]);
        assert(t2[0] == placeholder());
        assert(fill(t2, args) =~= args);
        assert(fill(t1, args) =~= seq![t[1]] + args);
        assert(fill(t, args) =~= seq![t[0], t[1]] + args);
    }
}

/// Relies on package_manager_detector_rs::COMMANDS, a phf::Map whose keys are
/// the seven agents, and phf::Map::contains_key.
#[verifier::external_body]
fn table_has_agent(agent: &str) -> (r: bool)
    ensures
        r == is_agent(agent@),
{
    COMMANDS.contains_key(agent)
}

/// Relies on package_manager_detector_rs::COMMANDS: each agent's map (reached
/// by phf::Map's index, which panics on a missing key) has the same twelve verbs.
#[verifier::external_body]
fn table_has_verb(agent: &str, verb: &str) -> (r: bool)
    requires
        is_agent(agent@),
    ensures
        r == is_verb(verb@),
{
    COMMANDS[agent].contains_key(verb)
}

/// Relies on package_manager_detector_rs::resolve_command: it takes the
/// entry of COMMANDS for the agent and verb (panicking where either is
/// missing) and builds the line with construct_command, which panics on an
/// empty line and returns `None` for an unavailable entry.
#[verifier::external_body]
fn construct_known(agent: &str, verb: &str, args: Vec<&str>) -> (r: Option<ResolveCommandReturn>)
    requires
        is_agent(agent@),
        is_verb(verb@),
        expand(command_table(agent@, verb@), strs_view(args@)) matches Some(l) ==> l.len() > 0,
    ensures
        match expand(command_table(agent@, verb@), strs_view(args@)) {
            None => r is None,
            Some(l) => r matches Some(c) && c@ == line_command(l),
        },
{
    match resolve_command(agent, verb, args) {
        Some(c) => Some(ResolveCommandReturn { command: c.command, args: c.args }),
        None => None,
    }
}

/// Whether the entry of `agent` for `verb` is a script runner, for a known agent and verb.
fn is_scripted_entry(agent: &str, verb: &str) -> (r: bool)
    ensures
        r == scripted_entry(agent@, verb@),
{
    str_eq(verb, "run") && (str_eq(agent, "npm") || str_eq(agent, "pnpm@6") || str_eq(
        agent,
        "deno",
    ))
}

/// Looks up `command` for `agent` and fills the entry with `args`.
pub fn get_command(agent: &str, command: &str, args: Vec<&str>) -> (r: Result<
    ResolveCommandReturn,
    CommandError,
>)
    ensures
        outcome_view(r) == resolve_spec(agent@, command@, strs_view(args@)),
{
    if !table_has_agent(agent) {
        return Err(CommandError::UnsupportedAgent(String::from_str(agent)));
    }
    if !table_has_verb(agent, command) {
        return Err(CommandError::UnsupportedVerb(String::from_str(agent), String::from_str(command)));
    }
    proof {
        lemma_entry_shape(agent@, command@);
    }
    if args.len() == 0 && is_scripted_entry(agent, command) {
        return Err(CommandError::TemplateInterpolation);
    }
    match construct_known(agent, command, args) {
        Some(c) => Ok(c),
        None => Err(CommandError::TemplateInterpolation),
    }
}

} // verus!

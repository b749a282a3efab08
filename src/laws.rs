//! Properties that relate the resolver, the translators and the serializer.

use vstd::prelude::*;
use crate::args::without;
use crate::command::{
    lemma_entry_shape, lemma_run_line, line_command, resolve_spec, CommandModel, ErrorModel,
};
use crate::serialize::serialized;
use crate::table::{
    command_table, fill, is_agent, is_verb, lemma_literal_heads, placeholder, TemplateModel,
};
use crate::translate::{bun_aliased, dev_alias, install_spec, run_args, run_spec};

verus! {

/// Filling a template without placeholders leaves it as it is.
proof fn lemma_fill_literal(t: Seq<Seq<char>>, args: Seq<Seq<char>>)
    requires
        forall|j: int| 0 <= j < t.len() ==> t[j] != placeholder(),
    ensures
        fill(t, args) == t,
    decreases t.len(),
{
    if t.len() > 0 {
        lemma_fill_literal(t.drop_first(), args);
        assert(seq![t[0]] + t.drop_first() =~= t);
    }
}

/// Filling a template whose only placeholder stands at `k` puts the
/// arguments there, unchanged and in order.
proof fn lemma_fill_single(t: Seq<Seq<char>>, args: Seq<Seq<char>>, k: int)
    requires
        0 <= k < t.len(),
        t[k] == placeholder(),
        forall|j: int| 0 <= j < t.len() && j != k ==> t[j] != placeholder(),
    ensures
        fill(t, args) == t.take(k) + args + t.skip(k + 1),
    decreases t.len(),
{
    let rest = t.drop_first();
    if k == 0 {
        lemma_fill_literal(rest, args);
        assert(t.take(0) + args + t.skip(1) =~= args + rest);
    } else {
        lemma_fill_single(rest, args, k - 1);
        assert(seq![t[0]] + (rest.take(k - 1) + args + rest.skip(k)) =~= t.take(k) + args + t.skip(
            k + 1,
        ));
    }
}

/// For a known agent and verb whose template has one placeholder, at `k`,
/// the resolved line is the template with the arguments, unchanged and in
/// order, in place of the placeholder.
pub proof fn law_resolve_interpolates(
    agent: Seq<char>,
    verb: Seq<char>,
    args: Seq<Seq<char>>,
    t: Seq<Seq<char>>,
    k: int,
)
    requires
        is_agent(agent),
        is_verb(verb),
        command_table(agent, verb) == TemplateModel::Fixed(t),
        0 <= k < t.len(),
        t[k] == placeholder(),
        forall|j: int| 0 <= j < t.len() && j != k ==> t[j] != placeholder(),
    ensures
        resolve_spec(agent, verb, args) == Ok::<CommandModel, ErrorModel>(
            line_command(t.take(k) + args + t.skip(k + 1)),
        ),
{
    lemma_entry_shape(agent, verb);
    lemma_fill_single(t, args, k);
    assert(k > 0);
    assert((t.take(k) + args + t.skip(k + 1)).len() > 0);
}

/// An agent missing from the table is reported as such, whatever the verb
/// and arguments.
pub proof fn law_unknown_agent(agent: Seq<char>, verb: Seq<char>, args: Seq<Seq<char>>)
    requires
        !is_agent(agent),
    ensures
        resolve_spec(agent, verb, args) == Err::<CommandModel, ErrorModel>(
            ErrorModel::UnsupportedAgent(agent),
        ),
{
}

/// A verb missing under a known agent is reported as such, whatever the
/// arguments.
pub proof fn law_unknown_verb(agent: Seq<char>, verb: Seq<char>, args: Seq<Seq<char>>)
    requires
        is_agent(agent),
        !is_verb(verb),
    ensures
        resolve_spec(agent, verb, args) == Err::<CommandModel, ErrorModel>(
            ErrorModel::UnsupportedVerb(agent, verb),
        ),
{
}

/// Excluding a flag removes all and only its exact occurrences and keeps the
/// other elements, each of them, in their order.
pub proof fn law_exclude(s: Seq<Seq<char>>, flag: Seq<char>)
    ensures
        without(s, flag) == s.filter(|x: Seq<char>| x != flag),
        !without(s, flag).contains(flag),
    decreases s.len(),
{
    reveal(Seq::filter);
    if s.len() > 0 {
        law_exclude(s.drop_last(), flag);
    }
    let r = without(s, flag);
    if r.contains(flag) {
        let i = choose|i: int| 0 <= i < r.len() && r[i] == flag;
        if s.len() > 0 {
            assert(without(s.drop_last(), flag).contains(flag) || r[i] == s.last());
        }
    }
}

/// A run with no arguments runs the `start` script, for every agent whose
/// `run` template is its executable, `run` and the placeholder.
pub proof fn law_run_default(agent: Seq<char>, exe: Seq<char>)
    requires
        is_agent(agent),
        command_table(agent, "run"@) == TemplateModel::Fixed(seq![exe, "run"@, placeholder()]),
    ensures
        run_spec(agent, seq![]) == Ok::<CommandModel, ErrorModel>(
            CommandModel { command: exe, args: seq!["run"@, "start"@] },
        ),
{
    lemma_literal_heads();
    let a = run_args(seq![]);
    assert(a =~= seq!["start"@]);
    assert(!a.contains("--if-present"@)) by {
        if a.contains("--if-present"@) {
            let i = choose|i: int| 0 <= i < a.len() && a[i] == "--if-present"@;
            assert(a[i] == "start"@);
        }
    }
    law_resolve_interpolates(agent, "run"@, a, seq![exe, "run"@, placeholder()], 2);
    lemma_entry_shape(agent, "run"@);
    assert(seq![exe, "run"@, placeholder()].take(2) + a + seq![exe, "run"@, placeholder()].skip(3)
        =~= seq![exe, "run"@, "start"@]);
    assert(seq![exe, "run"@, "start"@].drop_first() =~= seq!["run"@, "start"@]);
}

/// A requested `--if-present` lands right after the agent's `run` keyword,
/// before the script name, however many arguments follow.
pub proof fn law_if_present_position(agent: Seq<char>, args: Seq<Seq<char>>)
    requires
        is_agent(agent),
        run_args(args).contains("--if-present"@),
    ensures
        run_spec(agent, args) matches Ok(c) ==> c.args[0] == "run"@ && c.args[1]
            == "--if-present"@,
        resolve_spec(agent, "run"@, without(run_args(args), "--if-present"@)) matches Ok(c0) ==> (
        run_spec(agent, args) matches Ok(c) && c.args == c0.args.insert(1, "--if-present"@)),
{
    lemma_run_line(agent, without(run_args(args), "--if-present"@));
}

/// The install family rewrites `-D` to `-d` for bun before any branching:
/// its result depends on the rewritten list alone, which holds no `-D`;
/// for any other agent the list is left as it is.
pub proof fn law_bun_dev_alias(agent: Seq<char>, args: Seq<Seq<char>>, has_lock: bool)
    ensures
        agent != "bun"@ ==> bun_aliased(agent, args) == args,
        agent == "bun"@ ==> !bun_aliased(agent, args).contains("-D"@),
        bun_aliased(agent, args).len() == args.len(),
        forall|i: int|
            0 <= i < args.len() ==> #[trigger] bun_aliased(agent, args)[i] == if agent == "bun"@ {
                dev_alias(args[i])
            } else {
                args[i]
            },
        install_spec(agent, args, has_lock) == install_spec(
            agent,
            bun_aliased(agent, args),
            has_lock,
        ),
{
    lemma_literal_heads();
    reveal_strlit("-d");
    reveal_strlit("-D");
    assert("-d"@[1] != "-D"@[1]);
    let a = bun_aliased(agent, args);
    if agent == "bun"@ {
        assert(bun_aliased(agent, a) =~= a);
        if a.contains("-D"@) {
            let i = choose|i: int| 0 <= i < a.len() && a[i] == "-D"@;
            assert(a[i] == dev_alias(args[i]));
        }
    }
}

/// Serializing is a function of the command alone: two renderings of one
/// resolved command are the same line.
pub proof fn law_serialize_repeatable(c: CommandModel, first: Seq<char>, second: Seq<char>)
    requires
        first == serialized(c),
        second == serialized(c),
    ensures
        first == second,
{
}

} // verus!

//! The per-agent, per-verb command templates of the package-manager table,
//! and what filling a template with a caller's arguments yields.

use vstd::prelude::*;

verus! {

/// The shape of one table entry.
pub enum TemplateModel {
    /// A fixed token list; each placeholder token is replaced by the whole
    /// argument list.
    Fixed(Seq<Seq<char>>),
    /// A script runner whose line is built from the arguments by the named agent's rule.
    Scripted(Seq<char>),
    /// The agent has no command for this verb.
    Unavailable,
}

/// The token that stands for the caller's argument list in a fixed template.
pub open spec fn placeholder() -> Seq<char> {
    "0"@
}

/// The agents that the table knows.
pub open spec fn is_agent(agent: Seq<char>) -> bool {
    agent == "npm"@ || agent == "yarn"@ || agent == "yarn@berry"@ || agent == "pnpm"@
        || agent == "pnpm@6"@ || agent == "bun"@ || agent == "deno"@
}

/// The verbs that every agent of the table has an entry for.
pub open spec fn is_verb(verb: Seq<char>) -> bool {
    verb == "agent"@ || verb == "run"@ || verb == "install"@ || verb == "frozen"@
        || verb == "global"@ || verb == "add"@ || verb == "upgrade"@
        || verb == "upgrade-interactive"@ || verb == "execute"@ || verb == "execute-local"@
        || verb == "uninstall"@ || verb == "global_uninstall"@
}

/// A fixed template from literal tokens.
pub open spec fn fixed(tokens: Seq<&str>) -> TemplateModel {
    TemplateModel::Fixed(tokens.map_values(|s: &str| s@))
}

/// The entry of `agent` for `verb`; meaningful where both are known.
pub open spec fn command_table(agent: Seq<char>, verb: Seq<char>) -> TemplateModel {
    if agent == "npm"@ {
        if verb == "agent"@ { fixed(seq!["npm", "0"]) }
        else if verb == "run"@ { TemplateModel::Scripted("npm"@) }
        else if verb == "install"@ { fixed(seq!["npm", "i", "0"]) }
        else if verb == "frozen"@ { fixed(seq!["npm", "ci"]) }
        else if verb == "global"@ { fixed(seq!["npm", "i", "-g", "0"]) }
        else if verb == "add"@ { fixed(seq!["npm", "i", "0"]) }
        else if verb == "upgrade"@ { fixed(seq!["npm", "update", "0"]) }
        else if verb == "upgrade-interactive"@ { TemplateModel::Unavailable }
        else if verb == "execute"@ { fixed(seq!["npx", "0"]) }
        else if verb == "execute-local"@ { fixed(seq!["npx", "0"]) }
        else if verb == "uninstall"@ { fixed(seq!["npm", "uninstall", "0"]) }
        else { fixed(seq!["npm", "uninstall", "-g", "0"]) }
    } else if agent == "yarn"@ {
        if verb == "agent"@ { fixed(seq!["yarn", "0"]) }
        else if verb == "run"@ { fixed(seq!["yarn", "run", "0"]) }
        else if verb == "install"@ { fixed(seq!["yarn", "install", "0"]) }
        else if verb == "frozen"@ { fixed(seq!["yarn", "install", "--frozen-lockfile"]) }
        else if verb == "global"@ { fixed(seq!["yarn", "global", "add", "0"]) }
        else if verb == "add"@ { fixed(seq!["yarn", "add", "0"]) }
        else if verb == "upgrade"@ { fixed(seq!["yarn", "upgrade", "0"]) }
        else if verb == "upgrade-interactive"@ { fixed(seq!["yarn", "upgrade-interactive", "0"]) }
        else if verb == "execute"@ { fixed(seq!["npx", "0"]) }
        else if verb == "execute-local"@ { fixed(seq!["yarn", "exec", "0"]) }
        else if verb == "uninstall"@ { fixed(seq!["yarn", "remove", "0"]) }
        else { fixed(seq!["yarn", "global", "remove", "0"]) }
    } else if agent == "yarn@berry"@ {
        if verb == "agent"@ { fixed(seq!["yarn", "0"]) }
        else if verb == "run"@ { fixed(seq!["yarn", "run", "0"]) }
        else if verb == "install"@ { fixed(seq!["yarn", "install", "0"]) }
        else if verb == "frozen"@ { fixed(seq!["yarn", "install", "--immutable"]) }
        else if verb == "global"@ { fixed(seq!["yarn", "i", "-g", "0"]) }
        else if verb == "add"@ { fixed(seq!["yarn", "add", "0"]) }
        else if verb == "upgrade"@ { fixed(seq!["yarn", "up", "0"]) }
        else if verb == "upgrade-interactive"@ { fixed(seq!["yarn", "up", "-i", "0"]) }
        else if verb == "execute"@ { fixed(seq!["npx", "0"]) }
        else if verb == "execute-local"@ { fixed(seq!["yarn", "exec", "0"]) }
        else if verb == "uninstall"@ { fixed(seq!["yarn", "remove", "0"]) }
        else { fixed(seq!["yarn", "uninstall", "-g", "0"]) }
    } else if agent == "pnpm"@ || agent == "pnpm@6"@ {
        if verb == "agent"@ { fixed(seq!["pnpm", "0"]) }
        else if verb == "run"@ {
            if agent == "pnpm"@ { fixed(seq!["pnpm", "run", "0"]) }
            else { TemplateModel::Scripted("pnpm"@) }
        }
        else if verb == "install"@ { fixed(seq!["pnpm", "i", "0"]) }
        else if verb == "frozen"@ { fixed(seq!["pnpm", "i", "--frozen-lockfile"]) }
        else if verb == "global"@ { fixed(seq!["pnpm", "add", "-g", "0"]) }
        else if verb == "add"@ { fixed(seq!["pnpm", "add", "0"]) }
        else if verb == "upgrade"@ { fixed(seq!["pnpm", "update", "0"]) }
        else if verb == "upgrade-interactive"@ { fixed(seq!["pnpm", "update", "-i", "0"]) }
        else if verb == "execute"@ { fixed(seq!["pnpm", "dlx", "0"]) }
        else if verb == "execute-local"@ { fixed(seq!["pnpm", "exec", "0"]) }
        else if verb == "uninstall"@ { fixed(seq!["pnpm", "remove", "0"]) }
        else { fixed(seq!["pnpm", "remove", "--global", "0"]) }
    } else if agent == "bun"@ {
        if verb == "agent"@ { fixed(seq!["bun", "0"]) }
        else if verb == "run"@ { fixed(seq!["bun", "run", "0"]) }
        else if verb == "install"@ { fixed(seq!["bun", "install", "0"]) }
        else if verb == "frozen"@ { fixed(seq!["bun", "install", "--frozen-lockfile"]) }
        else if verb == "global"@ { fixed(seq!["bun", "add", "-g", "0"]) }
        else if verb == "add"@ { fixed(seq!["bun", "add", "0"]) }
        else if verb == "upgrade"@ { fixed(seq!["bun", "update", "0"]) }
        else if verb == "upgrade-interactive"@ { fixed(seq!["bun", "update", "0"]) }
        else if verb == "execute"@ { fixed(seq!["bun", "x", "0"]) }
        else if verb == "execute-local"@ { fixed(seq!["bun", "x", "0"]) }
        else if verb == "uninstall"@ { fixed(seq!["bun", "remove", "0"]) }
        else { fixed(seq!["bun", "remove", "-g", "0"]) }
    } else {
        if verb == "agent"@ { fixed(seq!["deno", "0"]) }
        else if verb == "run"@ { TemplateModel::Scripted("deno"@) }
        else if verb == "install"@ { fixed(seq!["deno", "install", "0"]) }
        else if verb == "frozen"@ { fixed(seq!["deno", "install", "--frozen"]) }
        else if verb == "global"@ { fixed(seq!["deno", "install", "-g", "0"]) }
        else if verb == "add"@ { fixed(seq!["deno", "add", "0"]) }
        else if verb == "upgrade"@ { fixed(seq!["deno", "outdated", "--update", "0"]) }
        else if verb == "upgrade-interactive"@ { fixed(seq!["deno", "outdated", "--update", "0"]) }
        else if verb == "execute"@ { fixed(seq!["deno", "run", "0"]) }
        else if verb == "execute-local"@ { fixed(seq!["deno", "task", "--eval", "0"]) }
        else if verb == "uninstall"@ { fixed(seq!["deno", "remove", "0"]) }
        else { fixed(seq!["deno", "uninstall", "-g", "0"]) }
    }
}

/// A fixed template with each placeholder replaced by `args`, in order.
pub open spec fn fill(tokens: Seq<Seq<char>>, args: Seq<Seq<char>>) -> Seq<Seq<char>>
    decreases tokens.len(),
{
    if tokens.len() == 0 {
        seq![]
    } else {
        (if tokens[0] == placeholder() { args } else { seq![tokens[0]] }) + fill(
            tokens.drop_first(),
            args,
        )
    }
}

/// The agents whose script runner builds its line from the arguments.
pub open spec fn is_script_agent(agent: Seq<char>) -> bool {
    agent == "npm"@ || agent == "pnpm"@ || agent == "yarn"@ || agent == "deno"@
}

/// The line of a script runner: the script name, then (where more follow)
/// an end-of-flags marker, or for deno an `npm:` prefix on the script name.
pub open spec fn script_line(agent: Seq<char>, args: Seq<Seq<char>>) -> Seq<Seq<char>> {
    if !is_script_agent(agent) || args.len() == 0 {
        seq![]
    } else if args.len() == 1 {
        seq![agent, "run"@, args[0]]
    } else if agent == "deno"@ {
        seq![agent, "run"@, "npm:"@ + args[0]] + args.drop_first()
    } else {
        seq![agent, "run"@, args[0], "--"@] + args.drop_first()
    }
}

/// The full command line (executable first) that a template yields for
/// `args`, or `None` where the template is unavailable.
pub open spec fn expand(t: TemplateModel, args: Seq<Seq<char>>) -> Option<Seq<Seq<char>>> {
    match t {
        TemplateModel::Fixed(tokens) => Some(fill(tokens, args)),
        TemplateModel::Scripted(agent) => Some(script_line(agent, args)),
        TemplateModel::Unavailable => None,
    }
}

/// Length and first character of the literals that the table and the
/// translators compare against: enough to tell any two of them apart.
pub proof fn lemma_literal_heads()
    ensures
        "agent"@.len() == 5 && "agent"@[0] == 'a',
        "run"@.len() == 3 && "run"@[0] == 'r',
        "install"@.len() == 7 && "install"@[0] == 'i',
        "frozen"@.len() == 6 && "frozen"@[0] == 'f',
        "global"@.len() == 6 && "global"@[0] == 'g',
        "add"@.len() == 3 && "add"@[0] == 'a',
        "upgrade"@.len() == 7 && "upgrade"@[0] == 'u',
        "upgrade-interactive"@.len() == 19 && "upgrade-interactive"@[0] == 'u',
        "execute"@.len() == 7 && "execute"@[0] == 'e',
        "execute-local"@.len() == 13 && "execute-local"@[0] == 'e',
        "uninstall"@.len() == 9 && "uninstall"@[0] == 'u',
        "global_uninstall"@.len() == 16 && "global_uninstall"@[0] == 'g',
        "npm"@.len() == 3 && "npm"@[0] == 'n',
        "yarn"@.len() == 4 && "yarn"@[0] == 'y',
        "yarn@berry"@.len() == 10 && "yarn@berry"@[0] == 'y',
        "pnpm"@.len() == 4 && "pnpm"@[0] == 'p',
        "pnpm@6"@.len() == 6 && "pnpm@6"@[0] == 'p',
        "bun"@.len() == 3 && "bun"@[0] == 'b',
        "deno"@.len() == 4 && "deno"@[0] == 'd',
        "npx"@.len() == 3 && "npx"@[0] == 'n',
        "0"@.len() == 1 && "0"@[0] == '0',
        "start"@.len() == 5 && "start"@[0] == 's',
        "--if-present"@.len() == 12 && "--if-present"@[0] == '-',
        "-g"@.len() == 2 && "-g"@[0] == '-',
        "--frozen-if-present"@.len() == 19 && "--frozen-if-present"@[0] == '-',
        "--frozen"@.len() == 8 && "--frozen"@[0] == '-',
        "-D"@.len() == 2 && "-D"@[0] == '-',
        "-d"@.len() == 2 && "-d"@[0] == '-',
        "-i"@.len() == 2 && "-i"@[0] == '-',
        "--"@.len() == 2 && "--"@[0] == '-',
{
    reveal_strlit("agent");
    reveal_strlit("run");
    reveal_strlit("install");
    reveal_strlit("frozen");
    reveal_strlit("global");
    reveal_strlit("add");
    reveal_strlit("upgrade");
    reveal_strlit("upgrade-interactive");
    reveal_strlit("execute");
    reveal_strlit("execute-local");
    reveal_strlit("uninstall");
    reveal_strlit("global_uninstall");
    reveal_strlit("npm");
    reveal_strlit("yarn");
    reveal_strlit("yarn@berry");
    reveal_strlit("pnpm");
    reveal_strlit("pnpm@6");
    reveal_strlit("bun");
    reveal_strlit("deno");
    reveal_strlit("npx");
    reveal_strlit("0");
    reveal_strlit("start");
    reveal_strlit("--if-present");
    reveal_strlit("-g");
    reveal_strlit("--frozen-if-present");
    reveal_strlit("--frozen");
    reveal_strlit("-D");
    reveal_strlit("-d");
    reveal_strlit("-i");
    reveal_strlit("--");
}

} // verus!

//! Rendering a resolved command as one shell-safe line.

use vstd::prelude::*;
use vstd::string::*;
use crate::command::{CommandModel, ResolveCommandReturn};

verus! {

/// The Unicode `White_Space` characters, as `char::is_whitespace` has them.
pub open spec fn is_whitespace(c: char) -> bool {
    let u = c as u32;
    (0x09 <= u <= 0x0d) || u == 0x20 || u == 0x85 || u == 0xa0 || u == 0x1680 || (0x2000 <= u
        <= 0x200a) || u == 0x2028 || u == 0x2029 || u == 0x202f || u == 0x205f || u == 0x3000
}

/// Whether an argument holds a whitespace character.
pub open spec fn has_whitespace(a: Seq<char>) -> bool {
    exists|i: int| 0 <= i < a.len() && is_whitespace(#[trigger] a[i])
}

/// An argument as it is written on the line: in single quotes where it holds
/// whitespace.
pub open spec fn quoted(a: Seq<char>) -> Seq<char> {
    if has_whitespace(a) {
        "'"@ + a + "'"@
    } else {
        a
    }
}

/// The arguments, each quoted as needed, joined by single spaces.
pub open spec fn joined(args: Seq<Seq<char>>) -> Seq<char>
    decreases args.len(),
{
    if args.len() == 0 {
        seq![]
    } else if args.len() == 1 {
        quoted(args[0])
    } else {
        joined(args.drop_last()) + " "@ + quoted(args.last())
    }
}

/// The line of a command: the executable alone, or followed by a space and
/// the joined arguments.
pub open spec fn serialized(c: CommandModel) -> Seq<char> {
    if c.args.len() == 0 {
        c.command
    } else {
        c.command + " "@ + joined(c.args)
    }
}

fn char_is_whitespace(c: char) -> (r: bool)
    ensures
        r == is_whitespace(c),
{
    let u = c as u32;
    (0x09 <= u && u <= 0x0d) || u == 0x20 || u == 0x85 || u == 0xa0 || u == 0x1680 || (0x2000
        <= u && u <= 0x200a) || u == 0x2028 || u == 0x2029 || u == 0x202f || u == 0x205f || u
        == 0x3000
}

fn contains_whitespace(s: &str) -> (r: bool)
    ensures
        r == has_whitespace(s@),
{
    let n = s.unicode_len();
    let mut i: usize = 0;
    while i < n
        invariant
            n == s@.len(),
            i <= n,
            forall|j: int| 0 <= j < i ==> !is_whitespace(#[trigger] s@[j]),
        decreases n - i,
    {
        if char_is_whitespace(s.get_char(i)) {
            return true;
        }
        i = i + 1;
    }
    false
}

/// The line of a resolved command.
pub fn serialize(command: &ResolveCommandReturn) -> (r: String)
    ensures
        r@ == serialized(command@),
{
    let ghost args = command@.args;
    let mut line = String::from_str(command.command.as_str());
    let mut i: usize = 0;
    while i < command.args.len()
        invariant
            i <= args.len(),
            args == command@.args,
            i == 0 ==> line@ == command.command@,
            i > 0 ==> line@ == command.command@ + " "@ + joined(args.take(i as int)),
        decreases args.len() - i,
    {
        let ghost prev = line@;
        let a = command.args[i].as_str();
        assert(a@ == args[i as int]);
        line.append(" ");
        if contains_whitespace(a) {
            line.append("'");
            line.append(a);
            line.append("'");
        } else {
            line.append(a);
        }
        proof {
            let t = args.take(i + 1);
            assert(t.drop_last() =~= args.take(i as int));
            assert(line@ =~= command.command@ + " "@ + joined(t));
        }
        i = i + 1;
    }
    assert(args.take(args.len() as int) =~= args);
    line
}

/// The line of a resolved command, where there is one.
pub fn serialize_command(command: Option<ResolveCommandReturn>) -> (r: Option<String>)
    ensures
        match command {
            None => r is None,
            Some(c) => r matches Some(s) && s@ == serialized(c@),
        },
{
    match command {
        None => None,
        Some(v) => Some(serialize(&v)),
    }
}

} // verus!

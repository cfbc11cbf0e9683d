//! The command encoder: renders a structured [`CommandInvocation`] as the
//! engine's positional calling convention — the command name unchanged,
//! followed by each argument quoted as a literal string token.

use vstd::prelude::*;
use vstd::string::StringExecFns;

use crate::messages::CommandInvocation;

verus! {

/// A character sequence wrapped in double quotes.
pub open spec fn quoted(s: Seq<char>) -> Seq<char> {
    seq!['"'] + s + seq!['"']
}

/// The encoded argument list of an invocation: every argument quoted, in
/// order.
pub open spec fn encoded_args(args: Seq<Seq<char>>) -> Seq<Seq<char>> {
    args.map_values(|a: Seq<char>| quoted(a))
}

/// Wraps one argument in double quotes.
pub fn quote_argument(arg: &str) -> (r: String)
    ensures
        r@ == quoted(arg@),
{
    proof {
        reveal_strlit("\"");
    }
    let mut r = String::from_str("\"");
    r.append(arg);
    r.append("\"");
    proof {
        assert(r@ =~= quoted(arg@));
    }
    r
}

/// Renders the argument list of an invocation: exactly one quoted token per
/// argument, in the invocation's order. The name is passed to the engine
/// unchanged and is not part of this list.
pub fn encode_arguments(cmd: &CommandInvocation) -> (out: Vec<String>)
    requires
        cmd.wf(),
    ensures
        out@.map_values(|a: String| a@) == encoded_args(cmd.args@.map_values(|a: String| a@)),
        out@.len() == cmd.args@.len(),
{
    let mut out: Vec<String> = Vec::new();
    let n = cmd.args.len();
    for i in 0..n
        invariant
            n == cmd.args@.len(),
            out@.len() == i,
            forall|j: int| 0 <= j < i ==> out@[j]@ == quoted(cmd.args@[j]@),
    {
        let q = quote_argument(cmd.args[i].as_str());
        out.push(q);
    }
    proof {
        assert(out@.map_values(|a: String| a@) =~= encoded_args(
            cmd.args@.map_values(|a: String| a@),
        ));
    }
    out
}

/// For every invocation with argument count `n` in the closed range 0 to 4,
/// the encoded argument list has exactly `n` elements, each individually
/// quoted.
pub proof fn lemma_encoding_arity_and_quoting(args: Seq<Seq<char>>)
    requires
        args.len() <= 4,
    ensures
        encoded_args(args).len() == args.len(),
        forall|i: int| 0 <= i < args.len() ==> encoded_args(args)[i] == quoted(args[i]),
{
}

} // verus!

//! Laws of the registry and of the builtins, proved once and for all.

use vstd::prelude::*;

use crate::builtins::{arity_ok, builtin_rel, usage_of, Builtin};
use crate::commands::{
    cmd_matches, lemma_resolved_skip, resolved_in, Command, Context, StatusCode,
};
use crate::effects::Reply;

verus! {

/// Resolving a command's true name and resolving any of its aliases yield
/// that same command — provided no earlier-registered command claims either
/// string, since resolution takes the first match and an earlier claim
/// shadows a later one.
pub proof fn lemma_alias_resolves_same(s: Seq<Command>, i: int, a: int)
    requires
        0 <= i < s.len(),
        0 <= a < s[i].aliases.deep_view().len(),
        forall|j: int| 0 <= j < i ==> !cmd_matches(#[trigger] s[j], s[i].true_name@),
        forall|j: int| 0 <= j < i ==> !cmd_matches(#[trigger] s[j], s[i].aliases.deep_view()[a]),
    ensures
        resolved_in(s, s[i].true_name@) == Option::Some(s[i]),
        resolved_in(s, s[i].aliases.deep_view()[a]) == Option::Some(s[i]),
{
    lemma_resolved_skip(s, s[i].true_name@, i);
    assert(s.skip(i)[0] == s[i]);
    assert(cmd_matches(s[i], s[i].true_name@));
    let alias = s[i].aliases.deep_view()[a];
    lemma_resolved_skip(s, alias, i);
    assert(cmd_matches(s[i], alias));
}

/// Resolving a string that no registered command claims, as a true name or
/// as an alias, yields no match.
pub proof fn lemma_unknown_resolves_none(s: Seq<Command>, name: Seq<char>)
    requires
        forall|j: int| 0 <= j < s.len() ==> !cmd_matches(#[trigger] s[j], name),
    ensures
        resolved_in(s, name) == Option::<Command>::None,
{
    lemma_resolved_skip(s, name, s.len() as int);
    assert(s.skip(s.len() as int) =~= Seq::<Command>::empty());
}

/// A successful `go-back` whose path resolution returned the recorded
/// previous directory unchanged moves the shell back there, and records the
/// directory it left as the new previous one: two changes of directory
/// followed by `go-back` restore the first directory.
pub proof fn lemma_go_back_swaps(
    pre: Context,
    post: Context,
    code: StatusCode,
    args: Seq<Seq<char>>,
    prev: String,
)
    requires
        builtin_rel(Builtin::GoBack, args, pre, post, code),
        args.len() == 0,
        pre.shell.environment.previous_working_directory == Option::Some(prev),
        pre.reply matches Reply::ResolvedDir(Option::Some(q)) && q@ == prev@,
    ensures
        code.code == 0,
        post.shell.environment.working_directory.absolute@ == prev@,
        post.shell.environment.previous_working_directory matches Option::Some(w) && w@
            == pre.shell.environment.working_directory.absolute@,
{
}

/// A builtin called with an argument count outside its accepted arity
/// returns exactly status `1`, prints its usage line on the error stream,
/// and changes nothing else.
pub proof fn lemma_bad_arity_usage(
    b: Builtin,
    args: Seq<Seq<char>>,
    pre: Context,
    post: Context,
    code: StatusCode,
)
    requires
        builtin_rel(b, args, pre, post, code),
        !arity_ok(b, args.len()),
    ensures
        code.code == 1,
        post.errors.deep_view() == pre.errors.deep_view().push(usage_of(b)),
        post.output.deep_view() == pre.output.deep_view(),
        post.shell == pre.shell,
        post.exit_requested == pre.exit_requested,
{
}

} // verus!

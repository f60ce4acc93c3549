//! The builtin commands and their contracts.
//!
//! Every builtin has the shape `(context, arguments) -> status`, checks its
//! argument count first, and on success performs exactly one visible effect.
//! A wrong argument count always yields status `1` and a usage line on the
//! error stream. Builtins that need the filesystem read the outcome of the
//! prepared action from the context's `reply`.

use vstd::prelude::*;
use vstd::string::StringExecFns;

use crate::commands::{Context, StatusCode};
use crate::effects::{DirEntry, Listing, Reply, Request, RequestView};
use crate::environment::{rendered, set_path_rel, Environment};
use crate::paint::{bright_green_code, paint_bright_green, paint_yellow, painted, yellow_code};
use crate::strings::{
    clone_strings, is_hidden_name, lex_leq_fn, parse_usize, parses_as_usize, push_all_lines,
    push_line, quoted_msg, sorted_clone, starts_with_dot, dec_val, numeral_digits,
};

verus! {

/// The internally trusted commands.
#[derive(Clone, Copy, PartialEq, Eq, Structural, Debug)]
pub enum Builtin {
    Test,
    Exit,
    WorkingDirectory,
    ChangeDirectory,
    ListDirectory,
    GoBack,
    ClearTerminal,
    CreateFile,
    CreateDirectory,
    DeleteFile,
    ReadFile,
    Truncate,
    Untruncate,
}

/// The argument counts a builtin accepts.
pub open spec fn arity_ok(b: Builtin, n: nat) -> bool {
    match b {
        Builtin::Test => n == 0,
        Builtin::Exit => n == 0,
        Builtin::WorkingDirectory => n == 0,
        Builtin::GoBack => n == 0,
        Builtin::ClearTerminal => n == 0,
        Builtin::Untruncate => n == 0,
        Builtin::ChangeDirectory => n == 1,
        Builtin::CreateFile => n == 1,
        Builtin::CreateDirectory => n == 1,
        Builtin::DeleteFile => n == 1,
        Builtin::ReadFile => n == 1,
        Builtin::ListDirectory => n <= 1,
        Builtin::Truncate => n <= 1,
    }
}

/// The usage line a builtin prints when called with a wrong argument count.
pub open spec fn usage_of(b: Builtin) -> Seq<char> {
    match b {
        Builtin::Test => "Usage: test"@,
        Builtin::Exit => "Usage: exit"@,
        Builtin::WorkingDirectory => "Usage: working-directory"@,
        Builtin::ChangeDirectory => "Usage: change-directory <path>"@,
        Builtin::ListDirectory => "Usage: list-directory <path>"@,
        Builtin::GoBack => "Usage: go-back"@,
        Builtin::ClearTerminal => "Usage: clear-terminal"@,
        Builtin::CreateFile => "Usage: create-file <path>"@,
        Builtin::CreateDirectory => "Usage: create-directory <path>"@,
        Builtin::DeleteFile => "Usage: delete-file <path>"@,
        Builtin::ReadFile => "Usage: read-file <path>"@,
        Builtin::Truncate => "Usage: truncate <length (default 1)>"@,
        Builtin::Untruncate => "Usage: untruncate"@,
    }
}

/// The command changed nothing at all in the context.
pub open spec fn untouched(pre: Context, post: Context) -> bool {
    &&& post.shell == pre.shell
    &&& post.reply == pre.reply
    &&& post.output.deep_view() == pre.output.deep_view()
    &&& post.errors.deep_view() == pre.errors.deep_view()
    &&& post.exit_requested == pre.exit_requested
    &&& post.env_sync_requested == pre.env_sync_requested
}

/// The command changed nothing but its standard output.
pub open spec fn untouched_but_output(pre: Context, post: Context) -> bool {
    &&& post.shell == pre.shell
    &&& post.reply == pre.reply
    &&& post.errors.deep_view() == pre.errors.deep_view()
    &&& post.exit_requested == pre.exit_requested
    &&& post.env_sync_requested == pre.env_sync_requested
}

/// The command failed: one diagnostic line went to the error stream and
/// nothing else changed.
pub open spec fn fail_with(pre: Context, post: Context, msg: Seq<char>) -> bool {
    &&& post.shell == pre.shell
    &&& post.reply == pre.reply
    &&& post.output.deep_view() == pre.output.deep_view()
    &&& post.errors.deep_view() == pre.errors.deep_view().push(msg)
    &&& post.exit_requested == pre.exit_requested
    &&& post.env_sync_requested == pre.env_sync_requested
}

/// A wrong argument count: the builtin's usage line and status `1`.
pub open spec fn usage_fail(pre: Context, post: Context, code: StatusCode, b: Builtin) -> bool {
    fail_with(pre, post, usage_of(b)) && code.code == 1
}

pub open spec fn invalid_path_msg(a: Seq<char>) -> Seq<char> {
    "Invalid path: '"@ + a + seq!['\'']
}

pub open spec fn unreadable_dir_msg(a: Seq<char>) -> Seq<char> {
    "Failed to read directory: '"@ + a + seq!['\'']
}

pub open spec fn create_file_fail_msg(a: Seq<char>) -> Seq<char> {
    "Failed to create file: '"@ + a + seq!['\'']
}

pub open spec fn create_dir_fail_msg(a: Seq<char>) -> Seq<char> {
    "Failed to create directory: '"@ + a + seq!['\'']
}

pub open spec fn delete_file_fail_msg(a: Seq<char>) -> Seq<char> {
    "Failed to delete file: '"@ + a + seq!['\'']
}

pub open spec fn open_file_fail_msg(a: Seq<char>) -> Seq<char> {
    "Failed to open file: '"@ + a + seq!['\'']
}

pub open spec fn invalid_truncation_msg(a: Seq<char>) -> Seq<char> {
    "Invalid truncation length: '"@ + a + seq!['\'']
}

pub open spec fn run_external_fail_msg(a: Seq<char>) -> Seq<char> {
    "Failed to run external command: '"@ + a + seq!['\'']
}

pub open spec fn no_previous_msg() -> Seq<char> {
    "No previous working directory available"@
}

pub open spec fn clear_sequence() -> Seq<char> {
    "\x1b[2J\x1b[1;1H"@
}

/// One line, possibly coloured, was appended to the stream.
pub open spec fn pushed_painted(
    pre: Seq<Seq<char>>,
    post: Seq<Seq<char>>,
    color: Seq<char>,
    src: Seq<char>,
) -> bool {
    post.len() == pre.len() + 1 && post.drop_last() == pre && painted(post.last(), color, src)
}

/// `test` with the right arity: prints its fixed diagnostic in yellow.
pub open spec fn test_ok(pre: Context, post: Context, code: StatusCode) -> bool {
    &&& untouched_but_output(pre, post)
    &&& pushed_painted(
        pre.output.deep_view(),
        post.output.deep_view(),
        yellow_code(),
        "Test command!"@,
    )
    &&& code.code == 0
}

/// `exit` with the right arity: asks the caller to terminate the process.
pub open spec fn exit_ok(pre: Context, post: Context, code: StatusCode) -> bool {
    &&& post.shell == pre.shell
    &&& post.reply == pre.reply
    &&& post.output.deep_view() == pre.output.deep_view()
    &&& post.errors.deep_view() == pre.errors.deep_view()
    &&& post.exit_requested
    &&& post.env_sync_requested == pre.env_sync_requested
    &&& code.code == 0
}

/// `working-directory` with the right arity: prints the working directory
/// as rendered for display.
pub open spec fn working_directory_ok(pre: Context, post: Context, code: StatusCode) -> bool {
    &&& untouched_but_output(pre, post)
    &&& post.output.deep_view() == pre.output.deep_view().push(
        rendered(pre.shell.environment.working_directory),
    )
    &&& code.code == 0
}

/// `change-directory` with the right arity: when the path resolved, moves
/// there, records the previous directory and asks for an environment-variable
/// sync; otherwise reports the invalid path with status `2`.
pub open spec fn change_directory_ok(
    args: Seq<Seq<char>>,
    pre: Context,
    post: Context,
    code: StatusCode,
) -> bool {
    match pre.reply {
        Reply::ResolvedDir(Option::Some(p)) => {
            &&& set_path_rel(pre.shell.environment, post.shell.environment, p@)
            &&& post.reply == pre.reply
            &&& post.output.deep_view() == pre.output.deep_view()
            &&& post.errors.deep_view() == pre.errors.deep_view()
            &&& post.exit_requested == pre.exit_requested
            &&& post.env_sync_requested
            &&& code.code == 0
        },
        _ => fail_with(pre, post, invalid_path_msg(args[0])) && code.code == 2,
    }
}

/// The directory names of a listing, hidden entries dropped, each with the
/// trailing separator the listing shows them with.
pub open spec fn dir_lines_of(es: Seq<DirEntry>) -> Seq<Seq<char>>
    decreases es.len(),
{
    if es.len() == 0 {
        Seq::empty()
    } else {
        let rest = dir_lines_of(es.drop_last());
        let e = es.last();
        if !starts_with_dot(e.name@) && e.is_dir {
            rest.push(e.name@ + seq!['/'])
        } else {
            rest
        }
    }
}

/// The file names of a listing, hidden entries dropped.
pub open spec fn file_lines_of(es: Seq<DirEntry>) -> Seq<Seq<char>>
    decreases es.len(),
{
    if es.len() == 0 {
        Seq::empty()
    } else {
        let rest = file_lines_of(es.drop_last());
        let e = es.last();
        if !starts_with_dot(e.name@) && !e.is_dir {
            rest.push(e.name@)
        } else {
            rest
        }
    }
}

/// The listing as printed: first the directories, sorted and coloured,
/// then the files, sorted.
pub open spec fn listing_output(
    pre_out: Seq<Seq<char>>,
    post_out: Seq<Seq<char>>,
    es: Seq<DirEntry>,
) -> bool {
    let ds = dir_lines_of(es).sort_by(lex_leq_fn());
    let fs = file_lines_of(es).sort_by(lex_leq_fn());
    &&& post_out.len() == pre_out.len() + ds.len() + fs.len()
    &&& post_out.take(pre_out.len() as int) == pre_out
    &&& forall|i: int|
        0 <= i < ds.len() ==> painted(
            #[trigger] post_out[pre_out.len() + i],
            bright_green_code(),
            ds[i],
        )
    &&& post_out.skip(pre_out.len() + ds.len() as int) == fs
}

/// The path a directory-listing diagnostic names: the argument when one was
/// given, else the working directory.
pub open spec fn ls_target(args: Seq<Seq<char>>, pre: Context) -> Seq<char> {
    if args.len() == 1 {
        args[0]
    } else {
        pre.shell.environment.working_directory.absolute@
    }
}

/// `list-directory` with the right arity, by what reading the directory
/// produced: its entries printed as a listing, or the failure reported
/// with status `2` (bad path) or `3` (unreadable).
pub open spec fn list_directory_ok(
    args: Seq<Seq<char>>,
    pre: Context,
    post: Context,
    code: StatusCode,
) -> bool {
    match pre.reply {
        Reply::Directory(Listing::Entries(es)) => {
            &&& untouched_but_output(pre, post)
            &&& listing_output(pre.output.deep_view(), post.output.deep_view(), es@)
            &&& code.code == 0
        },
        Reply::Directory(Listing::Unreadable) => fail_with(
            pre,
            post,
            unreadable_dir_msg(ls_target(args, pre)),
        ) && code.code == 3,
        _ => fail_with(pre, post, invalid_path_msg(ls_target(args, pre))) && code.code == 2,
    }
}

/// `go-back` with the right arity: returns to the recorded previous
/// directory when there is one and it still resolves; otherwise status `2`
/// (nothing recorded) or `3` (recorded but no longer valid).
pub open spec fn go_back_ok(pre: Context, post: Context, code: StatusCode) -> bool {
    match pre.shell.environment.previous_working_directory {
        Option::Some(prev) => match pre.reply {
            Reply::ResolvedDir(Option::Some(p)) => {
                &&& set_path_rel(pre.shell.environment, post.shell.environment, p@)
                &&& post.reply == pre.reply
                &&& post.output.deep_view() == pre.output.deep_view()
                &&& post.errors.deep_view() == pre.errors.deep_view()
                &&& post.exit_requested == pre.exit_requested
                &&& post.env_sync_requested
                &&& code.code == 0
            },
            _ => fail_with(pre, post, invalid_path_msg(prev@)) && code.code == 3,
        },
        Option::None => fail_with(pre, post, no_previous_msg()) && code.code == 2,
    }
}

/// `clear-terminal` with the right arity: emits the clear control sequence.
pub open spec fn clear_terminal_ok(pre: Context, post: Context, code: StatusCode) -> bool {
    &&& untouched_but_output(pre, post)
    &&& post.output.deep_view() == pre.output.deep_view().push(clear_sequence())
    &&& code.code == 0
}

/// A create or delete operation with the right arity: nothing visible
/// changes on success; a failure is reported with status `2`.
pub open spec fn op_ok(pre: Context, post: Context, code: StatusCode, fail_msg: Seq<char>) -> bool {
    if pre.reply matches Reply::OpDone(true) {
        untouched(pre, post) && code.code == 0
    } else {
        fail_with(pre, post, fail_msg) && code.code == 2
    }
}

/// `read-file` with the right arity: the file's lines are printed in order,
/// or the failure to open it is reported with status `2`.
pub open spec fn read_file_ok(
    args: Seq<Seq<char>>,
    pre: Context,
    post: Context,
    code: StatusCode,
) -> bool {
    match pre.reply {
        Reply::FileLines(Option::Some(ls)) => {
            &&& untouched_but_output(pre, post)
            &&& post.output.deep_view() == pre.output.deep_view() + ls.deep_view()
            &&& code.code == 0
        },
        _ => fail_with(pre, post, open_file_fail_msg(args[0])) && code.code == 2,
    }
}

/// Only the display truncation of the working directory changed, to `depth`.
pub open spec fn truncation_set(pre: Context, post: Context, depth: nat) -> bool {
    &&& post.shell.environment.home == pre.shell.environment.home
    &&& post.shell.environment.previous_working_directory
        == pre.shell.environment.previous_working_directory
    &&& post.shell.environment.working_directory.absolute
        == pre.shell.environment.working_directory.absolute
    &&& post.shell.environment.working_directory.truncation matches Option::Some(t) && t == depth
    &&& post.reply == pre.reply
    &&& post.output.deep_view() == pre.output.deep_view()
    &&& post.errors.deep_view() == pre.errors.deep_view()
    &&& post.exit_requested == pre.exit_requested
    &&& post.env_sync_requested == pre.env_sync_requested
}

/// `truncate` with the right arity: sets the truncation depth to the given
/// value, or to `1` without an argument; anything but a nonnegative integer
/// is rejected with status `2`.
pub open spec fn truncate_ok(
    args: Seq<Seq<char>>,
    pre: Context,
    post: Context,
    code: StatusCode,
) -> bool {
    if args.len() == 0 {
        truncation_set(pre, post, 1) && code.code == 0
    } else if parses_as_usize(args[0]) {
        truncation_set(pre, post, dec_val(numeral_digits(args[0]))) && code.code == 0
    } else {
        fail_with(pre, post, invalid_truncation_msg(args[0])) && code.code == 2
    }
}

/// `untruncate` with the right arity: restores the full-path display.
pub open spec fn untruncate_ok(pre: Context, post: Context, code: StatusCode) -> bool {
    &&& post.shell.environment.home == pre.shell.environment.home
    &&& post.shell.environment.previous_working_directory
        == pre.shell.environment.previous_working_directory
    &&& post.shell.environment.working_directory.absolute
        == pre.shell.environment.working_directory.absolute
    &&& post.shell.environment.working_directory.truncation == Option::<usize>::None
    &&& post.reply == pre.reply
    &&& post.output.deep_view() == pre.output.deep_view()
    &&& post.errors.deep_view() == pre.errors.deep_view()
    &&& post.exit_requested == pre.exit_requested
    &&& post.env_sync_requested == pre.env_sync_requested
    &&& code.code == 0
}

/// What a builtin does: a wrong argument count is the usage failure; with
/// the right count, the builtin's own contract.
pub open spec fn builtin_rel(
    b: Builtin,
    args: Seq<Seq<char>>,
    pre: Context,
    post: Context,
    code: StatusCode,
) -> bool {
    if !arity_ok(b, args.len()) {
        usage_fail(pre, post, code, b)
    } else {
        match b {
            Builtin::Test => test_ok(pre, post, code),
            Builtin::Exit => exit_ok(pre, post, code),
            Builtin::WorkingDirectory => working_directory_ok(pre, post, code),
            Builtin::ChangeDirectory => change_directory_ok(args, pre, post, code),
            Builtin::ListDirectory => list_directory_ok(args, pre, post, code),
            Builtin::GoBack => go_back_ok(pre, post, code),
            Builtin::ClearTerminal => clear_terminal_ok(pre, post, code),
            Builtin::CreateFile => op_ok(pre, post, code, create_file_fail_msg(args[0])),
            Builtin::CreateDirectory => op_ok(pre, post, code, create_dir_fail_msg(args[0])),
            Builtin::DeleteFile => op_ok(pre, post, code, delete_file_fail_msg(args[0])),
            Builtin::ReadFile => read_file_ok(args, pre, post, code),
            Builtin::Truncate => truncate_ok(args, pre, post, code),
            Builtin::Untruncate => untruncate_ok(pre, post, code),
        }
    }
}

/// The filesystem action a builtin needs before it runs, given its
/// arguments and the environment.
pub open spec fn builtin_request(b: Builtin, args: Seq<Seq<char>>, env: Environment) -> RequestView {
    match b {
        Builtin::ChangeDirectory => if args.len() == 1 {
            RequestView::ResolveDir(args[0])
        } else {
            RequestView::Nothing
        },
        Builtin::ListDirectory => if args.len() == 0 {
            RequestView::ListDir(Option::None)
        } else if args.len() == 1 {
            RequestView::ListDir(Option::Some(args[0]))
        } else {
            RequestView::Nothing
        },
        Builtin::GoBack => match env.previous_working_directory {
            Option::Some(p) => if args.len() == 0 {
                RequestView::ResolveDir(p@)
            } else {
                RequestView::Nothing
            },
            Option::None => RequestView::Nothing,
        },
        Builtin::CreateFile => if args.len() == 1 {
            RequestView::CreateFile(args[0])
        } else {
            RequestView::Nothing
        },
        Builtin::CreateDirectory => if args.len() == 1 {
            RequestView::CreateDir(args[0])
        } else {
            RequestView::Nothing
        },
        Builtin::DeleteFile => if args.len() == 1 {
            RequestView::DeleteFile(args[0])
        } else {
            RequestView::Nothing
        },
        Builtin::ReadFile => if args.len() == 1 {
            RequestView::ReadFile(args[0])
        } else {
            RequestView::Nothing
        },
        _ => RequestView::Nothing,
    }
}

/// Decides `builtin_request`.
pub fn builtin_request_exec(b: &Builtin, args: &Vec<String>, env: &Environment) -> (r: Request)
    ensures
        r@ == builtin_request(*b, args.deep_view(), *env),
{
    match b {
        Builtin::ChangeDirectory => if args.len() == 1 {
            Request::ResolveDir(args[0].clone())
        } else {
            Request::Nothing
        },
        Builtin::ListDirectory => if args.len() == 0 {
            Request::ListDir(Option::None)
        } else if args.len() == 1 {
            Request::ListDir(Option::Some(args[0].clone()))
        } else {
            Request::Nothing
        },
        Builtin::GoBack => if args.len() == 0 {
            match &env.previous_working_directory {
                Option::Some(p) => Request::ResolveDir(p.clone()),
                Option::None => Request::Nothing,
            }
        } else {
            Request::Nothing
        },
        Builtin::CreateFile => if args.len() == 1 {
            Request::CreateFile(args[0].clone())
        } else {
            Request::Nothing
        },
        Builtin::CreateDirectory => if args.len() == 1 {
            Request::CreateDir(args[0].clone())
        } else {
            Request::Nothing
        },
        Builtin::DeleteFile => if args.len() == 1 {
            Request::DeleteFile(args[0].clone())
        } else {
            Request::Nothing
        },
        Builtin::ReadFile => if args.len() == 1 {
            Request::ReadFile(args[0].clone())
        } else {
            Request::Nothing
        },
        _ => Request::Nothing,
    }
}

/// Prints a fixed diagnostic, to check that dispatch reaches a builtin.
pub fn test(context: &mut Context, args: &Vec<String>) -> (r: StatusCode)
    ensures
        builtin_rel(Builtin::Test, args.deep_view(), *old(context), *final(context), r),
{
    if args.len() == 0 {
        let ghost pre = context.output.deep_view();
        let line = paint_yellow("Test command!");
        push_line(&mut context.output, line);
        proof {
            assert(context.output.deep_view().drop_last() =~= pre);
        }
        StatusCode::success()
    } else {
        push_line(&mut context.errors, String::from_str("Usage: test"));
        StatusCode::new(1)
    }
}

/// Asks the caller to terminate the shell process with status `0`.
pub fn exit(context: &mut Context, args: &Vec<String>) -> (r: StatusCode)
    ensures
        builtin_rel(Builtin::Exit, args.deep_view(), *old(context), *final(context), r),
{
    if args.len() == 0 {
        context.exit_requested = true;
        StatusCode::success()
    } else {
        push_line(&mut context.errors, String::from_str("Usage: exit"));
        StatusCode::new(1)
    }
}

/// Prints the current working directory.
pub fn working_directory(context: &mut Context, args: &Vec<String>) -> (r: StatusCode)
    ensures
        builtin_rel(
            Builtin::WorkingDirectory,
            args.deep_view(),
            *old(context),
            *final(context),
            r,
        ),
{
    if args.len() == 0 {
        let line = context.cwd().render();
        push_line(&mut context.output, line);
        StatusCode::success()
    } else {
        push_line(&mut context.errors, String::from_str("Usage: working-directory"));
        StatusCode::new(1)
    }
}

/// Moves to the directory the prepared action resolved the argument to.
pub fn change_directory(context: &mut Context, args: &Vec<String>) -> (r: StatusCode)
    ensures
        builtin_rel(
            Builtin::ChangeDirectory,
            args.deep_view(),
            *old(context),
            *final(context),
            r,
        ),
{
    if args.len() == 1 {
        let resolved: Option<String> = match &context.reply {
            Reply::ResolvedDir(o) => match o {
                Option::Some(p) => Option::Some(p.clone()),
                Option::None => Option::None,
            },
            _ => Option::None,
        };
        match resolved {
            Option::Some(p) => {
                context.env_mut().set_path(p);
                context.env_sync_requested = true;
                StatusCode::success()
            },
            Option::None => {
                let m = quoted_msg("Invalid path: '", args[0].as_str());
                push_line(&mut context.errors, m);
                StatusCode::new(2)
            },
        }
    } else {
        push_line(&mut context.errors, String::from_str("Usage: change-directory <path>"));
        StatusCode::new(1)
    }
}

/// Copies a directory listing's entries.
fn clone_entries(v: &Vec<DirEntry>) -> (r: Vec<DirEntry>)
    ensures
        r@ == v@,
{
    let mut out: Vec<DirEntry> = Vec::new();
    proof {
        assert(out@ =~= v@.take(0));
    }
    let mut i: usize = 0;
    while i < v.len()
        invariant
            i <= v.len(),
            out@ == v@.take(i as int),
        decreases v.len() - i,
    {
        let e = &v[i];
        out.push(DirEntry { name: e.name.clone(), is_dir: e.is_dir });
        proof {
            assert(out@ =~= v@.take(i + 1));
        }
        i = i + 1;
    }
    proof {
        assert(v@.take(v.len() as int) =~= v@);
    }
    out
}

/// Lists the prepared directory: directories first, coloured and marked
/// with a trailing separator, then files, both sorted; hidden entries are
/// skipped.
pub fn list_directory(context: &mut Context, args: &Vec<String>) -> (r: StatusCode)
    ensures
        builtin_rel(
            Builtin::ListDirectory,
            args.deep_view(),
            *old(context),
            *final(context),
            r,
        ),
{
    if args.len() > 1 {
        push_line(&mut context.errors, String::from_str("Usage: list-directory <path>"));
        return StatusCode::new(1);
    }
    let mut entries_opt: Option<Vec<DirEntry>> = Option::None;
    let mut unreadable = false;
    match &context.reply {
        Reply::Directory(l) => match l {
            Listing::Entries(es) => {
                entries_opt = Option::Some(clone_entries(es));
            },
            Listing::Unreadable => {
                unreadable = true;
            },
            Listing::PathInvalid => {},
        },
        _ => {},
    }
    match entries_opt {
        Option::Some(entries) => {
            let ghost es = entries@;
            let mut dirs: Vec<String> = Vec::new();
            let mut files: Vec<String> = Vec::new();
            proof {
                assert(dirs.deep_view() =~= dir_lines_of(es.take(0)));
                assert(files.deep_view() =~= file_lines_of(es.take(0)));
                assert(es.take(0) =~= Seq::<DirEntry>::empty());
            }
            let mut k: usize = 0;
            while k < entries.len()
                invariant
                    k <= entries.len(),
                    es == entries@,
                    dirs.deep_view() == dir_lines_of(es.take(k as int)),
                    files.deep_view() == file_lines_of(es.take(k as int)),
                decreases entries.len() - k,
            {
                let ghost pre_dirs = dirs.deep_view();
                let ghost pre_files = files.deep_view();
                let e = &entries[k];
                if !is_hidden_name(e.name.as_str()) {
                    if e.is_dir {
                        let d = e.name.clone().concat("/");
                        proof {
                            reveal_strlit("/");
                            assert("/"@ =~= seq!['/']);
                        }
                        push_line(&mut dirs, d);
                    } else {
                        push_line(&mut files, e.name.clone());
                    }
                }
                proof {
                    assert(es.take(k + 1).drop_last() =~= es.take(k as int));
                    assert(es.take(k + 1).last() == es[k as int]);
                }
                k = k + 1;
            }
            proof {
                assert(es.take(es.len() as int) =~= es);
            }
            let dirs_sorted = sorted_clone(&dirs);
            let files_sorted = sorted_clone(&files);
            let ghost ds = dir_lines_of(es).sort_by(lex_leq_fn());
            let ghost fs = file_lines_of(es).sort_by(lex_leq_fn());
            let ghost pre_out = context.output.deep_view();
            let mut d: usize = 0;
            proof {
                assert(context.output.deep_view().take(pre_out.len() as int) =~= pre_out);
            }
            while d < dirs_sorted.len()
                invariant
                    d <= dirs_sorted.len(),
                    dirs_sorted.deep_view() == ds,
                    context.output.deep_view().len() == pre_out.len() + d,
                    context.output.deep_view().take(pre_out.len() as int) == pre_out,
                    forall|i: int|
                        0 <= i < d ==> painted(
                            #[trigger] context.output.deep_view()[pre_out.len() + i],
                            bright_green_code(),
                            ds[i],
                        ),
                    context.shell == old(context).shell,
                    context.reply == old(context).reply,
                    context.errors == old(context).errors,
                    context.exit_requested == old(context).exit_requested,
                    context.env_sync_requested == old(context).env_sync_requested,
                decreases dirs_sorted.len() - d,
            {
                let ghost mid = context.output.deep_view();
                let line = paint_bright_green(dirs_sorted[d].as_str());
                push_line(&mut context.output, line);
                proof {
                    assert(context.output.deep_view().take(pre_out.len() as int)
                        =~= mid.take(pre_out.len() as int));
                    assert forall|i: int| 0 <= i < d + 1 implies painted(
                        #[trigger] context.output.deep_view()[pre_out.len() + i],
                        bright_green_code(),
                        ds[i],
                    ) by {
                        if i < d {
                            assert(context.output.deep_view()[pre_out.len() + i] == mid[pre_out.len()
                                + i]);
                        } else {
                            assert(context.output.deep_view()[pre_out.len() + i]
                                == context.output.deep_view().last());
                        }
                    }
                }
                d = d + 1;
            }
            let ghost with_dirs = context.output.deep_view();
            push_all_lines(&mut context.output, &files_sorted);
            proof {
                let post_out = context.output.deep_view();
                assert(post_out.take(pre_out.len() as int) =~= with_dirs.take(
                    pre_out.len() as int,
                ));
                assert forall|i: int| 0 <= i < ds.len() implies painted(
                    #[trigger] post_out[pre_out.len() + i],
                    bright_green_code(),
                    ds[i],
                ) by {
                    assert(post_out[pre_out.len() + i] == with_dirs[pre_out.len() + i]);
                }
                assert(post_out.skip(pre_out.len() + ds.len() as int) =~= fs);
            }
            StatusCode::success()
        },
        Option::None => {
            let target: String = if args.len() == 1 {
                args[0].clone()
            } else {
                context.shell.environment.working_directory.absolute.clone()
            };
            if unreadable {
                let m = quoted_msg("Failed to read directory: '", target.as_str());
                push_line(&mut context.errors, m);
                StatusCode::new(3)
            } else {
                let m = quoted_msg("Invalid path: '", target.as_str());
                push_line(&mut context.errors, m);
                StatusCode::new(2)
            }
        },
    }
}

/// Returns to the previously recorded working directory.
pub fn go_back(context: &mut Context, args: &Vec<String>) -> (r: StatusCode)
    ensures
        builtin_rel(Builtin::GoBack, args.deep_view(), *old(context), *final(context), r),
{
    if args.len() == 0 {
        let prev_opt: Option<String> = match &context.shell.environment.previous_working_directory {
            Option::Some(p) => Option::Some(p.clone()),
            Option::None => Option::None,
        };
        match prev_opt {
            Option::None => {
                push_line(
                    &mut context.errors,
                    String::from_str("No previous working directory available"),
                );
                StatusCode::new(2)
            },
            Option::Some(prev) => {
                let resolved: Option<String> = match &context.reply {
                    Reply::ResolvedDir(o) => match o {
                        Option::Some(p) => Option::Some(p.clone()),
                        Option::None => Option::None,
                    },
                    _ => Option::None,
                };
                match resolved {
                    Option::Some(p) => {
                        context.env_mut().set_path(p);
                        context.env_sync_requested = true;
                        StatusCode::success()
                    },
                    Option::None => {
                        let m = quoted_msg("Invalid path: '", prev.as_str());
                        push_line(&mut context.errors, m);
                        StatusCode::new(3)
                    },
                }
            },
        }
    } else {
        push_line(&mut context.errors, String::from_str("Usage: go-back"));
        StatusCode::new(1)
    }
}

/// Emits the control sequence that clears the terminal.
pub fn clear_terminal(context: &mut Context, args: &Vec<String>) -> (r: StatusCode)
    ensures
        builtin_rel(
            Builtin::ClearTerminal,
            args.deep_view(),
            *old(context),
            *final(context),
            r,
        ),
{
    if args.len() == 0 {
        push_line(&mut context.output, String::from_str("\x1b[2J\x1b[1;1H"));
        StatusCode::success()
    } else {
        push_line(&mut context.errors, String::from_str("Usage: clear-terminal"));
        StatusCode::new(1)
    }
}

/// Reports the outcome of the prepared create-file action.
pub fn create_file(context: &mut Context, args: &Vec<String>) -> (r: StatusCode)
    ensures
        builtin_rel(Builtin::CreateFile, args.deep_view(), *old(context), *final(context), r),
{
    if args.len() == 1 {
        let done = match &context.reply {
            Reply::OpDone(b) => *b,
            _ => false,
        };
        if done {
            StatusCode::success()
        } else {
            let m = quoted_msg("Failed to create file: '", args[0].as_str());
            push_line(&mut context.errors, m);
            StatusCode::new(2)
        }
    } else {
        push_line(&mut context.errors, String::from_str("Usage: create-file <path>"));
        StatusCode::new(1)
    }
}

/// Reports the outcome of the prepared create-directory action.
pub fn create_directory(context: &mut Context, args: &Vec<String>) -> (r: StatusCode)
    ensures
        builtin_rel(
            Builtin::CreateDirectory,
            args.deep_view(),
            *old(context),
            *final(context),
            r,
        ),
{
    if args.len() == 1 {
        let done = match &context.reply {
            Reply::OpDone(b) => *b,
            _ => false,
        };
        if done {
            StatusCode::success()
        } else {
            let m = quoted_msg("Failed to create directory: '", args[0].as_str());
            push_line(&mut context.errors, m);
            StatusCode::new(2)
        }
    } else {
        push_line(&mut context.errors, String::from_str("Usage: create-directory <path>"));
        StatusCode::new(1)
    }
}

/// Reports the outcome of the prepared delete-file action.
pub fn delete_file(context: &mut Context, args: &Vec<String>) -> (r: StatusCode)
    ensures
        builtin_rel(Builtin::DeleteFile, args.deep_view(), *old(context), *final(context), r),
{
    if args.len() == 1 {
        let done = match &context.reply {
            Reply::OpDone(b) => *b,
            _ => false,
        };
        if done {
            StatusCode::success()
        } else {
            let m = quoted_msg("Failed to delete file: '", args[0].as_str());
            push_line(&mut context.errors, m);
            StatusCode::new(2)
        }
    } else {
        push_line(&mut context.errors, String::from_str("Usage: delete-file <path>"));
        StatusCode::new(1)
    }
}

/// Prints the lines of the prepared file, in order.
pub fn read_file(context: &mut Context, args: &Vec<String>) -> (r: StatusCode)
    ensures
        builtin_rel(Builtin::ReadFile, args.deep_view(), *old(context), *final(context), r),
{
    if args.len() == 1 {
        let lines_opt: Option<Vec<String>> = match &context.reply {
            Reply::FileLines(o) => match o {
                Option::Some(ls) => Option::Some(clone_strings(ls)),
                Option::None => Option::None,
            },
            _ => Option::None,
        };
        match lines_opt {
            Option::Some(lines) => {
                push_all_lines(&mut context.output, &lines);
                StatusCode::success()
            },
            Option::None => {
                let m = quoted_msg("Failed to open file: '", args[0].as_str());
                push_line(&mut context.errors, m);
                StatusCode::new(2)
            },
        }
    } else {
        push_line(&mut context.errors, String::from_str("Usage: read-file <path>"));
        StatusCode::new(1)
    }
}

/// Sets the display truncation depth, defaulting to `1`.
pub fn truncate(context: &mut Context, args: &Vec<String>) -> (r: StatusCode)
    ensures
        builtin_rel(Builtin::Truncate, args.deep_view(), *old(context), *final(context), r),
{
    if args.len() == 0 {
        context.cwd_mut().set_truncation(1);
        StatusCode::success()
    } else if args.len() == 1 {
        match parse_usize(args[0].as_str()) {
            Option::Some(depth) => {
                context.cwd_mut().set_truncation(depth);
                StatusCode::success()
            },
            Option::None => {
                let m = quoted_msg("Invalid truncation length: '", args[0].as_str());
                push_line(&mut context.errors, m);
                StatusCode::new(2)
            },
        }
    } else {
        push_line(&mut context.errors, String::from_str("Usage: truncate <length (default 1)>"));
        StatusCode::new(1)
    }
}

/// Restores the full-path display of the working directory.
pub fn untruncate(context: &mut Context, args: &Vec<String>) -> (r: StatusCode)
    ensures
        builtin_rel(Builtin::Untruncate, args.deep_view(), *old(context), *final(context), r),
{
    if args.len() == 0 {
        context.cwd_mut().disable_truncation();
        StatusCode::success()
    } else {
        push_line(&mut context.errors, String::from_str("Usage: untruncate"));
        StatusCode::new(1)
    }
}

/// Runs the given builtin against the context.
pub fn run_builtin(b: &Builtin, context: &mut Context, args: &Vec<String>) -> (r: StatusCode)
    ensures
        builtin_rel(*b, args.deep_view(), *old(context), *final(context), r),
{
    match b {
        Builtin::Test => test(context, args),
        Builtin::Exit => exit(context, args),
        Builtin::WorkingDirectory => working_directory(context, args),
        Builtin::ChangeDirectory => change_directory(context, args),
        Builtin::ListDirectory => list_directory(context, args),
        Builtin::GoBack => go_back(context, args),
        Builtin::ClearTerminal => clear_terminal(context, args),
        Builtin::CreateFile => create_file(context, args),
        Builtin::CreateDirectory => create_directory(context, args),
        Builtin::DeleteFile => delete_file(context, args),
        Builtin::ReadFile => read_file(context, args),
        Builtin::Truncate => truncate(context, args),
        Builtin::Untruncate => untruncate(context, args),
    }
}

} // verus!

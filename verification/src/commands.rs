//! Commands, their registry, and the execution context they run against.

use vstd::prelude::*;
use vstd::string::StringExecFns;

use crate::builtins;
use crate::builtins::{builtin_rel, builtin_request, Builtin};
use crate::effects::{Reply, Request, RequestView};
use crate::environment::{Environment, Path, Shell};
use crate::strings::{clone_strings, push_line, quoted_msg};

verus! {

/// A command that the prompt can run: a canonical name, the aliases that
/// also resolve to it, and the behaviour behind it.
pub struct Command {
    pub true_name: String,
    pub aliases: Vec<String>,
    pub runnable: Runnable,
}

impl Command {
    pub fn new(true_name: &str, aliases: Vec<&str>, runnable: Runnable) -> (r: Self)
        ensures
            r.true_name@ == true_name@,
            r.aliases.deep_view() == aliases.deep_view(),
            r.runnable == runnable,
    {
        let mut owned: Vec<String> = Vec::new();
        proof {
            assert(owned.deep_view() =~= aliases.deep_view().take(0));
        }
        let mut i: usize = 0;
        while i < aliases.len()
            invariant
                i <= aliases.len(),
                owned.deep_view() == aliases.deep_view().take(i as int),
            decreases aliases.len() - i,
        {
            let ghost pre = owned.deep_view();
            owned.push(String::from_str(aliases[i]));
            proof {
                assert(owned.deep_view() =~= pre.push(aliases.deep_view()[i as int]));
                assert(owned.deep_view() =~= aliases.deep_view().take(i + 1));
            }
            i = i + 1;
        }
        proof {
            assert(aliases.deep_view().take(aliases.len() as int) =~= aliases.deep_view());
        }
        let true_name = String::from_str(true_name);
        Command { true_name, aliases: owned, runnable }
    }

    pub fn true_name(&self) -> (r: &String)
        ensures
            r == &self.true_name,
    {
        &self.true_name
    }
}

/// The behaviour behind a command: one of the trusted builtins, or the path
/// of an external binary.
pub enum Runnable {
    Internal(Builtin),
    External(String),
}

/// How an external binary's run shows in the context: when the reply carries
/// an exit status the status is passed through untouched; otherwise the run
/// failed and is reported with status `2`. The external program never sees
/// the shell's state, so the context is unchanged apart from the diagnostic.
pub open spec fn external_rel(
    path: Seq<char>,
    pre: Context,
    post: Context,
    code: StatusCode,
) -> bool {
    match pre.reply {
        Reply::ExternalExit(Option::Some(n)) => builtins::untouched(pre, post) && code.code == n,
        _ => builtins::fail_with(pre, post, builtins::run_external_fail_msg(path)) && code.code
            == 2,
    }
}

/// What running a `Runnable` does to the context and returns.
pub open spec fn run_rel(
    rn: Runnable,
    args: Seq<Seq<char>>,
    pre: Context,
    post: Context,
    code: StatusCode,
) -> bool {
    match rn {
        Runnable::Internal(b) => builtin_rel(b, args, pre, post, code),
        Runnable::External(p) => external_rel(p@, pre, post, code),
    }
}

impl Runnable {
    /// A command implemented by one of the builtins.
    pub fn internal(builtin: Builtin) -> (r: Self)
        ensures
            r == Runnable::Internal(builtin),
    {
        Runnable::Internal(builtin)
    }

    /// A command implemented by an external binary at the given path.
    pub fn external(path: String) -> (r: Self)
        ensures
            r == Runnable::External(path),
    {
        Runnable::External(path)
    }

    pub fn run(&self, context: &mut Context, arguments: &Vec<String>) -> (r: StatusCode)
        ensures
            run_rel(*self, arguments.deep_view(), *old(context), *final(context), r),
    {
        match self {
            Runnable::Internal(b) => builtins::run_builtin(b, context, arguments),
            Runnable::External(path) => {
                let exit: Option<i32> = match &context.reply {
                    Reply::ExternalExit(o) => match o {
                        Option::Some(n) => Option::Some(*n),
                        Option::None => Option::None,
                    },
                    _ => Option::None,
                };
                match exit {
                    Option::Some(n) => StatusCode::new(n),
                    Option::None => {
                        let m = quoted_msg("Failed to run external command: '", path.as_str());
                        push_line(&mut context.errors, m);
                        StatusCode::new(2)
                    },
                }
            },
        }
    }
}

/// All the data a command may need while it runs: the shell's state, the
/// outcome of the filesystem action prepared for this invocation, the text
/// produced for the output and error streams, and the effects the caller
/// must apply once the command returns. A context is created for a single
/// dispatch and not kept beyond it.
pub struct Context {
    pub shell: Shell,
    /// The outcome of the filesystem action this command asked for.
    pub reply: Reply,
    /// Lines for the caller to print on standard output, in order.
    pub output: Vec<String>,
    /// Diagnostics for the caller to print on the error stream, in order.
    pub errors: Vec<String>,
    /// Set when the command asks the shell process to terminate.
    pub exit_requested: bool,
    /// Set when the caller must mirror the directory change into the
    /// process's environment variables.
    pub env_sync_requested: bool,
}

impl Context {
    pub fn new(shell: Shell) -> (r: Self)
        ensures
            r.shell == shell,
            r.reply == Reply::Nothing,
            r.output.deep_view() == Seq::<Seq<char>>::empty(),
            r.errors.deep_view() == Seq::<Seq<char>>::empty(),
            !r.exit_requested,
            !r.env_sync_requested,
    {
        let r = Context {
            shell,
            reply: Reply::Nothing,
            output: Vec::new(),
            errors: Vec::new(),
            exit_requested: false,
            env_sync_requested: false,
        };
        proof {
            assert(r.output.deep_view() =~= Seq::<Seq<char>>::empty());
            assert(r.errors.deep_view() =~= Seq::<Seq<char>>::empty());
        }
        r
    }

    /// Shortcut for the environment's home directory.
    pub fn home(&self) -> (r: &String)
        ensures
            r == &self.shell.environment.home,
    {
        &self.shell.environment.home
    }

    /// The shell's environment.
    pub fn env(&self) -> (r: &Environment)
        ensures
            r == &self.shell.environment,
    {
        &self.shell.environment
    }

    /// Mutable access to the shell's environment.
    pub fn env_mut(&mut self) -> (r: &mut Environment)
        ensures
            *r == old(self).shell.environment,
            final(self).shell.environment == *final(r),
            final(self).reply == old(self).reply,
            final(self).output == old(self).output,
            final(self).errors == old(self).errors,
            final(self).exit_requested == old(self).exit_requested,
            final(self).env_sync_requested == old(self).env_sync_requested,
    {
        &mut self.shell.environment
    }

    /// Shortcut for the working directory.
    pub fn cwd(&self) -> (r: &Path)
        ensures
            r == &self.shell.environment.working_directory,
    {
        &self.shell.environment.working_directory
    }

    /// Mutable access to the working directory.
    pub fn cwd_mut(&mut self) -> (r: &mut Path)
        ensures
            *r == old(self).shell.environment.working_directory,
            final(self).shell.environment.working_directory == *final(r),
            final(self).shell.environment.home == old(self).shell.environment.home,
            final(self).shell.environment.previous_working_directory == old(
                self,
            ).shell.environment.previous_working_directory,
            final(self).reply == old(self).reply,
            final(self).output == old(self).output,
            final(self).errors == old(self).errors,
            final(self).exit_requested == old(self).exit_requested,
            final(self).env_sync_requested == old(self).env_sync_requested,
    {
        &mut self.shell.environment.working_directory
    }

    /// Releases the shell once the dispatch that used this context is over.
    pub fn into_shell(self) -> (r: Shell)
        ensures
            r == self.shell,
    {
        self.shell
    }
}

/// The integer status a command run ends with; `0` is the only success.
#[derive(Debug, PartialEq, Eq, Structural)]
pub struct StatusCode {
    pub code: i32,
}

impl StatusCode {
    pub fn new(code: i32) -> (r: Self)
        ensures
            r.code == code,
    {
        StatusCode { code }
    }

    pub fn success() -> (r: Self)
        ensures
            r.code == 0,
    {
        Self::new(0)
    }

    pub fn is_success(&self) -> (r: bool)
        ensures
            r == (self.code == 0),
    {
        self.code == 0
    }
}

/// True when `name` is the command's true name or one of its aliases.
pub open spec fn cmd_matches(c: Command, name: Seq<char>) -> bool {
    c.true_name@ == name || exists|j: int|
        0 <= j < c.aliases.deep_view().len() && c.aliases.deep_view()[j] == name
}

/// The first command, in registration order, that `name` resolves to.
/// Matching is exact and case-sensitive; an alias claimed by an earlier
/// command shadows any later one.
pub open spec fn resolved_in(s: Seq<Command>, name: Seq<char>) -> Option<Command>
    decreases s.len(),
{
    if s.len() == 0 {
        Option::None
    } else if cmd_matches(s[0], name) {
        Option::Some(s[0])
    } else {
        resolved_in(s.drop_first(), name)
    }
}

/// Resolution ignores a prefix of commands none of which matches.
pub proof fn lemma_resolved_skip(s: Seq<Command>, name: Seq<char>, i: int)
    requires
        0 <= i <= s.len(),
        forall|j: int| 0 <= j < i ==> !cmd_matches(#[trigger] s[j], name),
    ensures
        resolved_in(s, name) == resolved_in(s.skip(i), name),
    decreases i,
{
    if i > 0 {
        assert(s.len() > 0);
        assert(!cmd_matches(s[0], name));
        lemma_resolved_skip(s.drop_first(), name, i - 1);
        assert(s.drop_first() =~= s.skip(1));
        assert(s.skip(1).skip(i - 1) =~= s.skip(i));
    } else {
        assert(s.skip(0) =~= s);
    }
}

/// What `dispatch` does: an unresolved name leaves the context untouched
/// and yields no status; a resolved command is run against the context.
pub open spec fn dispatch_rel(
    cmds: Seq<Command>,
    name: Seq<char>,
    args: Seq<Seq<char>>,
    pre: Context,
    post: Context,
    r: Option<StatusCode>,
) -> bool {
    match resolved_in(cmds, name) {
        Option::None => r == Option::<StatusCode>::None && post == pre,
        Option::Some(c) => r matches Option::Some(code) && run_rel(c.runnable, args, pre, post, code),
    }
}

/// The filesystem action to perform before dispatching `name` with `args`:
/// what the resolved command will need, or nothing for an unknown name.
pub open spec fn request_of(
    cmds: Seq<Command>,
    name: Seq<char>,
    args: Seq<Seq<char>>,
    env: Environment,
) -> RequestView {
    match resolved_in(cmds, name) {
        Option::None => RequestView::Nothing,
        Option::Some(c) => match c.runnable {
            Runnable::Internal(b) => builtin_request(b, args, env),
            Runnable::External(p) => RequestView::RunExternal(p@, args),
        },
    }
}

/// The registry of commands. Resolution scans in registration order and the
/// first match wins.
pub struct CommandManager {
    pub commands: Vec<Command>,
}

impl CommandManager {
    pub fn new() -> (r: Self)
        ensures
            r.commands@.len() == 0,
    {
        CommandManager { commands: Vec::new() }
    }

    /// Appends a command. Nothing guards against a name or alias already
    /// claimed by an earlier command; such a later registration is simply
    /// shadowed, as resolution takes the first match.
    pub fn add_command(&mut self, true_name: &str, aliases: Vec<&str>, runnable: Runnable)
        ensures
            final(self).commands@.len() == old(self).commands@.len() + 1,
            forall|k: int|
                0 <= k < old(self).commands@.len() ==> final(self).commands@[k] == old(
                    self,
                ).commands@[k],
            cmd_shape(
                final(self).commands@.last(),
                true_name@,
                aliases.deep_view(),
                runnable,
            ),
    {
        self.commands.push(Command::new(true_name, aliases, runnable));
    }

    /// Resolves a command name, through true names and aliases, to the
    /// first matching command in registration order.
    pub fn resolve(&self, command_name: &str) -> (r: Option<&Command>)
        ensures
            match r {
                Option::Some(c) => resolved_in(self.commands@, command_name@) == Option::Some(*c),
                Option::None => resolved_in(self.commands@, command_name@)
                    == Option::<Command>::None,
            },
    {
        let name = String::from_str(command_name);
        let ghost s = self.commands@;
        let mut i: usize = 0;
        while i < self.commands.len()
            invariant
                i <= s.len(),
                s == self.commands@,
                name@ == command_name@,
                forall|j: int| 0 <= j < i ==> !cmd_matches(#[trigger] s[j], command_name@),
            decreases s.len() - i,
        {
            let c = &self.commands[i];
            if c.true_name.eq(&name) {
                proof {
                    lemma_resolved_skip(s, command_name@, i as int);
                    assert(s.skip(i as int)[0] == s[i as int]);
                    assert(cmd_matches(s[i as int], command_name@));
                }
                return Option::Some(c);
            }
            let mut j: usize = 0;
            while j < c.aliases.len()
                invariant
                    j <= c.aliases.len(),
                    name@ == command_name@,
                    c == &s[i as int],
                    0 <= i < s.len(),
                    s == self.commands@,
                    forall|k: int| 0 <= k < i ==> !cmd_matches(#[trigger] s[k], command_name@),
                    forall|k: int|
                        0 <= k < j ==> #[trigger] c.aliases.deep_view()[k] != command_name@,
                decreases c.aliases.len() - j,
            {
                if c.aliases[j].eq(&name) {
                    proof {
                        assert(c.aliases.deep_view()[j as int] == command_name@);
                        lemma_resolved_skip(s, command_name@, i as int);
                        assert(s.skip(i as int)[0] == s[i as int]);
                        assert(cmd_matches(s[i as int], command_name@));
                    }
                    return Option::Some(c);
                }
                j = j + 1;
            }
            proof {
                assert(!cmd_matches(s[i as int], command_name@));
            }
            i = i + 1;
        }
        proof {
            lemma_resolved_skip(s, command_name@, s.len() as int);
            assert(s.skip(s.len() as int) =~= Seq::<Command>::empty());
        }
        Option::None
    }

    /// The filesystem action to perform before dispatching this invocation.
    pub fn prepare(&self, command_name: &str, command_args: &Vec<String>, context: &Context) -> (r:
        Request)
        ensures
            r@ == request_of(
                self.commands@,
                command_name@,
                command_args.deep_view(),
                context.shell.environment,
            ),
    {
        match self.resolve(command_name) {
            Option::None => Request::Nothing,
            Option::Some(c) => match &c.runnable {
                Runnable::Internal(b) => builtins::builtin_request_exec(
                    b,
                    command_args,
                    context.env(),
                ),
                Runnable::External(p) => Request::RunExternal(
                    p.clone(),
                    clone_strings(command_args),
                ),
            },
        }
    }

    /// Resolves the name and runs the matched command against the context,
    /// yielding its status, or nothing when the name is unknown — reporting
    /// an unknown command is the caller's business.
    pub fn dispatch(&self, command_name: &str, command_args: &Vec<String>, context: &mut Context)
        -> (r: Option<StatusCode>)
        ensures
            dispatch_rel(
                self.commands@,
                command_name@,
                command_args.deep_view(),
                *old(context),
                *final(context),
                r,
            ),
    {
        match self.resolve(command_name) {
            Option::Some(command) => Option::Some(command.runnable.run(context, command_args)),
            Option::None => Option::None,
        }
    }
}

/// The shell's standard vocabulary: each command with its true name and
/// aliases, in registration order.
pub open spec fn is_default_registry(s: Seq<Command>) -> bool {
    &&& s.len() == 13
    &&& cmd_shape(s[0], "test"@, seq!["t"@], Runnable::Internal(Builtin::Test))
    &&& cmd_shape(s[1], "exit"@, seq!["quit"@, "q"@], Runnable::Internal(Builtin::Exit))
    &&& cmd_shape(
        s[2],
        "working-directory"@,
        seq!["pwd"@, "wd"@],
        Runnable::Internal(Builtin::WorkingDirectory),
    )
    &&& cmd_shape(
        s[3],
        "change-directory"@,
        seq!["cd"@],
        Runnable::Internal(Builtin::ChangeDirectory),
    )
    &&& cmd_shape(
        s[4],
        "list-directory"@,
        seq!["directory"@, "list"@, "ls"@, "dir"@],
        Runnable::Internal(Builtin::ListDirectory),
    )
    &&& cmd_shape(
        s[5],
        "go-back"@,
        seq!["back"@, "b"@, "prev"@, "pd"@],
        Runnable::Internal(Builtin::GoBack),
    )
    &&& cmd_shape(
        s[6],
        "clear-terminal"@,
        seq!["clear"@, "cls"@],
        Runnable::Internal(Builtin::ClearTerminal),
    )
    &&& cmd_shape(
        s[7],
        "create-file"@,
        seq!["create"@, "touch"@, "new"@, "cf"@],
        Runnable::Internal(Builtin::CreateFile),
    )
    &&& cmd_shape(
        s[8],
        "create-directory"@,
        seq!["mkdir"@, "md"@],
        Runnable::Internal(Builtin::CreateDirectory),
    )
    &&& cmd_shape(
        s[9],
        "delete-file"@,
        seq!["delete"@, "remove"@, "rm"@, "del"@, "df"@],
        Runnable::Internal(Builtin::DeleteFile),
    )
    &&& cmd_shape(
        s[10],
        "read-file"@,
        seq!["read"@, "cat"@, "rf"@],
        Runnable::Internal(Builtin::ReadFile),
    )
    &&& cmd_shape(s[11], "truncate"@, seq!["trunc"@], Runnable::Internal(Builtin::Truncate))
    &&& cmd_shape(s[12], "untruncate"@, seq!["untrunc"@], Runnable::Internal(Builtin::Untruncate))
}

impl Default for CommandManager {
    /// The manager populated with the shell's standard commands and aliases.
    fn default() -> (r: Self)
        ensures
            is_default_registry(r.commands@),
    {
        let mut manager = Self::new();
        manager.add_command("test", vec!["t"], Runnable::internal(Builtin::Test));
        proof {
            assert(manager.commands@[0].aliases.deep_view() =~= seq!["t"@]);
        }
        manager.add_command("exit", vec!["quit", "q"], Runnable::internal(Builtin::Exit));
        proof {
            assert(manager.commands@[1].aliases.deep_view() =~= seq!["quit"@, "q"@]);
        }
        manager.add_command(
            "working-directory",
            vec!["pwd", "wd"],
            Runnable::internal(Builtin::WorkingDirectory),
        );
        proof {
            assert(manager.commands@[2].aliases.deep_view() =~= seq!["pwd"@, "wd"@]);
        }
        manager.add_command(
            "change-directory",
            vec!["cd"],
            Runnable::internal(Builtin::ChangeDirectory),
        );
        proof {
            assert(manager.commands@[3].aliases.deep_view() =~= seq!["cd"@]);
        }
        manager.add_command(
            "list-directory",
            vec!["directory", "list", "ls", "dir"],
            Runnable::internal(Builtin::ListDirectory),
        );
        proof {
            assert(manager.commands@[4].aliases.deep_view() =~= seq!["directory"@, "list"@, "ls"@, "dir"@]);
        }
        manager.add_command(
            "go-back",
            vec!["back", "b", "prev", "pd"],
            Runnable::internal(Builtin::GoBack),
        );
        proof {
            assert(manager.commands@[5].aliases.deep_view() =~= seq!["back"@, "b"@, "prev"@, "pd"@]);
        }
        manager.add_command(
            "clear-terminal",
            vec!["clear", "cls"],
            Runnable::internal(Builtin::ClearTerminal),
        );
        proof {
            assert(manager.commands@[6].aliases.deep_view() =~= seq!["clear"@, "cls"@]);
        }
        manager.add_command(
            "create-file",
            vec!["create", "touch", "new", "cf"],
            Runnable::internal(Builtin::CreateFile),
        );
        proof {
            assert(manager.commands@[7].aliases.deep_view() =~= seq!["create"@, "touch"@, "new"@, "cf"@]);
        }
        manager.add_command(
            "create-directory",
            vec!["mkdir", "md"],
            Runnable::internal(Builtin::CreateDirectory),
        );
        proof {
            assert(manager.commands@[8].aliases.deep_view() =~= seq!["mkdir"@, "md"@]);
        }
        manager.add_command(
            "delete-file",
            vec!["delete", "remove", "rm", "del", "df"],
            Runnable::internal(Builtin::DeleteFile),
        );
        proof {
            assert(manager.commands@[9].aliases.deep_view() =~= seq!["delete"@, "remove"@, "rm"@, "del"@, "df"@]);
        }
        manager.add_command("read-file", vec!["read", "cat", "rf"], Runnable::internal(Builtin::ReadFile));
        proof {
            assert(manager.commands@[10].aliases.deep_view() =~= seq!["read"@, "cat"@, "rf"@]);
        }
        manager.add_command("truncate", vec!["trunc"], Runnable::internal(Builtin::Truncate));
        proof {
            assert(manager.commands@[11].aliases.deep_view() =~= seq!["trunc"@]);
        }
        manager.add_command(
            "untruncate",
            vec!["untrunc"],
            Runnable::internal(Builtin::Untruncate),
        );
        proof {
            assert(manager.commands@[12].aliases.deep_view() =~= seq!["untrunc"@]);
        }
        manager
    }
}

/// The command's shape: its name, alias list and behaviour.
pub open spec fn cmd_shape(
    c: Command,
    name: Seq<char>,
    aliases: Seq<Seq<char>>,
    rn: Runnable,
) -> bool {
    c.true_name@ == name && c.aliases.deep_view() == aliases && c.runnable == rn
}

} // verus!

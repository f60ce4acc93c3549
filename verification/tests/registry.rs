use rush_core::commands::{CommandManager, Context, Runnable, StatusCode};
use rush_core::effects::{Reply, Request};
use rush_core::environment::{Environment, Shell};

fn fresh_context_at(home: &str, cwd: &str) -> Context {
    let env = Environment::new(home.to_string(), cwd.to_string());
    Context::new(Shell::new(env))
}

fn fresh_context() -> Context {
    fresh_context_at("/home/user", "/home/user")
}

fn vocabulary() -> Vec<(&'static str, Vec<&'static str>)> {
    vec![
        ("test", vec!["t"]),
        ("exit", vec!["quit", "q"]),
        ("working-directory", vec!["pwd", "wd"]),
        ("change-directory", vec!["cd"]),
        ("list-directory", vec!["directory", "list", "ls", "dir"]),
        ("go-back", vec!["back", "b", "prev", "pd"]),
        ("clear-terminal", vec!["clear", "cls"]),
        ("create-file", vec!["create", "touch", "new", "cf"]),
        ("create-directory", vec!["mkdir", "md"]),
        ("delete-file", vec!["delete", "remove", "rm", "del", "df"]),
        ("read-file", vec!["read", "cat", "rf"]),
        ("truncate", vec!["trunc"]),
        ("untruncate", vec!["untrunc"]),
    ]
}

#[test]
fn every_alias_resolves_to_its_true_name() {
    let manager = CommandManager::default();
    for (true_name, aliases) in vocabulary() {
        let by_name = manager.resolve(true_name).expect("true name must resolve");
        assert_eq!(by_name.true_name(), true_name);
        for alias in aliases {
            let by_alias = manager.resolve(alias).expect("alias must resolve");
            assert_eq!(by_alias.true_name(), true_name);
        }
    }
}

#[test]
fn unknown_names_do_not_resolve() {
    let manager = CommandManager::default();
    for name in ["", "frobnicate", "CD", "Test", "cd ", "lsd"] {
        assert!(manager.resolve(name).is_none());
    }
}

#[test]
fn dispatch_of_unknown_name_returns_nothing_and_changes_nothing() {
    let manager = CommandManager::default();
    let mut context = fresh_context();
    let result = manager.dispatch("frobnicate", &Vec::new(), &mut context);

    assert!(result.is_none());
    assert!(context.output.is_empty());
    assert!(context.errors.is_empty());
    assert_eq!(context.shell.environment.working_directory.absolute, "/home/user");
}

#[test]
fn dispatch_cd_then_pwd() {
    let manager = CommandManager::default();
    let mut context = fresh_context();
    context.reply = Reply::ResolvedDir(Some("/".to_string()));
    let code = manager.dispatch("cd", &vec!["/".to_string()], &mut context);
    assert_eq!(code, Some(StatusCode::success()));
    assert_eq!(context.shell.environment.working_directory.absolute, "/");

    let shell = context.into_shell();
    let mut context = Context::new(shell);
    let code = manager.dispatch("pwd", &Vec::new(), &mut context);
    assert_eq!(code, Some(StatusCode::success()));
    assert_eq!(context.output, vec!["/".to_string()]);
}

#[test]
fn dispatch_back_without_history_fails_with_two() {
    let manager = CommandManager::default();
    let mut context = fresh_context();
    let code = manager.dispatch("back", &Vec::new(), &mut context);

    assert_eq!(code, Some(StatusCode::new(2)));
}

#[test]
fn dispatch_back_restores_the_previous_directory() {
    let manager = CommandManager::default();
    let mut context = fresh_context();

    context.reply = Reply::ResolvedDir(Some("/".to_string()));
    assert_eq!(
        manager.dispatch("cd", &vec!["/".to_string()], &mut context),
        Some(StatusCode::success())
    );
    context.reply = Reply::ResolvedDir(Some("/tmp".to_string()));
    assert_eq!(
        manager.dispatch("cd", &vec!["/tmp".to_string()], &mut context),
        Some(StatusCode::success())
    );
    assert_eq!(
        context.shell.environment.previous_working_directory,
        Some("/".to_string())
    );

    context.reply = Reply::ResolvedDir(Some("/".to_string()));
    let code = manager.dispatch("back", &Vec::new(), &mut context);
    assert_eq!(code, Some(StatusCode::success()));
    assert_eq!(context.shell.environment.working_directory.absolute, "/");
    assert_eq!(
        context.shell.environment.previous_working_directory,
        Some("/tmp".to_string())
    );
}

#[test]
fn dispatch_truncate_scenarios() {
    let manager = CommandManager::default();

    let mut context = fresh_context();
    assert_eq!(
        manager.dispatch("truncate", &Vec::new(), &mut context),
        Some(StatusCode::success())
    );
    assert_eq!(context.shell.environment.working_directory.truncation, Some(1));

    assert_eq!(
        manager.dispatch("truncate", &vec!["5".to_string()], &mut context),
        Some(StatusCode::success())
    );
    assert_eq!(context.shell.environment.working_directory.truncation, Some(5));

    assert_eq!(
        manager.dispatch("truncate", &vec!["-5".to_string()], &mut context),
        Some(StatusCode::new(2))
    );
    assert_eq!(
        manager.dispatch("truncate", &vec!["abc".to_string()], &mut context),
        Some(StatusCode::new(2))
    );
    assert_eq!(
        manager.dispatch("truncate", &vec!["1".to_string(), "2".to_string()], &mut context),
        Some(StatusCode::new(1))
    );

    assert_eq!(
        manager.dispatch("untruncate", &Vec::new(), &mut context),
        Some(StatusCode::success())
    );
    assert_eq!(context.shell.environment.working_directory.truncation, None);
}

#[test]
fn wrong_arity_always_returns_one_and_a_usage_line() {
    let manager = CommandManager::default();
    let extra = vec!["x".to_string(), "y".to_string()];
    let cases: Vec<(&str, Vec<String>, &str)> = vec![
        ("test", extra.clone(), "Usage: test"),
        ("exit", extra.clone(), "Usage: exit"),
        ("working-directory", extra.clone(), "Usage: working-directory"),
        ("change-directory", Vec::new(), "Usage: change-directory <path>"),
        ("list-directory", extra.clone(), "Usage: list-directory <path>"),
        ("go-back", extra.clone(), "Usage: go-back"),
        ("clear-terminal", extra.clone(), "Usage: clear-terminal"),
        ("create-file", Vec::new(), "Usage: create-file <path>"),
        ("create-directory", Vec::new(), "Usage: create-directory <path>"),
        ("delete-file", Vec::new(), "Usage: delete-file <path>"),
        ("read-file", Vec::new(), "Usage: read-file <path>"),
        ("truncate", extra.clone(), "Usage: truncate <length (default 1)>"),
        ("untruncate", extra.clone(), "Usage: untruncate"),
    ];
    for (name, args, usage) in cases {
        let mut context = fresh_context();
        let code = manager.dispatch(name, &args, &mut context);
        assert_eq!(code, Some(StatusCode::new(1)), "command {}", name);
        assert_eq!(context.errors, vec![usage.to_string()], "command {}", name);
        assert!(context.output.is_empty(), "command {}", name);
    }
}

#[test]
fn dispatch_exit_requests_termination() {
    let manager = CommandManager::default();
    let mut context = fresh_context();
    let code = manager.dispatch("quit", &Vec::new(), &mut context);

    assert_eq!(code, Some(StatusCode::success()));
    assert!(context.exit_requested);
}

#[test]
fn dispatch_clear_emits_the_control_sequence() {
    let manager = CommandManager::default();
    let mut context = fresh_context();
    let code = manager.dispatch("cls", &Vec::new(), &mut context);

    assert_eq!(code, Some(StatusCode::success()));
    assert_eq!(context.output, vec!["\u{1b}[2J\u{1b}[1;1H".to_string()]);
}

#[test]
fn file_operations_report_their_outcomes() {
    let manager = CommandManager::default();
    let arg = vec!["notes.txt".to_string()];

    let mut context = fresh_context();
    context.reply = Reply::OpDone(true);
    assert_eq!(
        manager.dispatch("touch", &arg, &mut context),
        Some(StatusCode::success())
    );
    assert!(context.errors.is_empty());

    context.reply = Reply::OpDone(false);
    assert_eq!(
        manager.dispatch("create-file", &arg, &mut context),
        Some(StatusCode::new(2))
    );
    assert_eq!(
        context.errors,
        vec!["Failed to create file: 'notes.txt'".to_string()]
    );

    let mut context = fresh_context();
    context.reply = Reply::OpDone(false);
    assert_eq!(
        manager.dispatch("mkdir", &arg, &mut context),
        Some(StatusCode::new(2))
    );
    assert_eq!(
        context.errors,
        vec!["Failed to create directory: 'notes.txt'".to_string()]
    );

    let mut context = fresh_context();
    context.reply = Reply::OpDone(false);
    assert_eq!(
        manager.dispatch("rm", &arg, &mut context),
        Some(StatusCode::new(2))
    );
    assert_eq!(
        context.errors,
        vec!["Failed to delete file: 'notes.txt'".to_string()]
    );
}

#[test]
fn read_file_prints_the_lines_in_order() {
    let manager = CommandManager::default();
    let mut context = fresh_context();
    context.reply = Reply::FileLines(Some(vec![
        "first".to_string(),
        "second".to_string(),
        "third".to_string(),
    ]));
    let code = manager.dispatch("cat", &vec!["notes.txt".to_string()], &mut context);

    assert_eq!(code, Some(StatusCode::success()));
    assert_eq!(
        context.output,
        vec!["first".to_string(), "second".to_string(), "third".to_string()]
    );
}

#[test]
fn read_file_reports_an_unopenable_file() {
    let manager = CommandManager::default();
    let mut context = fresh_context();
    context.reply = Reply::FileLines(None);
    let code = manager.dispatch("read", &vec!["gone.txt".to_string()], &mut context);

    assert_eq!(code, Some(StatusCode::new(2)));
    assert_eq!(context.errors, vec!["Failed to open file: 'gone.txt'".to_string()]);
}

#[test]
fn pwd_renders_the_truncated_path() {
    let manager = CommandManager::default();
    let mut context = fresh_context_at("/home/user", "/home/user/projects/app");
    assert_eq!(
        manager.dispatch("truncate", &vec!["2".to_string()], &mut context),
        Some(StatusCode::success())
    );
    assert_eq!(
        manager.dispatch("pwd", &Vec::new(), &mut context),
        Some(StatusCode::success())
    );
    assert_eq!(context.output, vec!["projects/app".to_string()]);

    assert_eq!(
        manager.dispatch("untrunc", &Vec::new(), &mut context),
        Some(StatusCode::success())
    );
    assert_eq!(
        manager.dispatch("wd", &Vec::new(), &mut context),
        Some(StatusCode::success())
    );
    assert_eq!(
        context.output,
        vec!["projects/app".to_string(), "/home/user/projects/app".to_string()]
    );
}

#[test]
fn external_commands_pass_their_exit_status_through() {
    let mut manager = CommandManager::new();
    manager.add_command(
        "hello",
        vec!["hi"],
        Runnable::external("/usr/local/bin/hello".to_string()),
    );

    let mut context = fresh_context();
    context.reply = Reply::ExternalExit(Some(7));
    let code = manager.dispatch("hi", &Vec::new(), &mut context);
    assert_eq!(code, Some(StatusCode::new(7)));
    assert!(context.errors.is_empty());

    let mut context = fresh_context();
    let code = manager.dispatch("hello", &Vec::new(), &mut context);
    assert_eq!(code, Some(StatusCode::new(2)));
    assert_eq!(
        context.errors,
        vec!["Failed to run external command: '/usr/local/bin/hello'".to_string()]
    );
}

#[test]
fn prepare_names_the_action_each_command_needs() {
    let manager = CommandManager::default();
    let context = fresh_context();

    match manager.prepare("cd", &vec!["/tmp".to_string()], &context) {
        Request::ResolveDir(p) => assert_eq!(p, "/tmp"),
        _ => panic!("cd must ask for a path resolution"),
    }
    match manager.prepare("ls", &Vec::new(), &context) {
        Request::ListDir(None) => {}
        _ => panic!("ls without arguments must list the working directory"),
    }
    match manager.prepare("ls", &vec!["/tmp".to_string()], &context) {
        Request::ListDir(Some(p)) => assert_eq!(p, "/tmp"),
        _ => panic!("ls with a path must list that path"),
    }
    match manager.prepare("back", &Vec::new(), &context) {
        Request::Nothing => {}
        _ => panic!("back with no history needs no filesystem work"),
    }
    match manager.prepare("pwd", &Vec::new(), &context) {
        Request::Nothing => {}
        _ => panic!("pwd needs no filesystem work"),
    }
    match manager.prepare("rf", &vec!["a.txt".to_string()], &context) {
        Request::ReadFile(p) => assert_eq!(p, "a.txt"),
        _ => panic!("read-file must ask for the file"),
    }

    let mut with_external = CommandManager::new();
    with_external.add_command("hello", vec![], Runnable::external("/opt/hello".to_string()));
    match with_external.prepare("hello", &vec!["world".to_string()], &context) {
        Request::RunExternal(path, args) => {
            assert_eq!(path, "/opt/hello");
            assert_eq!(args, vec!["world".to_string()]);
        }
        _ => panic!("an external command must ask to be spawned"),
    }
}

#[test]
fn context_getters_expose_the_shell_state() {
    let mut context = fresh_context_at("/home/someone", "/srv/data");
    assert_eq!(context.home(), "/home/someone");
    assert_eq!(context.env().home, "/home/someone");
    assert_eq!(context.cwd().absolute, "/srv/data");
    assert_eq!(context.cwd().truncation, None);
    context.cwd_mut().set_truncation(3);
    assert_eq!(context.cwd().truncation, Some(3));
    context.cwd_mut().disable_truncation();
    assert_eq!(context.cwd().truncation, None);

    let manager = CommandManager::default();
    let command = manager.resolve("pwd").expect("pwd is registered");
    assert_eq!(command.true_name(), "working-directory");
}

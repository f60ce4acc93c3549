// Output with colouring forced on: the painted lines must carry the escape
// sequences `colored` documents, not the plain text.

use rush_core::commands::{CommandManager, Context, StatusCode};
use rush_core::effects::{DirEntry, Listing, Reply};
use rush_core::environment::{Environment, Shell};

fn fresh_context() -> Context {
    let env = Environment::new("/home/user".to_string(), "/home/user".to_string());
    Context::new(Shell::new(env))
}

#[test]
fn test_command_prints_in_yellow() {
    colored::control::set_override(true);
    let mut context = fresh_context();
    let code = rush_core::builtins::test(&mut context, &Vec::new());

    assert_eq!(code, StatusCode::success());
    assert_eq!(
        context.output,
        vec!["\u{1b}[33mTest command!\u{1b}[0m".to_string()]
    );
}

#[test]
fn listed_directories_are_bright_green() {
    colored::control::set_override(true);
    let manager = CommandManager::default();
    let mut context = fresh_context();
    context.reply = Reply::Directory(Listing::Entries(vec![
        DirEntry { name: "sub".to_string(), is_dir: true },
        DirEntry { name: "a.txt".to_string(), is_dir: false },
    ]));
    let code = manager.dispatch("ls", &Vec::new(), &mut context);

    assert_eq!(code, Some(StatusCode::success()));
    assert_eq!(
        context.output,
        vec![
            "\u{1b}[92msub/\u{1b}[0m".to_string(),
            "a.txt".to_string(),
        ]
    );
}

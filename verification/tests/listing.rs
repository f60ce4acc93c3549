// Directory-listing output with colouring switched off, so the printed
// lines can be compared to the plain names.

use rush_core::commands::{CommandManager, Context, StatusCode};
use rush_core::effects::{DirEntry, Listing, Reply};
use rush_core::environment::{Environment, Shell};

fn fresh_context() -> Context {
    let env = Environment::new("/home/user".to_string(), "/home/user".to_string());
    Context::new(Shell::new(env))
}

fn entry(name: &str, is_dir: bool) -> DirEntry {
    DirEntry { name: name.to_string(), is_dir }
}

#[test]
fn listing_sorts_directories_first_and_hides_dotfiles() {
    colored::control::set_override(false);
    let manager = CommandManager::default();
    let mut context = fresh_context();
    context.reply = Reply::Directory(Listing::Entries(vec![
        entry(".hidden", false),
        entry("b.txt", false),
        entry("a.txt", false),
        entry("sub", true),
    ]));
    let code = manager.dispatch("list-directory", &Vec::new(), &mut context);

    assert_eq!(code, Some(StatusCode::success()));
    assert_eq!(
        context.output,
        vec!["sub/".to_string(), "a.txt".to_string(), "b.txt".to_string()]
    );
}

#[test]
fn listing_sorts_each_group_lexicographically() {
    colored::control::set_override(false);
    let manager = CommandManager::default();
    let mut context = fresh_context();
    context.reply = Reply::Directory(Listing::Entries(vec![
        entry("zeta", true),
        entry("beta.txt", false),
        entry("alpha", true),
        entry(".git", true),
        entry("Alpha.txt", false),
        entry("alpha.txt", false),
    ]));
    let code = manager.dispatch("ls", &Vec::new(), &mut context);

    assert_eq!(code, Some(StatusCode::success()));
    assert_eq!(
        context.output,
        vec![
            "alpha/".to_string(),
            "zeta/".to_string(),
            "Alpha.txt".to_string(),
            "alpha.txt".to_string(),
            "beta.txt".to_string(),
        ]
    );
}

#[test]
fn listing_an_invalid_path_fails_with_two() {
    colored::control::set_override(false);
    let manager = CommandManager::default();
    let mut context = fresh_context();
    context.reply = Reply::Directory(Listing::PathInvalid);
    let code = manager.dispatch("ls", &vec!["/nope".to_string()], &mut context);

    assert_eq!(code, Some(StatusCode::new(2)));
    assert_eq!(context.errors, vec!["Invalid path: '/nope'".to_string()]);
}

#[test]
fn listing_an_unreadable_directory_fails_with_three() {
    colored::control::set_override(false);
    let manager = CommandManager::default();
    let mut context = fresh_context();
    context.reply = Reply::Directory(Listing::Unreadable);
    let code = manager.dispatch("dir", &vec!["/locked".to_string()], &mut context);

    assert_eq!(code, Some(StatusCode::new(3)));
    assert_eq!(
        context.errors,
        vec!["Failed to read directory: '/locked'".to_string()]
    );
}

use rush_core::builtins::{
    change_directory, go_back, list_directory, truncate, working_directory,
};
use rush_core::commands::{Context, StatusCode};
use rush_core::effects::{Listing, Reply};
use rush_core::environment::{Environment, Shell};

fn fresh_context() -> Context {
    let env = Environment::new("/home/user".to_string(), "/home/user".to_string());
    Context::new(Shell::new(env))
}

#[test]
fn test_command_test_success() {
    let mut context = fresh_context();
    let status_code = rush_core::builtins::test(&mut context, &Vec::new());

    assert_eq!(status_code, StatusCode::success());
}

#[test]
fn test_command_exit_success() {
    // The exit command only asks the caller to terminate the process, so
    // there is nothing to observe here; the request flag is covered by the
    // dispatch tests.
}

#[test]
fn test_command_working_directory_success() {
    let mut context = fresh_context();
    let status_code = working_directory(&mut context, &Vec::new());

    assert_eq!(status_code, StatusCode::success());
}

#[test]
fn test_command_change_directory_success_1() {
    let mut context = fresh_context();
    context.reply = Reply::ResolvedDir(Some("/".to_string()));
    let status_code = change_directory(&mut context, &vec!["/".to_string()]);

    assert_eq!(status_code, StatusCode::success());
}

#[test]
fn test_command_change_directory_success_2() {
    let mut context = fresh_context();
    context.reply = Reply::ResolvedDir(Some("/home/user".to_string()));
    let status_code = change_directory(&mut context, &vec!["~".to_string()]);

    assert_eq!(status_code, StatusCode::success());
}

#[test]
fn test_command_change_directory_success_3() {
    let mut context = fresh_context();
    context.reply = Reply::ResolvedDir(Some("/home/user".to_string()));
    change_directory(&mut context, &vec!["~".to_string()]);
    context.reply = Reply::ResolvedDir(Some("/home/user/Documents".to_string()));
    let status_code = change_directory(&mut context, &vec!["Documents".to_string()]);

    assert_eq!(status_code, StatusCode::success());
}

#[test]
fn test_command_change_directory_fail() {
    let mut context = fresh_context();
    context.reply = Reply::ResolvedDir(None);
    let status_code = change_directory(&mut context, &vec!["/invalid/path".to_string()]);

    assert_eq!(status_code, StatusCode::new(2));
}

#[test]
fn test_command_list_directory_success() {
    let mut context = fresh_context();
    context.reply = Reply::Directory(Listing::Entries(Vec::new()));
    let status_code = list_directory(&mut context, &Vec::new());

    assert_eq!(status_code, StatusCode::success());
}

#[test]
fn test_command_list_directory_fail() {
    let mut context = fresh_context();
    context.reply = Reply::Directory(Listing::PathInvalid);
    let status_code = list_directory(&mut context, &vec!["/invalid/path".to_string()]);

    assert_eq!(status_code, StatusCode::new(2));
}

#[test]
fn test_command_go_back_success() {
    let mut context = fresh_context();
    context.env_mut().set_path("/".to_string());
    context.reply = Reply::ResolvedDir(Some("/home/user".to_string()));
    let status_code = go_back(&mut context, &Vec::new());

    assert_eq!(status_code, StatusCode::success());
}

#[test]
fn test_command_go_back_fail() {
    let mut context = fresh_context();
    let status_code = go_back(&mut context, &Vec::new());

    assert_eq!(status_code, StatusCode::new(2));
}

#[test]
fn test_command_truncate_success_1() {
    let mut context = fresh_context();
    let status_code = truncate(&mut context, &Vec::new());

    assert_eq!(status_code, StatusCode::success());
}

#[test]
fn test_command_truncate_success_2() {
    let mut context = fresh_context();
    let status_code = truncate(&mut context, &vec!["10".to_string()]);

    assert_eq!(status_code, StatusCode::success());
}

#[test]
fn test_command_truncate_fail() {
    let mut context = fresh_context();
    let status_code = truncate(&mut context, &vec!["-10".to_string()]);

    assert_eq!(status_code, StatusCode::new(2));
}

#[test]
fn change_directory_records_previous_and_asks_for_sync() {
    let mut context = fresh_context();
    context.reply = Reply::ResolvedDir(Some("/".to_string()));
    let status_code = change_directory(&mut context, &vec!["/".to_string()]);

    assert_eq!(status_code, StatusCode::success());
    assert_eq!(context.shell.environment.working_directory.absolute, "/");
    assert_eq!(
        context.shell.environment.previous_working_directory,
        Some("/home/user".to_string())
    );
    assert!(context.env_sync_requested);
}

#[test]
fn change_directory_failure_message_quotes_the_argument() {
    let mut context = fresh_context();
    context.reply = Reply::ResolvedDir(None);
    change_directory(&mut context, &vec!["/invalid/path".to_string()]);

    assert_eq!(context.errors, vec!["Invalid path: '/invalid/path'".to_string()]);
}

#[test]
fn go_back_with_invalid_previous_returns_three() {
    let mut context = fresh_context();
    context.env_mut().set_path("/".to_string());
    context.reply = Reply::ResolvedDir(None);
    let status_code = go_back(&mut context, &Vec::new());

    assert_eq!(status_code, StatusCode::new(3));
    assert_eq!(context.errors, vec!["Invalid path: '/home/user'".to_string()]);
}

#[test]
fn go_back_without_history_reports_it() {
    let mut context = fresh_context();
    go_back(&mut context, &Vec::new());

    assert_eq!(
        context.errors,
        vec!["No previous working directory available".to_string()]
    );
}

#[test]
fn truncate_with_plus_sign_is_accepted() {
    let mut context = fresh_context();
    let status_code = truncate(&mut context, &vec!["+7".to_string()]);

    assert_eq!(status_code, StatusCode::success());
    assert_eq!(
        context.shell.environment.working_directory.truncation,
        Some(7)
    );
}

#[test]
fn truncate_rejects_text() {
    let mut context = fresh_context();
    let status_code = truncate(&mut context, &vec!["abc".to_string()]);

    assert_eq!(status_code, StatusCode::new(2));
    assert_eq!(
        context.errors,
        vec!["Invalid truncation length: 'abc'".to_string()]
    );
}

#[test]
fn truncate_rejects_empty_and_huge_numerals() {
    let mut context = fresh_context();
    assert_eq!(
        truncate(&mut context, &vec!["".to_string()]),
        StatusCode::new(2)
    );
    assert_eq!(
        truncate(&mut context, &vec!["99999999999999999999999999".to_string()]),
        StatusCode::new(2)
    );
}

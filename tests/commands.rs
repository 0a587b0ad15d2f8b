use trust::cli::{resolve_root, route_cd, Args, CdRoute, Command, ExecCommand, TryArgs, TryError};
use trust::order::sort_newest_first;
use trust::paths::{cd_command, clone_script, join_path, worktree_script};
use trust::shell::{init_root, Shell};
use trust::workspace::{git_clone_args, git_worktree_args, RunContext};
use trust::date::CalendarDate;

fn words(ws: &[&str]) -> Vec<String> {
    ws.iter().map(|s| s.to_string()).collect()
}

fn try_args(command: Option<Command>, query: Vec<String>) -> TryArgs {
    TryArgs {
        command,
        path: None,
        no_colors: false,
        and_exit: false,
        and_keys: None,
        no_expand_tokens: false,
        query,
    }
}

#[test]
fn free_words_become_a_cd_query() {
    let args = Args { command: None, path: None, query: words(&["my", "project"]) };
    assert_eq!(args.resolve_command(), Command::Cd { query: Some("my project".to_string()) });
    let none = Args { command: None, path: None, query: Vec::new() };
    assert_eq!(none.resolve_command(), Command::Cd { query: None });
}

#[test]
fn subcommand_wins_over_words() {
    let args = Args {
        command: Some(Command::Worktree { name: "x".to_string() }),
        path: None,
        query: words(&["y"]),
    };
    assert_eq!(args.resolve_command(), Command::Worktree { name: "x".to_string() });
    let exec = Command::Exec { exec_command: ExecCommand::Clone { url: "u".to_string(), name: None } };
    let t = try_args(Some(exec), Vec::new());
    assert_eq!(
        t.resolve_command(),
        Command::Exec { exec_command: ExecCommand::Clone { url: "u".to_string(), name: None } }
    );
}

#[test]
fn url_words_become_a_clone() {
    let t = try_args(None, words(&["https://github.com/acme/widgets.git"]));
    assert_eq!(
        t.resolve_command(),
        Command::Clone { url: "https://github.com/acme/widgets.git".to_string(), name: None }
    );
    let p = try_args(None, words(&["2024-plan"]));
    assert_eq!(p.resolve_command(), Command::Cd { query: Some("2024-plan".to_string()) });
}

#[test]
fn cd_routes_urls_to_clone() {
    assert_eq!(
        route_cd(Some("git@github.com:acme/widgets.git".to_string())),
        CdRoute::Clone { url: "git@github.com:acme/widgets.git".to_string() }
    );
    assert_eq!(
        route_cd(Some("my-project".to_string())),
        CdRoute::Pick { query: Some("my-project".to_string()) }
    );
    assert_eq!(route_cd(None), CdRoute::Pick { query: None });
}

#[test]
fn root_comes_from_flag_then_env_then_home() {
    let s = |x: &str| Some(x.to_string());
    assert_eq!(resolve_root(s("/f"), s("/e"), s("/h")), Ok("/f".to_string()));
    assert_eq!(resolve_root(None, s("/e"), s("/h")), Ok("/e".to_string()));
    assert_eq!(resolve_root(None, None, s("/h")), Ok("/h/src/tries".to_string()));
    assert_eq!(resolve_root(None, None, s("/h/")), Ok("/h/src/tries".to_string()));
    assert!(matches!(resolve_root(None, None, None), Err(TryError::InvalidInput(_))));
    let args = Args { command: None, path: s("/p"), query: Vec::new() };
    assert_eq!(args.root_path(None, None), Ok("/p".to_string()));
}

#[test]
fn paths_and_cd_lines() {
    assert_eq!(join_path("/w", "a"), "/w/a");
    assert_eq!(join_path("/w/", "a"), "/w/a");
    assert_eq!(join_path("", "a"), "a");
    assert_eq!(cd_command("/w/a"), "cd '/w/a'");
}

#[test]
fn scripts_chain_git_and_cd() {
    assert_eq!(
        clone_script("u", "/w/a"),
        "# if you can read this, you didn't launch try from an alias. run try --help.\n\
         git clone 'u' '/w/a' && \\\n  cd '/w/a'"
    );
    assert_eq!(
        worktree_script("/w/a"),
        "# if you can read this, you didn't launch try from an alias. run try --help.\n\
         git worktree add '/w/a' && \\\n  cd '/w/a'"
    );
}

#[test]
fn targets_are_dated_under_root() {
    let ctx = RunContext { root: "/w".to_string() };
    let d = CalendarDate::new(2024, 3, 5).unwrap();
    assert_eq!(ctx.clone_target(&d, "https://github.com/acme/widgets.git", None), "/w/2024-03-05-acme-widgets");
    assert_eq!(ctx.clone_target(&d, "u", Some("mine".to_string())), "/w/2024-03-05-mine");
    assert_eq!(ctx.worktree_target(&d, Some("feat".to_string())), Ok("/w/2024-03-05-feat".to_string()));
    assert!(matches!(ctx.worktree_target(&d, Some(String::new())), Err(TryError::InvalidInput(_))));
    assert!(matches!(ctx.worktree_target(&d, None), Err(TryError::InvalidInput(_))));
    assert_eq!(ctx.target_path("x"), "/w/x");
}

#[test]
fn error_messages() {
    assert_eq!(TryError::AlreadyExists("/w/a".to_string()).message(), "Directory already exists: /w/a");
    assert_eq!(TryError::NotAGitRepo.message(), "Not in a git repository");
    assert_eq!(TryError::InvalidInput("Name required for worktree".to_string()).message(), "Name required for worktree");
    assert_eq!(TryError::Git("git clone failed".to_string()).message(), "git clone failed");
    assert_eq!(TryError::Io("disk".to_string()).message(), "disk");
    assert_eq!(TryError::Cancelled.message(), "Cancelled");
}

#[test]
fn git_arguments_and_outcomes() {
    assert_eq!(git_clone_args("u", "/w/a"), vec!["clone", "u", "/w/a"]);
    assert_eq!(git_worktree_args("/w/a"), vec!["worktree", "add", "/w/a"]);
}

#[test]
fn shells_are_detected_by_program_name() {
    let s = |x: &str| Some(x.to_string());
    assert_eq!(Shell::detect(s("/usr/bin/fish")), Ok(Shell::Fish));
    assert_eq!(Shell::detect(s("/bin/zsh")), Ok(Shell::Zsh));
    assert_eq!(Shell::detect(s("/bin/bash")), Ok(Shell::Bash));
    assert_eq!(Shell::detect(s("/bin/tcsh")), Ok(Shell::Bash));
    assert_eq!(Shell::detect(s("")), Ok(Shell::Bash));
    assert!(matches!(Shell::detect(None), Err(TryError::InvalidInput(_))));
}

#[test]
fn shell_functions_embed_root_and_program() {
    let bash = Shell::Bash.function("/r", "/bin/try");
    assert_eq!(
        bash,
        "try() {\n    local output\n    export TRY_PATH=\"/r\"\n    output=$(\"/bin/try\" \"$@\")\n    if [ -n \"$output\" ]; then\n        eval \"$output\"\n    fi\n}"
    );
    assert_eq!(Shell::Zsh.function("/r", "/bin/try"), bash);
    assert_eq!(
        Shell::Fish.function("/r", "/bin/try"),
        "function try\n    set -x TRY_PATH \"/r\"\n    set output (/bin/try $argv)\n    if [ -n \"$output\" ]\n        eval $output\n    end\nend"
    );
}

#[test]
fn init_root_needs_a_path() {
    assert_eq!(init_root(Some("/a".to_string()), Some("/b".to_string())), Ok("/a".to_string()));
    assert_eq!(init_root(None, Some("/b".to_string())), Ok("/b".to_string()));
    assert!(matches!(init_root(None, None), Err(TryError::InvalidInput(_))));
}

#[test]
fn names_sort_newest_first() {
    let sorted = sort_newest_first(&words(&["2023-12-31-z", "2024-01-02-a", "2024-01-02", "2024-01-10-b"]));
    assert_eq!(sorted, words(&["2024-01-10-b", "2024-01-02-a", "2024-01-02", "2023-12-31-z"]));
    assert!(sort_newest_first(&Vec::new()).is_empty());
}

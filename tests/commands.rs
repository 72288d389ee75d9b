use lazyjj::{Bookmark, CommandError, Commander, CommitId, RunOutcome};

type Runner = Box<dyn Fn(&Vec<String>) -> RunOutcome>;

const ID: &str = "0123456789abcdef0123456789abcdef01234567";

/// A commander whose runner always answers with the same outcome.
fn answering(status: Option<i32>, stdout: &str, stderr: &str) -> Commander<Runner> {
    let (stdout, stderr) = (stdout.to_owned(), stderr.to_owned());
    let runner: Runner = Box::new(move |_args: &Vec<String>| RunOutcome::Exited {
        status,
        stdout: stdout.clone(),
        stderr: stderr.clone(),
    });
    Commander::new(runner)
}

fn succeeding() -> Commander<Runner> {
    answering(Some(0), "", "")
}

fn last_args(commander: &Commander<Runner>) -> Vec<String> {
    commander.command_history.last().unwrap().args.clone()
}

fn commit() -> CommitId {
    CommitId::parse(ID).ok().unwrap()
}

#[test]
fn push_all_bookmarks_has_no_revision_selector() {
    for allow_new in [false, true] {
        let mut c = succeeding();
        c.git_push(true, allow_new, &commit()).unwrap();
        let args = last_args(&c);
        assert!(!args.iter().any(|a| a == "-r"));
        assert!(!args.iter().any(|a| a == ID));
        assert_eq!(args.iter().any(|a| a == "--allow-new"), allow_new);
    }
}

#[test]
fn push_one_commit_selects_it_once() {
    for allow_new in [false, true] {
        let mut c = succeeding();
        c.git_push(false, allow_new, &commit()).unwrap();
        let args = last_args(&c);
        assert_eq!(args.iter().filter(|a| *a == "-r").count(), 1);
        let i = args.iter().position(|a| a == "-r").unwrap();
        assert_eq!(args[i + 1], ID);
        assert_eq!(args.iter().any(|a| a == "--allow-new"), allow_new);
    }
}

#[test]
fn push_exact_arguments() {
    let mut c = succeeding();
    c.git_push(false, true, &commit()).unwrap();
    assert_eq!(last_args(&c), vec!["git", "push", "--allow-new", "-r", ID]);
    c.git_push(true, false, &commit()).unwrap();
    assert_eq!(last_args(&c), vec!["git", "push", "--all"]);
}

#[test]
fn push_merges_both_streams() {
    let mut c = answering(Some(0), "out\n", "Pushed bookmark main\n");
    let text = c.git_push(true, false, &commit()).unwrap();
    assert_eq!(text, "out\nPushed bookmark main");
}

#[test]
fn fetch_arguments() {
    let mut c = succeeding();
    c.git_fetch(false).unwrap();
    assert_eq!(last_args(&c), vec!["git", "fetch"]);
    c.git_fetch(true).unwrap();
    assert_eq!(last_args(&c), vec!["git", "fetch", "--all-remotes"]);
    assert_eq!(c.command_history.len(), 2);
}

#[test]
fn failure_keeps_stderr_verbatim() {
    let stderr = "Error: first line\n  second line\n\n";
    let mut c = answering(Some(1), "ignored", stderr);
    match c.delete_bookmark("main") {
        Err(CommandError::Status { status, stderr: got }) => {
            assert_eq!(status, Some(1));
            assert_eq!(got, stderr);
        }
        _ => panic!("expected a status error"),
    }
    match c.git_push(true, false, &commit()) {
        Err(CommandError::Status { stderr: got, .. }) => assert_eq!(got, stderr),
        _ => panic!("expected a status error"),
    }
    let err = c.run_new("@").err().unwrap();
    assert_eq!(err.context, "Failed executing jj new");
    match err.cause {
        CommandError::Status { stderr: got, .. } => assert_eq!(got, stderr),
        _ => panic!("expected a status error"),
    }
    assert!(!c.command_history.last().unwrap().succeeded());
}

#[test]
fn killed_process_is_a_failure() {
    let mut c = answering(None, "", "killed");
    match c.git_fetch(false) {
        Err(CommandError::Status { status: None, stderr }) => assert_eq!(stderr, "killed"),
        _ => panic!("expected a status error"),
    }
}

#[test]
fn launch_failure_is_reported() {
    let runner: Runner = Box::new(|_args: &Vec<String>| RunOutcome::LaunchFailed {
        message: "No such file or directory".to_owned(),
    });
    let mut c = Commander::new(runner);
    match c.forget_bookmark("main") {
        Err(CommandError::Launch { message }) => assert_eq!(message, "No such file or directory"),
        _ => panic!("expected a launch error"),
    }
    assert_eq!(c.command_history.len(), 1);
}

#[test]
fn edit_and_squash_override_flag() {
    let mut c = succeeding();
    c.run_edit("xyz", false).unwrap();
    assert_eq!(last_args(&c), vec!["edit", "xyz"]);
    c.run_edit("xyz", true).unwrap();
    assert_eq!(last_args(&c), vec!["edit", "xyz", "--ignore-immutable"]);
    c.run_squash("xyz", false).unwrap();
    assert_eq!(last_args(&c), vec!["squash", "-u", "--into", "xyz"]);
    c.run_squash("xyz", true).unwrap();
    assert_eq!(last_args(&c), vec!["squash", "-u", "--into", "xyz", "--ignore-immutable"]);
}

#[test]
fn describe_passes_message_verbatim() {
    let mut c = succeeding();
    c.run_describe("@", "").unwrap();
    assert_eq!(last_args(&c), vec!["describe", "@", "-m", ""]);
    c.run_describe("@", "two\nlines").unwrap();
    assert_eq!(last_args(&c), vec!["describe", "@", "-m", "two\nlines"]);
}

#[test]
fn bookmark_arguments() {
    let mut c = succeeding();
    c.set_bookmark_commit("main", &commit()).unwrap();
    assert_eq!(last_args(&c), vec!["bookmark", "set", "main", "-r", ID, "--allow-backwards"]);
    c.create_bookmark_commit("main", &commit()).unwrap();
    assert_eq!(last_args(&c), vec!["bookmark", "create", "main", "-r", ID]);
    c.rename_bookmark("a", "b").unwrap();
    assert_eq!(last_args(&c), vec!["bookmark", "rename", "a", "b"]);
    c.run_abandon(&commit()).unwrap();
    assert_eq!(last_args(&c), vec!["abandon", ID]);
}

#[test]
fn track_uses_name_at_remote() {
    let mut c = succeeding();
    let remote = Bookmark { name: "main".to_owned(), remote: Some("origin".to_owned()), present: true, timestamp: 0 };
    c.track_bookmark(&remote).unwrap();
    assert_eq!(last_args(&c), vec!["bookmark", "track", "main@origin"]);
    c.untrack_bookmark(&remote).unwrap();
    assert_eq!(last_args(&c), vec!["bookmark", "untrack", "main@origin"]);
    let local = Bookmark { name: "dev".to_owned(), remote: None, present: true, timestamp: 0 };
    assert_eq!(local.to_string(), "dev");
}

#[test]
fn created_bookmark_is_local_and_present() {
    let mut c = succeeding();
    let b = c.create_bookmark("test").unwrap();
    assert_eq!(b.name, "test");
    assert_eq!(b.remote, None);
    assert!(b.present);
    assert!(b.timestamp > 0);
    assert_eq!(last_args(&c), vec!["bookmark", "create", "test"]);
}

#[test]
fn failed_creation_returns_error() {
    let mut c = answering(Some(1), "", "Error: Bookmark already exists\n");
    match c.create_bookmark("test") {
        Err(CommandError::Status { stderr, .. }) => assert_eq!(stderr, "Error: Bookmark already exists\n"),
        _ => panic!("expected a status error"),
    }
}

#[test]
fn commit_id_validation() {
    assert_eq!(commit().as_str(), ID);
    assert_eq!(commit().to_string(), ID);
    assert!(CommitId::parse("").is_err());
    match CommitId::parse("main") {
        Err(CommandError::Parse { text }) => assert_eq!(text, "main"),
        _ => panic!("expected a parse error"),
    }
    assert!(CommitId::parse("ABCDEF").is_err());
    assert!(CommitId::parse("0a9f").is_ok());
}

#[test]
fn resolve_strips_newline_and_validates() {
    let mut c = answering(Some(0), "0a9f\n", "");
    assert_eq!(c.resolve_commit_id("@").ok().unwrap().as_str(), "0a9f");
    assert_eq!(
        last_args(&c),
        vec!["log", "--limit", "1", "--no-graph", "-T", "commit_id", "-r", "@"]
    );
    let mut c = answering(Some(0), "not an id", "");
    match c.get_current_head() {
        Err(CommandError::Parse { text }) => assert_eq!(text, "not an id"),
        _ => panic!("expected a parse error"),
    }
}

#[test]
fn description_strips_one_newline() {
    let mut c = answering(Some(0), "AAA\n\n", "warning\n");
    assert_eq!(c.get_commit_description(&commit()).unwrap(), "AAA\n");
    let mut c = answering(Some(0), "", "");
    assert_eq!(c.get_commit_description(&commit()).unwrap(), "");
}

#[test]
fn history_keeps_every_run_in_order() {
    let mut c = succeeding();
    c.run_new("@").unwrap();
    c.delete_bookmark("x").unwrap();
    c.git_fetch(false).unwrap();
    let firsts: Vec<String> = c.command_history.entries().iter().map(|e| e.args[0].clone()).collect();
    assert_eq!(firsts, vec!["new", "bookmark", "git"]);
    assert!(c.command_history.entries().iter().all(|e| e.succeeded()));
}

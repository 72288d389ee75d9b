use lazyjj::jj::BOOKMARK_TEMPLATE;
use lazyjj::listing::{parse_bookmark_listing, split_text};
use lazyjj::{Bookmark, CommandError, Commander, RunOutcome};

fn bookmark(name: &str, remote: Option<&str>, present: bool) -> Bookmark {
    Bookmark { name: name.to_owned(), remote: remote.map(|r| r.to_owned()), present, timestamp: 7 }
}

#[test]
fn split_keeps_empty_pieces() {
    assert_eq!(split_text("", '\t'), vec![""]);
    assert_eq!(split_text("a\t\tb", '\t'), vec!["a", "", "b"]);
    assert_eq!(split_text("a\n", '\n'), vec!["a", ""]);
    assert_eq!(split_text("ä\tü", '\t'), vec!["ä", "ü"]);
}

#[test]
fn listing_of_local_and_remote_bookmarks() {
    let text = "main\t\ttrue\nmain\torigin\ttrue\ngone\torigin\tfalse\n";
    let got = parse_bookmark_listing(text, 7).unwrap();
    assert_eq!(
        got,
        vec![
            bookmark("main", None, true),
            bookmark("main", Some("origin"), true),
            bookmark("gone", Some("origin"), false),
        ]
    );
}

#[test]
fn listing_without_final_newline() {
    let got = parse_bookmark_listing("dev\t\ttrue", 7).unwrap();
    assert_eq!(got, vec![bookmark("dev", None, true)]);
}

#[test]
fn empty_listing() {
    assert_eq!(parse_bookmark_listing("", 7).unwrap(), vec![]);
    assert!(parse_bookmark_listing("\n", 7).is_err());
}

#[test]
fn malformed_listing_is_a_parse_error() {
    for text in ["main\ttrue\n", "main\t\tyes\n", "a\t\ttrue\n\nb\t\ttrue\n", "a\tb\tc\ttrue\n"] {
        match parse_bookmark_listing(text, 0) {
            Err(CommandError::Parse { text: t }) => assert_eq!(t, text),
            other => panic!("expected a parse error, got {other:?}"),
        }
    }
}

#[test]
fn list_arguments_and_result() {
    let runner: Box<dyn Fn(&Vec<String>) -> RunOutcome> = Box::new(|_args: &Vec<String>| RunOutcome::Exited {
        status: Some(0),
        stdout: "x\t\ttrue\n".to_owned(),
        stderr: String::new(),
    });
    let mut c = Commander::new(runner);
    let got = c.get_bookmarks_list(true).unwrap();
    assert_eq!(got.len(), 1);
    assert_eq!(got[0].name, "x");
    assert_eq!(got[0].remote, None);
    assert!(got[0].present);
    assert_eq!(
        c.command_history.last().unwrap().args,
        vec!["bookmark", "list", "--all-remotes", "-T", BOOKMARK_TEMPLATE]
    );
}

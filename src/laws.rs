//! Laws that relate the commander's methods to what they hand the tool and
//! what they report back.
use vstd::prelude::*;

use crate::commander::{text_result, void_result, Commander};
use crate::entities::{is_commit_id_text, Bookmark};
use crate::jj::{
    context_result, create_bookmark_commit_args, created_bookmark, describe_args, git_push_args,
    new_args, set_bookmark_commit_args,
};
use crate::outcome::{CommandError, ContextError, RunOutcome};

verus! {

/// Creating a revision records an invocation whose first argument is the
/// subcommand `new`.
pub proof fn lemma_new_records_subcommand<R: Fn(&Vec<String>) -> RunOutcome>(
    pre: Commander<R>,
    post: Commander<R>,
    revision: Seq<char>,
)
    requires
        Commander::ran(pre, post, new_args(revision)),
    ensures
        post.command_history@.last().spec_args()[0] == "new"@,
        post.command_history@.last().spec_args()[1] == revision,
{
}

/// Describing a revision hands the tool the message as one argument of its
/// own, unchanged, whatever it holds (the empty message included).
pub proof fn lemma_describe_passes_message(revision: Seq<char>, message: Seq<char>)
    ensures
        describe_args(revision, message).len() == 4,
        describe_args(revision, message)[1] == revision,
        describe_args(revision, message)[2] == "-m"@,
        describe_args(revision, message)[3] == message,
{
}

/// A bookmark created by the commander is local and resolves, and carries
/// the requested name.
pub proof fn lemma_created_bookmark_is_local(
    o: RunOutcome,
    name: Seq<char>,
    r: Result<Bookmark, CommandError>,
)
    requires
        created_bookmark(o, name, r),
        o.spec_succeeded(),
    ensures
        r matches Ok(b) && b.name@ == name && b.remote is None && b.present,
{
}

/// Creating a bookmark at a commit selects exactly that commit.
pub proof fn lemma_create_at_selects_commit(name: Seq<char>, commit: Seq<char>)
    ensures
        create_bookmark_commit_args(name, commit)[3] == "-r"@,
        create_bookmark_commit_args(name, commit)[4] == commit,
        create_bookmark_commit_args(name, commit).len() == 5,
{
}

/// Moving a bookmark always selects the target commit and always permits
/// moving it backwards.
pub proof fn lemma_set_bookmark_allows_backwards(name: Seq<char>, commit: Seq<char>)
    ensures
        set_bookmark_commit_args(name, commit)[3] == "-r"@,
        set_bookmark_commit_args(name, commit)[4] == commit,
        set_bookmark_commit_args(name, commit).contains("--allow-backwards"@),
{
    assert(set_bookmark_commit_args(name, commit)[5] == "--allow-backwards"@);
}

/// Pushing all bookmarks passes no revision selector; pushing one commit
/// passes exactly one selector, as the last two arguments, followed by that
/// commit; the flag that allows new remote bookmarks is present exactly when
/// it is asked for.
pub proof fn lemma_push_revision_selector(all_bookmarks: bool, allow_new: bool, commit: Seq<char>)
    requires
        is_commit_id_text(commit),
    ensures
        ({
            let args = git_push_args(all_bookmarks, allow_new, commit);
            &&& all_bookmarks ==> !args.contains("-r"@) && !args.contains(commit)
            &&& !all_bookmarks ==> {
                &&& args.len() >= 2
                &&& args[args.len() - 2] == "-r"@
                &&& args.last() == commit
                &&& forall|j: int|
                    0 <= j < args.len() - 2 ==> #[trigger] args[j] != "-r"@ && args[j] != commit
            }
            &&& allow_new <==> args.contains("--allow-new"@)
        }),
{
    let args = git_push_args(all_bookmarks, allow_new, commit);
    reveal_strlit("git");
    reveal_strlit("push");
    reveal_strlit("--allow-new");
    reveal_strlit("--all");
    reveal_strlit("-r");
    assert(commit != "-r"@ && commit != "--all"@ && commit != "--allow-new"@) by {
        assert("-r"@[0] != commit[0]);
        assert("--all"@[0] != commit[0]);
        assert("--allow-new"@[0] != commit[0]);
    }
    assert("-r"@ != "git"@ && "-r"@ != "push"@ && "-r"@ != "--allow-new"@ && "-r"@ != "--all"@) by {
        assert("-r"@.len() != "git"@.len());
        assert("-r"@.len() != "push"@.len());
        assert("-r"@.len() != "--allow-new"@.len());
        assert("-r"@.len() != "--all"@.len());
    }
    assert("--allow-new"@ != "git"@ && "--allow-new"@ != "push"@ && "--allow-new"@ != "--all"@) by {
        assert("--allow-new"@.len() != "git"@.len());
        assert("--allow-new"@.len() != "push"@.len());
        assert("--allow-new"@.len() != "--all"@.len());
    }
    assert(commit != "git"@ && commit != "push"@) by {
        assert("git"@[0] != commit[0]);
        assert("push"@[0] != commit[0]);
    }
    if allow_new {
        assert(args[2] == "--allow-new"@);
    } else {
        if args.contains("--allow-new"@) {
            let k = choose|k: int| 0 <= k < args.len() && args[k] == "--allow-new"@;
            assert(false);
        }
    }
    if all_bookmarks {
        if args.contains("-r"@) {
            let k = choose|k: int| 0 <= k < args.len() && args[k] == "-r"@;
            assert(false);
        }
        if args.contains(commit) {
            let k = choose|k: int| 0 <= k < args.len() && args[k] == commit;
            assert(false);
        }
    }
}

/// A non-zero exit is reported with the tool's standard error exactly as
/// captured, by commands that return text, by commands that return nothing,
/// and by intents that add context.
pub proof fn lemma_failure_keeps_stderr(
    o: RunOutcome,
    merge: bool,
    text: Result<String, CommandError>,
    void: Result<(), CommandError>,
    context: Seq<char>,
    intent: Result<(), ContextError>,
)
    requires
        o is Exited,
        o->status != Some(0i32),
        text_result(o, merge, text),
        void_result(o, void),
        context_result(o, context, intent),
    ensures
        text matches Err(CommandError::Status { status, stderr }) && status == o->status && stderr
            == o->stderr,
        void matches Err(CommandError::Status { status, stderr }) && status == o->status && stderr
            == o->stderr,
        intent matches Err(e) && e.cause matches CommandError::Status { status, stderr } && status
            == o->status && stderr == o->stderr && e.context@ == context,
{
}

} // verus!

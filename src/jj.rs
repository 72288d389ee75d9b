//! One method per supported intent: each builds the argument vector for the
//! `jj` subcommand, runs it, and reports the outcome.
use vstd::prelude::*;

use crate::commander::{output_text, text_result, void_result, Commander};
use crate::entities::{bookmark_token, is_commit_id_text, Bookmark, CommitId, Head};
use crate::listing::{listing_result, parse_bookmark_listing};
use crate::outcome::{CommandError, ContextError, RunOutcome};

verus! {

/// `flag` when `on` holds, nothing otherwise.
pub open spec fn optional_flag(on: bool, flag: Seq<char>) -> Seq<Seq<char>> {
    if on {
        seq![flag]
    } else {
        Seq::empty()
    }
}

/// `jj new <revision>`
pub open spec fn new_args(revision: Seq<char>) -> Seq<Seq<char>> {
    seq!["new"@, revision]
}

/// `jj edit <revision> [--ignore-immutable]`
pub open spec fn edit_args(revision: Seq<char>, ignore_immutable: bool) -> Seq<Seq<char>> {
    seq!["edit"@, revision] + optional_flag(ignore_immutable, "--ignore-immutable"@)
}

/// `jj abandon <commit>`
pub open spec fn abandon_args(commit: Seq<char>) -> Seq<Seq<char>> {
    seq!["abandon"@, commit]
}

/// `jj describe <revision> -m <message>`
pub open spec fn describe_args(revision: Seq<char>, message: Seq<char>) -> Seq<Seq<char>> {
    seq!["describe"@, revision, "-m"@, message]
}

/// `jj squash -u --into <revision> [--ignore-immutable]`
pub open spec fn squash_args(revision: Seq<char>, ignore_immutable: bool) -> Seq<Seq<char>> {
    seq!["squash"@, "-u"@, "--into"@, revision] + optional_flag(
        ignore_immutable,
        "--ignore-immutable"@,
    )
}

/// `jj bookmark <action> <operands...>`
pub open spec fn bookmark_args(action: Seq<char>, operands: Seq<Seq<char>>) -> Seq<Seq<char>> {
    seq!["bookmark"@, action] + operands
}

/// `jj bookmark create <name>`
pub open spec fn create_bookmark_args(name: Seq<char>) -> Seq<Seq<char>> {
    bookmark_args("create"@, seq![name])
}

/// `jj bookmark create <name> -r <commit>`
pub open spec fn create_bookmark_commit_args(name: Seq<char>, commit: Seq<char>) -> Seq<Seq<char>> {
    bookmark_args("create"@, seq![name, "-r"@, commit])
}

/// `jj bookmark set <name> -r <commit> --allow-backwards`: the move is allowed
/// to go to an ancestor.
pub open spec fn set_bookmark_commit_args(name: Seq<char>, commit: Seq<char>) -> Seq<Seq<char>> {
    bookmark_args("set"@, seq![name, "-r"@, commit, "--allow-backwards"@])
}

/// `jj git push [--allow-new] (--all | -r <commit>)`
pub open spec fn git_push_args(all_bookmarks: bool, allow_new: bool, commit: Seq<char>) -> Seq<
    Seq<char>,
> {
    seq!["git"@, "push"@] + optional_flag(allow_new, "--allow-new"@) + if all_bookmarks {
        seq!["--all"@]
    } else {
        seq!["-r"@, commit]
    }
}

/// `jj git fetch [--all-remotes]`
pub open spec fn git_fetch_args(all_remotes: bool) -> Seq<Seq<char>> {
    seq!["git"@, "fetch"@] + optional_flag(all_remotes, "--all-remotes"@)
}

/// `r` is what an intent reported with `context` gives for outcome `o`.
pub open spec fn context_result(o: RunOutcome, context: Seq<char>, r: Result<(), ContextError>) -> bool {
    if o.spec_succeeded() {
        r is Ok
    } else {
        r matches Err(e) && e.context@ == context && e.cause == o.spec_error()
    }
}

/// `r` is what a bookmark creation named `name` gives for outcome `o`: a
/// local bookmark that resolves, or the run's error.
pub open spec fn created_bookmark(o: RunOutcome, name: Seq<char>, r: Result<Bookmark, CommandError>) -> bool {
    if o.spec_succeeded() {
        r matches Ok(b) && b.name@ == name && b.remote is None && b.present
    } else {
        r == Err::<Bookmark, CommandError>(o.spec_error())
    }
}

/// `jj log --limit 1 --no-graph -T <template> -r <revision>`: the value of
/// one template field for one revision.
pub open spec fn log_field_args(template: Seq<char>, revision: Seq<char>) -> Seq<Seq<char>> {
    seq!["log"@, "--limit"@, "1"@, "--no-graph"@, "-T"@, template, "-r"@, revision]
}

/// Template that prints one bookmark per line: name, remote and presence,
/// separated by tabs.
pub const BOOKMARK_TEMPLATE: &'static str = "name ++ \"\\t\" ++ remote ++ \"\\t\" ++ present ++ \"\\n\"";

/// `jj bookmark list [--all-remotes] -T <template>`
pub open spec fn bookmark_list_args(all_remotes: bool) -> Seq<Seq<char>> {
    seq!["bookmark"@, "list"@] + optional_flag(all_remotes, "--all-remotes"@) + seq![
        "-T"@,
        BOOKMARK_TEMPLATE@,
    ]
}

/// `r` is what listing bookmarks gives for outcome `o`: the bookmarks the
/// listing names, a parse error when it is malformed, or the run's error.
pub open spec fn listed_bookmarks(o: RunOutcome, r: Result<Vec<Bookmark>, CommandError>) -> bool {
    if o.spec_succeeded() {
        listing_result(output_text(o->stdout@, o->stderr@, false), r)
    } else {
        r == Err::<Vec<Bookmark>, CommandError>(o.spec_error())
    }
}

/// `r` is what resolving a revision to its commit identifier gives for
/// outcome `o`: the printed identifier, a parse error when the output is no
/// identifier, or the run's error.
pub open spec fn resolved_commit(o: RunOutcome, r: Result<CommitId, CommandError>) -> bool {
    let printed = output_text(o->stdout@, o->stderr@, false);
    if !o.spec_succeeded() {
        r == Err::<CommitId, CommandError>(o.spec_error())
    } else if is_commit_id_text(printed) {
        r matches Ok(id) && id.spec_text() == printed
    } else {
        r matches Err(e) && e matches CommandError::Parse { text } && text@ == printed
    }
}

/// Relies on chrono's `Utc::now` and `DateTime::timestamp`: the current
/// time in whole seconds since the Unix epoch. Nothing is claimed of the value.
#[verifier::external_body]
fn now_timestamp() -> i64 {
    chrono::Utc::now().timestamp()
}

fn text(s: &str) -> (r: String)
    ensures
        r@ == s@,
{
    String::from_str(s)
}

fn with_context(r: Result<(), CommandError>, context: &str) -> (out: Result<(), ContextError>)
    ensures
        r is Ok ==> out is Ok,
        r matches Err(e) ==> (out matches Err(c) && c.context@ == context@ && c.cause == e),
{
    match r {
        Ok(()) => Ok(()),
        Err(e) => Err(ContextError::new(context, e)),
    }
}

fn local_bookmark(r: Result<(), CommandError>, name: &str) -> (out: Result<Bookmark, CommandError>)
    ensures
        r is Ok ==> (out matches Ok(b) && b.name@ == name@ && b.remote is None && b.present),
        r matches Err(e) ==> out == Err::<Bookmark, CommandError>(e),
{
    match r {
        Ok(()) => Ok(Bookmark { name: text(name), remote: None, present: true, timestamp: now_timestamp() }),
        Err(e) => Err(e),
    }
}

impl<R: Fn(&Vec<String>) -> RunOutcome> Commander<R> {
    /// Create a new change after `revision`.
    pub fn run_new(&mut self, revision: &str) -> (r: Result<(), ContextError>)
        requires
            old(self).wf(),
        ensures
            final(self).wf(),
            Self::ran(*old(self), *final(self), new_args(revision@)),
            context_result(final(self).last_outcome(), "Failed executing jj new"@, r),
    {
        let args = vec![text("new"), text(revision)];
        assert(args.deep_view() =~= new_args(revision@));
        with_context(self.execute_void_jj_command(args), "Failed executing jj new")
    }

    /// Make `revision` the working-copy change; `ignore_immutable` permits
    /// editing a protected revision.
    pub fn run_edit(&mut self, revision: &str, ignore_immutable: bool) -> (r: Result<(), ContextError>)
        requires
            old(self).wf(),
        ensures
            final(self).wf(),
            Self::ran(*old(self), *final(self), edit_args(revision@, ignore_immutable)),
            context_result(final(self).last_outcome(), "Failed executing jj edit"@, r),
    {
        let mut args = vec![text("edit"), text(revision)];
        if ignore_immutable {
            args.push(text("--ignore-immutable"));
        }
        assert(args.deep_view() =~= edit_args(revision@, ignore_immutable));
        with_context(self.execute_void_jj_command(args), "Failed executing jj edit")
    }

    /// Abandon the change at `commit_id`.
    pub fn run_abandon(&mut self, commit_id: &CommitId) -> (r: Result<(), ContextError>)
        requires
            old(self).wf(),
        ensures
            final(self).wf(),
            Self::ran(*old(self), *final(self), abandon_args(commit_id.spec_text())),
            context_result(final(self).last_outcome(), "Failed executing jj abandon"@, r),
    {
        let args = vec![text("abandon"), text(commit_id.as_str())];
        assert(args.deep_view() =~= abandon_args(commit_id.spec_text()));
        with_context(self.execute_void_jj_command(args), "Failed executing jj abandon")
    }

    /// Set the description of `revision` to `message`.
    pub fn run_describe(&mut self, revision: &str, message: &str) -> (r: Result<(), ContextError>)
        requires
            old(self).wf(),
        ensures
            final(self).wf(),
            Self::ran(*old(self), *final(self), describe_args(revision@, message@)),
            context_result(final(self).last_outcome(), "Failed executing jj describe"@, r),
    {
        let args = vec![text("describe"), text(revision), text("-m"), text(message)];
        assert(args.deep_view() =~= describe_args(revision@, message@));
        with_context(self.execute_void_jj_command(args), "Failed executing jj describe")
    }

    /// Squash the working-copy changes into `revision`; `ignore_immutable`
    /// permits squashing into a protected revision.
    pub fn run_squash(&mut self, revision: &str, ignore_immutable: bool) -> (r: Result<(), ContextError>)
        requires
            old(self).wf(),
        ensures
            final(self).wf(),
            Self::ran(*old(self), *final(self), squash_args(revision@, ignore_immutable)),
            context_result(final(self).last_outcome(), "Failed executing jj squash"@, r),
    {
        let mut args = vec![text("squash"), text("-u"), text("--into"), text(revision)];
        if ignore_immutable {
            args.push(text("--ignore-immutable"));
        }
        assert(args.deep_view() =~= squash_args(revision@, ignore_immutable));
        with_context(self.execute_void_jj_command(args), "Failed executing jj squash")
    }

    /// Create a local bookmark `name` at the working-copy change. The result
    /// is the bookmark as it stands at the moment of creation.
    pub fn create_bookmark(&mut self, name: &str) -> (r: Result<Bookmark, CommandError>)
        requires
            old(self).wf(),
        ensures
            final(self).wf(),
            Self::ran(*old(self), *final(self), create_bookmark_args(name@)),
            created_bookmark(final(self).last_outcome(), name@, r),
    {
        let args = vec![text("bookmark"), text("create"), text(name)];
        assert(args.deep_view() =~= create_bookmark_args(name@));
        local_bookmark(self.execute_void_jj_command(args), name)
    }

    /// Create a local bookmark `name` at `commit_id`. The result is the
    /// bookmark as it stands at the moment of creation.
    pub fn create_bookmark_commit(&mut self, name: &str, commit_id: &CommitId) -> (r: Result<
        Bookmark,
        CommandError,
    >)
        requires
            old(self).wf(),
        ensures
            final(self).wf(),
            Self::ran(
                *old(self),
                *final(self),
                create_bookmark_commit_args(name@, commit_id.spec_text()),
            ),
            created_bookmark(final(self).last_outcome(), name@, r),
    {
        let args = vec![text("bookmark"), text("create"), text(name), text("-r"), text(commit_id.as_str())];
        assert(args.deep_view() =~= create_bookmark_commit_args(name@, commit_id.spec_text()));
        local_bookmark(self.execute_void_jj_command(args), name)
    }

    /// Point bookmark `name` at `commit_id`, also when that moves it backwards.
    pub fn set_bookmark_commit(&mut self, name: &str, commit_id: &CommitId) -> (r: Result<
        (),
        CommandError,
    >)
        requires
            old(self).wf(),
        ensures
            final(self).wf(),
            Self::ran(*old(self), *final(self), set_bookmark_commit_args(name@, commit_id.spec_text())),
            void_result(final(self).last_outcome(), r),
    {
        let args = vec![
            text("bookmark"),
            text("set"),
            text(name),
            text("-r"),
            text(commit_id.as_str()),
            text("--allow-backwards"),
        ];
        assert(args.deep_view() =~= set_bookmark_commit_args(name@, commit_id.spec_text()));
        self.execute_void_jj_command(args)
    }

    /// Run `jj bookmark <action> <operand>`.
    fn bookmark_command(&mut self, action: &str, operand: &str) -> (r: Result<(), CommandError>)
        requires
            old(self).wf(),
        ensures
            final(self).wf(),
            Self::ran(*old(self), *final(self), bookmark_args(action@, seq![operand@])),
            void_result(final(self).last_outcome(), r),
    {
        let args = vec![text("bookmark"), text(action), text(operand)];
        assert(args.deep_view() =~= bookmark_args(action@, seq![operand@]));
        self.execute_void_jj_command(args)
    }

    /// Rename bookmark `old_name` to `new_name`.
    pub fn rename_bookmark(&mut self, old_name: &str, new_name: &str) -> (r: Result<(), CommandError>)
        requires
            old(self).wf(),
        ensures
            final(self).wf(),
            Self::ran(*old(self), *final(self), bookmark_args("rename"@, seq![old_name@, new_name@])),
            void_result(final(self).last_outcome(), r),
    {
        let args = vec![text("bookmark"), text("rename"), text(old_name), text(new_name)];
        assert(args.deep_view() =~= bookmark_args("rename"@, seq![old_name@, new_name@]));
        self.execute_void_jj_command(args)
    }

    /// Delete bookmark `name`, leaving a tombstone that propagates on push.
    pub fn delete_bookmark(&mut self, name: &str) -> (r: Result<(), CommandError>)
        requires
            old(self).wf(),
        ensures
            final(self).wf(),
            Self::ran(*old(self), *final(self), bookmark_args("delete"@, seq![name@])),
            void_result(final(self).last_outcome(), r),
    {
        self.bookmark_command("delete", name)
    }

    /// Forget bookmark `name`: drop all local knowledge of it, with no tombstone.
    pub fn forget_bookmark(&mut self, name: &str) -> (r: Result<(), CommandError>)
        requires
            old(self).wf(),
        ensures
            final(self).wf(),
            Self::ran(*old(self), *final(self), bookmark_args("forget"@, seq![name@])),
            void_result(final(self).last_outcome(), r),
    {
        self.bookmark_command("forget", name)
    }

    /// Start tracking the remote bookmark `bookmark`.
    pub fn track_bookmark(&mut self, bookmark: &Bookmark) -> (r: Result<(), CommandError>)
        requires
            old(self).wf(),
        ensures
            final(self).wf(),
            Self::ran(
                *old(self),
                *final(self),
                bookmark_args("track"@, seq![bookmark_token(bookmark.name@, bookmark.spec_remote())]),
            ),
            void_result(final(self).last_outcome(), r),
    {
        let token = bookmark.to_string();
        self.bookmark_command("track", token.as_str())
    }

    /// Stop tracking the remote bookmark `bookmark`.
    pub fn untrack_bookmark(&mut self, bookmark: &Bookmark) -> (r: Result<(), CommandError>)
        requires
            old(self).wf(),
        ensures
            final(self).wf(),
            Self::ran(
                *old(self),
                *final(self),
                bookmark_args("untrack"@, seq![bookmark_token(bookmark.name@, bookmark.spec_remote())]),
            ),
            void_result(final(self).last_outcome(), r),
    {
        let token = bookmark.to_string();
        self.bookmark_command("untrack", token.as_str())
    }

    /// Push to the git remote: every bookmark when `all_bookmarks` is set,
    /// else the bookmarks at `commit_id`; `allow_new` lets the push create
    /// bookmarks on the remote. Returns the tool's report, both streams.
    pub fn git_push(&mut self, all_bookmarks: bool, allow_new: bool, commit_id: &CommitId) -> (r:
        Result<String, CommandError>)
        requires
            old(self).wf(),
        ensures
            final(self).wf(),
            Self::ran(
                *old(self),
                *final(self),
                git_push_args(all_bookmarks, allow_new, commit_id.spec_text()),
            ),
            text_result(final(self).last_outcome(), true, r),
    {
        let mut args = vec![text("git"), text("push")];
        if allow_new {
            args.push(text("--allow-new"));
        }
        if all_bookmarks {
            args.push(text("--all"));
        } else {
            args.push(text("-r"));
            args.push(text(commit_id.as_str()));
        }
        assert(args.deep_view() =~= git_push_args(all_bookmarks, allow_new, commit_id.spec_text()));
        self.execute_jj_command(args, true)
    }

    /// Fetch from the default git remote, or from all of them when
    /// `all_remotes` is set. Returns the tool's report, both streams.
    pub fn git_fetch(&mut self, all_remotes: bool) -> (r: Result<String, CommandError>)
        requires
            old(self).wf(),
        ensures
            final(self).wf(),
            Self::ran(*old(self), *final(self), git_fetch_args(all_remotes)),
            text_result(final(self).last_outcome(), true, r),
    {
        let mut args = vec![text("git"), text("fetch")];
        if all_remotes {
            args.push(text("--all-remotes"));
        }
        assert(args.deep_view() =~= git_fetch_args(all_remotes));
        self.execute_jj_command(args, true)
    }

    /// Resolve `revision` to the identifier of the commit it names.
    pub fn resolve_commit_id(&mut self, revision: &str) -> (r: Result<CommitId, CommandError>)
        requires
            old(self).wf(),
        ensures
            final(self).wf(),
            Self::ran(*old(self), *final(self), log_field_args("commit_id"@, revision@)),
            resolved_commit(final(self).last_outcome(), r),
    {
        let args = vec![
            text("log"),
            text("--limit"),
            text("1"),
            text("--no-graph"),
            text("-T"),
            text("commit_id"),
            text("-r"),
            text(revision),
        ];
        assert(args.deep_view() =~= log_field_args("commit_id"@, revision@));
        match self.execute_jj_command(args, false) {
            Ok(printed) => CommitId::parse(printed.as_str()),
            Err(e) => Err(e),
        }
    }

    /// The commit currently checked out.
    pub fn get_current_head(&mut self) -> (r: Result<Head, CommandError>)
        requires
            old(self).wf(),
        ensures
            final(self).wf(),
            Self::ran(*old(self), *final(self), log_field_args("commit_id"@, "@"@)),
            r matches Ok(h) ==> resolved_commit(final(self).last_outcome(), Ok(h.commit_id)),
            r matches Err(e) ==> resolved_commit(final(self).last_outcome(), Err(e)),
    {
        match self.resolve_commit_id("@") {
            Ok(commit_id) => Ok(Head { commit_id }),
            Err(e) => Err(e),
        }
    }

    /// The description of the commit `commit_id`, without its trailing newline.
    pub fn get_commit_description(&mut self, commit_id: &CommitId) -> (r: Result<String, CommandError>)
        requires
            old(self).wf(),
        ensures
            final(self).wf(),
            Self::ran(*old(self), *final(self), log_field_args("description"@, commit_id.spec_text())),
            text_result(final(self).last_outcome(), false, r),
    {
        let args = vec![
            text("log"),
            text("--limit"),
            text("1"),
            text("--no-graph"),
            text("-T"),
            text("description"),
            text("-r"),
            text(commit_id.as_str()),
        ];
        assert(args.deep_view() =~= log_field_args("description"@, commit_id.spec_text()));
        self.execute_jj_command(args, false)
    }

    /// The bookmarks of the repository: the local ones, and those of every
    /// remote when `all_remotes` is set.
    pub fn get_bookmarks_list(&mut self, all_remotes: bool) -> (r: Result<Vec<Bookmark>, CommandError>)
        requires
            old(self).wf(),
        ensures
            final(self).wf(),
            Self::ran(*old(self), *final(self), bookmark_list_args(all_remotes)),
            listed_bookmarks(final(self).last_outcome(), r),
    {
        let mut args = vec![text("bookmark"), text("list")];
        if all_remotes {
            args.push(text("--all-remotes"));
        }
        args.push(text("-T"));
        args.push(text(BOOKMARK_TEMPLATE));
        assert(args.deep_view() =~= bookmark_list_args(all_remotes));
        match self.execute_jj_command(args, false) {
            Ok(listing) => parse_bookmark_listing(listing.as_str(), now_timestamp()),
            Err(e) => Err(e),
        }
    }
}

} // verus!

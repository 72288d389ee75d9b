//! Value types for what the external tool reports: commits, heads, bookmarks.
use vstd::prelude::*;

use crate::outcome::CommandError;

verus! {

/// Whether `c` is a digit of a lower-case hexadecimal identifier.
pub open spec fn is_id_digit(c: char) -> bool {
    ('0' <= c && c <= '9') || ('a' <= c && c <= 'f')
}

/// Whether `s` is the text of a commit identifier: lower-case hexadecimal
/// digits, at least one.
pub open spec fn is_commit_id_text(s: Seq<char>) -> bool {
    s.len() > 0 && forall|i: int| 0 <= i < s.len() ==> is_id_digit(#[trigger] s[i])
}

/// Identifier of one revision. It only ever holds validated text.
#[derive(Debug, PartialEq, Eq)]
pub struct CommitId {
    id: String,
}

impl Clone for CommitId {
    fn clone(&self) -> (r: CommitId)
        ensures
            r == *self,
    {
        proof {
            use_type_invariant(self);
        }
        CommitId { id: self.id.clone() }
    }
}

impl CommitId {
    #[verifier::type_invariant]
    spec fn inv(&self) -> bool {
        is_commit_id_text(self.id@)
    }

    /// The identifier's text.
    pub closed spec fn spec_text(&self) -> Seq<char> {
        self.id@
    }

    /// Validate `text` as a commit identifier.
    pub fn parse(text: &str) -> (r: Result<CommitId, CommandError>)
        ensures
            r is Ok <==> is_commit_id_text(text@),
            r matches Ok(id) ==> id.spec_text() == text@,
            r matches Err(e) ==> e matches CommandError::Parse { text: t } && t@ == text@,
    {
        let n = text.unicode_len();
        let mut valid = n > 0;
        let mut i: usize = 0;
        while i < n
            invariant
                n == text@.len(),
                0 <= i <= n,
                valid <==> (n > 0 && forall|j: int| 0 <= j < i ==> is_id_digit(#[trigger] text@[j])),
            decreases n - i,
        {
            let c = text.get_char(i);
            if !(('0' <= c && c <= '9') || ('a' <= c && c <= 'f')) {
                valid = false;
            }
            i = i + 1;
        }
        if valid {
            Ok(CommitId { id: String::from_str(text) })
        } else {
            Err(CommandError::Parse { text: String::from_str(text) })
        }
    }

    /// The identifier's text.
    pub fn as_str(&self) -> (r: &str)
        ensures
            r@ == self.spec_text(),
            is_commit_id_text(r@),
    {
        proof {
            use_type_invariant(self);
        }
        self.id.as_str()
    }

    /// The identifier's text, owned.
    pub fn to_string(&self) -> (r: String)
        ensures
            r@ == self.spec_text(),
    {
        self.id.clone()
    }

    /// Identifiers are equal when their texts are.
    pub fn same_as(&self, other: &CommitId) -> (r: bool)
        ensures
            r == (self.spec_text() == other.spec_text()),
    {
        self.id == other.id
    }
}

/// Snapshot of the checked-out working state.
#[derive(Debug, Clone, PartialEq, Eq)]
pub struct Head {
    pub commit_id: CommitId,
}

/// A named pointer to a commit, local (`remote` absent) or on a remote.
#[derive(Debug, Clone, PartialEq, Eq)]
pub struct Bookmark {
    pub name: String,
    pub remote: Option<String>,
    /// Whether the pointer currently resolves to a commit.
    pub present: bool,
    /// When the bookmark was created or observed, in seconds since the Unix
    /// epoch; for display order only.
    pub timestamp: i64,
}

/// The token that names bookmark `name` on `remote`: `name@remote`, or just
/// `name` for a local bookmark.
pub open spec fn bookmark_token(name: Seq<char>, remote: Option<Seq<char>>) -> Seq<char> {
    match remote {
        Some(r) => name + "@"@ + r,
        None => name,
    }
}

impl Bookmark {
    /// The remote's name, if any, as text.
    pub open spec fn spec_remote(&self) -> Option<Seq<char>> {
        match self.remote {
            Some(r) => Some(r@),
            None => None,
        }
    }

    /// The token that names this bookmark to the tool.
    pub fn to_string(&self) -> (r: String)
        ensures
            r@ == bookmark_token(self.name@, self.spec_remote()),
    {
        let mut s = self.name.clone();
        match &self.remote {
            Some(remote) => {
                s.append("@");
                s.append(remote.as_str());
            },
            None => {},
        }
        s
    }
}

} // verus!

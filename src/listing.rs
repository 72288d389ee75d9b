//! Reading the bookmark listing the tool prints: one bookmark per line, its
//! name, remote (empty for a local bookmark) and presence separated by tabs.
use vstd::prelude::*;

use crate::entities::Bookmark;
use crate::outcome::CommandError;

verus! {

/// The pieces of `s` between occurrences of `sep`, in order; there is always
/// one more piece than there are separators.
pub open spec fn pieces(s: Seq<char>, sep: char) -> Seq<Seq<char>>
    decreases s.len(),
{
    if s.len() == 0 {
        seq![Seq::empty()]
    } else {
        let init = pieces(s.drop_last(), sep);
        if s.last() == sep {
            init.push(Seq::empty())
        } else {
            init.update(init.len() - 1, init.last().push(s.last()))
        }
    }
}

proof fn lemma_pieces_nonempty(s: Seq<char>, sep: char)
    ensures
        pieces(s, sep).len() >= 1,
    decreases s.len(),
{
    if s.len() > 0 {
        lemma_pieces_nonempty(s.drop_last(), sep);
    }
}

/// The lines of a listing: its newline-separated pieces, without the empty
/// piece after a final newline.
pub open spec fn listing_lines(s: Seq<char>) -> Seq<Seq<char>> {
    let ls = pieces(s, '\n');
    if ls.last().len() == 0 {
        ls.drop_last()
    } else {
        ls
    }
}

/// Whether `line` lists a bookmark: three tab-separated fields, the last of
/// which is `true` or `false`.
pub open spec fn is_listed_bookmark(line: Seq<char>) -> bool {
    let f = pieces(line, '\t');
    f.len() == 3 && (f[2] == "true"@ || f[2] == "false"@)
}

/// `b` is the bookmark that `line` lists.
pub open spec fn lists(line: Seq<char>, b: Bookmark) -> bool {
    let f = pieces(line, '\t');
    &&& b.name@ == f[0]
    &&& b.spec_remote() == if f[1].len() == 0 { None } else { Some(f[1]) }
    &&& b.present == (f[2] == "true"@)
}

/// Split `text` at every `sep`.
pub fn split_text(text: &str, sep: char) -> (r: Vec<String>)
    ensures
        r.deep_view() == pieces(text@, sep),
{
    let mut chars: Vec<char> = Vec::new();
    for c in it: text.chars()
        invariant
            chars@ == it.seq().take(it.index() as int),
    {
        chars.push(c);
    }
    proof {
        assert(chars@ =~= text@);
    }
    let n = chars.len();
    let mut out: Vec<String> = Vec::new();
    let mut start: usize = 0;
    let mut i: usize = 0;
    proof {
        assert(text@.take(0) =~= Seq::<char>::empty());
        assert(out.deep_view() =~= Seq::<Seq<char>>::empty());
        assert(out.deep_view().push(text@.subrange(0, 0)) =~= pieces(text@.take(0), sep));
    }
    while i < n
        invariant
            n == chars@.len(),
            chars@ == text@,
            start <= i <= n,
            out.deep_view().push(text@.subrange(start as int, i as int)) == pieces(
                text@.take(i as int),
                sep,
            ),
        decreases n - i,
    {
        let ghost before = out.deep_view();
        let ghost old_start = start;
        proof {
            assert(text@.take(i + 1).drop_last() =~= text@.take(i as int));
            lemma_pieces_nonempty(text@.take(i as int), sep);
        }
        if chars[i] == sep {
            out.push(String::from_str(text.substring_char(start, i)));
            start = i + 1;
            proof {
                assert(out.deep_view() =~= before.push(text@.subrange(old_start as int, i as int)));
                assert(text@.subrange(start as int, i + 1) =~= Seq::<char>::empty());
                assert(out.deep_view().push(text@.subrange(start as int, i + 1)) =~= pieces(text@.take(i + 1), sep));
            }
        } else {
            proof {
                assert(text@.subrange(start as int, i + 1) =~= text@.subrange(start as int, i as int).push(text@[i as int]));
                assert(out.deep_view().push(text@.subrange(start as int, i + 1)) =~= pieces(text@.take(i + 1), sep));
            }
        }
        i = i + 1;
    }
    out.push(String::from_str(text.substring_char(start, n)));
    proof {
        assert(text@.take(n as int) =~= text@);
    }
    out
}

/// `r` is what reading the listing `s` gives: one bookmark per line when
/// every line lists one, else a parse error carrying the listing.
pub open spec fn listing_result(s: Seq<char>, r: Result<Vec<Bookmark>, CommandError>) -> bool {
    let lines = listing_lines(s);
    if forall|i: int| 0 <= i < lines.len() ==> is_listed_bookmark(#[trigger] lines[i]) {
        r matches Ok(v) && v@.len() == lines.len() && forall|i: int|
            0 <= i < lines.len() ==> lists(lines[i], #[trigger] v@[i])
    } else {
        r matches Err(e) && e matches CommandError::Parse { text } && text@ == s
    }
}

/// Read the bookmark listing `text`; each bookmark is stamped with
/// `timestamp`, the time it was observed.
pub fn parse_bookmark_listing(text: &str, timestamp: i64) -> (r: Result<Vec<Bookmark>, CommandError>)
    ensures
        listing_result(text@, r),
        r matches Ok(v) ==> forall|i: int| 0 <= i < v@.len() ==> (#[trigger] v@[i]).timestamp == timestamp,
{
    let lines = split_text(text, '\n');
    proof {
        lemma_pieces_nonempty(text@, '\n');
    }
    let mut m = lines.len();
    if lines[m - 1].as_str().unicode_len() == 0 {
        m = m - 1;
    }
    assert(lines.deep_view().take(m as int) =~= listing_lines(text@));
    let true_text = String::from_str("true");
    let false_text = String::from_str("false");
    let mut out: Vec<Bookmark> = Vec::new();
    let mut k: usize = 0;
    while k < m
        invariant
            m <= lines@.len(),
            lines.deep_view().take(m as int) == listing_lines(text@),
            true_text@ == "true"@,
            false_text@ == "false"@,
            k <= m,
            out@.len() == k,
            forall|i: int| 0 <= i < k ==> is_listed_bookmark(#[trigger] listing_lines(text@)[i]),
            forall|i: int| 0 <= i < k ==> lists(listing_lines(text@)[i], #[trigger] out@[i]),
            forall|i: int| 0 <= i < k ==> (#[trigger] out@[i]).timestamp == timestamp,
        decreases m - k,
    {
        assert(lines[k as int]@ == listing_lines(text@)[k as int]);
        let fields = split_text(lines[k].as_str(), '\t');
        if fields.len() != 3 {
            return Err(CommandError::Parse { text: String::from_str(text) });
        }
        let present = fields[2] == true_text;
        if !present && !(fields[2] == false_text) {
            return Err(CommandError::Parse { text: String::from_str(text) });
        }
        let remote = if fields[1].as_str().unicode_len() == 0 {
            None
        } else {
            Some(fields[1].clone())
        };
        out.push(Bookmark { name: fields[0].clone(), remote, present, timestamp });
        k = k + 1;
    }
    Ok(out)
}


/// Whether `s` can stand as a field of a listing: no tab, no newline.
pub open spec fn is_plain_field(s: Seq<char>) -> bool {
    forall|i: int| 0 <= i < s.len() ==> #[trigger] s[i] != '\t' && s[i] != '\n'
}

/// The listing line for a bookmark `name` on `remote` with presence `present`.
pub open spec fn listed_line(name: Seq<char>, remote: Option<Seq<char>>, present: bool) -> Seq<char> {
    name + seq!['\t'] + match remote {
        Some(r) => r,
        None => Seq::empty(),
    } + seq!['\t'] + if present {
        "true"@
    } else {
        "false"@
    }
}

proof fn lemma_pieces_without_sep(s: Seq<char>, sep: char)
    requires
        forall|i: int| 0 <= i < s.len() ==> s[i] != sep,
    ensures
        pieces(s, sep) == seq![s],
    decreases s.len(),
{
    if s.len() > 0 {
        lemma_pieces_without_sep(s.drop_last(), sep);
        assert(s.drop_last().push(s.last()) =~= s);
        assert(pieces(s, sep) =~= seq![s]);
    } else {
        assert(s =~= Seq::<char>::empty());
    }
}

proof fn lemma_pieces_join(s: Seq<char>, t: Seq<char>, sep: char)
    ensures
        pieces(s.push(sep) + t, sep) == pieces(s, sep) + pieces(t, sep),
    decreases t.len(),
{
    let u = s.push(sep) + t;
    if t.len() == 0 {
        assert(u =~= s.push(sep));
        assert(u.drop_last() =~= s);
        assert(pieces(t, sep) =~= seq![Seq::<char>::empty()]);
        assert(pieces(u, sep) =~= pieces(s, sep) + pieces(t, sep));
    } else {
        lemma_pieces_join(s, t.drop_last(), sep);
        lemma_pieces_nonempty(t.drop_last(), sep);
        assert(u.drop_last() =~= s.push(sep) + t.drop_last());
        assert(u.last() == t.last());
        assert(pieces(u, sep) =~= pieces(s, sep) + pieces(t, sep));
    }
}

/// A bookmark whose name and remote are plain fields, listed on a line of
/// its own, reads back as that bookmark.
pub proof fn lemma_listed_line_reads_back(
    name: Seq<char>,
    remote: Option<Seq<char>>,
    present: bool,
    r: Result<Vec<Bookmark>, CommandError>,
)
    requires
        is_plain_field(name),
        remote matches Some(rem) ==> rem.len() > 0 && is_plain_field(rem),
        listing_result(listed_line(name, remote, present) + seq!['\n'], r),
    ensures
        r matches Ok(v) && v@.len() == 1 && v@[0].name@ == name && v@[0].spec_remote() == remote
            && v@[0].present == present,
{
    reveal_strlit("true");
    reveal_strlit("false");
    let rem = match remote {
        Some(x) => x,
        None => Seq::<char>::empty(),
    };
    let flag = if present { "true"@ } else { "false"@ };
    let line = listed_line(name, remote, present);
    assert(line == name.push('\t') + (rem.push('\t') + flag)) by {
        assert(line =~= name.push('\t') + (rem.push('\t') + flag));
    }
    lemma_pieces_join(name, rem.push('\t') + flag, '\t');
    lemma_pieces_join(rem, flag, '\t');
    lemma_pieces_without_sep(name, '\t');
    lemma_pieces_without_sep(rem, '\t');
    lemma_pieces_without_sep(flag, '\t');
    let f = pieces(line, '\t');
    assert(f =~= seq![name, rem, flag]);
    let text = line + seq!['\n'];
    assert(forall|i: int| 0 <= i < line.len() ==> line[i] != '\n');
    lemma_pieces_without_sep(line, '\n');
    lemma_pieces_join(line, Seq::empty(), '\n');
    assert(text =~= line.push('\n') + Seq::<char>::empty());
    assert(listing_lines(text) =~= seq![line]);
    assert(is_listed_bookmark(listing_lines(text)[0]));
}

} // verus!

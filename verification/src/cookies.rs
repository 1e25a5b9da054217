use crate::text::text_view;
use vstd::prelude::*;

verus! {

/// A cookie header as it is kept in the cookie file: each space becomes a
/// line break, so that every cookie stands on a line of its own.
pub open spec fn header_lines(header: Seq<char>) -> Seq<char> {
    header.map_values(
        |c: char|
            if c == ' ' {
                '\n'
            } else {
                c
            },
    )
}

/// What is written to the cookie file for a cookie header: nothing for an
/// empty header.
pub open spec fn file_content(header: Seq<char>) -> Option<Seq<char>> {
    if header.len() == 0 {
        None
    } else {
        Some(header_lines(header))
    }
}

/// The entries of a cookie text: the runs between its line breaks, in
/// order. A text without line break is one entry, and so is the empty text.
pub open spec fn entries(text: Seq<char>) -> Seq<Seq<char>>
    decreases text.len(),
{
    if text.len() == 0 {
        seq![Seq::empty()]
    } else {
        let before = entries(text.drop_last());
        if text.last() == '\n' {
            before.push(Seq::empty())
        } else {
            before.drop_last().push(before.last().push(text.last()))
        }
    }
}

/// The entries with a line break between each two of them.
pub open spec fn joined(entries: Seq<Seq<char>>) -> Seq<char>
    decreases entries.len(),
{
    if entries.len() == 0 {
        Seq::empty()
    } else if entries.len() == 1 {
        entries[0]
    } else {
        joined(entries.drop_last()) + seq!['\n'] + entries.last()
    }
}

/// Cutting a text into entries loses nothing: there is at least one entry,
/// no entry holds a line break, and the entries joined by line breaks are
/// the text.
pub proof fn lemma_entries_join(text: Seq<char>)
    ensures
        entries(text).len() >= 1,
        joined(entries(text)) == text,
        forall|i: int, j: int|
            0 <= i < entries(text).len() && 0 <= j < entries(text)[i].len() ==> (
            #[trigger] entries(text)[i][j]) != '\n',
    decreases text.len(),
{
    if text.len() > 0 {
        let before = entries(text.drop_last());
        let c = text.last();
        lemma_entries_join(text.drop_last());
        if c == '\n' {
            assert(entries(text).drop_last() =~= before);
        } else {
            let now = before.drop_last().push(before.last().push(c));
            if before.len() > 1 {
                assert(now.drop_last() =~= before.drop_last());
                assert(joined(now) =~= joined(before).push(c));
            }
        }
    }
}

/// Lays a cookie header out for the cookie file. An empty header gives
/// nothing to write.
pub fn cookie_file_content(header: &str) -> (r: Option<String>)
    ensures
        text_view(r) == file_content(header@),
{
    if header.is_empty() {
        return None;
    }
    let mut out = String::new();
    for c in it: header.chars()
        invariant
            it.seq() == header@,
            out@ == header_lines(header@.take(it.index())),
    {
        let written = if c == ' ' {
            '\n'
        } else {
            c
        };
        out.push(written);
    }
    Some(out)
}

/// Cuts a cookie text, as the cookie file holds it, into its entries.
pub fn cookie_entries(text: &str) -> (r: Vec<String>)
    ensures
        r.deep_view() == entries(text@),
{
    let mut out: Vec<String> = Vec::new();
    let mut current = String::new();
    for c in it: text.chars()
        invariant
            it.seq() == text@,
            out.deep_view().push(current@) == entries(text@.take(it.index())),
    {
        proof {
            assert(text@.take(it.index() + 1).drop_last() =~= text@.take(it.index()));
        }
        if c == '\n' {
            out.push(current);
            current = String::new();
        } else {
            current.push(c);
        }
    }
    out.push(current);
    proof {
        assert(text@.take(text@.len() as int) =~= text@);
    }
    out
}

} // verus!

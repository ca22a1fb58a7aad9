//! Rendering a directory search result into the response body.
//!
//! A successful backend operation hands back parsed search entries. The
//! response body is one line per entry: the entry's rendered form followed by
//! a newline, all lines concatenated in entry order. Rendering one entry is
//! delegated to the directory crate's own formatting (its attribute maps have
//! no canonical order, so the rendered text of one entry is not a function of
//! the entry alone); concatenating the lines is this crate's logic and is
//! verified exactly.

use vstd::prelude::*;
use vstd::string::StringExecFns;

verus! {

/// A parsed entry of a directory search result, from the directory crate.
#[verifier::external_type_specification]
#[verifier::external_body]
pub struct ExSearchEntry(ldap3::SearchEntry);

/// The concatenation of the given texts, in order.
pub open spec fn concat_views(parts: Seq<Seq<char>>) -> Seq<char>
    decreases parts.len(),
{
    if parts.len() == 0 {
        Seq::<char>::empty()
    } else {
        concat_views(parts.drop_last()) + parts.last()
    }
}

/// Relies on the `Debug` formatting of `ldap3::SearchEntry`: rendering an
/// entry never fails, and the rendered line is the entry's text followed by
/// the appended newline — so it is never empty and always ends in a newline.
/// Nothing more is claimed: the entry's attribute maps are hash maps, whose
/// iteration order may differ between runs.
#[verifier::external_body]
fn render_entry(entry: &ldap3::SearchEntry) -> (r: String)
    ensures
        r@.len() >= 1,
        r@.last() == '\n',
{
    format!("{:?}\n", entry)
}

/// Concatenate the given texts in order. The result is exactly their
/// concatenation: nothing reordered, dropped, or added.
pub fn concat_strings(parts: &Vec<String>) -> (r: String)
    ensures
        r@ == concat_views(parts@.map_values(|p: String| p@)),
{
    let mut r = String::new();
    let mut i: usize = 0;
    while i < parts.len()
        invariant
            i <= parts@.len(),
            r@ == concat_views(parts@.take(i as int).map_values(|p: String| p@)),
        decreases parts@.len() - i,
    {
        r.append(parts[i].as_str());
        i = i + 1;
        proof {
            let views = parts@.map_values(|p: String| p@);
            assert(views.take(i as int).drop_last() =~= views.take(i - 1));
            assert(parts@.take(i as int).map_values(|p: String| p@) =~= views.take(i as int));
            assert(parts@.take(i - 1).map_values(|p: String| p@) =~= views.take(i - 1));
        }
    }
    proof {
        assert(parts@.take(parts@.len() as int) =~= parts@);
    }
    r
}

/// Every text is non-empty and ends in a newline, so their concatenation
/// holds at least one character per text and, when there are any, ends in a
/// newline.
proof fn lemma_concat_lines(views: Seq<Seq<char>>)
    requires
        forall|i: int| 0 <= i < views.len() ==> views[i].len() >= 1 && views[i].last() == '\n',
    ensures
        concat_views(views).len() >= views.len(),
        views.len() > 0 ==> concat_views(views).last() == '\n',
    decreases views.len(),
{
    if views.len() > 0 {
        lemma_concat_lines(views.drop_last());
    }
}

/// Render a search result: one line per entry, in entry order.
///
/// The body is the exact concatenation of the entries' rendered lines; with
/// no entries it is empty, and otherwise it holds at least one character per
/// entry and ends in a newline.
pub fn render_entries(entries: &Vec<ldap3::SearchEntry>) -> (r: String)
    ensures
        entries@.len() == 0 ==> r@.len() == 0,
        r@.len() >= entries@.len(),
        entries@.len() > 0 ==> r@.last() == '\n',
{
    let mut lines: Vec<String> = Vec::new();
    let mut i: usize = 0;
    while i < entries.len()
        invariant
            i <= entries@.len(),
            lines@.len() == i,
            forall|j: int| 0 <= j < lines@.len() ==> lines@[j]@.len() >= 1 && lines@[j]@.last()
                == '\n',
        decreases entries@.len() - i,
    {
        let line = render_entry(&entries[i]);
        lines.push(line);
        i = i + 1;
    }
    let r = concat_strings(&lines);
    proof {
        let views = lines@.map_values(|p: String| p@);
        assert(forall|j: int|
            0 <= j < views.len() ==> views[j].len() >= 1 && views[j].last() == '\n');
        lemma_concat_lines(views);
    }
    r
}

} // verus!

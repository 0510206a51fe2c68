//! The page that lists a directory: the path it is shown under and one list
//! item for each entry that may be shown.

use crate::percent::{percent_decode, percent_decoded};
use crate::text::{replace_all, replaced};
use vstd::prelude::*;

verus! {

/// One entry of a directory, as the caller read it.
#[derive(Clone, Debug, PartialEq, Eq, Hash)]
pub struct DirEntry {
    pub name: String,
    /// Whether the entry itself is a plain file.
    pub is_file: bool,
    /// Whether the entry itself is a symbolic link.
    pub is_symlink: bool,
}

/// A `DirEntry` as a mathematical value.
pub struct DirEntryView {
    pub name: Seq<char>,
    pub is_file: bool,
    pub is_symlink: bool,
}

impl DeepView for DirEntry {
    type V = DirEntryView;

    open spec fn deep_view(&self) -> DirEntryView {
        DirEntryView { name: self.name@, is_file: self.is_file, is_symlink: self.is_symlink }
    }
}

/// A segment as it is shown: decoded, or as it was sent where it cannot be
/// decoded.
pub open spec fn shown_segment(segment: Seq<char>) -> Seq<char> {
    match percent_decoded(segment) {
        Some(text) => text,
        None => segment,
    }
}

/// The first `n` of `segments` as they are shown, with a slash between each
/// two.
pub open spec fn url_path_upto(segments: Seq<Seq<char>>, n: nat) -> Seq<char>
    decreases n,
{
    if n == 0 {
        Seq::empty()
    } else if n == 1 {
        shown_segment(segments[0])
    } else {
        url_path_upto(segments, (n - 1) as nat) + "/"@ + shown_segment(segments[n - 1])
    }
}

/// The path that a request asked for, as it is shown: its segments decoded,
/// with a slash between each two and none in front.
pub open spec fn url_path_of(segments: Seq<Seq<char>>) -> Seq<char> {
    url_path_upto(segments, segments.len())
}

/// `s` with each pair of slashes, taken from the left, made one slash.
pub open spec fn slashes_collapsed(s: Seq<char>) -> Seq<char> {
    replaced(s, "//"@, "/"@)
}

/// The path that a listing is shown under: the request's path with a slash
/// after it.
pub open spec fn display_path_of(url_path: Seq<char>) -> Seq<char> {
    slashes_collapsed(url_path + "/"@)
}

/// What the link of every entry of a listing starts with: the listing's
/// path with a slash before it.
pub open spec fn href_base_of(display_path: Seq<char>) -> Seq<char> {
    slashes_collapsed("/"@ + display_path)
}

/// Whether an entry is shown in a listing: symbolic links only where they
/// are followed.
pub open spec fn is_visible(entry: DirEntryView, follow_symlinks: bool) -> bool {
    follow_symlinks || !entry.is_symlink
}

/// The name that an entry is shown under: its own, with a slash after it
/// unless it is a plain file.
pub open spec fn shown_name(entry: DirEntryView) -> Seq<char> {
    if entry.is_file {
        entry.name
    } else {
        entry.name + "/"@
    }
}

/// The list item of one entry.
pub open spec fn list_item(href_base: Seq<char>, entry: DirEntryView) -> Seq<char> {
    "<li><a href=\""@ + href_base + shown_name(entry) + "\">"@ + shown_name(entry)
        + "</a></li>\n"@
}

/// The entries that are shown in a listing, in their order.
pub open spec fn visible_entries(entries: Seq<DirEntryView>, follow_symlinks: bool) -> Seq<
    DirEntryView,
> {
    entries.filter(|entry: DirEntryView| is_visible(entry, follow_symlinks))
}

/// The list items of a listing: one for each entry that is shown, in their
/// order, one after the other.
pub open spec fn list_items(
    href_base: Seq<char>,
    entries: Seq<DirEntryView>,
    follow_symlinks: bool,
) -> Seq<char> {
    visible_entries(entries, follow_symlinks).flat_map(
        |entry: DirEntryView| list_item(href_base, entry),
    )
}

/// The listing of a directory without entries holds no item.
pub proof fn empty_listing_has_no_items(href_base: Seq<char>, follow_symlinks: bool)
    ensures
        list_items(href_base, Seq::empty(), follow_symlinks) == Seq::<char>::empty(),
{
    let shown = |entry: DirEntryView| is_visible(entry, follow_symlinks);
    let item = |entry: DirEntryView| list_item(href_base, entry);
    let none = Seq::<DirEntryView>::empty();
    none.lemma_filter_len(shown);
    assert(none.filter(shown) == none);
    assert(none.map_values(item) == Seq::<Seq<char>>::empty());
    assert(none.flat_map(item) == Seq::<char>::empty());
}

/// A listing holds one item for each entry that is shown and nothing for
/// the others: one more entry adds its item at the end where it is shown,
/// and nothing where it is not.
pub proof fn each_shown_entry_adds_its_item(
    href_base: Seq<char>,
    entries: Seq<DirEntryView>,
    entry: DirEntryView,
    follow_symlinks: bool,
)
    ensures
        list_items(href_base, entries.push(entry), follow_symlinks) == list_items(
            href_base,
            entries,
            follow_symlinks,
        ) + if is_visible(entry, follow_symlinks) {
            list_item(href_base, entry)
        } else {
            Seq::empty()
        },
{
    let shown = |entry: DirEntryView| is_visible(entry, follow_symlinks);
    let item = |entry: DirEntryView| list_item(href_base, entry);
    entries.lemma_filter_push(entry, shown);
    entries.filter(shown).lemma_flat_map_push(item, entry);
    assert(list_items(href_base, entries, follow_symlinks) + Seq::<char>::empty() == list_items(
        href_base,
        entries,
        follow_symlinks,
    ));
}

/// The path that a request asked for, as it is shown.
pub fn url_path(segments: &Vec<String>) -> (r: String)
    ensures
        r@ == url_path_of(segments.deep_view()),
{
    let mut out = String::new();
    let mut i: usize = 0;
    while i < segments.len()
        invariant
            i <= segments.len(),
            out@ == url_path_upto(segments.deep_view(), i as nat),
        decreases segments.len() - i,
    {
        if i > 0 {
            out.append("/");
        }
        match percent_decode(segments[i].as_str()) {
            Some(text) => {
                out.append(text.as_str());
            },
            None => {
                out.append(segments[i].as_str());
            },
        }
        proof {
            assert(segments.deep_view()[i as int] == segments[i as int]@);
            if i == 0 {
                assert(Seq::<char>::empty() + shown_segment(segments[0]@) == shown_segment(
                    segments[0]@,
                ));
            }
        }
        i += 1;
    }
    out
}

/// Makes each pair of slashes in `s`, taken from the left, one slash.
pub fn collapse_slashes(s: &str) -> (r: String)
    ensures
        r@ == slashes_collapsed(s@),
{
    replace_all(s, "//", "/")
}

/// The path that a listing is shown under.
pub fn display_path(url_path: &str) -> (r: String)
    ensures
        r@ == display_path_of(url_path@),
{
    let mut with_slash = url_path.to_string();
    with_slash.append("/");
    collapse_slashes(with_slash.as_str())
}

/// What the link of every entry of a listing starts with.
pub fn href_base(display_path: &str) -> (r: String)
    ensures
        r@ == href_base_of(display_path@),
{
    let mut with_slash = "/".to_string();
    with_slash.append(display_path);
    collapse_slashes(with_slash.as_str())
}

/// The list items of the entries that are shown, in their order.
pub fn render_items(href_base: &str, entries: &Vec<DirEntry>, follow_symlinks: bool) -> (r: String)
    ensures
        r@ == list_items(href_base@, entries.deep_view(), follow_symlinks),
{
    let mut out = String::new();
    let mut i: usize = 0;
    let ghost all = entries.deep_view();
    proof {
        assert(all.take(0) == Seq::<DirEntryView>::empty());
        empty_listing_has_no_items(href_base@, follow_symlinks);
    }
    while i < entries.len()
        invariant
            i <= entries.len(),
            all == entries.deep_view(),
            out@ == list_items(href_base@, all.take(i as int), follow_symlinks),
        decreases entries.len() - i,
    {
        let entry = &entries[i];
        let ghost before = out@;
        proof {
            assert(all[i as int] == entry.deep_view());
            assert(all.take(i + 1) == all.take(i as int).push(all[i as int]));
            each_shown_entry_adds_its_item(
                href_base@,
                all.take(i as int),
                all[i as int],
                follow_symlinks,
            );
        }
        if follow_symlinks || !entry.is_symlink {
            let mut name = entry.name.clone();
            if !entry.is_file {
                name.append("/");
            }
            out.append("<li><a href=\"");
            out.append(href_base);
            out.append(name.as_str());
            out.append("\">");
            out.append(name.as_str());
            out.append("</a></li>\n");
            assert(out@ == before + list_item(href_base@, entry.deep_view()));
        } else {
            assert(before + Seq::<char>::empty() == before);
        }
        i += 1;
    }
    assert(all.take(i as int) == all);
    out
}

} // verus!

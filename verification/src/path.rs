//! From the segments of a request's URL path to a path below the hosted
//! directory.
//!
//! The segments are taken in their order, empty ones left out. Each is
//! percent-decoded and added to the path as one more component; one that
//! cannot be decoded adds nothing and marks the whole request as malformed,
//! and the walk goes on. After each segment the path reached so far is looked
//! up among the symbolic links that the caller found: `links[d]` tells
//! whether the hosted directory followed by the first `d` components is one.

use crate::percent::{percent_decode, percent_decoded};
use vstd::prelude::*;

verus! {

/// Where a walk over URL path segments has come to.
pub struct ResolvedPath {
    /// The hosted directory that the walk started from.
    pub root: String,
    /// The components added below `root`, in order.
    pub components: Vec<String>,
    /// Whether the path was a symbolic link after any of the segments.
    pub symlink: bool,
    /// Whether any segment could not be percent-decoded.
    pub url_err: bool,
}

/// What a `ResolvedPath` holds, as mathematical values.
pub struct ResolvedPathView {
    pub root: Seq<char>,
    pub components: Seq<Seq<char>>,
    pub symlink: bool,
    pub url_err: bool,
}

impl View for ResolvedPath {
    type V = ResolvedPathView;

    open spec fn view(&self) -> ResolvedPathView {
        ResolvedPathView {
            root: self.root@,
            components: self.components.deep_view(),
            symlink: self.symlink,
            url_err: self.url_err,
        }
    }
}

/// Whether the caller found a symbolic link at the path of `depth` components.
/// A depth that `links` does not reach counts as no link.
pub open spec fn link_at(links: Seq<bool>, depth: int) -> bool {
    0 <= depth < links.len() && links[depth]
}

/// The walk `w` taken one segment further.
pub open spec fn stepped(
    w: ResolvedPathView,
    segment: Seq<char>,
    links: Seq<bool>,
) -> ResolvedPathView {
    if segment.len() == 0 {
        w
    } else {
        match percent_decoded(segment) {
            Some(name) => ResolvedPathView {
                root: w.root,
                components: w.components.push(name),
                symlink: w.symlink || link_at(links, w.components.len() as int + 1),
                url_err: w.url_err,
            },
            None => ResolvedPathView {
                root: w.root,
                components: w.components,
                symlink: w.symlink || link_at(links, w.components.len() as int),
                url_err: true,
            },
        }
    }
}

/// The walk from `root` over the first `n` of `segments`.
pub open spec fn walked(
    root: Seq<char>,
    segments: Seq<Seq<char>>,
    links: Seq<bool>,
    n: nat,
) -> ResolvedPathView
    decreases n,
{
    if n == 0 {
        ResolvedPathView { root, components: Seq::empty(), symlink: false, url_err: false }
    } else {
        stepped(walked(root, segments, links, (n - 1) as nat), segments[n - 1], links)
    }
}

/// The walk from `root` over all of `segments`.
pub open spec fn resolved(
    root: Seq<char>,
    segments: Seq<Seq<char>>,
    links: Seq<bool>,
) -> ResolvedPathView {
    walked(root, segments, links, segments.len())
}

/// The components that the walk over `segments` adds below the hosted
/// directory: the non-empty segments that can be decoded, decoded.
pub open spec fn components_of(segments: Seq<Seq<char>>) -> Seq<Seq<char>> {
    resolved(Seq::empty(), segments, Seq::empty()).components
}

/// The components of a walk depend on the segments alone: neither on where
/// it started nor on the links found.
pub proof fn components_depend_on_segments(
    root: Seq<char>,
    segments: Seq<Seq<char>>,
    links: Seq<bool>,
    n: nat,
)
    ensures
        walked(root, segments, links, n).components == walked(
            Seq::empty(),
            segments,
            Seq::empty(),
            n,
        ).components,
        walked(root, segments, links, n).url_err == walked(
            Seq::empty(),
            segments,
            Seq::empty(),
            n,
        ).url_err,
        walked(root, segments, links, n).root == root,
    decreases n,
{
    if n > 0 {
        components_depend_on_segments(root, segments, links, (n - 1) as nat);
    }
}

/// A segment that cannot be decoded marks the walk as malformed, whatever
/// comes before or after it.
pub proof fn undecodable_segment_marks_walk(
    root: Seq<char>,
    segments: Seq<Seq<char>>,
    links: Seq<bool>,
    i: int,
    n: nat,
)
    requires
        0 <= i < n <= segments.len(),
        segments[i].len() > 0,
        percent_decoded(segments[i]) is None,
    ensures
        walked(root, segments, links, n).url_err,
    decreases n,
{
    if i < n - 1 {
        undecodable_segment_marks_walk(root, segments, links, i, (n - 1) as nat);
    }
}

/// A walk over segments that can all be decoded is not malformed.
pub proof fn decodable_segments_walk_clean(
    root: Seq<char>,
    segments: Seq<Seq<char>>,
    links: Seq<bool>,
    n: nat,
)
    requires
        n <= segments.len(),
        forall|i: int| 0 <= i < n ==> percent_decoded(#[trigger] segments[i]) is Some,
    ensures
        !walked(root, segments, links, n).url_err,
    decreases n,
{
    if n > 0 {
        decodable_segments_walk_clean(root, segments, links, (n - 1) as nat);
    }
}

/// A walk meets no symbolic link where the caller found none.
pub proof fn walk_without_links(
    root: Seq<char>,
    segments: Seq<Seq<char>>,
    links: Seq<bool>,
    n: nat,
)
    requires
        forall|d: int| !link_at(links, d),
    ensures
        !walked(root, segments, links, n).symlink,
    decreases n,
{
    if n > 0 {
        walk_without_links(root, segments, links, (n - 1) as nat);
    }
}

/// A walk that is not malformed has seen every symbolic link that the
/// caller found below the hosted directory, at any depth down to the end
/// of the path: a link in the middle of the path counts as one at its end.
pub proof fn link_on_path_is_seen(
    root: Seq<char>,
    segments: Seq<Seq<char>>,
    links: Seq<bool>,
    n: nat,
    depth: int,
)
    requires
        !walked(root, segments, links, n).url_err,
        1 <= depth <= walked(root, segments, links, n).components.len(),
        link_at(links, depth),
    ensures
        walked(root, segments, links, n).symlink,
    decreases n,
{
    if n > 0 {
        let before = walked(root, segments, links, (n - 1) as nat);
        if depth <= before.components.len() {
            link_on_path_is_seen(root, segments, links, (n - 1) as nat, depth);
        }
    }
}

/// A walk that is not malformed has met a symbolic link only where the
/// caller found one below the hosted directory, on the path.
pub proof fn seen_link_is_on_path(
    root: Seq<char>,
    segments: Seq<Seq<char>>,
    links: Seq<bool>,
    n: nat,
) -> (depth: int)
    requires
        !walked(root, segments, links, n).url_err,
        walked(root, segments, links, n).symlink,
    ensures
        1 <= depth <= walked(root, segments, links, n).components.len(),
        link_at(links, depth),
    decreases n,
{
    let before = walked(root, segments, links, (n - 1) as nat);
    if before.symlink {
        seen_link_is_on_path(root, segments, links, (n - 1) as nat)
    } else {
        before.components.len() as int + 1
    }
}

/// A walk over the first `n` segments reads no segment after them.
pub proof fn walk_reads_its_segments_only(
    root: Seq<char>,
    segments: Seq<Seq<char>>,
    others: Seq<Seq<char>>,
    links: Seq<bool>,
    n: nat,
)
    requires
        n <= segments.len(),
        n <= others.len(),
        forall|i: int| 0 <= i < n ==> segments[i] == others[i],
    ensures
        walked(root, segments, links, n) == walked(root, others, links, n),
    decreases n,
{
    if n > 0 {
        walk_reads_its_segments_only(root, segments, others, links, (n - 1) as nat);
    }
}

impl ResolvedPath {
    /// The walk that has taken no segment yet.
    pub fn new(root: &str) -> (r: ResolvedPath)
        ensures
            r@ == (ResolvedPathView {
                root: root@,
                components: Seq::empty(),
                symlink: false,
                url_err: false,
            }),
    {
        let r = ResolvedPath {
            root: root.to_string(),
            components: Vec::new(),
            symlink: false,
            url_err: false,
        };
        assert(r.components.deep_view() == Seq::<Seq<char>>::empty());
        r
    }

    /// Takes the walk one segment further.
    pub fn step(&mut self, segment: &str, links: &Vec<bool>)
        ensures
            final(self)@ == stepped(old(self)@, segment@, links@),
    {
        if segment.is_empty() {
            return ;
        }
        let ghost before = self.components.deep_view();
        match percent_decode(segment) {
            Some(name) => {
                self.components.push(name);
                assert(self.components.deep_view() == before.push(name@));
            },
            None => {
                self.url_err = true;
            },
        }
        let depth = self.components.len();
        if depth < links.len() && links[depth] {
            self.symlink = true;
        }
    }
}

/// Walks from `root` over `segments`, with the symbolic links that the caller
/// found along the way.
pub fn resolve(root: &str, segments: &Vec<String>, links: &Vec<bool>) -> (r: ResolvedPath)
    ensures
        r@ == resolved(root@, segments.deep_view(), links@),
{
    let mut path = ResolvedPath::new(root);
    let mut i: usize = 0;
    while i < segments.len()
        invariant
            i <= segments.len(),
            path@ == walked(root@, segments.deep_view(), links@, i as nat),
        decreases segments.len() - i,
    {
        path.step(segments[i].as_str(), links);
        i += 1;
    }
    path
}

/// The components that the walk over `segments` adds below the hosted
/// directory. A caller learns from them which paths to look up before it
/// can say where the symbolic links are.
pub fn path_components(segments: &Vec<String>) -> (r: Vec<String>)
    ensures
        r.deep_view() == components_of(segments.deep_view()),
{
    let links: Vec<bool> = Vec::new();
    let path = resolve("", segments, &links);
    proof {
        reveal_strlit("");
        assert(""@ == Seq::<char>::empty());
    }
    path.components
}

} // verus!

//! Paths as texts, and the search for repository roots among walked paths.
//!
//! A path is a text whose segments are separated by `/`. The caller walks the
//! directory tree, without following symbolic links, and hands over what it
//! met, in the order in which it met it.

use crate::text::{chars_of, slice_of, text_of};
use vstd::prelude::*;

verus! {

/// The views of a sequence of strings.
pub open spec fn texts(v: Seq<String>) -> Seq<Seq<char>> {
    v.map_values(|s: String| s@)
}

/// Whether `p` ends in a segment `.` that follows a separator. Such a
/// segment names the directory before it once more.
pub open spec fn ends_in_dot(p: Seq<char>) -> bool {
    p.len() >= 2 && p[p.len() - 1] == '.' && p[p.len() - 2] == '/'
}

/// The length of `p` once the separators at its end are taken off, and
/// with them each segment `.` that follows a separator.
pub open spec fn stem_len(p: Seq<char>) -> nat
    decreases p.len(),
{
    if p.len() > 0 && (p.last() == '/' || ends_in_dot(p)) {
        stem_len(p.drop_last())
    } else {
        p.len()
    }
}

/// Where the last segment of `p` starts, for a `p` that ends in no separator.
pub open spec fn segment_start(p: Seq<char>) -> nat
    decreases p.len(),
{
    if p.len() > 0 && p.last() != '/' {
        segment_start(p.drop_last())
    } else {
        p.len()
    }
}

/// The last segment of `p`: what stands between its last separator and its
/// end, separators and segments `.` at the end not counted. Empty where `p`
/// has no segment.
pub open spec fn last_segment(p: Seq<char>) -> Seq<char> {
    let stem = p.take(stem_len(p) as int);
    stem.skip(segment_start(stem) as int)
}

/// The name of the file or directory that `p` leads to: its last segment,
/// unless that is empty, `.` or `..`.
pub open spec fn name_of(p: Seq<char>) -> Option<Seq<char>> {
    let segment = last_segment(p);
    if segment.len() == 0 || segment == seq!['.'] || segment == seq!['.', '.'] {
        None
    } else {
        Some(segment)
    }
}

/// The directory that holds `p`: the path without its last segment and the
/// separators before it. The parent of a segment directly below the root is
/// the root `/`; a path without a segment has no parent.
pub open spec fn parent_of(p: Seq<char>) -> Option<Seq<char>> {
    let stem = p.take(stem_len(p) as int);
    if stem.len() == 0 {
        None
    } else {
        let head = stem.take(segment_start(stem) as int);
        let dir = head.take(stem_len(head) as int);
        if dir.len() == 0 && head.len() > 0 {
            Some(seq!['/'])
        } else {
            Some(dir)
        }
    }
}

/// `name` placed in the directory `dir`.
pub open spec fn joined(dir: Seq<char>, name: Seq<char>) -> Seq<char> {
    if dir.len() == 0 || dir.last() == '/' {
        dir + name
    } else {
        dir.push('/') + name
    }
}

fn stem_end(v: &Vec<char>, n: usize) -> (b: usize)
    requires
        n <= v.len(),
    ensures
        b == stem_len(v@.take(n as int)),
        b <= n,
{
    let mut b: usize = n;
    while b > 0 && (v[b - 1] == '/' || (b >= 2 && v[b - 1] == '.' && v[b - 2] == '/'))
        invariant
            b <= n <= v.len(),
            stem_len(v@.take(n as int)) == stem_len(v@.take(b as int)),
        decreases b,
    {
        assert(v@.take(b as int).drop_last() =~= v@.take(b - 1));
        b -= 1;
    }
    b
}

fn segment_begin(v: &Vec<char>, n: usize) -> (b: usize)
    requires
        n <= v.len(),
    ensures
        b == segment_start(v@.take(n as int)),
        b <= n,
{
    let mut b: usize = n;
    while b > 0 && v[b - 1] != '/'
        invariant
            b <= n <= v.len(),
            segment_start(v@.take(n as int)) == segment_start(v@.take(b as int)),
        decreases b,
    {
        assert(v@.take(b as int).drop_last() =~= v@.take(b - 1));
        b -= 1;
    }
    b
}

fn name_chars(v: &Vec<char>) -> (r: Option<Vec<char>>)
    ensures
        match r {
            Some(name) => name_of(v@) == Some(name@),
            None => name_of(v@) is None,
        },
{
    let e: usize = stem_end(v, v.len());
    assert(v@.take(v.len() as int) =~= v@);
    let s: usize = segment_begin(v, e);
    let segment = slice_of(v, s, e);
    assert(segment@ =~= last_segment(v@));
    let n: usize = segment.len();
    if n == 0 || (n == 1 && segment[0] == '.') || (n == 2 && segment[0] == '.' && segment[1]
        == '.') {
        assert(n == 1 ==> segment@ =~= seq!['.']);
        assert(n == 2 ==> segment@ =~= seq!['.', '.']);
        None
    } else {
        Some(segment)
    }
}

/// The name of the file or directory that `path` leads to, if it has one.
pub fn file_name(path: &str) -> (r: Option<String>)
    ensures
        match r {
            Some(name) => name_of(path@) == Some(name@),
            None => name_of(path@) is None,
        },
{
    let v = chars_of(path);
    match name_chars(&v) {
        Some(name) => Some(text_of(&name)),
        None => None,
    }
}

fn parent_chars(v: &Vec<char>) -> (r: Option<Vec<char>>)
    ensures
        match r {
            Some(dir) => parent_of(v@) == Some(dir@),
            None => parent_of(v@) is None,
        },
{
    let e: usize = stem_end(v, v.len());
    assert(v@.take(v.len() as int) =~= v@);
    if e == 0 {
        return None;
    }
    let s: usize = segment_begin(v, e);
    let d: usize = stem_end(v, s);
    proof {
        let stem = v@.take(e as int);
        assert(stem.take(s as int) =~= v@.take(s as int));
        assert(v@.take(s as int).take(d as int) =~= v@.take(d as int));
    }
    if d == 0 && s > 0 {
        let mut root: Vec<char> = Vec::new();
        root.push('/');
        assert(root@ =~= seq!['/']);
        Some(root)
    } else {
        let dir = slice_of(v, 0, d);
        assert(dir@ =~= v@.take(d as int));
        Some(dir)
    }
}

/// The directory that holds `path`, if it has one.
pub fn parent(path: &str) -> (r: Option<String>)
    ensures
        match r {
            Some(dir) => parent_of(path@) == Some(dir@),
            None => parent_of(path@) is None,
        },
{
    let v = chars_of(path);
    match parent_chars(&v) {
        Some(dir) => Some(text_of(&dir)),
        None => None,
    }
}

/// The path of `name` inside the directory `dir`.
pub fn join(dir: &str, name: &str) -> (r: String)
    ensures
        r@ == joined(dir@, name@),
{
    let d = chars_of(dir);
    let mut r = dir.to_owned();
    if d.len() > 0 && d[d.len() - 1] != '/' {
        r.push('/');
    }
    r.append(name);
    r
}

/// The name of the folder that marks a directory as a repository.
pub open spec fn marker() -> Seq<char> {
    ".git"@
}

/// What a walk of a directory tree met at one step.
#[derive(Debug)]
pub enum WalkEvent {
    /// A file or a directory, with its path. `is_dir` tells the directories
    /// from everything else; a link counts as what it is, not as what it
    /// leads to.
    Entry { path: String, is_dir: bool },
    /// Something that could not be read. `depth` says how far below the
    /// root of the walk it lies; the root itself has depth 0.
    Error { depth: usize, message: String },
}

/// What a [`WalkEvent`] stands for.
pub enum WalkEventView {
    Entry { path: Seq<char>, is_dir: bool },
    Error { depth: nat, message: Seq<char> },
}

impl View for WalkEvent {
    type V = WalkEventView;

    open spec fn view(&self) -> WalkEventView {
        match self {
            WalkEvent::Entry { path, is_dir } => WalkEventView::Entry {
                path: path@,
                is_dir: *is_dir,
            },
            WalkEvent::Error { depth, message } => WalkEventView::Error {
                depth: *depth as nat,
                message: message@,
            },
        }
    }
}

/// The views of the events of a walk.
pub open spec fn walk_views(walk: Seq<WalkEvent>) -> Seq<WalkEventView> {
    walk.map_values(|e: WalkEvent| e@)
}

/// The path that an event brings, if it brings one.
pub open spec fn path_of(event: WalkEventView) -> Option<Seq<char>> {
    match event {
        WalkEventView::Entry { path, .. } => Some(path),
        WalkEventView::Error { .. } => None,
    }
}

/// The paths that a walk met, in order. What could not be read is passed
/// over.
pub open spec fn paths_of(walk: Seq<WalkEventView>) -> Seq<Seq<char>> {
    walk.filter_map(|e: WalkEventView| path_of(e))
}

/// Whether the walk met a marker folder at this step: a directory with the
/// marker's name.
pub open spec fn is_marker(event: WalkEventView) -> bool {
    event matches WalkEventView::Entry { path, is_dir } && is_dir && name_of(path) == Some(
        marker(),
    )
}

/// The repository root that an event gives away: the parent of the marker
/// folder, where the event is one.
pub open spec fn root_of(event: WalkEventView) -> Option<Seq<char>> {
    if is_marker(event) {
        parent_of(event->path)
    } else {
        None
    }
}

/// The parents of the marker folders that a walk met, in the order of the
/// walk.
pub open spec fn found_roots(walk: Seq<WalkEventView>) -> Seq<Seq<char>> {
    walk.filter_map(|e: WalkEventView| root_of(e))
}

/// `s` with each text kept where it stands first.
pub open spec fn without_repeats(s: Seq<Seq<char>>) -> Seq<Seq<char>>
    decreases s.len(),
{
    if s.len() == 0 {
        seq![]
    } else {
        let before = without_repeats(s.drop_last());
        if before.contains(s.last()) {
            before
        } else {
            before.push(s.last())
        }
    }
}

/// The repository roots in what a walk met: the parent of each marker
/// folder, each root once, in the order of the walk.
pub open spec fn repository_roots(walk: Seq<WalkEventView>) -> Seq<Seq<char>> {
    without_repeats(found_roots(walk))
}

/// The message of the first failure at the root of the walk, if the root
/// could not be read.
pub open spec fn root_failure(walk: Seq<WalkEventView>) -> Option<Seq<char>>
    decreases walk.len(),
{
    if walk.len() == 0 {
        None
    } else {
        match walk[0] {
            WalkEventView::Error { depth, message } if depth == 0 => Some(message),
            _ => root_failure(walk.drop_first()),
        }
    }
}

/// The paths that a walk met, in order, without what could not be read.
pub fn walked_paths(walk: &Vec<WalkEvent>) -> (paths: Vec<String>)
    ensures
        texts(paths@) == paths_of(walk_views(walk@)),
{
    let ghost views = walk_views(walk@);
    let ghost f = |e: WalkEventView| path_of(e);
    let mut paths: Vec<String> = Vec::new();
    let mut i: usize = 0;
    assert(views.take(0).filter_map(f) =~= Seq::<Seq<char>>::empty());
    while i < walk.len()
        invariant
            i <= walk.len(),
            views == walk_views(walk@),
            f == (|e: WalkEventView| path_of(e)),
            texts(paths@) =~= views.take(i as int).filter_map(f),
        decreases walk.len() - i,
    {
        proof {
            views.lemma_filter_map_take_succ(f, i as int);
        }
        match &walk[i] {
            WalkEvent::Entry { path, .. } => {
                let ghost before = paths@;
                paths.push(path.clone());
                assert(texts(paths@) =~= texts(before).push(path@));
            },
            WalkEvent::Error { .. } => {},
        }
        i += 1;
    }
    assert(views.take(walk.len() as int) =~= views);
    paths
}

/// Tells whether the root of the walk could not be read, and why.
pub fn failure_at_root(walk: &Vec<WalkEvent>) -> (r: Option<String>)
    ensures
        match r {
            Some(message) => root_failure(walk_views(walk@)) == Some(message@),
            None => root_failure(walk_views(walk@)) is None,
        },
{
    let ghost views = walk_views(walk@);
    let mut i: usize = 0;
    assert(views.skip(0) =~= views);
    while i < walk.len()
        invariant
            i <= walk.len(),
            views == walk_views(walk@),
            root_failure(views) == root_failure(views.skip(i as int)),
        decreases walk.len() - i,
    {
        assert(views.skip(i as int).drop_first() =~= views.skip(i + 1));
        match &walk[i] {
            WalkEvent::Error { depth, message } => {
                if *depth == 0 {
                    return Some(message.clone());
                }
            },
            WalkEvent::Entry { .. } => {},
        }
        i += 1;
    }
    None
}

/// Tells whether `text` stands among `texts`.
pub fn is_among(all: &Vec<String>, text: &str) -> (r: bool)
    ensures
        r == texts(all@).contains(text@),
{
    let mut i: usize = 0;
    while i < all.len()
        invariant
            i <= all.len(),
            forall|j: int| 0 <= j < i ==> texts(all@)[j] != text@,
        decreases all.len() - i,
    {
        if crate::text::same_text(all[i].as_str(), text) {
            assert(texts(all@)[i as int] == text@);
            return true;
        }
        i += 1;
    }
    false
}

fn found_root(event: &WalkEvent) -> (r: Option<String>)
    ensures
        match r {
            Some(root) => root_of(event@) == Some(root@),
            None => root_of(event@) is None,
        },
{
    match event {
        WalkEvent::Entry { path, is_dir } => {
            if !*is_dir {
                return None;
            }
            let chars = chars_of(path.as_str());
            match name_chars(&chars) {
                Some(name) => {
                    if crate::text::is_text(&name, ".git") {
                        match parent_chars(&chars) {
                            Some(dir) => Some(text_of(&dir)),
                            None => None,
                        }
                    } else {
                        None
                    }
                },
                None => None,
            }
        },
        WalkEvent::Error { .. } => None,
    }
}

fn roots_among(walk: &Vec<WalkEvent>) -> (roots: Vec<String>)
    ensures
        texts(roots@) == repository_roots(walk_views(walk@)),
{
    let ghost views = walk_views(walk@);
    let ghost f = |e: WalkEventView| root_of(e);
    let mut roots: Vec<String> = Vec::new();
    let mut i: usize = 0;
    assert(views.take(0).filter_map(f) =~= Seq::<Seq<char>>::empty());
    assert(texts(roots@) =~= Seq::<Seq<char>>::empty());
    while i < walk.len()
        invariant
            i <= walk.len(),
            views == walk_views(walk@),
            f == (|e: WalkEventView| root_of(e)),
            texts(roots@) == without_repeats(views.take(i as int).filter_map(f)),
        decreases walk.len() - i,
    {
        proof {
            views.lemma_filter_map_take_succ(f, i as int);
        }
        let ghost found = views.take(i as int).filter_map(f);
        match found_root(&walk[i]) {
            Some(root) => {
                assert(views.take(i + 1).filter_map(f) =~= found.push(root@));
                assert(found.push(root@).drop_last() =~= found);
                if !is_among(&roots, root.as_str()) {
                    let ghost before = roots@;
                    roots.push(root);
                    assert(texts(roots@) =~= texts(before).push(root@));
                }
            },
            None => {
                assert(views.take(i + 1).filter_map(f) =~= found);
            },
        }
        i += 1;
    }
    assert(views.take(walk.len() as int) =~= views);
    roots
}

/// Finds the repository roots in what a walk of a directory tree met.
///
/// What could not be read below the root is passed over. Where the root
/// itself could not be read, the search fails with the message of that
/// failure. No root is given twice.
pub fn find_git_repositories(walk: &Vec<WalkEvent>) -> (r: Result<Vec<String>, String>)
    ensures
        match r {
            Ok(roots) => root_failure(walk_views(walk@)) is None && texts(roots@)
                == repository_roots(walk_views(walk@)) && texts(roots@).no_duplicates(),
            Err(message) => root_failure(walk_views(walk@)) == Some(message@),
        },
{
    match failure_at_root(walk) {
        Some(message) => Err(message),
        None => {
            let roots = roots_among(walk);
            proof {
                lemma_roots_are_unique(walk_views(walk@));
            }
            Ok(roots)
        },
    }
}

/// What is kept of `s` holds nothing twice, and holds what `s` holds.
pub proof fn lemma_without_repeats(s: Seq<Seq<char>>)
    ensures
        without_repeats(s).no_duplicates(),
        without_repeats(s).len() <= s.len(),
        forall|t: Seq<char>| without_repeats(s).contains(t) <==> s.contains(t),
    decreases s.len(),
{
    if s.len() > 0 {
        let rest = s.drop_last();
        lemma_without_repeats(rest);
        let before = without_repeats(rest);
        assert forall|t: Seq<char>| without_repeats(s).contains(t) <==> s.contains(t) by {
            if s.contains(t) {
                let j = choose|j: int| 0 <= j < s.len() && s[j] == t;
                if j < s.len() - 1 {
                    assert(rest[j] == t);
                    assert(rest.contains(t));
                    assert(before.contains(t));
                    let k = choose|k: int| 0 <= k < before.len() && before[k] == t;
                    assert(without_repeats(s)[k] == t);
                } else if !before.contains(t) {
                    assert(without_repeats(s)[before.len() as int] == t);
                } else {
                    let k = choose|k: int| 0 <= k < before.len() && before[k] == t;
                    assert(without_repeats(s)[k] == t);
                }
            }
            if without_repeats(s).contains(t) {
                let k = choose|k: int| 0 <= k < without_repeats(s).len() && without_repeats(s)[k]
                    == t;
                if k < before.len() {
                    assert(before[k] == t);
                    assert(before.contains(t));
                    assert(rest.contains(t));
                    let j = choose|j: int| 0 <= j < rest.len() && rest[j] == t;
                    assert(s[j] == t);
                } else {
                    assert(s[s.len() - 1] == t);
                }
            }
        }
    }
}

/// A sequence that holds nothing twice is kept as it is.
pub proof fn lemma_nothing_to_drop(s: Seq<Seq<char>>)
    requires
        s.no_duplicates(),
    ensures
        without_repeats(s) == s,
    decreases s.len(),
{
    if s.len() > 0 {
        let rest = s.drop_last();
        lemma_nothing_to_drop(rest);
        lemma_without_repeats(rest);
        if rest.contains(s.last()) {
            let j = choose|j: int| 0 <= j < rest.len() && rest[j] == s.last();
            assert(s[j] == s[s.len() - 1]);
            assert(false);
        }
        assert(rest.push(s.last()) =~= s);
    }
}

/// No repository root is found twice, whatever the walk met.
pub proof fn lemma_roots_are_unique(walk: Seq<WalkEventView>)
    ensures
        repository_roots(walk).no_duplicates(),
{
    lemma_without_repeats(found_roots(walk));
}

/// A walk that met no marker folder holds no repository root.
pub proof fn lemma_no_marker_no_root(walk: Seq<WalkEventView>)
    requires
        forall|i: int| 0 <= i < walk.len() ==> !is_marker(#[trigger] walk[i]),
    ensures
        found_roots(walk) == Seq::<Seq<char>>::empty(),
        repository_roots(walk) == Seq::<Seq<char>>::empty(),
    decreases walk.len(),
{
    if walk.len() > 0 {
        lemma_no_marker_no_root(walk.drop_last());
    }
}

/// The marker folders that a walk met.
pub open spec fn markers(walk: Seq<WalkEventView>) -> Seq<WalkEventView> {
    walk.filter(|e: WalkEventView| is_marker(e))
}

/// There is one parent for each marker folder that a walk met, however
/// deep it lies.
pub proof fn lemma_one_parent_per_marker(walk: Seq<WalkEventView>)
    ensures
        found_roots(walk).len() == markers(walk).len(),
    decreases walk.len(),
{
    reveal(Seq::filter);
    if walk.len() > 0 {
        lemma_one_parent_per_marker(walk.drop_last());
    }
}

/// Whether no two marker folders of the walk lie in the same directory.
pub open spec fn markers_lie_apart(walk: Seq<WalkEventView>) -> bool {
    forall|i: int, j: int|
        0 <= i < j < walk.len() && is_marker(#[trigger] walk[i]) && is_marker(#[trigger] walk[j])
            ==> parent_of(walk[i]->path) != parent_of(walk[j]->path)
}

proof fn lemma_parents_differ(walk: Seq<WalkEventView>)
    requires
        markers_lie_apart(walk),
    ensures
        found_roots(walk).no_duplicates(),
    decreases walk.len(),
{
    let f = |e: WalkEventView| root_of(e);
    if walk.len() > 0 {
        let rest = walk.drop_last();
        let last = walk.last();
        assert(markers_lie_apart(rest)) by {
            assert forall|i: int, j: int|
                0 <= i < j < rest.len() && is_marker(#[trigger] rest[i]) && is_marker(
                    #[trigger] rest[j],
                ) implies parent_of(rest[i]->path) != parent_of(rest[j]->path) by {
                assert(walk[i] == rest[i] && walk[j] == rest[j]);
            }
        }
        lemma_parents_differ(rest);
        if is_marker(last) {
            let root = parent_of(last->path).unwrap();
            if rest.filter_map(f).contains(root) {
                rest.lemma_filter_map_contains(f, root);
                let t = choose|t: WalkEventView| #[trigger] rest.contains(t) && f(t) == Some(root);
                let j = choose|j: int| 0 <= j < rest.len() && rest[j] == t;
                assert(walk[j] == t);
                assert(is_marker(walk[j]) && is_marker(walk[walk.len() - 1]));
                assert(false);
            }
            assert(found_roots(walk) =~= rest.filter_map(f) + seq![root]);
        }
    }
}

/// Marker folders at any depth are found one by one: where no two of them
/// lie in the same directory, there is exactly one root for each marker
/// folder, the parent of that folder, in the order of the walk.
pub proof fn lemma_one_root_per_marker(walk: Seq<WalkEventView>)
    requires
        markers_lie_apart(walk),
    ensures
        repository_roots(walk) == found_roots(walk),
        repository_roots(walk).len() == markers(walk).len(),
        repository_roots(walk).no_duplicates(),
{
    lemma_parents_differ(walk);
    lemma_nothing_to_drop(found_roots(walk));
    lemma_one_parent_per_marker(walk);
}

/// A marker path is plain when it is its parent joined with the marker name:
/// it has no doubled separator before its last segment and nothing after
/// it.
pub open spec fn is_plain_marker(p: Seq<char>) -> bool {
    name_of(p) == Some(marker()) && parent_of(p) is Some && p == joined(
        parent_of(p).unwrap(),
        marker(),
    )
}

/// Plain marker paths that differ lie in directories that differ.
pub proof fn lemma_plain_markers_lie_apart(p: Seq<char>, q: Seq<char>)
    requires
        is_plain_marker(p),
        is_plain_marker(q),
        p != q,
    ensures
        parent_of(p) != parent_of(q),
{
}

} // verus!

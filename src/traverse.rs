//! Depth-first, parent-before-children listing of a directory tree, with
//! pruning of directories that would show nothing.

use vstd::prelude::*;

use crate::grep::Pattern;
use crate::filter::{desired_set, extension, name_set, should_skip, skipped, Entry, EntryKind};

verus! {

/// A directory tree as it was read: an entry and, for a directory, its
/// immediate children in the order in which they are to be listed.
#[derive(Debug)]
pub struct Node {
    pub entry: Entry,
    pub children: Vec<Node>,
}

/// One step of the output: show an entry at a depth, or search a file.
#[derive(Debug, PartialEq, Eq)]
pub enum Action {
    Show { depth: usize, name: String, is_dir: bool },
    Search { path: String },
}

/// Every child of a directory is skipped (or it has none).
pub open spec fn all_skipped(
    children: Seq<Node>,
    desired: Option<Set<Seq<char>>>,
    ignored_extensions: Set<Seq<char>>,
    ignored_dirs: Set<Seq<char>>,
) -> bool {
    forall|i: int|
        0 <= i < children.len() ==> skipped(
            #[trigger] children[i].entry,
            desired,
            ignored_extensions,
            ignored_dirs,
        )
}

/// The first `k` children of `n`, and the trees below them, lie at most
/// `limit` levels below `n`.
pub open spec fn within_prefix(n: Node, limit: int, k: int) -> bool
    decreases n, k,
{
    if k <= 0 || k > n.children.len() {
        true
    } else {
        let ch = n.children[k - 1];
        within_prefix(n, limit, k - 1) && limit > 0 && within_prefix(
            ch,
            limit - 1,
            ch.children.len() as int,
        )
    }
}

proof fn lemma_within_prefix_shrinks(n: Node, limit: int, j: int, k: int)
    requires
        0 <= j <= k <= n.children.len(),
        within_prefix(n, limit, k),
    ensures
        within_prefix(n, limit, j),
    decreases k - j,
{
    if j < k {
        lemma_within_prefix_shrinks(n, limit, j, k - 1);
    }
}

/// The tree is at most `limit` levels deep below `n`.
pub open spec fn within(n: Node, limit: int) -> bool {
    within_prefix(n, limit, n.children.len() as int)
}

/// The actions for the first `k` children of `n`, listed at `depth`.
/// A skipped child gives nothing; a directory child is shown, followed by
/// its own listing, only when that listing is not empty; any other child is
/// shown, and a file is then searched when `searching` holds.
pub open spec fn listing_prefix(
    n: Node,
    depth: usize,
    desired: Option<Set<Seq<char>>>,
    ignored_extensions: Set<Seq<char>>,
    ignored_dirs: Set<Seq<char>>,
    searching: bool,
    k: int,
) -> Seq<Action>
    decreases n, k,
{
    if k <= 0 || k > n.children.len() {
        seq![]
    } else {
        let ch = n.children[k - 1];
        let before = listing_prefix(
            n,
            depth,
            desired,
            ignored_extensions,
            ignored_dirs,
            searching,
            k - 1,
        );
        let shown = Action::Show {
            depth,
            name: ch.entry.name,
            is_dir: ch.entry.kind == EntryKind::Dir,
        };
        if skipped(ch.entry, desired, ignored_extensions, ignored_dirs) {
            before
        } else if ch.entry.kind == EntryKind::Dir {
            let sub = listing_prefix(
                ch,
                (depth + 1) as usize,
                desired,
                ignored_extensions,
                ignored_dirs,
                searching,
                ch.children.len() as int,
            );
            if sub.len() == 0 {
                before
            } else {
                before + seq![shown] + sub
            }
        } else if searching && ch.entry.kind == EntryKind::File {
            before + seq![shown, Action::Search { path: ch.entry.path }]
        } else {
            before + seq![shown]
        }
    }
}

/// The actions for all children of `n`, listed at `depth`.
pub open spec fn listing(
    n: Node,
    depth: usize,
    desired: Option<Set<Seq<char>>>,
    ignored_extensions: Set<Seq<char>>,
    ignored_dirs: Set<Seq<char>>,
    searching: bool,
) -> Seq<Action> {
    listing_prefix(
        n,
        depth,
        desired,
        ignored_extensions,
        ignored_dirs,
        searching,
        n.children.len() as int,
    )
}

/// When every child is skipped, no prefix of the listing shows anything.
pub proof fn lemma_all_skipped_lists_nothing(
    n: Node,
    depth: usize,
    desired: Option<Set<Seq<char>>>,
    ignored_extensions: Set<Seq<char>>,
    ignored_dirs: Set<Seq<char>>,
    searching: bool,
    k: int,
)
    requires
        all_skipped(n.children@, desired, ignored_extensions, ignored_dirs),
    ensures
        listing_prefix(n, depth, desired, ignored_extensions, ignored_dirs, searching, k)
            == Seq::<Action>::empty(),
    decreases k,
{
    if 0 < k <= n.children.len() {
        assert(skipped(n.children@[k - 1].entry, desired, ignored_extensions, ignored_dirs));
        lemma_all_skipped_lists_nothing(
            n,
            depth,
            desired,
            ignored_extensions,
            ignored_dirs,
            searching,
            k - 1,
        );
    }
}

/// True iff every one of a directory's immediate children is skipped, or it
/// has none. Only the first level is looked at.
pub fn is_directory_empty_or_filtered(
    children: &Vec<Node>,
    desired_extensions: &Option<Vec<String>>,
    ignored_extensions: &Vec<String>,
    ignored_dirs: &Vec<String>,
) -> (r: bool)
    ensures
        r == all_skipped(
            children@,
            desired_set(*desired_extensions),
            name_set(ignored_extensions@),
            name_set(ignored_dirs@),
        ),
{
    let mut i: usize = 0;
    while i < children.len()
        invariant
            i <= children.len(),
            forall|j: int|
                0 <= j < i ==> skipped(
                    #[trigger] children@[j].entry,
                    desired_set(*desired_extensions),
                    name_set(ignored_extensions@),
                    name_set(ignored_dirs@),
                ),
        decreases children.len() - i,
    {
        if !should_skip(&children[i].entry, desired_extensions, ignored_extensions, ignored_dirs) {
            return false;
        }
        i = i + 1;
    }
    true
}

/// Whether listing `node` from `depth` keeps every depth within `usize`.
pub fn depth_fits(node: &Node, depth: usize) -> (r: bool)
    ensures
        r == within(*node, usize::MAX - depth),
    decreases node,
{
    let mut i: usize = 0;
    while i < node.children.len()
        invariant
            i <= node.children.len(),
            within_prefix(*node, usize::MAX - depth, i as int),
        decreases node.children.len() - i,
    {
        if depth == usize::MAX || !depth_fits(&node.children[i], depth + 1) {
            proof {
                if within(*node, usize::MAX - depth) {
                    lemma_within_prefix_shrinks(
                        *node,
                        usize::MAX - depth,
                        i + 1,
                        node.children.len() as int,
                    );
                }
            }
            return false;
        }
        i = i + 1;
    }
    true
}

/// The output for the children of `node`, listed at `depth`, depth-first
/// with each directory before its contents and the children in the order
/// given. A directory all of whose children are skipped shows nothing; a
/// directory child is shown only when its own listing shows something.
/// With a pattern, each file shown is followed by a search of it.
pub fn list_directory(
    node: &Node,
    depth: usize,
    desired_extensions: &Option<Vec<String>>,
    ignored_extensions: &Vec<String>,
    ignored_dirs: &Vec<String>,
    pattern: &Option<Pattern>,
) -> (r: Vec<Action>)
    requires
        within(*node, usize::MAX - depth),
    ensures
        r@ == listing(
            *node,
            depth,
            desired_set(*desired_extensions),
            name_set(ignored_extensions@),
            name_set(ignored_dirs@),
            pattern is Some,
        ),
    decreases node,
{
    let ghost desired = desired_set(*desired_extensions);
    let ghost ie = name_set(ignored_extensions@);
    let ghost id = name_set(ignored_dirs@);
    let ghost searching = pattern is Some;
    let ghost limit = usize::MAX - depth;
    if node.entry.kind == EntryKind::Dir && is_directory_empty_or_filtered(
        &node.children,
        desired_extensions,
        ignored_extensions,
        ignored_dirs,
    ) {
        proof {
            lemma_all_skipped_lists_nothing(
                *node,
                depth,
                desired,
                ie,
                id,
                searching,
                node.children.len() as int,
            );
        }
        return Vec::new();
    }
    let mut out: Vec<Action> = Vec::new();
    let mut k: usize = 0;
    while k < node.children.len()
        invariant
            k <= node.children.len(),
            within(*node, limit),
            limit == usize::MAX - depth,
            desired == desired_set(*desired_extensions),
            ie == name_set(ignored_extensions@),
            id == name_set(ignored_dirs@),
            searching == (pattern is Some),
            out@ == listing_prefix(*node, depth, desired, ie, id, searching, k as int),
        decreases node.children.len() - k,
    {
        let ch = &node.children[k];
        proof {
            lemma_within_prefix_shrinks(*node, limit, k + 1, node.children.len() as int);
        }
        if !should_skip(&ch.entry, desired_extensions, ignored_extensions, ignored_dirs) {
            if ch.entry.kind == EntryKind::Dir {
                let mut sub = list_directory(
                    ch,
                    depth + 1,
                    desired_extensions,
                    ignored_extensions,
                    ignored_dirs,
                    pattern,
                );
                if sub.len() > 0 {
                    out.push(Action::Show { depth, name: ch.entry.name.clone(), is_dir: true });
                    out.append(&mut sub);
                }
            } else {
                out.push(Action::Show { depth, name: ch.entry.name.clone(), is_dir: false });
                if pattern.is_some() && ch.entry.kind == EntryKind::File {
                    out.push(Action::Search { path: ch.entry.path.clone() });
                }
            }
        }
        assert(out@ =~= listing_prefix(*node, depth, desired, ie, id, searching, k + 1));
        k = k + 1;
    }
    out
}

/// Among the first `k` children of `n`, some entry that is not a directory
/// is reached through entries that are not skipped.
pub open spec fn has_shown_leaf_prefix(
    n: Node,
    desired: Option<Set<Seq<char>>>,
    ignored_extensions: Set<Seq<char>>,
    ignored_dirs: Set<Seq<char>>,
    k: int,
) -> bool
    decreases n, k,
{
    if k <= 0 || k > n.children.len() {
        false
    } else {
        let ch = n.children[k - 1];
        has_shown_leaf_prefix(n, desired, ignored_extensions, ignored_dirs, k - 1) || (!skipped(
            ch.entry,
            desired,
            ignored_extensions,
            ignored_dirs,
        ) && (ch.entry.kind != EntryKind::Dir || has_shown_leaf_prefix(
            ch,
            desired,
            ignored_extensions,
            ignored_dirs,
            ch.children.len() as int,
        )))
    }
}

/// Some descendant of `n` that is not a directory survives the filter, along
/// with every directory on the way down to it.
pub open spec fn has_shown_leaf(
    n: Node,
    desired: Option<Set<Seq<char>>>,
    ignored_extensions: Set<Seq<char>>,
    ignored_dirs: Set<Seq<char>>,
) -> bool {
    has_shown_leaf_prefix(n, desired, ignored_extensions, ignored_dirs, n.children.len() as int)
}

proof fn lemma_empty_iff_no_leaf_prefix(
    n: Node,
    depth: usize,
    desired: Option<Set<Seq<char>>>,
    ignored_extensions: Set<Seq<char>>,
    ignored_dirs: Set<Seq<char>>,
    searching: bool,
    k: int,
)
    ensures
        listing_prefix(n, depth, desired, ignored_extensions, ignored_dirs, searching, k).len()
            == 0 <==> !has_shown_leaf_prefix(n, desired, ignored_extensions, ignored_dirs, k),
    decreases n, k,
{
    if 0 < k <= n.children.len() {
        let ch = n.children[k - 1];
        lemma_empty_iff_no_leaf_prefix(
            n,
            depth,
            desired,
            ignored_extensions,
            ignored_dirs,
            searching,
            k - 1,
        );
        lemma_empty_iff_no_leaf_prefix(
            ch,
            (depth + 1) as usize,
            desired,
            ignored_extensions,
            ignored_dirs,
            searching,
            ch.children.len() as int,
        );
    }
}

/// A tree's listing is empty exactly when no entry other than a directory
/// survives the filter below it (with every directory on the way).
pub proof fn lemma_listing_empty_iff_no_shown_leaf(
    n: Node,
    depth: usize,
    desired: Option<Set<Seq<char>>>,
    ignored_extensions: Set<Seq<char>>,
    ignored_dirs: Set<Seq<char>>,
    searching: bool,
)
    ensures
        listing(n, depth, desired, ignored_extensions, ignored_dirs, searching)
            =~= Seq::<Action>::empty() <==> !has_shown_leaf(
            n,
            desired,
            ignored_extensions,
            ignored_dirs,
        ),
{
    lemma_empty_iff_no_leaf_prefix(
        n,
        depth,
        desired,
        ignored_extensions,
        ignored_dirs,
        searching,
        n.children.len() as int,
    );
}

/// A directory below which no entry other than a directory survives the
/// filter shows nothing at all: its own listing is empty, and in its
/// parent's listing it takes no line, not even its own.
pub proof fn lemma_pruned_directory_shows_nothing(
    parent: Node,
    depth: usize,
    desired: Option<Set<Seq<char>>>,
    ignored_extensions: Set<Seq<char>>,
    ignored_dirs: Set<Seq<char>>,
    searching: bool,
    k: int,
)
    requires
        0 < k <= parent.children.len(),
        parent.children[k - 1].entry.kind == EntryKind::Dir,
        !has_shown_leaf(parent.children[k - 1], desired, ignored_extensions, ignored_dirs),
    ensures
        listing(
            parent.children[k - 1],
            (depth + 1) as usize,
            desired,
            ignored_extensions,
            ignored_dirs,
            searching,
        ) =~= Seq::<Action>::empty(),
        listing_prefix(parent, depth, desired, ignored_extensions, ignored_dirs, searching, k)
            == listing_prefix(
            parent,
            depth,
            desired,
            ignored_extensions,
            ignored_dirs,
            searching,
            k - 1,
        ),
{
    lemma_listing_empty_iff_no_shown_leaf(
        parent.children[k - 1],
        (depth + 1) as usize,
        desired,
        ignored_extensions,
        ignored_dirs,
        searching,
    );
}

/// A file whose extension is not in the allow-list is skipped, whatever the
/// deny-lists hold, and takes no place in its directory's listing.
pub proof fn lemma_undesired_file_never_listed(
    parent: Node,
    depth: usize,
    desired: Set<Seq<char>>,
    ignored_extensions: Set<Seq<char>>,
    ignored_dirs: Set<Seq<char>>,
    searching: bool,
    k: int,
)
    requires
        0 < k <= parent.children.len(),
        parent.children[k - 1].entry.kind == EntryKind::File,
        !(extension(parent.children[k - 1].entry.name@) matches Some(x) && desired.contains(x)),
    ensures
        skipped(parent.children[k - 1].entry, Some(desired), ignored_extensions, ignored_dirs),
        listing_prefix(
            parent,
            depth,
            Some(desired),
            ignored_extensions,
            ignored_dirs,
            searching,
            k,
        ) == listing_prefix(
            parent,
            depth,
            Some(desired),
            ignored_extensions,
            ignored_dirs,
            searching,
            k - 1,
        ),
{
}

/// A file whose extension is on the deny-list is skipped even when the
/// allow-list holds that extension too, and takes no place in its
/// directory's listing.
pub proof fn lemma_ignored_file_never_listed(
    parent: Node,
    depth: usize,
    desired: Option<Set<Seq<char>>>,
    ignored_extensions: Set<Seq<char>>,
    ignored_dirs: Set<Seq<char>>,
    searching: bool,
    k: int,
)
    requires
        0 < k <= parent.children.len(),
        parent.children[k - 1].entry.kind == EntryKind::File,
        extension(parent.children[k - 1].entry.name@) matches Some(x) && ignored_extensions.contains(
            x,
        ),
    ensures
        skipped(parent.children[k - 1].entry, desired, ignored_extensions, ignored_dirs),
        listing_prefix(parent, depth, desired, ignored_extensions, ignored_dirs, searching, k)
            == listing_prefix(
            parent,
            depth,
            desired,
            ignored_extensions,
            ignored_dirs,
            searching,
            k - 1,
        ),
{
}

/// The listing is determined by the tree and the filter alone: listing the
/// same unchanged tree twice, with the same filter, gives the same output.
pub proof fn lemma_listing_repeatable(
    first: Node,
    second: Node,
    depth: usize,
    desired: Option<Set<Seq<char>>>,
    ignored_extensions: Set<Seq<char>>,
    ignored_dirs: Set<Seq<char>>,
    searching: bool,
)
    requires
        first == second,
    ensures
        listing(first, depth, desired, ignored_extensions, ignored_dirs, searching) == listing(
            second,
            depth,
            desired,
            ignored_extensions,
            ignored_dirs,
            searching,
        ),
{
}

} // verus!

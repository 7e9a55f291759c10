//! Building directory listings.
//!
//! Given the raw children of a directory and the hidden-file visibility flag,
//! a listing holds exactly the visible children, decorated, partitioned with
//! directories before non-directories, each group sorted ascending by name,
//! and — when the directory has a parent — prefixed by the synthetic parent
//! entry.

use vstd::multiset::Multiset;
use vstd::prelude::*;
use vstd::seq_lib::lemma_multiset_commutative;
use vstd::string::StringExecFns;

use crate::file::decorate;
use crate::file::parent_entry;
use crate::file::File;
use crate::file::FileView;
use crate::file::RawEntry;
use crate::file::RawView;
use crate::order::lemma_lex_le_antisymmetric;
use crate::order::lemma_lex_le_total;
use crate::order::lemma_lex_le_transitive;
use crate::order::lex_le;
use crate::order::name_le;
use crate::paths::parent_of;
use crate::paths::parent_path_of;

verus! {

broadcast use {vstd::seq_lib::group_to_multiset_ensures, vstd::multiset::group_multiset_axioms};

/// Whether a child is shown under the given hidden-file visibility.
pub open spec fn visible(c: RawView, show_hidden: bool) -> bool {
    show_hidden || !c.is_hidden
}

/// The entries the body of a listing must hold, as a multiset: one decorated
/// entry for every visible child.
pub open spec fn listing_multiset(children: Seq<RawView>, show_hidden: bool) -> Multiset<
    FileView,
>
    decreases children.len(),
{
    if children.len() == 0 {
        Multiset::empty()
    } else if visible(children.last(), show_hidden) {
        listing_multiset(children.drop_last(), show_hidden).insert(decorate(children.last()))
    } else {
        listing_multiset(children.drop_last(), show_hidden)
    }
}

/// Directories precede non-directories.
pub open spec fn dirs_first(s: Seq<FileView>) -> bool {
    forall|i: int, j: int| 0 <= i < j < s.len() && s[j].is_dir ==> s[i].is_dir
}

/// Within each group (directories; non-directories), names ascend.
pub open spec fn groups_sorted(s: Seq<FileView>) -> bool {
    forall|i: int, j: int|
        0 <= i < j < s.len() && s[i].is_dir == s[j].is_dir ==> lex_le(s[i].name, s[j].name)
}

/// Names ascend throughout.
pub open spec fn sorted_names(s: Seq<FileView>) -> bool {
    forall|i: int, j: int| 0 <= i < j < s.len() ==> lex_le(s[i].name, s[j].name)
}

/// The shape every listing body has: partitioned, each group sorted by name.
pub open spec fn body_wf(s: Seq<FileView>) -> bool {
    dirs_first(s) && groups_sorted(s)
}

/// The body of a listing holds exactly the visible children, decorated, and
/// has the partitioned, sorted shape.
pub open spec fn body_is_of(body: Seq<FileView>, children: Seq<RawView>, show_hidden: bool) -> bool {
    body.to_multiset() == listing_multiset(children, show_hidden) && body_wf(body)
}

/// The shape of a listing at `cwd`: when the directory has a parent, the
/// synthetic parent entry comes first, followed by a well-formed body; at a
/// filesystem root the whole listing is the body.
pub open spec fn listing_wf(cwd: Seq<char>, listing: Seq<FileView>) -> bool {
    match parent_path_of(cwd) {
        Some(p) => listing.len() >= 1 && listing[0] == parent_entry(p) && body_wf(
            listing.drop_first(),
        ),
        None => body_wf(listing),
    }
}

/// The full statement that `listing` lists `children` at `cwd` under the
/// given visibility.
pub open spec fn is_listing_of(
    listing: Seq<FileView>,
    cwd: Seq<char>,
    children: Seq<RawView>,
    show_hidden: bool,
) -> bool {
    match parent_path_of(cwd) {
        Some(p) => listing.len() >= 1 && listing[0] == parent_entry(p) && body_is_of(
            listing.drop_first(),
            children,
            show_hidden,
        ),
        None => body_is_of(listing, children, show_hidden),
    }
}

/// A complete listing is well-shaped.
pub proof fn lemma_listing_of_wf(
    listing: Seq<FileView>,
    cwd: Seq<char>,
    children: Seq<RawView>,
    show_hidden: bool,
)
    requires
        is_listing_of(listing, cwd, children, show_hidden),
    ensures
        listing_wf(cwd, listing),
{
}

/// Every listing is partitioned: directories precede non-directories
/// throughout, and among the listed children each group — directories, then
/// non-directories — ascends by name. (The synthetic parent entry stands
/// apart: it is prepended after sorting, always first.)
pub proof fn lemma_listing_partitioned(
    listing: Seq<FileView>,
    cwd: Seq<char>,
    children: Seq<RawView>,
    show_hidden: bool,
)
    requires
        is_listing_of(listing, cwd, children, show_hidden),
    ensures
        dirs_first(listing),
        match parent_path_of(cwd) {
            Some(p) => groups_sorted(listing.drop_first()),
            None => groups_sorted(listing),
        },
{
    match parent_path_of(cwd) {
        Some(p) => {
            let body = listing.drop_first();
            assert forall|i: int, j: int|
                0 <= i < j < listing.len() && listing[j].is_dir implies listing[i].is_dir by {
                if i > 0 {
                    assert(listing[i] == body[i - 1]);
                    assert(listing[j] == body[j - 1]);
                }
            }
        },
        None => {},
    }
}

/// Every entry of `body` is some visible child, decorated.
pub open spec fn all_from_children(
    body: Seq<FileView>,
    children: Seq<RawView>,
    show_hidden: bool,
) -> bool {
    forall|i: int|
        #![trigger body[i]]
        0 <= i < body.len() ==> exists|k: int|
            0 <= k < children.len() && visible(children[k], show_hidden) && #[trigger] decorate(
                children[k],
            ) == body[i]
}

/// Every entry the listing multiset counts is a decorated visible child.
proof fn lemma_listing_multiset_members(children: Seq<RawView>, show_hidden: bool, x: FileView)
    requires
        listing_multiset(children, show_hidden).count(x) > 0,
    ensures
        exists|k: int|
            0 <= k < children.len() && visible(children[k], show_hidden) && #[trigger] decorate(
                children[k],
            ) == x,
    decreases children.len(),
{
    if children.len() == 0 {
        assert(Multiset::<FileView>::empty().count(x) == 0);
    } else {
        let rest = children.drop_last();
        let last = children.last();
        if visible(last, show_hidden) && decorate(last) == x {
            assert(children[children.len() - 1] == last);
            assert(decorate(children[children.len() - 1]) == x);
        } else {
            assert(listing_multiset(rest, show_hidden).count(x) > 0);
            lemma_listing_multiset_members(rest, show_hidden, x);
            let k = choose|k: int|
                0 <= k < rest.len() && visible(rest[k], show_hidden) && #[trigger] decorate(
                    rest[k],
                ) == x;
            assert(children[k] == rest[k]);
            assert(decorate(children[k]) == x);
        }
    }
}

/// A body that holds exactly the listing multiset holds nothing else: every
/// one of its entries is some visible child, decorated.
proof fn lemma_body_from_children(body: Seq<FileView>, children: Seq<RawView>, show_hidden: bool)
    requires
        body.to_multiset() == listing_multiset(children, show_hidden),
    ensures
        all_from_children(body, children, show_hidden),
{
    assert forall|i: int| #![trigger body[i]] 0 <= i < body.len() implies exists|k: int|
        0 <= k < children.len() && visible(children[k], show_hidden) && #[trigger] decorate(
            children[k],
        ) == body[i] by {
        assert(body.contains(body[i]));
        assert(body.to_multiset().count(body[i]) > 0);
        lemma_listing_multiset_members(children, show_hidden, body[i]);
    }
}

/// When the directory has a parent, the first entry is the synthetic parent
/// entry; at a filesystem root no parent entry is synthesized: the whole
/// listing consists of the visible children. In either case everything after
/// the optional parent entry is some visible child, decorated.
pub proof fn lemma_parent_entry_first(
    listing: Seq<FileView>,
    cwd: Seq<char>,
    children: Seq<RawView>,
    show_hidden: bool,
)
    requires
        is_listing_of(listing, cwd, children, show_hidden),
    ensures
        parent_path_of(cwd) is Some ==> listing.len() >= 1 && listing[0] == parent_entry(
            parent_path_of(cwd)->0,
        ) && all_from_children(listing.drop_first(), children, show_hidden),
        parent_path_of(cwd) is None ==> listing.to_multiset() == listing_multiset(
            children,
            show_hidden,
        ) && all_from_children(listing, children, show_hidden),
{
    match parent_path_of(cwd) {
        Some(p) => {
            lemma_body_from_children(listing.drop_first(), children, show_hidden);
        },
        None => {
            lemma_body_from_children(listing, children, show_hidden);
        },
    }
}

/// Listings of the same children under the same visibility hold exactly the
/// same entries: in particular, toggling hidden-file visibility twice
/// restores the original entry set.
pub proof fn lemma_toggle_twice_same_entries(
    l0: Seq<FileView>,
    l1: Seq<FileView>,
    l2: Seq<FileView>,
    cwd: Seq<char>,
    children: Seq<RawView>,
    show_hidden: bool,
)
    requires
        is_listing_of(l0, cwd, children, show_hidden),
        is_listing_of(l1, cwd, children, !show_hidden),
        is_listing_of(l2, cwd, children, show_hidden),
    ensures
        l0.to_multiset() == l2.to_multiset(),
        l0.len() == l2.len(),
        distinct_names(l0) ==> l0 == l2,
{
    match parent_path_of(cwd) {
        Some(p) => {
            let head = parent_entry(p);
            lemma_head_multiset(l0, head);
            lemma_head_multiset(l2, head);
            assert(l0.drop_first().to_multiset() == l2.drop_first().to_multiset());
            assert(l0.to_multiset() == l0.drop_first().to_multiset().insert(head));
        },
        None => {},
    }
    assert(l0.to_multiset().len() == l2.to_multiset().len());
    if distinct_names(l0) {
        lemma_listing_determined(l0, l2, cwd, children, show_hidden);
    }
}

/// No two entries share a display name. The children of a real directory
/// always satisfy this: filesystem names are unique, and the separator
/// suffix is appended only to directories.
pub open spec fn distinct_names(s: Seq<FileView>) -> bool {
    forall|i: int, j: int| 0 <= i < j < s.len() ==> s[i].name != s[j].name
}

/// The combined listing order: directories before non-directories, names
/// ascending within a kind.
pub open spec fn entry_le(u: FileView, v: FileView) -> bool {
    (u.is_dir && !v.is_dir) || (u.is_dir == v.is_dir && lex_le(u.name, v.name))
}

/// A well-shaped body is pairwise ordered by the combined order.
proof fn lemma_body_wf_pairwise(s: Seq<FileView>)
    requires
        body_wf(s),
    ensures
        forall|i: int, j: int| 0 <= i < j < s.len() ==> entry_le(s[i], s[j]),
{
    assert forall|i: int, j: int| 0 <= i < j < s.len() implies entry_le(s[i], s[j]) by {
        if s[j].is_dir {
            assert(s[i].is_dir);
        }
    }
}

/// Pairwise-ordered sequences with the same entries and distinct names are
/// equal: the entry set determines the sequence.
proof fn lemma_ordered_unique(s1: Seq<FileView>, s2: Seq<FileView>)
    requires
        s1.to_multiset() == s2.to_multiset(),
        forall|i: int, j: int| 0 <= i < j < s1.len() ==> entry_le(s1[i], s1[j]),
        forall|i: int, j: int| 0 <= i < j < s2.len() ==> entry_le(s2[i], s2[j]),
        distinct_names(s1),
    ensures
        s1 == s2,
    decreases s1.len(),
{
    assert(s1.len() == s2.len()) by {
        s1.to_multiset_ensures();
        s2.to_multiset_ensures();
        assert(s1.to_multiset().len() == s2.to_multiset().len());
    }
    if s1.len() == 0 {
        assert(s1 =~= s2);
    } else {
        // The two heads bound each other in the combined order, so they
        // carry the same name; distinctness then makes them the same entry.
        assert(s2.contains(s2[0]));
        assert(s2.to_multiset().count(s2[0]) > 0);
        assert(s1.to_multiset().count(s2[0]) > 0);
        assert(s1.contains(s2[0]));
        let j = choose|j: int| 0 <= j < s1.len() && s1[j] == s2[0];
        assert(s1.contains(s1[0]));
        assert(s1.to_multiset().count(s1[0]) > 0);
        assert(s2.to_multiset().count(s1[0]) > 0);
        assert(s2.contains(s1[0]));
        let k = choose|k: int| 0 <= k < s2.len() && s2[k] == s1[0];
        lemma_lex_le_total(s1[0].name, s1[0].name);
        lemma_lex_le_total(s2[0].name, s2[0].name);
        assert(entry_le(s1[0], s1[j]));
        assert(entry_le(s2[0], s2[k]));
        assert(entry_le(s1[0], s2[0]));
        assert(entry_le(s2[0], s1[0]));
        assert(s1[0].is_dir == s2[0].is_dir);
        lemma_lex_le_antisymmetric(s1[0].name, s2[0].name);
        assert(s1[0].name == s2[0].name);
        if j != 0 {
            assert(s1[0].name != s1[j].name);
            assert(false);
        }
        assert(s2[0] == s1[0]);
        let t1 = s1.drop_first();
        let t2 = s2.drop_first();
        lemma_head_multiset(s1, s1[0]);
        lemma_head_multiset(s2, s2[0]);
        assert(t1.to_multiset().insert(s1[0]) == t2.to_multiset().insert(s1[0]));
        assert(t1.to_multiset() =~= t2.to_multiset()) by {
            assert(t1.to_multiset().insert(s1[0]).remove(s1[0]) =~= t1.to_multiset());
            assert(t2.to_multiset().insert(s1[0]).remove(s1[0]) =~= t2.to_multiset());
        }
        assert forall|a: int, b: int| 0 <= a < b < t1.len() implies entry_le(t1[a], t1[b]) by {
            assert(t1[a] == s1[a + 1]);
            assert(t1[b] == s1[b + 1]);
        }
        assert forall|a: int, b: int| 0 <= a < b < t2.len() implies entry_le(t2[a], t2[b]) by {
            assert(t2[a] == s2[a + 1]);
            assert(t2[b] == s2[b + 1]);
        }
        assert(distinct_names(t1)) by {
            assert forall|a: int, b: int| 0 <= a < b < t1.len() implies t1[a].name != t1[b].name by {
                assert(t1[a] == s1[a + 1]);
                assert(t1[b] == s1[b + 1]);
            }
        }
        lemma_ordered_unique(t1, t2);
        assert(s1 =~= s2) by {
            assert forall|i: int| 0 <= i < s1.len() implies s1[i] == s2[i] by {
                if i > 0 {
                    assert(s1[i] == t1[i - 1]);
                    assert(s2[i] == t2[i - 1]);
                }
            }
        }
    }
}

/// A listing is pinned by its entry set: when display names are pairwise
/// distinct — as the children of a real directory always are — two listings
/// of the same children under the same visibility are equal outright.
pub proof fn lemma_listing_determined(
    l1: Seq<FileView>,
    l2: Seq<FileView>,
    cwd: Seq<char>,
    children: Seq<RawView>,
    show_hidden: bool,
)
    requires
        is_listing_of(l1, cwd, children, show_hidden),
        is_listing_of(l2, cwd, children, show_hidden),
        distinct_names(l1),
    ensures
        l1 == l2,
{
    match parent_path_of(cwd) {
        Some(p) => {
            let b1 = l1.drop_first();
            let b2 = l2.drop_first();
            lemma_body_wf_pairwise(b1);
            lemma_body_wf_pairwise(b2);
            assert(distinct_names(b1)) by {
                assert forall|a: int, b: int|
                    0 <= a < b < b1.len() implies b1[a].name != b1[b].name by {
                    assert(b1[a] == l1[a + 1]);
                    assert(b1[b] == l1[b + 1]);
                }
            }
            lemma_ordered_unique(b1, b2);
            assert(l1 =~= l2) by {
                assert forall|i: int| 0 <= i < l1.len() implies l1[i] == l2[i] by {
                    if i > 0 {
                        assert(l1[i] == b1[i - 1]);
                        assert(l2[i] == b2[i - 1]);
                    }
                }
            }
        },
        None => {
            lemma_body_wf_pairwise(l1);
            lemma_body_wf_pairwise(l2);
            lemma_ordered_unique(l1, l2);
        },
    }
}

/// A sequence's multiset is its first element inserted into the rest.
proof fn lemma_head_multiset<A>(s: Seq<A>, head: A)
    requires
        s.len() >= 1,
        s[0] == head,
    ensures
        s.to_multiset() == s.drop_first().to_multiset().insert(head),
{
    assert(s.drop_first() =~= s.remove(0));
    assert(s.contains(head));
    assert(s.to_multiset().count(head) > 0);
    assert(s.remove(0).to_multiset() == s.to_multiset().remove(head));
    lemma_remove_insert(s.to_multiset(), head);
}

/// A multiset that counts `x` at least once is what remains after removing
/// `x`, with `x` put back.
proof fn lemma_remove_insert<A>(m: Multiset<A>, x: A)
    requires
        m.count(x) >= 1,
    ensures
        m.remove(x).insert(x) == m,
{
    assert(m.remove(x).insert(x) =~= m);
}

/// Inserting into a sequence inserts into its multiset.
proof fn lemma_insert_to_multiset<A>(s: Seq<A>, i: int, x: A)
    requires
        0 <= i <= s.len(),
    ensures
        s.insert(i, x).to_multiset() == s.to_multiset().insert(x),
{
    let t = s.insert(i, x);
    s.insert_ensures(i, x);
    assert(t.remove(i) =~= s);
    assert(t[i] == x);
    assert(t.contains(x));
    assert(t.to_multiset().count(x) > 0);
    assert(s.to_multiset() == t.to_multiset().remove(x));
    lemma_remove_insert(t.to_multiset(), x);
}

/// Dropping the last element removes it from the multiset.
proof fn lemma_drop_last_to_multiset<A>(s: Seq<A>)
    requires
        s.len() > 0,
    ensures
        s.to_multiset() == s.drop_last().to_multiset().insert(s.last()),
{
    assert(s.drop_last() =~= s.remove(s.len() - 1));
    assert(s.contains(s.last()));
    assert(s.to_multiset().count(s.last()) > 0);
    assert(s.drop_last().to_multiset() == s.to_multiset().remove(s.last()));
    lemma_remove_insert(s.to_multiset(), s.last());
}

/// A property of every element carries over to any rearrangement.
proof fn lemma_multiset_all<A>(s1: Seq<A>, s2: Seq<A>, p: spec_fn(A) -> bool)
    requires
        s1.to_multiset() == s2.to_multiset(),
        forall|i: int| 0 <= i < s1.len() ==> p(s1[i]),
    ensures
        forall|i: int| 0 <= i < s2.len() ==> p(s2[i]),
{
    assert forall|i: int| 0 <= i < s2.len() implies p(s2[i]) by {
        assert(s2.contains(s2[i]));
        assert(s2.to_multiset().count(s2[i]) > 0);
        assert(s1.to_multiset().count(s2[i]) > 0);
        assert(s1.contains(s2[i]));
        let j = choose|j: int| 0 <= j < s1.len() && s1[j] == s2[i];
        assert(p(s1[j]));
    }
}

/// Decorate one raw child for display.
fn decorate_entry(c: RawEntry) -> (r: File)
    ensures
        r@ == decorate(c@),
{
    let RawEntry { name, path, is_dir, is_hidden, file_type } = c;
    let display = if is_dir {
        name.concat("/")
    } else {
        name
    };
    File::make(display, path, is_dir, is_hidden, file_type)
}

/// Sort entries ascending by display name (insertion sort). The result is a
/// rearrangement of the input.
#[verifier::rlimit(60)]
fn sort_by_name(input: Vec<File>) -> (r: Vec<File>)
    ensures
        r.deep_view().to_multiset() == input.deep_view().to_multiset(),
        sorted_names(r.deep_view()),
{
    let ghost all = input.deep_view();
    let mut rest = input;
    let mut out: Vec<File> = Vec::new();
    proof {
        assert(out.deep_view() =~= Seq::<FileView>::empty());
        assert(out.deep_view().to_multiset().add(rest.deep_view().to_multiset()) =~= all.to_multiset());
    }
    while rest.len() > 0
        invariant
            out.deep_view().to_multiset().add(rest.deep_view().to_multiset()) == all.to_multiset(),
            sorted_names(out.deep_view()),
        decreases rest.len(),
    {
        let ghost pre = rest.deep_view();
        let x = rest.pop().unwrap();
        let ghost xv = x@;
        proof {
            assert(rest.deep_view() =~= pre.drop_last());
            assert(xv == pre.last());
            lemma_drop_last_to_multiset::<FileView>(pre);
        }
        let mut j: usize = 0;
        loop
            invariant_except_break
                j <= out.len(),
                forall|k: int| 0 <= k < j ==> lex_le(out.deep_view()[k].name, x@.name),
            ensures
                j <= out.len(),
                forall|k: int| 0 <= k < j ==> lex_le(out.deep_view()[k].name, x@.name),
                j < out.len() ==> !lex_le(out.deep_view()[j as int].name, x@.name),
            decreases out.len() - j,
        {
            if j == out.len() {
                break ;
            }
            let le = name_le(out[j].name(), x.name());
            proof {
                assert(out.deep_view()[j as int] == out@[j as int]@);
                assert(le == lex_le(out.deep_view()[j as int].name, x@.name));
            }
            if !le {
                break ;
            }
            j = j + 1;
        }
        let ghost pre_out = out.deep_view();
        out.insert(j, x);
        proof {
            assert(out.deep_view() =~= pre_out.insert(j as int, xv));
            lemma_insert_to_multiset(pre_out, j as int, xv);
            pre_out.insert_ensures(j as int, xv);
            assert forall|a: int, b: int|
                0 <= a < b < out.deep_view().len() implies lex_le(
                out.deep_view()[a].name,
                out.deep_view()[b].name,
            ) by {
                let s = out.deep_view();
                let ji = j as int;
                if a < ji && b < ji {
                    assert(s[a] == pre_out[a]);
                    assert(s[b] == pre_out[b]);
                } else if a < ji && b == ji {
                    assert(s[a] == pre_out[a]);
                    assert(s[b] == xv);
                } else if a == ji && b > ji {
                    assert(s[a] == xv);
                    assert(s[b] == pre_out[b - 1]);
                    if ji < pre_out.len() {
                        lemma_lex_le_total(xv.name, pre_out[ji].name);
                        assert(lex_le(xv.name, pre_out[ji].name));
                        if b - 1 > ji {
                            assert(lex_le(pre_out[ji].name, pre_out[b - 1].name));
                            lemma_lex_le_transitive(xv.name, pre_out[ji].name, pre_out[b - 1].name);
                        }
                    }
                } else if a < ji && b > ji {
                    assert(s[a] == pre_out[a]);
                    assert(s[b] == pre_out[b - 1]);
                    assert(a < b - 1);
                    assert(lex_le(pre_out[a].name, pre_out[b - 1].name));
                } else {
                    assert(a > ji && b > ji);
                    assert(s[a] == pre_out[a - 1]);
                    assert(s[b] == pre_out[b - 1]);
                }
            }
        }
    }
    proof {
        assert(rest.deep_view() =~= Seq::<FileView>::empty());
        assert(out.deep_view().to_multiset().add(rest.deep_view().to_multiset())
            =~= out.deep_view().to_multiset());
    }
    out
}

/// Build the listing of a directory from its raw children: keep the visible
/// ones, decorate them, partition directories before non-directories, sort
/// each group by name, and prepend the synthetic parent entry when `cwd` has
/// a parent.
pub fn build_listing(cwd: &str, children: Vec<RawEntry>, show_hidden: bool) -> (r: Vec<File>)
    ensures
        is_listing_of(r.deep_view(), cwd@, children.deep_view(), show_hidden),
{
    let ghost all = children.deep_view();
    let mut rest = children;
    let mut dirs: Vec<File> = Vec::new();
    let mut others: Vec<File> = Vec::new();
    proof {
        assert(dirs.deep_view() =~= Seq::<FileView>::empty());
        assert(others.deep_view() =~= Seq::<FileView>::empty());
        assert(dirs.deep_view().to_multiset().add(others.deep_view().to_multiset()).add(
            listing_multiset(rest.deep_view(), show_hidden),
        ) =~= listing_multiset(all, show_hidden));
    }
    while rest.len() > 0
        invariant
            dirs.deep_view().to_multiset().add(others.deep_view().to_multiset()).add(
                listing_multiset(rest.deep_view(), show_hidden),
            ) == listing_multiset(all, show_hidden),
            forall|i: int| 0 <= i < dirs.deep_view().len() ==> dirs.deep_view()[i].is_dir,
            forall|i: int| 0 <= i < others.deep_view().len() ==> !others.deep_view()[i].is_dir,
        decreases rest.len(),
    {
        let ghost pre = rest.deep_view();
        let c = rest.pop().unwrap();
        let ghost cv = c@;
        proof {
            assert(rest.deep_view() =~= pre.drop_last());
            assert(cv == pre.last());
        }
        let is_shown = show_hidden || !c.is_hidden;
        if is_shown {
            let is_d = c.is_dir;
            let f = decorate_entry(c);
            if is_d {
                let ghost pre_dirs = dirs.deep_view();
                dirs.push(f);
                proof {
                    assert(dirs.deep_view() =~= pre_dirs.push(decorate(cv)));
                    assert(dirs.deep_view().to_multiset() == pre_dirs.to_multiset().insert(
                        decorate(cv),
                    ));
                    assert(dirs.deep_view().to_multiset().add(
                        others.deep_view().to_multiset(),
                    ).add(listing_multiset(rest.deep_view(), show_hidden)) =~= listing_multiset(
                        all,
                        show_hidden,
                    ));
                }
            } else {
                let ghost pre_others = others.deep_view();
                others.push(f);
                proof {
                    assert(others.deep_view() =~= pre_others.push(decorate(cv)));
                    assert(others.deep_view().to_multiset() == pre_others.to_multiset().insert(
                        decorate(cv),
                    ));
                    assert(dirs.deep_view().to_multiset().add(
                        others.deep_view().to_multiset(),
                    ).add(listing_multiset(rest.deep_view(), show_hidden)) =~= listing_multiset(
                        all,
                        show_hidden,
                    ));
                }
            }
        }
    }
    proof {
        assert(rest.deep_view() =~= Seq::<RawView>::empty());
        assert(dirs.deep_view().to_multiset().add(others.deep_view().to_multiset())
            =~= listing_multiset(all, show_hidden));
    }
    let ghost dirs_pre = dirs.deep_view();
    let ghost others_pre = others.deep_view();
    let mut dirs_sorted = sort_by_name(dirs);
    let mut others_sorted = sort_by_name(others);
    proof {
        lemma_multiset_all(
            dirs_pre,
            dirs_sorted.deep_view(),
            |v: FileView| v.is_dir,
        );
        lemma_multiset_all(
            others_pre,
            others_sorted.deep_view(),
            |v: FileView| !v.is_dir,
        );
    }
    let ghost ds = dirs_sorted.deep_view();
    let ghost os = others_sorted.deep_view();
    proof {
        lemma_multiset_commutative(ds, os);
        assert((ds + os).to_multiset() == listing_multiset(all, show_hidden));
        assert(body_wf(ds + os)) by {
            assert forall|i: int, j: int|
                0 <= i < j < (ds + os).len() && (ds + os)[j].is_dir implies (ds + os)[i].is_dir by {
                assert(j < ds.len());
            }
            assert forall|i: int, j: int|
                0 <= i < j < (ds + os).len() && (ds + os)[i].is_dir == (ds + os)[j].is_dir implies lex_le(
                (ds + os)[i].name,
                (ds + os)[j].name,
            ) by {
                if j < ds.len() {
                } else if i >= ds.len() {
                } else {
                    assert((ds + os)[i].is_dir);
                    assert(!(ds + os)[j].is_dir);
                }
            }
        }
    }
    let mut result: Vec<File> = Vec::new();
    let parent = parent_of(cwd);
    match parent {
        Some(p) => {
            let ghost pv = p@;
            let head = File::make("../".to_owned(), p, true, false, None);
            result.push(head);
            proof {
                assert(result.deep_view() =~= seq![parent_entry(pv)]);
            }
            result.append(&mut dirs_sorted);
            result.append(&mut others_sorted);
            proof {
                assert(result.deep_view() =~= seq![parent_entry(pv)] + (ds + os));
                let listing = result.deep_view();
                assert(listing[0] == parent_entry(pv));
                assert(listing.drop_first() =~= ds + os);
            }
        },
        None => {
            result.append(&mut dirs_sorted);
            result.append(&mut others_sorted);
            proof {
                assert(result.deep_view() =~= ds + os);
            }
        },
    }
    result
}

} // verus!

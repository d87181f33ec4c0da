//! The namespace tree of helpers, built from the flat list of their paths.
//!
//! A path is the list of its components. The sources are handed in as one
//! list, and a helper is known by its index in it.

use vstd::prelude::*;
use crate::decl::texts_view;
use crate::helpers::{
    ends_with_js, get_helper_info, helper_info, lemma_directory_view, nodes_view, normalize_name,
    normalized, NodeView, SailsDeclHelperDirectory, SailsDeclHelperTree, SailsDeclHelperTreeNode,
};
use crate::script::{Script, StmtView};
use crate::text::{chars_of, text_eq};

verus! {

/// One candidate file: the components of its path, and what parsing it gave
/// (`None` where it could not be read or did not parse).
#[derive(Debug, PartialEq, Eq)]
pub struct HelperSource {
    pub path: Vec<String>,
    pub script: Option<Script>,
}

/// The view of a [`HelperSource`].
#[verifier::ext_equal]
pub struct HelperSourceView {
    pub path: Seq<Seq<char>>,
    pub script: Option<Seq<StmtView>>,
}

impl View for HelperSource {
    type V = HelperSourceView;

    open spec fn view(&self) -> HelperSourceView {
        HelperSourceView {
            path: texts_view(self.path@),
            script: match self.script {
                Some(s) => Some(s@),
                None => None,
            },
        }
    }
}

/// The views of a list of sources.
pub open spec fn sources_view(ss: Seq<HelperSource>) -> Seq<HelperSourceView> {
    Seq::new(ss.len(), |i: int| ss[i]@)
}

/// Whether `a` comes before `b` in the order of their characters.
pub open spec fn text_lt(a: Seq<char>, b: Seq<char>) -> bool
    decreases a.len(),
{
    if b.len() == 0 {
        false
    } else if a.len() == 0 {
        true
    } else if a[0] != b[0] {
        a[0] < b[0]
    } else {
        text_lt(a.drop_first(), b.drop_first())
    }
}

/// Whether `a` comes before `b` in the order of their characters.
pub fn text_before(a: &str, b: &str) -> (r: bool)
    ensures
        r == text_lt(a@, b@),
{
    let x = chars_of(a);
    let y = chars_of(b);
    let mut i: usize = 0;
    assert(x@.skip(0) =~= x@);
    assert(y@.skip(0) =~= y@);
    while i < x.len() && i < y.len()
        invariant
            i <= x@.len(),
            i <= y@.len(),
            x@ == a@,
            y@ == b@,
            text_lt(a@, b@) == text_lt(x@.skip(i as int), y@.skip(i as int)),
        decreases x@.len() - i,
    {
        proof {
            assert(x@.skip(i as int).drop_first() =~= x@.skip(i + 1));
            assert(y@.skip(i as int).drop_first() =~= y@.skip(i + 1));
        }
        if x[i] != y[i] {
            return x[i] < y[i];
        }
        i += 1;
    }
    i < y.len()
}

/// The length of the longest path.
pub open spec fn max_len(srcs: Seq<HelperSourceView>) -> nat
    decreases srcs.len(),
{
    if srcs.len() == 0 {
        0
    } else {
        let rest = max_len(srcs.drop_last());
        if srcs.last().path.len() > rest {
            srcs.last().path.len()
        } else {
            rest
        }
    }
}

/// No path is longer than the longest.
pub proof fn lemma_max_len(srcs: Seq<HelperSourceView>, i: int)
    requires
        0 <= i < srcs.len(),
    ensures
        srcs[i].path.len() <= max_len(srcs),
    decreases srcs.len(),
{
    if i < srcs.len() - 1 {
        lemma_max_len(srcs.drop_last(), i);
    }
}

/// Whether the source `m` has a component at `at`.
pub open spec fn has_seg(srcs: Seq<HelperSourceView>, m: usize, at: nat) -> bool {
    m < srcs.len() && at < srcs[m as int].path.len()
}

/// Whether the source `m` has the component `name` at `at`.
pub open spec fn in_group(srcs: Seq<HelperSourceView>, m: usize, at: nat, name: Seq<char>) -> bool {
    has_seg(srcs, m, at) && srcs[m as int].path[at as int] == name
}

/// Those of the first `k` members whose component at `at` is `name`.
pub open spec fn group(
    srcs: Seq<HelperSourceView>,
    members: Seq<usize>,
    at: nat,
    name: Seq<char>,
    k: nat,
) -> Seq<usize>
    decreases k,
{
    if k == 0 || k > members.len() {
        Seq::empty()
    } else if in_group(srcs, members[k - 1], at, name) {
        group(srcs, members, at, name, (k - 1) as nat).push(members[k - 1])
    } else {
        group(srcs, members, at, name, (k - 1) as nat)
    }
}

/// The first of the first `k` members whose path is `name` at `at` and ends
/// there: the file of that name.
pub open spec fn file_member(
    srcs: Seq<HelperSourceView>,
    members: Seq<usize>,
    at: nat,
    name: Seq<char>,
    k: nat,
) -> Option<usize>
    decreases k,
{
    if k == 0 || k > members.len() {
        None
    } else {
        match file_member(srcs, members, at, name, (k - 1) as nat) {
            Some(m) => Some(m),
            None => if in_group(srcs, members[k - 1], at, name) && srcs[members[k - 1] as int].path.len()
                == at + 1 {
                Some(members[k - 1])
            } else {
                None
            },
        }
    }
}

/// Every member of a group has the name of the group at its level, and the
/// file of a group is such a member whose path ends there.
pub proof fn lemma_group_members(
    srcs: Seq<HelperSourceView>,
    members: Seq<usize>,
    at: nat,
    name: Seq<char>,
    k: nat,
)
    ensures
        forall|i: int|
            0 <= i < group(srcs, members, at, name, k).len() ==> in_group(
                srcs,
                #[trigger] group(srcs, members, at, name, k)[i],
                at,
                name,
            ),
        file_member(srcs, members, at, name, k) matches Some(m) ==> in_group(srcs, m, at, name)
            && srcs[m as int].path.len() == at + 1,
    decreases k,
{
    if k > 0 && k <= members.len() {
        lemma_group_members(srcs, members, at, name, (k - 1) as nat);
        let g = group(srcs, members, at, name, k);
        let p = group(srcs, members, at, name, (k - 1) as nat);
        assert forall|i: int| 0 <= i < g.len() implies in_group(srcs, #[trigger] g[i], at, name) by {
            if i < p.len() {
                assert(g[i] == p[i]);
            }
        }
    }
}

/// Whether a file name has the extension `js`: it ends in `.js` and has
/// something before that.
pub open spec fn has_js_extension(name: Seq<char>) -> bool {
    name.len() > 3 && ends_with_js(name)
}

/// The name under which a node is declared.
pub open spec fn node_name(n: NodeView) -> Seq<char> {
    match n {
        NodeView::Helper(info) => info.name,
        NodeView::Directory { name, .. } => name,
    }
}

/// `nodes` with `n` put in before the first node whose name comes after the
/// name of `n`.
pub open spec fn insert_sorted(nodes: Seq<NodeView>, n: NodeView) -> Seq<NodeView>
    decreases nodes.len(),
{
    if nodes.len() == 0 {
        seq![n]
    } else if text_lt(node_name(n), node_name(nodes[0])) {
        seq![n] + nodes
    } else {
        seq![nodes[0]] + insert_sorted(nodes.drop_first(), n)
    }
}

/// The node that the members with the component `name` at `at` give.
///
/// The group is a helper where one of its members is the file of that name
/// and the name has the extension `js`: the node is that helper, and there is
/// no node where the file is no helper. Any other group is a directory: the
/// node is the directory of that name with the tree of its members one level
/// further down, and there is no node where that tree is empty.
pub open spec fn group_node(
    srcs: Seq<HelperSourceView>,
    members: Seq<usize>,
    at: nat,
    name: Seq<char>,
) -> Option<NodeView>
    decreases max_len(srcs) - at, 0nat, 0nat,
{
    let file = file_member(srcs, members, at, name, members.len());
    if file is Some && has_js_extension(name) {
        match helper_info(srcs[file->0 as int].script, name, file->0) {
            Ok(info) => Some(NodeView::Helper(info)),
            Err(_) => None,
        }
    } else {
        let g = group(srcs, members, at, name, members.len());
        if g.len() == 0 {
            None
        } else {
            proof {
                lemma_group_members(srcs, members, at, name, members.len());
                lemma_max_len(srcs, g[0] as int);
            }
            let children = tree_upto(srcs, g, at + 1, g.len());
            if children.len() == 0 {
                None
            } else {
                Some(NodeView::Directory { name: normalized(name), children })
            }
        }
    }
}

/// The nodes that the first `k` members give at the level `at`: one node for
/// each name that some member has there, as far as the name gives a node, in
/// the order of the names.
pub open spec fn tree_upto(srcs: Seq<HelperSourceView>, members: Seq<usize>, at: nat, k: nat) -> Seq<
    NodeView,
>
    decreases max_len(srcs) - at, 1nat, k,
{
    if k == 0 || k > members.len() {
        Seq::empty()
    } else {
        let before = tree_upto(srcs, members, at, (k - 1) as nat);
        let m = members[k - 1];
        if !has_seg(srcs, m, at) {
            before
        } else {
            let name = srcs[m as int].path[at as int];
            if group(srcs, members, at, name, (k - 1) as nat).len() > 0 {
                before
            } else {
                match group_node(srcs, members, at, name) {
                    Some(n) => insert_sorted(before, n),
                    None => before,
                }
            }
        }
    }
}

/// Whether `path` lies under `root`: it starts with the components of `root`.
pub open spec fn under(path: Seq<Seq<char>>, root: Seq<Seq<char>>) -> bool {
    root.len() <= path.len() && forall|i: int| 0 <= i < root.len() ==> path[i] == root[i]
}

/// The indices of those of the first `k` sources that lie under `root`.
pub open spec fn members_under(srcs: Seq<HelperSourceView>, root: Seq<Seq<char>>, k: nat) -> Seq<usize>
    decreases k,
{
    if k == 0 || k > srcs.len() {
        Seq::empty()
    } else if under(srcs[k - 1].path, root) {
        members_under(srcs, root, (k - 1) as nat).push((k - 1) as usize)
    } else {
        members_under(srcs, root, (k - 1) as nat)
    }
}

/// The namespace tree of the sources that lie under `root`.
pub open spec fn helper_tree(srcs: Seq<HelperSourceView>, root: Seq<Seq<char>>) -> Seq<NodeView> {
    let members = members_under(srcs, root, srcs.len());
    tree_upto(srcs, members, root.len(), members.len())
}

/// The name under which a node is declared.
pub fn name_of(node: &SailsDeclHelperTreeNode) -> (r: &str)
    ensures
        r@ == node_name(node@),
{
    match node {
        SailsDeclHelperTreeNode::Helper(info) => info.name.as_str(),
        SailsDeclHelperTreeNode::Directory(d) => {
            proof {
                lemma_directory_view(*d);
            }
            d.name.as_str()
        },
    }
}

/// Puts a node into a list of nodes, before the first one whose name comes
/// after its own.
pub fn insert_node(nodes: &mut Vec<SailsDeclHelperTreeNode>, n: SailsDeclHelperTreeNode)
    ensures
        nodes_view(final(nodes)@) == insert_sorted(nodes_view(old(nodes)@), n@),
{
    let ghost all = nodes_view(nodes@);
    let len = nodes.len();
    let mut p: usize = 0;
    assert(all.skip(0) =~= all);
    assert(all.take(0) + insert_sorted(all, n@) =~= insert_sorted(all, n@));
    while p < len && !text_before(name_of(&n), name_of(&nodes[p]))
        invariant
            len == nodes@.len(),
            p <= len,
            all == nodes_view(nodes@),
            insert_sorted(all, n@) == all.take(p as int) + insert_sorted(all.skip(p as int), n@),
        decreases len - p,
    {
        proof {
            assert(all.skip(p as int).drop_first() =~= all.skip(p + 1));
            assert(all.take(p as int) + (seq![all[p as int]] + insert_sorted(all.skip(p + 1), n@))
                =~= all.take(p + 1) + insert_sorted(all.skip(p + 1), n@));
        }
        p += 1;
    }
    let ghost nv = n@;
    proof {
        if p < len {
            assert(all.skip(p as int)[0] == nodes@[p as int]@);
        }
    }
    nodes.insert(p, n);
    assert(nodes_view(nodes@) =~= all.take(p as int) + (seq![nv] + all.skip(p as int)));
}

/// Whether a file name has the extension `js`.
pub fn js_extension(name: &str) -> (r: bool)
    ensures
        r == has_js_extension(name@),
{
    let c = chars_of(name);
    let n = c.len();
    n > 3 && c[n - 3] == '.' && c[n - 2] == 'j' && c[n - 1] == 's'
}

/// Whether the source `m` has the component `name` at `at`.
fn in_group_at(helpers: &Vec<HelperSource>, m: usize, at: usize, name: &str) -> (r: bool)
    ensures
        r == in_group(sources_view(helpers@), m, at as nat, name@),
{
    m < helpers.len() && at < helpers[m].path.len() && text_eq(helpers[m].path[at].as_str(), name)
}

/// Whether one of the first `k` members has the component `name` at `at`.
fn seen_before(helpers: &Vec<HelperSource>, members: &Vec<usize>, at: usize, name: &str, k: usize) -> (r:
    bool)
    requires
        k <= members@.len(),
    ensures
        r == (group(sources_view(helpers@), members@, at as nat, name@, k as nat).len() > 0),
{
    let mut j: usize = 0;
    while j < k
        invariant
            j <= k <= members@.len(),
            group(sources_view(helpers@), members@, at as nat, name@, j as nat).len() == 0,
        decreases k - j,
    {
        if in_group_at(helpers, members[j], at, name) {
            proof {
                lemma_group_grows(sources_view(helpers@), members@, at as nat, name@, (j + 1) as nat, k as nat);
            }
            return true;
        }
        j += 1;
    }
    false
}

/// A group only grows as more members are looked at.
pub proof fn lemma_group_grows(
    srcs: Seq<HelperSourceView>,
    members: Seq<usize>,
    at: nat,
    name: Seq<char>,
    j: nat,
    k: nat,
)
    requires
        j <= k <= members.len(),
    ensures
        group(srcs, members, at, name, j).len() <= group(srcs, members, at, name, k).len(),
    decreases k - j,
{
    if j < k {
        lemma_group_grows(srcs, members, at, name, j, (k - 1) as nat);
    }
}

/// The members with the component `name` at `at`, and the file of that name
/// among them.
fn collect_group(helpers: &Vec<HelperSource>, members: &Vec<usize>, at: usize, name: &str) -> (r: (
    Vec<usize>,
    Option<usize>,
))
    ensures
        r.0@ == group(sources_view(helpers@), members@, at as nat, name@, members@.len()),
        r.1 == file_member(sources_view(helpers@), members@, at as nat, name@, members@.len()),
{
    let mut g: Vec<usize> = Vec::new();
    let mut file: Option<usize> = None;
    let n = members.len();
    let mut k: usize = 0;
    while k < n
        invariant
            n == members@.len(),
            k <= n,
            g@ == group(sources_view(helpers@), members@, at as nat, name@, k as nat),
            file == file_member(sources_view(helpers@), members@, at as nat, name@, k as nat),
        decreases n - k,
    {
        let m = members[k];
        if in_group_at(helpers, m, at, name) {
            g.push(m);
            if file.is_none() && helpers[m].path.len() == at + 1 {
                file = Some(m);
            }
        }
        k += 1;
    }
    (g, file)
}

/// Builds the node of the group `name`.
fn build_group_node(helpers: &Vec<HelperSource>, members: &Vec<usize>, at: usize, name: &str) -> (r:
    Option<SailsDeclHelperTreeNode>)
    ensures
        match r {
            Some(n) => group_node(sources_view(helpers@), members@, at as nat, name@) == Some(n@),
            None => group_node(sources_view(helpers@), members@, at as nat, name@) is None,
        },
    decreases max_len(sources_view(helpers@)) - at, 0nat, 0nat,
{
    let ghost srcs = sources_view(helpers@);
    let (g, file) = collect_group(helpers, members, at, name);
    proof {
        lemma_group_members(srcs, members@, at as nat, name@, members@.len());
    }
    match file {
        Some(m) if js_extension(name) => {
            let parsed = match &helpers[m].script {
                Some(s) => Some(s),
                None => None,
            };
            match get_helper_info(parsed, name, m) {
                Ok(info) => Some(SailsDeclHelperTreeNode::Helper(info)),
                Err(_) => None,
            }
        },
        _ => {
            if g.len() == 0 {
                None
            } else {
                proof {
                    lemma_max_len(srcs, g@[0] as int);
                    assert(in_group(srcs, g@[0], at as nat, name@));
                    assert(at < helpers@[g@[0] as int].path.len());
                }
                let children = build_tree_recursive(helpers, &g, at + 1);
                if children.len() == 0 {
                    None
                } else {
                    let d = SailsDeclHelperDirectory { name: normalize_name(name), children };
                    proof {
                        lemma_directory_view(d);
                    }
                    Some(SailsDeclHelperTreeNode::Directory(d))
                }
            }
        },
    }
}

/// Builds the nodes of one level: one for each name that a member has at `at`.
fn build_tree_recursive(helpers: &Vec<HelperSource>, members: &Vec<usize>, at: usize) -> (r: Vec<
    SailsDeclHelperTreeNode,
>)
    ensures
        nodes_view(r@) == tree_upto(sources_view(helpers@), members@, at as nat, members@.len()),
    decreases max_len(sources_view(helpers@)) - at, 1nat, members@.len(),
{
    let ghost srcs = sources_view(helpers@);
    let mut nodes: Vec<SailsDeclHelperTreeNode> = Vec::new();
    let n = members.len();
    let mut k: usize = 0;
    assert(nodes_view(nodes@) =~= Seq::<NodeView>::empty());
    while k < n
        invariant
            n == members@.len(),
            k <= n,
            srcs == sources_view(helpers@),
            nodes_view(nodes@) == tree_upto(srcs, members@, at as nat, k as nat),
        decreases n - k,
    {
        let m = members[k];
        if m < helpers.len() && at < helpers[m].path.len() {
            let name = helpers[m].path[at].as_str();
            if !seen_before(helpers, members, at, name, k) {
                match build_group_node(helpers, members, at, name) {
                    Some(node) => {
                        insert_node(&mut nodes, node);
                    },
                    None => {},
                }
            }
        }
        k += 1;
    }
    nodes
}

/// Whether a path lies under a root.
pub fn is_under(path: &Vec<String>, root: &Vec<String>) -> (r: bool)
    ensures
        r == under(texts_view(path@), texts_view(root@)),
{
    if root.len() > path.len() {
        return false;
    }
    let n = root.len();
    let mut i: usize = 0;
    while i < n
        invariant
            n == root@.len(),
            n <= path@.len(),
            i <= n,
            forall|j: int| 0 <= j < i ==> texts_view(path@)[j] == texts_view(root@)[j],
        decreases n - i,
    {
        if !text_eq(path[i].as_str(), root[i].as_str()) {
            assert(texts_view(path@)[i as int] != texts_view(root@)[i as int]);
            return false;
        }
        i += 1;
    }
    true
}

/// Builds the namespace tree of the helpers that lie under `helpers_folder`.
///
/// The paths are grouped by their first component below the folder. A group
/// that holds the file of that name, where the name has the extension `js`,
/// gives a helper, provided that the file is one; any other group is a
/// directory, whose members are grouped again one level further down. A file
/// that is no helper and a directory without any helper give no node. On each
/// level the nodes stand in the order of their normalized names.
pub fn build_tree(helpers: &Vec<HelperSource>, helpers_folder: &Vec<String>) -> (r: Vec<
    SailsDeclHelperTreeNode,
>)
    ensures
        nodes_view(r@) == helper_tree(sources_view(helpers@), texts_view(helpers_folder@)),
{
    let ghost srcs = sources_view(helpers@);
    let ghost root = texts_view(helpers_folder@);
    let mut members: Vec<usize> = Vec::new();
    let n = helpers.len();
    let mut k: usize = 0;
    while k < n
        invariant
            n == helpers@.len(),
            k <= n,
            srcs == sources_view(helpers@),
            root == texts_view(helpers_folder@),
            members@ == members_under(srcs, root, k as nat),
        decreases n - k,
    {
        if is_under(&helpers[k].path, helpers_folder) {
            members.push(k);
        }
        k += 1;
    }
    build_tree_recursive(helpers, &members, helpers_folder.len())
}

impl SailsDeclHelperTree {
    /// The namespace tree of the helpers that lie under `helpers_folder`.
    pub fn new(helpers: &Vec<HelperSource>, helpers_folder: &Vec<String>) -> (r: Self)
        ensures
            r@ == helper_tree(sources_view(helpers@), texts_view(helpers_folder@)),
    {
        SailsDeclHelperTree { root: build_tree(helpers, helpers_folder) }
    }
}

} // verus!

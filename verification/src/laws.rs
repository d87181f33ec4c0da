//! What holds of every namespace tree, and of the declaration that is made of
//! it.

use vstd::prelude::*;
use crate::decl::{
    declaration_mentions, document_mentions, lemma_object_mentions, member_mentions,
    members_mention, sound_member, sound_type, type_mentions, TypeExprView,
};
use crate::emit::helpers_module;
use crate::literal_declarations::lemma_prelude_has_no_origin;
use crate::helpers::{
    helper_info, helper_type, helpers_object, leaves, leaves_of, lemma_directory_member,
    node_member, nodes_members, normalized, NodeView, SailsHelperInfoView,
};
use crate::model::{lemma_inputs_never_abort, lemma_members_point_into_file, members_of};
use crate::resolver::DescriptorKind;
use crate::script::StmtView;
use crate::tree::{
    file_member, group, group_node, has_js_extension, helper_tree, in_group, insert_sorted,
    lemma_group_members, lemma_max_len, max_len, members_under, node_name, text_lt, tree_upto,
    under, HelperSourceView,
};
use crate::util::{function_prop, module_exports, object_prop};

verus! {

/// No text comes before itself, and of two texts at most one comes before the
/// other.
pub proof fn lemma_text_lt_asymmetric(a: Seq<char>, b: Seq<char>)
    ensures
        text_lt(a, b) ==> !text_lt(b, a),
    decreases a.len(),
{
    if a.len() > 0 && b.len() > 0 && a[0] == b[0] {
        lemma_text_lt_asymmetric(a.drop_first(), b.drop_first());
    }
}

/// The order of texts is transitive.
pub proof fn lemma_text_lt_transitive(a: Seq<char>, b: Seq<char>, c: Seq<char>)
    requires
        text_lt(a, b),
        text_lt(b, c),
    ensures
        text_lt(a, c),
    decreases a.len(),
{
    if a.len() > 0 && b.len() > 0 && c.len() > 0 && a[0] == b[0] && b[0] == c[0] {
        lemma_text_lt_transitive(a.drop_first(), b.drop_first(), c.drop_first());
    }
}

/// Whether the nodes stand in the order of their names: none comes after a
/// node whose name comes after its own.
pub open spec fn sorted_by_name(ns: Seq<NodeView>) -> bool {
    forall|i: int, j: int|
        0 <= i < j < ns.len() ==> !text_lt(#[trigger] node_name(ns[j]), #[trigger] node_name(ns[i]))
}

/// Whether what parsing gave is a helper: a file that exports an object with
/// a function `fn`.
pub open spec fn is_helper(parsed: Option<Seq<StmtView>>) -> bool {
    parsed matches Some(s) && module_exports(s) matches Some(e) && function_prop(e, "fn"@) is Some
}

/// Whether `l` describes one of the sources: a file with the extension `js`
/// that is a helper, under the normalized name of the file, and with an input
/// type that is sound and points into that file and into no other.
pub open spec fn leaf_of_sources(srcs: Seq<HelperSourceView>, l: SailsHelperInfoView) -> bool {
    &&& l.file < srcs.len()
    &&& is_helper(srcs[l.file as int].script)
    &&& srcs[l.file as int].path.len() > 0
    &&& has_js_extension(srcs[l.file as int].path.last())
    &&& l.name == normalized(srcs[l.file as int].path.last())
    &&& l.return_type is None
    &&& l.input_type is Some ==> sound_type(l.input_type->0)
    &&& l.input_type is Some ==> forall|f: usize| #[trigger]
        type_mentions(l.input_type->0, f) ==> f == l.file
}

/// Whether a node is well formed: a helper describes one of the sources; a
/// directory is not empty, holds its nodes in the order of their names, and
/// holds well-formed nodes only.
pub open spec fn well_formed(srcs: Seq<HelperSourceView>, n: NodeView) -> bool
    decreases n,
{
    match n {
        NodeView::Helper(l) => leaf_of_sources(srcs, l),
        NodeView::Directory { children, .. } => {
            &&& children.len() > 0
            &&& sorted_by_name(children)
            &&& forall|i: int| 0 <= i < children.len() ==> well_formed(srcs, #[trigger] children[i])
        },
    }
}

/// Whether the nodes of one level are well formed and in the order of their
/// names.
pub open spec fn well_formed_level(srcs: Seq<HelperSourceView>, ns: Seq<NodeView>) -> bool {
    &&& sorted_by_name(ns)
    &&& forall|i: int| 0 <= i < ns.len() ==> well_formed(srcs, #[trigger] ns[i])
}

/// Putting a well-formed node into a well-formed level gives a well-formed
/// level.
pub proof fn lemma_insert_sorted(srcs: Seq<HelperSourceView>, ns: Seq<NodeView>, n: NodeView)
    requires
        well_formed_level(srcs, ns),
        well_formed(srcs, n),
    ensures
        well_formed_level(srcs, insert_sorted(ns, n)),
    decreases ns.len(),
{
    let r = insert_sorted(ns, n);
    lemma_insert_sorted_members(ns, n);
    assert forall|i: int| 0 <= i < r.len() implies well_formed(srcs, #[trigger] r[i]) by {
        if r[i] != n {
            let j = choose|j: int| 0 <= j < ns.len() && ns[j] == r[i];
            assert(well_formed(srcs, ns[j]));
        }
    }
    if ns.len() == 0 {
    } else if text_lt(node_name(n), node_name(ns[0])) {
        assert forall|i: int, j: int| 0 <= i < j < r.len() implies !text_lt(
            #[trigger] node_name(r[j]),
            #[trigger] node_name(r[i]),
        ) by {
            if i == 0 {
                let y = ns[j - 1];
                assert(r[j] == y);
                lemma_text_lt_asymmetric(node_name(n), node_name(ns[0]));
                if j - 1 > 0 {
                    assert(!text_lt(node_name(ns[j - 1]), node_name(ns[0])));
                }
                if text_lt(node_name(y), node_name(n)) {
                    lemma_text_lt_transitive(node_name(y), node_name(n), node_name(ns[0]));
                }
            } else {
                assert(r[i] == ns[i - 1]);
                assert(r[j] == ns[j - 1]);
                assert(!text_lt(node_name(ns[j - 1]), node_name(ns[i - 1])));
            }
        }
    } else {
        let rest = ns.drop_first();
        assert forall|i: int, j: int| 0 <= i < j < rest.len() implies !text_lt(
            #[trigger] node_name(rest[j]),
            #[trigger] node_name(rest[i]),
        ) by {
            assert(rest[i] == ns[i + 1]);
            assert(rest[j] == ns[j + 1]);
            assert(!text_lt(node_name(ns[j + 1]), node_name(ns[i + 1])));
        }
        assert forall|i: int| 0 <= i < rest.len() implies well_formed(srcs, #[trigger] rest[i]) by {
            assert(rest[i] == ns[i + 1]);
        }
        lemma_insert_sorted(srcs, rest, n);
        lemma_insert_sorted_members(rest, n);
        let inner = insert_sorted(rest, n);
        assert(r =~= seq![ns[0]] + inner);
        assert forall|i: int, j: int| 0 <= i < j < r.len() implies !text_lt(
            #[trigger] node_name(r[j]),
            #[trigger] node_name(r[i]),
        ) by {
            assert(r[j] == inner[j - 1]);
            if i == 0 {
                if inner[j - 1] != n {
                    let q = choose|q: int| 0 <= q < rest.len() && rest[q] == inner[j - 1];
                    assert(rest[q] == ns[q + 1]);
                    assert(!text_lt(node_name(ns[q + 1]), node_name(ns[0])));
                }
            } else {
                assert(r[i] == inner[i - 1]);
                assert(!text_lt(node_name(inner[j - 1]), node_name(inner[i - 1])));
            }
        }
    }
}

/// The node of a group is well formed.
pub proof fn lemma_group_node_well_formed(
    srcs: Seq<HelperSourceView>,
    members: Seq<usize>,
    at: nat,
    name: Seq<char>,
)
    ensures
        group_node(srcs, members, at, name) matches Some(n) ==> well_formed(srcs, n),
    decreases max_len(srcs) - at, 0nat, 0nat,
{
    lemma_group_members(srcs, members, at, name, members.len());
    let file = file_member(srcs, members, at, name, members.len());
    if file is Some && has_js_extension(name) {
        let m = file->0;
        if let Ok(info) = helper_info(srcs[m as int].script, name, m) {
            let exports = module_exports(srcs[m as int].script->0)->0;
            assert(srcs[m as int].path.last() == name);
            if let Some(inputs) = object_prop(exports, "inputs"@) {
                lemma_inputs_never_abort(inputs, m);
                let ms = members_of(inputs, DescriptorKind::HelperInput, m)->0;
                assert(info.input_type == Some(TypeExprView::Object(ms)));
                lemma_members_point_into_file(inputs, DescriptorKind::HelperInput, m, m);
                assert(sound_type(TypeExprView::Object(ms)));
                assert forall|f: usize| #[trigger]
                    type_mentions(info.input_type->0, f) implies f == m by {
                    lemma_object_mentions(ms, f);
                    lemma_members_point_into_file(inputs, DescriptorKind::HelperInput, m, f);
                }
            }
        }
    } else {
        let g = group(srcs, members, at, name, members.len());
        if g.len() > 0 {
            lemma_max_len(srcs, g[0] as int);
            lemma_tree_well_formed(srcs, g, at + 1, g.len());
        }
    }
}

/// Every level of the tree is well formed.
pub proof fn lemma_tree_well_formed(srcs: Seq<HelperSourceView>, members: Seq<usize>, at: nat, k: nat)
    ensures
        well_formed_level(srcs, tree_upto(srcs, members, at, k)),
    decreases max_len(srcs) - at, 1nat, k,
{
    if k == 0 || k > members.len() {
    } else {
        lemma_tree_well_formed(srcs, members, at, (k - 1) as nat);
        let before = tree_upto(srcs, members, at, (k - 1) as nat);
        let m = members[k - 1];
        if m < srcs.len() && at < srcs[m as int].path.len() {
            let name = srcs[m as int].path[at as int];
            if group(srcs, members, at, name, (k - 1) as nat).len() == 0 {
                lemma_group_node_well_formed(srcs, members, at, name);
                if let Some(n) = group_node(srcs, members, at, name) {
                    lemma_insert_sorted(srcs, before, n);
                }
            }
        }
    }
}

/// The namespace tree is well formed: on every level the nodes stand in the
/// order of their names, no directory is empty, and every helper describes a
/// source that is a helper.
pub proof fn lemma_helper_tree_well_formed(srcs: Seq<HelperSourceView>, root: Seq<Seq<char>>)
    ensures
        well_formed_level(srcs, helper_tree(srcs, root)),
{
    let members = members_under(srcs, root, srcs.len());
    lemma_tree_well_formed(srcs, members, root.len(), members.len());
}

/// Whether the node is the helper of the source `f`, or a directory that
/// holds it.
pub open spec fn node_has_leaf(n: NodeView, f: usize) -> bool
    decreases n,
{
    match n {
        NodeView::Helper(l) => l.file == f,
        NodeView::Directory { children, .. } => exists|i: int|
            0 <= i < children.len() && node_has_leaf(#[trigger] children[i], f),
    }
}

/// Whether the tree holds the helper of the source `f`.
pub open spec fn tree_has_leaf(ns: Seq<NodeView>, f: usize) -> bool {
    exists|i: int| 0 <= i < ns.len() && node_has_leaf(#[trigger] ns[i], f)
}

/// In a well-formed node, the property that declares it points into exactly
/// the sources whose helpers it holds, and each of them is a helper.
pub proof fn lemma_node_sources(srcs: Seq<HelperSourceView>, n: NodeView, f: usize)
    requires
        well_formed(srcs, n),
    ensures
        member_mentions(node_member(n), f) <==> node_has_leaf(n, f),
        node_has_leaf(n, f) ==> f < srcs.len() && is_helper(srcs[f as int].script),
    decreases n,
{
    match n {
        NodeView::Helper(l) => {
            let args = helper_type(l)->Reference_args;
            assert(args.len() == 2);
            assert(!type_mentions(args[1], f));
            if l.file != f {
                assert(!type_mentions(args[0], f));
                assert forall|i: int| 0 <= i < args.len() implies !type_mentions(
                    #[trigger] args[i],
                    f,
                ) by {}
            }
        },
        NodeView::Directory { name, children } => {
            lemma_directory_member(name, children);
            let ms = nodes_members(children);
            assert forall|i: int| 0 <= i < children.len() implies (member_mentions(
                #[trigger] ms[i],
                f,
            ) <==> node_has_leaf(children[i], f)) && (node_has_leaf(children[i], f) ==> f
                < srcs.len() && is_helper(srcs[f as int].script)) by {
                assert(well_formed(srcs, children[i]));
                lemma_node_sources(srcs, children[i], f);
            }
            if node_has_leaf(n, f) {
                let i = choose|i: int|
                    0 <= i < children.len() && node_has_leaf(#[trigger] children[i], f);
                assert(member_mentions(ms[i], f));
            }
            if member_mentions(node_member(n), f) {
                let i = choose|i: int| 0 <= i < ms.len() && member_mentions(#[trigger] ms[i], f);
                assert(node_has_leaf(children[i], f));
            }
        },
    }
}

/// The alias that declares all helpers points into exactly the sources that
/// have a helper in the tree, and each of them is a helper: a file that is no
/// helper has no node, and nothing in the alias comes from it.
pub proof fn lemma_helpers_object_sources(srcs: Seq<HelperSourceView>, root: Seq<Seq<char>>, f: usize)
    ensures
        type_mentions(helpers_object(helper_tree(srcs, root)).ty, f) <==> tree_has_leaf(
            helper_tree(srcs, root),
            f,
        ),
        tree_has_leaf(helper_tree(srcs, root), f) ==> f < srcs.len() && is_helper(
            srcs[f as int].script,
        ),
{
    let tree = helper_tree(srcs, root);
    lemma_helper_tree_well_formed(srcs, root);
    let ms = nodes_members(tree);
    assert forall|i: int| 0 <= i < tree.len() implies (member_mentions(#[trigger] ms[i], f)
        <==> node_has_leaf(tree[i], f)) && (node_has_leaf(tree[i], f) ==> f < srcs.len()
        && is_helper(srcs[f as int].script)) by {
        assert(well_formed(srcs, tree[i]));
        lemma_node_sources(srcs, tree[i], f);
    }
    assert(helpers_object(tree).ty == TypeExprView::Object(ms));
    lemma_object_mentions(ms, f);
    if tree_has_leaf(tree, f) {
        let i = choose|i: int| 0 <= i < tree.len() && node_has_leaf(#[trigger] tree[i], f);
        assert(member_mentions(ms[i], f));
    }
    if members_mention(ms, f) {
        let i = choose|i: int| 0 <= i < ms.len() && member_mentions(#[trigger] ms[i], f);
        assert(node_has_leaf(tree[i], f));
    }
}

/// Putting a node into a list gives a list that is one node longer and holds
/// the new node and the old ones, and no other.
pub proof fn lemma_insert_sorted_members(ns: Seq<NodeView>, n: NodeView)
    ensures
        insert_sorted(ns, n).len() == ns.len() + 1,
        forall|k: int|
            0 <= k < insert_sorted(ns, n).len() ==> (#[trigger] insert_sorted(ns, n)[k] == n
                || exists|j: int| 0 <= j < ns.len() && ns[j] == insert_sorted(ns, n)[k]),
    decreases ns.len(),
{
    let r = insert_sorted(ns, n);
    if ns.len() == 0 {
    } else if text_lt(node_name(n), node_name(ns[0])) {
        assert forall|k: int| 0 <= k < r.len() implies (#[trigger] r[k] == n || exists|j: int|
            0 <= j < ns.len() && ns[j] == r[k]) by {
            if k > 0 {
                assert(ns[k - 1] == r[k]);
            }
        }
    } else {
        let rest = ns.drop_first();
        lemma_insert_sorted_members(rest, n);
        let inner = insert_sorted(rest, n);
        assert(r =~= seq![ns[0]] + inner);
        assert forall|k: int| 0 <= k < r.len() implies (#[trigger] r[k] == n || exists|j: int|
            0 <= j < ns.len() && ns[j] == r[k]) by {
            if k == 0 {
                assert(ns[0] == r[k]);
            } else {
                assert(r[k] == inner[k - 1]);
                if inner[k - 1] != n {
                    let j = choose|j: int| 0 <= j < rest.len() && rest[j] == inner[k - 1];
                    assert(ns[j + 1] == r[k]);
                }
            }
        }
    }
}

/// The normalized forms of a list of names.
pub open spec fn normalized_all(names: Seq<Seq<char>>) -> Seq<Seq<char>> {
    Seq::new(names.len(), |i: int| normalized(names[i]))
}

/// Whether a node lies where the paths say, below the directories named
/// `above`: the path of a helper lies under `root`, has one component for
/// each of the directories above it and one for the file, and the names of
/// the directories and of the helper are the normalized forms of these
/// components.
pub open spec fn placed(
    srcs: Seq<HelperSourceView>,
    root: Seq<Seq<char>>,
    above: Seq<Seq<char>>,
    n: NodeView,
) -> bool
    decreases n,
{
    match n {
        NodeView::Helper(l) => {
            &&& l.file < srcs.len()
            &&& under(srcs[l.file as int].path, root)
            &&& srcs[l.file as int].path.len() == root.len() + above.len() + 1
            &&& forall|j: int|
                0 <= j < above.len() ==> #[trigger] above[j] == normalized(
                    srcs[l.file as int].path[root.len() + j],
                )
            &&& l.name == normalized(srcs[l.file as int].path.last())
        },
        NodeView::Directory { name, children } => forall|i: int|
            0 <= i < children.len() ==> placed(srcs, root, above.push(name), #[trigger] children[i]),
    }
}

/// Whether the path of the source `m` lies under `root` and goes on with the
/// components of `trail`.
pub open spec fn member_on_trail(
    srcs: Seq<HelperSourceView>,
    m: usize,
    root: Seq<Seq<char>>,
    trail: Seq<Seq<char>>,
) -> bool {
    m < srcs.len() ==> {
        &&& under(srcs[m as int].path, root)
        &&& srcs[m as int].path.len() >= root.len() + trail.len()
        &&& forall|j: int|
            0 <= j < trail.len() ==> #[trigger] trail[j] == srcs[m as int].path[root.len() + j]
    }
}

/// Whether the paths of all members lie under `root` and go on with the
/// components of `trail`.
pub open spec fn on_trail(
    srcs: Seq<HelperSourceView>,
    members: Seq<usize>,
    root: Seq<Seq<char>>,
    trail: Seq<Seq<char>>,
) -> bool {
    forall|i: int| 0 <= i < members.len() ==> member_on_trail(srcs, #[trigger] members[i], root, trail)
}

/// The members of a group go on with the name of the group.
proof fn lemma_group_on_trail(
    srcs: Seq<HelperSourceView>,
    members: Seq<usize>,
    at: nat,
    name: Seq<char>,
    k: nat,
    root: Seq<Seq<char>>,
    trail: Seq<Seq<char>>,
)
    requires
        on_trail(srcs, members, root, trail),
        at == root.len() + trail.len(),
    ensures
        on_trail(srcs, group(srcs, members, at, name, k), root, trail.push(name)),
        file_member(srcs, members, at, name, k) matches Some(m) ==> member_on_trail(
            srcs,
            m,
            root,
            trail,
        ),
    decreases k,
{
    if k > 0 && k <= members.len() {
        lemma_group_on_trail(srcs, members, at, name, (k - 1) as nat, root, trail);
        let g = group(srcs, members, at, name, k);
        let p = group(srcs, members, at, name, (k - 1) as nat);
        let m = members[k - 1];
        let longer = trail.push(name);
        assert(member_on_trail(srcs, m, root, trail));
        assert forall|i: int| 0 <= i < g.len() implies member_on_trail(
            srcs,
            #[trigger] g[i],
            root,
            longer,
        ) by {
            if i < p.len() {
                assert(g[i] == p[i]);
            } else {
                assert(g[i] == m);
                assert(in_group(srcs, m, at, name));
                assert forall|j: int| 0 <= j < longer.len() implies #[trigger] longer[j]
                    == srcs[m as int].path[root.len() + j] by {
                    if j < trail.len() {
                        assert(longer[j] == trail[j]);
                    }
                }
            }
        }
    }
}

/// The node of a group lies where the paths say.
proof fn lemma_group_node_placed(
    srcs: Seq<HelperSourceView>,
    members: Seq<usize>,
    at: nat,
    name: Seq<char>,
    root: Seq<Seq<char>>,
    trail: Seq<Seq<char>>,
)
    requires
        on_trail(srcs, members, root, trail),
        at == root.len() + trail.len(),
    ensures
        group_node(srcs, members, at, name) matches Some(n) ==> placed(
            srcs,
            root,
            normalized_all(trail),
            n,
        ),
    decreases max_len(srcs) - at, 0nat, 0nat,
{
    lemma_group_members(srcs, members, at, name, members.len());
    lemma_group_on_trail(srcs, members, at, name, members.len(), root, trail);
    let file = file_member(srcs, members, at, name, members.len());
    let above = normalized_all(trail);
    if file is Some && has_js_extension(name) {
        let m = file->0;
        if let Ok(info) = helper_info(srcs[m as int].script, name, m) {
            assert(member_on_trail(srcs, m, root, trail));
            assert(srcs[m as int].path.last() == name);
            assert forall|j: int| 0 <= j < above.len() implies #[trigger] above[j] == normalized(
                srcs[m as int].path[root.len() + j],
            ) by {
                assert(trail[j] == srcs[m as int].path[root.len() + j]);
            }
            assert(placed(srcs, root, above, NodeView::Helper(info)));
        }
    } else {
        let g = group(srcs, members, at, name, members.len());
        if g.len() > 0 {
            lemma_max_len(srcs, g[0] as int);
            lemma_tree_placed(srcs, g, at + 1, g.len(), root, trail.push(name));
            assert(normalized_all(trail.push(name)) =~= above.push(normalized(name)));
            let children = tree_upto(srcs, g, (at + 1) as nat, g.len());
            assert(forall|i: int|
                0 <= i < children.len() ==> placed(
                    srcs,
                    root,
                    above.push(normalized(name)),
                    #[trigger] children[i],
                ));
            assert(placed(
                srcs,
                root,
                above,
                NodeView::Directory { name: normalized(name), children },
            ));
        }
    }
}

/// Every node of a level lies where the paths say.
proof fn lemma_tree_placed(
    srcs: Seq<HelperSourceView>,
    members: Seq<usize>,
    at: nat,
    k: nat,
    root: Seq<Seq<char>>,
    trail: Seq<Seq<char>>,
)
    requires
        on_trail(srcs, members, root, trail),
        at == root.len() + trail.len(),
    ensures
        forall|i: int|
            0 <= i < tree_upto(srcs, members, at, k).len() ==> placed(
                srcs,
                root,
                normalized_all(trail),
                #[trigger] tree_upto(srcs, members, at, k)[i],
            ),
    decreases max_len(srcs) - at, 1nat, k,
{
    if k == 0 || k > members.len() {
    } else {
        lemma_tree_placed(srcs, members, at, (k - 1) as nat, root, trail);
        let before = tree_upto(srcs, members, at, (k - 1) as nat);
        let after = tree_upto(srcs, members, at, k);
        let m = members[k - 1];
        if m < srcs.len() && at < srcs[m as int].path.len() {
            let name = srcs[m as int].path[at as int];
            if group(srcs, members, at, name, (k - 1) as nat).len() == 0 {
                lemma_group_node_placed(srcs, members, at, name, root, trail);
                if let Some(n) = group_node(srcs, members, at, name) {
                    lemma_insert_sorted_members(before, n);
                    assert forall|i: int| 0 <= i < after.len() implies placed(
                        srcs,
                        root,
                        normalized_all(trail),
                        #[trigger] after[i],
                    ) by {
                        if after[i] != n {
                            let j = choose|j: int| 0 <= j < before.len() && before[j] == after[i];
                            assert(placed(srcs, root, normalized_all(trail), before[j]));
                        }
                    }
                }
            }
        }
    }
}

/// The members that the tree starts from lie under the root.
proof fn lemma_members_under(srcs: Seq<HelperSourceView>, root: Seq<Seq<char>>, k: nat)
    requires
        srcs.len() <= usize::MAX,
    ensures
        on_trail(srcs, members_under(srcs, root, k), root, Seq::empty()),
    decreases k,
{
    if k > 0 && k <= srcs.len() {
        lemma_members_under(srcs, root, (k - 1) as nat);
        let ms = members_under(srcs, root, k);
        let p = members_under(srcs, root, (k - 1) as nat);
        assert forall|i: int| 0 <= i < ms.len() implies member_on_trail(
            srcs,
            #[trigger] ms[i],
            root,
            Seq::empty(),
        ) by {
            if i < p.len() {
                assert(ms[i] == p[i]);
            }
        }
    }
}

/// Every helper of the namespace tree lies where its path says: the path lies
/// under the root, and the names of the directories from the top of the tree
/// down to the helper, and the name of the helper, are the normalized forms
/// of the components of the path below the root, in their order.
pub proof fn lemma_helper_tree_placed(srcs: Seq<HelperSourceView>, root: Seq<Seq<char>>)
    requires
        srcs.len() <= usize::MAX,
    ensures
        forall|i: int|
            0 <= i < helper_tree(srcs, root).len() ==> placed(
                srcs,
                root,
                Seq::empty(),
                #[trigger] helper_tree(srcs, root)[i],
            ),
{
    let members = members_under(srcs, root, srcs.len());
    lemma_members_under(srcs, root, srcs.len());
    lemma_tree_placed(srcs, members, root.len(), members.len(), root, Seq::empty());
    assert(normalized_all(Seq::empty()) =~= Seq::<Seq<char>>::empty());
}

/// The one document that declares all helpers points into exactly the sources
/// that have a helper in the tree: into every one of them, and into no other
/// file.
pub proof fn lemma_helpers_module_sources(
    srcs: Seq<HelperSourceView>,
    root: Seq<Seq<char>>,
    with_models: bool,
    f: usize,
)
    ensures
        document_mentions(helpers_module(helper_tree(srcs, root), with_models), f)
            <==> tree_has_leaf(helper_tree(srcs, root), f),
{
    let tree = helper_tree(srcs, root);
    let document = helpers_module(tree, with_models);
    lemma_helpers_object_sources(srcs, root, f);
    lemma_prelude_has_no_origin(f, with_models);
    assert(document.len() == 5);
    assert(!declaration_mentions(document[0], f));
    assert(declaration_mentions(document[1], f) == tree_has_leaf(tree, f));
    assert(!declaration_mentions(document[2], f));
    assert(!declaration_mentions(document[3], f));
    assert(!declaration_mentions(document[4], f));
    if document_mentions(document, f) {
        let i = choose|i: int|
            0 <= i < document.len() && declaration_mentions(#[trigger] document[i], f);
        assert(i == 1);
    }
}

/// Whether one of the helpers is that of the source `f`.
pub open spec fn infos_have(ls: Seq<SailsHelperInfoView>, f: usize) -> bool {
    exists|i: int| 0 <= i < ls.len() && (#[trigger] ls[i]).file == f
}

/// Two lists together hold a helper exactly when one of them does.
proof fn lemma_infos_concat(a: Seq<SailsHelperInfoView>, b: Seq<SailsHelperInfoView>, f: usize)
    ensures
        infos_have(a + b, f) <==> infos_have(a, f) || infos_have(b, f),
{
    let c = a + b;
    if infos_have(a, f) {
        let i = choose|i: int| 0 <= i < a.len() && (#[trigger] a[i]).file == f;
        assert(c[i].file == f);
    }
    if infos_have(b, f) {
        let i = choose|i: int| 0 <= i < b.len() && (#[trigger] b[i]).file == f;
        assert(c[a.len() + i].file == f);
    }
    if infos_have(c, f) {
        let i = choose|i: int| 0 <= i < c.len() && (#[trigger] c[i]).file == f;
        if i < a.len() {
            assert(a[i].file == f);
        } else {
            assert(b[i - a.len()].file == f);
        }
    }
}

/// The helpers of a node are those that the node holds.
proof fn lemma_leaves_of(n: NodeView, f: usize)
    ensures
        infos_have(leaves_of(n), f) <==> node_has_leaf(n, f),
    decreases n, 0nat,
{
    match n {
        NodeView::Helper(l) => {
            assert(leaves_of(n)[0] == l);
        },
        NodeView::Directory { children, .. } => {
            lemma_leaves(children, children.len(), f);
        },
    }
}

/// The helpers of the first `k` nodes are those that these nodes hold.
proof fn lemma_leaves(ns: Seq<NodeView>, k: nat, f: usize)
    requires
        k <= ns.len(),
    ensures
        infos_have(leaves(ns, k), f) <==> exists|j: int|
            0 <= j < k && node_has_leaf(#[trigger] ns[j], f),
    decreases ns, k,
{
    if k > 0 {
        lemma_leaves(ns, (k - 1) as nat, f);
        lemma_leaves_of(ns[k - 1], f);
        lemma_infos_concat(leaves(ns, (k - 1) as nat), leaves_of(ns[k - 1]), f);
        if exists|j: int| 0 <= j < k && node_has_leaf(#[trigger] ns[j], f) {
            let j = choose|j: int| 0 <= j < k && node_has_leaf(#[trigger] ns[j], f);
            if j < k - 1 {
                assert(node_has_leaf(ns[j], f));
            }
        }
    }
}

/// The list of all helpers of a tree holds the helper of a source exactly
/// when the tree does.
pub proof fn lemma_all_helpers(tree: Seq<NodeView>, f: usize)
    ensures
        infos_have(leaves(tree, tree.len()), f) <==> tree_has_leaf(tree, f),
{
    lemma_leaves(tree, tree.len(), f);
}

/// In a well-formed node, the property that declares it is sound.
pub proof fn lemma_node_is_sound(srcs: Seq<HelperSourceView>, n: NodeView)
    requires
        well_formed(srcs, n),
    ensures
        sound_member(node_member(n)),
    decreases n,
{
    match n {
        NodeView::Helper(l) => {
            let args = helper_type(l)->Reference_args;
            assert(args.len() == 2);
            assert(sound_type(args[0]));
            assert(sound_type(args[1]));
            assert forall|i: int| 0 <= i < args.len() implies sound_type(#[trigger] args[i]) by {}
        },
        NodeView::Directory { name, children } => {
            lemma_directory_member(name, children);
            let ms = nodes_members(children);
            assert forall|i: int| 0 <= i < ms.len() implies sound_member(#[trigger] ms[i]) by {
                assert(well_formed(srcs, children[i]));
                lemma_node_is_sound(srcs, children[i]);
            }
        },
    }
}

/// The alias that declares all helpers is sound: every hint in it is a type,
/// and every helper and directory with a bare key has a name that is a valid
/// identifier.
pub proof fn lemma_helpers_object_is_sound(srcs: Seq<HelperSourceView>, root: Seq<Seq<char>>)
    ensures
        sound_type(helpers_object(helper_tree(srcs, root)).ty),
{
    let tree = helper_tree(srcs, root);
    lemma_helper_tree_well_formed(srcs, root);
    let ms = nodes_members(tree);
    assert forall|i: int| 0 <= i < ms.len() implies sound_member(#[trigger] ms[i]) by {
        assert(well_formed(srcs, tree[i]));
        lemma_node_is_sound(srcs, tree[i]);
    }
    assert(helpers_object(tree).ty == TypeExprView::Object(ms));
}

} // verus!

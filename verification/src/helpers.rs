//! Helpers: name normalization, the description of one helper file, the
//! nodes of the namespace tree, and the declaration that is made of them.

use vstd::prelude::*;
use crate::decl::{
    clone_type, key_for, lemma_object_view, lemma_reference_view, members_view, types_view, Keyword,
    Member, MemberView, Origin, TypeAliasDecl, TypeAliasDeclView, TypeExpr, TypeExprView,
};
use crate::literal_declarations::property_key;
use crate::model::{collect_members, lemma_inputs_never_abort, members_of, parsed_view};
use crate::resolver::DescriptorKind;
use crate::script::{Script, Span, StmtView};
use crate::text::{ascii_upper, chars_of, string_of, to_ascii_upper};
use crate::util::{
    find_function_prop, find_module_exports, find_object_prop, function_prop, module_exports,
    object_prop,
};

verus! {

/// The character that stands at `i` after normalization: the upper-case form
/// where a hyphen stands directly before it, the character itself otherwise.
pub open spec fn camel_char(s: Seq<char>, i: int) -> char {
    if i > 0 && s[i - 1] == '-' {
        ascii_upper(s[i])
    } else {
        s[i]
    }
}

/// `s` without its hyphens, each character that followed a hyphen in upper
/// case.
pub open spec fn camel(s: Seq<char>) -> Seq<char>
    decreases s.len(),
{
    if s.len() == 0 {
        Seq::empty()
    } else if s.last() == '-' {
        camel(s.drop_last())
    } else {
        camel(s.drop_last()).push(camel_char(s, s.len() - 1))
    }
}

/// Whether `s` ends in `.js`.
pub open spec fn ends_with_js(s: Seq<char>) -> bool {
    s.len() >= 3 && s[s.len() - 3] == '.' && s[s.len() - 2] == 'j' && s[s.len() - 1] == 's'
}

/// `s` without a trailing `.js`.
pub open spec fn strip_js(s: Seq<char>) -> Seq<char> {
    if ends_with_js(s) {
        s.take(s.len() - 3)
    } else {
        s
    }
}

/// The normalized form of a file or directory name.
pub open spec fn normalized(name: Seq<char>) -> Seq<char> {
    strip_js(camel(name))
}

/// Normalizes a file or directory name: each hyphen is deleted and the
/// character after it put in upper case, and a trailing `.js` that is left
/// after that is stripped.
pub fn normalize_name(name: &str) -> (r: String)
    ensures
        r@ == normalized(name@),
{
    let chars = chars_of(name);
    let n = chars.len();
    let mut out: Vec<char> = Vec::new();
    let mut capitalize_next = false;
    let mut i: usize = 0;
    while i < n
        invariant
            n == chars@.len(),
            i <= n,
            out@ == camel(chars@.take(i as int)),
            out@.len() <= i,
            capitalize_next == (i > 0 && chars@[i - 1] == '-'),
        decreases n - i,
    {
        proof {
            assert(chars@.take(i + 1).drop_last() =~= chars@.take(i as int));
        }
        let c = chars[i];
        if c == '-' {
            capitalize_next = true;
        } else if capitalize_next {
            out.push(to_ascii_upper(c));
            capitalize_next = false;
        } else {
            out.push(c);
        }
        i += 1;
    }
    assert(chars@.take(n as int) =~= chars@);
    let m = out.len();
    if m >= 3 && out[m - 3] == '.' && out[m - 2] == 'j' && out[m - 1] == 's' {
        out.truncate(m - 3);
    }
    string_of(&out)
}

/// A normalized name holds no hyphen, and is no longer than the name it was
/// made from.
pub proof fn lemma_normalized_has_no_hyphen(name: Seq<char>)
    ensures
        forall|i: int| 0 <= i < normalized(name).len() ==> normalized(name)[i] != '-',
        normalized(name).len() <= name.len(),
{
    lemma_camel_has_no_hyphen(name);
}

/// What is left after the hyphens are deleted holds none, and is no longer.
proof fn lemma_camel_has_no_hyphen(s: Seq<char>)
    ensures
        forall|i: int| 0 <= i < camel(s).len() ==> camel(s)[i] != '-',
        camel(s).len() <= s.len(),
    decreases s.len(),
{
    if s.len() > 0 {
        lemma_camel_has_no_hyphen(s.drop_last());
    }
}

/// Why a file gives no helper.
#[derive(Clone, Copy, Debug, PartialEq, Eq, Structural)]
pub enum GenHelperDeclError {
    /// The source could not be read or did not parse.
    ParseError,
    /// The file is no CommonJS module. `get_helper_info` does not tell this
    /// apart: it reports every file without an exported object as
    /// `CommonJsModuleDoesNotExportObject`.
    IsNotCommonJsModule,
    /// The exported object has no `fn` that is a function.
    IsNotHelper,
    /// No statement of the file is `module.exports = { ... }`.
    CommonJsModuleDoesNotExportObject,
}

/// What is known of one helper.
#[derive(Debug, PartialEq, Eq)]
pub struct SailsHelperInfo {
    /// The index of the helper's file in the list of sources.
    pub file: usize,
    /// The normalized name of the file.
    pub name: String,
    /// Always `None`: the type that a helper returns is not inferred.
    pub return_type: Option<TypeExpr>,
    /// The object type of the declared inputs; `None` where the helper
    /// declares no `inputs` object.
    pub input_type: Option<TypeExpr>,
    /// The place of the key `fn` in the file.
    pub origin: Span,
}

/// The view of a [`SailsHelperInfo`].
#[verifier::ext_equal]
pub struct SailsHelperInfoView {
    pub file: usize,
    pub name: Seq<char>,
    pub return_type: Option<TypeExprView>,
    pub input_type: Option<TypeExprView>,
    pub origin: Span,
}

/// The view of a type that may be absent.
pub open spec fn opt_type_view(t: Option<TypeExpr>) -> Option<TypeExprView> {
    match t {
        Some(t) => Some(t@),
        None => None,
    }
}

impl View for SailsHelperInfo {
    type V = SailsHelperInfoView;

    open spec fn view(&self) -> SailsHelperInfoView {
        SailsHelperInfoView {
            file: self.file,
            name: self.name@,
            return_type: opt_type_view(self.return_type),
            input_type: opt_type_view(self.input_type),
            origin: self.origin,
        }
    }
}

/// The object type of the inputs that an exported object declares.
pub open spec fn input_shape(exports: Seq<crate::script::PropView>, file: usize) -> Option<TypeExprView> {
    match object_prop(exports, "inputs"@) {
        None => None,
        Some(inputs) => Some(
            TypeExprView::Object(members_of(inputs, DescriptorKind::HelperInput, file)->0),
        ),
    }
}

/// The description of a helper, from what parsing its file gave (`None` where
/// the source could not be read or did not parse), the name of the file and
/// its index.
pub open spec fn helper_info(parsed: Option<Seq<StmtView>>, file_name: Seq<char>, file: usize) -> Result<
    SailsHelperInfoView,
    GenHelperDeclError,
> {
    match parsed {
        None => Err(GenHelperDeclError::ParseError),
        Some(script) => match module_exports(script) {
            None => Err(GenHelperDeclError::CommonJsModuleDoesNotExportObject),
            Some(exports) => match function_prop(exports, "fn"@) {
                None => Err(GenHelperDeclError::IsNotHelper),
                Some(origin) => Ok(
                    SailsHelperInfoView {
                        file,
                        name: normalized(file_name),
                        return_type: None,
                        input_type: input_shape(exports, file),
                        origin,
                    },
                ),
            },
        },
    }
}

/// Describes one helper file.
///
/// A file is a helper where it exports an object with a property `fn` that
/// holds a function expression. Its inputs are the entries of the property
/// `inputs`, where that is an object: each entry that resolves gives a
/// property of the input type, and one that does not is left out. A helper
/// without `inputs` has no input type.
pub fn get_helper_info(parsed: Option<&Script>, file_name: &str, file: usize) -> (r: Result<
    SailsHelperInfo,
    GenHelperDeclError,
>)
    ensures
        match r {
            Ok(info) => helper_info(parsed_view(parsed), file_name@, file) == Ok::<
                SailsHelperInfoView,
                GenHelperDeclError,
            >(info@),
            Err(e) => helper_info(parsed_view(parsed), file_name@, file) == Err::<
                SailsHelperInfoView,
                GenHelperDeclError,
            >(e),
        },
{
    let script = match parsed {
        None => {
            return Err(GenHelperDeclError::ParseError);
        },
        Some(s) => s,
    };
    let exports = match find_module_exports(script) {
        None => {
            return Err(GenHelperDeclError::CommonJsModuleDoesNotExportObject);
        },
        Some(o) => o,
    };
    let origin = match find_function_prop(exports, "fn") {
        None => {
            return Err(GenHelperDeclError::IsNotHelper);
        },
        Some(span) => span,
    };
    let input_type = match find_object_prop(exports, "inputs") {
        None => None,
        Some(inputs) => {
            proof {
                lemma_inputs_never_abort(inputs@, file);
            }
            match collect_members(inputs, DescriptorKind::HelperInput, file) {
                Some(members) => {
                    proof {
                        lemma_object_view(members);
                    }
                    Some(TypeExpr::Object(members))
                },
                None => None,
            }
        },
    };
    Ok(SailsHelperInfo { file, name: normalize_name(file_name), return_type: None, input_type, origin })
}

/// A directory of helpers: its normalized name and what it holds.
#[derive(Debug, PartialEq, Eq)]
pub struct SailsDeclHelperDirectory {
    pub name: String,
    pub children: Vec<SailsDeclHelperTreeNode>,
}

/// A node of the namespace tree.
#[derive(Debug, PartialEq, Eq)]
pub enum SailsDeclHelperTreeNode {
    Helper(SailsHelperInfo),
    Directory(SailsDeclHelperDirectory),
}

/// The view of a [`SailsDeclHelperTreeNode`].
#[verifier::ext_equal]
pub enum NodeView {
    Helper(SailsHelperInfoView),
    Directory { name: Seq<char>, children: Seq<NodeView> },
}

/// The view of a node.
pub open spec fn node_view(n: SailsDeclHelperTreeNode) -> NodeView
    decreases n,
{
    match n {
        SailsDeclHelperTreeNode::Helper(info) => NodeView::Helper(info@),
        SailsDeclHelperTreeNode::Directory(d) => NodeView::Directory {
            name: d.name@,
            children: Seq::new(
                d.children@.len(),
                |i: int|
                    if 0 <= i < d.children@.len() {
                        node_view(d.children@[i])
                    } else {
                        arbitrary()
                    },
            ),
        },
    }
}

impl View for SailsDeclHelperTreeNode {
    type V = NodeView;

    open spec fn view(&self) -> NodeView {
        node_view(*self)
    }
}

/// The views of a list of nodes.
pub open spec fn nodes_view(ns: Seq<SailsDeclHelperTreeNode>) -> Seq<NodeView> {
    Seq::new(ns.len(), |i: int| ns[i]@)
}

/// The view of a directory is made of its name and the views of its children.
pub proof fn lemma_directory_view(d: SailsDeclHelperDirectory)
    ensures
        SailsDeclHelperTreeNode::Directory(d)@ == (NodeView::Directory {
            name: d.name@,
            children: nodes_view(d.children@),
        }),
{
    assert(SailsDeclHelperTreeNode::Directory(d)@->children =~= nodes_view(d.children@));
}

/// The namespace tree of all helpers.
#[derive(Debug, PartialEq, Eq)]
pub struct SailsDeclHelperTree {
    pub root: Vec<SailsDeclHelperTreeNode>,
}

impl View for SailsDeclHelperTree {
    type V = Seq<NodeView>;

    open spec fn view(&self) -> Seq<NodeView> {
        nodes_view(self.root@)
    }
}

/// The helpers of a node, in the order of the tree.
pub open spec fn leaves_of(n: NodeView) -> Seq<SailsHelperInfoView>
    decreases n, 0nat,
{
    match n {
        NodeView::Helper(info) => seq![info],
        NodeView::Directory { children, .. } => leaves(children, children.len()),
    }
}

/// The helpers of the first `k` nodes of `ns`, in the order of the tree.
pub open spec fn leaves(ns: Seq<NodeView>, k: nat) -> Seq<SailsHelperInfoView>
    decreases ns, k,
{
    if k == 0 || k > ns.len() {
        Seq::empty()
    } else {
        leaves(ns, (k - 1) as nat) + leaves_of(ns[k - 1])
    }
}

/// The views of a list of borrowed helpers.
pub open spec fn infos_view(infos: Seq<&SailsHelperInfo>) -> Seq<SailsHelperInfoView> {
    Seq::new(infos.len(), |i: int| infos[i]@)
}

/// Adds the helpers of `nodes` to `helpers`, in the order of the tree.
fn collect_helpers<'a>(nodes: &'a Vec<SailsDeclHelperTreeNode>, helpers: &mut Vec<&'a SailsHelperInfo>)
    ensures
        infos_view(final(helpers)@) == infos_view(old(helpers)@) + leaves(
            nodes_view(nodes@),
            nodes@.len() as nat,
        ),
    decreases nodes,
{
    let n = nodes.len();
    let mut i: usize = 0;
    assert(infos_view(helpers@) + Seq::<SailsHelperInfoView>::empty() =~= infos_view(helpers@));
    while i < n
        invariant
            n == nodes@.len(),
            i <= n,
            infos_view(helpers@) == infos_view(old(helpers)@) + leaves(nodes_view(nodes@), i as nat),
        decreases n - i,
    {
        let ghost before = infos_view(helpers@);
        let ghost done = leaves(nodes_view(nodes@), i as nat);
        assert(leaves(nodes_view(nodes@), (i + 1) as nat) == done + leaves_of(nodes@[i as int]@));
        match &nodes[i] {
            SailsDeclHelperTreeNode::Helper(info) => {
                helpers.push(info);
                assert(infos_view(helpers@) =~= before + seq![info@]);
                assert(infos_view(old(helpers)@) + (done + seq![info@]) =~= before + seq![info@]);
            },
            SailsDeclHelperTreeNode::Directory(d) => {
                proof {
                    lemma_directory_view(*d);
                }
                collect_helpers(&d.children, helpers);
                let ghost inner = leaves(nodes_view(d.children@), d.children@.len() as nat);
                assert(infos_view(old(helpers)@) + (done + inner) =~= before + inner);
            },
        }
        i += 1;
    }
}

impl SailsDeclHelperTree {
    /// The top level of the tree.
    pub fn get_root(&self) -> (r: &Vec<SailsDeclHelperTreeNode>)
        ensures
            nodes_view(r@) == self@,
    {
        &self.root
    }

    /// All helpers of the tree, each directory's helpers at the place of the
    /// directory.
    pub fn get_all_helpers(&self) -> (r: Vec<&SailsHelperInfo>)
        ensures
            infos_view(r@) == leaves(self@, self@.len()),
    {
        let mut helpers: Vec<&SailsHelperInfo> = Vec::new();
        assert(infos_view(helpers@) =~= Seq::<SailsHelperInfoView>::empty());
        collect_helpers(&self.root, &mut helpers);
        assert(Seq::<SailsHelperInfoView>::empty() + leaves(self@, self@.len()) =~= leaves(
            self@,
            self@.len(),
        ));
        helpers
    }
}

/// The type that declares a helper: the call-signature holder applied to the
/// type of the inputs and the type of the result, each `any` where it is not
/// known.
pub open spec fn helper_type(info: SailsHelperInfoView) -> TypeExprView {
    TypeExprView::Reference {
        name: "SailsJsHelper"@,
        args: seq![
            match info.input_type {
                Some(t) => t,
                None => TypeExprView::Keyword(Keyword::Any),
            },
            match info.return_type {
                Some(t) => t,
                None => TypeExprView::Keyword(Keyword::Any),
            },
        ],
    }
}

/// The property that declares a node of the tree: a helper under its name,
/// with its type and the place it comes from; a directory under its name,
/// with the object type of its children, in their order.
pub open spec fn node_member(n: NodeView) -> MemberView
    decreases n,
{
    match n {
        NodeView::Helper(info) => MemberView::Property {
            key: key_for(info.name),
            optional: false,
            readonly: true,
            ty: helper_type(info),
            origin: Some(Origin { file: info.file, span: info.origin }),
        },
        NodeView::Directory { name, children } => MemberView::Property {
            key: key_for(name),
            optional: false,
            readonly: true,
            ty: TypeExprView::Object(
                Seq::new(
                    children.len(),
                    |i: int|
                        if 0 <= i < children.len() {
                            node_member(children[i])
                        } else {
                            arbitrary()
                        },
                ),
            ),
            origin: None,
        },
    }
}

/// The properties that declare a list of nodes.
pub open spec fn nodes_members(ns: Seq<NodeView>) -> Seq<MemberView> {
    Seq::new(ns.len(), |i: int| node_member(ns[i]))
}

/// The property of a directory holds the properties of its children.
pub proof fn lemma_directory_member(name: Seq<char>, children: Seq<NodeView>)
    ensures
        node_member(NodeView::Directory { name, children }) == (MemberView::Property {
            key: key_for(name),
            optional: false,
            readonly: true,
            ty: TypeExprView::Object(nodes_members(children)),
            origin: None,
        }),
{
    assert(node_member(NodeView::Directory { name, children })->ty->Object_0 =~= nodes_members(
        children,
    ));
}

/// A copy of the type, or `any` where there is none.
fn any_or(t: &Option<TypeExpr>) -> (r: TypeExpr)
    ensures
        r@ == match opt_type_view(*t) {
            Some(v) => v,
            None => TypeExprView::Keyword(Keyword::Any),
        },
{
    match t {
        Some(t) => clone_type(t),
        None => TypeExpr::Keyword(Keyword::Any),
    }
}

/// Declares one node of the tree as a property.
pub fn gen_decl_from_node(node: &SailsDeclHelperTreeNode) -> (r: Member)
    ensures
        r@ == node_member(node@),
    decreases node,
{
    match node {
        SailsDeclHelperTreeNode::Helper(info) => {
            let mut args: Vec<TypeExpr> = Vec::new();
            let input = any_or(&info.input_type);
            let output = any_or(&info.return_type);
            let ghost iv = input@;
            let ghost ov = output@;
            args.push(input);
            args.push(output);
            let name = String::from_str("SailsJsHelper");
            proof {
                lemma_reference_view(name, args);
                assert(types_view(args@) =~= seq![iv, ov]);
            }
            let ty = TypeExpr::Reference { name, args };
            assert(helper_type(info@)->Reference_args =~= seq![iv, ov]);
            assert(ty@ =~= helper_type(info@));
            Member::Property {
                key: property_key(info.name.as_str()),
                optional: false,
                readonly: true,
                ty,
                origin: Some(Origin { file: info.file, span: info.origin }),
            }
        },
        SailsDeclHelperTreeNode::Directory(d) => {
            let members = gen_decl_from_nodes(&d.children);
            proof {
                lemma_directory_view(*d);
                lemma_directory_member(d.name@, nodes_view(d.children@));
                lemma_object_view(members);
            }
            Member::Property {
                key: property_key(d.name.as_str()),
                optional: false,
                readonly: true,
                ty: TypeExpr::Object(members),
                origin: None,
            }
        },
    }
}

/// Declares a list of nodes, in their order.
pub fn gen_decl_from_nodes(nodes: &Vec<SailsDeclHelperTreeNode>) -> (r: Vec<Member>)
    ensures
        members_view(r@) == nodes_members(nodes_view(nodes@)),
    decreases nodes,
{
    let mut out: Vec<Member> = Vec::new();
    let n = nodes.len();
    let mut i: usize = 0;
    while i < n
        invariant
            n == nodes@.len(),
            i <= n,
            members_view(out@) == nodes_members(nodes_view(nodes@).take(i as int)),
        decreases n - i,
    {
        let ghost before = members_view(out@);
        let m = gen_decl_from_node(&nodes[i]);
        out.push(m);
        assert(members_view(out@) =~= before.push(m@));
        assert(nodes_members(nodes_view(nodes@).take(i + 1)) =~= nodes_members(
            nodes_view(nodes@).take(i as int),
        ).push(node_member(nodes@[i as int]@)));
        i += 1;
    }
    assert(nodes_view(nodes@).take(n as int) =~= nodes_view(nodes@));
    out
}

/// The object type that mirrors the tree.
pub fn gen_decl_from_tree(tree: &SailsDeclHelperTree) -> (r: TypeExpr)
    ensures
        r@ == TypeExprView::Object(nodes_members(tree@)),
{
    let members = gen_decl_from_nodes(tree.get_root());
    proof {
        lemma_object_view(members);
    }
    TypeExpr::Object(members)
}

/// The alias that declares all helpers.
pub open spec fn helpers_object(tree: Seq<NodeView>) -> TypeAliasDeclView {
    TypeAliasDeclView { name: "HelpersObject"@, ty: TypeExprView::Object(nodes_members(tree)) }
}

/// Declares the type alias `HelpersObject`: an object type that mirrors the
/// namespace tree, each helper and each directory under its name.
pub fn gen_helpers_object_decl(tree: &SailsDeclHelperTree) -> (r: TypeAliasDecl)
    ensures
        r@ == helpers_object(tree@),
{
    TypeAliasDecl { name: String::from_str("HelpersObject"), ty: gen_decl_from_tree(tree) }
}

} // verus!

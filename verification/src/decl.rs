//! The declaration document: the ambient declarations that are synthesized,
//! as a tree of plain values.
//!
//! A document is an ordered list of [`Declaration`]s. Nodes that come from a
//! source file carry an [`Origin`]; nodes of the fixed prelude carry none.
//! Every type has a view over `Seq` and `Seq<char>`, and every contract in the
//! crate that speaks of a declaration speaks of its view.

use vstd::prelude::*;
use crate::script::Span;
use crate::text::{is_ascii_digit, is_ascii_letter};
use crate::util::hint_is_type;

verus! {

/// The keyword types that synthesis emits.
#[derive(Clone, Copy, Debug, PartialEq, Eq, Structural)]
pub enum Keyword {
    String,
    Number,
    Boolean,
    Any,
    Null,
    Undefined,
}

/// Where a node comes from: a file, by its index in the list of sources that
/// was handed in, and a byte range in that file.
#[derive(Clone, Copy, Debug, PartialEq, Eq, Structural)]
pub struct Origin {
    pub file: usize,
    pub span: Span,
}

/// Whether `name` can be written as a bare identifier: a letter, `_` or `$`,
/// followed by letters, digits, `_` or `$`.
pub open spec fn valid_ident(name: Seq<char>) -> bool {
    &&& name.len() > 0
    &&& (name[0] == '_' || name[0] == '$' || is_ascii_letter(name[0]))
    &&& forall|i: int|
        0 < i < name.len() ==> (#[trigger] name[i] == '_' || name[i] == '$' || is_ascii_letter(
            name[i],
        ) || is_ascii_digit(name[i]))
}

/// The key of a property: bare where the name is a valid identifier, quoted
/// otherwise.
#[derive(Debug, PartialEq, Eq)]
pub enum PropertyKey {
    Bare(String),
    Quoted(String),
}

/// The view of a [`PropertyKey`].
#[verifier::ext_equal]
pub enum PropertyKeyView {
    Bare(Seq<char>),
    Quoted(Seq<char>),
}

impl View for PropertyKey {
    type V = PropertyKeyView;

    open spec fn view(&self) -> PropertyKeyView {
        match self {
            PropertyKey::Bare(s) => PropertyKeyView::Bare(s@),
            PropertyKey::Quoted(s) => PropertyKeyView::Quoted(s@),
        }
    }
}

/// The key under which a property named `name` is declared.
pub open spec fn key_for(name: Seq<char>) -> PropertyKeyView {
    if valid_ident(name) {
        PropertyKeyView::Bare(name)
    } else {
        PropertyKeyView::Quoted(name)
    }
}

/// A type expression.
#[derive(Debug, PartialEq, Eq)]
pub enum TypeExpr {
    Keyword(Keyword),
    /// A type written by the author of the source file, kept as its text. It
    /// is only built from text that parses as a type.
    Hint(String),
    /// `A | B | ...`
    Union(Vec<TypeExpr>),
    /// `{ a: A; b?: B }`
    Object(Vec<Member>),
    /// `Name` or `Name<A, B>`
    Reference { name: String, args: Vec<TypeExpr> },
    /// `T[]`
    Array(Box<TypeExpr>),
}

/// A member of an interface or of an object type.
#[derive(Debug, PartialEq, Eq)]
pub enum Member {
    Property {
        key: PropertyKey,
        optional: bool,
        readonly: bool,
        ty: TypeExpr,
        origin: Option<Origin>,
    },
    Method { name: String, params: Vec<Param>, result: TypeExpr },
}

/// A parameter of a method signature.
#[derive(Debug, PartialEq, Eq)]
pub struct Param {
    pub name: String,
    pub ty: TypeExpr,
}

/// The view of a [`TypeExpr`].
#[verifier::ext_equal]
pub enum TypeExprView {
    Keyword(Keyword),
    Hint(Seq<char>),
    Union(Seq<TypeExprView>),
    Object(Seq<MemberView>),
    Reference { name: Seq<char>, args: Seq<TypeExprView> },
    Array(Box<TypeExprView>),
}

/// The view of a [`Member`].
#[verifier::ext_equal]
pub enum MemberView {
    Property {
        key: PropertyKeyView,
        optional: bool,
        readonly: bool,
        ty: TypeExprView,
        origin: Option<Origin>,
    },
    Method { name: Seq<char>, params: Seq<ParamView>, result: TypeExprView },
}

/// The view of a [`Param`].
#[verifier::ext_equal]
pub struct ParamView {
    pub name: Seq<char>,
    pub ty: TypeExprView,
}

/// The view of a type.
pub open spec fn type_view(t: TypeExpr) -> TypeExprView
    decreases t,
{
    match t {
        TypeExpr::Keyword(k) => TypeExprView::Keyword(k),
        TypeExpr::Hint(s) => TypeExprView::Hint(s@),
        TypeExpr::Union(ts) => TypeExprView::Union(
            Seq::new(
                ts@.len(),
                |i: int|
                    if 0 <= i < ts@.len() {
                        type_view(ts@[i])
                    } else {
                        TypeExprView::Keyword(Keyword::Any)
                    },
            ),
        ),
        TypeExpr::Object(ms) => TypeExprView::Object(
            Seq::new(
                ms@.len(),
                |i: int|
                    if 0 <= i < ms@.len() {
                        member_view(ms@[i])
                    } else {
                        arbitrary()
                    },
            ),
        ),
        TypeExpr::Reference { name, args } => TypeExprView::Reference {
            name: name@,
            args: Seq::new(
                args@.len(),
                |i: int|
                    if 0 <= i < args@.len() {
                        type_view(args@[i])
                    } else {
                        TypeExprView::Keyword(Keyword::Any)
                    },
            ),
        },
        TypeExpr::Array(b) => TypeExprView::Array(Box::new(type_view(*b))),
    }
}

/// The view of a member.
pub open spec fn member_view(m: Member) -> MemberView
    decreases m,
{
    match m {
        Member::Property { key, optional, readonly, ty, origin } => MemberView::Property {
            key: key@,
            optional,
            readonly,
            ty: type_view(ty),
            origin,
        },
        Member::Method { name, params, result } => MemberView::Method {
            name: name@,
            params: Seq::new(
                params@.len(),
                |i: int|
                    if 0 <= i < params@.len() {
                        ParamView { name: params@[i].name@, ty: type_view(params@[i].ty) }
                    } else {
                        arbitrary()
                    },
            ),
            result: type_view(result),
        },
    }
}

impl View for TypeExpr {
    type V = TypeExprView;

    open spec fn view(&self) -> TypeExprView {
        type_view(*self)
    }
}

impl View for Member {
    type V = MemberView;

    open spec fn view(&self) -> MemberView {
        member_view(*self)
    }
}

impl View for Param {
    type V = ParamView;

    open spec fn view(&self) -> ParamView {
        ParamView { name: self.name@, ty: self.ty@ }
    }
}

/// The views of a list of types.
pub open spec fn types_view(ts: Seq<TypeExpr>) -> Seq<TypeExprView> {
    Seq::new(ts.len(), |i: int| ts[i]@)
}

/// The views of a list of members.
pub open spec fn members_view(ms: Seq<Member>) -> Seq<MemberView> {
    Seq::new(ms.len(), |i: int| ms[i]@)
}

/// The views of a list of parameters.
pub open spec fn params_view(ps: Seq<Param>) -> Seq<ParamView> {
    Seq::new(ps.len(), |i: int| ps[i]@)
}

/// The views of a list of texts.
pub open spec fn texts_view(ts: Seq<String>) -> Seq<Seq<char>> {
    Seq::new(ts.len(), |i: int| ts[i]@)
}

/// `declare interface Name<T, ...> { members }`
#[derive(Debug, PartialEq, Eq)]
pub struct InterfaceDecl {
    pub name: String,
    pub type_params: Vec<String>,
    pub members: Vec<Member>,
    /// Whether the declaration starts with `declare`.
    pub declare: bool,
}

/// The view of an [`InterfaceDecl`].
#[verifier::ext_equal]
pub struct InterfaceDeclView {
    pub name: Seq<char>,
    pub type_params: Seq<Seq<char>>,
    pub members: Seq<MemberView>,
    pub declare: bool,
}

impl View for InterfaceDecl {
    type V = InterfaceDeclView;

    open spec fn view(&self) -> InterfaceDeclView {
        InterfaceDeclView {
            name: self.name@,
            type_params: texts_view(self.type_params@),
            members: members_view(self.members@),
            declare: self.declare,
        }
    }
}

/// `declare type Name = ty;`
#[derive(Debug, PartialEq, Eq)]
pub struct TypeAliasDecl {
    pub name: String,
    pub ty: TypeExpr,
}

/// The view of a [`TypeAliasDecl`].
#[verifier::ext_equal]
pub struct TypeAliasDeclView {
    pub name: Seq<char>,
    pub ty: TypeExprView,
}

impl View for TypeAliasDecl {
    type V = TypeAliasDeclView;

    open spec fn view(&self) -> TypeAliasDeclView {
        TypeAliasDeclView { name: self.name@, ty: self.ty@ }
    }
}

/// A top-level statement of a declaration document.
#[derive(Debug, PartialEq, Eq)]
pub enum Declaration {
    /// `import { a, b } from "module";`
    Import { module: String, names: Vec<String>, type_only: bool },
    Interface(InterfaceDecl),
    /// `export` before an interface.
    ExportInterface(InterfaceDecl),
    TypeAlias(TypeAliasDecl),
    /// `var name: ty;`, after `export` where `exported` is set.
    Var { name: String, ty: TypeExpr, exported: bool },
    /// `namespace Name { ... }`
    Namespace { name: String, body: Vec<Declaration> },
    /// `declare global { ... }`
    Global { body: Vec<Declaration> },
}

/// The view of a [`Declaration`].
#[verifier::ext_equal]
pub enum DeclarationView {
    Import { module: Seq<char>, names: Seq<Seq<char>>, type_only: bool },
    Interface(InterfaceDeclView),
    ExportInterface(InterfaceDeclView),
    TypeAlias(TypeAliasDeclView),
    Var { name: Seq<char>, ty: TypeExprView, exported: bool },
    Namespace { name: Seq<char>, body: Seq<DeclarationView> },
    Global { body: Seq<DeclarationView> },
}

/// The view of a declaration.
pub open spec fn declaration_view(d: Declaration) -> DeclarationView
    decreases d,
{
    match d {
        Declaration::Import { module, names, type_only } => DeclarationView::Import {
            module: module@,
            names: texts_view(names@),
            type_only,
        },
        Declaration::Interface(i) => DeclarationView::Interface(i@),
        Declaration::ExportInterface(i) => DeclarationView::ExportInterface(i@),
        Declaration::TypeAlias(a) => DeclarationView::TypeAlias(a@),
        Declaration::Var { name, ty, exported } => DeclarationView::Var {
            name: name@,
            ty: ty@,
            exported,
        },
        Declaration::Namespace { name, body } => DeclarationView::Namespace {
            name: name@,
            body: Seq::new(
                body@.len(),
                |i: int|
                    if 0 <= i < body@.len() {
                        declaration_view(body@[i])
                    } else {
                        arbitrary()
                    },
            ),
        },
        Declaration::Global { body } => DeclarationView::Global {
            body: Seq::new(
                body@.len(),
                |i: int|
                    if 0 <= i < body@.len() {
                        declaration_view(body@[i])
                    } else {
                        arbitrary()
                    },
            ),
        },
    }
}

impl View for Declaration {
    type V = DeclarationView;

    open spec fn view(&self) -> DeclarationView {
        declaration_view(*self)
    }
}

/// The views of a list of declarations.
pub open spec fn declarations_view(ds: Seq<Declaration>) -> Seq<DeclarationView> {
    Seq::new(ds.len(), |i: int| ds[i]@)
}

/// The view of a union is the union of the views of its parts.
pub proof fn lemma_union_view(ts: Vec<TypeExpr>)
    ensures
        TypeExpr::Union(ts)@ == TypeExprView::Union(types_view(ts@)),
{
    assert(TypeExpr::Union(ts)@->Union_0 =~= types_view(ts@));
}

/// The view of an object type is made of the views of its members.
pub proof fn lemma_object_view(ms: Vec<Member>)
    ensures
        TypeExpr::Object(ms)@ == TypeExprView::Object(members_view(ms@)),
{
    assert(TypeExpr::Object(ms)@->Object_0 =~= members_view(ms@));
}

/// The view of a reference is made of its name and the views of its
/// arguments.
pub proof fn lemma_reference_view(name: String, args: Vec<TypeExpr>)
    ensures
        (TypeExpr::Reference { name, args })@ == (TypeExprView::Reference {
            name: name@,
            args: types_view(args@),
        }),
{
    assert((TypeExpr::Reference { name, args })@->Reference_args =~= types_view(args@));
}

/// The view of a method is made of its name and the views of its parameters
/// and of its result.
pub proof fn lemma_method_view(name: String, params: Vec<Param>, result: TypeExpr)
    ensures
        (Member::Method { name, params, result })@ == (MemberView::Method {
            name: name@,
            params: params_view(params@),
            result: result@,
        }),
{
    assert((Member::Method { name, params, result })@->Method_params =~= params_view(params@));
}

/// The view of a namespace is made of its name and the views of its body.
pub proof fn lemma_namespace_view(name: String, body: Vec<Declaration>)
    ensures
        (Declaration::Namespace { name, body })@ == (DeclarationView::Namespace {
            name: name@,
            body: declarations_view(body@),
        }),
{
    assert((Declaration::Namespace { name, body })@->Namespace_body =~= declarations_view(body@));
}

/// The view of a global block is made of the views of its body.
pub proof fn lemma_global_view(body: Vec<Declaration>)
    ensures
        (Declaration::Global { body })@ == (DeclarationView::Global {
            body: declarations_view(body@),
        }),
{
    assert((Declaration::Global { body })@->Global_body =~= declarations_view(body@));
}

/// Whether a type holds a node that comes from the source file `f`.
pub open spec fn type_mentions(t: TypeExprView, f: usize) -> bool
    decreases t,
{
    match t {
        TypeExprView::Keyword(_) => false,
        TypeExprView::Hint(_) => false,
        TypeExprView::Union(ts) => exists|i: int|
            0 <= i < ts.len() && type_mentions(#[trigger] ts[i], f),
        TypeExprView::Object(ms) => exists|i: int|
            0 <= i < ms.len() && member_mentions(#[trigger] ms[i], f),
        TypeExprView::Reference { args, .. } => exists|i: int|
            0 <= i < args.len() && type_mentions(#[trigger] args[i], f),
        TypeExprView::Array(b) => type_mentions(*b, f),
    }
}

/// Whether a member comes from the source file `f`, or holds a node that
/// does.
pub open spec fn member_mentions(m: MemberView, f: usize) -> bool
    decreases m,
{
    match m {
        MemberView::Property { ty, origin, .. } => (origin matches Some(o) && o.file == f)
            || type_mentions(ty, f),
        MemberView::Method { params, result, .. } => type_mentions(result, f) || exists|i: int|
            0 <= i < params.len() && type_mentions((#[trigger] params[i]).ty, f),
    }
}

/// Whether one of the members comes from the source file `f`, or holds a node
/// that does.
pub open spec fn members_mention(ms: Seq<MemberView>, f: usize) -> bool {
    exists|i: int| 0 <= i < ms.len() && member_mentions(#[trigger] ms[i], f)
}

/// Whether a key is sound: a bare key is a valid identifier.
pub open spec fn sound_key(k: PropertyKeyView) -> bool {
    k matches PropertyKeyView::Bare(n) ==> valid_ident(n)
}

/// Whether a type is sound: every hint in it is a type, and every bare key in
/// it is a valid identifier.
pub open spec fn sound_type(t: TypeExprView) -> bool
    decreases t,
{
    match t {
        TypeExprView::Keyword(_) => true,
        TypeExprView::Hint(h) => hint_is_type(h),
        TypeExprView::Union(ts) => forall|i: int|
            0 <= i < ts.len() ==> sound_type(#[trigger] ts[i]),
        TypeExprView::Object(ms) => forall|i: int|
            0 <= i < ms.len() ==> sound_member(#[trigger] ms[i]),
        TypeExprView::Reference { args, .. } => forall|i: int|
            0 <= i < args.len() ==> sound_type(#[trigger] args[i]),
        TypeExprView::Array(b) => sound_type(*b),
    }
}

/// Whether a member is sound: its key is, and so are the types that it holds.
pub open spec fn sound_member(m: MemberView) -> bool
    decreases m,
{
    match m {
        MemberView::Property { key, ty, .. } => sound_key(key) && sound_type(ty),
        MemberView::Method { params, result, .. } => sound_type(result) && forall|i: int|
            0 <= i < params.len() ==> sound_type((#[trigger] params[i]).ty),
    }
}

/// Whether all members are sound.
pub open spec fn sound_members(ms: Seq<MemberView>) -> bool {
    forall|i: int| 0 <= i < ms.len() ==> sound_member(#[trigger] ms[i])
}

/// Whether a declaration holds a node that comes from the source file `f`.
pub open spec fn declaration_mentions(d: DeclarationView, f: usize) -> bool
    decreases d,
{
    match d {
        DeclarationView::Import { .. } => false,
        DeclarationView::Interface(i) => members_mention(i.members, f),
        DeclarationView::ExportInterface(i) => members_mention(i.members, f),
        DeclarationView::TypeAlias(a) => type_mentions(a.ty, f),
        DeclarationView::Var { ty, .. } => type_mentions(ty, f),
        DeclarationView::Namespace { body, .. } => exists|i: int|
            0 <= i < body.len() && declaration_mentions(#[trigger] body[i], f),
        DeclarationView::Global { body } => exists|i: int|
            0 <= i < body.len() && declaration_mentions(#[trigger] body[i], f),
    }
}

/// Whether a document holds a node that comes from the source file `f`.
pub open spec fn document_mentions(ds: Seq<DeclarationView>, f: usize) -> bool {
    exists|i: int| 0 <= i < ds.len() && declaration_mentions(#[trigger] ds[i], f)
}

/// An object type holds a node from `f` exactly when one of its members
/// does.
pub proof fn lemma_object_mentions(ms: Seq<MemberView>, f: usize)
    ensures
        type_mentions(TypeExprView::Object(ms), f) == members_mention(ms, f),
{
    if members_mention(ms, f) {
        let i = choose|i: int| 0 <= i < ms.len() && member_mentions(#[trigger] ms[i], f);
        let t = TypeExprView::Object(ms);
        assert(member_mentions(t->Object_0[i], f));
    }
}

/// A copy of a type.
pub fn clone_type(t: &TypeExpr) -> (r: TypeExpr)
    ensures
        r@ == t@,
    decreases t,
{
    match t {
        TypeExpr::Keyword(k) => TypeExpr::Keyword(*k),
        TypeExpr::Hint(s) => TypeExpr::Hint(s.clone()),
        TypeExpr::Union(ts) => {
            let c = clone_types(ts);
            proof {
                lemma_union_view(c);
                lemma_union_view(*ts);
            }
            TypeExpr::Union(c)
        },
        TypeExpr::Object(ms) => {
            let c = clone_members(ms);
            proof {
                lemma_object_view(c);
                lemma_object_view(*ms);
            }
            TypeExpr::Object(c)
        },
        TypeExpr::Reference { name, args } => {
            let c = clone_types(args);
            let n = name.clone();
            proof {
                lemma_reference_view(n, c);
                lemma_reference_view(*name, *args);
            }
            TypeExpr::Reference { name: n, args: c }
        },
        TypeExpr::Array(b) => TypeExpr::Array(Box::new(clone_type(b))),
    }
}

/// A copy of a list of types.
pub fn clone_types(ts: &Vec<TypeExpr>) -> (r: Vec<TypeExpr>)
    ensures
        types_view(r@) == types_view(ts@),
    decreases ts,
{
    let mut out: Vec<TypeExpr> = Vec::new();
    let n = ts.len();
    let mut i: usize = 0;
    while i < n
        invariant
            n == ts@.len(),
            i <= n,
            types_view(out@) == types_view(ts@.take(i as int)),
        decreases n - i,
    {
        let ghost before = types_view(out@);
        let c = clone_type(&ts[i]);
        out.push(c);
        assert(types_view(out@) =~= before.push(c@));
        assert(types_view(ts@.take(i + 1)) =~= types_view(ts@.take(i as int)).push(ts@[i as int]@));
        i += 1;
    }
    assert(ts@.take(n as int) =~= ts@);
    out
}

/// A copy of a member.
pub fn clone_member(m: &Member) -> (r: Member)
    ensures
        r@ == m@,
    decreases m,
{
    match m {
        Member::Property { key, optional, readonly, ty, origin } => {
            let k = match key {
                PropertyKey::Bare(s) => PropertyKey::Bare(s.clone()),
                PropertyKey::Quoted(s) => PropertyKey::Quoted(s.clone()),
            };
            Member::Property {
                key: k,
                optional: *optional,
                readonly: *readonly,
                ty: clone_type(ty),
                origin: *origin,
            }
        },
        Member::Method { name, params, result } => {
            let ps = clone_params(params);
            let nm = name.clone();
            let res = clone_type(result);
            proof {
                lemma_method_view(nm, ps, res);
                lemma_method_view(*name, *params, *result);
            }
            Member::Method { name: nm, params: ps, result: res }
        },
    }
}

/// A copy of a list of parameters.
pub fn clone_params(params: &Vec<Param>) -> (r: Vec<Param>)
    ensures
        params_view(r@) == params_view(params@),
    decreases params,
{
    let mut ps: Vec<Param> = Vec::new();
    let n = params.len();
    let mut i: usize = 0;
    while i < n
        invariant
            n == params@.len(),
            i <= n,
            params_view(ps@) == params_view(params@.take(i as int)),
        decreases n - i,
    {
        let ghost before = params_view(ps@);
        let p = Param { name: params[i].name.clone(), ty: clone_type(&params[i].ty) };
        ps.push(p);
        assert(params_view(ps@) =~= before.push(p@));
        assert(params_view(params@.take(i + 1)) =~= params_view(params@.take(i as int)).push(
            params@[i as int]@,
        ));
        i += 1;
    }
    assert(params@.take(n as int) =~= params@);
    ps
}

/// A copy of a list of members.
pub fn clone_members(ms: &Vec<Member>) -> (r: Vec<Member>)
    ensures
        members_view(r@) == members_view(ms@),
    decreases ms,
{
    let mut out: Vec<Member> = Vec::new();
    let n = ms.len();
    let mut i: usize = 0;
    while i < n
        invariant
            n == ms@.len(),
            i <= n,
            members_view(out@) == members_view(ms@.take(i as int)),
        decreases n - i,
    {
        let ghost before = members_view(out@);
        let c = clone_member(&ms[i]);
        out.push(c);
        assert(members_view(out@) =~= before.push(c@));
        assert(members_view(ms@.take(i + 1)) =~= members_view(ms@.take(i as int)).push(
            ms@[i as int]@,
        ));
        i += 1;
    }
    assert(ms@.take(n as int) =~= ms@);
    out
}

} // verus!

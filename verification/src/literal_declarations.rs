//! The fixed declarations that stand around the synthesized ones, and the
//! test for names that can be written as bare identifiers.

use vstd::prelude::*;
use crate::decl::{
    declaration_mentions, declarations_view, key_for, member_mentions, members_mention,
    type_mentions, lemma_global_view, lemma_method_view, lemma_namespace_view,
    lemma_reference_view, lemma_union_view, members_view, params_view, texts_view, types_view,
    valid_ident, Declaration, DeclarationView, InterfaceDecl, InterfaceDeclView, Keyword, Member,
    MemberView, Param, ParamView, PropertyKey, PropertyKeyView, TypeExpr, TypeExprView,
};
use crate::text::chars_of;

verus! {

/// Whether `name` can be written as a bare identifier: it starts with an
/// ASCII letter, `_` or `$`, and goes on with ASCII letters, digits, `_` or
/// `$`. The empty name cannot.
pub fn is_valid_ident(name: &str) -> (r: bool)
    ensures
        r == valid_ident(name@),
{
    let chars = chars_of(name);
    let n = chars.len();
    if n == 0 {
        return false;
    }
    let first = chars[0];
    if !(first == '_' || first == '$' || ('a' <= first && first <= 'z') || ('A' <= first
        && first <= 'Z')) {
        return false;
    }
    let mut i: usize = 1;
    while i < n
        invariant
            n == chars@.len(),
            chars@ == name@,
            1 <= i <= n,
            forall|j: int|
                0 < j < i ==> (#[trigger] name@[j] == '_' || name@[j] == '$'
                    || crate::text::is_ascii_letter(name@[j]) || crate::text::is_ascii_digit(
                    name@[j],
                )),
        decreases n - i,
    {
        let c = chars[i];
        if !(c == '_' || c == '$' || ('a' <= c && c <= 'z') || ('A' <= c && c <= 'Z') || ('0' <= c
            && c <= '9')) {
            return false;
        }
        i += 1;
    }
    true
}

/// The key under which a property named `name` is declared: bare where the
/// name is a valid identifier, quoted where it is not.
pub fn property_key(name: &str) -> (r: PropertyKey)
    ensures
        r@ == key_for(name@),
{
    if is_valid_ident(name) {
        PropertyKey::Bare(String::from_str(name))
    } else {
        PropertyKey::Quoted(String::from_str(name))
    }
}

/// The type named `name`.
pub open spec fn reference(name: Seq<char>) -> TypeExprView {
    TypeExprView::Reference { name, args: Seq::empty() }
}

/// The generic type `name`, applied to `arg`.
pub open spec fn applied(name: Seq<char>, arg: TypeExprView) -> TypeExprView {
    TypeExprView::Reference { name, args: seq![arg] }
}

/// The property `name: ty` of the prelude: required, writable, under a bare
/// key, and from no source file.
pub open spec fn fixed_property(name: Seq<char>, ty: TypeExprView) -> MemberView {
    MemberView::Property {
        key: PropertyKeyView::Bare(name),
        optional: false,
        readonly: false,
        ty,
        origin: None,
    }
}

/// The method `name(param: param_ty): result`.
pub open spec fn unary_method(
    name: Seq<char>,
    param: Seq<char>,
    param_ty: TypeExprView,
    result: TypeExprView,
) -> MemberView {
    MemberView::Method { name, params: seq![ParamView { name: param, ty: param_ty }], result }
}

/// Builds the type named `name`.
fn type_named(name: &str) -> (r: TypeExpr)
    ensures
        r@ == reference(name@),
{
    let n = String::from_str(name);
    let args: Vec<TypeExpr> = Vec::new();
    proof {
        lemma_reference_view(n, args);
        assert(types_view(args@) =~= Seq::<TypeExprView>::empty());
    }
    TypeExpr::Reference { name: n, args }
}

/// Builds the generic type `name`, applied to `arg`.
fn type_applied(name: &str, arg: TypeExpr) -> (r: TypeExpr)
    ensures
        r@ == applied(name@, arg@),
{
    let ghost av = arg@;
    let n = String::from_str(name);
    let mut args: Vec<TypeExpr> = Vec::new();
    args.push(arg);
    proof {
        lemma_reference_view(n, args);
        assert(types_view(args@) =~= seq![av]);
    }
    TypeExpr::Reference { name: n, args }
}

/// Builds the property `name: ty` of the prelude.
fn property_fixed(name: &str, ty: TypeExpr) -> (r: Member)
    ensures
        r@ == fixed_property(name@, ty@),
{
    Member::Property {
        key: PropertyKey::Bare(String::from_str(name)),
        optional: false,
        readonly: false,
        ty,
        origin: None,
    }
}

/// Builds the method `name(param: param_ty): result`.
fn method_unary(name: &str, param: &str, param_ty: TypeExpr, result: TypeExpr) -> (r: Member)
    ensures
        r@ == unary_method(name@, param@, param_ty@, result@),
{
    let n = String::from_str(name);
    let p = Param { name: String::from_str(param), ty: param_ty };
    let ghost pv = p@;
    let mut params: Vec<Param> = Vec::new();
    params.push(p);
    proof {
        lemma_method_view(n, params, result);
        assert(params_view(params@) =~= seq![pv]);
    }
    Member::Method { name: n, params, result }
}

/// `import { imported_items } from "module_name";`
pub open spec fn import_of(module_name: Seq<char>, imported_items: Seq<Seq<char>>, type_only: bool) -> DeclarationView {
    DeclarationView::Import { module: module_name, names: imported_items, type_only }
}

/// The views of a list of borrowed texts.
pub open spec fn strs_view(items: Seq<&str>) -> Seq<Seq<char>> {
    Seq::new(items.len(), |i: int| items[i]@)
}

/// Declares the import of the named items from a module.
pub fn import_named(module_name: &str, imported_items: Vec<&str>, type_only: bool) -> (r: Declaration)
    ensures
        r@ == import_of(module_name@, strs_view(imported_items@), type_only),
{
    let mut names: Vec<String> = Vec::new();
    let n = imported_items.len();
    let mut i: usize = 0;
    assert(texts_view(names@) =~= strs_view(imported_items@.take(0)));
    while i < n
        invariant
            n == imported_items@.len(),
            i <= n,
            texts_view(names@) == strs_view(imported_items@.take(i as int)),
        decreases n - i,
    {
        let ghost before = texts_view(names@);
        let s = String::from_str(imported_items[i]);
        names.push(s);
        assert(texts_view(names@) =~= before.push(s@));
        assert(strs_view(imported_items@.take(i + 1)) =~= strs_view(
            imported_items@.take(i as int),
        ).push(imported_items@[i as int]@));
        i += 1;
    }
    assert(imported_items@.take(n as int) =~= imported_items@);
    Declaration::Import { module: String::from_str(module_name), names, type_only }
}

/// `declare interface SailsJsHelper<T, R> { with(input: T): Promise<R>; }`
pub open spec fn helper_object_interface() -> InterfaceDeclView {
    InterfaceDeclView {
        name: "SailsJsHelper"@,
        type_params: seq!["T"@, "R"@],
        members: seq![
            unary_method("with"@, "input"@, reference("T"@), applied("Promise"@, reference("R"@))),
        ],
        declare: true,
    }
}

/// The interface that every helper is declared with: a single method that
/// takes the inputs and promises the result.
pub fn get_helper_object_interface() -> (r: InterfaceDecl)
    ensures
        r@ == helper_object_interface(),
{
    let mut type_params: Vec<String> = Vec::new();
    type_params.push(String::from_str("T"));
    type_params.push(String::from_str("R"));
    let m = method_unary("with", "input", type_named("T"), type_applied("Promise", type_named("R")));
    let ghost mv = m@;
    let mut members: Vec<Member> = Vec::new();
    members.push(m);
    assert(texts_view(type_params@) =~= seq!["T"@, "R"@]);
    assert(members_view(members@) =~= seq![mv]);
    InterfaceDecl { name: String::from_str("SailsJsHelper"), type_params, members, declare: true }
}

/// A model, by the name it is reached under and the name of its declared
/// type.
#[derive(Debug, PartialEq, Eq)]
pub struct SailsModelInfo {
    pub name: String,
    pub declared_type: String,
}

/// The view of a [`SailsModelInfo`].
pub struct SailsModelInfoView {
    pub name: Seq<char>,
    pub declared_type: Seq<char>,
}

impl View for SailsModelInfo {
    type V = SailsModelInfoView;

    open spec fn view(&self) -> SailsModelInfoView {
        SailsModelInfoView { name: self.name@, declared_type: self.declared_type@ }
    }
}

/// The views of a list of models.
pub open spec fn models_view(ms: Seq<SailsModelInfo>) -> Seq<SailsModelInfoView> {
    Seq::new(ms.len(), |i: int| ms[i]@)
}

/// The type of the accessor of a model.
pub open spec fn accessor_type(model: SailsModelInfoView) -> TypeExprView {
    applied("ModelAccessor"@, reference(model.declared_type))
}

/// The property under which a model is reached: bare where its name is a
/// valid identifier, quoted where it is not.
pub open spec fn model_property(model: SailsModelInfoView) -> MemberView {
    MemberView::Property {
        key: key_for(model.name),
        optional: false,
        readonly: false,
        ty: accessor_type(model),
        origin: None,
    }
}

/// `declare interface SailsObjectModels { Name: ModelAccessor<TypeName>; ... }`
pub open spec fn sails_object_models_interface(models: Seq<SailsModelInfoView>) -> InterfaceDeclView {
    InterfaceDeclView {
        name: "SailsObjectModels"@,
        type_params: Seq::empty(),
        members: Seq::new(models.len(), |i: int| model_property(models[i])),
        declare: true,
    }
}

/// The interface that holds one accessor for each model, in the order of the
/// models.
pub fn get_sails_object_models_interface(models: &Vec<SailsModelInfo>) -> (r: InterfaceDecl)
    ensures
        r@ == sails_object_models_interface(models_view(models@)),
{
    let mut members: Vec<Member> = Vec::new();
    let n = models.len();
    let mut i: usize = 0;
    assert(members_view(members@) =~= Seq::new(
        0nat,
        |j: int| model_property(models_view(models@)[j]),
    ));
    while i < n
        invariant
            n == models@.len(),
            i <= n,
            members_view(members@) == Seq::new(
                i as nat,
                |j: int| model_property(models_view(models@)[j]),
            ),
        decreases n - i,
    {
        let ghost before = members_view(members@);
        let m = Member::Property {
            key: property_key(models[i].name.as_str()),
            optional: false,
            readonly: false,
            ty: type_applied("ModelAccessor", type_named(models[i].declared_type.as_str())),
            origin: None,
        };
        assert(m@ == model_property(models@[i as int]@));
        members.push(m);
        assert(members_view(members@) =~= before.push(m@));
        assert(Seq::new((i + 1) as nat, |j: int| model_property(models_view(models@)[j])) =~= before.push(
            m@,
        ));
        i += 1;
    }
    let type_params: Vec<String> = Vec::new();
    assert(texts_view(type_params@) =~= Seq::<Seq<char>>::empty());
    InterfaceDecl { name: String::from_str("SailsObjectModels"), type_params, members, declare: true }
}

/// `declare interface SailsObject { helpers: HelpersObject; models: SailsObjectModels; }`,
/// without `models` where no models are declared.
pub open spec fn sails_object(with_models: bool) -> InterfaceDeclView {
    InterfaceDeclView {
        name: "SailsObject"@,
        type_params: Seq::empty(),
        members: if with_models {
            seq![
                fixed_property("helpers"@, reference("HelpersObject"@)),
                fixed_property("models"@, reference("SailsObjectModels"@)),
            ]
        } else {
            seq![fixed_property("helpers"@, reference("HelpersObject"@))]
        },
        declare: true,
    }
}

/// The exported interface of the global object: its helpers, and its models
/// where `with_models` is set.
pub fn get_sails_object(with_models: bool) -> (r: Declaration)
    ensures
        r@ == DeclarationView::ExportInterface(sails_object(with_models)),
{
    let mut members: Vec<Member> = Vec::new();
    let h = property_fixed("helpers", type_named("HelpersObject"));
    let ghost hv = h@;
    members.push(h);
    assert(members_view(members@) =~= seq![hv]);
    if with_models {
        let m = property_fixed("models", type_named("SailsObjectModels"));
        let ghost mv = m@;
        members.push(m);
        assert(members_view(members@) =~= seq![hv, mv]);
    }
    let type_params: Vec<String> = Vec::new();
    assert(texts_view(type_params@) =~= Seq::<Seq<char>>::empty());
    Declaration::ExportInterface(
        InterfaceDecl { name: String::from_str("SailsObject"), type_params, members, declare: true },
    )
}

/// `declare global { namespace NodeJS { interface Global { sails: SailsObject; } } }`
pub open spec fn global_namespace_declarations() -> DeclarationView {
    DeclarationView::Global {
        body: seq![
            DeclarationView::Namespace {
                name: "NodeJS"@,
                body: seq![
                    DeclarationView::Interface(
                        InterfaceDeclView {
                            name: "Global"@,
                            type_params: Seq::empty(),
                            members: seq![fixed_property("sails"@, reference("SailsObject"@))],
                            declare: false,
                        },
                    ),
                ],
            },
        ],
    }
}

/// The declaration that adds `sails` to the global object of Node.
pub fn get_global_namespace_declarations() -> (r: Declaration)
    ensures
        r@ == global_namespace_declarations(),
{
    let m = property_fixed("sails", type_named("SailsObject"));
    let ghost mv = m@;
    let mut members: Vec<Member> = Vec::new();
    members.push(m);
    assert(members_view(members@) =~= seq![mv]);
    let type_params: Vec<String> = Vec::new();
    assert(texts_view(type_params@) =~= Seq::<Seq<char>>::empty());
    let interface = Declaration::Interface(
        InterfaceDecl { name: String::from_str("Global"), type_params, members, declare: false },
    );
    let ghost iv = interface@;
    let mut inner: Vec<Declaration> = Vec::new();
    inner.push(interface);
    assert(declarations_view(inner@) =~= seq![iv]);
    let name = String::from_str("NodeJS");
    proof {
        lemma_namespace_view(name, inner);
    }
    let namespace = Declaration::Namespace { name, body: inner };
    let ghost nv = namespace@;
    let mut body: Vec<Declaration> = Vec::new();
    body.push(namespace);
    assert(declarations_view(body@) =~= seq![nv]);
    proof {
        lemma_global_view(body);
    }
    Declaration::Global { body }
}

/// `declare global { export var sails: SailsObject; }`
pub open spec fn global_declarations() -> DeclarationView {
    DeclarationView::Global {
        body: seq![
            DeclarationView::Var {
                name: "sails"@,
                ty: reference("SailsObject"@),
                exported: true,
            },
        ],
    }
}

/// The declaration of the global variable `sails`.
pub fn get_global_declarations() -> (r: Declaration)
    ensures
        r@ == global_declarations(),
{
    let v = Declaration::Var {
        name: String::from_str("sails"),
        ty: type_named("SailsObject"),
        exported: true,
    };
    let ghost vv = v@;
    let mut body: Vec<Declaration> = Vec::new();
    body.push(v);
    assert(declarations_view(body@) =~= seq![vv]);
    proof {
        lemma_global_view(body);
    }
    Declaration::Global { body }
}

/// The global variables of the first `k` models: one for each model whose
/// name is a valid identifier, in the order of the models.
pub open spec fn model_variables(models: Seq<SailsModelInfoView>, k: nat) -> Seq<DeclarationView>
    decreases k,
{
    if k == 0 || k > models.len() {
        Seq::empty()
    } else if valid_ident(models[k - 1].name) {
        model_variables(models, (k - 1) as nat).push(
            DeclarationView::Var {
                name: models[k - 1].name,
                ty: accessor_type(models[k - 1]),
                exported: false,
            },
        )
    } else {
        model_variables(models, (k - 1) as nat)
    }
}

/// `declare global { var Name: ModelAccessor<TypeName>; ... }`
pub open spec fn global_model_accessors(models: Seq<SailsModelInfoView>) -> DeclarationView {
    DeclarationView::Global { body: model_variables(models, models.len()) }
}

/// The declaration of one global variable for each model. A model whose name
/// cannot be written as an identifier gets none.
pub fn get_global_model_accessors(models: &Vec<SailsModelInfo>) -> (r: Declaration)
    ensures
        r@ == global_model_accessors(models_view(models@)),
{
    let mut body: Vec<Declaration> = Vec::new();
    let n = models.len();
    let mut i: usize = 0;
    assert(declarations_view(body@) =~= Seq::<DeclarationView>::empty());
    while i < n
        invariant
            n == models@.len(),
            i <= n,
            declarations_view(body@) == model_variables(models_view(models@), i as nat),
        decreases n - i,
    {
        if is_valid_ident(models[i].name.as_str()) {
            let ghost before = declarations_view(body@);
            let v = Declaration::Var {
                name: models[i].name.clone(),
                ty: type_applied("ModelAccessor", type_named(models[i].declared_type.as_str())),
                exported: false,
            };
            let ghost vv = v@;
            body.push(v);
            assert(declarations_view(body@) =~= before.push(vv));
        }
        i += 1;
    }
    proof {
        lemma_global_view(body);
    }
    Declaration::Global { body }
}

/// `declare interface ModelAccessor<T>` with `find`, `findOne` and `create`.
pub open spec fn model_accessor_interface() -> InterfaceDeclView {
    InterfaceDeclView {
        name: "ModelAccessor"@,
        type_params: seq!["T"@],
        members: seq![
            unary_method(
                "find"@,
                "criteria"@,
                TypeExprView::Keyword(Keyword::Any),
                applied("Promise"@, TypeExprView::Array(Box::new(reference("T"@)))),
            ),
            unary_method(
                "findOne"@,
                "criteria"@,
                TypeExprView::Keyword(Keyword::Any),
                applied(
                    "Promise"@,
                    TypeExprView::Union(
                        seq![reference("T"@), TypeExprView::Keyword(Keyword::Undefined)],
                    ),
                ),
            ),
            unary_method(
                "create"@,
                "data"@,
                TypeExprView::Keyword(Keyword::Any),
                applied("Promise"@, reference("T"@)),
            ),
        ],
        declare: true,
    }
}

/// The interface of a model accessor: `find` promises a list of records,
/// `findOne` a record or `undefined`, `create` a record.
pub fn get_model_accessor_interface() -> (r: InterfaceDecl)
    ensures
        r@ == model_accessor_interface(),
{
    let mut type_params: Vec<String> = Vec::new();
    type_params.push(String::from_str("T"));
    assert(texts_view(type_params@) =~= seq!["T"@]);
    let find = method_unary(
        "find",
        "criteria",
        TypeExpr::Keyword(Keyword::Any),
        type_applied("Promise", TypeExpr::Array(Box::new(type_named("T")))),
    );
    let t = type_named("T");
    let ghost tv = t@;
    let mut parts: Vec<TypeExpr> = Vec::new();
    parts.push(t);
    parts.push(TypeExpr::Keyword(Keyword::Undefined));
    proof {
        lemma_union_view(parts);
        assert(types_view(parts@) =~= seq![tv, TypeExprView::Keyword(Keyword::Undefined)]);
    }
    let find_one = method_unary(
        "findOne",
        "criteria",
        TypeExpr::Keyword(Keyword::Any),
        type_applied("Promise", TypeExpr::Union(parts)),
    );
    let create = method_unary(
        "create",
        "data",
        TypeExpr::Keyword(Keyword::Any),
        type_applied("Promise", type_named("T")),
    );
    let ghost v = seq![find@, find_one@, create@];
    let mut members: Vec<Member> = Vec::new();
    members.push(find);
    members.push(find_one);
    members.push(create);
    assert(members_view(members@) =~= v);
    InterfaceDecl { name: String::from_str("ModelAccessor"), type_params, members, declare: true }
}

/// A type of the prelude comes from no source file where the type that it is
/// applied to does not.
pub proof fn lemma_fixed_types(name: Seq<char>, arg: TypeExprView, f: usize)
    ensures
        !type_mentions(reference(name), f),
        type_mentions(applied(name, arg), f) == type_mentions(arg, f),
{
    let t = applied(name, arg);
    let args = t->Reference_args;
    assert(args.len() == 1);
    assert(args[0] == arg);
    if type_mentions(arg, f) {
        assert(type_mentions(t->Reference_args[0], f));
    }
}

/// The declarations of the prelude come from no source file.
pub proof fn lemma_prelude_has_no_origin(f: usize, with_models: bool)
    ensures
        !members_mention(helper_object_interface().members, f),
        !members_mention(sails_object(with_models).members, f),
        !declaration_mentions(global_namespace_declarations(), f),
        !declaration_mentions(global_declarations(), f),
{
    lemma_fixed_types("T"@, reference("R"@), f);
    lemma_fixed_types("R"@, reference("R"@), f);
    lemma_fixed_types("Promise"@, reference("R"@), f);
    lemma_fixed_types("HelpersObject"@, reference("R"@), f);
    lemma_fixed_types("SailsObjectModels"@, reference("R"@), f);
    lemma_fixed_types("SailsObject"@, reference("R"@), f);
    let with = unary_method("with"@, "input"@, reference("T"@), applied("Promise"@, reference("R"@)));
    assert(with->Method_params.len() == 1);
    assert(!member_mentions(with, f));
    let helpers = fixed_property("helpers"@, reference("HelpersObject"@));
    let models = fixed_property("models"@, reference("SailsObjectModels"@));
    let sails = fixed_property("sails"@, reference("SailsObject"@));
    assert(!member_mentions(helpers, f));
    assert(!member_mentions(models, f));
    assert(!member_mentions(sails, f));
    let global = DeclarationView::Interface(
        InterfaceDeclView {
            name: "Global"@,
            type_params: Seq::empty(),
            members: seq![sails],
            declare: false,
        },
    );
    assert(!declaration_mentions(global, f));
    let node = DeclarationView::Namespace { name: "NodeJS"@, body: seq![global] };
    assert(node->Namespace_body.len() == 1);
    assert(!declaration_mentions(node, f));
    assert(global_namespace_declarations()->Global_body.len() == 1);
    assert(global_namespace_declarations()->Global_body[0] == node);
    let variable = DeclarationView::Var {
        name: "sails"@,
        ty: reference("SailsObject"@),
        exported: true,
    };
    assert(!declaration_mentions(variable, f));
    assert(global_declarations()->Global_body.len() == 1);
    assert(global_declarations()->Global_body[0] == variable);
}

} // verus!

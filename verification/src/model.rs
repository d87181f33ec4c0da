//! The declaration of one model: an interface with one property for each
//! attribute that resolves.

use vstd::prelude::*;
use crate::decl::{
    key_for, member_mentions, members_mention, members_view, sound_member, sound_members,
    texts_view, InterfaceDecl, InterfaceDeclView, Member, MemberView, Origin,
};
use crate::literal_declarations::property_key;
use crate::resolver::{
    lemma_resolved, read_descriptor, read_fields, resolve, resolve_descriptor, AttributeTypeInfo,
    AttributeTypeInfoView, DescriptorKind, Resolution, ResolutionView,
};
use crate::script::{
    Expr, ExprView, ObjectLit, Prop, PropName, PropNameView, PropView, Script, StmtView,
};
use crate::text::joined;
use crate::util::{find_module_exports, find_object_prop, module_exports, object_prop};

verus! {

/// Why a model file gives no declaration.
#[derive(Clone, Copy, Debug, PartialEq, Eq, Structural)]
pub enum GenDeclarationsError {
    /// The source did not parse.
    ParseError,
    /// The exported object has no `attributes` object.
    InvalidModel,
    /// No statement of the file is `module.exports = { ... }`.
    IsNotCommonJsModule,
    /// The file exports something that is no object. `gen_decl` does not tell
    /// this apart: it reports every file without an exported object as
    /// `IsNotCommonJsModule`.
    CommonJsModuleDoesNotExportObject,
    /// An attribute has a type hint that is not a type.
    SDTypeHintParseError,
}

/// The property that declares an attribute: under its own name, optional
/// unless the attribute is required, with the resolved type and the place of
/// the attribute's key.
pub open spec fn property_of(name: Seq<char>, info: AttributeTypeInfoView, origin: Origin) -> MemberView {
    MemberView::Property {
        key: key_for(name),
        optional: !info.required,
        readonly: false,
        ty: info.ts_type,
        origin: Some(origin),
    }
}

/// Builds the property that declares an attribute.
pub fn attribute_property(name: &str, info: AttributeTypeInfo, origin: Origin) -> (r: Member)
    ensures
        r@ == property_of(name@, info@, origin),
{
    Member::Property {
        key: property_key(name),
        optional: !info.required,
        readonly: false,
        ty: info.ts_type,
        origin: Some(origin),
    }
}

/// Whether a property of an `attributes` or `inputs` object is an entry: an
/// identifier key with an object literal as its value.
pub open spec fn is_entry(p: PropView) -> bool {
    p matches PropView::KeyValue { key: PropNameView::Ident(_), value: ExprView::Object(_), .. }
}

/// The members that the entries of an `attributes` or `inputs` object give,
/// in source order, for sources of the file `file`.
///
/// A property that is no entry is passed over, and so is an entry that is
/// dropped. A malformed entry aborts the whole object for a model (`None`),
/// and is passed over for the inputs of a helper.
pub open spec fn members_of(entries: Seq<PropView>, kind: DescriptorKind, file: usize) -> Option<
    Seq<MemberView>,
>
    decreases entries.len(),
{
    if entries.len() == 0 {
        Some(Seq::empty())
    } else {
        match members_of(entries.drop_last(), kind, file) {
            None => None,
            Some(ms) => {
                let p = entries.last();
                if is_entry(p) {
                    match resolve(read_fields(p->value->Object_0, kind), kind) {
                        ResolutionView::Resolved(info) => Some(
                            ms.push(
                                property_of(
                                    p->key->Ident_0,
                                    info,
                                    Origin { file, span: p->span },
                                ),
                            ),
                        ),
                        ResolutionView::Dropped => Some(ms),
                        ResolutionView::Malformed => if kind == DescriptorKind::ModelAttribute {
                            None
                        } else {
                            Some(ms)
                        },
                    }
                } else {
                    Some(ms)
                }
            },
        }
    }
}

/// Once a prefix of the entries is aborted, the whole object is.
pub proof fn lemma_abort_is_final(entries: Seq<PropView>, kind: DescriptorKind, file: usize, k: int)
    requires
        0 <= k <= entries.len(),
        members_of(entries.take(k), kind, file) is None,
    ensures
        members_of(entries, kind, file) is None,
    decreases entries.len() - k,
{
    if k < entries.len() {
        assert(entries.take(k + 1).drop_last() =~= entries.take(k));
        lemma_abort_is_final(entries, kind, file, k + 1);
    } else {
        assert(entries.take(k) =~= entries);
    }
}

/// The inputs of a helper are never aborted: a malformed input only drops
/// that input.
pub proof fn lemma_inputs_never_abort(entries: Seq<PropView>, file: usize)
    ensures
        members_of(entries, DescriptorKind::HelperInput, file) is Some,
    decreases entries.len(),
{
    if entries.len() > 0 {
        lemma_inputs_never_abort(entries.drop_last(), file);
    }
}

/// Resolves the entries of an `attributes` or `inputs` object into members.
pub fn collect_members(entries: &ObjectLit, kind: DescriptorKind, file: usize) -> (r: Option<
    Vec<Member>,
>)
    ensures
        match r {
            Some(ms) => members_of(entries@, kind, file) == Some(members_view(ms@)),
            None => members_of(entries@, kind, file) is None,
        },
{
    let mut members: Vec<Member> = Vec::new();
    let n = entries.props.len();
    let mut i: usize = 0;
    assert(members_view(members@) =~= Seq::<MemberView>::empty());
    while i < n
        invariant
            n == entries.props@.len(),
            i <= n,
            members_of(entries@.take(i as int), kind, file) == Some(members_view(members@)),
        decreases n - i,
    {
        proof {
            assert(entries@.take(i + 1).drop_last() =~= entries@.take(i as int));
            assert(entries@.take(i + 1).last() == entries.props@[i as int]@);
        }
        let ghost before = members_view(members@);
        match &entries.props[i] {
            Prop::KeyValue { key: PropName::Ident(name), span, value: Expr::Object(descriptor) } => {
                proof {
                    crate::script::lemma_object_view(*descriptor);
                }
                let d = read_descriptor(descriptor, kind);
                match resolve_descriptor(&d, kind) {
                    Resolution::Resolved(info) => {
                        let m = attribute_property(
                            name.as_str(),
                            info,
                            Origin { file, span: *span },
                        );
                        members.push(m);
                        assert(members_view(members@) =~= before.push(m@));
                    },
                    Resolution::Dropped => {},
                    Resolution::Malformed => {
                        if kind == DescriptorKind::ModelAttribute {
                            proof {
                                lemma_abort_is_final(entries@, kind, file, i + 1);
                            }
                            return None;
                        }
                    },
                }
            },
            _ => {},
        }
        i += 1;
    }
    assert(entries@.take(n as int) =~= entries@);
    Some(members)
}

/// The name of the interface that declares the model `model_name`.
pub open spec fn model_interface_name(model_name: Seq<char>) -> Seq<char> {
    model_name + "__ModelDecl"@
}

/// The declaration of a model, from what parsing its file gave (`None` where
/// the source did not parse), the model's name and the index of its file.
pub open spec fn model_decl(parsed: Option<Seq<StmtView>>, model_name: Seq<char>, file: usize) -> Result<
    InterfaceDeclView,
    GenDeclarationsError,
> {
    match parsed {
        None => Err(GenDeclarationsError::ParseError),
        Some(script) => match module_exports(script) {
            None => Err(GenDeclarationsError::IsNotCommonJsModule),
            Some(exports) => match object_prop(exports, "attributes"@) {
                None => Err(GenDeclarationsError::InvalidModel),
                Some(attributes) => match members_of(
                    attributes,
                    DescriptorKind::ModelAttribute,
                    file,
                ) {
                    None => Err(GenDeclarationsError::SDTypeHintParseError),
                    Some(members) => Ok(
                        InterfaceDeclView {
                            name: model_interface_name(model_name),
                            type_params: Seq::empty(),
                            members,
                            declare: true,
                        },
                    ),
                },
            },
        },
    }
}

/// The view of what parsing gave.
pub open spec fn parsed_view(parsed: Option<&Script>) -> Option<Seq<StmtView>> {
    match parsed {
        Some(s) => Some(s@),
        None => None,
    }
}

/// Synthesizes the declaration of one model.
///
/// `parsed` is the model's file as the parser gave it, or `None` where the
/// source did not parse; `file` is the index under which the caller keeps the
/// file, and every property of the result points into it.
///
/// The result is the ambient interface `<model_name>__ModelDecl`, with one
/// property for each attribute that has a recognized `type`. The file is
/// refused as a whole where it exports no object, where the object has no
/// `attributes` object, and where an attribute has a type hint that is not a
/// type.
pub fn gen_decl(parsed: Option<&Script>, model_name: &str, file: usize) -> (r: Result<
    InterfaceDecl,
    GenDeclarationsError,
>)
    ensures
        match r {
            Ok(d) => model_decl(parsed_view(parsed), model_name@, file) == Ok::<
                InterfaceDeclView,
                GenDeclarationsError,
            >(d@),
            Err(e) => model_decl(parsed_view(parsed), model_name@, file) == Err::<
                InterfaceDeclView,
                GenDeclarationsError,
            >(e),
        },
{
    let script = match parsed {
        None => {
            return Err(GenDeclarationsError::ParseError);
        },
        Some(s) => s,
    };
    let exports = match find_module_exports(script) {
        None => {
            return Err(GenDeclarationsError::IsNotCommonJsModule);
        },
        Some(o) => o,
    };
    let attributes = match find_object_prop(exports, "attributes") {
        None => {
            return Err(GenDeclarationsError::InvalidModel);
        },
        Some(o) => o,
    };
    let members = match collect_members(attributes, DescriptorKind::ModelAttribute, file) {
        None => {
            return Err(GenDeclarationsError::SDTypeHintParseError);
        },
        Some(ms) => ms,
    };
    let type_params: Vec<String> = Vec::new();
    assert(texts_view(type_params@) =~= Seq::<Seq<char>>::empty());
    Ok(InterfaceDecl { name: joined(model_name, "__ModelDecl"), type_params, members, declare: true })
}

/// A property is optional exactly when its attribute is not required.
pub proof fn lemma_optional_iff_not_required(name: Seq<char>, info: AttributeTypeInfoView, origin: Origin)
    ensures
        property_of(name, info, origin) is Property,
        property_of(name, info, origin)->optional == !info.required,
{
}

/// Every member that the entries of a file give is a sound property, and
/// points into that file and nowhere else.
pub proof fn lemma_members_point_into_file(
    entries: Seq<PropView>,
    kind: DescriptorKind,
    file: usize,
    f: usize,
)
    requires
        members_of(entries, kind, file) is Some,
    ensures
        forall|i: int|
            0 <= i < members_of(entries, kind, file)->0.len() ==> (#[trigger] members_of(
                entries,
                kind,
                file,
            )->0[i]) is Property,
        sound_members(members_of(entries, kind, file)->0),
        members_mention(members_of(entries, kind, file)->0, f) ==> f == file,
    decreases entries.len(),
{
    if entries.len() > 0 {
        let rest = entries.drop_last();
        lemma_members_point_into_file(rest, kind, file, f);
        let before = members_of(rest, kind, file)->0;
        let after = members_of(entries, kind, file)->0;
        let p = entries.last();
        if is_entry(p) {
            lemma_resolved(read_fields(p->value->Object_0, kind), kind, f);
        }
        if members_mention(after, f) {
            let i = choose|i: int| 0 <= i < after.len() && member_mentions(#[trigger] after[i], f);
            if i < before.len() {
                assert(after[i] == before[i]);
                assert(member_mentions(before[i], f));
            }
        }
        assert forall|i: int| 0 <= i < after.len() implies (#[trigger] after[i]) is Property
            && sound_member(after[i]) by {
            if i < before.len() {
                assert(after[i] == before[i]);
            }
        }
    }
}

/// The declaration of a model points into the file of the model and into no
/// other.
pub proof fn lemma_model_points_into_its_file(
    parsed: Option<Seq<StmtView>>,
    model_name: Seq<char>,
    file: usize,
    f: usize,
)
    requires
        model_decl(parsed, model_name, file) is Ok,
        members_mention(model_decl(parsed, model_name, file)->Ok_0.members, f),
    ensures
        f == file,
{
    let attributes = object_prop(module_exports(parsed->0)->0, "attributes"@)->0;
    lemma_members_point_into_file(attributes, DescriptorKind::ModelAttribute, file, f);
}

/// The declaration of a model is sound: every hint in it is a type, and every
/// property with a bare key has a name that is a valid identifier.
pub proof fn lemma_model_is_sound(parsed: Option<Seq<StmtView>>, model_name: Seq<char>, file: usize)
    requires
        model_decl(parsed, model_name, file) is Ok,
    ensures
        sound_members(model_decl(parsed, model_name, file)->Ok_0.members),
{
    let attributes = object_prop(module_exports(parsed->0)->0, "attributes"@)->0;
    lemma_members_point_into_file(attributes, DescriptorKind::ModelAttribute, file, file);
}

/// A file whose exported object has no `attributes` object is refused as an
/// invalid model, whatever else it holds.
pub proof fn lemma_model_without_attributes(script: Seq<StmtView>, model_name: Seq<char>, file: usize)
    requires
        module_exports(script) is Some,
        object_prop(module_exports(script)->0, "attributes"@) is None,
    ensures
        model_decl(Some(script), model_name, file) == Err::<InterfaceDeclView, GenDeclarationsError>(
            GenDeclarationsError::InvalidModel,
        ),
{
}

} // verus!

//! The attribute resolver: from the descriptor object of one model attribute
//! or helper input to its type and its `required` flag.

use vstd::prelude::*;
use crate::decl::{
    lemma_union_view, sound_type, type_mentions, types_view, Keyword, TypeExpr, TypeExprView,
};
use crate::script::{Expr, ExprView, ObjectLit, Prop, PropView};
use crate::text::text_eq;
use crate::util::{get_prop_as_str, hint_is_type, parse_type_hint, prop_name_text};

verus! {

/// What a descriptor describes. The two kinds differ in the keys and type
/// names that are recognized: `allowNull` and the type `ref` belong to model
/// attributes only.
#[derive(Clone, Copy, Debug, PartialEq, Eq, Structural)]
pub enum DescriptorKind {
    ModelAttribute,
    HelperInput,
}

/// What was read from one descriptor object.
#[derive(Debug, PartialEq, Eq)]
pub struct AttributeDescriptor {
    /// The primitive type name that `type` holds, where it holds one.
    pub raw_type: Option<String>,
    /// The value of `$SD-type-hint`, where it is a string literal.
    pub override_expr: Option<String>,
    /// The value of `required`, where it is a boolean literal; else `false`.
    pub required: bool,
    /// The value of `allowNull`, where it is recognized and a boolean literal;
    /// else `false`.
    pub allows_null: bool,
}

/// The view of an [`AttributeDescriptor`].
#[verifier::ext_equal]
pub struct AttributeDescriptorView {
    pub raw_type: Option<Seq<char>>,
    pub override_expr: Option<Seq<char>>,
    pub required: bool,
    pub allows_null: bool,
}

impl View for AttributeDescriptor {
    type V = AttributeDescriptorView;

    open spec fn view(&self) -> AttributeDescriptorView {
        AttributeDescriptorView {
            raw_type: crate::script::opt_text_view(self.raw_type),
            override_expr: crate::script::opt_text_view(self.override_expr),
            required: self.required,
            allows_null: self.allows_null,
        }
    }
}

/// The descriptor of an empty object.
pub open spec fn blank_descriptor() -> AttributeDescriptorView {
    AttributeDescriptorView {
        raw_type: None,
        override_expr: None,
        required: false,
        allows_null: false,
    }
}

/// The descriptor `d` after one more property has been read. A recognized key
/// whose value is a literal of the right sort replaces what was read before;
/// any other property changes nothing. For `type` the right sort is a string
/// literal that names a primitive type.
pub open spec fn read_field(
    d: AttributeDescriptorView,
    p: PropView,
    kind: DescriptorKind,
) -> AttributeDescriptorView {
    match p {
        PropView::KeyValue { key, value, .. } => match prop_name_text(key) {
            Some(k) => if k == "type"@ {
                match value {
                    ExprView::Str(s) => if primitive(Some(s), kind) is Some {
                        AttributeDescriptorView { raw_type: Some(s), ..d }
                    } else {
                        d
                    },
                    _ => d,
                }
            } else if k == "required"@ {
                match value {
                    ExprView::Bool(b) => AttributeDescriptorView { required: b, ..d },
                    _ => d,
                }
            } else if k == "allowNull"@ {
                match value {
                    ExprView::Bool(b) => if kind == DescriptorKind::ModelAttribute {
                        AttributeDescriptorView { allows_null: b, ..d }
                    } else {
                        d
                    },
                    _ => d,
                }
            } else if k == "$SD-type-hint"@ {
                match value {
                    ExprView::Str(s) => AttributeDescriptorView { override_expr: Some(s), ..d },
                    _ => d,
                }
            } else {
                d
            },
            None => d,
        },
        PropView::Other => d,
    }
}

/// The descriptor read from the properties of an object, in source order.
pub open spec fn read_fields(props: Seq<PropView>, kind: DescriptorKind) -> AttributeDescriptorView
    decreases props.len(),
{
    if props.len() == 0 {
        blank_descriptor()
    } else {
        read_field(read_fields(props.drop_last(), kind), props.last(), kind)
    }
}

/// Reads a descriptor object.
pub fn read_descriptor(attribute: &ObjectLit, kind: DescriptorKind) -> (d: AttributeDescriptor)
    ensures
        d@ == read_fields(attribute@, kind),
{
    let mut d = AttributeDescriptor {
        raw_type: None,
        override_expr: None,
        required: false,
        allows_null: false,
    };
    let n = attribute.props.len();
    let mut i: usize = 0;
    while i < n
        invariant
            n == attribute.props@.len(),
            i <= n,
            d@ == read_fields(attribute@.take(i as int), kind),
        decreases n - i,
    {
        proof {
            assert(attribute@.take(i + 1).drop_last() =~= attribute@.take(i as int));
            assert(attribute@.take(i + 1).last() == attribute.props@[i as int]@);
        }
        match &attribute.props[i] {
            Prop::KeyValue { key, span: _, value } => {
                match get_prop_as_str(key) {
                    Some(k) => {
                        if text_eq(k, "type") {
                            match value {
                                Expr::Str(s) => {
                                    let name = Some(s.clone());
                                    if primitive_keyword(&name, kind).is_some() {
                                        d.raw_type = name;
                                    }
                                },
                                _ => {},
                            }
                        } else if text_eq(k, "required") {
                            match value {
                                Expr::Bool(b) => {
                                    d.required = *b;
                                },
                                _ => {},
                            }
                        } else if text_eq(k, "allowNull") {
                            match value {
                                Expr::Bool(b) => {
                                    if kind == DescriptorKind::ModelAttribute {
                                        d.allows_null = *b;
                                    }
                                },
                                _ => {},
                            }
                        } else if text_eq(k, "$SD-type-hint") {
                            match value {
                                Expr::Str(s) => {
                                    d.override_expr = Some(s.clone());
                                },
                                _ => {},
                            }
                        }
                    },
                    None => {},
                }
            },
            Prop::Other => {},
        }
        i += 1;
    }
    assert(attribute@.take(n as int) =~= attribute@);
    d
}

/// The type and the `required` flag of one attribute.
#[derive(Debug, PartialEq, Eq)]
pub struct AttributeTypeInfo {
    pub ts_type: TypeExpr,
    pub required: bool,
}

/// The view of an [`AttributeTypeInfo`].
#[verifier::ext_equal]
pub struct AttributeTypeInfoView {
    pub ts_type: TypeExprView,
    pub required: bool,
}

impl View for AttributeTypeInfo {
    type V = AttributeTypeInfoView;

    open spec fn view(&self) -> AttributeTypeInfoView {
        AttributeTypeInfoView { ts_type: self.ts_type@, required: self.required }
    }
}

/// What resolving a descriptor gives.
#[derive(Debug, PartialEq, Eq)]
pub enum Resolution {
    /// The attribute is declared with this type.
    Resolved(AttributeTypeInfo),
    /// The attribute has no recognized `type` and is left out.
    Dropped,
    /// The attribute has a type hint that is not a type.
    Malformed,
}

/// The view of a [`Resolution`].
#[verifier::ext_equal]
pub enum ResolutionView {
    Resolved(AttributeTypeInfoView),
    Dropped,
    Malformed,
}

impl View for Resolution {
    type V = ResolutionView;

    open spec fn view(&self) -> ResolutionView {
        match self {
            Resolution::Resolved(i) => ResolutionView::Resolved(i@),
            Resolution::Dropped => ResolutionView::Dropped,
            Resolution::Malformed => ResolutionView::Malformed,
        }
    }
}

/// The keyword that a primitive type name stands for: `string`, `number` and
/// `boolean` for themselves, `json` for `any`, and for a model attribute
/// `ref` for `any`. Any other name is not recognized.
pub open spec fn primitive(raw: Option<Seq<char>>, kind: DescriptorKind) -> Option<Keyword> {
    match raw {
        None => None,
        Some(t) => if t == "string"@ {
            Some(Keyword::String)
        } else if t == "number"@ {
            Some(Keyword::Number)
        } else if t == "boolean"@ {
            Some(Keyword::Boolean)
        } else if t == "json"@ {
            Some(Keyword::Any)
        } else if t == "ref"@ && kind == DescriptorKind::ModelAttribute {
            Some(Keyword::Any)
        } else {
            None
        },
    }
}

/// The type `t` as it is declared: as it is where null is allowed, and in a
/// union with `null` where it is not.
pub open spec fn with_null(t: TypeExprView, allows_null: bool) -> TypeExprView {
    if allows_null {
        t
    } else {
        TypeExprView::Union(seq![t, TypeExprView::Keyword(Keyword::Null)])
    }
}

/// The resolution of a descriptor.
///
/// A type hint that is present is parsed first: one that is not a type makes
/// the attribute malformed, whatever else it holds. An attribute without a
/// recognized `type` is dropped, also where it has a valid hint. Otherwise the
/// type is that of the hint where there is one, and that of `type` where
/// there is none.
pub open spec fn resolve(d: AttributeDescriptorView, kind: DescriptorKind) -> ResolutionView {
    match d.override_expr {
        Some(h) => if !hint_is_type(h) {
            ResolutionView::Malformed
        } else if primitive(d.raw_type, kind) is None {
            ResolutionView::Dropped
        } else {
            ResolutionView::Resolved(
                AttributeTypeInfoView {
                    ts_type: with_null(TypeExprView::Hint(h), d.allows_null),
                    required: d.required,
                },
            )
        },
        None => match primitive(d.raw_type, kind) {
            Some(k) => ResolutionView::Resolved(
                AttributeTypeInfoView {
                    ts_type: with_null(TypeExprView::Keyword(k), d.allows_null),
                    required: d.required,
                },
            ),
            None => ResolutionView::Dropped,
        },
    }
}

/// Looks up a primitive type name.
pub fn primitive_keyword(raw: &Option<String>, kind: DescriptorKind) -> (r: Option<Keyword>)
    ensures
        r == primitive(crate::script::opt_text_view(*raw), kind),
{
    match raw {
        None => None,
        Some(t) => {
            let t = t.as_str();
            if text_eq(t, "string") {
                Some(Keyword::String)
            } else if text_eq(t, "number") {
                Some(Keyword::Number)
            } else if text_eq(t, "boolean") {
                Some(Keyword::Boolean)
            } else if text_eq(t, "json") {
                Some(Keyword::Any)
            } else if text_eq(t, "ref") && kind == DescriptorKind::ModelAttribute {
                Some(Keyword::Any)
            } else {
                None
            }
        },
    }
}

/// Puts a type into a union with `null`, unless null is allowed.
pub fn nullable(t: TypeExpr, allows_null: bool) -> (r: TypeExpr)
    ensures
        r@ == with_null(t@, allows_null),
{
    if allows_null {
        t
    } else {
        let ghost tv = t@;
        let mut parts: Vec<TypeExpr> = Vec::new();
        parts.push(t);
        parts.push(TypeExpr::Keyword(Keyword::Null));
        proof {
            lemma_union_view(parts);
            assert(types_view(parts@) =~= seq![tv, TypeExprView::Keyword(Keyword::Null)]);
        }
        TypeExpr::Union(parts)
    }
}

/// Resolves a descriptor.
pub fn resolve_descriptor(d: &AttributeDescriptor, kind: DescriptorKind) -> (r: Resolution)
    ensures
        r@ == resolve(d@, kind),
{
    let keyword = primitive_keyword(&d.raw_type, kind);
    match &d.override_expr {
        Some(h) => match parse_type_hint(h.as_str()) {
            Err(_) => Resolution::Malformed,
            Ok(t) => match keyword {
                None => Resolution::Dropped,
                Some(_) => Resolution::Resolved(
                    AttributeTypeInfo { ts_type: nullable(t, d.allows_null), required: d.required },
                ),
            },
        },
        None => match keyword {
            Some(k) => Resolution::Resolved(
                AttributeTypeInfo {
                    ts_type: nullable(TypeExpr::Keyword(k), d.allows_null),
                    required: d.required,
                },
            ),
            None => Resolution::Dropped,
        },
    }
}

/// The type of an attribute whose descriptor resolves; `None` for one that is
/// dropped or malformed.
pub open spec fn attribute_type(props: Seq<PropView>, kind: DescriptorKind) -> Option<AttributeTypeInfoView> {
    match resolve(read_fields(props, kind), kind) {
        ResolutionView::Resolved(i) => Some(i),
        _ => None,
    }
}

/// Reads and resolves one descriptor object, for a caller that passes over
/// what does not resolve.
pub fn ts_type_from_attribute(attribute: &ObjectLit, kind: DescriptorKind) -> (r: Option<AttributeTypeInfo>)
    ensures
        match r {
            Some(i) => attribute_type(attribute@, kind) == Some(i@),
            None => attribute_type(attribute@, kind) is None,
        },
{
    let d = read_descriptor(attribute, kind);
    match resolve_descriptor(&d, kind) {
        Resolution::Resolved(i) => Some(i),
        _ => None,
    }
}

/// An attribute that has only a primitive `type` and no hint is declared with
/// the keyword of that primitive: in a union with `null` unless `allowNull`
/// was set, and with the `required` flag that was read.
pub proof fn lemma_primitive_resolution(d: AttributeDescriptorView, kind: DescriptorKind)
    requires
        d.override_expr is None,
    ensures
        d.raw_type == Some("string"@) ==> resolve(d, kind) == ResolutionView::Resolved(
            AttributeTypeInfoView {
                ts_type: with_null(TypeExprView::Keyword(Keyword::String), d.allows_null),
                required: d.required,
            },
        ),
        d.raw_type == Some("number"@) ==> resolve(d, kind) == ResolutionView::Resolved(
            AttributeTypeInfoView {
                ts_type: with_null(TypeExprView::Keyword(Keyword::Number), d.allows_null),
                required: d.required,
            },
        ),
        d.raw_type == Some("boolean"@) ==> resolve(d, kind) == ResolutionView::Resolved(
            AttributeTypeInfoView {
                ts_type: with_null(TypeExprView::Keyword(Keyword::Boolean), d.allows_null),
                required: d.required,
            },
        ),
        d.raw_type == Some("json"@) ==> resolve(d, kind) == ResolutionView::Resolved(
            AttributeTypeInfoView {
                ts_type: with_null(TypeExprView::Keyword(Keyword::Any), d.allows_null),
                required: d.required,
            },
        ),
        d.raw_type == Some("ref"@) && kind == DescriptorKind::ModelAttribute ==> resolve(d, kind)
            == ResolutionView::Resolved(
            AttributeTypeInfoView {
                ts_type: with_null(TypeExprView::Keyword(Keyword::Any), d.allows_null),
                required: d.required,
            },
        ),
        d.raw_type == Some("ref"@) && kind == DescriptorKind::HelperInput ==> resolve(d, kind)
            == ResolutionView::Dropped,
        d.allows_null ==> with_null(TypeExprView::Keyword(Keyword::Any), d.allows_null)
            == TypeExprView::Keyword(Keyword::Any),
{
    reveal_strlit("string");
    reveal_strlit("number");
    reveal_strlit("boolean");
    reveal_strlit("json");
    reveal_strlit("ref");
    if d.raw_type == Some("number"@) {
        assert("number"@[0] != "string"@[0]);
    }
    if d.raw_type == Some("boolean"@) {
        assert("boolean"@[0] != "string"@[0]);
        assert("boolean"@[0] != "number"@[0]);
    }
    if d.raw_type == Some("json"@) {
        assert("json"@.len() == 4);
    }
    if d.raw_type == Some("ref"@) {
        assert("ref"@.len() == 3);
    }
}

/// A hint that is a type takes precedence over `type`: an attribute with a
/// recognized `type` and such a hint is declared with the hint, whatever the
/// `type` is.
pub proof fn lemma_override_precedence(d: AttributeDescriptorView, kind: DescriptorKind, hint: Seq<char>)
    requires
        d.override_expr == Some(hint),
        hint_is_type(hint),
        primitive(d.raw_type, kind) is Some,
    ensures
        resolve(d, kind) == ResolutionView::Resolved(
            AttributeTypeInfoView {
                ts_type: with_null(TypeExprView::Hint(hint), d.allows_null),
                required: d.required,
            },
        ),
{
}

/// A hint that is not a type makes the attribute malformed, whatever else the
/// descriptor holds; a valid hint alone, without a recognized `type`, leaves
/// the attribute out.
pub proof fn lemma_hint_outcomes(d: AttributeDescriptorView, kind: DescriptorKind, hint: Seq<char>)
    requires
        d.override_expr == Some(hint),
    ensures
        !hint_is_type(hint) ==> resolve(d, kind) == ResolutionView::Malformed,
        hint_is_type(hint) && primitive(d.raw_type, kind) is None ==> resolve(d, kind)
            == ResolutionView::Dropped,
{
}

/// Resolving keeps the `required` flag of the descriptor, and the type that
/// it gives is sound and comes from no source file.
pub proof fn lemma_resolved(d: AttributeDescriptorView, kind: DescriptorKind, f: usize)
    ensures
        resolve(d, kind) matches ResolutionView::Resolved(info) ==> info.required == d.required
            && sound_type(info.ts_type) && !type_mentions(info.ts_type, f),
{
    if let ResolutionView::Resolved(info) = resolve(d, kind) {
        if !d.allows_null {
            let parts = info.ts_type->Union_0;
            assert(parts.len() == 2);
            assert(!type_mentions(parts[0], f));
            assert(!type_mentions(parts[1], f));
            assert(sound_type(parts[0]));
            assert(sound_type(parts[1]));
            assert forall|i: int| 0 <= i < parts.len() implies !type_mentions(
                #[trigger] parts[i],
                f,
            ) && sound_type(parts[i]) by {}
        }
    }
}

/// A descriptor that was read from an object holds a `type` only where the
/// object names a primitive type: any other value of `type` is as good as
/// none.
pub proof fn lemma_read_type_is_primitive(props: Seq<PropView>, kind: DescriptorKind)
    ensures
        read_fields(props, kind).raw_type is Some ==> primitive(
            read_fields(props, kind).raw_type,
            kind,
        ) is Some,
    decreases props.len(),
{
    if props.len() > 0 {
        lemma_read_type_is_primitive(props.drop_last(), kind);
    }
}

} // verus!

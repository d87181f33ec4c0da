use sails_decl_core::decl::{Keyword, TypeExpr};
use sails_decl_core::resolver::{
    read_descriptor, resolve_descriptor, ts_type_from_attribute, AttributeDescriptor,
    AttributeTypeInfo, DescriptorKind, Resolution,
};
use sails_decl_core::script::{Expr, ObjectLit, Prop, PropName, Span};
use sails_decl_core::util::{get_prop_as_str, parse_type_hint, type_assertion_source};

fn rkv(key: &str, value: Expr) -> Prop {
    Prop::KeyValue { key: PropName::Ident(key.to_string()), span: Span { lo: 0, hi: 0 }, value }
}

fn rquoted(key: &str, value: Expr) -> Prop {
    Prop::KeyValue { key: PropName::Str(key.to_string()), span: Span { lo: 0, hi: 0 }, value }
}

fn rstr(s: &str) -> Expr {
    Expr::Str(s.to_string())
}

fn robj(props: Vec<Prop>) -> ObjectLit {
    ObjectLit { props }
}

fn with_null(t: TypeExpr) -> TypeExpr {
    TypeExpr::Union(vec![t, TypeExpr::Keyword(Keyword::Null)])
}

fn primitive_case(name: &str, keyword: Keyword) {
    let absent = robj(vec![rkv("type", rstr(name))]);
    assert_eq!(
        ts_type_from_attribute(&absent, DescriptorKind::ModelAttribute),
        Some(AttributeTypeInfo { ts_type: with_null(TypeExpr::Keyword(keyword)), required: false })
    );
    let denied = robj(vec![rkv("type", rstr(name)), rkv("allowNull", Expr::Bool(false))]);
    assert_eq!(
        ts_type_from_attribute(&denied, DescriptorKind::ModelAttribute),
        Some(AttributeTypeInfo { ts_type: with_null(TypeExpr::Keyword(keyword)), required: false })
    );
    let allowed = robj(vec![rkv("type", rstr(name)), rkv("allowNull", Expr::Bool(true))]);
    assert_eq!(
        ts_type_from_attribute(&allowed, DescriptorKind::ModelAttribute),
        Some(AttributeTypeInfo { ts_type: TypeExpr::Keyword(keyword), required: false })
    );
}

#[test]
fn primitive_string_resolves_to_string() {
    primitive_case("string", Keyword::String);
}

#[test]
fn primitive_number_resolves_to_number() {
    primitive_case("number", Keyword::Number);
}

#[test]
fn primitive_boolean_resolves_to_boolean() {
    primitive_case("boolean", Keyword::Boolean);
}

#[test]
fn primitive_json_resolves_to_any() {
    primitive_case("json", Keyword::Any);
}

#[test]
fn primitive_ref_resolves_to_any_for_models() {
    primitive_case("ref", Keyword::Any);
}

#[test]
fn ref_is_not_a_type_of_helper_inputs() {
    let o = robj(vec![rkv("type", rstr("ref"))]);
    assert_eq!(ts_type_from_attribute(&o, DescriptorKind::HelperInput), None);
    let d = read_descriptor(&o, DescriptorKind::HelperInput);
    assert_eq!(d.raw_type, None);
    assert_eq!(resolve_descriptor(&d, DescriptorKind::HelperInput), Resolution::Dropped);
    let overwritten = robj(vec![rkv("type", rstr("string")), rkv("type", rstr("ref"))]);
    assert_eq!(
        read_descriptor(&overwritten, DescriptorKind::HelperInput).raw_type,
        Some("string".to_string())
    );
    assert_eq!(
        read_descriptor(&overwritten, DescriptorKind::ModelAttribute).raw_type,
        Some("ref".to_string())
    );
}

#[test]
fn allow_null_is_not_read_for_helper_inputs() {
    let o = robj(vec![rkv("type", rstr("string")), rkv("allowNull", Expr::Bool(true))]);
    assert_eq!(
        ts_type_from_attribute(&o, DescriptorKind::HelperInput),
        Some(AttributeTypeInfo {
            ts_type: with_null(TypeExpr::Keyword(Keyword::String)),
            required: false
        })
    );
    assert!(!read_descriptor(&o, DescriptorKind::HelperInput).allows_null);
    assert!(read_descriptor(&o, DescriptorKind::ModelAttribute).allows_null);
}

#[test]
fn override_takes_precedence_over_type() {
    let o = robj(vec![rkv("type", rstr("string")), rquoted("$SD-type-hint", rstr("number[]"))]);
    assert_eq!(
        ts_type_from_attribute(&o, DescriptorKind::ModelAttribute),
        Some(AttributeTypeInfo {
            ts_type: with_null(TypeExpr::Hint("number[]".to_string())),
            required: false
        })
    );
    assert_eq!(
        ts_type_from_attribute(&o, DescriptorKind::HelperInput),
        Some(AttributeTypeInfo {
            ts_type: with_null(TypeExpr::Hint("number[]".to_string())),
            required: false
        })
    );
    let reversed =
        robj(vec![rquoted("$SD-type-hint", rstr("number[]")), rkv("type", rstr("string"))]);
    assert_eq!(
        ts_type_from_attribute(&reversed, DescriptorKind::ModelAttribute),
        Some(AttributeTypeInfo {
            ts_type: with_null(TypeExpr::Hint("number[]".to_string())),
            required: false
        })
    );
}

#[test]
fn override_of_an_object_array_is_kept_as_written() {
    let hint = "{ color: string; label: string }[]";
    let o = robj(vec![
        rkv("type", rstr("json")),
        rkv("$SD-type-hint", rstr(hint)),
        rkv("allowNull", Expr::Bool(true)),
        rkv("required", Expr::Bool(true)),
    ]);
    assert_eq!(
        ts_type_from_attribute(&o, DescriptorKind::ModelAttribute),
        Some(AttributeTypeInfo { ts_type: TypeExpr::Hint(hint.to_string()), required: true })
    );
}

#[test]
fn required_flag_is_read() {
    let yes = robj(vec![rkv("type", rstr("number")), rkv("required", Expr::Bool(true))]);
    let no = robj(vec![rkv("type", rstr("number")), rkv("required", Expr::Bool(false))]);
    let absent = robj(vec![rkv("type", rstr("number"))]);
    let not_a_literal = robj(vec![rkv("type", rstr("number")), rkv("required", rstr("true"))]);
    let kind = DescriptorKind::ModelAttribute;
    assert!(ts_type_from_attribute(&yes, kind).unwrap().required);
    assert!(!ts_type_from_attribute(&no, kind).unwrap().required);
    assert!(!ts_type_from_attribute(&absent, kind).unwrap().required);
    assert!(!ts_type_from_attribute(&not_a_literal, kind).unwrap().required);
}

#[test]
fn override_alone_is_dropped() {
    let o = robj(vec![rkv("$SD-type-hint", rstr("number[]"))]);
    let d = read_descriptor(&o, DescriptorKind::ModelAttribute);
    assert_eq!(resolve_descriptor(&d, DescriptorKind::ModelAttribute), Resolution::Dropped);
    assert_eq!(ts_type_from_attribute(&o, DescriptorKind::ModelAttribute), None);
}

#[test]
fn unrecognized_type_is_dropped() {
    let o = robj(vec![rkv("type", rstr("date"))]);
    let d = read_descriptor(&o, DescriptorKind::ModelAttribute);
    assert_eq!(d.raw_type, None);
    assert_eq!(resolve_descriptor(&d, DescriptorKind::ModelAttribute), Resolution::Dropped);
    let by_hand = AttributeDescriptor {
        raw_type: Some("date".to_string()),
        override_expr: None,
        required: true,
        allows_null: true,
    };
    assert_eq!(resolve_descriptor(&by_hand, DescriptorKind::ModelAttribute), Resolution::Dropped);
    let with_hint = robj(vec![rkv("type", rstr("date")), rkv("$SD-type-hint", rstr("Date"))]);
    assert_eq!(ts_type_from_attribute(&with_hint, DescriptorKind::ModelAttribute), None);
}

#[test]
fn malformed_override_is_malformed_whatever_the_type() {
    for kind in [DescriptorKind::ModelAttribute, DescriptorKind::HelperInput] {
        let o = robj(vec![rkv("type", rstr("string")), rkv("$SD-type-hint", rstr("{ a: "))]);
        let d = read_descriptor(&o, kind);
        assert_eq!(resolve_descriptor(&d, kind), Resolution::Malformed);
        assert_eq!(ts_type_from_attribute(&o, kind), None);
        let alone = robj(vec![rkv("$SD-type-hint", rstr("{ a: "))]);
        let d = read_descriptor(&alone, kind);
        assert_eq!(resolve_descriptor(&d, kind), Resolution::Malformed);
    }
}

#[test]
fn empty_descriptor_is_blank_and_dropped() {
    let o = robj(vec![]);
    let d = read_descriptor(&o, DescriptorKind::ModelAttribute);
    assert_eq!(
        d,
        AttributeDescriptor {
            raw_type: None,
            override_expr: None,
            required: false,
            allows_null: false
        }
    );
    assert_eq!(resolve_descriptor(&d, DescriptorKind::ModelAttribute), Resolution::Dropped);
}

#[test]
fn last_literal_of_a_key_wins() {
    let o = robj(vec![
        rkv("type", rstr("string")),
        rkv("type", rstr("number")),
        rkv("type", rstr("date")),
        rkv("type", Expr::Bool(true)),
        rkv("required", Expr::Bool(true)),
        rkv("required", Expr::Bool(false)),
        rkv("required", Expr::Other),
        rkv("unknown", rstr("x")),
        Prop::Other,
    ]);
    let d = read_descriptor(&o, DescriptorKind::ModelAttribute);
    assert_eq!(d.raw_type, Some("number".to_string()));
    assert!(!d.required);
}

#[test]
fn string_keys_are_read_like_identifiers() {
    let o = robj(vec![
        Prop::KeyValue {
            key: PropName::Str("type".to_string()),
            span: Span { lo: 1, hi: 7 },
            value: rstr("boolean"),
        },
        Prop::KeyValue { key: PropName::Other, span: Span { lo: 9, hi: 10 }, value: rstr("x") },
    ]);
    let d = read_descriptor(&o, DescriptorKind::HelperInput);
    assert_eq!(d.raw_type, Some("boolean".to_string()));
    assert_eq!(d.override_expr, None);
}

#[test]
fn prop_name_text() {
    assert_eq!(get_prop_as_str(&PropName::Ident("a".to_string())), Some("a"));
    assert_eq!(get_prop_as_str(&PropName::Str("b c".to_string())), Some("b c"));
    assert_eq!(get_prop_as_str(&PropName::Other), None);
}

#[test]
fn type_hint_is_wrapped_into_an_assertion() {
    assert_eq!(type_assertion_source("number[]"), "0 as number[]");
    assert_eq!(type_assertion_source(""), "0 as ");
}

#[test]
fn type_hints_that_are_types() {
    for hint in ["number[]", "string", "{ color: string; label: string }[]", "Map<string, number>", "'a' | 'b'"] {
        assert_eq!(parse_type_hint(hint), Ok(TypeExpr::Hint(hint.to_string())), "{hint}");
    }
}

#[test]
fn type_hints_that_are_no_types() {
    for hint in ["", "{ a: ", "number[", "<", ")"] {
        assert_eq!(parse_type_hint(hint), Err(()), "{hint}");
    }
}

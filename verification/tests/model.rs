use sails_decl_core::decl::{
    InterfaceDecl, Keyword, Member, Origin, PropertyKey, TypeExpr,
};
use sails_decl_core::model::{attribute_property, collect_members, gen_decl, GenDeclarationsError};
use sails_decl_core::resolver::{AttributeTypeInfo, DescriptorKind};
use sails_decl_core::script::{Expr, ObjectLit, Prop, PropName, Script, Span, Stmt};
use sails_decl_core::util::{find_function_prop, find_module_exports, find_object_prop};
use sails_decl_core::{gen_decl_for_model, GenDeclForModelError};

fn mkv(key: &str, lo: u32, value: Expr) -> Prop {
    Prop::KeyValue {
        key: PropName::Ident(key.to_string()),
        span: Span { lo, hi: lo + key.len() as u32 },
        value,
    }
}

fn mstr(s: &str) -> Expr {
    Expr::Str(s.to_string())
}

fn mobj(props: Vec<Prop>) -> Expr {
    Expr::Object(ObjectLit { props })
}

fn massign(object: &str, property: &str, value: Expr) -> Stmt {
    Stmt::MemberAssign {
        object: Some(object.to_string()),
        property: Some(property.to_string()),
        value,
    }
}

fn mexports(props: Vec<Prop>) -> Script {
    Script { body: vec![Stmt::Other, massign("module", "exports", mobj(props))] }
}

fn mprop(name: &str, optional: bool, ty: TypeExpr, file: usize, lo: u32) -> Member {
    Member::Property {
        key: PropertyKey::Bare(name.to_string()),
        optional,
        readonly: false,
        ty,
        origin: Some(Origin { file, span: Span { lo, hi: lo + name.len() as u32 } }),
    }
}

fn mnull(t: TypeExpr) -> TypeExpr {
    TypeExpr::Union(vec![t, TypeExpr::Keyword(Keyword::Null)])
}

fn user_model() -> Script {
    mexports(vec![
        mkv("tableName", 10, mstr("users")),
        mkv(
            "attributes",
            30,
            mobj(vec![
                mkv(
                    "name",
                    50,
                    mobj(vec![mkv("type", 60, mstr("string")), mkv("required", 70, Expr::Bool(true))]),
                ),
                mkv("age", 90, mobj(vec![mkv("type", 100, mstr("number"))])),
                mkv(
                    "tags",
                    120,
                    mobj(vec![
                        mkv("type", 130, mstr("json")),
                        mkv("$SD-type-hint", 140, mstr("string[]")),
                        mkv("allowNull", 150, Expr::Bool(true)),
                    ]),
                ),
                mkv("note", 170, mobj(vec![mkv("$SD-type-hint", 180, mstr("string"))])),
                mkv("count", 200, mstr("not a descriptor")),
                Prop::Other,
                Prop::KeyValue {
                    key: PropName::Str("quoted".to_string()),
                    span: Span { lo: 220, hi: 228 },
                    value: mobj(vec![mkv("type", 230, mstr("string"))]),
                },
                mkv("blob", 250, mobj(vec![mkv("type", 260, mstr("ref"))])),
            ]),
        ),
    ])
}

#[test]
fn model_declaration() {
    let script = user_model();
    let decl = gen_decl(Some(&script), "User", 3).unwrap();
    assert_eq!(
        decl,
        InterfaceDecl {
            name: "User__ModelDecl".to_string(),
            type_params: vec![],
            members: vec![
                mprop("name", false, mnull(TypeExpr::Keyword(Keyword::String)), 3, 50),
                mprop("age", true, mnull(TypeExpr::Keyword(Keyword::Number)), 3, 90),
                mprop("tags", true, TypeExpr::Hint("string[]".to_string()), 3, 120),
                mprop("blob", true, mnull(TypeExpr::Keyword(Keyword::Any)), 3, 250),
            ],
            declare: true,
        }
    );
}

#[test]
fn model_points_into_its_own_file_only() {
    let script = user_model();
    for file in [0usize, 1, 7] {
        let decl = gen_decl(Some(&script), "User", file).unwrap();
        for m in &decl.members {
            match m {
                Member::Property { origin, .. } => assert_eq!(origin.unwrap().file, file),
                Member::Method { .. } => panic!("a model declares properties only"),
            }
        }
    }
}

#[test]
fn required_means_not_optional() {
    let origin = Origin { file: 0, span: Span { lo: 0, hi: 1 } };
    for required in [true, false] {
        let info = AttributeTypeInfo { ts_type: TypeExpr::Keyword(Keyword::Number), required };
        match attribute_property("n", info, origin) {
            Member::Property { optional, readonly, .. } => {
                assert_eq!(optional, !required);
                assert!(!readonly);
            }
            Member::Method { .. } => panic!("an attribute is a property"),
        }
    }
}

#[test]
fn attribute_with_a_name_that_is_no_identifier_is_quoted() {
    let script = mexports(vec![mkv(
        "attributes",
        0,
        mobj(vec![mkv("größe", 5, mobj(vec![mkv("type", 9, mstr("number"))]))]),
    )]);
    let decl = gen_decl(Some(&script), "M", 0).unwrap();
    assert_eq!(decl.members.len(), 1);
    match &decl.members[0] {
        Member::Property { key, .. } => assert_eq!(*key, PropertyKey::Quoted("größe".to_string())),
        Member::Method { .. } => panic!("an attribute is a property"),
    }
}

#[test]
fn unparsed_source_is_a_parse_error() {
    assert_eq!(gen_decl(None, "User", 0), Err(GenDeclarationsError::ParseError));
    assert_eq!(gen_decl_for_model(None, "User"), Err(GenDeclForModelError::ParseError));
}

#[test]
fn script_without_exports_is_no_module() {
    let empty = Script { body: vec![] };
    assert_eq!(gen_decl(Some(&empty), "User", 0), Err(GenDeclarationsError::IsNotCommonJsModule));
    let other = Script {
        body: vec![
            Stmt::Other,
            massign("module", "exports", mstr("x")),
            massign("exports", "x", mobj(vec![])),
            massign("module", "other", mobj(vec![])),
        ],
    };
    assert_eq!(gen_decl(Some(&other), "User", 0), Err(GenDeclarationsError::IsNotCommonJsModule));
    assert_eq!(gen_decl_for_model(Some(&other), "User"), Err(GenDeclForModelError::InvalidModel));
}

#[test]
fn model_without_attributes_is_invalid() {
    let none = mexports(vec![mkv("tableName", 0, mstr("users"))]);
    assert_eq!(gen_decl(Some(&none), "User", 0), Err(GenDeclarationsError::InvalidModel));
    assert_eq!(gen_decl_for_model(Some(&none), "User"), Err(GenDeclForModelError::InvalidModel));
    let not_an_object = mexports(vec![mkv("attributes", 0, mstr("none"))]);
    assert_eq!(gen_decl(Some(&not_an_object), "User", 0), Err(GenDeclarationsError::InvalidModel));
    let empty = mexports(vec![]);
    assert_eq!(gen_decl(Some(&empty), "User", 0), Err(GenDeclarationsError::InvalidModel));
}

#[test]
fn malformed_hint_aborts_the_model() {
    let script = mexports(vec![mkv(
        "attributes",
        0,
        mobj(vec![
            mkv("ok", 10, mobj(vec![mkv("type", 20, mstr("string"))])),
            mkv("bad", 30, mobj(vec![mkv("$SD-type-hint", 40, mstr("{ a: "))])),
            mkv("later", 50, mobj(vec![mkv("type", 60, mstr("number"))])),
        ]),
    )]);
    assert_eq!(gen_decl(Some(&script), "User", 0), Err(GenDeclarationsError::SDTypeHintParseError));
    assert_eq!(gen_decl_for_model(Some(&script), "User"), Err(GenDeclForModelError::InvalidModel));
}

#[test]
fn malformed_hint_only_drops_a_helper_input() {
    let entries = ObjectLit {
        props: vec![
            mkv("ok", 10, mobj(vec![mkv("type", 20, mstr("string"))])),
            mkv("bad", 30, mobj(vec![mkv("type", 35, mstr("string")), mkv("$SD-type-hint", 40, mstr("{ a: "))])),
            mkv("later", 50, mobj(vec![mkv("type", 60, mstr("number")), mkv("required", 70, Expr::Bool(true))])),
        ],
    };
    assert_eq!(collect_members(&entries, DescriptorKind::ModelAttribute, 0), None);
    assert_eq!(
        collect_members(&entries, DescriptorKind::HelperInput, 2),
        Some(vec![
            mprop("ok", true, mnull(TypeExpr::Keyword(Keyword::String)), 2, 10),
            mprop("later", false, mnull(TypeExpr::Keyword(Keyword::Number)), 2, 50),
        ])
    );
}

#[test]
fn model_with_no_attribute_that_resolves_is_empty() {
    let script = mexports(vec![mkv("attributes", 0, mobj(vec![]))]);
    assert_eq!(
        gen_decl_for_model(Some(&script), "Empty"),
        Ok(InterfaceDecl {
            name: "Empty__ModelDecl".to_string(),
            type_params: vec![],
            members: vec![],
            declare: true
        })
    );
}

#[test]
fn gen_decl_for_model_is_gen_decl_for_file_zero() {
    let script = user_model();
    assert_eq!(gen_decl_for_model(Some(&script), "User"), Ok(gen_decl(Some(&script), "User", 0).unwrap()));
}

#[test]
fn first_export_of_an_object_is_found() {
    let script = Script {
        body: vec![
            massign("module", "exports", Expr::Function),
            massign("module", "exports", mobj(vec![mkv("first", 0, Expr::Bool(true))])),
            massign("module", "exports", mobj(vec![mkv("second", 0, Expr::Bool(true))])),
        ],
    };
    let found = find_module_exports(&script).unwrap();
    assert_eq!(*found, ObjectLit { props: vec![mkv("first", 0, Expr::Bool(true))] });
}

#[test]
fn export_target_must_be_module_exports() {
    let targets = [
        Stmt::MemberAssign { object: None, property: Some("exports".to_string()), value: mobj(vec![]) },
        Stmt::MemberAssign { object: Some("module".to_string()), property: None, value: mobj(vec![]) },
        massign("Module", "exports", mobj(vec![])),
        massign("module", "export", mobj(vec![])),
        Stmt::Other,
    ];
    for t in targets {
        let script = Script { body: vec![t] };
        assert_eq!(find_module_exports(&script), None);
    }
}

#[test]
fn properties_are_found_by_name_and_shape() {
    let object = ObjectLit {
        props: vec![
            mkv("inputs", 1, mstr("not an object")),
            mkv("fn", 2, mobj(vec![])),
            Prop::Other,
            Prop::KeyValue {
                key: PropName::Str("inputs".to_string()),
                span: Span { lo: 3, hi: 11 },
                value: mobj(vec![mkv("a", 4, Expr::Bool(true))]),
            },
            mkv("inputs", 5, mobj(vec![])),
            mkv("fn", 6, Expr::Function),
            mkv("fn", 7, Expr::Function),
        ],
    };
    assert_eq!(
        find_object_prop(&object, "inputs"),
        Some(&ObjectLit { props: vec![mkv("a", 4, Expr::Bool(true))] })
    );
    assert_eq!(find_object_prop(&object, "fn"), Some(&ObjectLit { props: vec![] }));
    assert_eq!(find_object_prop(&object, "attributes"), None);
    assert_eq!(find_function_prop(&object, "fn"), Some(Span { lo: 6, hi: 8 }));
    assert_eq!(find_function_prop(&object, "inputs"), None);
}

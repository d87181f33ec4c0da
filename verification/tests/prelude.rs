use sails_decl_core::decl::{
    clone_member, clone_members, clone_params, clone_type, clone_types, Declaration, InterfaceDecl,
    Keyword, Member, Param, PropertyKey, TypeExpr,
};
use sails_decl_core::literal_declarations::{
    get_global_declarations, get_global_model_accessors, get_global_namespace_declarations,
    get_helper_object_interface, get_model_accessor_interface, get_sails_object,
    get_sails_object_models_interface, import_named, SailsModelInfo,
};

fn named(name: &str) -> TypeExpr {
    TypeExpr::Reference { name: name.to_string(), args: vec![] }
}

fn applied(name: &str, arg: TypeExpr) -> TypeExpr {
    TypeExpr::Reference { name: name.to_string(), args: vec![arg] }
}

fn fixed(name: &str, ty: TypeExpr) -> Member {
    Member::Property {
        key: PropertyKey::Bare(name.to_string()),
        optional: false,
        readonly: false,
        ty,
        origin: None,
    }
}

fn method(name: &str, param: &str, param_ty: TypeExpr, result: TypeExpr) -> Member {
    Member::Method {
        name: name.to_string(),
        params: vec![Param { name: param.to_string(), ty: param_ty }],
        result,
    }
}

fn model(name: &str, declared_type: &str) -> SailsModelInfo {
    SailsModelInfo { name: name.to_string(), declared_type: declared_type.to_string() }
}

#[test]
fn helper_object_interface() {
    assert_eq!(
        get_helper_object_interface(),
        InterfaceDecl {
            name: "SailsJsHelper".to_string(),
            type_params: vec!["T".to_string(), "R".to_string()],
            members: vec![method("with", "input", named("T"), applied("Promise", named("R")))],
            declare: true,
        }
    );
}

#[test]
fn model_accessor_interface() {
    let any = TypeExpr::Keyword(Keyword::Any);
    assert_eq!(
        get_model_accessor_interface(),
        InterfaceDecl {
            name: "ModelAccessor".to_string(),
            type_params: vec!["T".to_string()],
            members: vec![
                method(
                    "find",
                    "criteria",
                    TypeExpr::Keyword(Keyword::Any),
                    applied("Promise", TypeExpr::Array(Box::new(named("T")))),
                ),
                method(
                    "findOne",
                    "criteria",
                    TypeExpr::Keyword(Keyword::Any),
                    applied(
                        "Promise",
                        TypeExpr::Union(vec![named("T"), TypeExpr::Keyword(Keyword::Undefined)]),
                    ),
                ),
                method("create", "data", any, applied("Promise", named("T"))),
            ],
            declare: true,
        }
    );
}

#[test]
fn sails_object_with_and_without_models() {
    assert_eq!(
        get_sails_object(true),
        Declaration::ExportInterface(InterfaceDecl {
            name: "SailsObject".to_string(),
            type_params: vec![],
            members: vec![
                fixed("helpers", named("HelpersObject")),
                fixed("models", named("SailsObjectModels")),
            ],
            declare: true,
        })
    );
    assert_eq!(
        get_sails_object(false),
        Declaration::ExportInterface(InterfaceDecl {
            name: "SailsObject".to_string(),
            type_params: vec![],
            members: vec![fixed("helpers", named("HelpersObject"))],
            declare: true,
        })
    );
}

#[test]
fn sails_object_models_interface() {
    let models = vec![model("User", "User__ModelDecl"), model("old-user", "OldUser__ModelDecl")];
    assert_eq!(
        get_sails_object_models_interface(&models),
        InterfaceDecl {
            name: "SailsObjectModels".to_string(),
            type_params: vec![],
            members: vec![
                fixed("User", applied("ModelAccessor", named("User__ModelDecl"))),
                Member::Property {
                    key: PropertyKey::Quoted("old-user".to_string()),
                    optional: false,
                    readonly: false,
                    ty: applied("ModelAccessor", named("OldUser__ModelDecl")),
                    origin: None,
                },
            ],
            declare: true,
        }
    );
    assert_eq!(get_sails_object_models_interface(&vec![]).members, vec![]);
}

#[test]
fn global_model_accessors_skip_names_that_are_no_identifiers() {
    let models = vec![
        model("User", "User__ModelDecl"),
        model("old-user", "OldUser__ModelDecl"),
        model("", "Empty"),
        model("$log", "Log__ModelDecl"),
    ];
    assert_eq!(
        get_global_model_accessors(&models),
        Declaration::Global {
            body: vec![
                Declaration::Var {
                    name: "User".to_string(),
                    ty: applied("ModelAccessor", named("User__ModelDecl")),
                    exported: false,
                },
                Declaration::Var {
                    name: "$log".to_string(),
                    ty: applied("ModelAccessor", named("Log__ModelDecl")),
                    exported: false,
                },
            ],
        }
    );
    assert_eq!(get_global_model_accessors(&vec![]), Declaration::Global { body: vec![] });
}

#[test]
fn global_namespace_declarations() {
    assert_eq!(
        get_global_namespace_declarations(),
        Declaration::Global {
            body: vec![Declaration::Namespace {
                name: "NodeJS".to_string(),
                body: vec![Declaration::Interface(InterfaceDecl {
                    name: "Global".to_string(),
                    type_params: vec![],
                    members: vec![fixed("sails", named("SailsObject"))],
                    declare: false,
                })],
            }],
        }
    );
}

#[test]
fn global_declarations() {
    assert_eq!(
        get_global_declarations(),
        Declaration::Global {
            body: vec![Declaration::Var {
                name: "sails".to_string(),
                ty: named("SailsObject"),
                exported: true,
            }],
        }
    );
}

#[test]
fn import_of_named_items() {
    assert_eq!(
        import_named("sails", vec!["Sails", "Model"], true),
        Declaration::Import {
            module: "sails".to_string(),
            names: vec!["Sails".to_string(), "Model".to_string()],
            type_only: true,
        }
    );
    assert_eq!(
        import_named("./x", vec![], false),
        Declaration::Import { module: "./x".to_string(), names: vec![], type_only: false }
    );
}

#[test]
fn copies_are_equal() {
    let interface = get_model_accessor_interface();
    assert_eq!(clone_members(&interface.members), interface.members);
    for m in &interface.members {
        assert_eq!(clone_member(m), *m);
        if let Member::Method { params, result, .. } = m {
            assert_eq!(clone_params(params), *params);
            assert_eq!(clone_type(result), *result);
        }
    }
    let types = vec![
        TypeExpr::Hint("a | b".to_string()),
        TypeExpr::Object(clone_members(&interface.members)),
        TypeExpr::Array(Box::new(TypeExpr::Keyword(Keyword::Null))),
    ];
    assert_eq!(clone_types(&types), types);
}

use sails_decl_core::decl::{
    Declaration, Keyword, Member, Origin, PropertyKey, TypeAliasDecl, TypeExpr,
};
use sails_decl_core::emit::{gen_helpers_module, with_map_reference};
use sails_decl_core::helpers::{
    gen_decl_from_node, gen_decl_from_nodes, gen_decl_from_tree, gen_helpers_object_decl,
    get_helper_info, GenHelperDeclError, SailsDeclHelperDirectory, SailsDeclHelperTree,
    SailsDeclHelperTreeNode, SailsHelperInfo,
};
use sails_decl_core::literal_declarations::{
    get_global_declarations, get_global_namespace_declarations, get_helper_object_interface,
    get_sails_object,
};
use sails_decl_core::script::{Expr, ObjectLit, Prop, PropName, Script, Span, Stmt};
use sails_decl_core::tree::{build_tree, insert_node, is_under, name_of, HelperSource};

fn hkv(key: &str, lo: u32, value: Expr) -> Prop {
    Prop::KeyValue {
        key: PropName::Ident(key.to_string()),
        span: Span { lo, hi: lo + key.len() as u32 },
        value,
    }
}

fn hobj(props: Vec<Prop>) -> Expr {
    Expr::Object(ObjectLit { props })
}

fn hexports(props: Vec<Prop>) -> Script {
    Script {
        body: vec![Stmt::MemberAssign {
            object: Some("module".to_string()),
            property: Some("exports".to_string()),
            value: hobj(props),
        }],
    }
}

fn helper_script() -> Script {
    hexports(vec![hkv("friendlyName", 2, Expr::Str("x".to_string())), hkv("fn", 40, Expr::Function)])
}

fn not_a_helper_script() -> Script {
    hexports(vec![hkv("friendlyName", 2, Expr::Str("x".to_string()))])
}

fn path(p: &str) -> Vec<String> {
    p.split('/').map(|s| s.to_string()).collect()
}

fn source(p: &str, script: Option<Script>) -> HelperSource {
    HelperSource { path: path(p), script }
}

fn leaf(file: usize, name: &str) -> SailsDeclHelperTreeNode {
    SailsDeclHelperTreeNode::Helper(SailsHelperInfo {
        file,
        name: name.to_string(),
        return_type: None,
        input_type: None,
        origin: Span { lo: 40, hi: 42 },
    })
}

fn dir(name: &str, children: Vec<SailsDeclHelperTreeNode>) -> SailsDeclHelperTreeNode {
    SailsDeclHelperTreeNode::Directory(SailsDeclHelperDirectory { name: name.to_string(), children })
}

fn any() -> TypeExpr {
    TypeExpr::Keyword(Keyword::Any)
}

fn helper_property(name: &str, file: usize, input: TypeExpr) -> Member {
    Member::Property {
        key: PropertyKey::Bare(name.to_string()),
        optional: false,
        readonly: true,
        ty: TypeExpr::Reference { name: "SailsJsHelper".to_string(), args: vec![input, any()] },
        origin: Some(Origin { file, span: Span { lo: 40, hi: 42 } }),
    }
}

fn directory_property(name: &str, members: Vec<Member>) -> Member {
    Member::Property {
        key: PropertyKey::Bare(name.to_string()),
        optional: false,
        readonly: true,
        ty: TypeExpr::Object(members),
        origin: None,
    }
}

#[test]
fn tree_of_nested_paths() {
    let helpers = vec![
        source("api/helpers/a/b.js", Some(helper_script())),
        source("api/helpers/a/c/d.js", Some(helper_script())),
        source("api/helpers/e.js", Some(helper_script())),
    ];
    let tree = build_tree(&helpers, &path("api/helpers"));
    assert_eq!(
        tree,
        vec![dir("a", vec![leaf(0, "b"), dir("c", vec![leaf(1, "d")])]), leaf(2, "e")]
    );
}

#[test]
fn tree_is_in_the_order_of_the_names_whatever_the_order_of_the_paths() {
    let expected = vec![
        dir("a", vec![leaf(0, "b"), dir("c", vec![leaf(0, "d")])]),
        leaf(0, "e"),
        leaf(0, "sendEmail"),
        dir("userData", vec![leaf(0, "get")]),
    ];
    let paths = ["r/user-data/get.js", "r/send-email.js", "r/e.js", "r/a/c/d.js", "r/a/b.js"];
    let orders: [[usize; 5]; 4] = [[0, 1, 2, 3, 4], [4, 3, 2, 1, 0], [2, 0, 4, 1, 3], [3, 1, 4, 0, 2]];
    for order in orders {
        let helpers: Vec<HelperSource> =
            order.iter().map(|i| source(paths[*i], Some(helper_script()))).collect();
        let mut tree = build_tree(&helpers, &path("r"));
        forget_files(&mut tree);
        assert_eq!(tree, expected, "{order:?}");
    }
}

fn forget_files(nodes: &mut Vec<SailsDeclHelperTreeNode>) {
    for n in nodes.iter_mut() {
        match n {
            SailsDeclHelperTreeNode::Helper(info) => info.file = 0,
            SailsDeclHelperTreeNode::Directory(d) => forget_files(&mut d.children),
        }
    }
}

#[test]
fn file_without_fn_yields_no_leaf() {
    let helpers = vec![
        source("h/a.js", Some(helper_script())),
        source("h/b.js", Some(not_a_helper_script())),
        source("h/c.js", None),
        source("h/d.js", Some(Script { body: vec![] })),
        source("h/z.js", Some(helper_script())),
    ];
    let tree = SailsDeclHelperTree::new(&helpers, &path("h"));
    assert_eq!(*tree.get_root(), vec![leaf(0, "a"), leaf(4, "z")]);
    let files: Vec<usize> = tree.get_all_helpers().iter().map(|h| h.file).collect();
    assert_eq!(files, vec![0, 4]);
    let alias = gen_helpers_object_decl(&tree);
    assert_eq!(
        alias,
        TypeAliasDecl {
            name: "HelpersObject".to_string(),
            ty: TypeExpr::Object(vec![helper_property("a", 0, any()), helper_property("z", 4, any())]),
        }
    );
}

#[test]
fn directory_without_helpers_is_omitted() {
    let helpers = vec![
        source("h/empty/b.js", Some(not_a_helper_script())),
        source("h/empty/deep/c.js", None),
        source("h/full/d.js", Some(helper_script())),
    ];
    assert_eq!(build_tree(&helpers, &path("h")), vec![dir("full", vec![leaf(2, "d")])]);
}

#[test]
fn paths_outside_the_folder_are_left_out() {
    let helpers = vec![
        source("other/a.js", Some(helper_script())),
        source("h", Some(helper_script())),
        source("h/b.js", Some(helper_script())),
        source("hh/c.js", Some(helper_script())),
        source("x/h/d.js", Some(helper_script())),
    ];
    assert_eq!(build_tree(&helpers, &path("h")), vec![leaf(2, "b")]);
    assert!(is_under(&path("h/b.js"), &path("h")));
    assert!(is_under(&path("h"), &path("h")));
    assert!(!is_under(&path("hh/b.js"), &path("h")));
    assert!(!is_under(&path("h"), &path("h/b.js")));
    assert!(is_under(&path("a/b"), &vec![]));
}

#[test]
fn empty_inputs_give_an_empty_tree() {
    assert_eq!(build_tree(&vec![], &path("h")), vec![]);
    let tree = SailsDeclHelperTree::new(&vec![], &vec![]);
    assert!(tree.get_all_helpers().is_empty());
    assert_eq!(gen_decl_from_tree(&tree), TypeExpr::Object(vec![]));
}

#[test]
fn file_needs_the_js_extension() {
    let helpers = vec![
        source("h/a.ts", Some(helper_script())),
        source("h/.js", Some(helper_script())),
        source("h/b", Some(helper_script())),
        source("h/c.js", Some(helper_script())),
    ];
    assert_eq!(build_tree(&helpers, &path("h")), vec![leaf(3, "c")]);
}

#[test]
fn a_file_with_the_extension_hides_the_directory_of_its_name() {
    let helpers = vec![
        source("h/x.js/y.js", Some(helper_script())),
        source("h/x.js", Some(helper_script())),
        source("h/n.js/y.js", Some(helper_script())),
        source("h/n.js", Some(not_a_helper_script())),
    ];
    assert_eq!(build_tree(&helpers, &path("h")), vec![leaf(1, "x")]);
}

#[test]
fn a_file_without_the_extension_leaves_the_directory_of_its_name() {
    let helpers = vec![
        source("h/a/b.js", Some(helper_script())),
        source("h/a", Some(helper_script())),
    ];
    assert_eq!(build_tree(&helpers, &path("h")), vec![dir("a", vec![leaf(0, "b")])]);
}

#[test]
fn the_first_of_equal_paths_is_read() {
    let helpers = vec![
        source("h/a.js", Some(not_a_helper_script())),
        source("h/a.js", Some(helper_script())),
        source("h/b.js", Some(helper_script())),
        source("h/b.js", None),
    ];
    assert_eq!(build_tree(&helpers, &path("h")), vec![leaf(2, "b")]);
}

#[test]
fn nodes_of_equal_names_keep_the_order_of_their_paths() {
    let helpers = vec![
        source("h/a-b.js", Some(helper_script())),
        source("h/aB.js", Some(helper_script())),
        source("h/a-b/c.js", Some(helper_script())),
    ];
    assert_eq!(
        build_tree(&helpers, &path("h")),
        vec![leaf(0, "aB"), leaf(1, "aB"), dir("aB", vec![leaf(2, "c")])]
    );
}

#[test]
fn all_helpers_in_tree_order() {
    let helpers = vec![
        source("h/z.js", Some(helper_script())),
        source("h/m/b.js", Some(helper_script())),
        source("h/m/a/x.js", Some(helper_script())),
        source("h/a.js", Some(helper_script())),
    ];
    let tree = SailsDeclHelperTree::new(&helpers, &path("h"));
    let names: Vec<(usize, &str)> =
        tree.get_all_helpers().iter().map(|h| (h.file, h.name.as_str())).collect();
    assert_eq!(names, vec![(3, "a"), (2, "x"), (1, "b"), (0, "z")]);
}

#[test]
fn insert_keeps_the_order_of_names() {
    let mut nodes = vec![];
    for (i, name) in ["m", "a", "z", "m", "b"].iter().enumerate() {
        insert_node(&mut nodes, leaf(i, name));
    }
    let order: Vec<(usize, &str)> = nodes
        .iter()
        .map(|n| match n {
            SailsDeclHelperTreeNode::Helper(h) => (h.file, name_of(n)),
            SailsDeclHelperTreeNode::Directory(_) => panic!("only helpers were put in"),
        })
        .collect();
    assert_eq!(order, vec![(1, "a"), (4, "b"), (0, "m"), (3, "m"), (2, "z")]);
    assert_eq!(name_of(&dir("d", vec![])), "d");
}

#[test]
fn helper_info_of_a_helper_without_inputs() {
    let script = helper_script();
    assert_eq!(
        get_helper_info(Some(&script), "send-email.js", 5),
        Ok(SailsHelperInfo {
            file: 5,
            name: "sendEmail".to_string(),
            return_type: None,
            input_type: None,
            origin: Span { lo: 40, hi: 42 },
        })
    );
}

#[test]
fn helper_info_errors() {
    assert_eq!(get_helper_info(None, "a.js", 0), Err(GenHelperDeclError::ParseError));
    let no_exports = Script { body: vec![Stmt::Other] };
    assert_eq!(
        get_helper_info(Some(&no_exports), "a.js", 0),
        Err(GenHelperDeclError::CommonJsModuleDoesNotExportObject)
    );
    assert_eq!(
        get_helper_info(Some(&not_a_helper_script()), "a.js", 0),
        Err(GenHelperDeclError::IsNotHelper)
    );
    let fn_is_no_function = hexports(vec![hkv("fn", 0, Expr::Other), hkv("inputs", 9, hobj(vec![]))]);
    assert_eq!(
        get_helper_info(Some(&fn_is_no_function), "a.js", 0),
        Err(GenHelperDeclError::IsNotHelper)
    );
}

#[test]
fn helper_inputs() {
    let script = hexports(vec![
        hkv(
            "inputs",
            10,
            hobj(vec![
                hkv(
                    "to",
                    20,
                    hobj(vec![
                        hkv("type", 25, Expr::Str("string".to_string())),
                        hkv("required", 35, Expr::Bool(true)),
                    ]),
                ),
                hkv("broken", 50, hobj(vec![
                    hkv("type", 55, Expr::Str("string".to_string())),
                    hkv("$SD-type-hint", 60, Expr::Str("{ a: ".to_string())),
                ])),
                hkv("anything", 70, hobj(vec![hkv("type", 75, Expr::Str("ref".to_string()))])),
                hkv("hinted", 80, hobj(vec![hkv("$SD-type-hint", 85, Expr::Str("number[]".to_string()))])),
                hkv(
                    "items",
                    90,
                    hobj(vec![
                        hkv("type", 95, Expr::Str("json".to_string())),
                        hkv("$SD-type-hint", 100, Expr::Str("number[]".to_string())),
                        hkv("allowNull", 110, Expr::Bool(true)),
                    ]),
                ),
            ]),
        ),
        hkv("fn", 200, Expr::Function),
    ]);
    let null = TypeExpr::Keyword(Keyword::Null);
    let expected_inputs = TypeExpr::Object(vec![
        Member::Property {
            key: PropertyKey::Bare("to".to_string()),
            optional: false,
            readonly: false,
            ty: TypeExpr::Union(vec![TypeExpr::Keyword(Keyword::String), null]),
            origin: Some(Origin { file: 1, span: Span { lo: 20, hi: 22 } }),
        },
        Member::Property {
            key: PropertyKey::Bare("items".to_string()),
            optional: true,
            readonly: false,
            ty: TypeExpr::Union(vec![
                TypeExpr::Hint("number[]".to_string()),
                TypeExpr::Keyword(Keyword::Null),
            ]),
            origin: Some(Origin { file: 1, span: Span { lo: 90, hi: 95 } }),
        },
    ]);
    let info = get_helper_info(Some(&script), "mail.js", 1).unwrap();
    assert_eq!(info.input_type, Some(expected_inputs));
    assert_eq!(info.origin, Span { lo: 200, hi: 202 });
    assert_eq!(info.return_type, None);
    assert_eq!(info.name, "mail");
}

#[test]
fn declaration_from_nodes() {
    let inputs = TypeExpr::Object(vec![]);
    let with_inputs = SailsDeclHelperTreeNode::Helper(SailsHelperInfo {
        file: 3,
        name: "send-now".to_string(),
        return_type: Some(TypeExpr::Keyword(Keyword::Number)),
        input_type: Some(TypeExpr::Object(vec![])),
        origin: Span { lo: 1, hi: 3 },
    });
    assert_eq!(
        gen_decl_from_node(&with_inputs),
        Member::Property {
            key: PropertyKey::Quoted("send-now".to_string()),
            optional: false,
            readonly: true,
            ty: TypeExpr::Reference {
                name: "SailsJsHelper".to_string(),
                args: vec![inputs, TypeExpr::Keyword(Keyword::Number)],
            },
            origin: Some(Origin { file: 3, span: Span { lo: 1, hi: 3 } }),
        }
    );
    let nodes = vec![dir("a", vec![leaf(0, "b"), dir("c", vec![leaf(1, "d")])]), leaf(2, "e")];
    let expected = vec![
        directory_property(
            "a",
            vec![
                helper_property("b", 0, any()),
                directory_property("c", vec![helper_property("d", 1, any())]),
            ],
        ),
        helper_property("e", 2, any()),
    ];
    assert_eq!(gen_decl_from_nodes(&nodes), expected);
    let tree = SailsDeclHelperTree { root: nodes };
    assert_eq!(gen_decl_from_tree(&tree), TypeExpr::Object(expected));
}

#[test]
fn helpers_document_in_fixed_order() {
    let helpers = vec![
        source("h/b.js", Some(helper_script())),
        source("h/skip.js", Some(not_a_helper_script())),
        source("h/a/c.js", Some(helper_script())),
    ];
    for with_models in [true, false] {
        let document = gen_helpers_module(&helpers, &path("h"), with_models);
        let tree = SailsDeclHelperTree::new(&helpers, &path("h"));
        assert_eq!(
            document,
            vec![
                Declaration::Interface(get_helper_object_interface()),
                Declaration::TypeAlias(gen_helpers_object_decl(&tree)),
                get_sails_object(with_models),
                get_global_namespace_declarations(),
                get_global_declarations(),
            ]
        );
        assert_eq!(
            document[1],
            Declaration::TypeAlias(TypeAliasDecl {
                name: "HelpersObject".to_string(),
                ty: TypeExpr::Object(vec![
                    directory_property("a", vec![helper_property("c", 2, any())]),
                    helper_property("b", 0, any()),
                ]),
            })
        );
    }
}

fn files_of_type(t: &TypeExpr, out: &mut Vec<usize>) {
    match t {
        TypeExpr::Keyword(_) | TypeExpr::Hint(_) => {}
        TypeExpr::Union(ts) => ts.iter().for_each(|t| files_of_type(t, out)),
        TypeExpr::Object(ms) => ms.iter().for_each(|m| files_of_member(m, out)),
        TypeExpr::Reference { args, .. } => args.iter().for_each(|t| files_of_type(t, out)),
        TypeExpr::Array(b) => files_of_type(b, out),
    }
}

fn files_of_member(m: &Member, out: &mut Vec<usize>) {
    match m {
        Member::Property { ty, origin, .. } => {
            if let Some(o) = origin {
                out.push(o.file);
            }
            files_of_type(ty, out);
        }
        Member::Method { params, result, .. } => {
            params.iter().for_each(|p| files_of_type(&p.ty, out));
            files_of_type(result, out);
        }
    }
}

fn files_of_declaration(d: &Declaration, out: &mut Vec<usize>) {
    match d {
        Declaration::Import { .. } => {}
        Declaration::Interface(i) | Declaration::ExportInterface(i) => {
            i.members.iter().for_each(|m| files_of_member(m, out))
        }
        Declaration::TypeAlias(a) => files_of_type(&a.ty, out),
        Declaration::Var { ty, .. } => files_of_type(ty, out),
        Declaration::Namespace { body, .. } | Declaration::Global { body } => {
            body.iter().for_each(|d| files_of_declaration(d, out))
        }
    }
}

#[test]
fn helpers_document_points_into_every_helper_and_no_other_file() {
    let with_inputs = hexports(vec![
        hkv("inputs", 10, hobj(vec![hkv("to", 20, hobj(vec![hkv("type", 25, Expr::Str("string".to_string()))]))])),
        hkv("fn", 40, Expr::Function),
    ]);
    let helpers = vec![
        source("h/b.js", Some(with_inputs)),
        source("h/skip.js", Some(not_a_helper_script())),
        source("h/a/c.js", Some(helper_script())),
        source("h/broken.js", None),
        source("elsewhere/d.js", Some(helper_script())),
        source("h/a/z/e.js", Some(helper_script())),
    ];
    let document = gen_helpers_module(&helpers, &path("h"), true);
    let mut files = vec![];
    document.iter().for_each(|d| files_of_declaration(d, &mut files));
    files.sort();
    files.dedup();
    assert_eq!(files, vec![0, 2, 5]);
    let tree = SailsDeclHelperTree::new(&helpers, &path("h"));
    let mut leaves: Vec<usize> = tree.get_all_helpers().iter().map(|h| h.file).collect();
    leaves.sort();
    assert_eq!(leaves, vec![0, 2, 5]);
    let mut prelude = vec![];
    for d in [&document[0], &document[2], &document[3], &document[4]] {
        files_of_declaration(d, &mut prelude);
    }
    assert!(prelude.is_empty());
}

#[test]
fn map_reference_ends_the_text() {
    let emitted = with_map_reference("declare type A = any;\n".to_string(), "{}".to_string(), "global.d.ts");
    assert_eq!(emitted.code, "declare type A = any;\n\n//# sourceMappingURL=global.d.ts.map");
    assert_eq!(emitted.source_map, "{}");
    let empty = with_map_reference(String::new(), String::new(), "");
    assert_eq!(empty.code, "\n//# sourceMappingURL=.map");
    assert_eq!(empty.source_map, "");
}

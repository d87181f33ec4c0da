//! The export locator, the type-hint parser, and the pair of printed text and
//! position map.

use vstd::prelude::*;
use swc_common::sync::Lrc;
use swc_common::{FileName, SourceMap};
use swc_ecma_parser::{lexer::Lexer, Parser, StringInput, Syntax};
use crate::decl::{TypeExpr, TypeExprView};
use crate::script::{
    Expr, ExprView, ObjectLit, Prop, PropName, PropNameView, PropView, Script, Span, Stmt, StmtView,
};
use crate::text::{joined, text_eq};

verus! {

/// The text of a property key, where it has one.
pub open spec fn prop_name_text(p: PropNameView) -> Option<Seq<char>> {
    match p {
        PropNameView::Ident(s) => Some(s),
        PropNameView::Str(s) => Some(s),
        PropNameView::Other => None,
    }
}

/// The text of a property key: that of an identifier or of a string literal,
/// and `None` for any other key.
pub fn get_prop_as_str(prop: &PropName) -> (r: Option<&str>)
    ensures
        match r {
            Some(s) => prop_name_text(prop@) == Some(s@),
            None => prop_name_text(prop@) is None,
        },
{
    match prop {
        PropName::Ident(s) => Some(s.as_str()),
        PropName::Str(s) => Some(s.as_str()),
        PropName::Other => None,
    }
}

/// Whether a statement is `module.exports = { ... }`.
pub open spec fn is_exports_object(s: StmtView) -> bool {
    s matches StmtView::MemberAssign { object: Some(o), property: Some(p), value }
        && o == "module"@ && p == "exports"@ && value is Object
}

/// The object literal of the first statement of `script` that is
/// `module.exports = { ... }`.
pub open spec fn module_exports(script: Seq<StmtView>) -> Option<Seq<PropView>>
    decreases script.len(),
{
    if script.len() == 0 {
        None
    } else if is_exports_object(script[0]) {
        Some(script[0]->value->Object_0)
    } else {
        module_exports(script.drop_first())
    }
}

/// Finds the object that a script exports.
///
/// The statements are scanned in order for an assignment whose target is the
/// member `exports` of the identifier `module`. The first one whose right-hand
/// side is an object literal gives the result; one with another right-hand
/// side is passed over.
pub fn find_module_exports(module: &Script) -> (r: Option<&ObjectLit>)
    ensures
        match r {
            Some(o) => module_exports(module@) == Some(o@),
            None => module_exports(module@) is None,
        },
{
    let n = module.body.len();
    let mut i: usize = 0;
    assert(module@.skip(0) =~= module@);
    while i < n
        invariant
            n == module.body@.len(),
            i <= n,
            module_exports(module@) == module_exports(module@.skip(i as int)),
        decreases n - i,
    {
        proof {
            assert(module@.skip(i as int).drop_first() =~= module@.skip(i + 1));
            assert(module@.skip(i as int)[0] == module.body@[i as int]@);
        }
        match &module.body[i] {
            Stmt::MemberAssign { object: Some(o), property: Some(p), value: Expr::Object(obj) } => {
                if text_eq(o.as_str(), "module") && text_eq(p.as_str(), "exports") {
                    proof {
                        crate::script::lemma_object_view(*obj);
                    }
                    return Some(obj);
                }
            },
            _ => {},
        }
        i += 1;
    }
    None
}

/// The first property of `props` that is `name: value` with `value` of the
/// wanted shape, as an index; `props.len()` where there is none.
pub open spec fn find_prop(props: Seq<PropView>, name: Seq<char>, wanted: spec_fn(ExprView) -> bool) -> int
    decreases props.len(),
{
    if props.len() == 0 {
        0
    } else if is_named(props[0], name) && wanted(props[0]->value) {
        0
    } else {
        1 + find_prop(props.drop_first(), name, wanted)
    }
}

/// Whether `p` is a key-value property whose key reads `name`.
pub open spec fn is_named(p: PropView, name: Seq<char>) -> bool {
    p matches PropView::KeyValue { key, .. } && prop_name_text(key) == Some(name)
}

/// The object held by the first property `name: { ... }` of `props`.
pub open spec fn object_prop(props: Seq<PropView>, name: Seq<char>) -> Option<Seq<PropView>> {
    let i = find_prop(props, name, |e: ExprView| e is Object);
    if 0 <= i < props.len() {
        Some(props[i]->value->Object_0)
    } else {
        None
    }
}

/// The place of the key of the first property `name: function ...` of `props`.
pub open spec fn function_prop(props: Seq<PropView>, name: Seq<char>) -> Option<Span> {
    let i = find_prop(props, name, |e: ExprView| e is Function);
    if 0 <= i < props.len() {
        Some(props[i]->span)
    } else {
        None
    }
}

/// The object of the first property of `object` that is named `name` and
/// holds an object literal. A property of that name with another value is
/// passed over.
pub fn find_object_prop<'a>(object: &'a ObjectLit, name: &str) -> (r: Option<&'a ObjectLit>)
    ensures
        match r {
            Some(o) => object_prop(object@, name@) == Some(o@),
            None => object_prop(object@, name@) is None,
        },
{
    let ghost wanted = |e: ExprView| e is Object;
    let n = object.props.len();
    let mut i: usize = 0;
    assert(object@.skip(0) =~= object@);
    while i < n
        invariant
            n == object.props@.len(),
            i <= n,
            wanted == (|e: ExprView| e is Object),
            find_prop(object@, name@, wanted) == i + find_prop(object@.skip(i as int), name@, wanted),
        decreases n - i,
    {
        proof {
            assert(object@.skip(i as int).drop_first() =~= object@.skip(i + 1));
            assert(object@.skip(i as int)[0] == object.props@[i as int]@);
        }
        match &object.props[i] {
            Prop::KeyValue { key, span: _, value: Expr::Object(obj) } => {
                let hit = match get_prop_as_str(key) {
                    Some(k) => text_eq(k, name),
                    None => false,
                };
                if hit {
                    proof {
                        crate::script::lemma_object_view(*obj);
                        assert(object@[i as int] == object.props@[i as int]@);
                    }
                    return Some(obj);
                }
            },
            _ => {},
        }
        i += 1;
    }
    None
}

/// The place of the key of the first property of `object` that is named
/// `name` and holds a function expression.
pub fn find_function_prop(object: &ObjectLit, name: &str) -> (r: Option<Span>)
    ensures
        r == function_prop(object@, name@),
{
    let ghost wanted = |e: ExprView| e is Function;
    let n = object.props.len();
    let mut i: usize = 0;
    assert(object@.skip(0) =~= object@);
    while i < n
        invariant
            n == object.props@.len(),
            i <= n,
            wanted == (|e: ExprView| e is Function),
            find_prop(object@, name@, wanted) == i + find_prop(object@.skip(i as int), name@, wanted),
        decreases n - i,
    {
        proof {
            assert(object@.skip(i as int).drop_first() =~= object@.skip(i + 1));
            assert(object@.skip(i as int)[0] == object.props@[i as int]@);
        }
        match &object.props[i] {
            Prop::KeyValue { key, span, value: Expr::Function } => {
                let hit = match get_prop_as_str(key) {
                    Some(k) => text_eq(k, name),
                    None => false,
                };
                if hit {
                    proof {
                        assert(object@[i as int] == object.props@[i as int]@);
                    }
                    return Some(*span);
                }
            },
            _ => {},
        }
        i += 1;
    }
    None
}

/// Whether the ECMAScript parser, reading `source` as TypeScript, finds at its
/// start an expression of the form `value as Type`.
pub uninterp spec fn parses_as_type_assertion(source: Seq<char>) -> bool;

/// The longest source text, in characters, that is handed to the parser.
/// Positions in a source are 32-bit byte offsets, and a character takes at
/// most four bytes.
pub const MAX_SOURCE_CHARS: usize = 0x1fff_ffff;

/// Parses `source` as one TypeScript expression and tells whether it is a type
/// assertion.
///
/// Trusted: wraps `Parser::parse_expr` of `swc_ecma_parser`, on a fresh source
/// map. The result is what that parser decides on this text, and depends on
/// nothing else.
#[verifier::external_body]
fn is_type_assertion(source: &str) -> (r: bool)
    requires
        source@.len() <= MAX_SOURCE_CHARS,
    ensures
        r == parses_as_type_assertion(source@),
{
    let cm: Lrc<SourceMap> = Default::default();
    let file = cm.new_source_file(FileName::Anon.into(), source.to_string());
    let lexer = Lexer::new(
        Syntax::Typescript(Default::default()),
        Default::default(),
        StringInput::from(&*file),
        None,
    );
    let mut parser = Parser::new_from(lexer);
    match parser.parse_expr() {
        Ok(expr) => expr.as_ts_as().is_some(),
        Err(_) => false,
    }
}

/// The expression that stands for a type hint: the hint as the type of an
/// assertion on `0`.
pub open spec fn assertion_source(hint: Seq<char>) -> Seq<char> {
    "0 as "@ + hint
}

/// Whether `hint` is accepted as a type.
pub open spec fn hint_is_type(hint: Seq<char>) -> bool {
    &&& assertion_source(hint).len() <= MAX_SOURCE_CHARS
    &&& parses_as_type_assertion(assertion_source(hint))
}

/// Builds the expression that stands for a type hint.
pub fn type_assertion_source(type_hint: &str) -> (r: String)
    ensures
        r@ == assertion_source(type_hint@),
{
    joined("0 as ", type_hint)
}

/// Parses a fragment of type syntax.
///
/// The fragment is wrapped into the expression `0 as <fragment>`, which is
/// parsed as a single expression; the hint is a type exactly when the result
/// is a type assertion. The type is kept as the text of the hint.
pub fn parse_type_hint(type_hint: &str) -> (r: Result<TypeExpr, ()>)
    ensures
        match r {
            Ok(t) => hint_is_type(type_hint@) && t@ == TypeExprView::Hint(type_hint@),
            Err(_) => !hint_is_type(type_hint@),
        },
{
    let source = type_assertion_source(type_hint);
    if source.as_str().unicode_len() > MAX_SOURCE_CHARS {
        return Err(());
    }
    if is_type_assertion(source.as_str()) {
        Ok(TypeExpr::Hint(String::from_str(type_hint)))
    } else {
        Err(())
    }
}

/// Declaration text with the position map that belongs to it.
#[derive(Debug, PartialEq, Eq)]
pub struct EmittedCode {
    pub code: String,
    pub source_map: String,
}

} // verus!

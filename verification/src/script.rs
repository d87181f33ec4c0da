//! The part of a JavaScript source file that declaration synthesis reads.
//!
//! A parsed file is a sequence of top-level statements. Only assignments to a
//! member of an object (`module.exports = ...`) are kept in detail; object
//! literals keep their key-value properties, and values keep what the
//! descriptor conventions read: nested objects, string and boolean literals,
//! and the presence of a function. Everything else is `Other`.
//!
//! Each type has a view over `Seq` and `Seq<char>`; contracts are stated over
//! the views.

use vstd::prelude::*;

verus! {

/// A byte range in one source file.
#[derive(Clone, Copy, Debug, PartialEq, Eq, Structural)]
pub struct Span {
    pub lo: u32,
    pub hi: u32,
}

/// The key of a property in an object literal.
#[derive(Debug, PartialEq, Eq)]
pub enum PropName {
    /// A bare identifier: `{ type: ... }`.
    Ident(String),
    /// A string literal: `{ "type": ... }`.
    Str(String),
    /// A number, a computed key, or anything else that has no text.
    Other,
}

/// The view of a [`PropName`].
#[verifier::ext_equal]
pub enum PropNameView {
    Ident(Seq<char>),
    Str(Seq<char>),
    Other,
}

impl View for PropName {
    type V = PropNameView;

    open spec fn view(&self) -> PropNameView {
        match self {
            PropName::Ident(s) => PropNameView::Ident(s@),
            PropName::Str(s) => PropNameView::Str(s@),
            PropName::Other => PropNameView::Other,
        }
    }
}

/// An expression, as far as the conventions look into it.
#[derive(Debug, PartialEq, Eq)]
pub enum Expr {
    Object(ObjectLit),
    Str(String),
    Bool(bool),
    /// A function expression, `function (...) { ... }`; only its presence
    /// matters. An arrow function is `Other`.
    Function,
    Other,
}

/// A property of an object literal.
#[derive(Debug, PartialEq, Eq)]
pub enum Prop {
    /// `key: value`, with the place of the key in its file.
    KeyValue { key: PropName, span: Span, value: Expr },
    /// A spread, a shorthand, a method, a getter or a setter.
    Other,
}

/// An object literal: its properties in source order.
#[derive(Debug, PartialEq, Eq)]
pub struct ObjectLit {
    pub props: Vec<Prop>,
}

/// The view of an [`Expr`].
#[verifier::ext_equal]
pub enum ExprView {
    Object(Seq<PropView>),
    Str(Seq<char>),
    Bool(bool),
    Function,
    Other,
}

/// The view of a [`Prop`].
#[verifier::ext_equal]
pub enum PropView {
    KeyValue { key: PropNameView, span: Span, value: ExprView },
    Other,
}

/// The view of an expression.
pub open spec fn expr_view(e: Expr) -> ExprView
    decreases e,
{
    match e {
        Expr::Object(o) => ExprView::Object(
            Seq::new(
                o.props@.len(),
                |i: int|
                    if 0 <= i < o.props@.len() {
                        prop_view(o.props@[i])
                    } else {
                        PropView::Other
                    },
            ),
        ),
        Expr::Str(s) => ExprView::Str(s@),
        Expr::Bool(b) => ExprView::Bool(b),
        Expr::Function => ExprView::Function,
        Expr::Other => ExprView::Other,
    }
}

/// The view of a property.
pub open spec fn prop_view(p: Prop) -> PropView
    decreases p,
{
    match p {
        Prop::KeyValue { key, span, value } => PropView::KeyValue {
            key: key@,
            span,
            value: expr_view(value),
        },
        Prop::Other => PropView::Other,
    }
}

impl View for Expr {
    type V = ExprView;

    open spec fn view(&self) -> ExprView {
        expr_view(*self)
    }
}

impl View for Prop {
    type V = PropView;

    open spec fn view(&self) -> PropView {
        prop_view(*self)
    }
}

impl View for ObjectLit {
    type V = Seq<PropView>;

    open spec fn view(&self) -> Seq<PropView> {
        Seq::new(self.props@.len(), |i: int| prop_view(self.props@[i]))
    }
}

/// A top-level statement.
#[derive(Debug, PartialEq, Eq)]
pub enum Stmt {
    /// An assignment whose target is a plain member access,
    /// `object.property = value;`. `object` and `property` hold the
    /// identifier's text, or `None` where that part of the target is not an
    /// identifier.
    MemberAssign { object: Option<String>, property: Option<String>, value: Expr },
    Other,
}

/// The view of a [`Stmt`].
#[verifier::ext_equal]
pub enum StmtView {
    MemberAssign { object: Option<Seq<char>>, property: Option<Seq<char>>, value: ExprView },
    Other,
}

/// The view of a text that may be absent.
pub open spec fn opt_text_view(t: Option<String>) -> Option<Seq<char>> {
    match t {
        Some(s) => Some(s@),
        None => None,
    }
}

impl View for Stmt {
    type V = StmtView;

    open spec fn view(&self) -> StmtView {
        match self {
            Stmt::MemberAssign { object, property, value } => StmtView::MemberAssign {
                object: opt_text_view(*object),
                property: opt_text_view(*property),
                value: value@,
            },
            Stmt::Other => StmtView::Other,
        }
    }
}

/// A parsed source file: its top-level statements in order.
#[derive(Debug, PartialEq, Eq)]
pub struct Script {
    pub body: Vec<Stmt>,
}

impl View for Script {
    type V = Seq<StmtView>;

    open spec fn view(&self) -> Seq<StmtView> {
        Seq::new(self.body@.len(), |i: int| self.body@[i]@)
    }
}

/// The view of an object held in an expression agrees with the object's own
/// view.
pub proof fn lemma_object_view(o: ObjectLit)
    ensures
        Expr::Object(o)@ == ExprView::Object(o@),
{
    assert(Expr::Object(o)@->Object_0 =~= o@);
}

} // verus!

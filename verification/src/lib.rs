//! Synthesis of ambient type declarations for Sails.js models and helpers.
//!
//! A source file is handed in as a [`script::Script`], the part of its syntax
//! tree that the conventions read. A model gives one interface
//! ([`model::gen_decl`]); all helpers together give one document
//! ([`emit::gen_helpers_module`]) around the namespace tree of their paths
//! ([`tree::build_tree`]). What is declared is a tree of plain values
//! ([`decl`]), which a printer turns into text.

use vstd::prelude::*;

pub mod decl;
pub mod emit;
pub mod helpers;
pub mod laws;
pub mod literal_declarations;
pub mod model;
pub mod resolver;
pub mod script;
pub mod text;
pub mod tree;
pub mod util;

use crate::decl::{InterfaceDecl, InterfaceDeclView};
use crate::model::{gen_decl, model_decl, parsed_view, GenDeclarationsError};
use crate::script::{Script, StmtView};

verus! {

/// Why a model file gives no declaration, for a caller that only tells a
/// source that did not parse from one that is no model.
#[derive(Clone, Copy, Debug, PartialEq, Eq, Structural)]
pub enum GenDeclForModelError {
    /// The source did not parse.
    ParseError,
    /// The file does not declare a model: it exports no object, the object
    /// has no `attributes`, or an attribute has a type hint that is not a
    /// type.
    InvalidModel,
}

/// The declaration of a model, with the reasons for a refusal reduced to two.
pub open spec fn decl_for_model(parsed: Option<Seq<StmtView>>, model_name: Seq<char>) -> Result<
    InterfaceDeclView,
    GenDeclForModelError,
> {
    match model_decl(parsed, model_name, 0) {
        Ok(d) => Ok(d),
        Err(GenDeclarationsError::ParseError) => Err(GenDeclForModelError::ParseError),
        Err(_) => Err(GenDeclForModelError::InvalidModel),
    }
}

/// Synthesizes the declaration of a model that is the only source of its
/// document: what [`gen_decl`] gives for the file of index 0.
pub fn gen_decl_for_model(parsed: Option<&Script>, model_name: &str) -> (r: Result<
    InterfaceDecl,
    GenDeclForModelError,
>)
    ensures
        match r {
            Ok(d) => decl_for_model(parsed_view(parsed), model_name@) == Ok::<
                InterfaceDeclView,
                GenDeclForModelError,
            >(d@),
            Err(e) => decl_for_model(parsed_view(parsed), model_name@) == Err::<
                InterfaceDeclView,
                GenDeclForModelError,
            >(e),
        },
{
    match gen_decl(parsed, model_name, 0) {
        Ok(d) => Ok(d),
        Err(GenDeclarationsError::ParseError) => Err(GenDeclForModelError::ParseError),
        Err(_) => Err(GenDeclForModelError::InvalidModel),
    }
}

} // verus!

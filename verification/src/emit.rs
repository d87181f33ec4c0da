//! The documents that are handed to the printer, and what is made of the
//! text that comes back.

use vstd::prelude::*;
use crate::decl::{declarations_view, Declaration, DeclarationView};
use crate::helpers::{gen_helpers_object_decl, helpers_object, NodeView, SailsDeclHelperTree};
use crate::literal_declarations::{
    get_global_declarations, get_global_namespace_declarations, get_helper_object_interface,
    get_sails_object, global_declarations, global_namespace_declarations,
    helper_object_interface, sails_object,
};
use crate::text::joined;
use crate::tree::{helper_tree, sources_view, HelperSource};
use crate::util::EmittedCode;

verus! {

/// The document that declares all helpers: the call-signature interface, the
/// alias that mirrors the namespace tree, the global object, and the two
/// global declarations, in this order.
pub open spec fn helpers_module(tree: Seq<NodeView>, with_models: bool) -> Seq<DeclarationView> {
    seq![
        DeclarationView::Interface(helper_object_interface()),
        DeclarationView::TypeAlias(helpers_object(tree)),
        DeclarationView::ExportInterface(sails_object(with_models)),
        global_namespace_declarations(),
        global_declarations(),
    ]
}

/// Builds the one document that declares all helpers under `helpers_folder`.
///
/// Every source takes part in the one tree, and so in the one document; the
/// places that the document points to are told apart by the index of their
/// source.
pub fn gen_helpers_module(helpers: &Vec<HelperSource>, helpers_folder: &Vec<String>, with_models: bool) -> (r:
    Vec<Declaration>)
    ensures
        declarations_view(r@) == helpers_module(
            helper_tree(sources_view(helpers@), crate::decl::texts_view(helpers_folder@)),
            with_models,
        ),
{
    let tree = SailsDeclHelperTree::new(helpers, helpers_folder);
    let interface = Declaration::Interface(get_helper_object_interface());
    let alias = Declaration::TypeAlias(gen_helpers_object_decl(&tree));
    let object = get_sails_object(with_models);
    let namespace = get_global_namespace_declarations();
    let global = get_global_declarations();
    let ghost v = seq![interface@, alias@, object@, namespace@, global@];
    let mut body: Vec<Declaration> = Vec::new();
    body.push(interface);
    body.push(alias);
    body.push(object);
    body.push(namespace);
    body.push(global);
    assert(declarations_view(body@) =~= v);
    body
}

/// The name of the file that holds the position map of a declaration file.
pub open spec fn map_file_name(declaration_file: Seq<char>) -> Seq<char> {
    declaration_file + ".map"@
}

/// The line that ends a declaration file and names its position map.
pub open spec fn map_reference(declaration_file: Seq<char>) -> Seq<char> {
    "\n//# sourceMappingURL="@ + map_file_name(declaration_file)
}

/// Puts printed text and its position map together: the text gets a last
/// line that names the map file, which is the declaration file's name with
/// `.map` behind it; the map is kept as it is.
pub fn with_map_reference(code: String, source_map: String, declaration_file: &str) -> (r: EmittedCode)
    ensures
        r.code@ == code@ + map_reference(declaration_file@),
        r.source_map@ == source_map@,
{
    let name = joined(declaration_file, ".map");
    let line = joined("\n//# sourceMappingURL=", name.as_str());
    EmittedCode { code: code.concat(line.as_str()), source_map }
}

} // verus!

//! The specifier resolver: which member of the package a named specifier
//! imports.

use vstd::prelude::*;

use crate::ast::{
    ImportNamedSpecifier, ImportNamedSpecifierView, ModuleExportName, ModuleExportNameView,
};

verus! {

/// The name under which the package exports the member that `specifier`
/// imports: the "imported as" name where there is one, else the local name.
pub open spec fn source_member_name(specifier: ImportNamedSpecifierView) -> Seq<char> {
    match specifier.imported {
        Some(ModuleExportNameView::Ident(name)) => name.sym,
        Some(ModuleExportNameView::Str(name)) => name.value,
        None => specifier.local.sym,
    }
}

impl ImportNamedSpecifier {
    /// The name under which the package exports the member, as distinct from
    /// the local name that the module binds.
    pub fn source_member_name(&self) -> (res: &str)
        ensures
            res@ == source_member_name(self@),
    {
        match &self.imported {
            Some(ModuleExportName::Ident(name)) => name.sym.as_str(),
            Some(ModuleExportName::Str(name)) => name.value.as_str(),
            None => self.local.sym.as_str(),
        }
    }
}

} // verus!

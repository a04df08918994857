//! The syntax-tree model that the rewriter works on.
//!
//! A module is an ordered list of top-level items. Import declarations are
//! modelled in full; every other item, and the attribute object of an import
//! declaration, is a handle that the host resolves and that the rewriter only
//! carries along.

use vstd::prelude::*;

verus! {

/// A region of source text, as byte offsets.
#[derive(Clone, Copy, Debug, PartialEq, Eq, Structural, Hash)]
pub struct Span {
    pub lo: u32,
    pub hi: u32,
}

/// A handle to a syntax node that stays with the host.
#[derive(Clone, Copy, Debug, PartialEq, Eq, Structural, Hash)]
pub struct NodeId(pub u64);

/// The phase of an import declaration.
#[derive(Clone, Copy, Debug, PartialEq, Eq, Structural, Hash)]
pub enum ImportPhase {
    Evaluation,
    Source,
    Defer,
}

/// An identifier.
#[derive(Debug, PartialEq, Eq)]
pub struct Ident {
    pub span: Span,
    pub ctxt: u32,
    pub sym: String,
    pub optional: bool,
}

/// What an [`Ident`] stands for in contracts.
pub struct IdentView {
    pub span: Span,
    pub ctxt: u32,
    pub sym: Seq<char>,
    pub optional: bool,
}

impl View for Ident {
    type V = IdentView;

    open spec fn view(&self) -> IdentView {
        IdentView { span: self.span, ctxt: self.ctxt, sym: self.sym@, optional: self.optional }
    }
}

impl Clone for Ident {
    fn clone(&self) -> (res: Self)
        ensures
            res@ == self@,
    {
        Ident { span: self.span, ctxt: self.ctxt, sym: self.sym.clone(), optional: self.optional }
    }
}

/// A string literal.
#[derive(Debug, PartialEq, Eq)]
pub struct Str {
    pub span: Span,
    pub value: String,
    pub raw: Option<String>,
}

/// What a [`Str`] stands for in contracts.
pub struct StrView {
    pub span: Span,
    pub value: Seq<char>,
    pub raw: Option<Seq<char>>,
}

impl View for Str {
    type V = StrView;

    open spec fn view(&self) -> StrView {
        StrView {
            span: self.span,
            value: self.value@,
            raw: match self.raw {
                Some(r) => Some(r@),
                None => None,
            },
        }
    }
}

impl Clone for Str {
    fn clone(&self) -> (res: Self)
        ensures
            res@ == self@,
    {
        let raw = match &self.raw {
            Some(r) => Some(r.clone()),
            None => None,
        };
        Str { span: self.span, value: self.value.clone(), raw }
    }
}

/// The name under which a module exports a member: an identifier or a string
/// literal.
#[derive(Debug, PartialEq, Eq)]
pub enum ModuleExportName {
    Ident(Ident),
    Str(Str),
}

/// What a [`ModuleExportName`] stands for in contracts.
pub enum ModuleExportNameView {
    Ident(IdentView),
    Str(StrView),
}

impl View for ModuleExportName {
    type V = ModuleExportNameView;

    open spec fn view(&self) -> ModuleExportNameView {
        match self {
            ModuleExportName::Ident(i) => ModuleExportNameView::Ident(i@),
            ModuleExportName::Str(s) => ModuleExportNameView::Str(s@),
        }
    }
}

impl Clone for ModuleExportName {
    fn clone(&self) -> (res: Self)
        ensures
            res@ == self@,
    {
        match self {
            ModuleExportName::Ident(i) => ModuleExportName::Ident(i.clone()),
            ModuleExportName::Str(s) => ModuleExportName::Str(s.clone()),
        }
    }
}

/// A named specifier: `local` in `import { local }`, or `imported as local`.
#[derive(Debug, PartialEq, Eq)]
pub struct ImportNamedSpecifier {
    pub span: Span,
    pub local: Ident,
    pub imported: Option<ModuleExportName>,
    pub is_type_only: bool,
}

/// What an [`ImportNamedSpecifier`] stands for in contracts.
pub struct ImportNamedSpecifierView {
    pub span: Span,
    pub local: IdentView,
    pub imported: Option<ModuleExportNameView>,
    pub is_type_only: bool,
}

impl View for ImportNamedSpecifier {
    type V = ImportNamedSpecifierView;

    open spec fn view(&self) -> ImportNamedSpecifierView {
        ImportNamedSpecifierView {
            span: self.span,
            local: self.local@,
            imported: match self.imported {
                Some(n) => Some(n@),
                None => None,
            },
            is_type_only: self.is_type_only,
        }
    }
}

impl Clone for ImportNamedSpecifier {
    fn clone(&self) -> (res: Self)
        ensures
            res@ == self@,
    {
        let imported = match &self.imported {
            Some(n) => Some(n.clone()),
            None => None,
        };
        ImportNamedSpecifier {
            span: self.span,
            local: self.local.clone(),
            imported,
            is_type_only: self.is_type_only,
        }
    }
}

/// A default specifier: `local` in `import local from "pkg"`.
#[derive(Debug, PartialEq, Eq)]
pub struct ImportDefaultSpecifier {
    pub span: Span,
    pub local: Ident,
}

/// What an [`ImportDefaultSpecifier`] stands for in contracts.
pub struct ImportDefaultSpecifierView {
    pub span: Span,
    pub local: IdentView,
}

impl View for ImportDefaultSpecifier {
    type V = ImportDefaultSpecifierView;

    open spec fn view(&self) -> ImportDefaultSpecifierView {
        ImportDefaultSpecifierView { span: self.span, local: self.local@ }
    }
}

impl Clone for ImportDefaultSpecifier {
    fn clone(&self) -> (res: Self)
        ensures
            res@ == self@,
    {
        ImportDefaultSpecifier { span: self.span, local: self.local.clone() }
    }
}

/// A namespace specifier: `local` in `import * as local from "pkg"`.
#[derive(Debug, PartialEq, Eq)]
pub struct ImportStarAsSpecifier {
    pub span: Span,
    pub local: Ident,
}

/// What an [`ImportStarAsSpecifier`] stands for in contracts.
pub struct ImportStarAsSpecifierView {
    pub span: Span,
    pub local: IdentView,
}

impl View for ImportStarAsSpecifier {
    type V = ImportStarAsSpecifierView;

    open spec fn view(&self) -> ImportStarAsSpecifierView {
        ImportStarAsSpecifierView { span: self.span, local: self.local@ }
    }
}

impl Clone for ImportStarAsSpecifier {
    fn clone(&self) -> (res: Self)
        ensures
            res@ == self@,
    {
        ImportStarAsSpecifier { span: self.span, local: self.local.clone() }
    }
}

/// One imported binding of an import declaration.
#[derive(Debug, PartialEq, Eq)]
pub enum ImportSpecifier {
    Named(ImportNamedSpecifier),
    Default(ImportDefaultSpecifier),
    Namespace(ImportStarAsSpecifier),
}

/// What an [`ImportSpecifier`] stands for in contracts.
pub enum ImportSpecifierView {
    Named(ImportNamedSpecifierView),
    Default(ImportDefaultSpecifierView),
    Namespace(ImportStarAsSpecifierView),
}

impl View for ImportSpecifier {
    type V = ImportSpecifierView;

    open spec fn view(&self) -> ImportSpecifierView {
        match self {
            ImportSpecifier::Named(n) => ImportSpecifierView::Named(n@),
            ImportSpecifier::Default(d) => ImportSpecifierView::Default(d@),
            ImportSpecifier::Namespace(s) => ImportSpecifierView::Namespace(s@),
        }
    }
}

impl Clone for ImportSpecifier {
    fn clone(&self) -> (res: Self)
        ensures
            res@ == self@,
    {
        match self {
            ImportSpecifier::Named(n) => ImportSpecifier::Named(n.clone()),
            ImportSpecifier::Default(d) => ImportSpecifier::Default(d.clone()),
            ImportSpecifier::Namespace(s) => ImportSpecifier::Namespace(s.clone()),
        }
    }
}

/// The views of a list of specifiers, in order.
pub open spec fn specifier_views(specifiers: Seq<ImportSpecifier>) -> Seq<ImportSpecifierView> {
    specifiers.map_values(|s: ImportSpecifier| s@)
}

/// An import declaration.
#[derive(Debug, PartialEq, Eq)]
pub struct ImportDecl {
    pub span: Span,
    pub specifiers: Vec<ImportSpecifier>,
    pub src: Str,
    pub type_only: bool,
    /// The import attributes (`with { .. }`), kept by the host.
    pub with: Option<NodeId>,
    pub phase: ImportPhase,
}

/// What an [`ImportDecl`] stands for in contracts.
pub struct ImportDeclView {
    pub span: Span,
    pub specifiers: Seq<ImportSpecifierView>,
    pub src: StrView,
    pub type_only: bool,
    pub with: Option<NodeId>,
    pub phase: ImportPhase,
}

impl View for ImportDecl {
    type V = ImportDeclView;

    open spec fn view(&self) -> ImportDeclView {
        ImportDeclView {
            span: self.span,
            specifiers: specifier_views(self.specifiers@),
            src: self.src@,
            type_only: self.type_only,
            with: self.with,
            phase: self.phase,
        }
    }
}

impl Clone for ImportDecl {
    fn clone(&self) -> (res: Self)
        ensures
            res@ == self@,
    {
        let mut specifiers: Vec<ImportSpecifier> = Vec::new();
        let mut i: usize = 0;
        while i < self.specifiers.len()
            invariant
                i <= self.specifiers.len(),
                specifiers.len() == i,
                forall|k: int| 0 <= k < i ==> specifiers[k]@ == self.specifiers[k]@,
            decreases self.specifiers.len() - i,
        {
            specifiers.push(self.specifiers[i].clone());
            i = i + 1;
        }
        proof {
            assert(specifier_views(specifiers@) =~= specifier_views(self.specifiers@));
        }
        ImportDecl {
            span: self.span,
            specifiers,
            src: self.src.clone(),
            type_only: self.type_only,
            with: self.with,
            phase: self.phase,
        }
    }
}

/// A top-level item of a module.
#[derive(Debug, PartialEq, Eq)]
pub enum ModuleItem {
    /// An import declaration.
    Import(ImportDecl),
    /// Any other declaration, export or statement, kept by the host.
    Other(NodeId),
}

/// What a [`ModuleItem`] stands for in contracts.
pub enum ModuleItemView {
    Import(ImportDeclView),
    Other(NodeId),
}

impl View for ModuleItem {
    type V = ModuleItemView;

    open spec fn view(&self) -> ModuleItemView {
        match self {
            ModuleItem::Import(d) => ModuleItemView::Import(d@),
            ModuleItem::Other(n) => ModuleItemView::Other(*n),
        }
    }
}

impl Clone for ModuleItem {
    fn clone(&self) -> (res: Self)
        ensures
            res@ == self@,
    {
        match self {
            ModuleItem::Import(d) => ModuleItem::Import(d.clone()),
            ModuleItem::Other(n) => ModuleItem::Other(*n),
        }
    }
}

/// The views of a list of items, in order.
pub open spec fn item_views(items: Seq<ModuleItem>) -> Seq<ModuleItemView> {
    items.map_values(|i: ModuleItem| i@)
}

} // verus!

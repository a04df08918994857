//! The import rewriter: per-item classification and expansion.

use vstd::hash_map::StringHashMap;
use vstd::prelude::*;
use vstd::string::StringExecFns;

use crate::ast::{
    item_views, specifier_views, ImportDecl, ImportDeclView, ImportDefaultSpecifier,
    ImportDefaultSpecifierView, ImportNamedSpecifier, ImportNamedSpecifierView, ImportSpecifier,
    ImportSpecifierView, ModuleItem, ModuleItemView, Str, StrView,
};
use crate::case::{apply_pipeline, pipeline, TransformMember};
use crate::config::{
    optional_table_view, table_view, RuleView, TransformVisitorConfigs, TransformVisitorSubConfig,
};
use crate::laws::{empty_table_is_identity, rewrite_items_fails_with_prefix};
use crate::resolve::source_member_name;
use crate::template::{substitute_member, substituted};

verus! {

/// The path that `template` gives for `member` after `transformers` have
/// formatted it, as a string literal at the place of `raw`.
pub open spec fn import_path(
    template: Seq<char>,
    member: Seq<char>,
    raw: StrView,
    transformers: Seq<TransformMember>,
) -> StrView {
    StrView {
        span: raw.span,
        value: substituted(template, pipeline(transformers, member)),
        raw: None,
    }
}

/// The specifier of the primary import that replaces `specifier`: the
/// specifier itself where the rule keeps named imports, else a default
/// import that binds the same local name.
pub open spec fn primary_specifier(
    rule: RuleView,
    specifier: ImportNamedSpecifierView,
) -> ImportSpecifierView {
    if rule.skip_default_conversion {
        ImportSpecifierView::Named(specifier)
    } else {
        ImportSpecifierView::Default(
            ImportDefaultSpecifierView { span: specifier.span, local: specifier.local },
        )
    }
}

/// The import of one member from its own path, which replaces `specifier`
/// of `decl`.
pub open spec fn primary_import(
    rule: RuleView,
    decl: ImportDeclView,
    specifier: ImportNamedSpecifierView,
) -> ModuleItemView {
    ModuleItemView::Import(
        ImportDeclView {
            span: decl.span,
            specifiers: seq![primary_specifier(rule, specifier)],
            src: import_path(
                rule.transform,
                source_member_name(specifier),
                decl.src,
                rule.member_transformers,
            ),
            type_only: decl.type_only,
            with: decl.with,
            phase: decl.phase,
        },
    )
}

/// The side-effect import that follows the primary import of `specifier`
/// where the rule has the style template `style`.
pub open spec fn style_import(
    style: Seq<char>,
    rule: RuleView,
    decl: ImportDeclView,
    specifier: ImportNamedSpecifierView,
) -> ModuleItemView {
    ModuleItemView::Import(
        ImportDeclView {
            span: decl.span,
            specifiers: Seq::empty(),
            src: import_path(
                style,
                source_member_name(specifier),
                decl.src,
                rule.member_transformers,
            ),
            type_only: false,
            with: decl.with,
            phase: decl.phase,
        },
    )
}

/// The declaration that carries a default or namespace specifier of `decl`
/// alone, from the unchanged path.
pub open spec fn standalone_import(
    decl: ImportDeclView,
    specifier: ImportSpecifierView,
) -> ModuleItemView {
    ModuleItemView::Import(
        ImportDeclView {
            span: decl.span,
            specifiers: seq![specifier],
            src: decl.src,
            type_only: decl.type_only,
            with: decl.with,
            phase: decl.phase,
        },
    )
}

/// What replaces one specifier of `decl` under `rule`: for a named
/// specifier its primary import, followed by its style import where the rule
/// has a style template; for any other specifier a declaration of its own.
pub open spec fn expand_specifier(
    rule: RuleView,
    decl: ImportDeclView,
    specifier: ImportSpecifierView,
) -> Seq<ModuleItemView> {
    match specifier {
        ImportSpecifierView::Named(named) => match rule.style {
            Some(style) => seq![
                primary_import(rule, decl, named),
                style_import(style, rule, decl, named),
            ],
            None => seq![primary_import(rule, decl, named)],
        },
        _ => seq![standalone_import(decl, specifier)],
    }
}

/// What replaces `specifiers` of `decl` under `rule`: the replacements of
/// the specifiers one after another, in the order of the specifiers.
pub open spec fn expand_specifiers(
    rule: RuleView,
    decl: ImportDeclView,
    specifiers: Seq<ImportSpecifierView>,
) -> Seq<ModuleItemView>
    decreases specifiers.len(),
{
    if specifiers.len() == 0 {
        Seq::empty()
    } else {
        expand_specifiers(rule, decl, specifiers.drop_last()) + expand_specifier(
            rule,
            decl,
            specifiers.last(),
        )
    }
}

/// What replaces `decl` under `rule`.
pub open spec fn expand_import(rule: RuleView, decl: ImportDeclView) -> Seq<ModuleItemView> {
    expand_specifiers(rule, decl, decl.specifiers)
}

/// Whether `specifier` imports a whole module: a default or a namespace
/// specifier.
pub open spec fn is_full_import(specifier: ImportSpecifierView) -> bool {
    specifier is Default || specifier is Namespace
}

/// Whether one of `specifiers` imports a whole module.
pub open spec fn has_full_import(specifiers: Seq<ImportSpecifierView>) -> bool {
    exists|i: int| 0 <= i < specifiers.len() && is_full_import(#[trigger] specifiers[i])
}

/// The rule that applies to `item`, where it is an import of a package of
/// the table.
pub open spec fn rule_of(table: Map<Seq<char>, RuleView>, item: ModuleItemView) -> Option<
    RuleView,
> {
    match item {
        ModuleItemView::Import(decl) => if table.contains_key(decl.src.value) {
            Some(table[decl.src.value])
        } else {
            None
        },
        ModuleItemView::Other(_) => None,
    }
}

/// The package whose whole-module import in `item` the table forbids, if
/// there is one.
pub open spec fn violation_of(table: Map<Seq<char>, RuleView>, item: ModuleItemView) -> Option<
    Seq<char>,
> {
    match rule_of(table, item) {
        Some(rule) => if rule.prevent_full_import && has_full_import(
            item->Import_0.specifiers,
        ) {
            Some(item->Import_0.src.value)
        } else {
            None
        },
        None => None,
    }
}

/// What replaces `item`: the expansion of an import of a package of the
/// table, and the item itself in every other case.
pub open spec fn rewrite_item(table: Map<Seq<char>, RuleView>, item: ModuleItemView) -> Seq<
    ModuleItemView,
> {
    match rule_of(table, item) {
        Some(rule) => expand_import(rule, item->Import_0),
        None => seq![item],
    }
}

/// The rewritten module: the replacements of the items, in the order of the
/// items; or the package of the first item that the table forbids.
pub open spec fn rewrite_items(table: Map<Seq<char>, RuleView>, items: Seq<ModuleItemView>) -> Result<
    Seq<ModuleItemView>,
    Seq<char>,
>
    decreases items.len(),
{
    if items.len() == 0 {
        Ok(Seq::empty())
    } else {
        match rewrite_items(table, items.drop_last()) {
            Err(package) => Err(package),
            Ok(done) => match violation_of(table, items.last()) {
                Some(package) => Err(package),
                None => Ok(done + rewrite_item(table, items.last())),
            },
        }
    }
}

/// Formats `member` by `member_transformers` and puts it into `transform`
/// in place of `${member}`. The result is a string literal at the place of
/// `raw`.
pub fn transform_import_path(
    transform: &str,
    member: &str,
    raw: &Str,
    member_transformers: &[TransformMember],
) -> (res: Str)
    ensures
        res@ == import_path(transform@, member@, raw@, member_transformers@),
{
    let transformed_member = apply_pipeline(member_transformers, member);
    let replaced = substitute_member(transform, transformed_member.as_str());
    Str { span: raw.span, value: replaced, raw: None }
}

/// An import of a whole module that the table forbids.
#[derive(Debug, PartialEq, Eq)]
pub struct FullImportViolation {
    /// The package that was imported as a whole.
    pub package: String,
}

/// The text that reports a forbidden whole-module import of `package`.
pub open spec fn violation_message(package: Seq<char>) -> Seq<char> {
    "Import of entire module '"@ + package
        + "' not allowed due to preventFullImport setting"@
}

impl FullImportViolation {
    /// A text that reports the violation and names the package.
    pub fn message(&self) -> (res: String)
        ensures
            res@ == violation_message(self.package@),
    {
        let mut text = String::from_str("Import of entire module '");
        text.append(self.package.as_str());
        text.append("' not allowed due to preventFullImport setting");
        text
    }
}

/// Whether one of `specifiers` is a default or a namespace specifier.
fn any_full_import(specifiers: &Vec<ImportSpecifier>) -> (res: bool)
    ensures
        res == has_full_import(specifier_views(specifiers@)),
{
    let mut i: usize = 0;
    while i < specifiers.len()
        invariant
            i <= specifiers.len(),
            forall|k: int| 0 <= k < i ==> !is_full_import(specifiers[k]@),
        decreases specifiers.len() - i,
    {
        match &specifiers[i] {
            ImportSpecifier::Named(_) => {},
            _ => {
                assert(is_full_import(specifier_views(specifiers@)[i as int]));
                return true;
            },
        }
        i = i + 1;
    }
    assert(forall|k: int|
        0 <= k < specifiers.len() ==> specifier_views(specifiers@)[k] == specifiers[k]@);
    false
}

/// Appends to `out` what replaces the named specifier `named` of `decl`.
fn push_named(
    rule: &TransformVisitorSubConfig,
    decl: &ImportDecl,
    named: &ImportNamedSpecifier,
    out: &mut Vec<ModuleItem>,
)
    ensures
        item_views(final(out)@) == item_views(old(out)@) + expand_specifier(
            rule@,
            decl@,
            ImportSpecifierView::Named(named@),
        ),
{
    let ghost before = item_views(out@);
    let member = named.source_member_name();
    let transformed_path = transform_import_path(
        rule.transform.as_str(),
        member,
        &decl.src,
        rule.member_transformers.as_slice(),
    );
    let new_spec = if rule.skip_default_conversion {
        ImportSpecifier::Named(named.clone())
    } else {
        ImportSpecifier::Default(
            ImportDefaultSpecifier { span: named.span, local: named.local.clone() },
        )
    };
    let mut specifiers: Vec<ImportSpecifier> = Vec::new();
    specifiers.push(new_spec);
    let new_node = ModuleItem::Import(
        ImportDecl {
            span: decl.span,
            specifiers,
            src: transformed_path,
            type_only: decl.type_only,
            with: decl.with,
            phase: decl.phase,
        },
    );
    proof {
        assert(specifier_views(specifiers@) =~= seq![primary_specifier(rule@, named@)]);
        assert(new_node@ == primary_import(rule@, decl@, named@));
    }
    out.push(new_node);
    proof {
        assert(item_views(out@) =~= before + seq![primary_import(rule@, decl@, named@)]);
    }
    match &rule.style {
        Some(style_path) => {
            let transformed_path = transform_import_path(
                style_path.as_str(),
                member,
                &decl.src,
                rule.member_transformers.as_slice(),
            );
            let style_node = ModuleItem::Import(
                ImportDecl {
                    span: decl.span,
                    specifiers: Vec::new(),
                    src: transformed_path,
                    type_only: false,
                    with: decl.with,
                    phase: decl.phase,
                },
            );
            proof {
                assert(specifier_views(Seq::<ImportSpecifier>::empty()) =~= Seq::<
                    ImportSpecifierView,
                >::empty());
                assert(style_node@ == style_import(style_path@, rule@, decl@, named@));
            }
            out.push(style_node);
            proof {
                assert(item_views(out@) =~= before + seq![
                    primary_import(rule@, decl@, named@),
                    style_import(style_path@, rule@, decl@, named@),
                ]);
            }
        },
        None => {},
    }
}

/// Appends to `out` what replaces `decl` under `rule`.
fn push_expanded(rule: &TransformVisitorSubConfig, decl: &ImportDecl, out: &mut Vec<ModuleItem>)
    ensures
        item_views(final(out)@) == item_views(old(out)@) + expand_import(rule@, decl@),
{
    let ghost before = item_views(out@);
    let ghost specifiers = decl@.specifiers;
    let mut i: usize = 0;
    proof {
        assert(specifiers.take(0) =~= Seq::<ImportSpecifierView>::empty());
        assert(item_views(out@) =~= before + expand_specifiers(rule@, decl@, specifiers.take(0)));
    }
    while i < decl.specifiers.len()
        invariant
            i <= decl.specifiers.len(),
            specifiers == decl@.specifiers,
            item_views(out@) == before + expand_specifiers(
                rule@,
                decl@,
                specifiers.take(i as int),
            ),
        decreases decl.specifiers.len() - i,
    {
        let ghost so_far = expand_specifiers(rule@, decl@, specifiers.take(i as int));
        let ghost step = expand_specifier(rule@, decl@, specifiers[i as int]);
        proof {
            assert(specifiers[i as int] == decl.specifiers[i as int]@);
            assert(specifiers.take(i + 1).drop_last() =~= specifiers.take(i as int));
        }
        match &decl.specifiers[i] {
            ImportSpecifier::Named(named) => {
                push_named(rule, decl, named, out);
            },
            other => {
                let mut specifiers: Vec<ImportSpecifier> = Vec::new();
                specifiers.push(other.clone());
                let new_node = ModuleItem::Import(
                    ImportDecl {
                        span: decl.span,
                        specifiers,
                        src: decl.src.clone(),
                        type_only: decl.type_only,
                        with: decl.with,
                        phase: decl.phase,
                    },
                );
                proof {
                    assert(specifier_views(specifiers@) =~= seq![other@]);
                    assert(new_node@ == standalone_import(decl@, other@));
                }
                out.push(new_node);
                proof {
                    assert(item_views(out@) =~= (before + so_far) + step);
                }
            },
        }
        proof {
            assert((before + so_far) + step =~= before + (so_far + step));
        }
        i = i + 1;
    }
    proof {
        assert(specifiers.take(i as int) =~= specifiers);
    }
}

/// The rewriter of one compilation unit.
pub struct TransformVisitor {
    /// The rules, by package name.
    pub configs: TransformVisitorConfigs,
}

impl TransformVisitor {
    /// What the rules of this rewriter make of `nodes`: the rewritten module,
    /// or the package of the first import that they forbid.
    pub open spec fn rewritten(&self, nodes: Seq<ModuleItem>) -> Result<
        Seq<ModuleItemView>,
        Seq<char>,
    > {
        rewrite_items(table_view(self.configs@), item_views(nodes))
    }

    /// Rewrites the top-level items of a module in place.
    ///
    /// Every import of a package that has a rule is replaced by the imports
    /// of its members; every other item stays. Where a rule forbids an
    /// import of the whole module, the first such import is reported and the
    /// items stay as they were.
    pub fn visit_mut_module_items(&mut self, nodes: &mut Vec<ModuleItem>) -> (res: Result<
        (),
        FullImportViolation,
    >)
        ensures
            *final(self) == *old(self),
            old(self).configs@.is_empty() ==> *final(nodes) == *old(nodes),
            old(self).rewritten(old(nodes)@) is Ok ==> res is Ok && item_views(final(nodes)@)
                == old(self).rewritten(old(nodes)@)->Ok_0,
            old(self).rewritten(old(nodes)@) is Err ==> res is Err && res->Err_0.package@ == old(
                self,
            ).rewritten(old(nodes)@)->Err_0 && *final(nodes) == *old(nodes),
    {
        let ghost table = table_view(self.configs@);
        let ghost items = item_views(nodes@);
        if self.configs.is_empty() {
            proof {
                empty_table_is_identity(table, items);
            }
            return Ok(());
        }
        let mut transformed_nodes: Vec<ModuleItem> = Vec::new();
        let mut i: usize = 0;
        proof {
            assert(items.take(0) =~= Seq::<ModuleItemView>::empty());
            assert(item_views(transformed_nodes@) =~= Seq::<ModuleItemView>::empty());
        }
        while i < nodes.len()
            invariant
                i <= nodes.len(),
                table == table_view(self.configs@),
                items == item_views(nodes@),
                rewrite_items(table, items.take(i as int)) == Ok::<
                    Seq<ModuleItemView>,
                    Seq<char>,
                >(item_views(transformed_nodes@)),
            decreases nodes.len() - i,
        {
            let ghost done = item_views(transformed_nodes@);
            proof {
                assert(items.take(i + 1).drop_last() =~= items.take(i as int));
                assert(items.take(i + 1).last() == nodes[i as int]@);
            }
            match &nodes[i] {
                ModuleItem::Import(import_decl) => {
                    match self.configs.get(import_decl.src.value.as_str()) {
                        Some(config) => {
                            if config.prevent_full_import && any_full_import(
                                &import_decl.specifiers,
                            ) {
                                proof {
                                    rewrite_items_fails_with_prefix(table, items, i + 1);
                                }
                                return Err(
                                    FullImportViolation { package: import_decl.src.value.clone() },
                                );
                            }
                            push_expanded(config, import_decl, &mut transformed_nodes);
                        },
                        None => {
                            transformed_nodes.push(nodes[i].clone());
                            proof {
                                assert(item_views(transformed_nodes@) =~= done + seq![
                                    nodes[i as int]@,
                                ]);
                            }
                        },
                    }
                },
                other => {
                    transformed_nodes.push(other.clone());
                    proof {
                        assert(item_views(transformed_nodes@) =~= done + seq![nodes[i as int]@]);
                    }
                },
            }
            i = i + 1;
        }
        proof {
            assert(items.take(i as int) =~= items);
        }
        *nodes = transformed_nodes;
        Ok(())
    }
}

/// Rewrites the top-level items of a program by the rules of `configs`.
/// Without a configuration no rule applies.
pub fn process_transform(program: Vec<ModuleItem>, configs: Option<TransformVisitorConfigs>) -> (res:
    Result<Vec<ModuleItem>, FullImportViolation>)
    ensures
        rewrite_items(optional_table_view(configs), item_views(program@)) is Ok ==> res is Ok
            && item_views(res->Ok_0@) == rewrite_items(
            optional_table_view(configs),
            item_views(program@),
        )->Ok_0,
        rewrite_items(optional_table_view(configs), item_views(program@)) is Err ==> res is Err
            && res->Err_0.package@ == rewrite_items(
            optional_table_view(configs),
            item_views(program@),
        )->Err_0,
{
    let configs = match configs {
        Some(table) => table,
        None => {
            let table: TransformVisitorConfigs = StringHashMap::new();
            assert(table_view(table@) =~= Map::<Seq<char>, RuleView>::empty());
            table
        },
    };
    let mut program = program;
    let mut visitor = TransformVisitor { configs };
    match visitor.visit_mut_module_items(&mut program) {
        Ok(()) => Ok(program),
        Err(e) => Err(e),
    }
}

} // verus!

//! What holds of every rewrite.

use vstd::prelude::*;

use crate::ast::{
    ImportDeclView, ImportNamedSpecifierView, ImportSpecifierView, ModuleItemView,
};
use crate::config::RuleView;
use crate::rewrite::{
    expand_import, expand_specifier, expand_specifiers, is_full_import, primary_import,
    primary_specifier, rewrite_item, rewrite_items, rule_of, style_import, violation_of,
};

verus! {

/// Once a prefix of the items fails, the whole list fails with the same
/// package.
pub proof fn rewrite_items_fails_with_prefix(
    table: Map<Seq<char>, RuleView>,
    items: Seq<ModuleItemView>,
    k: int,
)
    requires
        0 <= k <= items.len(),
        rewrite_items(table, items.take(k)) is Err,
    ensures
        rewrite_items(table, items) == rewrite_items(table, items.take(k)),
    decreases items.len() - k,
{
    if k == items.len() {
        assert(items.take(k) =~= items);
    } else {
        assert(items.take(k + 1).drop_last() =~= items.take(k));
        rewrite_items_fails_with_prefix(table, items, k + 1);
    }
}

/// An item that no rule applies to is kept as it is, and never refused.
pub proof fn unmatched_item_is_kept(table: Map<Seq<char>, RuleView>, item: ModuleItemView)
    requires
        rule_of(table, item) is None,
    ensures
        violation_of(table, item) is None,
        rewrite_item(table, item) == seq![item],
{
}

/// An import of a package that the table does not hold is kept as it is,
/// and never refused.
pub proof fn import_of_unconfigured_package_is_kept(
    table: Map<Seq<char>, RuleView>,
    decl: ImportDeclView,
)
    requires
        !table.contains_key(decl.src.value),
    ensures
        violation_of(table, ModuleItemView::Import(decl)) is None,
        rewrite_item(table, ModuleItemView::Import(decl)) == seq![ModuleItemView::Import(decl)],
{
}

/// The rewrite keeps the order of the items: a module that is parted in two
/// is rewritten to what its front part is rewritten to, followed by what the
/// rest is rewritten to; and it fails as the front part fails, or else as
/// the rest fails.
pub proof fn rewrite_keeps_order(
    table: Map<Seq<char>, RuleView>,
    front: Seq<ModuleItemView>,
    rest: Seq<ModuleItemView>,
)
    ensures
        rewrite_items(table, front) is Err ==> rewrite_items(table, front + rest)
            == rewrite_items(table, front),
        rewrite_items(table, front) is Ok && rewrite_items(table, rest) is Err ==> rewrite_items(
            table,
            front + rest,
        ) == rewrite_items(table, rest),
        rewrite_items(table, front) is Ok && rewrite_items(table, rest) is Ok ==> rewrite_items(
            table,
            front + rest,
        ) == Ok::<Seq<ModuleItemView>, Seq<char>>(
            rewrite_items(table, front)->Ok_0 + rewrite_items(table, rest)->Ok_0,
        ),
    decreases rest.len(),
{
    if rest.len() == 0 {
        assert(front + rest =~= front);
        match rewrite_items(table, front) {
            Ok(first) => {
                assert(first + Seq::<ModuleItemView>::empty() =~= first);
            },
            Err(_) => {},
        }
    } else {
        rewrite_keeps_order(table, front, rest.drop_last());
        assert((front + rest).drop_last() =~= front + rest.drop_last());
        assert((front + rest).last() == rest.last());
        match (rewrite_items(table, front), rewrite_items(table, rest.drop_last())) {
            (Ok(first), Ok(second)) => {
                let step = rewrite_item(table, rest.last());
                assert((first + second) + step =~= first + (second + step));
            },
            _ => {},
        }
    }
}

/// In a module that is rewritten, an item that no rule applies to stands
/// between what the items before it and what the items after it are
/// rewritten to.
pub proof fn unmatched_item_keeps_its_place(
    table: Map<Seq<char>, RuleView>,
    items: Seq<ModuleItemView>,
    i: int,
)
    requires
        0 <= i < items.len(),
        rule_of(table, items[i]) is None,
        rewrite_items(table, items) is Ok,
    ensures
        rewrite_items(table, items.take(i)) is Ok,
        rewrite_items(table, items.skip(i + 1)) is Ok,
        rewrite_items(table, items)->Ok_0 == rewrite_items(table, items.take(i))->Ok_0
            + seq![items[i]] + rewrite_items(table, items.skip(i + 1))->Ok_0,
{
    let upto = items.take(i + 1);
    assert(upto + items.skip(i + 1) =~= items);
    rewrite_keeps_order(table, upto, items.skip(i + 1));
    assert(upto.drop_last() =~= items.take(i));
    assert(upto.last() == items[i]);
}

/// A module in which no rule applies to any item is rewritten to itself.
pub proof fn unmatched_items_are_kept(table: Map<Seq<char>, RuleView>, items: Seq<ModuleItemView>)
    requires
        forall|i: int| 0 <= i < items.len() ==> rule_of(table, #[trigger] items[i]) is None,
    ensures
        rewrite_items(table, items) == Ok::<Seq<ModuleItemView>, Seq<char>>(items),
    decreases items.len(),
{
    if items.len() == 0 {
        assert(items =~= Seq::empty());
    } else {
        let front = items.drop_last();
        assert forall|i: int| 0 <= i < front.len() implies rule_of(table, #[trigger] front[i])
            is None by {
            assert(front[i] == items[i]);
        }
        unmatched_items_are_kept(table, front);
        assert(rule_of(table, items[items.len() - 1]) is None);
        assert(front + seq![items.last()] =~= items);
    }
}

/// With an empty table every module is rewritten to itself.
pub proof fn empty_table_is_identity(table: Map<Seq<char>, RuleView>, items: Seq<ModuleItemView>)
    requires
        table.dom() =~= Set::empty(),
    ensures
        rewrite_items(table, items) == Ok::<Seq<ModuleItemView>, Seq<char>>(items),
{
    unmatched_items_are_kept(table, items);
}

/// A named specifier that is turned into a default import keeps its local
/// name: under a rule that converts to default imports, the primary import
/// of `import { A as B }` binds `B`.
pub proof fn alias_is_preserved(
    rule: RuleView,
    decl: ImportDeclView,
    specifier: ImportNamedSpecifierView,
)
    requires
        !rule.skip_default_conversion,
    ensures
        expand_specifier(rule, decl, ImportSpecifierView::Named(specifier))[0]
            == primary_import(rule, decl, specifier),
        primary_import(rule, decl, specifier) is Import,
        primary_import(rule, decl, specifier)->Import_0.specifiers.len() == 1,
        primary_import(rule, decl, specifier)->Import_0.specifiers[0] is Default,
        primary_import(rule, decl, specifier)->Import_0.specifiers[0]->Default_0.local
            == specifier.local,
{
}

/// The local name of a specifier is kept whatever the rule: the primary
/// import of a named specifier binds the specifier's local name.
pub proof fn local_name_is_preserved(rule: RuleView, specifier: ImportNamedSpecifierView)
    ensures
        primary_specifier(rule, specifier) is Named ==> primary_specifier(
            rule,
            specifier,
        )->Named_0.local == specifier.local,
        primary_specifier(rule, specifier) is Default ==> primary_specifier(
            rule,
            specifier,
        )->Default_0.local == specifier.local,
        !(primary_specifier(rule, specifier) is Namespace),
{
}

/// The expansion keeps the order of the specifiers: what replaces a list of
/// specifiers is what replaces its front part followed by what replaces the
/// rest, wherever the list is parted.
pub proof fn expansion_keeps_order(
    rule: RuleView,
    decl: ImportDeclView,
    front: Seq<ImportSpecifierView>,
    rest: Seq<ImportSpecifierView>,
)
    ensures
        expand_specifiers(rule, decl, front + rest) == expand_specifiers(rule, decl, front)
            + expand_specifiers(rule, decl, rest),
    decreases rest.len(),
{
    if rest.len() == 0 {
        assert(front + rest =~= front);
        assert(expand_specifiers(rule, decl, front) + Seq::<ModuleItemView>::empty()
            =~= expand_specifiers(rule, decl, front));
    } else {
        expansion_keeps_order(rule, decl, front, rest.drop_last());
        assert((front + rest).drop_last() =~= front + rest.drop_last());
        let a = expand_specifiers(rule, decl, front);
        let b = expand_specifiers(rule, decl, rest.drop_last());
        let c = expand_specifier(rule, decl, rest.last());
        assert((a + b) + c =~= a + (b + c));
    }
}

/// What replaces specifier `k` of a declaration stands, unbroken, right
/// after what replaces the specifiers before it and right before what
/// replaces those after it.
pub proof fn expansion_of_each_specifier_is_in_place(rule: RuleView, decl: ImportDeclView, k: int)
    requires
        0 <= k < decl.specifiers.len(),
    ensures
        expand_import(rule, decl) == expand_specifiers(rule, decl, decl.specifiers.take(k))
            + expand_specifier(rule, decl, decl.specifiers[k]) + expand_specifiers(
            rule,
            decl,
            decl.specifiers.skip(k + 1),
        ),
{
    let specifiers = decl.specifiers;
    let upto = specifiers.take(k + 1);
    assert(upto + specifiers.skip(k + 1) =~= specifiers);
    expansion_keeps_order(rule, decl, upto, specifiers.skip(k + 1));
    assert(upto.drop_last() =~= specifiers.take(k));
}

/// Under a rule with a style template, named specifiers become, for each
/// specifier in order, its primary import followed at once by its style
/// import.
pub proof fn named_imports_with_style_alternate(
    rule: RuleView,
    decl: ImportDeclView,
    style: Seq<char>,
    specifiers: Seq<ImportSpecifierView>,
)
    requires
        rule.style == Some(style),
        forall|k: int| 0 <= k < specifiers.len() ==> #[trigger] specifiers[k] is Named,
    ensures
        expand_specifiers(rule, decl, specifiers).len() == 2 * specifiers.len(),
        forall|k: int|
            0 <= k < specifiers.len() ==> #[trigger] expand_specifiers(rule, decl, specifiers)[2
                * k] == primary_import(rule, decl, specifiers[k]->Named_0) && expand_specifiers(
                rule,
                decl,
                specifiers,
            )[2 * k + 1] == style_import(style, rule, decl, specifiers[k]->Named_0),
    decreases specifiers.len(),
{
    if specifiers.len() > 0 {
        let n = specifiers.len() as int;
        let front = specifiers.drop_last();
        named_imports_with_style_alternate(rule, decl, style, front);
        assert(specifiers[n - 1] is Named);
        let all = expand_specifiers(rule, decl, specifiers);
        let before = expand_specifiers(rule, decl, front);
        assert forall|k: int| 0 <= k < n implies {
            &&& #[trigger] all[2 * k] == primary_import(rule, decl, specifiers[k]->Named_0)
            &&& all[2 * k + 1] == style_import(style, rule, decl, specifiers[k]->Named_0)
        } by {
            if k < n - 1 {
                assert(front[k] == specifiers[k]);
                assert(all[2 * k] == before[2 * k]);
                assert(all[2 * k + 1] == before[2 * k + 1]);
            }
        }
    }
}

/// Under a rule without a style template, named specifiers become one
/// primary import each, in order.
pub proof fn named_imports_without_style_follow(
    rule: RuleView,
    decl: ImportDeclView,
    specifiers: Seq<ImportSpecifierView>,
)
    requires
        rule.style is None,
        forall|k: int| 0 <= k < specifiers.len() ==> #[trigger] specifiers[k] is Named,
    ensures
        expand_specifiers(rule, decl, specifiers).len() == specifiers.len(),
        forall|k: int|
            0 <= k < specifiers.len() ==> #[trigger] expand_specifiers(rule, decl, specifiers)[k]
                == primary_import(rule, decl, specifiers[k]->Named_0),
    decreases specifiers.len(),
{
    if specifiers.len() > 0 {
        let n = specifiers.len() as int;
        let front = specifiers.drop_last();
        named_imports_without_style_follow(rule, decl, front);
        assert(specifiers[n - 1] is Named);
        let all = expand_specifiers(rule, decl, specifiers);
        let before = expand_specifiers(rule, decl, front);
        assert forall|k: int| 0 <= k < n implies #[trigger] all[k] == primary_import(
            rule,
            decl,
            specifiers[k]->Named_0,
        ) by {
            if k < n - 1 {
                assert(front[k] == specifiers[k]);
                assert(all[k] == before[k]);
            }
        }
    }
}

/// A default or namespace import of a package whose rule forbids
/// whole-module imports makes the rewrite fail, wherever in the module it
/// stands.
pub proof fn full_import_is_fatal(
    table: Map<Seq<char>, RuleView>,
    items: Seq<ModuleItemView>,
    i: int,
    k: int,
)
    requires
        0 <= i < items.len(),
        items[i] is Import,
        table.contains_key(items[i]->Import_0.src.value),
        table[items[i]->Import_0.src.value].prevent_full_import,
        0 <= k < items[i]->Import_0.specifiers.len(),
        items[i]->Import_0.specifiers[k] is Default || items[i]->Import_0.specifiers[k]
            is Namespace,
    ensures
        rewrite_items(table, items) is Err,
    decreases items.len(),
{
    assert(is_full_import(items[i]->Import_0.specifiers[k]));
    assert(violation_of(table, items[i]) is Some);
    if i < items.len() - 1 {
        assert(items.drop_last()[i] == items[i]);
        full_import_is_fatal(table, items.drop_last(), i, k);
    }
}

/// A failed rewrite names the package of the first item that the table
/// forbids; a rewrite succeeds exactly when the table forbids no item.
pub proof fn failure_names_first_violation(
    table: Map<Seq<char>, RuleView>,
    items: Seq<ModuleItemView>,
)
    ensures
        rewrite_items(table, items) is Err ==> exists|i: int|
            0 <= i < items.len() && #[trigger] violation_of(table, items[i]) == Some(
                rewrite_items(table, items)->Err_0,
            ) && forall|j: int| 0 <= j < i ==> violation_of(table, #[trigger] items[j]) is None,
        rewrite_items(table, items) is Ok ==> forall|i: int|
            0 <= i < items.len() ==> violation_of(table, #[trigger] items[i]) is None,
    decreases items.len(),
{
    if items.len() > 0 {
        let front = items.drop_last();
        failure_names_first_violation(table, front);
        assert(forall|i: int| 0 <= i < front.len() ==> front[i] == items[i]);
        match rewrite_items(table, front) {
            Err(package) => {
                let i = choose|i: int|
                    0 <= i < front.len() && #[trigger] violation_of(table, front[i]) == Some(
                        package,
                    ) && forall|j: int|
                        0 <= j < i ==> violation_of(table, #[trigger] front[j]) is None;
                assert(violation_of(table, items[i]) == Some(package));
                assert forall|j: int| 0 <= j < i implies violation_of(table, #[trigger] items[j])
                    is None by {
                    assert(front[j] == items[j]);
                }
            },
            Ok(_) => {
                let last = items.len() - 1;
                assert forall|j: int| 0 <= j < last implies violation_of(
                    table,
                    #[trigger] items[j],
                ) is None by {
                    assert(front[j] == items[j]);
                }
                match violation_of(table, items.last()) {
                    Some(package) => {
                        assert(violation_of(table, items[last]) == Some(package));
                    },
                    None => {
                        assert forall|j: int| 0 <= j < items.len() implies violation_of(
                            table,
                            #[trigger] items[j],
                        ) is None by {
                            if j < last {
                                assert(front[j] == items[j]);
                            }
                        }
                    },
                }
            },
        }
    }
}

} // verus!

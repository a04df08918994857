use transform_imports::ast::{
    Ident, ImportDecl, ImportDefaultSpecifier, ImportNamedSpecifier, ImportPhase,
    ImportSpecifier, ImportStarAsSpecifier, ModuleExportName, ModuleItem, NodeId, Span, Str,
};
use transform_imports::{
    process_transform, transform_import_path, FullImportViolation, TransformMember,
    TransformVisitor, TransformVisitorConfigs, TransformVisitorSubConfig,
};

fn sp(lo: u32, hi: u32) -> Span {
    Span { lo, hi }
}

fn ident(name: &str, lo: u32) -> Ident {
    Ident { span: sp(lo, lo + name.len() as u32), ctxt: 0, sym: name.to_string(), optional: false }
}

fn lit(value: &str, lo: u32) -> Str {
    Str {
        span: sp(lo, lo + value.len() as u32 + 2),
        value: value.to_string(),
        raw: Some(format!("\"{}\"", value)),
    }
}

fn named(local: &str, lo: u32) -> ImportSpecifier {
    let id = ident(local, lo);
    ImportSpecifier::Named(ImportNamedSpecifier {
        span: id.span,
        local: id,
        imported: None,
        is_type_only: false,
    })
}

fn named_as(imported: &str, local: &str, lo: u32) -> ImportSpecifier {
    let imp = ident(imported, lo);
    let loc = ident(local, imp.span.hi + 4);
    ImportSpecifier::Named(ImportNamedSpecifier {
        span: sp(imp.span.lo, loc.span.hi),
        local: loc,
        imported: Some(ModuleExportName::Ident(imp)),
        is_type_only: false,
    })
}

fn default(local: &str, lo: u32) -> ImportSpecifier {
    let id = ident(local, lo);
    ImportSpecifier::Default(ImportDefaultSpecifier { span: id.span, local: id })
}

fn namespace(local: &str, lo: u32) -> ImportSpecifier {
    let id = ident(local, lo + 5);
    ImportSpecifier::Namespace(ImportStarAsSpecifier { span: sp(lo, id.span.hi), local: id })
}

fn import(specifiers: Vec<ImportSpecifier>, package: &str) -> ImportDecl {
    ImportDecl {
        span: sp(0, 100),
        specifiers,
        src: lit(package, 80),
        type_only: false,
        with: None,
        phase: ImportPhase::Evaluation,
    }
}

fn rewritten_decl(from: &ImportDecl, specifiers: Vec<ImportSpecifier>, path: &str) -> ModuleItem {
    ModuleItem::Import(ImportDecl {
        span: from.span,
        specifiers,
        src: Str { span: from.src.span, value: path.to_string(), raw: None },
        type_only: from.type_only,
        with: from.with,
        phase: from.phase,
    })
}

fn style_decl(from: &ImportDecl, path: &str) -> ModuleItem {
    ModuleItem::Import(ImportDecl {
        span: from.span,
        specifiers: vec![],
        src: Str { span: from.src.span, value: path.to_string(), raw: None },
        type_only: false,
        with: from.with,
        phase: from.phase,
    })
}

fn as_default(spec: &ImportSpecifier) -> ImportSpecifier {
    match spec {
        ImportSpecifier::Named(n) => ImportSpecifier::Default(ImportDefaultSpecifier {
            span: n.span,
            local: n.local.clone(),
        }),
        other => other.clone(),
    }
}

fn antd_rule() -> TransformVisitorSubConfig {
    TransformVisitorSubConfig {
        transform: "antd/es/${member}".to_string(),
        skip_default_conversion: false,
        prevent_full_import: true,
        style: Some("antd/es/${member}/style".to_string()),
        member_transformers: vec![TransformMember::DashedCase],
    }
}

fn table(rules: Vec<(&str, TransformVisitorSubConfig)>) -> TransformVisitorConfigs {
    let mut configs = TransformVisitorConfigs::new();
    for (package, rule) in rules {
        configs.insert(package.to_string(), rule);
    }
    configs
}

fn rewrite(
    rules: Vec<(&str, TransformVisitorSubConfig)>,
    items: Vec<ModuleItem>,
) -> Result<Vec<ModuleItem>, FullImportViolation> {
    let mut visitor = TransformVisitor { configs: table(rules) };
    let mut nodes = items;
    visitor.visit_mut_module_items(&mut nodes).map(|()| nodes)
}

#[test]
fn source_member_name_is_the_local_name_without_alias() {
    match named("Button", 9) {
        ImportSpecifier::Named(n) => assert_eq!(n.source_member_name(), "Button"),
        _ => unreachable!(),
    }
}

#[test]
fn source_member_name_is_the_imported_identifier() {
    match named_as("Button", "MyButton", 9) {
        ImportSpecifier::Named(n) => assert_eq!(n.source_member_name(), "Button"),
        _ => unreachable!(),
    }
}

#[test]
fn source_member_name_is_the_imported_string() {
    let spec = ImportNamedSpecifier {
        span: sp(9, 30),
        local: ident("Button", 24),
        imported: Some(ModuleExportName::Str(lit("my button", 9))),
        is_type_only: false,
    };
    assert_eq!(spec.source_member_name(), "my button");
}

#[test]
fn import_path_formats_and_substitutes() {
    let raw = lit("antd", 80);
    let path = transform_import_path(
        "antd/es/${member}",
        "MyButton",
        &raw,
        &[TransformMember::DashedCase],
    );
    assert_eq!(
        path,
        Str { span: raw.span, value: "antd/es/my-button".to_string(), raw: None }
    );
}

#[test]
fn import_path_without_transformers_keeps_the_name() {
    let raw = lit("lodash", 10);
    let path = transform_import_path("lodash/${member}", "cloneDeep", &raw, &[]);
    assert_eq!(path.value, "lodash/cloneDeep");
    assert_eq!(path.span, raw.span);
    assert_eq!(path.raw, None);
}

#[test]
fn import_of_unconfigured_package_is_kept() {
    let decl = import(vec![named_as("MyButton", "NewButton", 9), default("All", 1)], "abc");
    let items = vec![ModuleItem::Import(decl.clone())];
    assert_eq!(rewrite(vec![("antd", antd_rule())], items), Ok(vec![ModuleItem::Import(decl)]));
}

#[test]
fn other_items_are_kept_in_place() {
    let decl = import(vec![named("Button", 9)], "antd");
    let items = vec![
        ModuleItem::Other(NodeId(7)),
        ModuleItem::Import(decl.clone()),
        ModuleItem::Other(NodeId(3)),
        ModuleItem::Other(NodeId(7)),
    ];
    let out = rewrite(vec![("antd", antd_rule())], items).unwrap();
    assert_eq!(
        out,
        vec![
            ModuleItem::Other(NodeId(7)),
            rewritten_decl(&decl, vec![as_default(&decl.specifiers[0])], "antd/es/button"),
            style_decl(&decl, "antd/es/button/style"),
            ModuleItem::Other(NodeId(3)),
            ModuleItem::Other(NodeId(7)),
        ]
    );
}

#[test]
fn empty_table_is_a_no_op() {
    let items = vec![
        ModuleItem::Import(import(vec![default("antd", 7)], "antd")),
        ModuleItem::Other(NodeId(1)),
        ModuleItem::Import(import(vec![named("Button", 9), namespace("all", 20)], "antd")),
        ModuleItem::Import(import(vec![], "side-effect")),
    ];
    assert_eq!(rewrite(vec![], items.clone()), Ok(items));
}

#[test]
fn empty_module_stays_empty() {
    assert_eq!(rewrite(vec![("antd", antd_rule())], vec![]), Ok(vec![]));
    assert_eq!(rewrite(vec![], vec![]), Ok(vec![]));
}

#[test]
fn alias_binds_the_local_name() {
    let decl = import(vec![named_as("A", "B", 9)], "pkg");
    let rule = TransformVisitorSubConfig {
        transform: "pkg/${member}".to_string(),
        skip_default_conversion: false,
        prevent_full_import: true,
        style: None,
        member_transformers: vec![],
    };
    let out = rewrite(vec![("pkg", rule)], vec![ModuleItem::Import(decl)]).unwrap();
    assert_eq!(out.len(), 1);
    match &out[0] {
        ModuleItem::Import(d) => {
            assert_eq!(d.src.value, "pkg/A");
            assert_eq!(d.specifiers.len(), 1);
            match &d.specifiers[0] {
                ImportSpecifier::Default(s) => {
                    assert_eq!(s.local.sym, "B");
                    assert_ne!(s.local.sym, "A");
                }
                _ => panic!("not a default import"),
            }
        }
        _ => panic!("not an import"),
    }
}

#[test]
fn string_named_member_is_resolved() {
    let spec = ImportSpecifier::Named(ImportNamedSpecifier {
        span: sp(9, 30),
        local: ident("Picker", 24),
        imported: Some(ModuleExportName::Str(lit("DatePicker", 9))),
        is_type_only: false,
    });
    let decl = import(vec![spec.clone()], "antd");
    let out = rewrite(vec![("antd", antd_rule())], vec![ModuleItem::Import(decl.clone())]).unwrap();
    assert_eq!(
        out,
        vec![
            rewritten_decl(&decl, vec![as_default(&spec)], "antd/es/date-picker"),
            style_decl(&decl, "antd/es/date-picker/style"),
        ]
    );
}

#[test]
fn specifiers_keep_their_order_with_style() {
    let specs = vec![named("Button", 9), named_as("DatePicker", "Picker", 17), named("Col", 40)];
    let decl = import(specs.clone(), "antd");
    let out = rewrite(vec![("antd", antd_rule())], vec![ModuleItem::Import(decl.clone())]).unwrap();
    assert_eq!(
        out,
        vec![
            rewritten_decl(&decl, vec![as_default(&specs[0])], "antd/es/button"),
            style_decl(&decl, "antd/es/button/style"),
            rewritten_decl(&decl, vec![as_default(&specs[1])], "antd/es/date-picker"),
            style_decl(&decl, "antd/es/date-picker/style"),
            rewritten_decl(&decl, vec![as_default(&specs[2])], "antd/es/col"),
            style_decl(&decl, "antd/es/col/style"),
        ]
    );
}

#[test]
fn specifiers_keep_their_order_without_style() {
    let specs = vec![named("map", 9), named("filter", 14), named_as("reduce", "fold", 22)];
    let decl = import(specs.clone(), "lodash");
    let rule = TransformVisitorSubConfig {
        transform: "lodash/${member}".to_string(),
        skip_default_conversion: false,
        prevent_full_import: true,
        style: None,
        member_transformers: vec![],
    };
    let out = rewrite(vec![("lodash", rule)], vec![ModuleItem::Import(decl.clone())]).unwrap();
    assert_eq!(
        out,
        vec![
            rewritten_decl(&decl, vec![as_default(&specs[0])], "lodash/map"),
            rewritten_decl(&decl, vec![as_default(&specs[1])], "lodash/filter"),
            rewritten_decl(&decl, vec![as_default(&specs[2])], "lodash/reduce"),
        ]
    );
}

#[test]
fn skipping_default_conversion_keeps_the_named_specifier() {
    let mut spec = named_as("MyButton", "NewButton", 9);
    if let ImportSpecifier::Named(n) = &mut spec {
        n.is_type_only = true;
    }
    let decl = import(vec![spec.clone()], "antd");
    let mut rule = antd_rule();
    rule.skip_default_conversion = true;
    let out = rewrite(vec![("antd", rule)], vec![ModuleItem::Import(decl.clone())]).unwrap();
    assert_eq!(
        out,
        vec![
            rewritten_decl(&decl, vec![spec], "antd/es/my-button"),
            style_decl(&decl, "antd/es/my-button/style"),
        ]
    );
}

#[test]
fn declaration_metadata_is_copied() {
    let mut decl = import(vec![named("Button", 9)], "antd");
    decl.type_only = true;
    decl.with = Some(NodeId(42));
    decl.phase = ImportPhase::Defer;
    decl.span = sp(5, 55);
    let out = rewrite(vec![("antd", antd_rule())], vec![ModuleItem::Import(decl.clone())]).unwrap();
    assert_eq!(
        out,
        vec![
            ModuleItem::Import(ImportDecl {
                span: sp(5, 55),
                specifiers: vec![as_default(&decl.specifiers[0])],
                src: Str { span: decl.src.span, value: "antd/es/button".to_string(), raw: None },
                type_only: true,
                with: Some(NodeId(42)),
                phase: ImportPhase::Defer,
            }),
            ModuleItem::Import(ImportDecl {
                span: sp(5, 55),
                specifiers: vec![],
                src: Str {
                    span: decl.src.span,
                    value: "antd/es/button/style".to_string(),
                    raw: None
                },
                type_only: false,
                with: Some(NodeId(42)),
                phase: ImportPhase::Defer,
            }),
        ]
    );
}

#[test]
fn default_import_of_configured_package_is_fatal() {
    let items = vec![ModuleItem::Import(import(vec![default("antd", 7)], "antd"))];
    let mut visitor = TransformVisitor { configs: table(vec![("antd", antd_rule())]) };
    let mut nodes = items.clone();
    let res = visitor.visit_mut_module_items(&mut nodes);
    assert_eq!(res, Err(FullImportViolation { package: "antd".to_string() }));
    assert_eq!(nodes, items);
}

#[test]
fn namespace_import_of_configured_package_is_fatal() {
    let items = vec![ModuleItem::Import(import(vec![namespace("antd", 7)], "antd"))];
    assert_eq!(
        rewrite(vec![("antd", antd_rule())], items),
        Err(FullImportViolation { package: "antd".to_string() })
    );
}

#[test]
fn violation_leaves_no_partial_output() {
    let items = vec![
        ModuleItem::Import(import(vec![named("Button", 9)], "antd")),
        ModuleItem::Other(NodeId(0)),
        ModuleItem::Import(import(vec![named("Col", 9), default("antd", 14)], "antd")),
        ModuleItem::Import(import(vec![named("Row", 9)], "antd")),
    ];
    let mut visitor = TransformVisitor { configs: table(vec![("antd", antd_rule())]) };
    let mut nodes = items.clone();
    let res = visitor.visit_mut_module_items(&mut nodes);
    assert_eq!(res, Err(FullImportViolation { package: "antd".to_string() }));
    assert_eq!(nodes, items);
}

#[test]
fn first_violation_is_reported() {
    let lodash = TransformVisitorSubConfig {
        transform: "lodash/${member}".to_string(),
        skip_default_conversion: false,
        prevent_full_import: true,
        style: None,
        member_transformers: vec![],
    };
    let items = vec![
        ModuleItem::Import(import(vec![named("Button", 9)], "antd")),
        ModuleItem::Import(import(vec![namespace("_", 7)], "lodash")),
        ModuleItem::Import(import(vec![default("antd", 7)], "antd")),
    ];
    assert_eq!(
        rewrite(vec![("antd", antd_rule()), ("lodash", lodash)], items),
        Err(FullImportViolation { package: "lodash".to_string() })
    );
}

#[test]
fn violation_message_names_the_package() {
    let violation = FullImportViolation { package: "antd".to_string() };
    assert_eq!(
        violation.message(),
        "Import of entire module 'antd' not allowed due to preventFullImport setting"
    );
}

#[test]
fn full_import_passes_where_the_rule_allows_it() {
    let specs = vec![default("antd", 7), named("Button", 15), namespace("all", 30)];
    let mut decl = import(specs.clone(), "antd");
    decl.type_only = true;
    let mut rule = antd_rule();
    rule.prevent_full_import = false;
    rule.style = None;
    let out = rewrite(vec![("antd", rule)], vec![ModuleItem::Import(decl.clone())]).unwrap();
    let alone = |spec: &ImportSpecifier| {
        ModuleItem::Import(ImportDecl {
            span: decl.span,
            specifiers: vec![spec.clone()],
            src: decl.src.clone(),
            type_only: decl.type_only,
            with: decl.with,
            phase: decl.phase,
        })
    };
    assert_eq!(
        out,
        vec![
            alone(&specs[0]),
            rewritten_decl(&decl, vec![as_default(&specs[1])], "antd/es/button"),
            alone(&specs[2]),
        ]
    );
}

#[test]
fn full_import_of_unconfigured_package_passes() {
    let items = vec![
        ModuleItem::Import(import(vec![default("React", 7)], "react")),
        ModuleItem::Import(import(vec![namespace("path", 7)], "path")),
    ];
    assert_eq!(rewrite(vec![("antd", antd_rule())], items.clone()), Ok(items));
}

#[test]
fn configured_import_without_specifiers_is_dropped() {
    let items = vec![
        ModuleItem::Other(NodeId(1)),
        ModuleItem::Import(import(vec![], "antd")),
        ModuleItem::Other(NodeId(2)),
    ];
    assert_eq!(
        rewrite(vec![("antd", antd_rule())], items),
        Ok(vec![ModuleItem::Other(NodeId(1)), ModuleItem::Other(NodeId(2))])
    );
}

#[test]
fn inert_template_is_not_an_error() {
    let decl = import(vec![named("Button", 9), named("Col", 17)], "antd");
    let rule = TransformVisitorSubConfig {
        transform: "antd/lib".to_string(),
        skip_default_conversion: false,
        prevent_full_import: true,
        style: None,
        member_transformers: vec![TransformMember::KebabCase],
    };
    let out = rewrite(vec![("antd", rule)], vec![ModuleItem::Import(decl.clone())]).unwrap();
    assert_eq!(
        out,
        vec![
            rewritten_decl(&decl, vec![as_default(&decl.specifiers[0])], "antd/lib"),
            rewritten_decl(&decl, vec![as_default(&decl.specifiers[1])], "antd/lib"),
        ]
    );
}

#[test]
fn each_package_uses_its_own_rule() {
    let lodash = TransformVisitorSubConfig {
        transform: "lodash/${member}".to_string(),
        skip_default_conversion: false,
        prevent_full_import: true,
        style: None,
        member_transformers: vec![TransformMember::CamelCase],
    };
    let a = import(vec![named("DatePicker", 9)], "antd");
    let l = import(vec![named("clone_deep", 9)], "lodash");
    let out = rewrite(
        vec![("antd", antd_rule()), ("lodash", lodash)],
        vec![ModuleItem::Import(l.clone()), ModuleItem::Import(a.clone())],
    )
    .unwrap();
    assert_eq!(
        out,
        vec![
            rewritten_decl(&l, vec![as_default(&l.specifiers[0])], "lodash/cloneDeep"),
            rewritten_decl(&a, vec![as_default(&a.specifiers[0])], "antd/es/date-picker"),
            style_decl(&a, "antd/es/date-picker/style"),
        ]
    );
}

#[test]
fn second_pass_over_rewritten_output_changes_nothing() {
    let decl = import(vec![named("Button", 9), named("Col", 17)], "antd");
    let first = rewrite(vec![("antd", antd_rule())], vec![ModuleItem::Import(decl)]).unwrap();
    let second = rewrite(vec![("antd", antd_rule())], first.clone()).unwrap();
    assert_eq!(second, first);
}

#[test]
fn process_transform_without_configuration_is_identity() {
    let items = vec![
        ModuleItem::Import(import(vec![default("antd", 7), named("Button", 15)], "antd")),
        ModuleItem::Other(NodeId(9)),
    ];
    assert_eq!(process_transform(items.clone(), None), Ok(items));
}

#[test]
fn process_transform_applies_the_configuration() {
    let decl = import(vec![named("MyButton", 9)], "antd");
    let out = process_transform(
        vec![ModuleItem::Import(decl.clone()), ModuleItem::Other(NodeId(1))],
        Some(table(vec![("antd", antd_rule())])),
    );
    assert_eq!(
        out,
        Ok(vec![
            rewritten_decl(&decl, vec![as_default(&decl.specifiers[0])], "antd/es/my-button"),
            style_decl(&decl, "antd/es/my-button/style"),
            ModuleItem::Other(NodeId(1)),
        ])
    );
}

#[test]
fn process_transform_reports_a_violation() {
    let items = vec![ModuleItem::Import(import(vec![namespace("antd", 7)], "antd"))];
    assert_eq!(
        process_transform(items, Some(table(vec![("antd", antd_rule())]))),
        Err(FullImportViolation { package: "antd".to_string() })
    );
}

#[test]
fn clones_equal_what_they_copy() {
    let mut decl = import(
        vec![named_as("A", "B", 9), default("D", 1), namespace("N", 30), named("C", 40)],
        "pkg",
    );
    decl.with = Some(NodeId(5));
    decl.phase = ImportPhase::Source;
    let item = ModuleItem::Import(decl);
    assert_eq!(item.clone(), item);
    let other = ModuleItem::Other(NodeId(11));
    assert_eq!(other.clone(), other);
}

#[test]
fn odd_member_names_are_accepted() {
    for name in ["", "$", "a-b_c", "été", "x1"] {
        let decl = import(vec![named(name, 9)], "antd");
        let out =
            rewrite(vec![("antd", antd_rule())], vec![ModuleItem::Import(decl.clone())]).unwrap();
        let member = TransformMember::DashedCase.apply(name);
        assert_eq!(
            out,
            vec![
                rewritten_decl(
                    &decl,
                    vec![as_default(&decl.specifiers[0])],
                    &format!("antd/es/{}", member)
                ),
                style_decl(&decl, &format!("antd/es/{}/style", member)),
            ]
        );
    }
}

//! Rewrite rules and the table that holds one rule per package.

use vstd::hash_map::StringHashMap;
use vstd::prelude::*;
use vstd::string::StringExecFns;

use crate::case::TransformMember;

verus! {

/// The rewrite rule of one package.
#[derive(Debug, PartialEq, Eq)]
pub struct TransformVisitorSubConfig {
    /// The path template of the rewritten imports; `${member}` stands for
    /// the member's name.
    pub transform: String,
    /// Keep the named form of a rewritten specifier instead of turning it
    /// into a default import.
    pub skip_default_conversion: bool,
    /// Refuse default and namespace imports of the package.
    pub prevent_full_import: bool,
    /// The path template of a side-effect import that follows each rewritten
    /// member.
    pub style: Option<String>,
    /// The naming conventions applied to a member's name, from left to
    /// right, before it enters a template.
    pub member_transformers: Vec<TransformMember>,
}

/// What a rule stands for in contracts.
pub struct RuleView {
    pub transform: Seq<char>,
    pub skip_default_conversion: bool,
    pub prevent_full_import: bool,
    pub style: Option<Seq<char>>,
    pub member_transformers: Seq<TransformMember>,
}

impl View for TransformVisitorSubConfig {
    type V = RuleView;

    open spec fn view(&self) -> RuleView {
        RuleView {
            transform: self.transform@,
            skip_default_conversion: self.skip_default_conversion,
            prevent_full_import: self.prevent_full_import,
            style: optional_text(self.style),
            member_transformers: self.member_transformers@,
        }
    }
}

/// Why a configuration is not a rule.
#[derive(Debug, PartialEq, Eq)]
pub enum ConfigParseError {
    /// The rule has no `transform` template.
    MissingTransform,
    /// A member transformer has a name that stands for no naming
    /// convention.
    UnknownMemberTransformer(String),
}

/// What a [`ConfigParseError`] stands for in contracts.
pub enum ConfigParseErrorView {
    MissingTransform,
    UnknownMemberTransformer(Seq<char>),
}

impl View for ConfigParseError {
    type V = ConfigParseErrorView;

    open spec fn view(&self) -> ConfigParseErrorView {
        match self {
            ConfigParseError::MissingTransform => ConfigParseErrorView::MissingTransform,
            ConfigParseError::UnknownMemberTransformer(name) =>
                ConfigParseErrorView::UnknownMemberTransformer(name@),
        }
    }
}

/// The text that reports `error`.
pub open spec fn config_error_message(error: ConfigParseErrorView) -> Seq<char> {
    match error {
        ConfigParseErrorView::MissingTransform => "missing field `transform`"@,
        ConfigParseErrorView::UnknownMemberTransformer(name) => "unknown member transformer `"@
            + name + "`"@,
    }
}

impl ConfigParseError {
    /// A text that reports the error.
    pub fn message(&self) -> (res: String)
        ensures
            res@ == config_error_message(self@),
    {
        match self {
            ConfigParseError::MissingTransform => String::from_str("missing field `transform`"),
            ConfigParseError::UnknownMemberTransformer(name) => {
                let mut text = String::from_str("unknown member transformer `");
                text.append(name.as_str());
                text.append("`");
                text
            },
        }
    }
}

/// What an optional text stands for in contracts.
pub open spec fn optional_text(text: Option<String>) -> Option<Seq<char>> {
    match text {
        Some(t) => Some(t@),
        None => None,
    }
}

/// What an optional list of names stands for in contracts.
pub open spec fn optional_names(names: Option<Vec<String>>) -> Option<Seq<Seq<char>>> {
    match names {
        Some(n) => Some(name_views(n@)),
        None => None,
    }
}

/// What the outcome of reading a configuration entry stands for in
/// contracts.
pub open spec fn outcome_view(outcome: Result<TransformVisitorSubConfig, ConfigParseError>) -> Result<
    RuleView,
    ConfigParseErrorView,
> {
    match outcome {
        Ok(config) => Ok(config@),
        Err(error) => Err(error@),
    }
}

/// The views of a list of names, in order.
pub open spec fn name_views(names: Seq<String>) -> Seq<Seq<char>> {
    names.map_values(|n: String| n@)
}

/// The naming conventions that `names` stand for, in order; or the first
/// name that stands for none.
pub open spec fn members_named(names: Seq<Seq<char>>) -> Result<Seq<TransformMember>, Seq<char>>
    decreases names.len(),
{
    if names.len() == 0 {
        Ok(Seq::empty())
    } else {
        match members_named(names.drop_last()) {
            Err(name) => Err(name),
            Ok(members) => match TransformMember::spec_from_wire_name(names.last()) {
                Some(member) => Ok(members.push(member)),
                None => Err(names.last()),
            },
        }
    }
}

/// The rule that the fields of a configuration entry describe. A field that
/// is absent takes its default: named imports are converted to default
/// imports, whole-module imports are forbidden, there is no style import, and
/// no naming convention is applied. The `transform` template has no default.
pub open spec fn rule_from_wire(
    transform: Option<Seq<char>>,
    skip_default_conversion: Option<bool>,
    prevent_full_import: Option<bool>,
    style: Option<Seq<char>>,
    member_transformers: Option<Seq<Seq<char>>>,
) -> Result<RuleView, ConfigParseErrorView> {
    match transform {
        None => Err(ConfigParseErrorView::MissingTransform),
        Some(transform) => {
            let names = match member_transformers {
                Some(names) => names,
                None => Seq::empty(),
            };
            match members_named(names) {
                Err(name) => Err(ConfigParseErrorView::UnknownMemberTransformer(name)),
                Ok(members) => Ok(
                    RuleView {
                        transform,
                        skip_default_conversion: match skip_default_conversion {
                            Some(b) => b,
                            None => false,
                        },
                        prevent_full_import: match prevent_full_import {
                            Some(b) => b,
                            None => true,
                        },
                        style,
                        member_transformers: members,
                    },
                ),
            }
        },
    }
}

/// Once a prefix of the names fails, the whole list fails with the same
/// name.
proof fn members_named_fails_with_prefix(names: Seq<Seq<char>>, k: int)
    requires
        0 <= k <= names.len(),
        members_named(names.take(k)) is Err,
    ensures
        members_named(names) == members_named(names.take(k)),
    decreases names.len() - k,
{
    if k == names.len() {
        assert(names.take(k) =~= names);
    } else {
        assert(names.take(k + 1).drop_last() =~= names.take(k));
        members_named_fails_with_prefix(names, k + 1);
    }
}

/// Reads a list of naming conventions by their configuration names.
pub fn parse_member_transformers(names: &Vec<String>) -> (res: Result<
    Vec<TransformMember>,
    ConfigParseError,
>)
    ensures
        members_named(name_views(names@)) is Ok ==> res is Ok && res->Ok_0@ == members_named(
            name_views(names@),
        )->Ok_0,
        members_named(name_views(names@)) is Err ==> res is Err && res->Err_0@
            == ConfigParseErrorView::UnknownMemberTransformer(
            members_named(name_views(names@))->Err_0,
        ),
{
    let ghost all = name_views(names@);
    let mut members: Vec<TransformMember> = Vec::new();
    let mut i: usize = 0;
    proof {
        assert(all.take(0) =~= Seq::<Seq<char>>::empty());
    }
    while i < names.len()
        invariant
            i <= names.len(),
            all == name_views(names@),
            members_named(all.take(i as int)) == Ok::<Seq<TransformMember>, Seq<char>>(members@),
        decreases names.len() - i,
    {
        proof {
            assert(all.take(i + 1).drop_last() =~= all.take(i as int));
            assert(all.take(i + 1).last() == names[i as int]@);
        }
        match TransformMember::from_wire_name(names[i].as_str()) {
            Some(member) => {
                members.push(member);
            },
            None => {
                proof {
                    members_named_fails_with_prefix(all, i + 1);
                }
                return Err(ConfigParseError::UnknownMemberTransformer(names[i].clone()));
            },
        }
        i = i + 1;
    }
    proof {
        assert(all.take(i as int) =~= all);
    }
    Ok(members)
}

impl TransformVisitorSubConfig {
    /// Makes a rule from the fields of a configuration entry, each of which
    /// may be absent.
    pub fn from_wire(
        transform: Option<String>,
        skip_default_conversion: Option<bool>,
        prevent_full_import: Option<bool>,
        style: Option<String>,
        member_transformers: Option<Vec<String>>,
    ) -> (res: Result<TransformVisitorSubConfig, ConfigParseError>)
        ensures
            outcome_view(res) == rule_from_wire(
                optional_text(transform),
                skip_default_conversion,
                prevent_full_import,
                optional_text(style),
                optional_names(member_transformers),
            ),
    {
        let transform = match transform {
            Some(t) => t,
            None => {
                return Err(ConfigParseError::MissingTransform);
            },
        };
        let members = match member_transformers {
            Some(names) => match parse_member_transformers(&names) {
                Ok(members) => members,
                Err(e) => {
                    return Err(e);
                },
            },
            None => Vec::new(),
        };
        Ok(
            TransformVisitorSubConfig {
                transform,
                skip_default_conversion: match skip_default_conversion {
                    Some(b) => b,
                    None => false,
                },
                prevent_full_import: match prevent_full_import {
                    Some(b) => b,
                    None => true,
                },
                style,
                member_transformers: members,
            },
        )
    }
}

/// The rules of a compilation unit, by package name.
pub type TransformVisitorConfigs = StringHashMap<TransformVisitorSubConfig>;

/// What an optional table of rules stands for in contracts: without a
/// table there is no rule.
pub open spec fn optional_table_view(table: Option<TransformVisitorConfigs>) -> Map<
    Seq<char>,
    RuleView,
> {
    match table {
        Some(t) => table_view(t@),
        None => Map::empty(),
    }
}

/// What a table of rules stands for in contracts.
pub open spec fn table_view(table: Map<Seq<char>, TransformVisitorSubConfig>) -> Map<
    Seq<char>,
    RuleView,
> {
    table.map_values(|c: TransformVisitorSubConfig| c@)
}

} // verus!

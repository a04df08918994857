//! Naming conventions for member names, and pipelines of them.

use vstd::prelude::*;

use crate::text::str_eq;

verus! {

/// A naming convention that can be applied to a member name.
///
/// `DashedCase` is another name for `KebabCase`.
#[derive(Clone, Copy, Debug, PartialEq, Eq, Structural, Hash)]
pub enum TransformMember {
    CamelCase,
    KebabCase,
    DashedCase,
    PascalCase,
    SnakeCase,
    UpperCase,
    UpperFirst,
    LowerCase,
    LowerFirst,
}

/// The camel-case form of `subject`, as `voca_rs::case::camel_case` computes it.
pub uninterp spec fn camel_cased(subject: Seq<char>) -> Seq<char>;

/// The kebab-case form of `subject`, as `voca_rs::case::kebab_case` computes it.
pub uninterp spec fn kebab_cased(subject: Seq<char>) -> Seq<char>;

/// The pascal-case form of `subject`, as `voca_rs::case::pascal_case` computes it.
pub uninterp spec fn pascal_cased(subject: Seq<char>) -> Seq<char>;

/// The snake-case form of `subject`, as `voca_rs::case::snake_case` computes it.
pub uninterp spec fn snake_cased(subject: Seq<char>) -> Seq<char>;

/// `subject` in upper case, as `voca_rs::case::upper_case` computes it.
pub uninterp spec fn upper_cased(subject: Seq<char>) -> Seq<char>;

/// `subject` with its first character in upper case, as
/// `voca_rs::case::upper_first` computes it.
pub uninterp spec fn upper_firsted(subject: Seq<char>) -> Seq<char>;

/// `subject` in lower case, as `voca_rs::case::lower_case` computes it.
pub uninterp spec fn lower_cased(subject: Seq<char>) -> Seq<char>;

/// `subject` with its first character in lower case, as
/// `voca_rs::case::lower_first` computes it.
pub uninterp spec fn lower_firsted(subject: Seq<char>) -> Seq<char>;

/// `voca_rs::case::camel_case` splits the subject into words and joins them
/// in camel case. It reads nothing but its argument and returns for every
/// string; the contract only gives its result a name.
pub assume_specification[ voca_rs::case::camel_case ](subject: &str) -> (res: String)
    ensures
        res@ == camel_cased(subject@),
;

/// `voca_rs::case::kebab_case` splits the subject into words, lower-cases
/// them and joins them with `-`. It reads nothing but its argument and
/// returns for every string; the contract only gives its result a name.
pub assume_specification[ voca_rs::case::kebab_case ](subject: &str) -> (res: String)
    ensures
        res@ == kebab_cased(subject@),
;

/// `voca_rs::case::pascal_case` splits the subject into words and joins them
/// capitalised. It reads nothing but its argument and returns for every
/// string; the contract only gives its result a name.
pub assume_specification[ voca_rs::case::pascal_case ](subject: &str) -> (res: String)
    ensures
        res@ == pascal_cased(subject@),
;

/// `voca_rs::case::snake_case` splits the subject into words, lower-cases
/// them and joins them with `_`. It reads nothing but its argument and
/// returns for every string; the contract only gives its result a name.
pub assume_specification[ voca_rs::case::snake_case ](subject: &str) -> (res: String)
    ensures
        res@ == snake_cased(subject@),
;

/// `voca_rs::case::upper_case` upper-cases every character by the Unicode
/// tables. It reads nothing but its argument and returns for every string;
/// the contract only gives its result a name.
pub assume_specification[ voca_rs::case::upper_case ](subject: &str) -> (res: String)
    ensures
        res@ == upper_cased(subject@),
;

/// `voca_rs::case::upper_first` upper-cases the first character by the
/// Unicode tables and keeps the rest. It reads nothing but its argument and
/// returns for every string; the contract only gives its result a name.
pub assume_specification[ voca_rs::case::upper_first ](subject: &str) -> (res: String)
    ensures
        res@ == upper_firsted(subject@),
;

/// `voca_rs::case::lower_case` lower-cases every character by the Unicode
/// tables. It reads nothing but its argument and returns for every string;
/// the contract only gives its result a name.
pub assume_specification[ voca_rs::case::lower_case ](subject: &str) -> (res: String)
    ensures
        res@ == lower_cased(subject@),
;

/// `voca_rs::case::lower_first` lower-cases the first character by the
/// Unicode tables and keeps the rest. It reads nothing but its argument and
/// returns for every string; the contract only gives its result a name.
pub assume_specification[ voca_rs::case::lower_first ](subject: &str) -> (res: String)
    ensures
        res@ == lower_firsted(subject@),
;

impl TransformMember {
    /// The name that this convention gives to `subject`.
    pub open spec fn applied(self, subject: Seq<char>) -> Seq<char> {
        match self {
            TransformMember::CamelCase => camel_cased(subject),
            TransformMember::KebabCase => kebab_cased(subject),
            TransformMember::DashedCase => kebab_cased(subject),
            TransformMember::PascalCase => pascal_cased(subject),
            TransformMember::SnakeCase => snake_cased(subject),
            TransformMember::UpperCase => upper_cased(subject),
            TransformMember::UpperFirst => upper_firsted(subject),
            TransformMember::LowerCase => lower_cased(subject),
            TransformMember::LowerFirst => lower_firsted(subject),
        }
    }

    /// The name of this convention in a configuration.
    pub open spec fn spec_wire_name(self) -> Seq<char> {
        match self {
            TransformMember::CamelCase => "camel_case"@,
            TransformMember::KebabCase => "kebab_case"@,
            TransformMember::DashedCase => "dashed_case"@,
            TransformMember::PascalCase => "pascal_case"@,
            TransformMember::SnakeCase => "snake_case"@,
            TransformMember::UpperCase => "upper_case"@,
            TransformMember::UpperFirst => "upper_first"@,
            TransformMember::LowerCase => "lower_case"@,
            TransformMember::LowerFirst => "lower_first"@,
        }
    }

    /// The convention that a configuration calls `name`, if there is one.
    pub open spec fn spec_from_wire_name(name: Seq<char>) -> Option<TransformMember> {
        if name == "camel_case"@ {
            Some(TransformMember::CamelCase)
        } else if name == "kebab_case"@ {
            Some(TransformMember::KebabCase)
        } else if name == "dashed_case"@ {
            Some(TransformMember::DashedCase)
        } else if name == "pascal_case"@ {
            Some(TransformMember::PascalCase)
        } else if name == "snake_case"@ {
            Some(TransformMember::SnakeCase)
        } else if name == "upper_case"@ {
            Some(TransformMember::UpperCase)
        } else if name == "upper_first"@ {
            Some(TransformMember::UpperFirst)
        } else if name == "lower_case"@ {
            Some(TransformMember::LowerCase)
        } else if name == "lower_first"@ {
            Some(TransformMember::LowerFirst)
        } else {
            None
        }
    }

    /// The name of this convention in a configuration.
    pub fn wire_name(&self) -> (res: &'static str)
        ensures
            res@ == self.spec_wire_name(),
    {
        match self {
            TransformMember::CamelCase => "camel_case",
            TransformMember::KebabCase => "kebab_case",
            TransformMember::DashedCase => "dashed_case",
            TransformMember::PascalCase => "pascal_case",
            TransformMember::SnakeCase => "snake_case",
            TransformMember::UpperCase => "upper_case",
            TransformMember::UpperFirst => "upper_first",
            TransformMember::LowerCase => "lower_case",
            TransformMember::LowerFirst => "lower_first",
        }
    }

    /// Reads the name of a convention as a configuration writes it.
    pub fn from_wire_name(name: &str) -> (res: Option<TransformMember>)
        ensures
            res == Self::spec_from_wire_name(name@),
    {
        if str_eq(name, "camel_case") {
            Some(TransformMember::CamelCase)
        } else if str_eq(name, "kebab_case") {
            Some(TransformMember::KebabCase)
        } else if str_eq(name, "dashed_case") {
            Some(TransformMember::DashedCase)
        } else if str_eq(name, "pascal_case") {
            Some(TransformMember::PascalCase)
        } else if str_eq(name, "snake_case") {
            Some(TransformMember::SnakeCase)
        } else if str_eq(name, "upper_case") {
            Some(TransformMember::UpperCase)
        } else if str_eq(name, "upper_first") {
            Some(TransformMember::UpperFirst)
        } else if str_eq(name, "lower_case") {
            Some(TransformMember::LowerCase)
        } else if str_eq(name, "lower_first") {
            Some(TransformMember::LowerFirst)
        } else {
            None
        }
    }

    /// Converts `subject` to this naming convention.
    pub fn apply(&self, subject: &str) -> (res: String)
        ensures
            res@ == self.applied(subject@),
    {
        match self {
            TransformMember::CamelCase => voca_rs::case::camel_case(subject),
            TransformMember::KebabCase => voca_rs::case::kebab_case(subject),
            TransformMember::DashedCase => voca_rs::case::kebab_case(subject),
            TransformMember::PascalCase => voca_rs::case::pascal_case(subject),
            TransformMember::SnakeCase => voca_rs::case::snake_case(subject),
            TransformMember::UpperCase => voca_rs::case::upper_case(subject),
            TransformMember::UpperFirst => voca_rs::case::upper_first(subject),
            TransformMember::LowerCase => voca_rs::case::lower_case(subject),
            TransformMember::LowerFirst => voca_rs::case::lower_first(subject),
        }
    }
}

/// The name that results from applying `transformers` to `subject` from left
/// to right, each convention taking what the one before it produced.
pub open spec fn pipeline(transformers: Seq<TransformMember>, subject: Seq<char>) -> Seq<char>
    decreases transformers.len(),
{
    if transformers.len() == 0 {
        subject
    } else {
        transformers.last().applied(pipeline(transformers.drop_last(), subject))
    }
}

/// Applies `transformers` to `subject` from left to right.
pub fn apply_pipeline(transformers: &[TransformMember], subject: &str) -> (res: String)
    ensures
        res@ == pipeline(transformers@, subject@),
{
    let mut acc: String = subject.to_owned();
    let mut i: usize = 0;
    while i < transformers.len()
        invariant
            i <= transformers.len(),
            acc@ == pipeline(transformers@.take(i as int), subject@),
        decreases transformers.len() - i,
    {
        proof {
            assert(transformers@.take(i + 1).drop_last() =~= transformers@.take(i as int));
        }
        acc = transformers[i].apply(acc.as_str());
        i = i + 1;
    }
    proof {
        assert(transformers@.take(i as int) =~= transformers@);
    }
    acc
}

/// An empty pipeline leaves the name as it is.
pub proof fn pipeline_empty(subject: Seq<char>)
    ensures
        pipeline(Seq::<TransformMember>::empty(), subject) == subject,
{
}

/// A pipeline of one convention is that convention.
pub proof fn pipeline_single(t: TransformMember, subject: Seq<char>)
    ensures
        pipeline(seq![t], subject) == t.applied(subject),
{
    reveal_with_fuel(pipeline, 2);
    assert(seq![t].drop_last() =~= Seq::<TransformMember>::empty());
}

/// Pipelines run strictly from left to right: running `first` followed by
/// `second` is running `second` on what `first` produced.
pub proof fn pipeline_concat(
    first: Seq<TransformMember>,
    second: Seq<TransformMember>,
    subject: Seq<char>,
)
    ensures
        pipeline(first + second, subject) == pipeline(second, pipeline(first, subject)),
    decreases second.len(),
{
    if second.len() == 0 {
        assert(first + second =~= first);
    } else {
        assert((first + second).drop_last() =~= first + second.drop_last());
        pipeline_concat(first, second.drop_last(), subject);
    }
}

/// Every convention is read back from its own configuration name, and from
/// no other.
pub proof fn wire_names_round_trip(t: TransformMember, name: Seq<char>)
    ensures
        TransformMember::spec_from_wire_name(t.spec_wire_name()) == Some(t),
        TransformMember::spec_from_wire_name(name) == Some(t) ==> name == t.spec_wire_name(),
{
    reveal_strlit("camel_case");
    reveal_strlit("kebab_case");
    reveal_strlit("dashed_case");
    reveal_strlit("pascal_case");
    reveal_strlit("snake_case");
    reveal_strlit("upper_case");
    reveal_strlit("upper_first");
    reveal_strlit("lower_case");
    reveal_strlit("lower_first");
    assert("camel_case"@[0] == 'c' && "kebab_case"@[0] == 'k' && "dashed_case"@[0] == 'd');
    assert("pascal_case"@[0] == 'p' && "snake_case"@[0] == 's');
    assert("upper_case"@[0] == 'u' && "upper_first"@[0] == 'u');
    assert("lower_case"@[0] == 'l' && "lower_first"@[0] == 'l');
    assert("upper_case"@[6] == 'c' && "upper_first"@[6] == 'f');
    assert("lower_case"@[6] == 'c' && "lower_first"@[6] == 'f');
}

/// The dashed convention names exactly what the kebab convention names.
pub proof fn dashed_is_kebab(subject: Seq<char>)
    ensures
        TransformMember::DashedCase.applied(subject) == TransformMember::KebabCase.applied(
            subject,
        ),
{
}

} // verus!

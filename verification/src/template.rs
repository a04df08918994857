//! Path templates and the substitution of their placeholder.

use vstd::prelude::*;
use vstd::string::StringExecFns;

use crate::text::{chars_of, push_char};

verus! {

/// The placeholder of a path template: the literal text `${member}`.
pub open spec fn placeholder() -> Seq<char> {
    seq!['$', '{', 'm', 'e', 'm', 'b', 'e', 'r', '}']
}

/// `template` with every occurrence of the placeholder replaced by `member`.
///
/// Occurrences are found from left to right; what `member` brings in is not
/// searched again. A template without the placeholder comes back unchanged.
pub open spec fn substituted(template: Seq<char>, member: Seq<char>) -> Seq<char>
    decreases template.len(),
{
    if template.len() == 0 {
        Seq::empty()
    } else if placeholder().is_prefix_of(template) {
        member + substituted(template.skip(placeholder().len() as int), member)
    } else {
        seq![template[0]] + substituted(template.skip(1), member)
    }
}

/// Whether the placeholder occurs in `template`.
pub open spec fn has_placeholder(template: Seq<char>) -> bool {
    exists|i: int|
        0 <= i <= template.len() && placeholder().is_prefix_of(#[trigger] template.skip(i))
}

/// A template without the placeholder is inert: substitution gives the
/// template itself, whatever the member.
pub proof fn template_without_placeholder_is_inert(template: Seq<char>, member: Seq<char>)
    requires
        !has_placeholder(template),
    ensures
        substituted(template, member) == template,
    decreases template.len(),
{
    if template.len() == 0 {
        assert(template =~= Seq::empty());
    } else {
        let rest = template.skip(1);
        assert(template.skip(0) =~= template);
        assert forall|i: int| 0 <= i <= rest.len() implies !placeholder().is_prefix_of(
            #[trigger] rest.skip(i),
        ) by {
            assert(rest.skip(i) =~= template.skip(i + 1));
        }
        template_without_placeholder_is_inert(rest, member);
        assert(seq![template[0]] + rest =~= template);
    }
}

/// A placeholder at the start of a template gives way to the member, and
/// substitution goes on behind it.
pub proof fn leading_placeholder_is_replaced(rest: Seq<char>, member: Seq<char>)
    ensures
        substituted(placeholder() + rest, member) == member + substituted(rest, member),
{
    let template = placeholder() + rest;
    assert(template.subrange(0, placeholder().len() as int) =~= placeholder());
    assert(template.skip(placeholder().len() as int) =~= rest);
}

/// Whether the placeholder stands in `chars` at position `at`.
fn placeholder_at(chars: &Vec<char>, at: usize) -> (res: bool)
    requires
        at <= chars.len(),
    ensures
        res == placeholder().is_prefix_of(chars@.skip(at as int)),
{
    if chars.len() - at < 9 {
        return false;
    }
    let found = chars[at] == '$' && chars[at + 1] == '{' && chars[at + 2] == 'm' && chars[at + 3]
        == 'e' && chars[at + 4] == 'm' && chars[at + 5] == 'b' && chars[at + 6] == 'e' && chars[at
        + 7] == 'r' && chars[at + 8] == '}';
    proof {
        let rest = chars@.skip(at as int);
        let head = rest.subrange(0, 9);
        assert(forall|k: int| 0 <= k < 9 ==> head[k] == chars@[at + k]);
        if found {
            assert(placeholder() =~= head);
        } else if placeholder() == head {
            assert(head[0] == '$' && head[1] == '{' && head[2] == 'm' && head[3] == 'e');
            assert(head[4] == 'm' && head[5] == 'b' && head[6] == 'e' && head[7] == 'r');
            assert(head[8] == '}');
        }
    }
    found
}

/// Replaces every occurrence of the placeholder `${member}` in `template` by
/// `member`.
pub fn substitute_member(template: &str, member: &str) -> (res: String)
    ensures
        res@ == substituted(template@, member@),
{
    let chars = chars_of(template);
    let mut out = String::new();
    let mut i: usize = 0;
    proof {
        assert(chars@.skip(0) =~= chars@);
        assert(out@ + substituted(chars@, member@) =~= substituted(chars@, member@));
    }
    while i < chars.len()
        invariant
            i <= chars.len(),
            chars@ == template@,
            out@ + substituted(chars@.skip(i as int), member@) == substituted(
                template@,
                member@,
            ),
        decreases chars.len() - i,
    {
        let ghost rest = chars@.skip(i as int);
        let ghost before = out@;
        if placeholder_at(&chars, i) {
            out.append(member);
            proof {
                let tail = substituted(rest.skip(9), member@);
                assert(rest.skip(9) =~= chars@.skip(i + 9));
                assert((before + member@) + tail =~= before + (member@ + tail));
            }
            i = i + 9;
        } else {
            push_char(&mut out, chars[i]);
            proof {
                let tail = substituted(rest.skip(1), member@);
                assert(rest.skip(1) =~= chars@.skip(i + 1));
                assert(before.push(rest[0]) + tail =~= before + (seq![rest[0]] + tail));
            }
            i = i + 1;
        }
    }
    out
}

} // verus!

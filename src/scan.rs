//! Scanning a style object literal, member by member.
use vstd::prelude::*;

use crate::findings::{lemma_views_push, views, Finding, FindingView, StylePropError, StylePropErrorView};
use crate::naming::{is_kebab_case, prop_needs_unit, spec_is_kebab_case, spec_needs_unit};
use crate::syntax::{MemberName, MemberValue, NumericValue, ObjectMember, TextRange};

verus! {

/// The finding on a property name, if it is not kebab-cased.
pub open spec fn kebab_findings(text: Seq<char>, range: TextRange) -> Seq<FindingView> {
    if spec_is_kebab_case(text) {
        Seq::empty()
    } else {
        seq![FindingView { range, error: StylePropErrorView::Kebab(text) }]
    }
}

/// The finding on a property value: a non-zero number literal given to a
/// property that needs a unit.
pub open spec fn unit_findings(text: Seq<char>, value: MemberValue) -> Seq<FindingView> {
    if spec_needs_unit(text) {
        match value {
            MemberValue::NumberLiteral { range, value: NumericValue::NonZero } => seq![
                FindingView { range, error: StylePropErrorView::NumberLiteral },
            ],
            _ => Seq::empty(),
        }
    } else {
        Seq::empty()
    }
}

/// The findings on one member: only properties with a static name are
/// checked, the name before the value.
pub open spec fn member_findings(m: ObjectMember) -> Seq<FindingView> {
    match m {
        ObjectMember::Property { name: MemberName::Literal { text, range }, value } =>
            kebab_findings(text@, range) + unit_findings(text@, value),
        _ => Seq::empty(),
    }
}

/// The findings on an object literal's members, in document order.
pub open spec fn object_findings(members: Seq<ObjectMember>) -> Seq<FindingView>
    decreases members.len(),
{
    if members.len() == 0 {
        Seq::empty()
    } else {
        object_findings(members.drop_last()) + member_findings(members.last())
    }
}

/// Appends the findings on `member` to `out`.
fn push_member_findings(member: &ObjectMember, out: &mut Vec<Finding>)
    ensures
        views(final(out)@) == views(old(out)@) + member_findings(*member),
{
    match member {
        ObjectMember::Property { name: MemberName::Literal { text, range }, value } => {
            let ghost start = out@;
            if !is_kebab_case(text.as_str()) {
                let f = Finding { range: *range, error: StylePropError::Kebab(text.clone()) };
                proof {
                    lemma_views_push(out@, f);
                }
                out.push(f);
            }
            assert(views(out@) =~= views(start) + kebab_findings(text@, *range));
            let ghost middle = out@;
            if prop_needs_unit(text.as_str()) {
                match value {
                    MemberValue::NumberLiteral { range: value_range, value: NumericValue::NonZero } => {
                        let f = Finding { range: *value_range, error: StylePropError::NumberLiteral };
                        proof {
                            lemma_views_push(out@, f);
                        }
                        out.push(f);
                    },
                    _ => {},
                }
            }
            assert(views(out@) =~= views(middle) + unit_findings(text@, *value));
            assert(views(out@) =~= views(start) + member_findings(*member));
        },
        _ => {
            assert(views(out@) =~= views(out@) + member_findings(*member));
        },
    }
}

/// The findings on the members of a style object literal, in document order.
pub fn scan_members(members: &Vec<ObjectMember>) -> (r: Vec<Finding>)
    ensures
        views(r@) == object_findings(members@),
{
    let mut out: Vec<Finding> = Vec::new();
    let mut i: usize = 0;
    assert(views(out@) =~= object_findings(members@.subrange(0, 0)));
    while i < members.len()
        invariant
            i <= members.len(),
            views(out@) == object_findings(members@.subrange(0, i as int)),
        decreases members.len() - i,
    {
        push_member_findings(&members[i], &mut out);
        assert(members@.subrange(0, i + 1).drop_last() =~= members@.subrange(0, i as int));
        i = i + 1;
    }
    assert(members@.subrange(0, members.len() as int) =~= members@);
    out
}

} // verus!

//! Properties of the style check that hold for every input.
use vstd::prelude::*;

use crate::findings::{FindingView, StylePropErrorView};
use crate::rule::{annotate, annotation_views, annotations, attribute_findings, element_findings, StylePropDiagnostic};
use crate::scan::{member_findings, object_findings};
use crate::syntax::{JsxAttribute, MemberName, MemberValue, NumericValue, ObjectMember, TextRange};

verus! {

/// The findings on two runs of members, one after the other, are those of the
/// first run followed by those of the second.
pub proof fn lemma_object_findings_concat(a: Seq<ObjectMember>, b: Seq<ObjectMember>)
    ensures
        object_findings(a + b) == object_findings(a) + object_findings(b),
    decreases b.len(),
{
    if b.len() == 0 {
        assert(a + b =~= a);
        assert(object_findings(a) + object_findings(b) =~= object_findings(a));
    } else {
        assert((a + b).drop_last() =~= a + b.drop_last());
        assert((a + b).last() == b.last());
        lemma_object_findings_concat(a, b.drop_last());
        assert(object_findings(a + b) =~= object_findings(a) + object_findings(b));
    }
}

/// The findings on two runs of attributes, one after the other, are those of
/// the first run followed by those of the second.
pub proof fn lemma_element_findings_concat(a: Seq<JsxAttribute>, b: Seq<JsxAttribute>)
    ensures
        element_findings(a + b) == element_findings(a) + element_findings(b),
    decreases b.len(),
{
    if b.len() == 0 {
        assert(a + b =~= a);
        assert(element_findings(a) + element_findings(b) =~= element_findings(a));
    } else {
        assert((a + b).drop_last() =~= a + b.drop_last());
        assert((a + b).last() == b.last());
        lemma_element_findings_concat(a, b.drop_last());
        assert(element_findings(a + b) =~= element_findings(a) + element_findings(b));
    }
}

/// Findings come in document order: those on the members before the `i`th,
/// then those on the `i`th member, then those on the members after it.
pub proof fn member_findings_in_document_order(members: Seq<ObjectMember>, i: int)
    requires
        0 <= i < members.len(),
    ensures
        object_findings(members) == object_findings(members.subrange(0, i))
            + member_findings(members[i]) + object_findings(
            members.subrange(i + 1, members.len() as int),
        ),
{
    let before = members.subrange(0, i);
    let one = seq![members[i]];
    let after = members.subrange(i + 1, members.len() as int);
    assert(members =~= before + one + after);
    assert(one.drop_last() =~= Seq::<ObjectMember>::empty());
    assert(object_findings(one.drop_last()) == Seq::<FindingView>::empty());
    assert(object_findings(one) =~= member_findings(members[i]));
    lemma_object_findings_concat(before + one, after);
    lemma_object_findings_concat(before, one);
}

/// Findings come in document order across attributes: those on the
/// attributes before the `i`th, then those on the `i`th, then the rest.
pub proof fn attribute_findings_in_document_order(attributes: Seq<JsxAttribute>, i: int)
    requires
        0 <= i < attributes.len(),
    ensures
        element_findings(attributes) == element_findings(attributes.subrange(0, i))
            + attribute_findings(attributes[i]) + element_findings(
            attributes.subrange(i + 1, attributes.len() as int),
        ),
{
    let before = attributes.subrange(0, i);
    let one = seq![attributes[i]];
    let after = attributes.subrange(i + 1, attributes.len() as int);
    assert(attributes =~= before + one + after);
    assert(one.drop_last() =~= Seq::<JsxAttribute>::empty());
    assert(element_findings(one.drop_last()) == Seq::<FindingView>::empty());
    assert(element_findings(one) =~= attribute_findings(attributes[i]));
    lemma_element_findings_concat(before + one, after);
    lemma_element_findings_concat(before, one);
}

/// A diagnostic built from findings has the first finding as its primary
/// annotation, and each later finding as a detail, in order.
pub proof fn primary_is_first_finding(d: StylePropDiagnostic, found: Seq<FindingView>)
    requires
        d.all_annotations() == annotations(found),
    ensures
        found.len() == d.details@.len() + 1,
        d.primary@ == annotate(found[0]),
        forall|j: int| 0 <= j < d.details@.len() ==> d.details@[j]@ == annotate(found[j + 1]),
{
    let all = d.all_annotations();
    assert(all.len() == d.details@.len() + 1);
    assert(annotations(found).len() == found.len());
    assert(all[0] == d.primary@);
    assert(annotations(found)[0] == annotate(found[0]));
    assert forall|j: int| 0 <= j < d.details@.len() implies d.details@[j]@ == annotate(
        found[j + 1],
    ) by {
        assert(all[j + 1] == annotation_views(d.details@)[j]);
        assert(annotations(found)[j + 1] == annotate(found[j + 1]));
    }
}

/// A member with a computed name produces no finding, whatever its value:
/// the findings are those of the other members.
pub proof fn computed_names_are_skipped(members: Seq<ObjectMember>, i: int)
    requires
        0 <= i < members.len(),
        members[i] matches ObjectMember::Property { name: MemberName::Computed, .. },
    ensures
        object_findings(members) == object_findings(members.remove(i)),
{
    member_findings_in_document_order(members, i);
    assert(members.remove(i) =~= members.subrange(0, i) + members.subrange(
        i + 1,
        members.len() as int,
    ));
    lemma_object_findings_concat(
        members.subrange(0, i),
        members.subrange(i + 1, members.len() as int),
    );
    assert(member_findings(members[i]) =~= Seq::<FindingView>::empty());
    assert(object_findings(members) =~= object_findings(members.remove(i)));
}

/// A zero number literal never draws a missing-unit finding.
pub proof fn zero_needs_no_unit(text: String, name_range: TextRange, value_range: TextRange)
    ensures
        forall|j: int|
            0 <= j < member_findings(
                (ObjectMember::Property {
                    name: MemberName::Literal { text, range: name_range },
                    value: MemberValue::NumberLiteral { range: value_range, value: NumericValue::Zero },
                }),
            ).len() ==> !(member_findings(
                (ObjectMember::Property {
                    name: MemberName::Literal { text, range: name_range },
                    value: MemberValue::NumberLiteral { range: value_range, value: NumericValue::Zero },
                }),
            )[j].error is NumberLiteral),
{
}

/// A non-zero number literal on a property that needs a unit draws exactly
/// one missing-unit finding, at the literal, after any finding on the name.
pub proof fn non_zero_needs_unit(text: String, name_range: TextRange, value_range: TextRange)
    requires
        crate::naming::spec_needs_unit(text@),
    ensures
        ({
            let found = member_findings(
                (ObjectMember::Property {
                    name: MemberName::Literal { text, range: name_range },
                    value: MemberValue::NumberLiteral {
                        range: value_range,
                        value: NumericValue::NonZero,
                    },
                }),
            );
            &&& found.len() >= 1
            &&& found.last() == (FindingView {
                range: value_range,
                error: StylePropErrorView::NumberLiteral,
            })
            &&& forall|j: int| 0 <= j < found.len() - 1 ==> !(found[j].error is NumberLiteral)
        }),
{
}

/// A value that is not a number literal never draws a missing-unit finding,
/// whatever it holds.
pub proof fn non_numeric_needs_no_unit(text: String, name_range: TextRange)
    ensures
        forall|j: int|
            0 <= j < member_findings(
                (ObjectMember::Property {
                    name: MemberName::Literal { text, range: name_range },
                    value: MemberValue::Other,
                }),
            ).len() ==> !(member_findings(
                (ObjectMember::Property {
                    name: MemberName::Literal { text, range: name_range },
                    value: MemberValue::Other,
                }),
            )[j].error is NumberLiteral),
{
}

} // verus!

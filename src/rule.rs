//! The style check on a whole element, and the diagnostic it reports.
use vstd::prelude::*;

use crate::findings::{lemma_views_concat, spec_message, views, Finding, FindingView};
use crate::scan::{object_findings, scan_members};
use crate::syntax::{AttributeValue, JsxAttribute, JsxElement, TextRange};

verus! {

/// The findings on one attribute: only a `style` attribute whose value is an
/// object literal is checked; anything else cannot be read statically.
pub open spec fn attribute_findings(a: JsxAttribute) -> Seq<FindingView> {
    match a {
        JsxAttribute::Attribute { name, value: AttributeValue::ObjectExpression(members) } =>
            if name@ == "style"@ {
                object_findings(members@)
            } else {
                Seq::empty()
            },
        _ => Seq::empty(),
    }
}

/// The findings on an element's attributes, in document order.
pub open spec fn element_findings(attributes: Seq<JsxAttribute>) -> Seq<FindingView>
    decreases attributes.len(),
{
    if attributes.len() == 0 {
        Seq::empty()
    } else {
        element_findings(attributes.drop_last()) + attribute_findings(attributes.last())
    }
}

/// A message at a range of source text.
#[derive(Clone, PartialEq, Eq, Debug)]
pub struct Annotation {
    pub range: TextRange,
    pub message: String,
}

/// The mathematical value of an [`Annotation`].
pub struct AnnotationView {
    pub range: TextRange,
    pub message: Seq<char>,
}

impl View for Annotation {
    type V = AnnotationView;

    open spec fn view(&self) -> AnnotationView {
        AnnotationView { range: self.range, message: self.message@ }
    }
}

/// The annotation that reports a finding.
pub open spec fn annotate(f: FindingView) -> AnnotationView {
    AnnotationView { range: f.range, message: spec_message(f.error) }
}

/// The annotations that report a sequence of findings, one each, in order.
pub open spec fn annotations(s: Seq<FindingView>) -> Seq<AnnotationView> {
    s.map_values(|f: FindingView| annotate(f))
}

/// The values of a sequence of annotations.
pub open spec fn annotation_views(s: Seq<Annotation>) -> Seq<AnnotationView> {
    s.map_values(|a: Annotation| a@)
}

/// A diagnostic: the first annotation is the primary one, the others are
/// details, in document order.
#[derive(Clone, PartialEq, Eq, Debug)]
pub struct StylePropDiagnostic {
    pub primary: Annotation,
    pub details: Vec<Annotation>,
}

impl StylePropDiagnostic {
    /// All of the diagnostic's annotations, the primary one first.
    pub open spec fn all_annotations(&self) -> Seq<AnnotationView> {
        seq![self.primary@] + annotation_views(self.details@)
    }
}

/// The style check. It keeps no state between elements.
pub struct StyleProp;

impl StyleProp {
    /// The findings on an element's `style` attribute, or `None` where there
    /// are none.
    pub fn run(element: &JsxElement) -> (r: Option<Vec<Finding>>)
        ensures
            r is None <==> element_findings(element.attributes@).len() == 0,
            r matches Some(found) ==> views(found@) == element_findings(element.attributes@),
    {
        let attributes = &element.attributes;
        let mut found: Vec<Finding> = Vec::new();
        let mut i: usize = 0;
        assert(views(found@) =~= element_findings(attributes@.subrange(0, 0)));
        while i < attributes.len()
            invariant
                i <= attributes.len(),
                views(found@) == element_findings(attributes@.subrange(0, i as int)),
            decreases attributes.len() - i,
        {
            let ghost before = found@;
            let attribute = &attributes[i];
            match attribute {
                JsxAttribute::Attribute { name, value: AttributeValue::ObjectExpression(members) } => {
                    if is_style(name.as_str()) {
                        let mut more = scan_members(members);
                        proof {
                            lemma_views_concat(found@, more@);
                        }
                        found.append(&mut more);
                    } else {
                        assert(views(found@) =~= views(before) + attribute_findings(*attribute));
                    }
                },
                _ => {
                    assert(views(found@) =~= views(before) + attribute_findings(*attribute));
                },
            }
            assert(views(found@) == views(before) + attribute_findings(attributes@[i as int]));
            assert(attributes@.subrange(0, i + 1).drop_last() =~= attributes@.subrange(0, i as int));
            i = i + 1;
        }
        assert(attributes@.subrange(0, attributes.len() as int) =~= attributes@);
        if found.len() == 0 {
            None
        } else {
            Some(found)
        }
    }

    /// The diagnostic that reports `issues`: the first is the primary
    /// annotation, the rest follow as details. `None` where there are none.
    pub fn diagnostic(issues: &Vec<Finding>) -> (r: Option<StylePropDiagnostic>)
        ensures
            r is None <==> issues.len() == 0,
            r matches Some(d) ==> d.all_annotations() == annotations(views(issues@)),
    {
        if issues.len() == 0 {
            return None;
        }
        let primary = Annotation { range: issues[0].range, message: issues[0].error.message() };
        let mut details: Vec<Annotation> = Vec::new();
        let ghost all = annotations(views(issues@));
        let mut i: usize = 1;
        while i < issues.len()
            invariant
                1 <= i <= issues.len(),
                all == annotations(views(issues@)),
                annotation_views(details@) == all.subrange(1, i as int),
            decreases issues.len() - i,
        {
            let a = Annotation { range: issues[i].range, message: issues[i].error.message() };
            assert(annotation_views(details@.push(a)) =~= annotation_views(details@).push(a@));
            details.push(a);
            assert(all.subrange(1, i + 1) =~= all.subrange(1, i as int).push(all[i as int]));
            i = i + 1;
        }
        let d = StylePropDiagnostic { primary, details };
        assert(d.all_annotations() =~= all);
        Some(d)
    }

    /// The diagnostic for an element's `style` attribute, or `None` where it
    /// holds no problem.
    pub fn check(element: &JsxElement) -> (r: Option<StylePropDiagnostic>)
        ensures
            r is None <==> element_findings(element.attributes@).len() == 0,
            r matches Some(d) ==> d.all_annotations() == annotations(
                element_findings(element.attributes@),
            ),
    {
        match StyleProp::run(element) {
            None => None,
            Some(found) => StyleProp::diagnostic(&found),
        }
    }
}

/// Whether a name is `style`.
fn is_style(name: &str) -> (r: bool)
    ensures
        r == (name@ == "style"@),
{
    proof {
        reveal_strlit("style");
    }
    if name.unicode_len() != 5 {
        return false;
    }
    let r = name.get_char(0) == 's' && name.get_char(1) == 't' && name.get_char(2) == 'y'
        && name.get_char(3) == 'l' && name.get_char(4) == 'e';
    assert(r ==> name@ =~= "style"@);
    r
}

} // verus!

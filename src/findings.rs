//! What the style check reports, and how each report reads.
use vstd::prelude::*;

use crate::syntax::TextRange;

verus! {

/// A problem found in a style object.
#[derive(Clone, PartialEq, Eq, Debug)]
pub enum StylePropError {
    /// A property name that is not kebab-cased, with its text.
    Kebab(String),
    /// A bare number given to a property that needs a unit.
    NumberLiteral,
}

/// The mathematical value of a [`StylePropError`].
pub enum StylePropErrorView {
    Kebab(Seq<char>),
    NumberLiteral,
}

impl View for StylePropError {
    type V = StylePropErrorView;

    open spec fn view(&self) -> StylePropErrorView {
        match self {
            StylePropError::Kebab(name) => StylePropErrorView::Kebab(name@),
            StylePropError::NumberLiteral => StylePropErrorView::NumberLiteral,
        }
    }
}

/// The text shown for an error.
pub open spec fn spec_message(e: StylePropErrorView) -> Seq<char> {
    match e {
        StylePropErrorView::Kebab(name) => name + " is not kebab-case."@,
        StylePropErrorView::NumberLiteral =>
            "This CSS property value should be a string with a unit; Solid does not automatically append a \"px\" unit."@,
    }
}

impl StylePropError {
    /// The text shown for this error.
    pub fn message(&self) -> (r: String)
        ensures
            r@ == spec_message(self@),
    {
        match self {
            StylePropError::Kebab(name) => {
                let mut text = name.clone();
                text.append(" is not kebab-case.");
                text
            },
            StylePropError::NumberLiteral => String::from_str(
                "This CSS property value should be a string with a unit; Solid does not automatically append a \"px\" unit.",
            ),
        }
    }
}

/// One problem, with the range of source text it concerns.
#[derive(Clone, PartialEq, Eq, Debug)]
pub struct Finding {
    pub range: TextRange,
    pub error: StylePropError,
}

/// The mathematical value of a [`Finding`].
pub struct FindingView {
    pub range: TextRange,
    pub error: StylePropErrorView,
}

impl View for Finding {
    type V = FindingView;

    open spec fn view(&self) -> FindingView {
        FindingView { range: self.range, error: self.error@ }
    }
}

/// The values of a sequence of findings.
pub open spec fn views(s: Seq<Finding>) -> Seq<FindingView> {
    s.map_values(|f: Finding| f@)
}

pub proof fn lemma_views_push(s: Seq<Finding>, f: Finding)
    ensures
        views(s.push(f)) == views(s).push(f@),
{
    assert(views(s.push(f)) =~= views(s).push(f@));
}

pub proof fn lemma_views_concat(a: Seq<Finding>, b: Seq<Finding>)
    ensures
        views(a + b) == views(a) + views(b),
{
    assert(views(a + b) =~= views(a) + views(b));
}

} // verus!

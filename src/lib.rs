//! Checks the `style` attribute of markup elements: property names must be
//! kebab-cased, and length properties must not take bare numbers.
pub mod findings;
pub mod laws;
pub mod naming;
pub mod rule;
pub mod scan;
pub mod syntax;

pub use findings::{Finding, StylePropError};
pub use naming::{is_kebab_case, prop_needs_unit};
pub use rule::{Annotation, StyleProp, StylePropDiagnostic};
pub use scan::scan_members;
pub use syntax::{
    AttributeValue, JsxAttribute, JsxElement, MemberName, MemberValue, NumericValue, ObjectMember,
    TextRange,
};

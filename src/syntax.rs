//! The parts of a markup element that the style check reads.
use vstd::prelude::*;

verus! {

/// A span of source text, as byte offsets.
#[derive(Clone, Copy, PartialEq, Eq, Debug, Structural)]
pub struct TextRange {
    pub start: u32,
    pub end: u32,
}

/// What a numeric literal evaluates to, as far as the style check cares.
#[derive(Clone, Copy, PartialEq, Eq, Debug, Structural)]
pub enum NumericValue {
    Zero,
    NonZero,
    /// The literal's text could not be read as a number.
    Unreadable,
}

/// The value expression of an object member.
#[derive(Clone, Copy, PartialEq, Eq, Debug, Structural)]
pub enum MemberValue {
    /// A bare number literal, with the range of its token.
    NumberLiteral { range: TextRange, value: NumericValue },
    /// Any other expression (a string, a call, an identifier, a template), or none.
    Other,
}

/// The name of an object member.
#[derive(Clone, PartialEq, Eq, Debug)]
pub enum MemberName {
    /// A static name (an identifier or a string literal), with its text and range.
    Literal { text: String, range: TextRange },
    /// A computed name such as `[key]`.
    Computed,
}

/// A member of an object literal.
#[derive(Clone, PartialEq, Eq, Debug)]
pub enum ObjectMember {
    /// A `name: value` property.
    Property { name: MemberName, value: MemberValue },
    /// A shorthand property, method, getter, setter, spread or malformed member.
    Other,
}

/// The value of a markup attribute.
#[derive(Clone, PartialEq, Eq, Debug)]
pub enum AttributeValue {
    /// An expression container holding an object literal, `{{ ... }}`.
    ObjectExpression(Vec<ObjectMember>),
    /// An expression container holding any other expression, `{styles}`.
    OtherExpression,
    /// A string literal, `"color: red"`.
    StringLiteral,
    /// No value, or a value that could not be read.
    Absent,
}

/// An attribute of a markup element.
#[derive(Clone, PartialEq, Eq, Debug)]
pub enum JsxAttribute {
    /// `name=value`.
    Attribute { name: String, value: AttributeValue },
    /// `{...props}`.
    Spread,
}

/// A markup element, with its attributes in document order.
#[derive(Clone, PartialEq, Eq, Debug)]
pub struct JsxElement {
    pub attributes: Vec<JsxAttribute>,
}

} // verus!

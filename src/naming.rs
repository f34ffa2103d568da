//! Classification of CSS property names.
use vstd::prelude::*;

verus! {

/// A character allowed in a kebab-cased property name.
pub open spec fn is_kebab_char(c: char) -> bool {
    ('a' <= c && c <= 'z') || ('0' <= c && c <= '9') || c == '-'
}

/// A non-empty name made of ASCII lowercase letters, ASCII digits and `-` only.
pub open spec fn spec_is_kebab_case(name: Seq<char>) -> bool {
    &&& name.len() > 0
    &&& forall|i: int| 0 <= i < name.len() ==> #[trigger] is_kebab_char(name[i])
}

/// The properties whose numeric values carry a length and so need a unit.
/// Matching is exact: `margin-top` or `min-width` are not among them.
pub open spec fn spec_needs_unit(name: Seq<char>) -> bool {
    ||| name == "width"@
    ||| name == "height"@
    ||| name == "margin"@
    ||| name == "padding"@
    ||| name == "border-width"@
    ||| name == "font-size"@
}

/// Whether `input` is a kebab-cased CSS property name.
pub fn is_kebab_case(input: &str) -> (r: bool)
    ensures
        r == spec_is_kebab_case(input@),
{
    let len = input.unicode_len();
    if len == 0 {
        return false;
    }
    let mut i: usize = 0;
    while i < len
        invariant
            len == input@.len(),
            i <= len,
            forall|j: int| 0 <= j < i ==> #[trigger] is_kebab_char(input@[j]),
        decreases len - i,
    {
        let c = input.get_char(i);
        if !(('a' <= c && c <= 'z') || ('0' <= c && c <= '9') || c == '-') {
            assert(!is_kebab_char(input@[i as int]));
            return false;
        }
        i = i + 1;
    }
    true
}

/// Whether two strings hold the same characters.
fn same_text(a: &str, b: &str) -> (r: bool)
    ensures
        r == (a@ == b@),
{
    let len = a.unicode_len();
    if len != b.unicode_len() {
        return false;
    }
    let mut i: usize = 0;
    while i < len
        invariant
            len == a@.len(),
            len == b@.len(),
            i <= len,
            a@.subrange(0, i as int) == b@.subrange(0, i as int),
        decreases len - i,
    {
        if a.get_char(i) != b.get_char(i) {
            assert(a@[i as int] != b@[i as int]);
            return false;
        }
        assert(a@.subrange(0, i + 1) =~= a@.subrange(0, i as int).push(a@[i as int]));
        assert(b@.subrange(0, i + 1) =~= b@.subrange(0, i as int).push(b@[i as int]));
        i = i + 1;
    }
    assert(a@ =~= a@.subrange(0, len as int));
    assert(b@ =~= b@.subrange(0, len as int));
    true
}

/// Whether a numeric value of the property `name` needs an explicit unit.
pub fn prop_needs_unit(name: &str) -> (r: bool)
    ensures
        r == spec_needs_unit(name@),
{
    same_text(name, "width") || same_text(name, "height") || same_text(name, "margin")
        || same_text(name, "padding") || same_text(name, "border-width")
        || same_text(name, "font-size")
}

} // verus!

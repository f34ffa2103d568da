use style_prop::{
    is_kebab_case, prop_needs_unit, scan_members, AttributeValue, Finding, JsxAttribute,
    JsxElement, MemberName, MemberValue, NumericValue, ObjectMember, StyleProp, StylePropError,
    TextRange,
};

const UNIT_MESSAGE: &str = "This CSS property value should be a string with a unit; Solid does not automatically append a \"px\" unit.";

fn range(start: u32, end: u32) -> TextRange {
    TextRange { start, end }
}

fn prop(name: &str, start: u32, value: MemberValue) -> ObjectMember {
    ObjectMember::Property {
        name: MemberName::Literal {
            text: name.to_string(),
            range: range(start, start + name.len() as u32),
        },
        value,
    }
}

fn number(start: u32, end: u32, value: NumericValue) -> MemberValue {
    MemberValue::NumberLiteral { range: range(start, end), value }
}

fn style_element(members: Vec<ObjectMember>) -> JsxElement {
    JsxElement {
        attributes: vec![JsxAttribute::Attribute {
            name: "style".to_string(),
            value: AttributeValue::ObjectExpression(members),
        }],
    }
}

#[test]
fn kebab_case_examples() {
    assert!(!is_kebab_case(""));
    assert!(is_kebab_case("font-size"));
    assert!(!is_kebab_case("fontSize"));
    assert!(!is_kebab_case("FONT-SIZE"));
    assert!(is_kebab_case("100"));
    assert!(!is_kebab_case("font_size"));
}

#[test]
fn kebab_case_rejects_non_ascii_and_spaces() {
    assert!(!is_kebab_case("fönt-size"));
    assert!(!is_kebab_case("font size"));
    assert!(is_kebab_case("-"));
    assert!(is_kebab_case("--custom-prop-1"));
}

#[test]
fn unit_properties_are_exact() {
    for name in ["width", "height", "margin", "padding", "border-width", "font-size"] {
        assert!(prop_needs_unit(name), "{name}");
    }
    for name in ["min-width", "margin-top", "Width", "widths", "", "font", "border"] {
        assert!(!prop_needs_unit(name), "{name}");
    }
}

#[test]
fn messages_read_as_expected() {
    assert_eq!(
        StylePropError::Kebab("fontSize".to_string()).message(),
        "fontSize is not kebab-case."
    );
    assert_eq!(StylePropError::NumberLiteral.message(), UNIT_MESSAGE);
}

#[test]
fn camel_case_name_with_string_value() {
    // style={{ fontSize: "10px" }}
    let el = style_element(vec![prop("fontSize", 14, MemberValue::Other)]);
    let found = StyleProp::run(&el).unwrap();
    assert_eq!(
        found,
        vec![Finding { range: range(14, 22), error: StylePropError::Kebab("fontSize".to_string()) }]
    );
    let d = StyleProp::check(&el).unwrap();
    assert_eq!(d.primary.range, range(14, 22));
    assert_eq!(d.primary.message, "fontSize is not kebab-case.");
    assert!(d.details.is_empty());
}

#[test]
fn kebab_case_string_name_is_accepted() {
    // style={{ "font-size": "10px" }}
    let el = style_element(vec![prop("font-size", 15, MemberValue::Other)]);
    assert!(StyleProp::run(&el).is_none());
    assert!(StyleProp::check(&el).is_none());
}

#[test]
fn bare_number_on_width() {
    // style={{ width: 10 }}
    let el = style_element(vec![prop("width", 14, number(21, 23, NumericValue::NonZero))]);
    let d = StyleProp::check(&el).unwrap();
    assert_eq!(d.primary.range, range(21, 23));
    assert_eq!(d.primary.message, UNIT_MESSAGE);
    assert!(d.details.is_empty());
}

#[test]
fn zero_on_width_is_accepted() {
    // style={{ width: 0 }}
    let el = style_element(vec![prop("width", 14, number(21, 22, NumericValue::Zero))]);
    assert!(StyleProp::run(&el).is_none());
    assert!(StyleProp::check(&el).is_none());
}

#[test]
fn camel_case_name_with_bare_number() {
    // style={{ fontSize: 12 }}: the unit policy matches names exactly, and
    // `fontSize` is not `font-size`, so only the name is reported.
    let el = style_element(vec![prop("fontSize", 14, number(24, 26, NumericValue::NonZero))]);
    let d = StyleProp::check(&el).unwrap();
    assert_eq!(d.primary.range, range(14, 22));
    assert_eq!(d.primary.message, "fontSize is not kebab-case.");
    assert!(d.details.is_empty());
}

#[test]
fn bad_name_and_bare_number_on_one_member() {
    // style={{ fontSize: 12, "font-size": 12 }}: one finding on each member,
    // in document order.
    let el = style_element(vec![
        prop("fontSize", 14, number(24, 26, NumericValue::NonZero)),
        prop("font-size", 28, number(39, 41, NumericValue::NonZero)),
    ]);
    let d = StyleProp::check(&el).unwrap();
    assert_eq!(d.primary.range, range(14, 22));
    assert_eq!(d.primary.message, "fontSize is not kebab-case.");
    assert_eq!(d.details.len(), 1);
    assert_eq!(d.details[0].range, range(39, 41));
    assert_eq!(d.details[0].message, UNIT_MESSAGE);
}

#[test]
fn style_from_a_variable_is_not_checked() {
    // style={externalStyleObject}
    let el = JsxElement {
        attributes: vec![JsxAttribute::Attribute {
            name: "style".to_string(),
            value: AttributeValue::OtherExpression,
        }],
    };
    assert!(StyleProp::run(&el).is_none());
    assert!(StyleProp::check(&el).is_none());
}

#[test]
fn style_string_absent_and_spread_are_not_checked() {
    let el = JsxElement {
        attributes: vec![
            JsxAttribute::Attribute {
                name: "style".to_string(),
                value: AttributeValue::StringLiteral,
            },
            JsxAttribute::Attribute { name: "style".to_string(), value: AttributeValue::Absent },
            JsxAttribute::Spread,
        ],
    };
    assert!(StyleProp::run(&el).is_none());
}

#[test]
fn other_attributes_are_ignored() {
    let el = JsxElement {
        attributes: vec![JsxAttribute::Attribute {
            name: "css".to_string(),
            value: AttributeValue::ObjectExpression(vec![prop(
                "fontSize",
                10,
                number(20, 22, NumericValue::NonZero),
            )]),
        }],
    };
    assert!(StyleProp::run(&el).is_none());
    let empty = JsxElement { attributes: vec![] };
    assert!(StyleProp::check(&empty).is_none());
}

#[test]
fn computed_names_produce_nothing() {
    let members = vec![
        ObjectMember::Property {
            name: MemberName::Computed,
            value: number(5, 7, NumericValue::NonZero),
        },
        ObjectMember::Property { name: MemberName::Computed, value: MemberValue::Other },
        ObjectMember::Other,
    ];
    assert!(scan_members(&members).is_empty());
    assert!(StyleProp::run(&style_element(members)).is_none());
}

#[test]
fn zero_never_needs_a_unit() {
    for name in ["width", "height", "margin", "padding", "border-width", "font-size"] {
        let members = vec![prop(name, 0, number(20, 21, NumericValue::Zero))];
        assert!(scan_members(&members).is_empty());
    }
    // A camel-cased name with zero: only the name is reported.
    let members = vec![prop("borderWidth", 0, number(20, 21, NumericValue::Zero))];
    assert_eq!(
        scan_members(&members),
        vec![Finding { range: range(0, 11), error: StylePropError::Kebab("borderWidth".to_string()) }]
    );
}

#[test]
fn non_zero_needs_exactly_one_unit_finding() {
    for name in ["width", "height", "margin", "padding", "border-width", "font-size"] {
        let members = vec![prop(name, 0, number(30, 33, NumericValue::NonZero))];
        assert_eq!(
            scan_members(&members),
            vec![Finding { range: range(30, 33), error: StylePropError::NumberLiteral }]
        );
    }
}

#[test]
fn bare_number_on_other_property_is_accepted() {
    let members = vec![
        prop("margin-top", 0, number(12, 14, NumericValue::NonZero)),
        prop("opacity", 20, number(29, 32, NumericValue::NonZero)),
        prop("width", 40, number(47, 50, NumericValue::Unreadable)),
    ];
    assert!(scan_members(&members).is_empty());
}

#[test]
fn non_numeric_values_need_no_unit() {
    for name in ["width", "height", "margin", "padding", "border-width", "font-size"] {
        let members = vec![prop(name, 0, MemberValue::Other)];
        assert!(scan_members(&members).is_empty());
    }
}

#[test]
fn findings_follow_document_order() {
    let members = vec![
        prop("width", 0, number(7, 9, NumericValue::NonZero)),
        prop("color", 10, MemberValue::Other),
        prop("lineHeight", 20, number(32, 33, NumericValue::NonZero)),
        prop("fontSize", 40, number(50, 52, NumericValue::NonZero)),
        prop("font-size", 60, number(71, 73, NumericValue::NonZero)),
    ];
    let expected = vec![
        Finding { range: range(7, 9), error: StylePropError::NumberLiteral },
        Finding { range: range(20, 30), error: StylePropError::Kebab("lineHeight".to_string()) },
        Finding { range: range(40, 48), error: StylePropError::Kebab("fontSize".to_string()) },
        Finding { range: range(71, 73), error: StylePropError::NumberLiteral },
    ];
    assert_eq!(scan_members(&members), expected);
    let d = StyleProp::diagnostic(&expected).unwrap();
    assert_eq!(d.primary.range, range(7, 9));
    assert_eq!(d.primary.message, UNIT_MESSAGE);
    let details: Vec<(TextRange, String)> =
        d.details.iter().map(|a| (a.range, a.message.clone())).collect();
    assert_eq!(
        details,
        vec![
            (range(20, 30), "lineHeight is not kebab-case.".to_string()),
            (range(40, 48), "fontSize is not kebab-case.".to_string()),
            (range(71, 73), UNIT_MESSAGE.to_string()),
        ]
    );
}

#[test]
fn findings_of_several_style_attributes_accumulate() {
    let el = JsxElement {
        attributes: vec![
            JsxAttribute::Attribute {
                name: "style".to_string(),
                value: AttributeValue::ObjectExpression(vec![prop("fontSize", 10, MemberValue::Other)]),
            },
            JsxAttribute::Attribute { name: "class".to_string(), value: AttributeValue::StringLiteral },
            JsxAttribute::Attribute {
                name: "style".to_string(),
                value: AttributeValue::ObjectExpression(vec![prop(
                    "height",
                    40,
                    number(48, 50, NumericValue::NonZero),
                )]),
            },
        ],
    };
    assert_eq!(
        StyleProp::run(&el).unwrap(),
        vec![
            Finding { range: range(10, 18), error: StylePropError::Kebab("fontSize".to_string()) },
            Finding { range: range(48, 50), error: StylePropError::NumberLiteral },
        ]
    );
}

#[test]
fn diagnostic_of_no_findings_is_none() {
    assert!(StyleProp::diagnostic(&vec![]).is_none());
}

use dberror::DBError;

#[test]
fn unknown_renders() {
    assert_eq!(DBError::Unknown.render(), "Unknown Error");
}

#[test]
fn io_renders_with_message() {
    let e = DBError::IO("disk read failed".to_string());
    assert_eq!(e.render(), "IO Error disk read failed");
}

#[test]
fn unknown_type_renders() {
    let e = DBError::UnknownType("decimal128".to_string());
    assert_eq!(e.render(), "Unknown/Unexpected Type decimal128");
}

#[test]
fn attribute_missing_renders_price() {
    let e = DBError::AttributeMissing("price".to_string());
    assert_eq!(e.render(), "Unknown Attribute price");
}

#[test]
fn attribute_nullability_renders() {
    let e = DBError::AttributeNullability("city".to_string());
    assert_eq!(e.render(), "Attribute Not Nullable city");
}

#[test]
fn attribute_type_renders() {
    let e = DBError::AttributeType("age".to_string());
    assert_eq!(e.render(), "Attribute Type Mismatch age");
}

#[test]
fn attribute_duplicate_renders_id() {
    let e = DBError::AttributeDuplicate("id".to_string());
    assert_eq!(e.render(), "Duplicate Attribute name id in output schema");
}

#[test]
fn expression_input_type_renders() {
    let e = DBError::ExpressionInputType("boolean and integer".to_string());
    assert_eq!(e.render(), "Invalid expression input type: boolean and integer");
}

#[test]
fn expression_input_count_renders() {
    let e = DBError::ExpressionInputCount("expected 2, got 3".to_string());
    assert_eq!(e.render(), "Invalid expression input count: expected 2, got 3");
}

#[test]
fn expression_not_const_renders() {
    assert_eq!(DBError::ExpressionNotCost.render(), "Expression expected to be const");
}

#[test]
fn row_out_of_bounds_renders() {
    assert_eq!(DBError::RowOutOfBounds.render(), "Row out of bounds");
}

#[test]
fn memory_renders_with_detail() {
    let e = DBError::Memory("layout too large".to_string());
    assert_eq!(e.render(), "Memory allocation failure: layout too large");
}

#[test]
fn memory_limit_renders_and_stays_distinct() {
    let limit = DBError::MemoryLimit;
    assert_eq!(limit.render(), "Memory allocation failure due to policy limit");
    // Both memory variants share the "Memory allocation failure" prefix, yet
    // they are distinct values with distinct match arms and distinct text.
    let hard = DBError::Memory("out of memory".to_string());
    assert!(limit.render().starts_with("Memory allocation failure"));
    assert!(hard.render().starts_with("Memory allocation failure"));
    assert_ne!(limit.render(), hard.render());
    assert!(matches!(limit, DBError::MemoryLimit));
    assert!(!matches!(limit, DBError::Memory(_)));
    assert!(matches!(hard, DBError::Memory(_)));
    assert!(!matches!(hard, DBError::MemoryLimit));
}

#[test]
fn memory_limit_distinct_even_when_texts_align_in_length() {
    // A hard failure whose detail makes the two messages equally long still
    // renders differently from the policy refusal.
    let hard = DBError::Memory("due to policy limi".to_string());
    let limit = DBError::MemoryLimit;
    assert_eq!(hard.render().len(), limit.render().len());
    assert_ne!(hard.render(), limit.render());
}

#[test]
fn unknown_pos_renders_three() {
    let e = DBError::make_column_unknown_pos(3);
    assert_eq!(e.render(), "Unknown Attribute (pos: 3)");
}

#[test]
fn unknown_pos_renders_zero() {
    let e = DBError::make_column_unknown_pos(0);
    assert_eq!(e.render(), "Unknown Attribute (pos: 0)");
}

#[test]
fn unknown_pos_renders_multiple_digits() {
    let e = DBError::make_column_unknown_pos(1230);
    assert_eq!(e.render(), "Unknown Attribute (pos: 1230)");
}

#[test]
fn unknown_pos_renders_largest_index() {
    let e = DBError::make_column_unknown_pos(usize::MAX);
    assert_eq!(e.render(), format!("Unknown Attribute (pos: {})", usize::MAX));
}

#[test]
fn unknown_pos_builds_missing_attribute_variant() {
    let e = DBError::make_column_unknown_pos(7);
    assert!(matches!(e, DBError::AttributeMissing(_)));
}

#[test]
fn not_nullable_helper_matches_direct_construction() {
    let via_helper = DBError::make_column_not_nullable("city".to_string());
    let direct = DBError::AttributeNullability("city".to_string());
    assert_eq!(via_helper.render(), direct.render());
    assert!(matches!(via_helper, DBError::AttributeNullability(_)));
}

#[test]
fn rendering_is_idempotent() {
    let e = DBError::AttributeMissing("price".to_string());
    assert_eq!(e.render(), e.render());
    let first = DBError::MemoryLimit.render();
    let second = DBError::MemoryLimit.render();
    assert_eq!(first, second);
}

#[test]
fn rendering_contains_payload_verbatim() {
    let payload = "a quite specific payload";
    let cases = vec![
        DBError::IO(payload.to_string()),
        DBError::UnknownType(payload.to_string()),
        DBError::AttributeMissing(payload.to_string()),
        DBError::AttributeNullability(payload.to_string()),
        DBError::AttributeType(payload.to_string()),
        DBError::AttributeDuplicate(payload.to_string()),
        DBError::ExpressionInputType(payload.to_string()),
        DBError::ExpressionInputCount(payload.to_string()),
        DBError::Memory(payload.to_string()),
    ];
    for e in cases {
        assert!(e.render().contains(payload));
    }
}

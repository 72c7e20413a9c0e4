use ndc_postgres::catalog::{comparison_operators, lookup_comparison};
use ndc_postgres::metadata::ScalarType;
use ndc_postgres::operators::{equals, translate_comparison, BinaryComparisonOperator, Error};

fn st(s: &str) -> ScalarType {
    ScalarType(s.to_string())
}

fn other(name: &str) -> BinaryComparisonOperator {
    BinaryComparisonOperator::Other { name: name.to_string() }
}

#[test]
fn equality_keeps_left_type() {
    for t in ["int4", "text", "bytea", "int4range", ""] {
        let (f, right) =
            translate_comparison(&st(t), &BinaryComparisonOperator::Equal).ok().expect("equal");
        assert_eq!(f, equals());
        assert_eq!(f.function_name, "=");
        assert!(f.is_infix);
        assert_eq!(right, st(t));
    }
}

#[test]
fn catalog_operator_is_translated() {
    let (f, right) = translate_comparison(&st("text"), &other("_ilike")).ok().expect("ilike");
    assert_eq!(f.function_name, "ILIKE");
    assert!(f.is_infix);
    assert_eq!(right, st("text"));
    let (f, right) = translate_comparison(&st("int8"), &other("_gte")).ok().expect("gte");
    assert_eq!(f.function_name, ">=");
    assert_eq!(right, st("int8"));
}

#[test]
fn range_contains_takes_element() {
    let (f, right) = translate_comparison(&st("daterange"), &other("_contains")).ok().expect("c");
    assert_eq!(f.function_name, "@>");
    assert_eq!(right, st("date"));
}

#[test]
fn unknown_operator_names_type_and_operator() {
    let e = match translate_comparison(&st("int4"), &other("_like")) {
        Ok(_) => panic!("expected an error"),
        Err(e) => e,
    };
    assert_eq!(
        e,
        Error::OperatorNotFound { operator_name: "_like".to_string(), scalar_type: st("int4") }
    );
    assert_eq!(e.message(), "comparison operator _like is not defined for scalar type int4");
}

#[test]
fn equality_name_is_not_in_catalog() {
    assert!(lookup_comparison(&st("int4"), &"_eq".to_string()).is_none());
    assert!(translate_comparison(&st("int4"), &other("_eq")).is_err());
}

#[test]
fn catalog_entries() {
    assert!(comparison_operators(&st("bytea")).is_empty());
    assert_eq!(comparison_operators(&st("bool")).len(), 5);
    assert_eq!(comparison_operators(&st("varchar")).len(), 14);
    assert_eq!(comparison_operators(&st("int4range")).len(), 5);
    let op = lookup_comparison(&st("text"), &"_niregex".to_string()).expect("niregex");
    assert_eq!(op.operator_name, "!~*");
    assert_eq!(op.argument_type, st("text"));
}

#[test]
fn function_style_operator_is_not_infix() {
    let (f, right) =
        translate_comparison(&st("varchar"), &other("_starts_with")).ok().expect("starts_with");
    assert_eq!(f.function_name, "starts_with");
    assert!(!f.is_infix);
    assert_eq!(right, st("varchar"));
}

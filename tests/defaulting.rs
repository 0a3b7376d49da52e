use kube_derive::defaulting::{deserialize, serialize, DefaultingError, FieldPolicy, Wire};

fn policy(nullable: bool, default: Option<&str>, skip_if_none: bool) -> FieldPolicy {
    FieldPolicy { nullable, default: default.map(|d| d.to_string()), skip_if_none }
}

fn round_trip(p: &FieldPolicy, v: Option<&str>) -> Result<Option<String>, DefaultingError> {
    let w = serialize(p, &v.map(|s| s.to_string()));
    deserialize(p, &w)
}

#[test]
fn non_nullable_without_default() {
    let p = policy(false, None, false);
    assert_eq!(round_trip(&p, Some("x")), Ok(Some("x".to_string())));
    assert_eq!(deserialize(&p, &Wire::Missing), Err(DefaultingError::RequiredValue));
    assert_eq!(deserialize(&p, &Wire::Null), Err(DefaultingError::RequiredValue));
}

#[test]
fn non_nullable_with_default() {
    let p = policy(false, Some("\"d\""), false);
    assert_eq!(round_trip(&p, Some("x")), Ok(Some("x".to_string())));
    assert_eq!(deserialize(&p, &Wire::Missing), Ok(Some("\"d\"".to_string())));
    assert_eq!(deserialize(&p, &Wire::Null), Ok(Some("\"d\"".to_string())));
}

#[test]
fn nullable_skipped_without_default() {
    let p = policy(true, None, true);
    assert!(matches!(serialize(&p, &None), Wire::Missing));
    assert_eq!(round_trip(&p, None), Ok(None));
    assert_eq!(deserialize(&p, &Wire::Null), Ok(None));
}

#[test]
fn nullable_written_as_null_without_default() {
    let p = policy(true, None, false);
    assert!(matches!(serialize(&p, &None), Wire::Null));
    assert_eq!(round_trip(&p, None), Ok(None));
    assert_eq!(round_trip(&p, Some("v")), Ok(Some("v".to_string())));
}

#[test]
fn nullable_skipped_with_default() {
    let p = policy(true, Some("\"d\""), true);
    assert!(matches!(serialize(&p, &None), Wire::Missing));
    assert_eq!(round_trip(&p, None), Ok(Some("\"d\"".to_string())));
    assert_eq!(deserialize(&p, &Wire::Null), Ok(None));
}

#[test]
fn nullable_written_as_null_with_default() {
    let p = policy(true, Some("\"d\""), false);
    assert!(matches!(serialize(&p, &None), Wire::Null));
    assert_eq!(round_trip(&p, None), Ok(None));
    assert_eq!(deserialize(&p, &Wire::Missing), Ok(Some("\"d\"".to_string())));
}

#[test]
fn present_value_always_kept() {
    let p = policy(true, Some("\"d\""), true);
    assert_eq!(deserialize(&p, &Wire::Present("\"x\"".to_string())), Ok(Some("\"x\"".to_string())));
}

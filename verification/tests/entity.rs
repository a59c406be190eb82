use rust_link::entity::{check_entity_length, content_length_plan, EntityError};

#[test]
fn content_length_missing_means_empty_body() {
    assert_eq!(Ok(0), content_length_plan(&None));
}

#[test]
fn content_length_empty_means_empty_body() {
    assert_eq!(Ok(0), content_length_plan(&Some(b"".to_vec())));
}

#[test]
fn content_length_zero_means_empty_body() {
    assert_eq!(Ok(0), content_length_plan(&Some(b"0".to_vec())));
}

#[test]
fn content_length_plain_number() {
    assert_eq!(Ok(259), content_length_plan(&Some(b"259".to_vec())));
}

#[test]
fn content_length_non_numeric_fails() {
    assert_eq!(
        Err(EntityError::BadContentLength),
        content_length_plan(&Some(b"efg".to_vec()))
    );
}

#[test]
fn entity_length_match_is_accepted() {
    assert_eq!(Ok(()), check_entity_length(&b"abc".to_vec(), 3));
    assert_eq!(Ok(()), check_entity_length(&Vec::new(), 0));
}

#[test]
fn entity_length_mismatch_is_fatal() {
    assert_eq!(
        Err(EntityError::LengthMismatch),
        check_entity_length(&b"ab".to_vec(), 3)
    );
    assert_eq!(
        Err(EntityError::LengthMismatch),
        check_entity_length(&b"abcd".to_vec(), 3)
    );
}

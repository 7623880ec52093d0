use cardboard::boards::CreateBoardRequest;
use cardboard::validation::{FieldViolation, LengthViolation, RequestField};
use cardboard::posts::CreatePostRequest;

fn board(slug: &str, name: &str, description: Option<&str>) -> CreateBoardRequest {
    CreateBoardRequest {
        slug: slug.to_string(),
        name: name.to_string(),
        description: description.map(|d| d.to_string()),
    }
}

#[test]
fn board_request_within_bounds_is_valid() {
    assert_eq!(board("b", "Random", None).validate(), Ok(()));
    assert_eq!(board("abcdefghijklmnop", "ab", Some("")).validate(), Ok(()));
    assert_eq!(board("tech", &"n".repeat(64), Some(&"d".repeat(2000))).validate(), Ok(()));
}

#[test]
fn empty_slug_is_too_short() {
    assert_eq!(
        board("", "Random", None).validate(),
        Err(vec![FieldViolation { field: RequestField::Slug, violation: LengthViolation::TooShort(1) }])
    );
}

#[test]
fn slug_limit_counts_bytes_not_characters() {
    // nine characters, eighteen bytes
    assert_eq!(
        board("ééééééééé", "Random", None).validate(),
        Err(vec![FieldViolation { field: RequestField::Slug, violation: LengthViolation::TooLong(16) }])
    );
    // eight characters, sixteen bytes
    assert_eq!(board("éééééééé", "Random", None).validate(), Ok(()));
}

#[test]
fn every_broken_rule_is_reported_in_field_order() {
    assert_eq!(
        board(&"s".repeat(17), "x", Some(&"d".repeat(2001))).validate(),
        Err(vec![
            FieldViolation { field: RequestField::Slug, violation: LengthViolation::TooLong(16) },
            FieldViolation { field: RequestField::Name, violation: LengthViolation::TooShort(2) },
            FieldViolation { field: RequestField::Description, violation: LengthViolation::TooLong(2000) },
        ])
    );
}

#[test]
fn name_too_long() {
    assert_eq!(
        board("b", &"n".repeat(65), None).validate(),
        Err(vec![FieldViolation { field: RequestField::Name, violation: LengthViolation::TooLong(64) }])
    );
}

#[test]
fn post_content_bounds() {
    let post = |c: &str| CreatePostRequest { content: c.to_string() };
    assert_eq!(post("hello").validate(), Ok(()));
    assert_eq!(post(&"x".repeat(2000)).validate(), Ok(()));
    assert_eq!(
        post("").validate(),
        Err(vec![FieldViolation { field: RequestField::Content, violation: LengthViolation::TooShort(1) }])
    );
    assert_eq!(
        post(&"x".repeat(2001)).validate(),
        Err(vec![FieldViolation { field: RequestField::Content, violation: LengthViolation::TooLong(2000) }])
    );
}

#[test]
fn field_names_and_messages() {
    assert_eq!(RequestField::Slug.name(), "slug");
    assert_eq!(RequestField::Name.name(), "name");
    assert_eq!(RequestField::Description.name(), "description");
    assert_eq!(RequestField::Content.name(), "content");
}

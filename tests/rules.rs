use user_service::model::{copy_users, error_response, success_response, user_from_row, PartialUser, User};
use user_service::statements::{field_mask, update_statement, FieldMask, UPDATE_BOTH, UPDATE_EMAIL, UPDATE_NAME};
use user_service::validate::{is_blank_name, is_valid_email, judge_changes, validate_changes, ChangeError};

#[test]
fn blank_names() {
    assert!(is_blank_name(""));
    assert!(is_blank_name("   "));
    assert!(is_blank_name("\t\n "));
    assert!(!is_blank_name(" Ann "));
}

#[test]
fn email_shapes() {
    assert!(is_valid_email("ann@x.com"));
    assert!(is_valid_email("a.b@mail.example.org"));
    assert!(!is_valid_email("not-an-email"));
    assert!(!is_valid_email("ann@xcom"));
    assert!(!is_valid_email("an n@x.com"));
    assert!(!is_valid_email("ann@@x.com"));
    assert!(!is_valid_email("@x.com"));
    assert!(!is_valid_email(""));
}

#[test]
fn change_verdicts() {
    let none = PartialUser { name: None, email: None };
    assert_eq!(validate_changes(&none), Err(ChangeError::NoChanges));
    let blank = PartialUser { name: Some(" ".to_string()), email: Some("ann@x.com".to_string()) };
    assert_eq!(validate_changes(&blank), Err(ChangeError::BlankName));
    let bad = PartialUser { name: Some("Ann".to_string()), email: Some("ann".to_string()) };
    assert_eq!(validate_changes(&bad), Err(ChangeError::BadEmail));
    let good = PartialUser { name: Some("Ann".to_string()), email: Some("ann@x.com".to_string()) };
    assert_eq!(validate_changes(&good), Ok(()));
    let name_only = PartialUser { name: Some("Ann".to_string()), email: None };
    assert_eq!(judge_changes(&name_only, false, false), Ok(()));
    assert_eq!(judge_changes(&name_only, true, true), Err(ChangeError::BlankName));
}

#[test]
fn update_statements_by_mask() {
    assert_eq!(update_statement(FieldMask { name: true, email: true }), Some(UPDATE_BOTH));
    assert_eq!(update_statement(FieldMask { name: true, email: false }), Some(UPDATE_NAME));
    assert_eq!(update_statement(FieldMask { name: false, email: true }), Some(UPDATE_EMAIL));
    assert_eq!(update_statement(FieldMask { name: false, email: false }), None);
    assert_eq!(UPDATE_BOTH, "UPDATE userks.users SET name = ?, email = ? WHERE id = ?");
    let m = field_mask(&PartialUser { name: None, email: Some("a@b.c".to_string()) });
    assert!(!m.name && m.email);
}

#[test]
fn rows_with_missing_columns_read_as_empty() {
    let u = user_from_row(3, None, Some("a@b.c".to_string()));
    assert_eq!(u, User { id: Some(3), name: String::new(), email: "a@b.c".to_string() });
}

#[test]
fn envelopes() {
    let ok = success_response("all users", Some(5u32));
    assert_eq!(ok.message, "all users");
    assert!(ok.success);
    assert_eq!(ok.data, Some(5));
    let (status, err) = error_response("No user found", 404);
    assert_eq!(status, 404);
    assert_eq!(err.message, "No user found");
    assert!(!err.success);
    assert!(err.data.is_none());
}

#[test]
fn copies_keep_order() {
    let v = vec![
        User { id: Some(1), name: "a".to_string(), email: "a@x.io".to_string() },
        User { id: Some(2), name: "b".to_string(), email: "b@x.io".to_string() },
    ];
    assert_eq!(copy_users(&v), v);
}


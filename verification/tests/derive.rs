use dioxus_auth::derive::{plan_auth_user_derive, DeriveError, DeriveInputDesc, DerivePlan, ItemShape};

fn attrs(pairs: &[(&str, &str)]) -> Vec<(String, String)> {
    pairs.iter().map(|(k, v)| (k.to_string(), v.to_string())).collect()
}

fn named(fields: &[&str]) -> ItemShape {
    ItemShape::NamedStruct(fields.iter().map(|f| f.to_string()).collect())
}

#[test]
fn id_and_hash_fields_are_found() {
    let input = DeriveInputDesc {
        attributes: attrs(&[("id", "id"), ("session_auth_hash", "password_hash")]),
        shape: named(&["email", "id", "password_hash"]),
    };
    assert_eq!(plan_auth_user_derive(&input), Ok(DerivePlan { id_field: 1, hash_field: Some(2) }));
}

#[test]
fn missing_hash_field_is_dropped() {
    let input = DeriveInputDesc {
        attributes: attrs(&[("session_auth_hash", "nope"), ("id", "id"), ("other", "x")]),
        shape: named(&["id"]),
    };
    assert_eq!(plan_auth_user_derive(&input), Ok(DerivePlan { id_field: 0, hash_field: None }));
}

#[test]
fn errors_in_order() {
    let no_id = DeriveInputDesc { attributes: attrs(&[]), shape: ItemShape::NotAStruct };
    assert_eq!(plan_auth_user_derive(&no_id), Err(DeriveError::MissingId));
    let enum_item = DeriveInputDesc { attributes: attrs(&[("id", "id")]), shape: ItemShape::NotAStruct };
    assert_eq!(plan_auth_user_derive(&enum_item), Err(DeriveError::NotAStruct));
    let tuple = DeriveInputDesc { attributes: attrs(&[("id", "id")]), shape: ItemShape::UnnamedStruct };
    assert_eq!(plan_auth_user_derive(&tuple), Err(DeriveError::UnnamedFields));
    let missing = DeriveInputDesc { attributes: attrs(&[("id", "uid")]), shape: named(&["id"]) };
    assert_eq!(plan_auth_user_derive(&missing), Err(DeriveError::IdNotFound("uid".to_string())));
}

#[test]
fn last_id_entry_wins() {
    let input = DeriveInputDesc { attributes: attrs(&[("id", "a"), ("id", "b")]), shape: named(&["a", "b"]) };
    assert_eq!(plan_auth_user_derive(&input), Ok(DerivePlan { id_field: 1, hash_field: None }));
}

#[test]
fn error_messages() {
    assert_eq!(DeriveError::MissingId.message(), "missing required #[auth_user(id = \"field_name\")] attribute");
    assert_eq!(DeriveError::NotAStruct.message(), "AuthUser derive only supports structs");
    assert_eq!(DeriveError::UnnamedFields.message(), "AuthUser derive only supports named fields");
    assert_eq!(DeriveError::IdNotFound("uid".into()).message(), "id field `uid` not found in struct");
}

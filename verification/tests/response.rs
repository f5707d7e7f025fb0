use supabase_micro::error::{Error, PostgrestError};
use supabase_micro::response::{map_status, SupabaseResponse};

#[test]
fn success_status() {
    assert!(map_status(200).is_ok());
    assert!(map_status(201).is_ok());
    assert!(map_status(204).is_ok());
}

#[test]
fn error_status() {
    let err = map_status(401).unwrap_err();
    assert_eq!(err, Error::Postgrest(PostgrestError::AuthRequired));

    let err = map_status(409).unwrap_err();
    assert_eq!(err, Error::Postgrest(PostgrestError::UniqueViolation));

    let err = map_status(404).unwrap_err();
    assert_eq!(err, Error::Postgrest(PostgrestError::TableNotFound));
}

#[test]
fn status_boundaries() {
    assert!(map_status(199).is_err());
    assert!(map_status(299).is_ok());
    assert_eq!(
        map_status(300).unwrap_err(),
        Error::Postgrest(PostgrestError::Unknown(300))
    );
    assert!(!SupabaseResponse::new(199, b"").is_success());
    assert!(SupabaseResponse::new(200, b"").is_success());
    assert!(SupabaseResponse::new(299, b"").is_success());
    assert!(!SupabaseResponse::new(300, b"").is_success());
}

#[test]
fn known_code_wins_over_status() {
    let resp = SupabaseResponse::new(401, br#"{"code":"PGRST301","message":"JWT expired"}"#);
    assert_eq!(
        resp.error_for_code(Some("PGRST301")),
        Error::Postgrest(PostgrestError::JwtInvalid)
    );
    let resp = SupabaseResponse::new(409, br#"{"code":"23505","message":"duplicate key"}"#);
    assert_eq!(
        resp.error_for_code(Some("23505")),
        Error::Postgrest(PostgrestError::UniqueViolation)
    );
    let resp = SupabaseResponse::new(409, b"");
    assert_eq!(
        resp.error_for_code(Some("23503")),
        Error::Postgrest(PostgrestError::ForeignKeyViolation)
    );
}

#[test]
fn unknown_or_missing_code_falls_back_to_status() {
    let resp = SupabaseResponse::new(403, b"not json");
    assert_eq!(
        resp.error_for_code(None),
        Error::Postgrest(PostgrestError::InsufficientPrivilege)
    );
    assert_eq!(
        resp.error_for_code(Some("XX999")),
        Error::Postgrest(PostgrestError::InsufficientPrivilege)
    );
    let resp = SupabaseResponse::new(500, b"");
    assert_eq!(
        resp.error_for_code(None),
        Error::Postgrest(PostgrestError::Unknown(500))
    );
}

#[test]
fn success_is_no_error_to_report() {
    let resp = SupabaseResponse::new(200, b"[]");
    assert_eq!(resp.error_for_code(Some("PGRST301")), Error::InvalidRequest);
    assert_eq!(resp.status, 200);
    assert_eq!(resp.body, b"[]");
}

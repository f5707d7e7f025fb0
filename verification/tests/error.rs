use supabase_micro::error::{Error, PostgrestError};

#[test]
fn pgrst_codes_map_to_errors() {
    let cases = [
        ("PGRST000", PostgrestError::ConnectionError),
        ("PGRST001", PostgrestError::ConnectionError),
        ("PGRST002", PostgrestError::ConnectionError),
        ("PGRST003", PostgrestError::ConnectionPool),
        ("PGRST100", PostgrestError::InvalidQueryString),
        ("PGRST101", PostgrestError::MethodNotAllowed),
        ("PGRST102", PostgrestError::InvalidBody),
        ("PGRST103", PostgrestError::InvalidRange),
        ("PGRST105", PostgrestError::InvalidUpsert),
        ("PGRST106", PostgrestError::SchemaNotExposed),
        ("PGRST107", PostgrestError::InvalidContentType),
        ("PGRST114", PostgrestError::InvalidUpsert),
        ("PGRST115", PostgrestError::InvalidUpsert),
        ("PGRST116", PostgrestError::SingularityViolation),
        ("PGRST117", PostgrestError::MethodNotAllowed),
        ("PGRST125", PostgrestError::TableNotFound),
        ("PGRST200", PostgrestError::RelationshipError),
        ("PGRST201", PostgrestError::AmbiguousRelation),
        ("PGRST202", PostgrestError::FunctionNotFound),
        ("PGRST203", PostgrestError::AmbiguousRelation),
        ("PGRST205", PostgrestError::TableNotFound),
        ("PGRST300", PostgrestError::JwtSecretMissing),
        ("PGRST301", PostgrestError::JwtInvalid),
        ("PGRST302", PostgrestError::AuthRequired),
        ("PGRST303", PostgrestError::JwtClaimsInvalid),
        ("23503", PostgrestError::ForeignKeyViolation),
        ("23505", PostgrestError::UniqueViolation),
        ("42501", PostgrestError::InsufficientPrivilege),
        ("42P01", PostgrestError::UndefinedTable),
        ("42883", PostgrestError::UndefinedFunction),
        ("25006", PostgrestError::ReadOnlyTransaction),
    ];
    for (code, expected) in cases.iter() {
        assert_eq!(&PostgrestError::from_pgrst_code(code), expected, "code {}", code);
    }
}

#[test]
fn unknown_pgrst_codes() {
    assert_eq!(PostgrestError::from_pgrst_code("PGRST999"), PostgrestError::Unknown(0));
    assert_eq!(PostgrestError::from_pgrst_code(""), PostgrestError::Unknown(0));
    assert_eq!(PostgrestError::from_pgrst_code("pgrst301"), PostgrestError::Unknown(0));
    assert_eq!(PostgrestError::from_pgrst_code("PGRST3011"), PostgrestError::Unknown(0));
}

#[test]
fn http_statuses_map_to_errors() {
    assert_eq!(PostgrestError::from_http_status(401), PostgrestError::AuthRequired);
    assert_eq!(PostgrestError::from_http_status(403), PostgrestError::InsufficientPrivilege);
    assert_eq!(PostgrestError::from_http_status(404), PostgrestError::TableNotFound);
    assert_eq!(PostgrestError::from_http_status(405), PostgrestError::MethodNotAllowed);
    assert_eq!(PostgrestError::from_http_status(409), PostgrestError::UniqueViolation);
    assert_eq!(PostgrestError::from_http_status(416), PostgrestError::InvalidRange);
    assert_eq!(PostgrestError::from_http_status(500), PostgrestError::Unknown(500));
    assert_eq!(PostgrestError::from_http_status(0), PostgrestError::Unknown(0));
}

#[test]
fn error_messages() {
    assert_eq!(Error::Dns.message(), "dns resolution failed");
    assert_eq!(Error::ConnectionFailed.message(), "connection failed");
    assert_eq!(Error::Tls.message(), "tls error");
    assert_eq!(Error::Timeout.message(), "request timed out");
    assert_eq!(Error::Http(503).message(), "http error: 503");
    assert_eq!(Error::Http(0).message(), "http error: 0");
    assert_eq!(
        Error::Postgrest(PostgrestError::JwtInvalid).message(),
        "postgrest: jwt invalid"
    );
    assert_eq!(Error::BufferTooSmall.message(), "buffer too small");
    assert_eq!(Error::UrlTooLong.message(), "url exceeds buffer capacity");
    assert_eq!(Error::JsonParse.message(), "json parse error");
    assert_eq!(Error::Utf8.message(), "invalid utf-8");
    assert_eq!(Error::InvalidRequest.message(), "invalid request");
}

#[test]
fn postgrest_error_messages() {
    assert_eq!(PostgrestError::ConnectionPool.message(), "connection pool timeout");
    assert_eq!(PostgrestError::ReadOnlyTransaction.message(), "read only transaction");
    assert_eq!(PostgrestError::Unknown(65535).message(), "unknown error (65535)");
    assert_eq!(
        Error::Postgrest(PostgrestError::Unknown(7)).message(),
        "postgrest: unknown error (7)"
    );
}

#[test]
fn messages_tell_errors_apart() {
    let errors = [
        Error::Dns,
        Error::ConnectionFailed,
        Error::Tls,
        Error::Timeout,
        Error::Http(404),
        Error::Http(40),
        Error::Postgrest(PostgrestError::TableNotFound),
        Error::Postgrest(PostgrestError::Unknown(404)),
        Error::Postgrest(PostgrestError::Unknown(0)),
        Error::BufferTooSmall,
        Error::UrlTooLong,
        Error::JsonParse,
        Error::Utf8,
        Error::InvalidRequest,
    ];
    for (i, a) in errors.iter().enumerate() {
        for (j, b) in errors.iter().enumerate() {
            assert_eq!(i == j, a.message() == b.message());
        }
    }
    assert_eq!(PostgrestError::Unknown(404).message(), "unknown error (404)");
    assert_eq!(PostgrestError::JwtInvalid.message(), "jwt invalid");
}

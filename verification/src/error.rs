//! Errors of the client and of PostgREST, and how codes and statuses map onto them.
use vstd::prelude::*;
use vstd::string::*;
use crate::fixed::lemma_encode_utf8_injective;
use crate::number::{decimal, decimal_text};

verus! {

#[derive(Debug, Clone, PartialEq, Eq, Structural)]
pub enum Error {
    Dns,
    ConnectionFailed,
    Tls,
    Timeout,
    Http(u16),
    Postgrest(PostgrestError),
    BufferTooSmall,
    UrlTooLong,
    JsonParse,
    Utf8,
    InvalidRequest,
}

#[derive(Debug, Clone, PartialEq, Eq, Structural)]
pub enum PostgrestError {
    // PGRST000-003: Connection
    ConnectionError,
    ConnectionPool,
    // PGRST100-128: Request
    InvalidQueryString,
    InvalidBody,
    InvalidRange,
    InvalidUpsert,
    SchemaNotExposed,
    InvalidContentType,
    SingularityViolation,
    MethodNotAllowed,
    // PGRST200-205: Schema cache
    RelationshipError,
    AmbiguousRelation,
    FunctionNotFound,
    TableNotFound,
    // PGRST300-303: Auth
    JwtSecretMissing,
    JwtInvalid,
    AuthRequired,
    JwtClaimsInvalid,
    // Database-level (Postgres error codes)
    ForeignKeyViolation,
    UniqueViolation,
    InsufficientPrivilege,
    UndefinedTable,
    UndefinedFunction,
    ReadOnlyTransaction,
    Unknown(u16),
}

/// The error that a PostgREST or Postgres error code stands for; `Unknown(0)`
/// for any other code.
pub open spec fn pgrst_code_error(code: Seq<char>) -> PostgrestError {
    if code == "PGRST000"@ || code == "PGRST001"@ || code == "PGRST002"@ {
        PostgrestError::ConnectionError
    } else if code == "PGRST003"@ {
        PostgrestError::ConnectionPool
    } else if code == "PGRST100"@ {
        PostgrestError::InvalidQueryString
    } else if code == "PGRST102"@ {
        PostgrestError::InvalidBody
    } else if code == "PGRST103"@ {
        PostgrestError::InvalidRange
    } else if code == "PGRST105"@ || code == "PGRST114"@ || code == "PGRST115"@ {
        PostgrestError::InvalidUpsert
    } else if code == "PGRST106"@ {
        PostgrestError::SchemaNotExposed
    } else if code == "PGRST107"@ {
        PostgrestError::InvalidContentType
    } else if code == "PGRST116"@ {
        PostgrestError::SingularityViolation
    } else if code == "PGRST101"@ || code == "PGRST117"@ {
        PostgrestError::MethodNotAllowed
    } else if code == "PGRST200"@ {
        PostgrestError::RelationshipError
    } else if code == "PGRST201"@ || code == "PGRST203"@ {
        PostgrestError::AmbiguousRelation
    } else if code == "PGRST202"@ {
        PostgrestError::FunctionNotFound
    } else if code == "PGRST205"@ || code == "PGRST125"@ {
        PostgrestError::TableNotFound
    } else if code == "PGRST300"@ {
        PostgrestError::JwtSecretMissing
    } else if code == "PGRST301"@ {
        PostgrestError::JwtInvalid
    } else if code == "PGRST302"@ {
        PostgrestError::AuthRequired
    } else if code == "PGRST303"@ {
        PostgrestError::JwtClaimsInvalid
    } else if code == "23503"@ {
        PostgrestError::ForeignKeyViolation
    } else if code == "23505"@ {
        PostgrestError::UniqueViolation
    } else if code == "42501"@ {
        PostgrestError::InsufficientPrivilege
    } else if code == "42P01"@ {
        PostgrestError::UndefinedTable
    } else if code == "42883"@ {
        PostgrestError::UndefinedFunction
    } else if code == "25006"@ {
        PostgrestError::ReadOnlyTransaction
    } else {
        PostgrestError::Unknown(0)
    }
}

/// The error that an HTTP status stands for; `Unknown(status)` for any status
/// without a meaning of its own.
pub open spec fn http_status_error(status: u16) -> PostgrestError {
    if status == 401 {
        PostgrestError::AuthRequired
    } else if status == 403 {
        PostgrestError::InsufficientPrivilege
    } else if status == 404 {
        PostgrestError::TableNotFound
    } else if status == 405 {
        PostgrestError::MethodNotAllowed
    } else if status == 409 {
        PostgrestError::UniqueViolation
    } else if status == 416 {
        PostgrestError::InvalidRange
    } else {
        PostgrestError::Unknown(status)
    }
}

/// The text that describes a PostgREST error.
pub open spec fn postgrest_message(e: PostgrestError) -> Seq<char> {
    match e {
        PostgrestError::ConnectionError => "connection error"@,
        PostgrestError::ConnectionPool => "connection pool timeout"@,
        PostgrestError::InvalidQueryString => "invalid query string"@,
        PostgrestError::InvalidBody => "invalid request body"@,
        PostgrestError::InvalidRange => "invalid range"@,
        PostgrestError::InvalidUpsert => "invalid upsert"@,
        PostgrestError::SchemaNotExposed => "schema not exposed"@,
        PostgrestError::InvalidContentType => "invalid content type"@,
        PostgrestError::SingularityViolation => "singularity violation"@,
        PostgrestError::MethodNotAllowed => "method not allowed"@,
        PostgrestError::RelationshipError => "relationship error"@,
        PostgrestError::AmbiguousRelation => "ambiguous relation"@,
        PostgrestError::FunctionNotFound => "function not found"@,
        PostgrestError::TableNotFound => "table not found"@,
        PostgrestError::JwtSecretMissing => "jwt secret missing"@,
        PostgrestError::JwtInvalid => "jwt invalid"@,
        PostgrestError::AuthRequired => "auth required"@,
        PostgrestError::JwtClaimsInvalid => "jwt claims invalid"@,
        PostgrestError::ForeignKeyViolation => "foreign key violation"@,
        PostgrestError::UniqueViolation => "unique violation"@,
        PostgrestError::InsufficientPrivilege => "insufficient privilege"@,
        PostgrestError::UndefinedTable => "undefined table"@,
        PostgrestError::UndefinedFunction => "undefined function"@,
        PostgrestError::ReadOnlyTransaction => "read only transaction"@,
        PostgrestError::Unknown(code) => "unknown error ("@ + decimal(code as nat) + ")"@,
    }
}

/// The text that describes an error of the client.
pub open spec fn error_message(e: Error) -> Seq<char> {
    match e {
        Error::Dns => "dns resolution failed"@,
        Error::ConnectionFailed => "connection failed"@,
        Error::Tls => "tls error"@,
        Error::Timeout => "request timed out"@,
        Error::Http(code) => "http error: "@ + decimal(code as nat),
        Error::Postgrest(e) => "postgrest: "@ + postgrest_message(e),
        Error::BufferTooSmall => "buffer too small"@,
        Error::UrlTooLong => "url exceeds buffer capacity"@,
        Error::JsonParse => "json parse error"@,
        Error::Utf8 => "invalid utf-8"@,
        Error::InvalidRequest => "invalid request"@,
    }
}

/// Whether two strings hold the same characters, compared byte by byte.
fn same_text(a: &str, b: &str) -> (r: bool)
    ensures
        r == (a@ == b@),
{
    let x = a.as_bytes();
    let y = b.as_bytes();
    if x.len() != y.len() {
        return false;
    }
    let n = x.len();
    let mut i: usize = 0;
    while i < n
        invariant
            n == x@.len(),
            n == y@.len(),
            i <= n,
            x@ == a.spec_bytes(),
            y@ == b.spec_bytes(),
            forall|j: int| 0 <= j < i ==> x@[j] == y@[j],
        decreases n - i,
    {
        if x[i] != y[i] {
            return false;
        }
        i = i + 1;
    }
    proof {
        assert(x@ =~= y@);
        lemma_encode_utf8_injective(a@, b@);
    }
    true
}

impl PostgrestError {
    pub fn from_pgrst_code(code: &str) -> (e: Self)
        ensures
            e == pgrst_code_error(code@),
    {
        if same_text(code, "PGRST000") || same_text(code, "PGRST001") || same_text(code, "PGRST002") {
            PostgrestError::ConnectionError
        } else if same_text(code, "PGRST003") {
            PostgrestError::ConnectionPool
        } else if same_text(code, "PGRST100") {
            PostgrestError::InvalidQueryString
        } else if same_text(code, "PGRST102") {
            PostgrestError::InvalidBody
        } else if same_text(code, "PGRST103") {
            PostgrestError::InvalidRange
        } else if same_text(code, "PGRST105") || same_text(code, "PGRST114") || same_text(code, "PGRST115") {
            PostgrestError::InvalidUpsert
        } else if same_text(code, "PGRST106") {
            PostgrestError::SchemaNotExposed
        } else if same_text(code, "PGRST107") {
            PostgrestError::InvalidContentType
        } else if same_text(code, "PGRST116") {
            PostgrestError::SingularityViolation
        } else if same_text(code, "PGRST101") || same_text(code, "PGRST117") {
            PostgrestError::MethodNotAllowed
        } else if same_text(code, "PGRST200") {
            PostgrestError::RelationshipError
        } else if same_text(code, "PGRST201") || same_text(code, "PGRST203") {
            PostgrestError::AmbiguousRelation
        } else if same_text(code, "PGRST202") {
            PostgrestError::FunctionNotFound
        } else if same_text(code, "PGRST205") || same_text(code, "PGRST125") {
            PostgrestError::TableNotFound
        } else if same_text(code, "PGRST300") {
            PostgrestError::JwtSecretMissing
        } else if same_text(code, "PGRST301") {
            PostgrestError::JwtInvalid
        } else if same_text(code, "PGRST302") {
            PostgrestError::AuthRequired
        } else if same_text(code, "PGRST303") {
            PostgrestError::JwtClaimsInvalid
        } else if same_text(code, "23503") {
            PostgrestError::ForeignKeyViolation
        } else if same_text(code, "23505") {
            PostgrestError::UniqueViolation
        } else if same_text(code, "42501") {
            PostgrestError::InsufficientPrivilege
        } else if same_text(code, "42P01") {
            PostgrestError::UndefinedTable
        } else if same_text(code, "42883") {
            PostgrestError::UndefinedFunction
        } else if same_text(code, "25006") {
            PostgrestError::ReadOnlyTransaction
        } else {
            PostgrestError::Unknown(0)
        }
    }

    pub fn from_http_status(status: u16) -> (e: Self)
        ensures
            e == http_status_error(status),
    {
        match status {
            401 => PostgrestError::AuthRequired,
            403 => PostgrestError::InsufficientPrivilege,
            404 => PostgrestError::TableNotFound,
            405 => PostgrestError::MethodNotAllowed,
            409 => PostgrestError::UniqueViolation,
            416 => PostgrestError::InvalidRange,
            _ => PostgrestError::Unknown(status),
        }
    }

    /// The text that describes this error (what `Display` shows of it).
    pub fn message(&self) -> (s: String)
        ensures
            s@ == postgrest_message(*self),
    {
        match self {
            PostgrestError::ConnectionError => String::from_str("connection error"),
            PostgrestError::ConnectionPool => String::from_str("connection pool timeout"),
            PostgrestError::InvalidQueryString => String::from_str("invalid query string"),
            PostgrestError::InvalidBody => String::from_str("invalid request body"),
            PostgrestError::InvalidRange => String::from_str("invalid range"),
            PostgrestError::InvalidUpsert => String::from_str("invalid upsert"),
            PostgrestError::SchemaNotExposed => String::from_str("schema not exposed"),
            PostgrestError::InvalidContentType => String::from_str("invalid content type"),
            PostgrestError::SingularityViolation => String::from_str("singularity violation"),
            PostgrestError::MethodNotAllowed => String::from_str("method not allowed"),
            PostgrestError::RelationshipError => String::from_str("relationship error"),
            PostgrestError::AmbiguousRelation => String::from_str("ambiguous relation"),
            PostgrestError::FunctionNotFound => String::from_str("function not found"),
            PostgrestError::TableNotFound => String::from_str("table not found"),
            PostgrestError::JwtSecretMissing => String::from_str("jwt secret missing"),
            PostgrestError::JwtInvalid => String::from_str("jwt invalid"),
            PostgrestError::AuthRequired => String::from_str("auth required"),
            PostgrestError::JwtClaimsInvalid => String::from_str("jwt claims invalid"),
            PostgrestError::ForeignKeyViolation => String::from_str("foreign key violation"),
            PostgrestError::UniqueViolation => String::from_str("unique violation"),
            PostgrestError::InsufficientPrivilege => String::from_str("insufficient privilege"),
            PostgrestError::UndefinedTable => String::from_str("undefined table"),
            PostgrestError::UndefinedFunction => String::from_str("undefined function"),
            PostgrestError::ReadOnlyTransaction => String::from_str("read only transaction"),
            PostgrestError::Unknown(code) => {
                let mut s = String::from_str("unknown error (");
                let digits = decimal_text(*code as usize);
                s.append(digits.as_str());
                s.append(")");
                s
            },
        }
    }
}

impl Error {
    /// The text that describes this error (what `Display` shows of it).
    pub fn message(&self) -> (s: String)
        ensures
            s@ == error_message(*self),
    {
        match self {
            Error::Dns => String::from_str("dns resolution failed"),
            Error::ConnectionFailed => String::from_str("connection failed"),
            Error::Tls => String::from_str("tls error"),
            Error::Timeout => String::from_str("request timed out"),
            Error::Http(code) => {
                let mut s = String::from_str("http error: ");
                let digits = decimal_text(*code as usize);
                s.append(digits.as_str());
                s
            },
            Error::Postgrest(e) => {
                let mut s = String::from_str("postgrest: ");
                let inner = e.message();
                s.append(inner.as_str());
                s
            },
            Error::BufferTooSmall => String::from_str("buffer too small"),
            Error::UrlTooLong => String::from_str("url exceeds buffer capacity"),
            Error::JsonParse => String::from_str("json parse error"),
            Error::Utf8 => String::from_str("invalid utf-8"),
            Error::InvalidRequest => String::from_str("invalid request"),
        }
    }
}

} // verus!

//! HTTP responses from PostgREST: success, and the error that a failure means.
use vstd::prelude::*;
use crate::error::{Error, PostgrestError, pgrst_code_error, http_status_error};

verus! {

/// A response: HTTP status and the body bytes.
pub struct SupabaseResponse<'a> {
    pub status: u16,
    pub body: &'a [u8],
}

/// Whether an HTTP status is a success (`200..300`).
pub open spec fn success_status(status: u16) -> bool {
    200 <= status < 300
}

/// The error that a response with `status` means, given the `code` field of
/// its JSON error body (`None` when the body holds no such object): a known
/// PostgREST or Postgres code wins over the status; a success status is no
/// error to report.
pub open spec fn response_error(status: u16, code: Option<Seq<char>>) -> Error {
    if success_status(status) {
        Error::InvalidRequest
    } else if code matches Some(c) && pgrst_code_error(c) != PostgrestError::Unknown(0) {
        Error::Postgrest(pgrst_code_error(code.unwrap()))
    } else {
        Error::Postgrest(http_status_error(status))
    }
}

impl<'a> SupabaseResponse<'a> {
    pub fn new(status: u16, body: &'a [u8]) -> (r: Self)
        ensures
            r.status == status,
            r.body == body,
    {
        SupabaseResponse { status, body }
    }

    pub fn is_success(&self) -> (b: bool)
        ensures
            b == success_status(self.status),
    {
        200 <= self.status && self.status < 300
    }

    /// The error for this response, given the `code` field read from its JSON
    /// error body, or `None` when the body did not hold one.
    pub fn error_for_code(&self, code: Option<&str>) -> (e: Error)
        ensures
            e == response_error(
                self.status,
                match code {
                    Some(c) => Some(c@),
                    None => None,
                },
            ),
    {
        if self.is_success() {
            return Error::InvalidRequest;
        }
        if let Some(c) = code {
            let pg_err = PostgrestError::from_pgrst_code(c);
            if pg_err != PostgrestError::Unknown(0) {
                return Error::Postgrest(pg_err);
            }
        }
        Error::Postgrest(PostgrestError::from_http_status(self.status))
    }
}

pub fn map_status(status: u16) -> (r: Result<(), Error>)
    ensures
        r == if success_status(status) {
            Ok::<(), Error>(())
        } else {
            Err(Error::Postgrest(http_status_error(status)))
        },
{
    if 200 <= status && status < 300 {
        Ok(())
    } else {
        Err(Error::Postgrest(PostgrestError::from_http_status(status)))
    }
}

} // verus!

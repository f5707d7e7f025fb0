//! API key and optional JWT bearer token for Supabase requests.
use vstd::prelude::*;
use crate::fixed::{FixedString, utf8_len, lemma_utf8_len_concat};

verus! {

/// API key + optional JWT bearer token for Supabase requests.
pub struct Auth<'a> {
    pub api_key: &'a str,
    pub bearer_token: Option<&'a str>,
}

/// The `Authorization` value for a bearer token: `Bearer <token>`.
pub open spec fn bearer_value(token: Seq<char>) -> Seq<char> {
    "Bearer "@ + token
}

impl<'a> Auth<'a> {
    pub fn new(api_key: &'a str) -> (a: Self)
        ensures
            a.api_key == api_key,
            a.bearer_token is None,
    {
        Auth { api_key, bearer_token: None }
    }

    pub fn with_bearer(api_key: &'a str, token: &'a str) -> (a: Self)
        ensures
            a.api_key == api_key,
            a.bearer_token == Some(token),
    {
        Auth { api_key, bearer_token: Some(token) }
    }

    /// `Bearer <token>` in a buffer of `N` bytes; `None` without a token or when
    /// the value does not fit.
    pub fn authorization_value<const N: usize>(&self) -> (r: Option<FixedString<N>>)
        ensures
            match self.bearer_token {
                None => r is None,
                Some(token) => if utf8_len(bearer_value(token@)) <= N {
                    r matches Some(v) && v@ == bearer_value(token@)
                } else {
                    r is None
                },
            },
    {
        match self.bearer_token {
            None => None,
            Some(token) => {
                let mut val = FixedString::<N>::new();
                proof {
                    lemma_utf8_len_concat("Bearer "@, token@);
                    assert(Seq::<char>::empty() + "Bearer "@ =~= "Bearer "@);
                    assert(utf8_len(Seq::<char>::empty()) == 0);
                }
                if val.push_str("Bearer ").is_err() {
                    return None;
                }
                if val.push_str(token).is_err() {
                    return None;
                }
                Some(val)
            },
        }
    }
}

} // verus!

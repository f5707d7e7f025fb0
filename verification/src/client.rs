//! The top-level client: project URL and auth, from which requests start.
use vstd::prelude::*;
use crate::auth::Auth;
use crate::postgrest::{Method, PostgrestBuilder, table_path};
use crate::query::QueryView;

verus! {

/// Top-level Supabase client. Holds configuration (URL + auth) without
/// owning the HTTP transport.
///
/// `N` is the capacity in bytes of the path buffer of the requests it starts.
pub struct SupabaseClient<'a, const N: usize> {
    base_url: &'a str,
    auth: Auth<'a>,
}

impl<'a, const N: usize> SupabaseClient<'a, N> {
    /// The project URL.
    pub closed spec fn spec_base_url(&self) -> &'a str {
        self.base_url
    }

    /// The credentials sent with each request.
    pub closed spec fn spec_auth(&self) -> Auth<'a> {
        self.auth
    }

    pub fn new(url: &'a str, api_key: &'a str) -> (c: Self)
        ensures
            c.spec_base_url() == url,
            c.spec_auth() == (Auth { api_key, bearer_token: None }),
    {
        SupabaseClient { base_url: url, auth: Auth::new(api_key) }
    }

    pub fn with_auth(url: &'a str, api_key: &'a str, jwt: &'a str) -> (c: Self)
        ensures
            c.spec_base_url() == url,
            c.spec_auth() == (Auth { api_key, bearer_token: Some(jwt) }),
    {
        SupabaseClient { base_url: url, auth: Auth::with_bearer(api_key, jwt) }
    }

    /// A `GET` request on `table` of this project, carrying this client's auth.
    pub fn from(&'a self, table: &'a str) -> (b: PostgrestBuilder<'a, N>)
        ensures
            b@.base_url == self.spec_base_url(),
            b@.auth matches Some(a) && *a == self.spec_auth(),
            b@.query == (QueryView { path: table_path(table@, N as nat), has_params: false }),
            b@.method == Method::Get,
            b@.body is None,
            !b@.prefer_return,
            !b@.prefer_count,
            !b@.prefer_upsert,
    {
        let mut builder = PostgrestBuilder::new(self.base_url, table);
        builder.set_auth(&self.auth);
        builder
    }

    pub fn base_url(&self) -> (u: &str)
        ensures
            u == self.spec_base_url(),
    {
        self.base_url
    }

    pub fn auth(&self) -> (a: &Auth<'a>)
        ensures
            *a == self.spec_auth(),
    {
        &self.auth
    }
}

} // verus!

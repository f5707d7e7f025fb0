//! The request being built: method, table path with its query string, body,
//! auth and `Prefer` options.
use vstd::prelude::*;
use crate::auth::Auth;
use crate::error::Error;
use crate::fixed::{FixedString, utf8_len};
use crate::query::{
    QueryBuilder, QueryView, SortOrder, filter_pieces, kv_pieces,
    order_pieces, number_pieces,
};

verus! {

#[derive(Debug, Clone, Copy, PartialEq, Eq, Structural)]
pub enum Method {
    Get,
    Post,
    Patch,
    Delete,
}

/// What a request builder holds.
pub struct BuilderView<'a> {
    pub base_url: &'a str,
    pub auth: Option<&'a Auth<'a>>,
    pub query: QueryView,
    pub method: Method,
    pub body: Option<&'a [u8]>,
    pub prefer_return: bool,
    pub prefer_count: bool,
    pub prefer_upsert: bool,
}

/// `text + piece` when that fits in `cap` bytes, else `text`.
pub open spec fn push_if_fits(text: Seq<char>, piece: Seq<char>, cap: nat) -> Seq<char> {
    if utf8_len(text + piece) <= cap {
        text + piece
    } else {
        text
    }
}

/// The path `/rest/v1/<table>`, where each of its two parts is left out when it
/// does not fit in `cap` bytes.
pub open spec fn table_path(table: Seq<char>, cap: nat) -> Seq<char> {
    push_if_fits(push_if_fits(Seq::<char>::empty(), "/rest/v1/"@, cap), table, cap)
}

impl<'a> BuilderView<'a> {
    /// The same request with another query string.
    pub open spec fn with_query(self, query: QueryView) -> BuilderView<'a> {
        BuilderView { query, ..self }
    }
}

/// Builds a PostgREST request with method, path, query filters, and optional body.
pub struct PostgrestBuilder<'a, const N: usize> {
    base_url: &'a str,
    auth: Option<&'a Auth<'a>>,
    query: QueryBuilder<N>,
    method: Method,
    body: Option<&'a [u8]>,
    prefer_return: bool,
    prefer_count: bool,
    prefer_upsert: bool,
}

impl<'a, const N: usize> View for PostgrestBuilder<'a, N> {
    type V = BuilderView<'a>;

    closed spec fn view(&self) -> BuilderView<'a> {
        BuilderView {
            base_url: self.base_url,
            auth: self.auth,
            query: self.query@,
            method: self.method,
            body: self.body,
            prefer_return: self.prefer_return,
            prefer_count: self.prefer_count,
            prefer_upsert: self.prefer_upsert,
        }
    }
}

impl<'a, const N: usize> PostgrestBuilder<'a, N> {
    pub fn new(base_url: &'a str, table: &'a str) -> (b: Self)
        ensures
            b@ == (BuilderView {
                base_url,
                auth: None,
                query: QueryView { path: table_path(table@, N as nat), has_params: false },
                method: Method::Get,
                body: None,
                prefer_return: false,
                prefer_count: false,
                prefer_upsert: false,
            }),
    {
        let mut path_buf = FixedString::<N>::new();
        proof {
            let e = Seq::<char>::empty();
            assert(utf8_len(e) == 0);
            assert(e + "/rest/v1/"@ =~= "/rest/v1/"@);
            assert(e + table@ =~= table@);
            crate::fixed::lemma_utf8_len_concat(e, "/rest/v1/"@);
            crate::fixed::lemma_utf8_len_concat(e, table@);
            crate::fixed::lemma_utf8_len_concat("/rest/v1/"@, table@);
        }
        let _ = path_buf.push_str("/rest/v1/");
        let _ = path_buf.push_str(table);
        assert(path_buf@ == table_path(table@, N as nat));
        PostgrestBuilder {
            base_url,
            auth: None,
            query: QueryBuilder::new(path_buf.as_str()),
            method: Method::Get,
            body: None,
            prefer_return: false,
            prefer_count: false,
            prefer_upsert: false,
        }
    }

    pub fn set_auth(&mut self, auth: &'a Auth<'a>) -> (r: &mut Self)
        ensures
            r@ == (BuilderView { auth: Some(auth), ..old(self)@ }),
            *final(self) == *final(r),
    {
        self.auth = Some(auth);
        self
    }

    pub fn method(&self) -> (m: Method)
        ensures
            m == self@.method,
    {
        self.method
    }

    pub fn path(&self) -> (p: &str)
        ensures
            p@ == self@.query.path,
    {
        self.query.as_str()
    }

    pub fn base_url(&self) -> (u: &'a str)
        ensures
            u == self@.base_url,
    {
        self.base_url
    }

    pub fn body(&self) -> (b: Option<&'a [u8]>)
        ensures
            b == self@.body,
    {
        self.body
    }

    pub fn auth_ref(&self) -> (a: Option<&'a Auth<'a>>)
        ensures
            a == self@.auth,
    {
        self.auth
    }

    pub fn wants_return(&self) -> (w: bool)
        ensures
            w == self@.prefer_return,
    {
        self.prefer_return
    }

    pub fn wants_count(&self) -> (w: bool)
        ensures
            w == self@.prefer_count,
    {
        self.prefer_count
    }

    pub fn wants_upsert(&self) -> (w: bool)
        ensures
            w == self@.prefer_upsert,
    {
        self.prefer_upsert
    }

    // --- Operation methods ---

    pub fn select(&mut self, columns: &str) -> (r: Result<&mut Self, Error>)
        ensures
            r is Ok <==> old(self)@.query.param_fits(kv_pieces("select"@, columns@), N as nat),
            r matches Ok(b) ==> b@ == (BuilderView {
                method: Method::Get,
                query: old(self)@.query.with_param(kv_pieces("select"@, columns@), N as nat),
                ..old(self)@
            }) && *final(self) == *final(b),
            r matches Err(e) ==> e == Error::UrlTooLong && final(self)@ == (BuilderView {
                method: Method::Get,
                query: old(self)@.query.with_param(kv_pieces("select"@, columns@), N as nat),
                ..old(self)@
            }),
    {
        self.method = Method::Get;
        self.query.select(columns)?;
        Ok(self)
    }

    pub fn insert(&mut self, body: &'a [u8]) -> (r: &mut Self)
        ensures
            r@ == (BuilderView {
                method: Method::Post,
                body: Some(body),
                prefer_return: true,
                ..old(self)@
            }),
            *final(self) == *final(r),
    {
        self.method = Method::Post;
        self.body = Some(body);
        self.prefer_return = true;
        self
    }

    pub fn update(&mut self, body: &'a [u8]) -> (r: &mut Self)
        ensures
            r@ == (BuilderView {
                method: Method::Patch,
                body: Some(body),
                prefer_return: true,
                ..old(self)@
            }),
            *final(self) == *final(r),
    {
        self.method = Method::Patch;
        self.body = Some(body);
        self.prefer_return = true;
        self
    }

    pub fn delete(&mut self) -> (r: &mut Self)
        ensures
            r@ == (BuilderView { method: Method::Delete, ..old(self)@ }),
            *final(self) == *final(r),
    {
        self.method = Method::Delete;
        self
    }

    pub fn upsert(&mut self, body: &'a [u8]) -> (r: &mut Self)
        ensures
            r@ == (BuilderView {
                method: Method::Post,
                body: Some(body),
                prefer_upsert: true,
                prefer_return: true,
                ..old(self)@
            }),
            *final(self) == *final(r),
    {
        self.method = Method::Post;
        self.body = Some(body);
        self.prefer_upsert = true;
        self.prefer_return = true;
        self
    }

    pub fn returning(&mut self) -> (r: &mut Self)
        ensures
            r@ == (BuilderView { prefer_return: true, ..old(self)@ }),
            *final(self) == *final(r),
    {
        self.prefer_return = true;
        self
    }

    pub fn count(&mut self) -> (r: &mut Self)
        ensures
            r@ == (BuilderView { prefer_count: true, ..old(self)@ }),
            *final(self) == *final(r),
    {
        self.prefer_count = true;
        self
    }

    // --- Filter methods delegate to QueryBuilder ---

    pub fn eq(&mut self, column: &str, value: &str) -> (r: Result<&mut Self, Error>)
        ensures
            r is Ok <==> old(self)@.query.param_fits(filter_pieces(column@, "eq"@, value@), N as nat),
            r matches Ok(b) ==> b@ == old(self)@.with_query(
                old(self)@.query.with_param(filter_pieces(column@, "eq"@, value@), N as nat),
            ) && *final(self) == *final(b),
            r matches Err(e) ==> e == Error::UrlTooLong && final(self)@ == old(self)@.with_query(
                old(self)@.query.with_param(filter_pieces(column@, "eq"@, value@), N as nat),
            ),
    {
        self.query.eq(column, value)?;
        Ok(self)
    }

    pub fn neq(&mut self, column: &str, value: &str) -> (r: Result<&mut Self, Error>)
        ensures
            r is Ok <==> old(self)@.query.param_fits(filter_pieces(column@, "neq"@, value@), N as nat),
            r matches Ok(b) ==> b@ == old(self)@.with_query(
                old(self)@.query.with_param(filter_pieces(column@, "neq"@, value@), N as nat),
            ) && *final(self) == *final(b),
            r matches Err(e) ==> e == Error::UrlTooLong && final(self)@ == old(self)@.with_query(
                old(self)@.query.with_param(filter_pieces(column@, "neq"@, value@), N as nat),
            ),
    {
        self.query.neq(column, value)?;
        Ok(self)
    }

    pub fn gt(&mut self, column: &str, value: &str) -> (r: Result<&mut Self, Error>)
        ensures
            r is Ok <==> old(self)@.query.param_fits(filter_pieces(column@, "gt"@, value@), N as nat),
            r matches Ok(b) ==> b@ == old(self)@.with_query(
                old(self)@.query.with_param(filter_pieces(column@, "gt"@, value@), N as nat),
            ) && *final(self) == *final(b),
            r matches Err(e) ==> e == Error::UrlTooLong && final(self)@ == old(self)@.with_query(
                old(self)@.query.with_param(filter_pieces(column@, "gt"@, value@), N as nat),
            ),
    {
        self.query.gt(column, value)?;
        Ok(self)
    }

    pub fn gte(&mut self, column: &str, value: &str) -> (r: Result<&mut Self, Error>)
        ensures
            r is Ok <==> old(self)@.query.param_fits(filter_pieces(column@, "gte"@, value@), N as nat),
            r matches Ok(b) ==> b@ == old(self)@.with_query(
                old(self)@.query.with_param(filter_pieces(column@, "gte"@, value@), N as nat),
            ) && *final(self) == *final(b),
            r matches Err(e) ==> e == Error::UrlTooLong && final(self)@ == old(self)@.with_query(
                old(self)@.query.with_param(filter_pieces(column@, "gte"@, value@), N as nat),
            ),
    {
        self.query.gte(column, value)?;
        Ok(self)
    }

    pub fn lt(&mut self, column: &str, value: &str) -> (r: Result<&mut Self, Error>)
        ensures
            r is Ok <==> old(self)@.query.param_fits(filter_pieces(column@, "lt"@, value@), N as nat),
            r matches Ok(b) ==> b@ == old(self)@.with_query(
                old(self)@.query.with_param(filter_pieces(column@, "lt"@, value@), N as nat),
            ) && *final(self) == *final(b),
            r matches Err(e) ==> e == Error::UrlTooLong && final(self)@ == old(self)@.with_query(
                old(self)@.query.with_param(filter_pieces(column@, "lt"@, value@), N as nat),
            ),
    {
        self.query.lt(column, value)?;
        Ok(self)
    }

    pub fn lte(&mut self, column: &str, value: &str) -> (r: Result<&mut Self, Error>)
        ensures
            r is Ok <==> old(self)@.query.param_fits(filter_pieces(column@, "lte"@, value@), N as nat),
            r matches Ok(b) ==> b@ == old(self)@.with_query(
                old(self)@.query.with_param(filter_pieces(column@, "lte"@, value@), N as nat),
            ) && *final(self) == *final(b),
            r matches Err(e) ==> e == Error::UrlTooLong && final(self)@ == old(self)@.with_query(
                old(self)@.query.with_param(filter_pieces(column@, "lte"@, value@), N as nat),
            ),
    {
        self.query.lte(column, value)?;
        Ok(self)
    }

    pub fn like(&mut self, column: &str, pattern: &str) -> (r: Result<&mut Self, Error>)
        ensures
            r is Ok <==> old(self)@.query.param_fits(filter_pieces(column@, "like"@, pattern@), N as nat),
            r matches Ok(b) ==> b@ == old(self)@.with_query(
                old(self)@.query.with_param(filter_pieces(column@, "like"@, pattern@), N as nat),
            ) && *final(self) == *final(b),
            r matches Err(e) ==> e == Error::UrlTooLong && final(self)@ == old(self)@.with_query(
                old(self)@.query.with_param(filter_pieces(column@, "like"@, pattern@), N as nat),
            ),
    {
        self.query.like(column, pattern)?;
        Ok(self)
    }

    pub fn ilike(&mut self, column: &str, pattern: &str) -> (r: Result<&mut Self, Error>)
        ensures
            r is Ok <==> old(self)@.query.param_fits(filter_pieces(column@, "ilike"@, pattern@), N as nat),
            r matches Ok(b) ==> b@ == old(self)@.with_query(
                old(self)@.query.with_param(filter_pieces(column@, "ilike"@, pattern@), N as nat),
            ) && *final(self) == *final(b),
            r matches Err(e) ==> e == Error::UrlTooLong && final(self)@ == old(self)@.with_query(
                old(self)@.query.with_param(filter_pieces(column@, "ilike"@, pattern@), N as nat),
            ),
    {
        self.query.ilike(column, pattern)?;
        Ok(self)
    }

    pub fn in_(&mut self, column: &str, values: &str) -> (r: Result<&mut Self, Error>)
        ensures
            r is Ok <==> old(self)@.query.param_fits(filter_pieces(column@, "in"@, values@), N as nat),
            r matches Ok(b) ==> b@ == old(self)@.with_query(
                old(self)@.query.with_param(filter_pieces(column@, "in"@, values@), N as nat),
            ) && *final(self) == *final(b),
            r matches Err(e) ==> e == Error::UrlTooLong && final(self)@ == old(self)@.with_query(
                old(self)@.query.with_param(filter_pieces(column@, "in"@, values@), N as nat),
            ),
    {
        self.query.in_(column, values)?;
        Ok(self)
    }

    pub fn is(&mut self, column: &str, value: &str) -> (r: Result<&mut Self, Error>)
        ensures
            r is Ok <==> old(self)@.query.param_fits(filter_pieces(column@, "is"@, value@), N as nat),
            r matches Ok(b) ==> b@ == old(self)@.with_query(
                old(self)@.query.with_param(filter_pieces(column@, "is"@, value@), N as nat),
            ) && *final(self) == *final(b),
            r matches Err(e) ==> e == Error::UrlTooLong && final(self)@ == old(self)@.with_query(
                old(self)@.query.with_param(filter_pieces(column@, "is"@, value@), N as nat),
            ),
    {
        self.query.is(column, value)?;
        Ok(self)
    }

    pub fn order(&mut self, column: &str, direction: SortOrder) -> (r: Result<&mut Self, Error>)
        ensures
            r is Ok <==> old(self)@.query.param_fits(order_pieces(column@, direction), N as nat),
            r matches Ok(b) ==> b@ == old(self)@.with_query(
                old(self)@.query.with_param(order_pieces(column@, direction), N as nat),
            ) && *final(self) == *final(b),
            r matches Err(e) ==> e == Error::UrlTooLong && final(self)@ == old(self)@.with_query(
                old(self)@.query.with_param(order_pieces(column@, direction), N as nat),
            ),
    {
        self.query.order(column, direction)?;
        Ok(self)
    }

    pub fn limit(&mut self, count: usize) -> (r: Result<&mut Self, Error>)
        ensures
            r is Ok <==> old(self)@.query.param_fits(number_pieces("limit="@, count as nat), N as nat),
            r matches Ok(b) ==> b@ == old(self)@.with_query(
                old(self)@.query.with_param(number_pieces("limit="@, count as nat), N as nat),
            ) && *final(self) == *final(b),
            r matches Err(e) ==> e == Error::UrlTooLong && final(self)@ == old(self)@.with_query(
                old(self)@.query.with_param(number_pieces("limit="@, count as nat), N as nat),
            ),
    {
        self.query.limit(count)?;
        Ok(self)
    }

    pub fn offset(&mut self, start: usize) -> (r: Result<&mut Self, Error>)
        ensures
            r is Ok <==> old(self)@.query.param_fits(number_pieces("offset="@, start as nat), N as nat),
            r matches Ok(b) ==> b@ == old(self)@.with_query(
                old(self)@.query.with_param(number_pieces("offset="@, start as nat), N as nat),
            ) && *final(self) == *final(b),
            r matches Err(e) ==> e == Error::UrlTooLong && final(self)@ == old(self)@.with_query(
                old(self)@.query.with_param(number_pieces("offset="@, start as nat), N as nat),
            ),
    {
        self.query.offset(start)?;
        Ok(self)
    }
}

} // verus!

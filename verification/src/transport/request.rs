//! The URL and headers of a request, written into caller-owned buffers.
use vstd::prelude::*;
use vstd::string::*;
use vstd::utf8::*;
use crate::auth::bearer_value;
use crate::error::Error;
use crate::fixed::{FixedString, utf8_len, lemma_utf8_len_concat, lemma_ascii_utf8_len, lemma_encode_utf8_concat, lemma_encode_utf8_injective};
use crate::postgrest::{BuilderView, PostgrestBuilder};

verus! {

pub const MAX_REQUEST_HEADERS: usize = 3;

#[derive(Debug, Clone, Copy, PartialEq, Eq)]
pub struct RequestHeader<'a> {
    pub name: &'static str,
    pub value: &'a str,
}

/// What the headers of a request hold: the API key, the `Authorization`
/// value and the `Prefer` value, each when present.
pub struct HeadersView<'a> {
    pub api_key: Option<&'a str>,
    pub bearer: Option<Seq<char>>,
    pub prefer: Option<Seq<char>>,
}

/// The `Prefer` options that a request asks for, in the order PostgREST reads them.
pub open spec fn prefer_parts(b: BuilderView) -> Seq<Seq<char>> {
    (if b.prefer_upsert { seq!["resolution=merge-duplicates"@] } else { Seq::empty() })
        + (if b.prefer_return { seq!["return=representation"@] } else { Seq::empty() })
        + (if b.prefer_count { seq!["count=exact"@] } else { Seq::empty() })
}

/// `parts` separated by `", "`.
pub open spec fn join_parts(parts: Seq<Seq<char>>) -> Seq<char>
    decreases parts.len(),
{
    if parts.len() == 0 {
        Seq::empty()
    } else if parts.len() == 1 {
        parts[0]
    } else {
        join_parts(parts.drop_last()) + ", "@ + parts.last()
    }
}

/// The headers that a request builder calls for.
pub open spec fn headers_for<'a>(b: BuilderView<'a>) -> HeadersView<'a> {
    HeadersView {
        api_key: match b.auth {
            Some(a) => Some(a.api_key),
            None => None,
        },
        bearer: match b.auth {
            Some(a) => match a.bearer_token {
                Some(t) => Some(bearer_value(t@)),
                None => None,
            },
            None => None,
        },
        prefer: if prefer_parts(b).len() > 0 {
            Some(join_parts(prefer_parts(b)))
        } else {
            None
        },
    }
}

/// Whether the `Authorization` value of a request fits in its 512-byte buffer.
pub open spec fn bearer_fits(b: BuilderView) -> bool {
    match b.auth {
        Some(a) => match a.bearer_token {
            Some(t) => utf8_len(bearer_value(t@)) <= 512,
            None => true,
        },
        None => true,
    }
}

/// The header in slot `i` (`0`: `apikey`, `1`: `Authorization`, `2`: `Prefer`),
/// as name and value, when it is present.
pub open spec fn header_slot(v: HeadersView, i: int) -> Option<(Seq<char>, Seq<char>)> {
    if i == 0 {
        match v.api_key {
            Some(k) => Some(("apikey"@, k@)),
            None => None,
        }
    } else if i == 1 {
        match v.bearer {
            Some(b) => Some(("Authorization"@, b)),
            None => None,
        }
    } else if i == 2 {
        match v.prefer {
            Some(p) => Some(("Prefer"@, p)),
            None => None,
        }
    } else {
        None
    }
}

/// The headers present from slot `i` on, in slot order.
pub open spec fn headers_from(v: HeadersView, i: int) -> Seq<(Seq<char>, Seq<char>)>
    decreases 3 - i,
{
    if i >= 3 {
        Seq::empty()
    } else {
        match header_slot(v, i) {
            Some(h) => seq![h] + headers_from(v, i + 1),
            None => headers_from(v, i + 1),
        }
    }
}

/// All headers present, in the order they are sent.
pub open spec fn header_list(v: HeadersView) -> Seq<(Seq<char>, Seq<char>)> {
    headers_from(v, 0)
}

/// Byte lengths of the fixed header texts.
proof fn lemma_header_text_lengths()
    ensures
        utf8_len("Bearer "@) == 7,
        utf8_len("resolution=merge-duplicates"@) == 27,
        utf8_len("return=representation"@) == 21,
        utf8_len("count=exact"@) == 11,
        utf8_len(", "@) == 2,
{
    reveal_strlit("Bearer ");
    reveal_strlit("resolution=merge-duplicates");
    reveal_strlit("return=representation");
    reveal_strlit("count=exact");
    reveal_strlit(", ");
    assert(is_ascii_chars("Bearer "@));
    assert(is_ascii_chars("resolution=merge-duplicates"@));
    assert(is_ascii_chars("return=representation"@));
    assert(is_ascii_chars("count=exact"@));
    assert(is_ascii_chars(", "@));
    lemma_ascii_utf8_len("Bearer "@);
    lemma_ascii_utf8_len("resolution=merge-duplicates"@);
    lemma_ascii_utf8_len("return=representation"@);
    lemma_ascii_utf8_len("count=exact"@);
    lemma_ascii_utf8_len(", "@);
}

/// Joining one more part appends `", "` and the part.
proof fn lemma_join_push(parts: Seq<Seq<char>>, x: Seq<char>)
    ensures
        parts.len() == 0 ==> join_parts(parts.push(x)) == x,
        parts.len() > 0 ==> join_parts(parts.push(x)) == join_parts(parts) + ", "@ + x,
{
    assert(parts.push(x).drop_last() =~= parts);
    assert(parts.push(x).last() == x);
    if parts.len() == 0 {
        assert(parts.push(x).len() == 1);
        assert(parts.push(x)[0] == x);
    }
}

/// The `apikey`, `Authorization` and `Prefer` headers of a request.
pub struct RequestHeaders<'a> {
    api_key: Option<&'a str>,
    bearer: FixedString<512>,
    has_bearer: bool,
    prefer: FixedString<128>,
    has_prefer: bool,
}

impl<'a> View for RequestHeaders<'a> {
    type V = HeadersView<'a>;

    closed spec fn view(&self) -> HeadersView<'a> {
        HeadersView {
            api_key: self.api_key,
            bearer: if self.has_bearer {
                Some(self.bearer@)
            } else {
                None
            },
            prefer: if self.has_prefer {
                Some(self.prefer@)
            } else {
                None
            },
        }
    }
}

impl<'a> RequestHeaders<'a> {
    /// The headers that `builder` calls for; `BufferTooSmall` when the
    /// `Authorization` value does not fit in its 512-byte buffer.
    pub fn from_builder<const N: usize>(builder: &PostgrestBuilder<'a, N>) -> (r: Result<Self, Error>)
        ensures
            r is Ok <==> bearer_fits(builder@),
            r matches Ok(h) ==> h@ == headers_for(builder@),
            r matches Err(e) ==> e == Error::BufferTooSmall,
    {
        let mut headers = RequestHeaders {
            api_key: None,
            bearer: FixedString::new(),
            has_bearer: false,
            prefer: FixedString::new(),
            has_prefer: false,
        };
        proof {
            lemma_header_text_lengths();
            assert(utf8_len(Seq::<char>::empty()) == 0);
        }

        if let Some(auth) = builder.auth_ref() {
            headers.api_key = Some(auth.api_key);

            if let Some(token) = auth.bearer_token {
                proof {
                    lemma_utf8_len_concat("Bearer "@, token@);
                    assert(Seq::<char>::empty() + "Bearer "@ =~= "Bearer "@);
                }
                if headers.bearer.push_str("Bearer ").is_err() {
                    return Err(Error::BufferTooSmall);
                }
                if headers.bearer.push_str(token).is_err() {
                    return Err(Error::BufferTooSmall);
                }
                headers.has_bearer = true;
            }
        }

        let ghost mut parts: Seq<Seq<char>> = Seq::empty();

        if builder.wants_upsert() {
            proof {
                assert(Seq::<char>::empty() + "resolution=merge-duplicates"@ =~= "resolution=merge-duplicates"@);
            }
            if headers.prefer.push_str("resolution=merge-duplicates").is_err() {
                return Err(Error::BufferTooSmall);
            }
            headers.has_prefer = true;
            proof {
                lemma_join_push(parts, "resolution=merge-duplicates"@);
                parts = parts.push("resolution=merge-duplicates"@);
            }
        }
        assert(headers.prefer@ == join_parts(parts));
        assert(headers.has_prefer == (parts.len() > 0));
        assert(utf8_len(headers.prefer@) <= 27);

        if builder.wants_return() {
            let ghost before = headers.prefer@;
            proof {
                lemma_utf8_len_concat(before, ", "@);
                lemma_utf8_len_concat(before + ", "@, "return=representation"@);
                lemma_utf8_len_concat(before, "return=representation"@);
            }
            headers.push_prefer_separator()?;
            if headers.prefer.push_str("return=representation").is_err() {
                return Err(Error::BufferTooSmall);
            }
            headers.has_prefer = true;
            proof {
                lemma_join_push(parts, "return=representation"@);
                if parts.len() == 0 {
                    assert(before =~= Seq::<char>::empty());
                    assert(headers.prefer@ =~= "return=representation"@);
                }
                parts = parts.push("return=representation"@);
            }
        }
        assert(headers.prefer@ == join_parts(parts));
        assert(headers.has_prefer == (parts.len() > 0));
        assert(utf8_len(headers.prefer@) <= 50);

        if builder.wants_count() {
            let ghost before = headers.prefer@;
            proof {
                lemma_utf8_len_concat(before, ", "@);
                lemma_utf8_len_concat(before + ", "@, "count=exact"@);
                lemma_utf8_len_concat(before, "count=exact"@);
            }
            headers.push_prefer_separator()?;
            if headers.prefer.push_str("count=exact").is_err() {
                return Err(Error::BufferTooSmall);
            }
            headers.has_prefer = true;
            proof {
                lemma_join_push(parts, "count=exact"@);
                if parts.len() == 0 {
                    assert(before =~= Seq::<char>::empty());
                    assert(headers.prefer@ =~= "count=exact"@);
                }
                parts = parts.push("count=exact"@);
            }
        }
        proof {
            assert(parts =~= prefer_parts(builder@));
        }
        Ok(headers)
    }

    /// Walks the headers that are present, in the order they are sent.
    pub fn iter(&self) -> (it: RequestHeadersIter<'_>)
        ensures
            it.remaining() == header_list(self@),
    {
        RequestHeadersIter { headers: self, index: 0 }
    }

    /// Writes the headers, in the order they are sent, as `(name, value)` pairs
    /// at the front of `out`, and returns how many there are;
    /// `BufferTooSmall` when `out` has no room for all of them (after filling
    /// `out` with the first ones).
    pub fn write_into<'b>(&'b self, out: &mut [(&'static str, &'b str)]) -> (r: Result<usize, Error>)
        ensures
            final(out)@.len() == old(out)@.len(),
            r is Ok <==> header_list(self@).len() <= old(out)@.len(),
            r matches Ok(n) ==> n == header_list(self@).len(),
            forall|i: int|
                0 <= i < old(out)@.len() && i < header_list(self@).len() ==> (#[trigger] final(out)@[i]).0@
                    == header_list(self@)[i].0 && final(out)@[i].1@ == header_list(self@)[i].1,
            forall|i: int|
                header_list(self@).len() <= i < old(out)@.len() ==> #[trigger] final(out)@[i] == old(out)@[i],
            r matches Err(e) ==> e == Error::BufferTooSmall,
    {
        let mut count: usize = 0;
        let mut it = self.iter();
        let ghost all = header_list(self@);
        loop
            invariant
                out@.len() == old(out)@.len(),
                count <= out@.len(),
                count + it.remaining().len() == all.len(),
                it.remaining() == all.skip(count as int),
                all == header_list(self@),
                forall|i: int|
                    0 <= i < count ==> (#[trigger] out@[i]).0@ == all[i].0 && out@[i].1@ == all[i].1,
                forall|i: int| count <= i < out@.len() ==> #[trigger] out@[i] == old(out)@[i],
            decreases it.remaining().len(),
        {
            match it.next() {
                None => {
                    return Ok(count);
                },
                Some(header) => {
                    if count >= out.len() {
                        return Err(Error::BufferTooSmall);
                    }
                    out[count] = (header.name, header.value);
                    proof {
                        assert(all.skip(count as int).drop_first() =~= all.skip(count + 1));
                    }
                    count = count + 1;
                },
            }
        }
    }

    /// Appends `", "` to the `Prefer` value when it already holds an option.
    fn push_prefer_separator(&mut self) -> (r: Result<(), Error>)
        ensures
            final(self).api_key == old(self).api_key,
            final(self).bearer@ == old(self).bearer@,
            final(self).has_bearer == old(self).has_bearer,
            final(self).has_prefer == old(self).has_prefer,
            !old(self).has_prefer ==> r is Ok && final(self).prefer@ == old(self).prefer@,
            old(self).has_prefer ==> (r is Ok <==> utf8_len(old(self).prefer@) + utf8_len(", "@) <= 128),
            old(self).has_prefer && r is Ok ==> final(self).prefer@ == old(self).prefer@ + ", "@,
            r matches Err(e) ==> e == Error::BufferTooSmall,
    {
        if self.has_prefer {
            if self.prefer.push_str(", ").is_err() {
                return Err(Error::BufferTooSmall);
            }
        }
        Ok(())
    }
}

/// Yields the headers that are present, in the order they are sent.
pub struct RequestHeadersIter<'a> {
    headers: &'a RequestHeaders<'a>,
    index: u8,
}

impl<'a> RequestHeadersIter<'a> {
    /// The headers still to come, as name and value.
    pub closed spec fn remaining(&self) -> Seq<(Seq<char>, Seq<char>)> {
        headers_from(self.headers@, self.index as int)
    }

    /// The next header, or `None` when all have come.
    pub fn next(&mut self) -> (r: Option<RequestHeader<'a>>)
        ensures
            old(self).remaining().len() == 0 ==> r is None && final(self).remaining().len() == 0,
            old(self).remaining().len() > 0 ==> (r matches Some(h) && (h.name@, h.value@)
                == old(self).remaining()[0]) && final(self).remaining() == old(self).remaining().drop_first(),
    {
        loop
            invariant
                self.headers == old(self).headers,
                headers_from(self.headers@, self.index as int) == old(self).remaining(),
            decreases 3 - self.index,
        {
            let header = match self.index {
                0 => match self.headers.api_key {
                    Some(value) => Some(RequestHeader { name: "apikey", value }),
                    None => None,
                },
                1 => {
                    if self.headers.has_bearer {
                        Some(RequestHeader { name: "Authorization", value: self.headers.bearer.as_str() })
                    } else {
                        None
                    }
                },
                2 => {
                    if self.headers.has_prefer {
                        Some(RequestHeader { name: "Prefer", value: self.headers.prefer.as_str() })
                    } else {
                        None
                    }
                },
                _ => return None,
            };

            self.index += 1;

            if header.is_some() {
                return header;
            }
        }
    }
}

#[verifier::external_type_specification]
#[verifier::external_body]
pub struct ExUtf8Error(core::str::Utf8Error);

/// Calls `core::str::from_utf8`, which gives the text that `bytes` encode when
/// they are valid UTF-8, and an error otherwise.
#[verifier::external_body]
fn str_from_utf8(bytes: &[u8]) -> (r: Result<&str, core::str::Utf8Error>)
    ensures
        r is Ok <==> valid_utf8(bytes@),
        r matches Ok(s) ==> s.spec_bytes() == bytes@,
{
    core::str::from_utf8(bytes)
}

/// The full URL of a request: the base URL followed by the path and query string.
pub open spec fn url_of(b: BuilderView) -> Seq<char> {
    b.base_url@ + b.query.path
}

/// Writes the full URL of `builder` at the front of `url_buf` and returns it
/// as text; `UrlTooLong`, with `url_buf` untouched, when it does not fit.
pub fn write_url<'a, const N: usize>(
    builder: &PostgrestBuilder<'_, N>,
    url_buf: &'a mut [u8],
) -> (r: Result<&'a str, Error>)
    ensures
        r is Ok <==> utf8_len(url_of(builder@)) <= old(url_buf)@.len(),
        r matches Ok(url) ==> url@ == url_of(builder@),
        r is Ok ==> final(url_buf)@ == encode_utf8(url_of(builder@)) + old(url_buf)@.skip(
            utf8_len(url_of(builder@)) as int,
        ),
        r matches Err(e) ==> e == Error::UrlTooLong && final(url_buf)@ == old(url_buf)@,
{
    let base = builder.base_url();
    let path = builder.path();
    let base_bytes = base.as_bytes();
    let path_bytes = path.as_bytes();
    proof {
        lemma_encode_utf8_concat(base@, path@);
    }
    let buf_len = url_buf.len();
    let total_len = match base_bytes.len().checked_add(path_bytes.len()) {
        Some(total) => total,
        None => return Err(Error::UrlTooLong),
    };

    if total_len > buf_len {
        return Err(Error::UrlTooLong);
    }

    let base_len = base_bytes.len();
    let mut i: usize = 0;
    while i < base_len
        invariant
            base_len == base_bytes@.len(),
            total_len == base_bytes@.len() + path_bytes@.len(),
            total_len <= url_buf@.len(),
            url_buf@.len() == old(url_buf)@.len(),
            i <= base_len,
            forall|j: int| 0 <= j < i ==> #[trigger] url_buf@[j] == base_bytes@[j],
            forall|j: int| i <= j < url_buf@.len() ==> #[trigger] url_buf@[j] == old(url_buf)@[j],
        decreases base_len - i,
    {
        url_buf[i] = base_bytes[i];
        i = i + 1;
    }
    let path_len = path_bytes.len();
    let mut k: usize = 0;
    while k < path_len
        invariant
            base_len == base_bytes@.len(),
            path_len == path_bytes@.len(),
            total_len == base_len + path_len,
            total_len <= url_buf@.len(),
            url_buf@.len() == old(url_buf)@.len(),
            k <= path_len,
            forall|j: int| 0 <= j < base_len ==> #[trigger] url_buf@[j] == base_bytes@[j],
            forall|j: int| 0 <= j < k ==> #[trigger] url_buf@[base_len + j] == path_bytes@[j],
            forall|j: int| base_len + k <= j < url_buf@.len() ==> #[trigger] url_buf@[j] == old(url_buf)@[j],
        decreases path_len - k,
    {
        url_buf[base_len + k] = path_bytes[k];
        k = k + 1;
    }

    let ghost written = url_buf@;
    proof {
        assert(written.subrange(0, total_len as int) =~= base_bytes@ + path_bytes@) by {
            assert forall|j: int| 0 <= j < total_len implies #[trigger] written.subrange(0, total_len as int)[j]
                == (base_bytes@ + path_bytes@)[j] by {
                if j >= base_len {
                    assert(written[base_len + (j - base_len)] == path_bytes@[j - base_len]);
                }
            }
        }
        assert(written =~= encode_utf8(url_of(builder@)) + old(url_buf)@.skip(total_len as int));
        encode_utf8_valid_utf8(base@ + path@);
    }
    let filled: &'a [u8] = url_buf;
    let url_bytes = vstd::slice::slice_subrange(filled, 0, total_len);
    match str_from_utf8(url_bytes) {
        Ok(url) => {
            proof {
                lemma_encode_utf8_injective(url@, base@ + path@);
            }
            Ok(url)
        },
        Err(_) => Err(Error::Utf8),
    }
}

} // verus!

//! Properties that hold across the operations of the library.
use vstd::prelude::*;
use crate::auth::{Auth, bearer_value};
use crate::error::{Error, PostgrestError, pgrst_code_error, http_status_error, postgrest_message, error_message};
use crate::number::{decimal, digit_char, lemma_decimal_injective, lemma_decimal_shape};
use crate::fixed::{utf8_len, lemma_utf8_len_concat};
use crate::postgrest::{BuilderView, table_path};
use crate::query::{
    QueryView, SortOrder, direction_text, fill, lemma_fill_bounds, lemma_fill_step, filter_pieces,
    order_pieces,
};
use crate::response::{success_status, response_error};
use crate::transport::request::{
    HeadersView, MAX_REQUEST_HEADERS, header_list, headers_for, headers_from, join_parts, prefer_parts,
};

verus! {

/// A query parameter that fits is appended whole: the path grows by exactly the
/// separator and the parameter's pieces, and the query string is then open, so
/// that the next parameter is preceded by `&`.
pub proof fn law_param_appended(v: QueryView, pieces: Seq<Seq<char>>, cap: nat)
    requires
        utf8_len(v.path) <= cap,
        v.param_fits(pieces, cap),
    ensures
        v.with_param(pieces, cap) == (QueryView {
            path: v.path + v.separator() + pieces.flatten(),
            has_params: true,
        }),
        v.with_param(pieces, cap).separator() == seq!['&'],
{
    let all = seq![v.separator()] + pieces;
    assert(all.drop_first() =~= pieces);
    assert(all[0] == v.separator());
    lemma_fill_step(v.path, all, cap);
    lemma_fill_bounds(v.path, all, cap);
    assert(v.path + all.flatten() =~= v.path + v.separator() + pieces.flatten());
    lemma_utf8_len_concat(v.path + v.separator(), pieces.flatten());
}

/// The state after appending each parameter of `params` in turn (each one
/// given by its pieces), in the order given.
pub open spec fn append_all(v: QueryView, params: Seq<Seq<Seq<char>>>, cap: nat) -> QueryView
    decreases params.len(),
{
    if params.len() == 0 {
        v
    } else {
        append_all(v, params.drop_last(), cap).with_param(params.last(), cap)
    }
}

/// The query-string text of `params`: each parameter preceded by `?` when it
/// is the first of the query string (no parameter before it, `has_params`
/// false), and by `&` otherwise.
pub open spec fn params_text(has_params: bool, params: Seq<Seq<Seq<char>>>) -> Seq<char>
    decreases params.len(),
{
    if params.len() == 0 {
        Seq::empty()
    } else {
        params_text(has_params, params.drop_last()) + (if has_params || params.len() > 1 {
            seq!['&']
        } else {
            seq!['?']
        }) + params.last().flatten()
    }
}

/// A run of appends that fits as a whole: every append succeeds, and the path
/// becomes the start path followed by `?` and the first parameter, then `&`
/// and each later parameter (`&` from the first one on when the query string
/// was already open).
pub proof fn law_params_appended(v: QueryView, params: Seq<Seq<Seq<char>>>, cap: nat)
    requires
        utf8_len(v.path + params_text(v.has_params, params)) <= cap,
    ensures
        append_all(v, params, cap) == (QueryView {
            path: v.path + params_text(v.has_params, params),
            has_params: v.has_params || params.len() > 0,
        }),
        forall|i: int|
            0 <= i < params.len() ==> #[trigger] append_all(v, params.take(i), cap).param_fits(
                params[i],
                cap,
            ),
    decreases params.len(),
{
    if params.len() == 0 {
        assert(v.path + params_text(v.has_params, params) =~= v.path);
    } else {
        let front = params.drop_last();
        let text = params_text(v.has_params, front);
        let sep = if v.has_params || params.len() > 1 { seq!['&'] } else { seq!['?'] };
        let last = params.last().flatten();
        assert(v.path + params_text(v.has_params, params) =~= (v.path + text) + (sep + last));
        lemma_utf8_len_concat(v.path + text, sep + last);
        law_params_appended(v, front, cap);
        let mid = append_all(v, front, cap);
        assert(mid.separator() == sep);
        assert(mid.path + mid.separator() + last =~= (v.path + text) + (sep + last));
        law_param_appended(mid, params.last(), cap);
        assert(mid.path + mid.separator() + params.last().flatten() =~= v.path + params_text(
            v.has_params,
            params,
        ));
        assert forall|i: int| 0 <= i < params.len() implies #[trigger] append_all(
            v,
            params.take(i),
            cap,
        ).param_fits(params[i], cap) by {
            if i < front.len() {
                assert(params.take(i) =~= front.take(i));
                assert(params[i] == front[i]);
            } else {
                assert(params.take(i) =~= front);
            }
        }
    }
}

/// The number that a text of decimal digits stands for.
pub open spec fn digits_value(s: Seq<char>) -> int
    decreases s.len(),
{
    if s.len() == 0 {
        0
    } else {
        digits_value(s.drop_last()) * 10 + (s.last() as int - 48)
    }
}

/// The decimal text of `n` (as in `limit=`, `offset=` and error texts) is made
/// of the digits `0`-`9`, reads back as `n`, and has no leading zero.
pub proof fn law_decimal_reads_back(n: nat)
    ensures
        forall|i: int| 0 <= i < decimal(n).len() ==> '0' <= #[trigger] decimal(n)[i] <= '9',
        digits_value(decimal(n)) == n,
        decimal(n)[0] == '0' ==> n == 0 && decimal(n).len() == 1,
    decreases n,
{
    lemma_decimal_shape(n);
    if n < 10 {
        assert(decimal(n) =~= seq![digit_char(n)]);
        assert((digit_char(n) as int) == 48 + n);
        assert(seq![digit_char(n)].drop_last() =~= Seq::<char>::empty());
        assert(digits_value(Seq::<char>::empty()) == 0);
        assert(decimal(n).last() == digit_char(n));
        assert(digits_value(decimal(n)) == digits_value(decimal(n).drop_last()) * 10 + (digit_char(n) as int - 48));
    } else {
        law_decimal_reads_back(n / 10);
        let d = decimal(n);
        assert(d == decimal(n / 10).push(digit_char(n % 10)));
        assert(d.drop_last() =~= decimal(n / 10));
        assert((digit_char(n % 10) as int) == 48 + n % 10);
        assert(d.last() == digit_char(n % 10));
        assert((n / 10) * 10 + n % 10 == n) by (nonlinear_arith);
        assert(digits_value(d) == digits_value(decimal(n / 10)) * 10 + (n % 10));
        assert forall|i: int| 0 <= i < d.len() implies '0' <= #[trigger] d[i] <= '9' by {
            if i < d.len() - 1 {
                assert(d[i] == decimal(n / 10)[i]);
            }
        }
        assert(d[0] == decimal(n / 10)[0]);
        if d[0] == '0' {
            assert(n / 10 == 0);
        }
    }
}

/// An `order` parameter reads `order=<column>.asc` or `order=<column>.desc`.
pub proof fn law_order_text(column: Seq<char>, direction: SortOrder)
    ensures
        order_pieces(column, direction).flatten() == "order="@ + column + seq!['.'] + (
        match direction {
            SortOrder::Asc => seq!['a', 's', 'c'],
            SortOrder::Desc => seq!['d', 'e', 's', 'c'],
        }),
{
    reveal_strlit("asc");
    reveal_strlit("desc");
    let p = order_pieces(column, direction);
    let p1 = p.drop_first();
    let p2 = p1.drop_first();
    let p3 = p2.drop_first();
    let p4 = p3.drop_first();
    assert(p4 =~= Seq::<Seq<char>>::empty());
    assert(p4.flatten() =~= Seq::<char>::empty());
    assert(p3[0] == direction_text(direction));
    assert(p3.flatten() =~= direction_text(direction));
    assert(p2.flatten() =~= seq!['.'] + direction_text(direction));
    assert(p1.flatten() =~= column + seq!['.'] + direction_text(direction));
    assert(p.flatten() =~= "order="@ + column + seq!['.'] + direction_text(direction));
}

/// Whatever the outcome of appending a parameter, the path before it stays
/// at the front, and the path never grows past the capacity.
pub proof fn law_param_keeps_prefix(v: QueryView, pieces: Seq<Seq<char>>, cap: nat)
    requires
        utf8_len(v.path) <= cap,
    ensures
        v.path.is_prefix_of(v.with_param(pieces, cap).path),
        utf8_len(v.with_param(pieces, cap).path) <= cap,
{
    lemma_fill_bounds(v.path, seq![v.separator()] + pieces, cap);
    lemma_fill_prefix(v.path, seq![v.separator()] + pieces, cap);
}

proof fn lemma_fill_prefix(text: Seq<char>, pieces: Seq<Seq<char>>, cap: nat)
    ensures
        text.is_prefix_of(fill(text, pieces, cap)),
    decreases pieces.len(),
{
    if pieces.len() > 0 && utf8_len(text + pieces[0]) <= cap {
        lemma_fill_prefix(text + pieces[0], pieces.drop_first(), cap);
        assert(text.is_prefix_of(text + pieces[0]));
    }
}

/// A filter reads `column=op.value`.
pub proof fn law_filter_text(column: Seq<char>, op: Seq<char>, value: Seq<char>)
    ensures
        filter_pieces(column, op, value).flatten() == column + seq!['='] + op + seq!['.'] + value,
{
    let p = filter_pieces(column, op, value);
    let p1 = p.drop_first();
    let p2 = p1.drop_first();
    let p3 = p2.drop_first();
    let p4 = p3.drop_first();
    let p5 = p4.drop_first();
    assert(p5 =~= Seq::<Seq<char>>::empty());
    assert(p5.flatten() =~= Seq::<char>::empty());
    assert(p4.flatten() =~= value);
    assert(p3.flatten() =~= seq!['.'] + value);
    assert(p2.flatten() =~= op + seq!['.'] + value);
    assert(p1.flatten() =~= seq!['='] + op + seq!['.'] + value);
    assert(p.flatten() =~= column + seq!['='] + op + seq!['.'] + value);
}

/// A request on `table` has the path `/rest/v1/<table>` when that fits.
pub proof fn law_table_path(table: Seq<char>, cap: nat)
    requires
        utf8_len("/rest/v1/"@ + table) <= cap,
    ensures
        table_path(table, cap) == "/rest/v1/"@ + table,
{
    let e = Seq::<char>::empty();
    assert(e + "/rest/v1/"@ =~= "/rest/v1/"@);
    lemma_utf8_len_concat("/rest/v1/"@, table);
}

/// The text of `Unknown(n)` holds the digits of `n` between its fixed parts.
proof fn lemma_unknown_message(n: u16)
    ensures
        postgrest_message(PostgrestError::Unknown(n)).len() == 16 + decimal(n as nat).len(),
        postgrest_message(PostgrestError::Unknown(n)).subrange(15, 15 + decimal(n as nat).len() as int)
            == decimal(n as nat),
        postgrest_message(PostgrestError::Unknown(n))[0] == 'u',
        postgrest_message(PostgrestError::Unknown(n))[2] == 'k',
        postgrest_message(PostgrestError::Unknown(n))[4] == 'o',
        postgrest_message(PostgrestError::Unknown(n))[8] == 'e',
{
    reveal_strlit("unknown error (");
    reveal_strlit(")");
    let m = postgrest_message(PostgrestError::Unknown(n));
    let d = decimal(n as nat);
    assert(m == "unknown error ("@ + d + ")"@);
    assert(m.subrange(15, 15 + d.len() as int) =~= d);
}

/// Different PostgREST errors are described by different texts, so what
/// `Display` shows of one tells which error it is.
pub proof fn law_postgrest_messages_distinct(e1: PostgrestError, e2: PostgrestError)
    ensures
        e1 != e2 ==> postgrest_message(e1) != postgrest_message(e2),
{
    reveal_strlit("connection error");
    reveal_strlit("connection pool timeout");
    reveal_strlit("invalid query string");
    reveal_strlit("invalid request body");
    reveal_strlit("invalid range");
    reveal_strlit("invalid upsert");
    reveal_strlit("schema not exposed");
    reveal_strlit("invalid content type");
    reveal_strlit("singularity violation");
    reveal_strlit("method not allowed");
    reveal_strlit("relationship error");
    reveal_strlit("ambiguous relation");
    reveal_strlit("function not found");
    reveal_strlit("table not found");
    reveal_strlit("jwt secret missing");
    reveal_strlit("jwt invalid");
    reveal_strlit("auth required");
    reveal_strlit("jwt claims invalid");
    reveal_strlit("foreign key violation");
    reveal_strlit("unique violation");
    reveal_strlit("insufficient privilege");
    reveal_strlit("undefined table");
    reveal_strlit("undefined function");
    reveal_strlit("read only transaction");
    reveal_strlit("unknown error (");
    reveal_strlit(")");
    let m1 = postgrest_message(e1);
    let m2 = postgrest_message(e2);
    if m1 == m2 {
        if let PostgrestError::Unknown(a) = e1 {
            lemma_unknown_message(a);
        }
        if let PostgrestError::Unknown(b) = e2 {
            lemma_unknown_message(b);
        }
        if e1 is Unknown && e2 is Unknown {
            lemma_decimal_injective(e1->Unknown_0 as nat, e2->Unknown_0 as nat);
        } else {
            assert(m1.len() == m2.len());
            assert(m1[0] == m2[0]);
            assert(m1[2] == m2[2]);
            assert(m1[4] == m2[4]);
            assert(m1[8] == m2[8]);
        }
    }
}

/// Different errors are described by different texts, so what `Display`
/// shows of one tells which error it is.
pub proof fn law_error_messages_distinct(e1: Error, e2: Error)
    ensures
        e1 != e2 ==> error_message(e1) != error_message(e2),
{
    reveal_strlit("dns resolution failed");
    reveal_strlit("connection failed");
    reveal_strlit("tls error");
    reveal_strlit("request timed out");
    reveal_strlit("http error: ");
    reveal_strlit("postgrest: ");
    reveal_strlit("buffer too small");
    reveal_strlit("url exceeds buffer capacity");
    reveal_strlit("json parse error");
    reveal_strlit("invalid utf-8");
    reveal_strlit("invalid request");
    let m1 = error_message(e1);
    let m2 = error_message(e2);
    if m1 == m2 {
        if let Error::Postgrest(a) = e1 {
            assert(m1 == "postgrest: "@ + postgrest_message(a));
            assert(m1[0] == 'p');
        }
        if let Error::Postgrest(b) = e2 {
            assert(m2 == "postgrest: "@ + postgrest_message(b));
            assert(m2[0] == 'p');
        }
        if let Error::Http(a) = e1 {
            assert(m1 == "http error: "@ + decimal(a as nat));
            assert(m1[0] == 'h');
        }
        if let Error::Http(b) = e2 {
            assert(m2 == "http error: "@ + decimal(b as nat));
            assert(m2[0] == 'h');
        }
        if e1 is Postgrest && e2 is Postgrest {
            let a = e1->Postgrest_0;
            let b = e2->Postgrest_0;
            assert(m1.subrange(11, m1.len() as int) =~= postgrest_message(a));
            assert(m2.subrange(11, m2.len() as int) =~= postgrest_message(b));
            law_postgrest_messages_distinct(a, b);
        } else if e1 is Http && e2 is Http {
            let a = e1->Http_0;
            let b = e2->Http_0;
            assert(m1.subrange(12, m1.len() as int) =~= decimal(a as nat));
            assert(m2.subrange(12, m2.len() as int) =~= decimal(b as nat));
            lemma_decimal_injective(a as nat, b as nat);
        } else {
            assert(m1.len() == m2.len());
            assert(m1[0] == m2[0]);
        }
    }
}

/// Which codes give which error: each error is given by exactly the codes of
/// its row (so `ForeignKeyViolation` by `23503` alone), and every other code,
/// such as `23502`, gives `Unknown(0)`.
pub proof fn law_pgrst_code_table(code: Seq<char>)
    ensures
        (pgrst_code_error(code) == PostgrestError::ConnectionError) <==> (code == "PGRST000"@ || code == "PGRST001"@ || code == "PGRST002"@),
        (pgrst_code_error(code) == PostgrestError::ConnectionPool) <==> (code == "PGRST003"@),
        (pgrst_code_error(code) == PostgrestError::InvalidQueryString) <==> (code == "PGRST100"@),
        (pgrst_code_error(code) == PostgrestError::InvalidBody) <==> (code == "PGRST102"@),
        (pgrst_code_error(code) == PostgrestError::InvalidRange) <==> (code == "PGRST103"@),
        (pgrst_code_error(code) == PostgrestError::InvalidUpsert) <==> (code == "PGRST105"@ || code == "PGRST114"@ || code == "PGRST115"@),
        (pgrst_code_error(code) == PostgrestError::SchemaNotExposed) <==> (code == "PGRST106"@),
        (pgrst_code_error(code) == PostgrestError::InvalidContentType) <==> (code == "PGRST107"@),
        (pgrst_code_error(code) == PostgrestError::SingularityViolation) <==> (code == "PGRST116"@),
        (pgrst_code_error(code) == PostgrestError::MethodNotAllowed) <==> (code == "PGRST101"@ || code == "PGRST117"@),
        (pgrst_code_error(code) == PostgrestError::RelationshipError) <==> (code == "PGRST200"@),
        (pgrst_code_error(code) == PostgrestError::AmbiguousRelation) <==> (code == "PGRST201"@ || code == "PGRST203"@),
        (pgrst_code_error(code) == PostgrestError::FunctionNotFound) <==> (code == "PGRST202"@),
        (pgrst_code_error(code) == PostgrestError::TableNotFound) <==> (code == "PGRST205"@ || code == "PGRST125"@),
        (pgrst_code_error(code) == PostgrestError::JwtSecretMissing) <==> (code == "PGRST300"@),
        (pgrst_code_error(code) == PostgrestError::JwtInvalid) <==> (code == "PGRST301"@),
        (pgrst_code_error(code) == PostgrestError::AuthRequired) <==> (code == "PGRST302"@),
        (pgrst_code_error(code) == PostgrestError::JwtClaimsInvalid) <==> (code == "PGRST303"@),
        (pgrst_code_error(code) == PostgrestError::ForeignKeyViolation) <==> (code == "23503"@),
        (pgrst_code_error(code) == PostgrestError::UniqueViolation) <==> (code == "23505"@),
        (pgrst_code_error(code) == PostgrestError::InsufficientPrivilege) <==> (code == "42501"@),
        (pgrst_code_error(code) == PostgrestError::UndefinedTable) <==> (code == "42P01"@),
        (pgrst_code_error(code) == PostgrestError::UndefinedFunction) <==> (code == "42883"@),
        (pgrst_code_error(code) == PostgrestError::ReadOnlyTransaction) <==> (code == "25006"@),
        (pgrst_code_error(code) == PostgrestError::Unknown(0)) <==> !(code == "PGRST000"@ || code == "PGRST001"@ || code == "PGRST002"@ || code == "PGRST003"@ || code == "PGRST100"@ || code == "PGRST102"@ || code == "PGRST103"@ || code == "PGRST105"@ || code == "PGRST114"@ || code == "PGRST115"@ || code == "PGRST106"@ || code == "PGRST107"@ || code == "PGRST116"@ || code == "PGRST101"@ || code == "PGRST117"@ || code == "PGRST200"@ || code == "PGRST201"@ || code == "PGRST203"@ || code == "PGRST202"@ || code == "PGRST205"@ || code == "PGRST125"@ || code == "PGRST300"@ || code == "PGRST301"@ || code == "PGRST302"@ || code == "PGRST303"@ || code == "23503"@ || code == "23505"@ || code == "42501"@ || code == "42P01"@ || code == "42883"@ || code == "25006"@),
{
    reveal_strlit("PGRST000");
    reveal_strlit("PGRST001");
    reveal_strlit("PGRST002");
    reveal_strlit("PGRST003");
    reveal_strlit("PGRST100");
    reveal_strlit("PGRST102");
    reveal_strlit("PGRST103");
    reveal_strlit("PGRST105");
    reveal_strlit("PGRST114");
    reveal_strlit("PGRST115");
    reveal_strlit("PGRST106");
    reveal_strlit("PGRST107");
    reveal_strlit("PGRST116");
    reveal_strlit("PGRST101");
    reveal_strlit("PGRST117");
    reveal_strlit("PGRST200");
    reveal_strlit("PGRST201");
    reveal_strlit("PGRST203");
    reveal_strlit("PGRST202");
    reveal_strlit("PGRST205");
    reveal_strlit("PGRST125");
    reveal_strlit("PGRST300");
    reveal_strlit("PGRST301");
    reveal_strlit("PGRST302");
    reveal_strlit("PGRST303");
    reveal_strlit("23503");
    reveal_strlit("23505");
    reveal_strlit("42501");
    reveal_strlit("42P01");
    reveal_strlit("42883");
    reveal_strlit("25006");
    assert("PGRST001"@ != "PGRST000"@) by { assert("PGRST001"@[7] != "PGRST000"@[7]); }
    assert("PGRST002"@ != "PGRST000"@) by { assert("PGRST002"@[7] != "PGRST000"@[7]); }
    assert("PGRST002"@ != "PGRST001"@) by { assert("PGRST002"@[7] != "PGRST001"@[7]); }
    assert("PGRST003"@ != "PGRST000"@) by { assert("PGRST003"@[7] != "PGRST000"@[7]); }
    assert("PGRST003"@ != "PGRST001"@) by { assert("PGRST003"@[7] != "PGRST001"@[7]); }
    assert("PGRST003"@ != "PGRST002"@) by { assert("PGRST003"@[7] != "PGRST002"@[7]); }
    assert("PGRST100"@ != "PGRST000"@) by { assert("PGRST100"@[5] != "PGRST000"@[5]); }
    assert("PGRST100"@ != "PGRST001"@) by { assert("PGRST100"@[5] != "PGRST001"@[5]); }
    assert("PGRST100"@ != "PGRST002"@) by { assert("PGRST100"@[5] != "PGRST002"@[5]); }
    assert("PGRST100"@ != "PGRST003"@) by { assert("PGRST100"@[5] != "PGRST003"@[5]); }
    assert("PGRST102"@ != "PGRST000"@) by { assert("PGRST102"@[5] != "PGRST000"@[5]); }
    assert("PGRST102"@ != "PGRST001"@) by { assert("PGRST102"@[5] != "PGRST001"@[5]); }
    assert("PGRST102"@ != "PGRST002"@) by { assert("PGRST102"@[5] != "PGRST002"@[5]); }
    assert("PGRST102"@ != "PGRST003"@) by { assert("PGRST102"@[5] != "PGRST003"@[5]); }
    assert("PGRST102"@ != "PGRST100"@) by { assert("PGRST102"@[7] != "PGRST100"@[7]); }
    assert("PGRST103"@ != "PGRST000"@) by { assert("PGRST103"@[5] != "PGRST000"@[5]); }
    assert("PGRST103"@ != "PGRST001"@) by { assert("PGRST103"@[5] != "PGRST001"@[5]); }
    assert("PGRST103"@ != "PGRST002"@) by { assert("PGRST103"@[5] != "PGRST002"@[5]); }
    assert("PGRST103"@ != "PGRST003"@) by { assert("PGRST103"@[5] != "PGRST003"@[5]); }
    assert("PGRST103"@ != "PGRST100"@) by { assert("PGRST103"@[7] != "PGRST100"@[7]); }
    assert("PGRST103"@ != "PGRST102"@) by { assert("PGRST103"@[7] != "PGRST102"@[7]); }
    assert("PGRST105"@ != "PGRST000"@) by { assert("PGRST105"@[5] != "PGRST000"@[5]); }
    assert("PGRST105"@ != "PGRST001"@) by { assert("PGRST105"@[5] != "PGRST001"@[5]); }
    assert("PGRST105"@ != "PGRST002"@) by { assert("PGRST105"@[5] != "PGRST002"@[5]); }
    assert("PGRST105"@ != "PGRST003"@) by { assert("PGRST105"@[5] != "PGRST003"@[5]); }
    assert("PGRST105"@ != "PGRST100"@) by { assert("PGRST105"@[7] != "PGRST100"@[7]); }
    assert("PGRST105"@ != "PGRST102"@) by { assert("PGRST105"@[7] != "PGRST102"@[7]); }
    assert("PGRST105"@ != "PGRST103"@) by { assert("PGRST105"@[7] != "PGRST103"@[7]); }
    assert("PGRST114"@ != "PGRST000"@) by { assert("PGRST114"@[5] != "PGRST000"@[5]); }
    assert("PGRST114"@ != "PGRST001"@) by { assert("PGRST114"@[5] != "PGRST001"@[5]); }
    assert("PGRST114"@ != "PGRST002"@) by { assert("PGRST114"@[5] != "PGRST002"@[5]); }
    assert("PGRST114"@ != "PGRST003"@) by { assert("PGRST114"@[5] != "PGRST003"@[5]); }
    assert("PGRST114"@ != "PGRST100"@) by { assert("PGRST114"@[6] != "PGRST100"@[6]); }
    assert("PGRST114"@ != "PGRST102"@) by { assert("PGRST114"@[6] != "PGRST102"@[6]); }
    assert("PGRST114"@ != "PGRST103"@) by { assert("PGRST114"@[6] != "PGRST103"@[6]); }
    assert("PGRST114"@ != "PGRST105"@) by { assert("PGRST114"@[6] != "PGRST105"@[6]); }
    assert("PGRST115"@ != "PGRST000"@) by { assert("PGRST115"@[5] != "PGRST000"@[5]); }
    assert("PGRST115"@ != "PGRST001"@) by { assert("PGRST115"@[5] != "PGRST001"@[5]); }
    assert("PGRST115"@ != "PGRST002"@) by { assert("PGRST115"@[5] != "PGRST002"@[5]); }
    assert("PGRST115"@ != "PGRST003"@) by { assert("PGRST115"@[5] != "PGRST003"@[5]); }
    assert("PGRST115"@ != "PGRST100"@) by { assert("PGRST115"@[6] != "PGRST100"@[6]); }
    assert("PGRST115"@ != "PGRST102"@) by { assert("PGRST115"@[6] != "PGRST102"@[6]); }
    assert("PGRST115"@ != "PGRST103"@) by { assert("PGRST115"@[6] != "PGRST103"@[6]); }
    assert("PGRST115"@ != "PGRST105"@) by { assert("PGRST115"@[6] != "PGRST105"@[6]); }
    assert("PGRST115"@ != "PGRST114"@) by { assert("PGRST115"@[7] != "PGRST114"@[7]); }
    assert("PGRST106"@ != "PGRST000"@) by { assert("PGRST106"@[5] != "PGRST000"@[5]); }
    assert("PGRST106"@ != "PGRST001"@) by { assert("PGRST106"@[5] != "PGRST001"@[5]); }
    assert("PGRST106"@ != "PGRST002"@) by { assert("PGRST106"@[5] != "PGRST002"@[5]); }
    assert("PGRST106"@ != "PGRST003"@) by { assert("PGRST106"@[5] != "PGRST003"@[5]); }
    assert("PGRST106"@ != "PGRST100"@) by { assert("PGRST106"@[7] != "PGRST100"@[7]); }
    assert("PGRST106"@ != "PGRST102"@) by { assert("PGRST106"@[7] != "PGRST102"@[7]); }
    assert("PGRST106"@ != "PGRST103"@) by { assert("PGRST106"@[7] != "PGRST103"@[7]); }
    assert("PGRST106"@ != "PGRST105"@) by { assert("PGRST106"@[7] != "PGRST105"@[7]); }
    assert("PGRST106"@ != "PGRST114"@) by { assert("PGRST106"@[6] != "PGRST114"@[6]); }
    assert("PGRST106"@ != "PGRST115"@) by { assert("PGRST106"@[6] != "PGRST115"@[6]); }
    assert("PGRST107"@ != "PGRST000"@) by { assert("PGRST107"@[5] != "PGRST000"@[5]); }
    assert("PGRST107"@ != "PGRST001"@) by { assert("PGRST107"@[5] != "PGRST001"@[5]); }
    assert("PGRST107"@ != "PGRST002"@) by { assert("PGRST107"@[5] != "PGRST002"@[5]); }
    assert("PGRST107"@ != "PGRST003"@) by { assert("PGRST107"@[5] != "PGRST003"@[5]); }
    assert("PGRST107"@ != "PGRST100"@) by { assert("PGRST107"@[7] != "PGRST100"@[7]); }
    assert("PGRST107"@ != "PGRST102"@) by { assert("PGRST107"@[7] != "PGRST102"@[7]); }
    assert("PGRST107"@ != "PGRST103"@) by { assert("PGRST107"@[7] != "PGRST103"@[7]); }
    assert("PGRST107"@ != "PGRST105"@) by { assert("PGRST107"@[7] != "PGRST105"@[7]); }
    assert("PGRST107"@ != "PGRST114"@) by { assert("PGRST107"@[6] != "PGRST114"@[6]); }
    assert("PGRST107"@ != "PGRST115"@) by { assert("PGRST107"@[6] != "PGRST115"@[6]); }
    assert("PGRST107"@ != "PGRST106"@) by { assert("PGRST107"@[7] != "PGRST106"@[7]); }
    assert("PGRST116"@ != "PGRST000"@) by { assert("PGRST116"@[5] != "PGRST000"@[5]); }
    assert("PGRST116"@ != "PGRST001"@) by { assert("PGRST116"@[5] != "PGRST001"@[5]); }
    assert("PGRST116"@ != "PGRST002"@) by { assert("PGRST116"@[5] != "PGRST002"@[5]); }
    assert("PGRST116"@ != "PGRST003"@) by { assert("PGRST116"@[5] != "PGRST003"@[5]); }
    assert("PGRST116"@ != "PGRST100"@) by { assert("PGRST116"@[6] != "PGRST100"@[6]); }
    assert("PGRST116"@ != "PGRST102"@) by { assert("PGRST116"@[6] != "PGRST102"@[6]); }
    assert("PGRST116"@ != "PGRST103"@) by { assert("PGRST116"@[6] != "PGRST103"@[6]); }
    assert("PGRST116"@ != "PGRST105"@) by { assert("PGRST116"@[6] != "PGRST105"@[6]); }
    assert("PGRST116"@ != "PGRST114"@) by { assert("PGRST116"@[7] != "PGRST114"@[7]); }
    assert("PGRST116"@ != "PGRST115"@) by { assert("PGRST116"@[7] != "PGRST115"@[7]); }
    assert("PGRST116"@ != "PGRST106"@) by { assert("PGRST116"@[6] != "PGRST106"@[6]); }
    assert("PGRST116"@ != "PGRST107"@) by { assert("PGRST116"@[6] != "PGRST107"@[6]); }
    assert("PGRST101"@ != "PGRST000"@) by { assert("PGRST101"@[5] != "PGRST000"@[5]); }
    assert("PGRST101"@ != "PGRST001"@) by { assert("PGRST101"@[5] != "PGRST001"@[5]); }
    assert("PGRST101"@ != "PGRST002"@) by { assert("PGRST101"@[5] != "PGRST002"@[5]); }
    assert("PGRST101"@ != "PGRST003"@) by { assert("PGRST101"@[5] != "PGRST003"@[5]); }
    assert("PGRST101"@ != "PGRST100"@) by { assert("PGRST101"@[7] != "PGRST100"@[7]); }
    assert("PGRST101"@ != "PGRST102"@) by { assert("PGRST101"@[7] != "PGRST102"@[7]); }
    assert("PGRST101"@ != "PGRST103"@) by { assert("PGRST101"@[7] != "PGRST103"@[7]); }
    assert("PGRST101"@ != "PGRST105"@) by { assert("PGRST101"@[7] != "PGRST105"@[7]); }
    assert("PGRST101"@ != "PGRST114"@) by { assert("PGRST101"@[6] != "PGRST114"@[6]); }
    assert("PGRST101"@ != "PGRST115"@) by { assert("PGRST101"@[6] != "PGRST115"@[6]); }
    assert("PGRST101"@ != "PGRST106"@) by { assert("PGRST101"@[7] != "PGRST106"@[7]); }
    assert("PGRST101"@ != "PGRST107"@) by { assert("PGRST101"@[7] != "PGRST107"@[7]); }
    assert("PGRST101"@ != "PGRST116"@) by { assert("PGRST101"@[6] != "PGRST116"@[6]); }
    assert("PGRST117"@ != "PGRST000"@) by { assert("PGRST117"@[5] != "PGRST000"@[5]); }
    assert("PGRST117"@ != "PGRST001"@) by { assert("PGRST117"@[5] != "PGRST001"@[5]); }
    assert("PGRST117"@ != "PGRST002"@) by { assert("PGRST117"@[5] != "PGRST002"@[5]); }
    assert("PGRST117"@ != "PGRST003"@) by { assert("PGRST117"@[5] != "PGRST003"@[5]); }
    assert("PGRST117"@ != "PGRST100"@) by { assert("PGRST117"@[6] != "PGRST100"@[6]); }
    assert("PGRST117"@ != "PGRST102"@) by { assert("PGRST117"@[6] != "PGRST102"@[6]); }
    assert("PGRST117"@ != "PGRST103"@) by { assert("PGRST117"@[6] != "PGRST103"@[6]); }
    assert("PGRST117"@ != "PGRST105"@) by { assert("PGRST117"@[6] != "PGRST105"@[6]); }
    assert("PGRST117"@ != "PGRST114"@) by { assert("PGRST117"@[7] != "PGRST114"@[7]); }
    assert("PGRST117"@ != "PGRST115"@) by { assert("PGRST117"@[7] != "PGRST115"@[7]); }
    assert("PGRST117"@ != "PGRST106"@) by { assert("PGRST117"@[6] != "PGRST106"@[6]); }
    assert("PGRST117"@ != "PGRST107"@) by { assert("PGRST117"@[6] != "PGRST107"@[6]); }
    assert("PGRST117"@ != "PGRST116"@) by { assert("PGRST117"@[7] != "PGRST116"@[7]); }
    assert("PGRST117"@ != "PGRST101"@) by { assert("PGRST117"@[6] != "PGRST101"@[6]); }
    assert("PGRST200"@ != "PGRST000"@) by { assert("PGRST200"@[5] != "PGRST000"@[5]); }
    assert("PGRST200"@ != "PGRST001"@) by { assert("PGRST200"@[5] != "PGRST001"@[5]); }
    assert("PGRST200"@ != "PGRST002"@) by { assert("PGRST200"@[5] != "PGRST002"@[5]); }
    assert("PGRST200"@ != "PGRST003"@) by { assert("PGRST200"@[5] != "PGRST003"@[5]); }
    assert("PGRST200"@ != "PGRST100"@) by { assert("PGRST200"@[5] != "PGRST100"@[5]); }
    assert("PGRST200"@ != "PGRST102"@) by { assert("PGRST200"@[5] != "PGRST102"@[5]); }
    assert("PGRST200"@ != "PGRST103"@) by { assert("PGRST200"@[5] != "PGRST103"@[5]); }
    assert("PGRST200"@ != "PGRST105"@) by { assert("PGRST200"@[5] != "PGRST105"@[5]); }
    assert("PGRST200"@ != "PGRST114"@) by { assert("PGRST200"@[5] != "PGRST114"@[5]); }
    assert("PGRST200"@ != "PGRST115"@) by { assert("PGRST200"@[5] != "PGRST115"@[5]); }
    assert("PGRST200"@ != "PGRST106"@) by { assert("PGRST200"@[5] != "PGRST106"@[5]); }
    assert("PGRST200"@ != "PGRST107"@) by { assert("PGRST200"@[5] != "PGRST107"@[5]); }
    assert("PGRST200"@ != "PGRST116"@) by { assert("PGRST200"@[5] != "PGRST116"@[5]); }
    assert("PGRST200"@ != "PGRST101"@) by { assert("PGRST200"@[5] != "PGRST101"@[5]); }
    assert("PGRST200"@ != "PGRST117"@) by { assert("PGRST200"@[5] != "PGRST117"@[5]); }
    assert("PGRST201"@ != "PGRST000"@) by { assert("PGRST201"@[5] != "PGRST000"@[5]); }
    assert("PGRST201"@ != "PGRST001"@) by { assert("PGRST201"@[5] != "PGRST001"@[5]); }
    assert("PGRST201"@ != "PGRST002"@) by { assert("PGRST201"@[5] != "PGRST002"@[5]); }
    assert("PGRST201"@ != "PGRST003"@) by { assert("PGRST201"@[5] != "PGRST003"@[5]); }
    assert("PGRST201"@ != "PGRST100"@) by { assert("PGRST201"@[5] != "PGRST100"@[5]); }
    assert("PGRST201"@ != "PGRST102"@) by { assert("PGRST201"@[5] != "PGRST102"@[5]); }
    assert("PGRST201"@ != "PGRST103"@) by { assert("PGRST201"@[5] != "PGRST103"@[5]); }
    assert("PGRST201"@ != "PGRST105"@) by { assert("PGRST201"@[5] != "PGRST105"@[5]); }
    assert("PGRST201"@ != "PGRST114"@) by { assert("PGRST201"@[5] != "PGRST114"@[5]); }
    assert("PGRST201"@ != "PGRST115"@) by { assert("PGRST201"@[5] != "PGRST115"@[5]); }
    assert("PGRST201"@ != "PGRST106"@) by { assert("PGRST201"@[5] != "PGRST106"@[5]); }
    assert("PGRST201"@ != "PGRST107"@) by { assert("PGRST201"@[5] != "PGRST107"@[5]); }
    assert("PGRST201"@ != "PGRST116"@) by { assert("PGRST201"@[5] != "PGRST116"@[5]); }
    assert("PGRST201"@ != "PGRST101"@) by { assert("PGRST201"@[5] != "PGRST101"@[5]); }
    assert("PGRST201"@ != "PGRST117"@) by { assert("PGRST201"@[5] != "PGRST117"@[5]); }
    assert("PGRST201"@ != "PGRST200"@) by { assert("PGRST201"@[7] != "PGRST200"@[7]); }
    assert("PGRST203"@ != "PGRST000"@) by { assert("PGRST203"@[5] != "PGRST000"@[5]); }
    assert("PGRST203"@ != "PGRST001"@) by { assert("PGRST203"@[5] != "PGRST001"@[5]); }
    assert("PGRST203"@ != "PGRST002"@) by { assert("PGRST203"@[5] != "PGRST002"@[5]); }
    assert("PGRST203"@ != "PGRST003"@) by { assert("PGRST203"@[5] != "PGRST003"@[5]); }
    assert("PGRST203"@ != "PGRST100"@) by { assert("PGRST203"@[5] != "PGRST100"@[5]); }
    assert("PGRST203"@ != "PGRST102"@) by { assert("PGRST203"@[5] != "PGRST102"@[5]); }
    assert("PGRST203"@ != "PGRST103"@) by { assert("PGRST203"@[5] != "PGRST103"@[5]); }
    assert("PGRST203"@ != "PGRST105"@) by { assert("PGRST203"@[5] != "PGRST105"@[5]); }
    assert("PGRST203"@ != "PGRST114"@) by { assert("PGRST203"@[5] != "PGRST114"@[5]); }
    assert("PGRST203"@ != "PGRST115"@) by { assert("PGRST203"@[5] != "PGRST115"@[5]); }
    assert("PGRST203"@ != "PGRST106"@) by { assert("PGRST203"@[5] != "PGRST106"@[5]); }
    assert("PGRST203"@ != "PGRST107"@) by { assert("PGRST203"@[5] != "PGRST107"@[5]); }
    assert("PGRST203"@ != "PGRST116"@) by { assert("PGRST203"@[5] != "PGRST116"@[5]); }
    assert("PGRST203"@ != "PGRST101"@) by { assert("PGRST203"@[5] != "PGRST101"@[5]); }
    assert("PGRST203"@ != "PGRST117"@) by { assert("PGRST203"@[5] != "PGRST117"@[5]); }
    assert("PGRST203"@ != "PGRST200"@) by { assert("PGRST203"@[7] != "PGRST200"@[7]); }
    assert("PGRST203"@ != "PGRST201"@) by { assert("PGRST203"@[7] != "PGRST201"@[7]); }
    assert("PGRST202"@ != "PGRST000"@) by { assert("PGRST202"@[5] != "PGRST000"@[5]); }
    assert("PGRST202"@ != "PGRST001"@) by { assert("PGRST202"@[5] != "PGRST001"@[5]); }
    assert("PGRST202"@ != "PGRST002"@) by { assert("PGRST202"@[5] != "PGRST002"@[5]); }
    assert("PGRST202"@ != "PGRST003"@) by { assert("PGRST202"@[5] != "PGRST003"@[5]); }
    assert("PGRST202"@ != "PGRST100"@) by { assert("PGRST202"@[5] != "PGRST100"@[5]); }
    assert("PGRST202"@ != "PGRST102"@) by { assert("PGRST202"@[5] != "PGRST102"@[5]); }
    assert("PGRST202"@ != "PGRST103"@) by { assert("PGRST202"@[5] != "PGRST103"@[5]); }
    assert("PGRST202"@ != "PGRST105"@) by { assert("PGRST202"@[5] != "PGRST105"@[5]); }
    assert("PGRST202"@ != "PGRST114"@) by { assert("PGRST202"@[5] != "PGRST114"@[5]); }
    assert("PGRST202"@ != "PGRST115"@) by { assert("PGRST202"@[5] != "PGRST115"@[5]); }
    assert("PGRST202"@ != "PGRST106"@) by { assert("PGRST202"@[5] != "PGRST106"@[5]); }
    assert("PGRST202"@ != "PGRST107"@) by { assert("PGRST202"@[5] != "PGRST107"@[5]); }
    assert("PGRST202"@ != "PGRST116"@) by { assert("PGRST202"@[5] != "PGRST116"@[5]); }
    assert("PGRST202"@ != "PGRST101"@) by { assert("PGRST202"@[5] != "PGRST101"@[5]); }
    assert("PGRST202"@ != "PGRST117"@) by { assert("PGRST202"@[5] != "PGRST117"@[5]); }
    assert("PGRST202"@ != "PGRST200"@) by { assert("PGRST202"@[7] != "PGRST200"@[7]); }
    assert("PGRST202"@ != "PGRST201"@) by { assert("PGRST202"@[7] != "PGRST201"@[7]); }
    assert("PGRST202"@ != "PGRST203"@) by { assert("PGRST202"@[7] != "PGRST203"@[7]); }
    assert("PGRST205"@ != "PGRST000"@) by { assert("PGRST205"@[5] != "PGRST000"@[5]); }
    assert("PGRST205"@ != "PGRST001"@) by { assert("PGRST205"@[5] != "PGRST001"@[5]); }
    assert("PGRST205"@ != "PGRST002"@) by { assert("PGRST205"@[5] != "PGRST002"@[5]); }
    assert("PGRST205"@ != "PGRST003"@) by { assert("PGRST205"@[5] != "PGRST003"@[5]); }
    assert("PGRST205"@ != "PGRST100"@) by { assert("PGRST205"@[5] != "PGRST100"@[5]); }
    assert("PGRST205"@ != "PGRST102"@) by { assert("PGRST205"@[5] != "PGRST102"@[5]); }
    assert("PGRST205"@ != "PGRST103"@) by { assert("PGRST205"@[5] != "PGRST103"@[5]); }
    assert("PGRST205"@ != "PGRST105"@) by { assert("PGRST205"@[5] != "PGRST105"@[5]); }
    assert("PGRST205"@ != "PGRST114"@) by { assert("PGRST205"@[5] != "PGRST114"@[5]); }
    assert("PGRST205"@ != "PGRST115"@) by { assert("PGRST205"@[5] != "PGRST115"@[5]); }
    assert("PGRST205"@ != "PGRST106"@) by { assert("PGRST205"@[5] != "PGRST106"@[5]); }
    assert("PGRST205"@ != "PGRST107"@) by { assert("PGRST205"@[5] != "PGRST107"@[5]); }
    assert("PGRST205"@ != "PGRST116"@) by { assert("PGRST205"@[5] != "PGRST116"@[5]); }
    assert("PGRST205"@ != "PGRST101"@) by { assert("PGRST205"@[5] != "PGRST101"@[5]); }
    assert("PGRST205"@ != "PGRST117"@) by { assert("PGRST205"@[5] != "PGRST117"@[5]); }
    assert("PGRST205"@ != "PGRST200"@) by { assert("PGRST205"@[7] != "PGRST200"@[7]); }
    assert("PGRST205"@ != "PGRST201"@) by { assert("PGRST205"@[7] != "PGRST201"@[7]); }
    assert("PGRST205"@ != "PGRST203"@) by { assert("PGRST205"@[7] != "PGRST203"@[7]); }
    assert("PGRST205"@ != "PGRST202"@) by { assert("PGRST205"@[7] != "PGRST202"@[7]); }
    assert("PGRST125"@ != "PGRST000"@) by { assert("PGRST125"@[5] != "PGRST000"@[5]); }
    assert("PGRST125"@ != "PGRST001"@) by { assert("PGRST125"@[5] != "PGRST001"@[5]); }
    assert("PGRST125"@ != "PGRST002"@) by { assert("PGRST125"@[5] != "PGRST002"@[5]); }
    assert("PGRST125"@ != "PGRST003"@) by { assert("PGRST125"@[5] != "PGRST003"@[5]); }
    assert("PGRST125"@ != "PGRST100"@) by { assert("PGRST125"@[6] != "PGRST100"@[6]); }
    assert("PGRST125"@ != "PGRST102"@) by { assert("PGRST125"@[6] != "PGRST102"@[6]); }
    assert("PGRST125"@ != "PGRST103"@) by { assert("PGRST125"@[6] != "PGRST103"@[6]); }
    assert("PGRST125"@ != "PGRST105"@) by { assert("PGRST125"@[6] != "PGRST105"@[6]); }
    assert("PGRST125"@ != "PGRST114"@) by { assert("PGRST125"@[6] != "PGRST114"@[6]); }
    assert("PGRST125"@ != "PGRST115"@) by { assert("PGRST125"@[6] != "PGRST115"@[6]); }
    assert("PGRST125"@ != "PGRST106"@) by { assert("PGRST125"@[6] != "PGRST106"@[6]); }
    assert("PGRST125"@ != "PGRST107"@) by { assert("PGRST125"@[6] != "PGRST107"@[6]); }
    assert("PGRST125"@ != "PGRST116"@) by { assert("PGRST125"@[6] != "PGRST116"@[6]); }
    assert("PGRST125"@ != "PGRST101"@) by { assert("PGRST125"@[6] != "PGRST101"@[6]); }
    assert("PGRST125"@ != "PGRST117"@) by { assert("PGRST125"@[6] != "PGRST117"@[6]); }
    assert("PGRST125"@ != "PGRST200"@) by { assert("PGRST125"@[5] != "PGRST200"@[5]); }
    assert("PGRST125"@ != "PGRST201"@) by { assert("PGRST125"@[5] != "PGRST201"@[5]); }
    assert("PGRST125"@ != "PGRST203"@) by { assert("PGRST125"@[5] != "PGRST203"@[5]); }
    assert("PGRST125"@ != "PGRST202"@) by { assert("PGRST125"@[5] != "PGRST202"@[5]); }
    assert("PGRST125"@ != "PGRST205"@) by { assert("PGRST125"@[5] != "PGRST205"@[5]); }
    assert("PGRST300"@ != "PGRST000"@) by { assert("PGRST300"@[5] != "PGRST000"@[5]); }
    assert("PGRST300"@ != "PGRST001"@) by { assert("PGRST300"@[5] != "PGRST001"@[5]); }
    assert("PGRST300"@ != "PGRST002"@) by { assert("PGRST300"@[5] != "PGRST002"@[5]); }
    assert("PGRST300"@ != "PGRST003"@) by { assert("PGRST300"@[5] != "PGRST003"@[5]); }
    assert("PGRST300"@ != "PGRST100"@) by { assert("PGRST300"@[5] != "PGRST100"@[5]); }
    assert("PGRST300"@ != "PGRST102"@) by { assert("PGRST300"@[5] != "PGRST102"@[5]); }
    assert("PGRST300"@ != "PGRST103"@) by { assert("PGRST300"@[5] != "PGRST103"@[5]); }
    assert("PGRST300"@ != "PGRST105"@) by { assert("PGRST300"@[5] != "PGRST105"@[5]); }
    assert("PGRST300"@ != "PGRST114"@) by { assert("PGRST300"@[5] != "PGRST114"@[5]); }
    assert("PGRST300"@ != "PGRST115"@) by { assert("PGRST300"@[5] != "PGRST115"@[5]); }
    assert("PGRST300"@ != "PGRST106"@) by { assert("PGRST300"@[5] != "PGRST106"@[5]); }
    assert("PGRST300"@ != "PGRST107"@) by { assert("PGRST300"@[5] != "PGRST107"@[5]); }
    assert("PGRST300"@ != "PGRST116"@) by { assert("PGRST300"@[5] != "PGRST116"@[5]); }
    assert("PGRST300"@ != "PGRST101"@) by { assert("PGRST300"@[5] != "PGRST101"@[5]); }
    assert("PGRST300"@ != "PGRST117"@) by { assert("PGRST300"@[5] != "PGRST117"@[5]); }
    assert("PGRST300"@ != "PGRST200"@) by { assert("PGRST300"@[5] != "PGRST200"@[5]); }
    assert("PGRST300"@ != "PGRST201"@) by { assert("PGRST300"@[5] != "PGRST201"@[5]); }
    assert("PGRST300"@ != "PGRST203"@) by { assert("PGRST300"@[5] != "PGRST203"@[5]); }
    assert("PGRST300"@ != "PGRST202"@) by { assert("PGRST300"@[5] != "PGRST202"@[5]); }
    assert("PGRST300"@ != "PGRST205"@) by { assert("PGRST300"@[5] != "PGRST205"@[5]); }
    assert("PGRST300"@ != "PGRST125"@) by { assert("PGRST300"@[5] != "PGRST125"@[5]); }
    assert("PGRST301"@ != "PGRST000"@) by { assert("PGRST301"@[5] != "PGRST000"@[5]); }
    assert("PGRST301"@ != "PGRST001"@) by { assert("PGRST301"@[5] != "PGRST001"@[5]); }
    assert("PGRST301"@ != "PGRST002"@) by { assert("PGRST301"@[5] != "PGRST002"@[5]); }
    assert("PGRST301"@ != "PGRST003"@) by { assert("PGRST301"@[5] != "PGRST003"@[5]); }
    assert("PGRST301"@ != "PGRST100"@) by { assert("PGRST301"@[5] != "PGRST100"@[5]); }
    assert("PGRST301"@ != "PGRST102"@) by { assert("PGRST301"@[5] != "PGRST102"@[5]); }
    assert("PGRST301"@ != "PGRST103"@) by { assert("PGRST301"@[5] != "PGRST103"@[5]); }
    assert("PGRST301"@ != "PGRST105"@) by { assert("PGRST301"@[5] != "PGRST105"@[5]); }
    assert("PGRST301"@ != "PGRST114"@) by { assert("PGRST301"@[5] != "PGRST114"@[5]); }
    assert("PGRST301"@ != "PGRST115"@) by { assert("PGRST301"@[5] != "PGRST115"@[5]); }
    assert("PGRST301"@ != "PGRST106"@) by { assert("PGRST301"@[5] != "PGRST106"@[5]); }
    assert("PGRST301"@ != "PGRST107"@) by { assert("PGRST301"@[5] != "PGRST107"@[5]); }
    assert("PGRST301"@ != "PGRST116"@) by { assert("PGRST301"@[5] != "PGRST116"@[5]); }
    assert("PGRST301"@ != "PGRST101"@) by { assert("PGRST301"@[5] != "PGRST101"@[5]); }
    assert("PGRST301"@ != "PGRST117"@) by { assert("PGRST301"@[5] != "PGRST117"@[5]); }
    assert("PGRST301"@ != "PGRST200"@) by { assert("PGRST301"@[5] != "PGRST200"@[5]); }
    assert("PGRST301"@ != "PGRST201"@) by { assert("PGRST301"@[5] != "PGRST201"@[5]); }
    assert("PGRST301"@ != "PGRST203"@) by { assert("PGRST301"@[5] != "PGRST203"@[5]); }
    assert("PGRST301"@ != "PGRST202"@) by { assert("PGRST301"@[5] != "PGRST202"@[5]); }
    assert("PGRST301"@ != "PGRST205"@) by { assert("PGRST301"@[5] != "PGRST205"@[5]); }
    assert("PGRST301"@ != "PGRST125"@) by { assert("PGRST301"@[5] != "PGRST125"@[5]); }
    assert("PGRST301"@ != "PGRST300"@) by { assert("PGRST301"@[7] != "PGRST300"@[7]); }
    assert("PGRST302"@ != "PGRST000"@) by { assert("PGRST302"@[5] != "PGRST000"@[5]); }
    assert("PGRST302"@ != "PGRST001"@) by { assert("PGRST302"@[5] != "PGRST001"@[5]); }
    assert("PGRST302"@ != "PGRST002"@) by { assert("PGRST302"@[5] != "PGRST002"@[5]); }
    assert("PGRST302"@ != "PGRST003"@) by { assert("PGRST302"@[5] != "PGRST003"@[5]); }
    assert("PGRST302"@ != "PGRST100"@) by { assert("PGRST302"@[5] != "PGRST100"@[5]); }
    assert("PGRST302"@ != "PGRST102"@) by { assert("PGRST302"@[5] != "PGRST102"@[5]); }
    assert("PGRST302"@ != "PGRST103"@) by { assert("PGRST302"@[5] != "PGRST103"@[5]); }
    assert("PGRST302"@ != "PGRST105"@) by { assert("PGRST302"@[5] != "PGRST105"@[5]); }
    assert("PGRST302"@ != "PGRST114"@) by { assert("PGRST302"@[5] != "PGRST114"@[5]); }
    assert("PGRST302"@ != "PGRST115"@) by { assert("PGRST302"@[5] != "PGRST115"@[5]); }
    assert("PGRST302"@ != "PGRST106"@) by { assert("PGRST302"@[5] != "PGRST106"@[5]); }
    assert("PGRST302"@ != "PGRST107"@) by { assert("PGRST302"@[5] != "PGRST107"@[5]); }
    assert("PGRST302"@ != "PGRST116"@) by { assert("PGRST302"@[5] != "PGRST116"@[5]); }
    assert("PGRST302"@ != "PGRST101"@) by { assert("PGRST302"@[5] != "PGRST101"@[5]); }
    assert("PGRST302"@ != "PGRST117"@) by { assert("PGRST302"@[5] != "PGRST117"@[5]); }
    assert("PGRST302"@ != "PGRST200"@) by { assert("PGRST302"@[5] != "PGRST200"@[5]); }
    assert("PGRST302"@ != "PGRST201"@) by { assert("PGRST302"@[5] != "PGRST201"@[5]); }
    assert("PGRST302"@ != "PGRST203"@) by { assert("PGRST302"@[5] != "PGRST203"@[5]); }
    assert("PGRST302"@ != "PGRST202"@) by { assert("PGRST302"@[5] != "PGRST202"@[5]); }
    assert("PGRST302"@ != "PGRST205"@) by { assert("PGRST302"@[5] != "PGRST205"@[5]); }
    assert("PGRST302"@ != "PGRST125"@) by { assert("PGRST302"@[5] != "PGRST125"@[5]); }
    assert("PGRST302"@ != "PGRST300"@) by { assert("PGRST302"@[7] != "PGRST300"@[7]); }
    assert("PGRST302"@ != "PGRST301"@) by { assert("PGRST302"@[7] != "PGRST301"@[7]); }
    assert("PGRST303"@ != "PGRST000"@) by { assert("PGRST303"@[5] != "PGRST000"@[5]); }
    assert("PGRST303"@ != "PGRST001"@) by { assert("PGRST303"@[5] != "PGRST001"@[5]); }
    assert("PGRST303"@ != "PGRST002"@) by { assert("PGRST303"@[5] != "PGRST002"@[5]); }
    assert("PGRST303"@ != "PGRST003"@) by { assert("PGRST303"@[5] != "PGRST003"@[5]); }
    assert("PGRST303"@ != "PGRST100"@) by { assert("PGRST303"@[5] != "PGRST100"@[5]); }
    assert("PGRST303"@ != "PGRST102"@) by { assert("PGRST303"@[5] != "PGRST102"@[5]); }
    assert("PGRST303"@ != "PGRST103"@) by { assert("PGRST303"@[5] != "PGRST103"@[5]); }
    assert("PGRST303"@ != "PGRST105"@) by { assert("PGRST303"@[5] != "PGRST105"@[5]); }
    assert("PGRST303"@ != "PGRST114"@) by { assert("PGRST303"@[5] != "PGRST114"@[5]); }
    assert("PGRST303"@ != "PGRST115"@) by { assert("PGRST303"@[5] != "PGRST115"@[5]); }
    assert("PGRST303"@ != "PGRST106"@) by { assert("PGRST303"@[5] != "PGRST106"@[5]); }
    assert("PGRST303"@ != "PGRST107"@) by { assert("PGRST303"@[5] != "PGRST107"@[5]); }
    assert("PGRST303"@ != "PGRST116"@) by { assert("PGRST303"@[5] != "PGRST116"@[5]); }
    assert("PGRST303"@ != "PGRST101"@) by { assert("PGRST303"@[5] != "PGRST101"@[5]); }
    assert("PGRST303"@ != "PGRST117"@) by { assert("PGRST303"@[5] != "PGRST117"@[5]); }
    assert("PGRST303"@ != "PGRST200"@) by { assert("PGRST303"@[5] != "PGRST200"@[5]); }
    assert("PGRST303"@ != "PGRST201"@) by { assert("PGRST303"@[5] != "PGRST201"@[5]); }
    assert("PGRST303"@ != "PGRST203"@) by { assert("PGRST303"@[5] != "PGRST203"@[5]); }
    assert("PGRST303"@ != "PGRST202"@) by { assert("PGRST303"@[5] != "PGRST202"@[5]); }
    assert("PGRST303"@ != "PGRST205"@) by { assert("PGRST303"@[5] != "PGRST205"@[5]); }
    assert("PGRST303"@ != "PGRST125"@) by { assert("PGRST303"@[5] != "PGRST125"@[5]); }
    assert("PGRST303"@ != "PGRST300"@) by { assert("PGRST303"@[7] != "PGRST300"@[7]); }
    assert("PGRST303"@ != "PGRST301"@) by { assert("PGRST303"@[7] != "PGRST301"@[7]); }
    assert("PGRST303"@ != "PGRST302"@) by { assert("PGRST303"@[7] != "PGRST302"@[7]); }
    assert("23503"@ != "PGRST000"@) by { assert("23503"@.len() != "PGRST000"@.len()); }
    assert("23503"@ != "PGRST001"@) by { assert("23503"@.len() != "PGRST001"@.len()); }
    assert("23503"@ != "PGRST002"@) by { assert("23503"@.len() != "PGRST002"@.len()); }
    assert("23503"@ != "PGRST003"@) by { assert("23503"@.len() != "PGRST003"@.len()); }
    assert("23503"@ != "PGRST100"@) by { assert("23503"@.len() != "PGRST100"@.len()); }
    assert("23503"@ != "PGRST102"@) by { assert("23503"@.len() != "PGRST102"@.len()); }
    assert("23503"@ != "PGRST103"@) by { assert("23503"@.len() != "PGRST103"@.len()); }
    assert("23503"@ != "PGRST105"@) by { assert("23503"@.len() != "PGRST105"@.len()); }
    assert("23503"@ != "PGRST114"@) by { assert("23503"@.len() != "PGRST114"@.len()); }
    assert("23503"@ != "PGRST115"@) by { assert("23503"@.len() != "PGRST115"@.len()); }
    assert("23503"@ != "PGRST106"@) by { assert("23503"@.len() != "PGRST106"@.len()); }
    assert("23503"@ != "PGRST107"@) by { assert("23503"@.len() != "PGRST107"@.len()); }
    assert("23503"@ != "PGRST116"@) by { assert("23503"@.len() != "PGRST116"@.len()); }
    assert("23503"@ != "PGRST101"@) by { assert("23503"@.len() != "PGRST101"@.len()); }
    assert("23503"@ != "PGRST117"@) by { assert("23503"@.len() != "PGRST117"@.len()); }
    assert("23503"@ != "PGRST200"@) by { assert("23503"@.len() != "PGRST200"@.len()); }
    assert("23503"@ != "PGRST201"@) by { assert("23503"@.len() != "PGRST201"@.len()); }
    assert("23503"@ != "PGRST203"@) by { assert("23503"@.len() != "PGRST203"@.len()); }
    assert("23503"@ != "PGRST202"@) by { assert("23503"@.len() != "PGRST202"@.len()); }
    assert("23503"@ != "PGRST205"@) by { assert("23503"@.len() != "PGRST205"@.len()); }
    assert("23503"@ != "PGRST125"@) by { assert("23503"@.len() != "PGRST125"@.len()); }
    assert("23503"@ != "PGRST300"@) by { assert("23503"@.len() != "PGRST300"@.len()); }
    assert("23503"@ != "PGRST301"@) by { assert("23503"@.len() != "PGRST301"@.len()); }
    assert("23503"@ != "PGRST302"@) by { assert("23503"@.len() != "PGRST302"@.len()); }
    assert("23503"@ != "PGRST303"@) by { assert("23503"@.len() != "PGRST303"@.len()); }
    assert("23505"@ != "PGRST000"@) by { assert("23505"@.len() != "PGRST000"@.len()); }
    assert("23505"@ != "PGRST001"@) by { assert("23505"@.len() != "PGRST001"@.len()); }
    assert("23505"@ != "PGRST002"@) by { assert("23505"@.len() != "PGRST002"@.len()); }
    assert("23505"@ != "PGRST003"@) by { assert("23505"@.len() != "PGRST003"@.len()); }
    assert("23505"@ != "PGRST100"@) by { assert("23505"@.len() != "PGRST100"@.len()); }
    assert("23505"@ != "PGRST102"@) by { assert("23505"@.len() != "PGRST102"@.len()); }
    assert("23505"@ != "PGRST103"@) by { assert("23505"@.len() != "PGRST103"@.len()); }
    assert("23505"@ != "PGRST105"@) by { assert("23505"@.len() != "PGRST105"@.len()); }
    assert("23505"@ != "PGRST114"@) by { assert("23505"@.len() != "PGRST114"@.len()); }
    assert("23505"@ != "PGRST115"@) by { assert("23505"@.len() != "PGRST115"@.len()); }
    assert("23505"@ != "PGRST106"@) by { assert("23505"@.len() != "PGRST106"@.len()); }
    assert("23505"@ != "PGRST107"@) by { assert("23505"@.len() != "PGRST107"@.len()); }
    assert("23505"@ != "PGRST116"@) by { assert("23505"@.len() != "PGRST116"@.len()); }
    assert("23505"@ != "PGRST101"@) by { assert("23505"@.len() != "PGRST101"@.len()); }
    assert("23505"@ != "PGRST117"@) by { assert("23505"@.len() != "PGRST117"@.len()); }
    assert("23505"@ != "PGRST200"@) by { assert("23505"@.len() != "PGRST200"@.len()); }
    assert("23505"@ != "PGRST201"@) by { assert("23505"@.len() != "PGRST201"@.len()); }
    assert("23505"@ != "PGRST203"@) by { assert("23505"@.len() != "PGRST203"@.len()); }
    assert("23505"@ != "PGRST202"@) by { assert("23505"@.len() != "PGRST202"@.len()); }
    assert("23505"@ != "PGRST205"@) by { assert("23505"@.len() != "PGRST205"@.len()); }
    assert("23505"@ != "PGRST125"@) by { assert("23505"@.len() != "PGRST125"@.len()); }
    assert("23505"@ != "PGRST300"@) by { assert("23505"@.len() != "PGRST300"@.len()); }
    assert("23505"@ != "PGRST301"@) by { assert("23505"@.len() != "PGRST301"@.len()); }
    assert("23505"@ != "PGRST302"@) by { assert("23505"@.len() != "PGRST302"@.len()); }
    assert("23505"@ != "PGRST303"@) by { assert("23505"@.len() != "PGRST303"@.len()); }
    assert("23505"@ != "23503"@) by { assert("23505"@[4] != "23503"@[4]); }
    assert("42501"@ != "PGRST000"@) by { assert("42501"@.len() != "PGRST000"@.len()); }
    assert("42501"@ != "PGRST001"@) by { assert("42501"@.len() != "PGRST001"@.len()); }
    assert("42501"@ != "PGRST002"@) by { assert("42501"@.len() != "PGRST002"@.len()); }
    assert("42501"@ != "PGRST003"@) by { assert("42501"@.len() != "PGRST003"@.len()); }
    assert("42501"@ != "PGRST100"@) by { assert("42501"@.len() != "PGRST100"@.len()); }
    assert("42501"@ != "PGRST102"@) by { assert("42501"@.len() != "PGRST102"@.len()); }
    assert("42501"@ != "PGRST103"@) by { assert("42501"@.len() != "PGRST103"@.len()); }
    assert("42501"@ != "PGRST105"@) by { assert("42501"@.len() != "PGRST105"@.len()); }
    assert("42501"@ != "PGRST114"@) by { assert("42501"@.len() != "PGRST114"@.len()); }
    assert("42501"@ != "PGRST115"@) by { assert("42501"@.len() != "PGRST115"@.len()); }
    assert("42501"@ != "PGRST106"@) by { assert("42501"@.len() != "PGRST106"@.len()); }
    assert("42501"@ != "PGRST107"@) by { assert("42501"@.len() != "PGRST107"@.len()); }
    assert("42501"@ != "PGRST116"@) by { assert("42501"@.len() != "PGRST116"@.len()); }
    assert("42501"@ != "PGRST101"@) by { assert("42501"@.len() != "PGRST101"@.len()); }
    assert("42501"@ != "PGRST117"@) by { assert("42501"@.len() != "PGRST117"@.len()); }
    assert("42501"@ != "PGRST200"@) by { assert("42501"@.len() != "PGRST200"@.len()); }
    assert("42501"@ != "PGRST201"@) by { assert("42501"@.len() != "PGRST201"@.len()); }
    assert("42501"@ != "PGRST203"@) by { assert("42501"@.len() != "PGRST203"@.len()); }
    assert("42501"@ != "PGRST202"@) by { assert("42501"@.len() != "PGRST202"@.len()); }
    assert("42501"@ != "PGRST205"@) by { assert("42501"@.len() != "PGRST205"@.len()); }
    assert("42501"@ != "PGRST125"@) by { assert("42501"@.len() != "PGRST125"@.len()); }
    assert("42501"@ != "PGRST300"@) by { assert("42501"@.len() != "PGRST300"@.len()); }
    assert("42501"@ != "PGRST301"@) by { assert("42501"@.len() != "PGRST301"@.len()); }
    assert("42501"@ != "PGRST302"@) by { assert("42501"@.len() != "PGRST302"@.len()); }
    assert("42501"@ != "PGRST303"@) by { assert("42501"@.len() != "PGRST303"@.len()); }
    assert("42501"@ != "23503"@) by { assert("42501"@[0] != "23503"@[0]); }
    assert("42501"@ != "23505"@) by { assert("42501"@[0] != "23505"@[0]); }
    assert("42P01"@ != "PGRST000"@) by { assert("42P01"@.len() != "PGRST000"@.len()); }
    assert("42P01"@ != "PGRST001"@) by { assert("42P01"@.len() != "PGRST001"@.len()); }
    assert("42P01"@ != "PGRST002"@) by { assert("42P01"@.len() != "PGRST002"@.len()); }
    assert("42P01"@ != "PGRST003"@) by { assert("42P01"@.len() != "PGRST003"@.len()); }
    assert("42P01"@ != "PGRST100"@) by { assert("42P01"@.len() != "PGRST100"@.len()); }
    assert("42P01"@ != "PGRST102"@) by { assert("42P01"@.len() != "PGRST102"@.len()); }
    assert("42P01"@ != "PGRST103"@) by { assert("42P01"@.len() != "PGRST103"@.len()); }
    assert("42P01"@ != "PGRST105"@) by { assert("42P01"@.len() != "PGRST105"@.len()); }
    assert("42P01"@ != "PGRST114"@) by { assert("42P01"@.len() != "PGRST114"@.len()); }
    assert("42P01"@ != "PGRST115"@) by { assert("42P01"@.len() != "PGRST115"@.len()); }
    assert("42P01"@ != "PGRST106"@) by { assert("42P01"@.len() != "PGRST106"@.len()); }
    assert("42P01"@ != "PGRST107"@) by { assert("42P01"@.len() != "PGRST107"@.len()); }
    assert("42P01"@ != "PGRST116"@) by { assert("42P01"@.len() != "PGRST116"@.len()); }
    assert("42P01"@ != "PGRST101"@) by { assert("42P01"@.len() != "PGRST101"@.len()); }
    assert("42P01"@ != "PGRST117"@) by { assert("42P01"@.len() != "PGRST117"@.len()); }
    assert("42P01"@ != "PGRST200"@) by { assert("42P01"@.len() != "PGRST200"@.len()); }
    assert("42P01"@ != "PGRST201"@) by { assert("42P01"@.len() != "PGRST201"@.len()); }
    assert("42P01"@ != "PGRST203"@) by { assert("42P01"@.len() != "PGRST203"@.len()); }
    assert("42P01"@ != "PGRST202"@) by { assert("42P01"@.len() != "PGRST202"@.len()); }
    assert("42P01"@ != "PGRST205"@) by { assert("42P01"@.len() != "PGRST205"@.len()); }
    assert("42P01"@ != "PGRST125"@) by { assert("42P01"@.len() != "PGRST125"@.len()); }
    assert("42P01"@ != "PGRST300"@) by { assert("42P01"@.len() != "PGRST300"@.len()); }
    assert("42P01"@ != "PGRST301"@) by { assert("42P01"@.len() != "PGRST301"@.len()); }
    assert("42P01"@ != "PGRST302"@) by { assert("42P01"@.len() != "PGRST302"@.len()); }
    assert("42P01"@ != "PGRST303"@) by { assert("42P01"@.len() != "PGRST303"@.len()); }
    assert("42P01"@ != "23503"@) by { assert("42P01"@[0] != "23503"@[0]); }
    assert("42P01"@ != "23505"@) by { assert("42P01"@[0] != "23505"@[0]); }
    assert("42P01"@ != "42501"@) by { assert("42P01"@[2] != "42501"@[2]); }
    assert("42883"@ != "PGRST000"@) by { assert("42883"@.len() != "PGRST000"@.len()); }
    assert("42883"@ != "PGRST001"@) by { assert("42883"@.len() != "PGRST001"@.len()); }
    assert("42883"@ != "PGRST002"@) by { assert("42883"@.len() != "PGRST002"@.len()); }
    assert("42883"@ != "PGRST003"@) by { assert("42883"@.len() != "PGRST003"@.len()); }
    assert("42883"@ != "PGRST100"@) by { assert("42883"@.len() != "PGRST100"@.len()); }
    assert("42883"@ != "PGRST102"@) by { assert("42883"@.len() != "PGRST102"@.len()); }
    assert("42883"@ != "PGRST103"@) by { assert("42883"@.len() != "PGRST103"@.len()); }
    assert("42883"@ != "PGRST105"@) by { assert("42883"@.len() != "PGRST105"@.len()); }
    assert("42883"@ != "PGRST114"@) by { assert("42883"@.len() != "PGRST114"@.len()); }
    assert("42883"@ != "PGRST115"@) by { assert("42883"@.len() != "PGRST115"@.len()); }
    assert("42883"@ != "PGRST106"@) by { assert("42883"@.len() != "PGRST106"@.len()); }
    assert("42883"@ != "PGRST107"@) by { assert("42883"@.len() != "PGRST107"@.len()); }
    assert("42883"@ != "PGRST116"@) by { assert("42883"@.len() != "PGRST116"@.len()); }
    assert("42883"@ != "PGRST101"@) by { assert("42883"@.len() != "PGRST101"@.len()); }
    assert("42883"@ != "PGRST117"@) by { assert("42883"@.len() != "PGRST117"@.len()); }
    assert("42883"@ != "PGRST200"@) by { assert("42883"@.len() != "PGRST200"@.len()); }
    assert("42883"@ != "PGRST201"@) by { assert("42883"@.len() != "PGRST201"@.len()); }
    assert("42883"@ != "PGRST203"@) by { assert("42883"@.len() != "PGRST203"@.len()); }
    assert("42883"@ != "PGRST202"@) by { assert("42883"@.len() != "PGRST202"@.len()); }
    assert("42883"@ != "PGRST205"@) by { assert("42883"@.len() != "PGRST205"@.len()); }
    assert("42883"@ != "PGRST125"@) by { assert("42883"@.len() != "PGRST125"@.len()); }
    assert("42883"@ != "PGRST300"@) by { assert("42883"@.len() != "PGRST300"@.len()); }
    assert("42883"@ != "PGRST301"@) by { assert("42883"@.len() != "PGRST301"@.len()); }
    assert("42883"@ != "PGRST302"@) by { assert("42883"@.len() != "PGRST302"@.len()); }
    assert("42883"@ != "PGRST303"@) by { assert("42883"@.len() != "PGRST303"@.len()); }
    assert("42883"@ != "23503"@) by { assert("42883"@[0] != "23503"@[0]); }
    assert("42883"@ != "23505"@) by { assert("42883"@[0] != "23505"@[0]); }
    assert("42883"@ != "42501"@) by { assert("42883"@[2] != "42501"@[2]); }
    assert("42883"@ != "42P01"@) by { assert("42883"@[2] != "42P01"@[2]); }
    assert("25006"@ != "PGRST000"@) by { assert("25006"@.len() != "PGRST000"@.len()); }
    assert("25006"@ != "PGRST001"@) by { assert("25006"@.len() != "PGRST001"@.len()); }
    assert("25006"@ != "PGRST002"@) by { assert("25006"@.len() != "PGRST002"@.len()); }
    assert("25006"@ != "PGRST003"@) by { assert("25006"@.len() != "PGRST003"@.len()); }
    assert("25006"@ != "PGRST100"@) by { assert("25006"@.len() != "PGRST100"@.len()); }
    assert("25006"@ != "PGRST102"@) by { assert("25006"@.len() != "PGRST102"@.len()); }
    assert("25006"@ != "PGRST103"@) by { assert("25006"@.len() != "PGRST103"@.len()); }
    assert("25006"@ != "PGRST105"@) by { assert("25006"@.len() != "PGRST105"@.len()); }
    assert("25006"@ != "PGRST114"@) by { assert("25006"@.len() != "PGRST114"@.len()); }
    assert("25006"@ != "PGRST115"@) by { assert("25006"@.len() != "PGRST115"@.len()); }
    assert("25006"@ != "PGRST106"@) by { assert("25006"@.len() != "PGRST106"@.len()); }
    assert("25006"@ != "PGRST107"@) by { assert("25006"@.len() != "PGRST107"@.len()); }
    assert("25006"@ != "PGRST116"@) by { assert("25006"@.len() != "PGRST116"@.len()); }
    assert("25006"@ != "PGRST101"@) by { assert("25006"@.len() != "PGRST101"@.len()); }
    assert("25006"@ != "PGRST117"@) by { assert("25006"@.len() != "PGRST117"@.len()); }
    assert("25006"@ != "PGRST200"@) by { assert("25006"@.len() != "PGRST200"@.len()); }
    assert("25006"@ != "PGRST201"@) by { assert("25006"@.len() != "PGRST201"@.len()); }
    assert("25006"@ != "PGRST203"@) by { assert("25006"@.len() != "PGRST203"@.len()); }
    assert("25006"@ != "PGRST202"@) by { assert("25006"@.len() != "PGRST202"@.len()); }
    assert("25006"@ != "PGRST205"@) by { assert("25006"@.len() != "PGRST205"@.len()); }
    assert("25006"@ != "PGRST125"@) by { assert("25006"@.len() != "PGRST125"@.len()); }
    assert("25006"@ != "PGRST300"@) by { assert("25006"@.len() != "PGRST300"@.len()); }
    assert("25006"@ != "PGRST301"@) by { assert("25006"@.len() != "PGRST301"@.len()); }
    assert("25006"@ != "PGRST302"@) by { assert("25006"@.len() != "PGRST302"@.len()); }
    assert("25006"@ != "PGRST303"@) by { assert("25006"@.len() != "PGRST303"@.len()); }
    assert("25006"@ != "23503"@) by { assert("25006"@[1] != "23503"@[1]); }
    assert("25006"@ != "23505"@) by { assert("25006"@[1] != "23505"@[1]); }
    assert("25006"@ != "42501"@) by { assert("25006"@[0] != "42501"@[0]); }
    assert("25006"@ != "42P01"@) by { assert("25006"@[0] != "42P01"@[0]); }
    assert("25006"@ != "42883"@) by { assert("25006"@[0] != "42883"@[0]); }
}

/// Which statuses give which error: each named error comes from its one
/// status (`AuthRequired` from 401 only), and every other status `s`, such as
/// 400, gives `Unknown(s)`.
pub proof fn law_http_status_table(status: u16)
    ensures
        (http_status_error(status) == PostgrestError::AuthRequired) <==> status == 401,
        (http_status_error(status) == PostgrestError::InsufficientPrivilege) <==> status == 403,
        (http_status_error(status) == PostgrestError::TableNotFound) <==> status == 404,
        (http_status_error(status) == PostgrestError::MethodNotAllowed) <==> status == 405,
        (http_status_error(status) == PostgrestError::UniqueViolation) <==> status == 409,
        (http_status_error(status) == PostgrestError::InvalidRange) <==> status == 416,
        !(status == 401 || status == 403 || status == 404 || status == 405 || status == 409 || status == 416) ==> http_status_error(status) == PostgrestError::Unknown(status),
{
}

/// A response succeeds exactly for the statuses `200..300`, 206 included: the
/// error to report for such a response is none (`InvalidRequest`), and for
/// any other status it is a PostgREST error.
pub proof fn law_success_range(status: u16, code: Option<Seq<char>>)
    ensures
        success_status(status) <==> 200 <= status < 300,
        (response_error(status, code) == Error::InvalidRequest) <==> 200 <= status < 300,
        !(200 <= status < 300) ==> response_error(status, code) is Postgrest,
{
}

/// The `Prefer` value for each combination of options: the options asked for,
/// in the order merge-duplicates, return, count, joined by `", "`; no value
/// when none is asked for. Counting is asked for whenever the count option is
/// set, whatever the other options.
pub proof fn law_prefer_value<'a>(b: BuilderView<'a>)
    ensures
        headers_for(b).prefer is Some <==> (b.prefer_upsert || b.prefer_return || b.prefer_count),
        !b.prefer_upsert && !b.prefer_return && b.prefer_count ==> headers_for(b).prefer == Some(
            "count=exact"@,
        ),
        !b.prefer_upsert && b.prefer_return && !b.prefer_count ==> headers_for(b).prefer == Some(
            "return=representation"@,
        ),
        b.prefer_upsert && !b.prefer_return && !b.prefer_count ==> headers_for(b).prefer == Some(
            "resolution=merge-duplicates"@,
        ),
        !b.prefer_upsert && b.prefer_return && b.prefer_count ==> headers_for(b).prefer == Some(
            "return=representation, count=exact"@,
        ),
        b.prefer_upsert && b.prefer_return && !b.prefer_count ==> headers_for(b).prefer == Some(
            "resolution=merge-duplicates, return=representation"@,
        ),
        b.prefer_upsert && !b.prefer_return && b.prefer_count ==> headers_for(b).prefer == Some(
            "resolution=merge-duplicates, count=exact"@,
        ),
        b.prefer_upsert && b.prefer_return && b.prefer_count ==> headers_for(b).prefer == Some(
            "resolution=merge-duplicates, return=representation, count=exact"@,
        ),
{
    reveal_strlit("count=exact");
    reveal_strlit("return=representation");
    reveal_strlit("resolution=merge-duplicates");
    reveal_strlit(", ");
    reveal_strlit("return=representation, count=exact");
    reveal_strlit("resolution=merge-duplicates, return=representation");
    reveal_strlit("resolution=merge-duplicates, count=exact");
    reveal_strlit("resolution=merge-duplicates, return=representation, count=exact");
    let parts = prefer_parts(b);
    let u = "resolution=merge-duplicates"@;
    let r = "return=representation"@;
    let c = "count=exact"@;
    let sep = ", "@;
    if b.prefer_upsert && b.prefer_return && b.prefer_count {
        assert(parts =~= seq![u, r, c]);
        assert(parts.drop_last() =~= seq![u, r]);
        assert(parts.drop_last().drop_last() =~= seq![u]);
        assert(join_parts(parts.drop_last().drop_last()) == u);
        assert(join_parts(parts.drop_last()) == u + sep + r);
        assert(join_parts(parts) =~= u + sep + r + sep + c);
    } else if b.prefer_upsert && b.prefer_return {
        assert(parts =~= seq![u, r]);
        assert(parts.drop_last() =~= seq![u]);
        assert(join_parts(parts.drop_last()) == u);
        assert(join_parts(parts) =~= u + sep + r);
    } else if b.prefer_upsert && b.prefer_count {
        assert(parts =~= seq![u, c]);
        assert(parts.drop_last() =~= seq![u]);
        assert(join_parts(parts.drop_last()) == u);
        assert(join_parts(parts) =~= u + sep + c);
    } else if b.prefer_return && b.prefer_count {
        assert(parts =~= seq![r, c]);
        assert(parts.drop_last() =~= seq![r]);
        assert(join_parts(parts.drop_last()) == r);
        assert(join_parts(parts) =~= r + sep + c);
    } else if b.prefer_upsert {
        assert(parts =~= seq![u]);
    } else if b.prefer_return {
        assert(parts =~= seq![r]);
    } else if b.prefer_count {
        assert(parts =~= seq![c]);
    } else {
        assert(parts =~= Seq::<Seq<char>>::empty());
    }
}

/// Every header that a request calls for is listed, each once, in the order
/// `apikey`, `Authorization`, `Prefer`: a header's presence does not depend on
/// the others (with no credentials the list is just the `Prefer` header).
pub proof fn law_header_list<'a>(v: HeadersView<'a>)
    ensures
        header_list(v).len() == (if v.api_key is Some { 1int } else { 0 }) + (if v.bearer is Some {
            1int
        } else {
            0
        }) + (if v.prefer is Some { 1int } else { 0 }),
        v.api_key matches Some(k) ==> header_list(v)[0] == ("apikey"@, k@),
        v.bearer matches Some(t) ==> header_list(v)[if v.api_key is Some { 1int } else { 0 }] == (
            "Authorization"@,
            t,
        ),
        v.prefer matches Some(p) ==> header_list(v).last() == ("Prefer"@, p),
        v.api_key is None && v.bearer is None && v.prefer is Some ==> header_list(v) == seq![
            ("Prefer"@, v.prefer.unwrap()),
        ],
{
    let h3 = headers_from(v, 3);
    let h2 = headers_from(v, 2);
    let h1 = headers_from(v, 1);
    let h0 = headers_from(v, 0);
    assert(h3.len() == 0);
    assert(h2 =~= if v.prefer is Some { seq![("Prefer"@, v.prefer.unwrap())] } else { h3 });
    assert(h1 =~= if v.bearer is Some { seq![("Authorization"@, v.bearer.unwrap())] + h2 } else { h2 });
    assert(h0 =~= if v.api_key is Some { seq![("apikey"@, v.api_key.unwrap()@)] + h1 } else { h1 });
}

/// A failed response whose body names no known code means what its status
/// means.
pub proof fn law_status_fallback(status: u16, code: Option<Seq<char>>)
    requires
        !success_status(status),
        code is None || pgrst_code_error(code.unwrap()) == PostgrestError::Unknown(0),
    ensures
        response_error(status, code) == Error::Postgrest(http_status_error(status)),
{
}

/// A known PostgREST or Postgres code in the body wins over the HTTP status.
pub proof fn law_known_code_wins(status: u16, code: Seq<char>)
    requires
        !success_status(status),
        pgrst_code_error(code) != PostgrestError::Unknown(0),
    ensures
        response_error(status, Some(code)) == Error::Postgrest(pgrst_code_error(code)),
{
}

/// Error codes map to `Unknown(0)` when unknown, and HTTP statuses to
/// `Unknown(status)`: an unknown code never carries a status.
pub proof fn law_unknown_errors(code: Seq<char>, status: u16)
    ensures
        pgrst_code_error(code) matches PostgrestError::Unknown(n) ==> n == 0,
        http_status_error(status) matches PostgrestError::Unknown(n) ==> n == status,
{
}

/// A request never carries more than `MAX_REQUEST_HEADERS` headers, so an
/// output of that size always has room for all of them.
pub proof fn law_header_count<'a>(b: BuilderView<'a>)
    ensures
        header_list(headers_for(b)).len() <= MAX_REQUEST_HEADERS,
{
    let v = headers_for(b);
    assert(headers_from(v, 3).len() == 0);
    assert(headers_from(v, 2).len() <= 1);
    assert(headers_from(v, 1).len() <= 2);
    assert(headers_from(v, 0).len() <= 3);
}

/// A request with credentials sends the API key first, then the bearer token
/// as `Authorization: Bearer <token>` when there is one.
pub proof fn law_auth_headers<'a>(b: BuilderView<'a>, auth: Auth<'a>)
    requires
        b.auth matches Some(a) && *a == auth,
    ensures
        header_list(headers_for(b))[0] == ("apikey"@, auth.api_key@),
        auth.bearer_token matches Some(t) ==> header_list(headers_for(b))[1] == (
            "Authorization"@,
            bearer_value(t@),
        ),
{
    let v = headers_for(b);
    assert(headers_from(v, 0) == seq![("apikey"@, auth.api_key@)] + headers_from(v, 1));
    if auth.bearer_token is Some {
        assert(headers_from(v, 1) == seq![("Authorization"@, bearer_value(auth.bearer_token.unwrap()@))]
            + headers_from(v, 2));
    }
}

} // verus!

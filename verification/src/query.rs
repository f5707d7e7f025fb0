//! PostgREST query strings, built into a fixed-capacity buffer.
use vstd::prelude::*;
use crate::error::Error;
use crate::fixed::{FixedString, utf8_len, lemma_utf8_len_concat};
use crate::number::{decimal, decimal_text};

verus! {

/// Sort direction of an `order` parameter.
#[derive(Debug, Clone, Copy, PartialEq, Eq, Structural)]
pub enum SortOrder {
    Asc,
    Desc,
}

/// The text that names a sort direction in a query string.
pub open spec fn direction_text(direction: SortOrder) -> Seq<char> {
    match direction {
        SortOrder::Asc => "asc"@,
        SortOrder::Desc => "desc"@,
    }
}

/// `text` followed by as many of `pieces` as fit in `cap` bytes, taken in order:
/// each piece is appended whole when it fits, and the first one that does not
/// fit stops the appending.
pub open spec fn fill(text: Seq<char>, pieces: Seq<Seq<char>>, cap: nat) -> Seq<char>
    decreases pieces.len(),
{
    if pieces.len() == 0 {
        text
    } else if utf8_len(text + pieces[0]) <= cap {
        fill(text + pieces[0], pieces.drop_first(), cap)
    } else {
        text
    }
}

/// One step of `fill`, and of the concatenation of the pieces.
pub proof fn lemma_fill_step(text: Seq<char>, pieces: Seq<Seq<char>>, cap: nat)
    requires
        pieces.len() > 0,
    ensures
        utf8_len(text + pieces[0]) == utf8_len(text) + utf8_len(pieces[0]),
        pieces.flatten() == pieces[0] + pieces.drop_first().flatten(),
        utf8_len(text + pieces.flatten()) == utf8_len(text) + utf8_len(pieces[0]) + utf8_len(
            pieces.drop_first().flatten(),
        ),
        text + pieces.flatten() == (text + pieces[0]) + pieces.drop_first().flatten(),
        utf8_len(text + pieces[0]) <= cap ==> fill(text, pieces, cap) == fill(
            text + pieces[0],
            pieces.drop_first(),
            cap,
        ),
        utf8_len(text + pieces[0]) > cap ==> fill(text, pieces, cap) == text,
{
    lemma_utf8_len_concat(text, pieces[0]);
    lemma_utf8_len_concat(text, pieces.flatten());
    lemma_utf8_len_concat(pieces[0], pieces.drop_first().flatten());
    assert(text + pieces.flatten() =~= (text + pieces[0]) + pieces.drop_first().flatten());
}

/// `fill` never goes past the capacity, and it appends every piece exactly
/// when all of them fit together.
pub proof fn lemma_fill_bounds(text: Seq<char>, pieces: Seq<Seq<char>>, cap: nat)
    requires
        utf8_len(text) <= cap,
    ensures
        utf8_len(fill(text, pieces, cap)) <= cap,
        utf8_len(text + pieces.flatten()) <= cap ==> fill(text, pieces, cap) == text + pieces.flatten(),
    decreases pieces.len(),
{
    if pieces.len() == 0 {
        assert(text + pieces.flatten() =~= text);
    } else {
        lemma_fill_step(text, pieces, cap);
        if utf8_len(text + pieces[0]) <= cap {
            lemma_fill_bounds(text + pieces[0], pieces.drop_first(), cap);
        }
    }
}

/// What a query builder holds: the path with its query string, and whether a
/// first parameter has opened the query string with `?`.
#[verifier::ext_equal]
pub struct QueryView {
    pub path: Seq<char>,
    pub has_params: bool,
}

impl QueryView {
    /// The character that precedes the next parameter.
    pub open spec fn separator(self) -> Seq<char> {
        if self.has_params {
            seq!['&']
        } else {
            seq!['?']
        }
    }

    /// Whether the separator and all `pieces` of a parameter fit in `cap` bytes.
    pub open spec fn param_fits(self, pieces: Seq<Seq<char>>, cap: nat) -> bool {
        utf8_len(self.path + self.separator() + pieces.flatten()) <= cap
    }

    /// The state after appending the separator and then `pieces`, each piece
    /// only as long as it still fits in `cap` bytes.
    pub open spec fn with_param(self, pieces: Seq<Seq<char>>, cap: nat) -> QueryView {
        QueryView {
            path: fill(self.path, seq![self.separator()] + pieces, cap),
            has_params: self.has_params || utf8_len(self.path + self.separator()) <= cap,
        }
    }
}

/// The pieces of a filter `column=op.value`.
pub open spec fn filter_pieces(column: Seq<char>, op: Seq<char>, value: Seq<char>) -> Seq<Seq<char>> {
    seq![column, seq!['='], op, seq!['.'], value]
}

/// The pieces of a parameter `key=value`.
pub open spec fn kv_pieces(key: Seq<char>, value: Seq<char>) -> Seq<Seq<char>> {
    seq![key, seq!['='], value]
}

/// The pieces of `order=column.direction`.
pub open spec fn order_pieces(column: Seq<char>, direction: SortOrder) -> Seq<Seq<char>> {
    seq!["order="@, column, seq!['.'], direction_text(direction)]
}

/// The pieces of a numeric parameter such as `limit=10`.
pub open spec fn number_pieces(key: Seq<char>, n: nat) -> Seq<Seq<char>> {
    seq![key, decimal(n)]
}

/// Builds PostgREST query strings into a buffer of `N` bytes.
pub struct QueryBuilder<const N: usize> {
    buf: FixedString<N>,
    has_params: bool,
}

impl<const N: usize> View for QueryBuilder<N> {
    type V = QueryView;

    closed spec fn view(&self) -> QueryView {
        QueryView { path: self.buf@, has_params: self.has_params }
    }
}

impl<const N: usize> QueryBuilder<N> {
    /// The path never grows past the `N` bytes of the buffer.
    #[verifier::type_invariant]
    spec fn within_capacity(self) -> bool {
        utf8_len(self.buf@) <= N
    }

    /// Starts from `base_path`, or from an empty path when it does not fit.
    pub fn new(base_path: &str) -> (q: Self)
        ensures
            q@ == (QueryView {
                path: if utf8_len(base_path@) <= N {
                    base_path@
                } else {
                    Seq::<char>::empty()
                },
                has_params: false,
            }),
    {
        let mut buf = FixedString::<N>::new();
        let _ = buf.push_str(base_path);
        proof {
            assert(Seq::<char>::empty() + base_path@ =~= base_path@);
            assert(utf8_len(Seq::<char>::empty()) == 0);
        }
        QueryBuilder { buf, has_params: false }
    }

    pub fn as_str(&self) -> (s: &str)
        ensures
            s@ == self@.path,
    {
        self.buf.as_str()
    }

    /// Length of the path and query string in bytes.
    pub fn len(&self) -> (n: usize)
        ensures
            n == utf8_len(self@.path),
            n <= N,
    {
        self.buf.len()
    }

    /// Appends one piece of the parameter whose pieces still to be written are
    /// `rest`.
    fn push_piece(&mut self, piece: &str, Ghost(rest): Ghost<Seq<Seq<char>>>) -> (r: Result<(), Error>)
        requires
            rest.len() > 0,
            rest[0] == piece@,
        ensures
            final(self)@.has_params == old(self)@.has_params,
            r is Ok <==> utf8_len(old(self)@.path + piece@) <= N,
            r is Ok ==> final(self)@.path == old(self)@.path + piece@,
            r is Ok ==> fill(old(self)@.path, rest, N as nat) == fill(final(self)@.path, rest.drop_first(), N as nat),
            r is Ok ==> old(self)@.path + rest.flatten() == final(self)@.path + rest.drop_first().flatten(),
            r is Err ==> r == Err::<(), Error>(Error::UrlTooLong),
            r is Err ==> final(self)@.path == old(self)@.path,
            r is Err ==> fill(old(self)@.path, rest, N as nat) == old(self)@.path,
            r is Err ==> utf8_len(old(self)@.path + rest.flatten()) > N,
    {
        proof {
            use_type_invariant(&*self);
            lemma_fill_step(self@.path, rest, N as nat);
        }
        match self.buf.push_str(piece) {
            Ok(()) => Ok(()),
            Err(()) => Err(Error::UrlTooLong),
        }
    }

    /// Appends one character of the parameter whose pieces still to be written
    /// are `rest`.
    fn push_char(&mut self, c: char, Ghost(rest): Ghost<Seq<Seq<char>>>) -> (r: Result<(), Error>)
        requires
            rest.len() > 0,
            rest[0] == seq![c],
        ensures
            final(self)@.has_params == old(self)@.has_params,
            r is Ok <==> utf8_len(old(self)@.path + seq![c]) <= N,
            r is Ok ==> final(self)@.path == old(self)@.path + seq![c],
            r is Ok ==> fill(old(self)@.path, rest, N as nat) == fill(final(self)@.path, rest.drop_first(), N as nat),
            r is Ok ==> old(self)@.path + rest.flatten() == final(self)@.path + rest.drop_first().flatten(),
            r is Err ==> r == Err::<(), Error>(Error::UrlTooLong),
            r is Err ==> final(self)@.path == old(self)@.path,
            r is Err ==> fill(old(self)@.path, rest, N as nat) == old(self)@.path,
            r is Err ==> utf8_len(old(self)@.path + rest.flatten()) > N,
    {
        proof {
            use_type_invariant(&*self);
            lemma_fill_step(self@.path, rest, N as nat);
            lemma_utf8_len_concat(self@.path, seq![c]);
            assert(self.buf@.push(c) =~= self.buf@ + seq![c]);
        }
        match self.buf.push(c) {
            Ok(()) => {
                assert(self.buf@ =~= old(self)@.path + seq![c]);
                Ok(())
            },
            Err(()) => Err(Error::UrlTooLong),
        }
    }

    /// Appends `&` when a parameter came before, else `?`, the first piece of
    /// the parameter whose pieces are `all`.
    fn append_separator(&mut self, Ghost(all): Ghost<Seq<Seq<char>>>) -> (r: Result<(), Error>)
        requires
            all.len() > 0,
            all[0] == old(self)@.separator(),
        ensures
            final(self)@.has_params == (old(self)@.has_params || utf8_len(
                old(self)@.path + old(self)@.separator(),
            ) <= N),
            r is Ok <==> utf8_len(old(self)@.path + old(self)@.separator()) <= N,
            r is Ok ==> final(self)@.path == old(self)@.path + old(self)@.separator(),
            r is Ok ==> final(self)@.has_params,
            r is Ok ==> fill(old(self)@.path, all, N as nat) == fill(final(self)@.path, all.drop_first(), N as nat),
            r is Ok ==> old(self)@.path + all.flatten() == final(self)@.path + all.drop_first().flatten(),
            r is Err ==> r == Err::<(), Error>(Error::UrlTooLong),
            r is Err ==> final(self)@.path == old(self)@.path,
            r is Err ==> fill(old(self)@.path, all, N as nat) == old(self)@.path,
            r is Err ==> utf8_len(old(self)@.path + all.flatten()) > N,
    {
        if self.has_params {
            self.push_char('&', Ghost(all))?;
        } else {
            self.push_char('?', Ghost(all))?;
            self.has_params = true;
        }
        Ok(())
    }

    fn append_filter(&mut self, column: &str, op: &str, value: &str) -> (r: Result<&mut Self, Error>)
        ensures
            r is Ok <==> old(self)@.param_fits(filter_pieces(column@, op@, value@), N as nat),
            r matches Ok(q) ==> q@ == old(self)@.with_param(filter_pieces(column@, op@, value@), N as nat)
                && *final(self) == *final(q),
            r matches Err(e) ==> e == Error::UrlTooLong
                && final(self)@ == old(self)@.with_param(filter_pieces(column@, op@, value@), N as nat),
    {
        proof {
            use_type_invariant(&*self);
        }
        let ghost start = self@;
        let ghost pieces = filter_pieces(column@, op@, value@);
        let ghost all = seq![start.separator()] + pieces;
        proof {
            lemma_fill_bounds(start.path, all, N as nat);
            assert(all[0] == start.separator());
            assert(all.drop_first() =~= pieces);
            lemma_fill_step(start.path, all, N as nat);
            assert(start.path + start.separator() + pieces.flatten() =~= start.path + (
            start.separator() + pieces.flatten()));
        }
        let ghost r0 = all.drop_first();
        self.append_separator(Ghost(all))?;
        assert(r0.drop_first() =~= seq![seq!['='], op@, seq!['.'], value@]);
        self.push_piece(column, Ghost(r0))?;
        let ghost r1 = r0.drop_first();
        assert(r1.drop_first() =~= seq![op@, seq!['.'], value@]);
        self.push_char('=', Ghost(r1))?;
        let ghost r2 = r1.drop_first();
        assert(r2.drop_first() =~= seq![seq!['.'], value@]);
        self.push_piece(op, Ghost(r2))?;
        let ghost r3 = r2.drop_first();
        assert(r3.drop_first() =~= seq![value@]);
        self.push_char('.', Ghost(r3))?;
        let ghost r4 = r3.drop_first();
        assert(r4.drop_first() =~= Seq::<Seq<char>>::empty());
        self.push_piece(value, Ghost(r4))?;
        proof {
            assert(r4.drop_first().flatten() =~= Seq::<char>::empty());
            assert(self@.path + r4.drop_first().flatten() =~= self@.path);
        }
        Ok(self)
    }

    fn append_kv(&mut self, key: &str, value: &str) -> (r: Result<&mut Self, Error>)
        ensures
            r is Ok <==> old(self)@.param_fits(kv_pieces(key@, value@), N as nat),
            r matches Ok(q) ==> q@ == old(self)@.with_param(kv_pieces(key@, value@), N as nat)
                && *final(self) == *final(q),
            r matches Err(e) ==> e == Error::UrlTooLong
                && final(self)@ == old(self)@.with_param(kv_pieces(key@, value@), N as nat),
    {
        proof {
            use_type_invariant(&*self);
        }
        let ghost start = self@;
        let ghost pieces = kv_pieces(key@, value@);
        let ghost all = seq![start.separator()] + pieces;
        proof {
            lemma_fill_bounds(start.path, all, N as nat);
            assert(all[0] == start.separator());
            assert(all.drop_first() =~= pieces);
            lemma_fill_step(start.path, all, N as nat);
            assert(start.path + start.separator() + pieces.flatten() =~= start.path + (
            start.separator() + pieces.flatten()));
        }
        let ghost r0 = all.drop_first();
        self.append_separator(Ghost(all))?;
        assert(r0.drop_first() =~= seq![seq!['='], value@]);
        self.push_piece(key, Ghost(r0))?;
        let ghost r1 = r0.drop_first();
        assert(r1.drop_first() =~= seq![value@]);
        self.push_char('=', Ghost(r1))?;
        let ghost r2 = r1.drop_first();
        assert(r2.drop_first() =~= Seq::<Seq<char>>::empty());
        self.push_piece(value, Ghost(r2))?;
        proof {
            assert(r2.drop_first().flatten() =~= Seq::<char>::empty());
            assert(self@.path + r2.drop_first().flatten() =~= self@.path);
        }
        Ok(self)
    }

    /// Appends `key` followed by the decimal digits of `n`.
    fn append_number(&mut self, key: &str, n: usize) -> (r: Result<&mut Self, Error>)
        ensures
            r is Ok <==> old(self)@.param_fits(number_pieces(key@, n as nat), N as nat),
            r matches Ok(q) ==> q@ == old(self)@.with_param(number_pieces(key@, n as nat), N as nat)
                && *final(self) == *final(q),
            r matches Err(e) ==> e == Error::UrlTooLong
                && final(self)@ == old(self)@.with_param(number_pieces(key@, n as nat), N as nat),
    {
        proof {
            use_type_invariant(&*self);
        }
        let ghost start = self@;
        let ghost pieces = number_pieces(key@, n as nat);
        let ghost all = seq![start.separator()] + pieces;
        proof {
            lemma_fill_bounds(start.path, all, N as nat);
            assert(all[0] == start.separator());
            assert(all.drop_first() =~= pieces);
            lemma_fill_step(start.path, all, N as nat);
            assert(start.path + start.separator() + pieces.flatten() =~= start.path + (
            start.separator() + pieces.flatten()));
        }
        let ghost r0 = all.drop_first();
        self.append_separator(Ghost(all))?;
        assert(r0.drop_first() =~= seq![decimal(n as nat)]);
        self.push_piece(key, Ghost(r0))?;
        let ghost r1 = r0.drop_first();
        assert(r1.drop_first() =~= Seq::<Seq<char>>::empty());
        let digits = decimal_text(n);
        self.push_piece(digits.as_str(), Ghost(r1))?;
        proof {
            assert(r1.drop_first().flatten() =~= Seq::<char>::empty());
            assert(self@.path + r1.drop_first().flatten() =~= self@.path);
        }
        Ok(self)
    }

    pub fn select(&mut self, columns: &str) -> (r: Result<&mut Self, Error>)
        ensures
            r is Ok <==> old(self)@.param_fits(kv_pieces("select"@, columns@), N as nat),
            r matches Ok(q) ==> q@ == old(self)@.with_param(kv_pieces("select"@, columns@), N as nat)
                && *final(self) == *final(q),
            r matches Err(e) ==> e == Error::UrlTooLong
                && final(self)@ == old(self)@.with_param(kv_pieces("select"@, columns@), N as nat),
    {
        self.append_kv("select", columns)
    }

    pub fn eq(&mut self, column: &str, value: &str) -> (r: Result<&mut Self, Error>)
        ensures
            r is Ok <==> old(self)@.param_fits(filter_pieces(column@, "eq"@, value@), N as nat),
            r matches Ok(q) ==> q@ == old(self)@.with_param(filter_pieces(column@, "eq"@, value@), N as nat)
                && *final(self) == *final(q),
            r matches Err(e) ==> e == Error::UrlTooLong
                && final(self)@ == old(self)@.with_param(filter_pieces(column@, "eq"@, value@), N as nat),
    {
        self.append_filter(column, "eq", value)
    }

    pub fn neq(&mut self, column: &str, value: &str) -> (r: Result<&mut Self, Error>)
        ensures
            r is Ok <==> old(self)@.param_fits(filter_pieces(column@, "neq"@, value@), N as nat),
            r matches Ok(q) ==> q@ == old(self)@.with_param(filter_pieces(column@, "neq"@, value@), N as nat)
                && *final(self) == *final(q),
            r matches Err(e) ==> e == Error::UrlTooLong
                && final(self)@ == old(self)@.with_param(filter_pieces(column@, "neq"@, value@), N as nat),
    {
        self.append_filter(column, "neq", value)
    }

    pub fn gt(&mut self, column: &str, value: &str) -> (r: Result<&mut Self, Error>)
        ensures
            r is Ok <==> old(self)@.param_fits(filter_pieces(column@, "gt"@, value@), N as nat),
            r matches Ok(q) ==> q@ == old(self)@.with_param(filter_pieces(column@, "gt"@, value@), N as nat)
                && *final(self) == *final(q),
            r matches Err(e) ==> e == Error::UrlTooLong
                && final(self)@ == old(self)@.with_param(filter_pieces(column@, "gt"@, value@), N as nat),
    {
        self.append_filter(column, "gt", value)
    }

    pub fn gte(&mut self, column: &str, value: &str) -> (r: Result<&mut Self, Error>)
        ensures
            r is Ok <==> old(self)@.param_fits(filter_pieces(column@, "gte"@, value@), N as nat),
            r matches Ok(q) ==> q@ == old(self)@.with_param(filter_pieces(column@, "gte"@, value@), N as nat)
                && *final(self) == *final(q),
            r matches Err(e) ==> e == Error::UrlTooLong
                && final(self)@ == old(self)@.with_param(filter_pieces(column@, "gte"@, value@), N as nat),
    {
        self.append_filter(column, "gte", value)
    }

    pub fn lt(&mut self, column: &str, value: &str) -> (r: Result<&mut Self, Error>)
        ensures
            r is Ok <==> old(self)@.param_fits(filter_pieces(column@, "lt"@, value@), N as nat),
            r matches Ok(q) ==> q@ == old(self)@.with_param(filter_pieces(column@, "lt"@, value@), N as nat)
                && *final(self) == *final(q),
            r matches Err(e) ==> e == Error::UrlTooLong
                && final(self)@ == old(self)@.with_param(filter_pieces(column@, "lt"@, value@), N as nat),
    {
        self.append_filter(column, "lt", value)
    }

    pub fn lte(&mut self, column: &str, value: &str) -> (r: Result<&mut Self, Error>)
        ensures
            r is Ok <==> old(self)@.param_fits(filter_pieces(column@, "lte"@, value@), N as nat),
            r matches Ok(q) ==> q@ == old(self)@.with_param(filter_pieces(column@, "lte"@, value@), N as nat)
                && *final(self) == *final(q),
            r matches Err(e) ==> e == Error::UrlTooLong
                && final(self)@ == old(self)@.with_param(filter_pieces(column@, "lte"@, value@), N as nat),
    {
        self.append_filter(column, "lte", value)
    }

    pub fn like(&mut self, column: &str, pattern: &str) -> (r: Result<&mut Self, Error>)
        ensures
            r is Ok <==> old(self)@.param_fits(filter_pieces(column@, "like"@, pattern@), N as nat),
            r matches Ok(q) ==> q@ == old(self)@.with_param(filter_pieces(column@, "like"@, pattern@), N as nat)
                && *final(self) == *final(q),
            r matches Err(e) ==> e == Error::UrlTooLong
                && final(self)@ == old(self)@.with_param(filter_pieces(column@, "like"@, pattern@), N as nat),
    {
        self.append_filter(column, "like", pattern)
    }

    pub fn ilike(&mut self, column: &str, pattern: &str) -> (r: Result<&mut Self, Error>)
        ensures
            r is Ok <==> old(self)@.param_fits(filter_pieces(column@, "ilike"@, pattern@), N as nat),
            r matches Ok(q) ==> q@ == old(self)@.with_param(filter_pieces(column@, "ilike"@, pattern@), N as nat)
                && *final(self) == *final(q),
            r matches Err(e) ==> e == Error::UrlTooLong
                && final(self)@ == old(self)@.with_param(filter_pieces(column@, "ilike"@, pattern@), N as nat),
    {
        self.append_filter(column, "ilike", pattern)
    }

    /// Filter using `in` operator. Value should include parens: `"(1,2,3)"`
    pub fn in_(&mut self, column: &str, values: &str) -> (r: Result<&mut Self, Error>)
        ensures
            r is Ok <==> old(self)@.param_fits(filter_pieces(column@, "in"@, values@), N as nat),
            r matches Ok(q) ==> q@ == old(self)@.with_param(filter_pieces(column@, "in"@, values@), N as nat)
                && *final(self) == *final(q),
            r matches Err(e) ==> e == Error::UrlTooLong
                && final(self)@ == old(self)@.with_param(filter_pieces(column@, "in"@, values@), N as nat),
    {
        self.append_filter(column, "in", values)
    }

    /// Filter using `is` operator. Value is typically `"null"`, `"true"`, or `"false"`
    pub fn is(&mut self, column: &str, value: &str) -> (r: Result<&mut Self, Error>)
        ensures
            r is Ok <==> old(self)@.param_fits(filter_pieces(column@, "is"@, value@), N as nat),
            r matches Ok(q) ==> q@ == old(self)@.with_param(filter_pieces(column@, "is"@, value@), N as nat)
                && *final(self) == *final(q),
            r matches Err(e) ==> e == Error::UrlTooLong
                && final(self)@ == old(self)@.with_param(filter_pieces(column@, "is"@, value@), N as nat),
    {
        self.append_filter(column, "is", value)
    }

    pub fn order(&mut self, column: &str, direction: SortOrder) -> (r: Result<&mut Self, Error>)
        ensures
            r is Ok <==> old(self)@.param_fits(order_pieces(column@, direction), N as nat),
            r matches Ok(q) ==> q@ == old(self)@.with_param(order_pieces(column@, direction), N as nat)
                && *final(self) == *final(q),
            r matches Err(e) ==> e == Error::UrlTooLong
                && final(self)@ == old(self)@.with_param(order_pieces(column@, direction), N as nat),
    {
        let dir = match direction {
            SortOrder::Asc => "asc",
            SortOrder::Desc => "desc",
        };
        proof {
            use_type_invariant(&*self);
        }
        let ghost start = self@;
        let ghost pieces = order_pieces(column@, direction);
        let ghost all = seq![start.separator()] + pieces;
        proof {
            lemma_fill_bounds(start.path, all, N as nat);
            assert(all[0] == start.separator());
            assert(all.drop_first() =~= pieces);
            lemma_fill_step(start.path, all, N as nat);
            assert(start.path + start.separator() + pieces.flatten() =~= start.path + (
            start.separator() + pieces.flatten()));
        }
        let ghost r0 = all.drop_first();
        self.append_separator(Ghost(all))?;
        assert(r0.drop_first() =~= seq![column@, seq!['.'], dir@]);
        self.push_piece("order=", Ghost(r0))?;
        let ghost r1 = r0.drop_first();
        assert(r1.drop_first() =~= seq![seq!['.'], dir@]);
        self.push_piece(column, Ghost(r1))?;
        let ghost r2 = r1.drop_first();
        assert(r2.drop_first() =~= seq![dir@]);
        self.push_char('.', Ghost(r2))?;
        let ghost r3 = r2.drop_first();
        assert(r3.drop_first() =~= Seq::<Seq<char>>::empty());
        self.push_piece(dir, Ghost(r3))?;
        proof {
            assert(r3.drop_first().flatten() =~= Seq::<char>::empty());
            assert(self@.path + r3.drop_first().flatten() =~= self@.path);
        }
        Ok(self)
    }

    pub fn limit(&mut self, count: usize) -> (r: Result<&mut Self, Error>)
        ensures
            r is Ok <==> old(self)@.param_fits(number_pieces("limit="@, count as nat), N as nat),
            r matches Ok(q) ==> q@ == old(self)@.with_param(number_pieces("limit="@, count as nat), N as nat)
                && *final(self) == *final(q),
            r matches Err(e) ==> e == Error::UrlTooLong
                && final(self)@ == old(self)@.with_param(number_pieces("limit="@, count as nat), N as nat),
    {
        self.append_number("limit=", count)
    }

    pub fn offset(&mut self, start: usize) -> (r: Result<&mut Self, Error>)
        ensures
            r is Ok <==> old(self)@.param_fits(number_pieces("offset="@, start as nat), N as nat),
            r matches Ok(q) ==> q@ == old(self)@.with_param(number_pieces("offset="@, start as nat), N as nat)
                && *final(self) == *final(q),
            r matches Err(e) ==> e == Error::UrlTooLong
                && final(self)@ == old(self)@.with_param(number_pieces("offset="@, start as nat), N as nat),
    {
        self.append_number("offset=", start)
    }
}

} // verus!

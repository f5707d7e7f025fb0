//! A fixed-capacity text buffer backed by `heapless::String`, with its contents
//! modelled as a sequence of characters and its capacity counted in UTF-8 bytes.
use vstd::prelude::*;
use vstd::string::*;
use vstd::utf8::*;

verus! {

#[verifier::external_type_specification]
#[verifier::external_body]
pub struct ExHeaplessString<const N: usize>(heapless::String<N>);

/// Number of bytes in the UTF-8 encoding of `s`.
pub open spec fn utf8_len(s: Seq<char>) -> nat {
    encode_utf8(s).len()
}

/// The UTF-8 encoding of a concatenation is the concatenation of the encodings.
pub proof fn lemma_encode_utf8_concat(a: Seq<char>, b: Seq<char>)
    ensures
        encode_utf8(a + b) == encode_utf8(a) + encode_utf8(b),
    decreases a.len(),
{
    if a.len() == 0 {
        assert(a + b =~= b);
        assert(encode_utf8(a) + encode_utf8(b) =~= encode_utf8(b));
    } else {
        lemma_encode_utf8_concat(a.drop_first(), b);
        assert((a + b).drop_first() =~= a.drop_first() + b);
        assert((a + b)[0] == a[0]);
        assert(encode_utf8(a + b) =~= encode_scalar(a[0] as u32) + encode_utf8(a.drop_first() + b));
        assert(encode_utf8(a) =~= encode_scalar(a[0] as u32) + encode_utf8(a.drop_first()));
        assert(encode_utf8(a + b) =~= encode_utf8(a) + encode_utf8(b));
    }
}

/// Byte lengths add up over concatenation.
pub proof fn lemma_utf8_len_concat(a: Seq<char>, b: Seq<char>)
    ensures
        utf8_len(a + b) == utf8_len(a) + utf8_len(b),
{
    lemma_encode_utf8_concat(a, b);
}

/// Two character sequences with the same UTF-8 encoding are equal.
pub proof fn lemma_encode_utf8_injective(a: Seq<char>, b: Seq<char>)
    requires
        encode_utf8(a) == encode_utf8(b),
    ensures
        a == b,
{
    encode_utf8_decode_utf8(a);
    encode_utf8_decode_utf8(b);
}

/// An ASCII character sequence takes one byte per character.
pub proof fn lemma_ascii_utf8_len(s: Seq<char>)
    requires
        is_ascii_chars(s),
    ensures
        utf8_len(s) == s.len(),
{
    is_ascii_chars_encode_utf8(s);
}

/// A text buffer that holds at most `N` bytes of UTF-8.
///
/// The characters are kept by a `heapless::String<N>`. Beside it, `chars` is
/// the character sequence that the string holds: it is set only by the
/// `external_body` methods below, each of which makes one call into `heapless`
/// and states, as a trusted contract, how that call changes the held
/// characters and that they stay within the `N` bytes of capacity.
pub struct FixedString<const N: usize> {
    inner: heapless::String<N>,
    chars: Ghost<Seq<char>>,
}

impl<const N: usize> View for FixedString<N> {
    type V = Seq<char>;

    closed spec fn view(&self) -> Seq<char> {
        self.chars@
    }
}

impl<const N: usize> FixedString<N> {
    /// The held text never takes more than `N` bytes.
    #[verifier::type_invariant]
    spec fn within_capacity(self) -> bool {
        utf8_len(self.chars@) <= N
    }

    /// Calls `heapless::String::new`, which starts with no bytes.
    #[verifier::external_body]
    pub fn new() -> (s: Self)
        ensures
            s@ == Seq::<char>::empty(),
    {
        FixedString { inner: heapless::String::new(), chars: Ghost(Seq::empty()) }
    }

    /// Calls `heapless::String::push_str`, which appends all of `s` when the
    /// bytes fit in the capacity and otherwise leaves the buffer as it was and
    /// returns `Err(())`.
    #[verifier::external_body]
    pub fn push_str(&mut self, s: &str) -> (r: Result<(), ()>)
        ensures
            r is Ok <==> utf8_len(old(self)@) + utf8_len(s@) <= N,
            r is Ok ==> final(self)@ == old(self)@ + s@,
            r is Err ==> final(self)@ == old(self)@,
            utf8_len(final(self)@) <= N,
        no_unwind
    {
        self.inner.push_str(s)
    }

    /// Calls `heapless::String::push`, which appends the character when its
    /// UTF-8 bytes fit in the capacity and otherwise leaves the buffer as it was.
    #[verifier::external_body]
    pub fn push(&mut self, c: char) -> (r: Result<(), ()>)
        ensures
            r is Ok <==> utf8_len(old(self)@) + utf8_len(seq![c]) <= N,
            r is Ok ==> final(self)@ == old(self)@.push(c),
            r is Err ==> final(self)@ == old(self)@,
            utf8_len(final(self)@) <= N,
        no_unwind
    {
        self.inner.push(c)
    }

    /// Calls `heapless::String::as_str`, the characters held.
    #[verifier::external_body]
    pub fn as_str(&self) -> (r: &str)
        ensures
            r@ == self@,
    {
        self.inner.as_str()
    }

    /// Length of the held text in bytes, which the capacity bounds.
    pub fn len(&self) -> (r: usize)
        ensures
            r == utf8_len(self@),
            r <= N,
    {
        proof {
            use_type_invariant(self);
        }
        self.as_str().len()
    }
}

} // verus!

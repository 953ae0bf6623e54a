//! Decoding of the fixed-size, zero-padded name buffers of the DTrace library.
//!
//! A name is the run of bytes in front of the first zero byte of its buffer.
//! A buffer without a zero byte is taken whole. Text here is a string of
//! bytes without a zero byte, as a C string is; no other demand is made of
//! the bytes, so every buffer has a text and decoding cannot fail.

use vstd::prelude::*;

verus! {

/// No byte of `s` is zero.
pub open spec fn nul_free(s: Seq<u8>) -> bool {
    forall|i: int| 0 <= i < s.len() ==> s[i] != 0
}

/// The number of bytes in front of the first zero byte of `buf`; the length of
/// `buf` where it holds no zero byte.
pub open spec fn text_len(buf: Seq<u8>) -> nat
    decreases buf.len(),
{
    if buf.len() == 0 || buf[0] == 0 {
        0
    } else {
        1 + text_len(buf.drop_first())
    }
}

/// The text that `buf` holds: its bytes in front of the first zero byte.
pub open spec fn text_of(buf: Seq<u8>) -> Seq<u8> {
    buf.take(text_len(buf) as int)
}

/// `n` is the place where the text of `buf` ends: no byte in front of it is
/// zero, and it is the end of `buf` or the place of a zero byte.
pub open spec fn ends_text_at(buf: Seq<u8>, n: int) -> bool {
    &&& 0 <= n <= buf.len()
    &&& forall|i: int| 0 <= i < n ==> buf[i] != 0
    &&& (n == buf.len() || buf[n] == 0)
}

/// The text of a buffer ends at `text_len`, and nowhere else.
pub proof fn lemma_text_len(buf: Seq<u8>)
    ensures
        ends_text_at(buf, text_len(buf) as int),
        forall|n: int| ends_text_at(buf, n) ==> n == text_len(buf),
    decreases buf.len(),
{
    if buf.len() > 0 && buf[0] != 0 {
        let rest = buf.drop_first();
        let k = text_len(rest) as int;
        lemma_text_len(rest);
        assert forall|i: int| 0 <= i < k + 1 implies buf[i] != 0 by {
            if i > 0 {
                assert(rest[i - 1] == buf[i]);
            }
        }
        assert forall|n: int| ends_text_at(buf, n) implies n == k + 1 by {
            assert forall|i: int| 0 <= i < n - 1 implies rest[i] != 0 by {
                assert(rest[i] == buf[i + 1]);
            }
            assert(ends_text_at(rest, n - 1));
        }
    }
}

/// The text of a buffer is a prefix of it without a zero byte, and what
/// follows it in the buffer, if anything, starts with a zero byte.
pub proof fn lemma_text_of(buf: Seq<u8>)
    ensures
        text_of(buf).len() == text_len(buf) <= buf.len(),
        text_of(buf) == buf.take(text_of(buf).len() as int),
        nul_free(text_of(buf)),
        text_of(buf).len() == buf.len() || buf[text_of(buf).len() as int] == 0,
{
    lemma_text_len(buf);
}

/// Decoding is idempotent: a text is its own text.
pub proof fn lemma_text_of_idempotent(buf: Seq<u8>)
    ensures
        text_of(text_of(buf)) == text_of(buf),
{
    lemma_text_of(buf);
    lemma_text_of_nul_free(text_of(buf));
}

/// A buffer without a zero byte is taken whole: its text has the length of
/// the buffer.
pub proof fn lemma_text_of_nul_free(buf: Seq<u8>)
    requires
        nul_free(buf),
    ensures
        text_of(buf) == buf,
        text_of(buf).len() == buf.len(),
{
    lemma_text_len(buf);
}

/// A buffer that starts with a zero byte, such as one that is all zero, holds
/// the empty text.
pub proof fn lemma_text_of_leading_nul(buf: Seq<u8>)
    requires
        buf.len() > 0,
        buf[0] == 0,
    ensures
        text_of(buf) == Seq::<u8>::empty(),
{
}

/// A text followed by a zero byte and anything after it decodes to that text:
/// padding is stripped, and nothing else is.
pub proof fn lemma_text_of_padded(text: Seq<u8>, rest: Seq<u8>)
    requires
        nul_free(text),
    ensures
        text_of(text + seq![0u8] + rest) == text,
{
    let buf = text + seq![0u8] + rest;
    lemma_text_len(buf);
    assert(ends_text_at(buf, text.len() as int));
}

/// Owned text: a string of bytes that holds no zero byte.
#[derive(Debug, PartialEq, Eq)]
pub struct CText {
    bytes: Vec<u8>,
}

impl View for CText {
    type V = Seq<u8>;

    closed spec fn view(&self) -> Seq<u8> {
        self.bytes@
    }
}

impl Clone for CText {
    fn clone(&self) -> (text: Self)
        ensures
            text@ == self@,
    {
        proof {
            use_type_invariant(self);
        }
        let bytes = self.bytes.clone();
        CText { bytes }
    }
}

impl CText {
    #[verifier::type_invariant]
    spec fn holds_no_nul(&self) -> bool {
        nul_free(self.bytes@)
    }

    /// The bytes of the text. None of them is zero.
    pub fn as_bytes(&self) -> (bytes: &[u8])
        ensures
            bytes@ == self@,
            nul_free(bytes@),
    {
        proof {
            use_type_invariant(self);
        }
        self.bytes.as_slice()
    }

    /// The bytes of the text, by value. None of them is zero.
    pub fn into_bytes(self) -> (bytes: Vec<u8>)
        ensures
            bytes@ == self@,
            nul_free(bytes@),
    {
        proof {
            use_type_invariant(&self);
        }
        self.bytes
    }

    /// The number of bytes of the text.
    pub fn len(&self) -> (n: usize)
        ensures
            n == self@.len(),
    {
        self.bytes.len()
    }
}

/// Decodes a name buffer: copies the bytes in front of the first zero byte of
/// `bytes` into an owned text. Where `bytes` holds no zero byte, all of it is
/// the text.
pub fn cstring_from_bytes(bytes: &[u8]) -> (text: CText)
    ensures
        text@ == text_of(bytes@),
        text@.len() <= bytes@.len(),
        text@ == bytes@.take(text@.len() as int),
        nul_free(text@),
        text@.len() == bytes@.len() || bytes@[text@.len() as int] == 0,
{
    let mut out: Vec<u8> = Vec::new();
    let mut i: usize = 0;
    while i < bytes.len() && bytes[i] != 0
        invariant
            i <= bytes@.len(),
            out@ == bytes@.take(i as int),
            forall|j: int| 0 <= j < i ==> bytes@[j] != 0,
        decreases bytes@.len() - i,
    {
        out.push(bytes[i]);
        i = i + 1;
    }
    proof {
        lemma_text_len(bytes@);
        assert(ends_text_at(bytes@, i as int));
    }
    CText { bytes: out }
}

} // verus!

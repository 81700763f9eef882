//! A fixed-capacity buffer that text can be written into.
use crate::text::lemma_encode_utf8_concat;
use vstd::prelude::*;
use vstd::utf8::{decode_utf8, encode_utf8, encode_utf8_decode_utf8, encode_utf8_valid_utf8, valid_utf8};

verus! {

/// The error of reading bytes as UTF-8 text.
#[verifier::external_type_specification]
#[verifier::external_body]
pub struct ExUtf8Error(core::str::Utf8Error);

/// The error of writing text into a buffer that has no room for it.
#[verifier::external_type_specification]
#[verifier::external_body]
pub struct ExFmtError(core::fmt::Error);

/// The text that `bytes` encode as UTF-8 (`core::str::from_utf8`): `Ok`
/// exactly when they are valid UTF-8, with the characters they decode to.
#[verifier::external_body]
fn str_from_utf8<'a>(bytes: &'a [u8]) -> (r: Result<&'a str, core::str::Utf8Error>)
    ensures
        r is Ok <==> valid_utf8(bytes@),
        r matches Ok(s) ==> s@ == decode_utf8(bytes@),
{
    core::str::from_utf8(bytes)
}

/// The error value of `core::fmt`, which carries no information.
#[verifier::external_body]
fn fmt_error() -> core::fmt::Error {
    core::fmt::Error
}

/// A buffer of fixed length, `N` bytes, into which strings can be written.
pub struct StringBuffer<const N: usize> {
    bytes: Vec<u8>,
    text: Ghost<Seq<char>>,
}

impl<const N: usize> View for StringBuffer<N> {
    type V = Seq<char>;

    /// The text written so far.
    closed spec fn view(&self) -> Seq<char> {
        self.text@
    }
}

impl<const N: usize> StringBuffer<N> {
    /// The buffer holds the UTF-8 encoding of its text, within its capacity.
    #[verifier::type_invariant]
    closed spec fn inv(self) -> bool {
        &&& self.bytes@ == encode_utf8(self.text@)
        &&& self.bytes@.len() <= N
    }

    /// The number of bytes the text takes up in the buffer: the length of
    /// its UTF-8 encoding.
    pub open spec fn byte_len(&self) -> nat {
        encode_utf8(self@).len()
    }

    /// An empty buffer.
    pub fn new() -> (r: Self)
        ensures
            r@ == Seq::<char>::empty(),
    {
        proof {
            assert(encode_utf8(Seq::<char>::empty()) =~= Seq::<u8>::empty());
        }
        StringBuffer { bytes: Vec::new(), text: Ghost(Seq::empty()) }
    }

    /// The text written so far.
    pub fn to_str(&self) -> (r: Result<&str, core::str::Utf8Error>)
        ensures
            r matches Ok(s) && s@ == self@,
    {
        proof {
            use_type_invariant(self);
            encode_utf8_valid_utf8(self.text@);
            encode_utf8_decode_utf8(self.text@);
        }
        str_from_utf8(self.bytes.as_slice())
    }

    /// Appends `s`, if it fits in the remaining space; otherwise leaves the
    /// buffer unchanged and fails.
    pub fn write_str(&mut self, s: &str) -> (r: Result<(), core::fmt::Error>)
        ensures
            old(self).byte_len() + encode_utf8(s@).len() <= N ==> r is Ok && final(self)@ == old(
                self,
            )@ + s@,
            old(self).byte_len() + encode_utf8(s@).len() > N ==> r is Err && final(self)@ == old(
                self,
            )@,
    {
        proof {
            use_type_invariant(&*self);
        }
        let new_bytes = s.as_bytes();
        let n = new_bytes.len();
        assert(new_bytes@ == encode_utf8(s@));
        if n > N - self.bytes.len() {
            return Err(fmt_error());
        }
        let ghost old_text = self.text@;
        let mut bytes = self.bytes.clone();
        let mut i: usize = 0;
        while i < n
            invariant
                i <= n,
                n == new_bytes@.len(),
                bytes@ == encode_utf8(old_text) + new_bytes@.take(i as int),
            decreases n - i,
        {
            bytes.push(new_bytes[i]);
            assert(new_bytes@.take(i + 1) =~= new_bytes@.take(i as int).push(new_bytes@[i as int]));
            i += 1;
        }
        proof {
            assert(new_bytes@.take(n as int) =~= new_bytes@);
            lemma_encode_utf8_concat(old_text, s@);
        }
        *self = StringBuffer { bytes, text: Ghost(old_text + s@) };
        Ok(())
    }
}

impl<const N: usize> core::fmt::Write for StringBuffer<N> {
    /// Appends `s`, if it fits in the remaining space; otherwise leaves the
    /// buffer unchanged and fails.
    fn write_str(&mut self, s: &str) -> (r: core::fmt::Result)
        ensures
            old(self).byte_len() + encode_utf8(s@).len() <= N ==> r is Ok && final(self)@ == old(
                self,
            )@ + s@,
            old(self).byte_len() + encode_utf8(s@).len() > N ==> r is Err && final(self)@ == old(
                self,
            )@,
    {
        StringBuffer::write_str(self, s)
    }
}

} // verus!

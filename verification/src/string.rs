//! The foundational owned byte-buffer type.
//!
//! Buffers are length-prefixed and null-terminated, and are *not* required
//! to hold valid UTF-8: equality and hashing operate on raw bytes, never on
//! a text interpretation.

use vstd::prelude::*;

use crate::error::FromObjectError;

verus! {

/// An owned, length-tracked byte buffer.
///
/// Invariant: the backing allocation holds the content plus one trailing
/// terminator byte, so a buffer of length `n` is backed by `n + 1` bytes.
/// The view of a buffer is its content, *excluding* the terminator; the
/// content itself may contain embedded zero bytes and invalid UTF-8.
#[derive(Debug, Hash)]
pub struct NvimString {
    data: Vec<u8>,
}

impl View for NvimString {
    type V = Seq<u8>;

    closed spec fn view(&self) -> Seq<u8> {
        self.data@.drop_last()
    }
}

impl DeepView for NvimString {
    type V = Seq<u8>;

    open spec fn deep_view(&self) -> Seq<u8> {
        self.view()
    }
}

impl NvimString {
    /// The backing bytes always consist of the content followed by a single
    /// terminator byte.
    #[verifier::type_invariant]
    spec fn wf(&self) -> bool {
        self.data@.len() >= 1 && self.data@.last() == 0u8
    }

    /// Creates a buffer from a byte vector, appending the terminator.
    pub fn from_bytes(vec: Vec<u8>) -> (r: Self)
        ensures
            r@ == vec@,
    {
        let mut data = vec;
        data.push(0u8);
        let r = NvimString { data };
        proof {
            assert(r@ =~= vec@);
        }
        r
    }

    /// Returns the byte length of the buffer, *not* including the
    /// terminator.
    pub fn len(&self) -> (n: usize)
        ensures
            n == self@.len(),
    {
        proof {
            use_type_invariant(self);
        }
        self.data.len() - 1
    }

    /// Returns `true` if the buffer has a length of zero.
    pub fn is_empty(&self) -> (b: bool)
        ensures
            b == (self@.len() == 0),
    {
        self.len() == 0
    }

    /// Converts the buffer back into a byte vector, consuming it and
    /// dropping the terminator.
    pub fn into_bytes(self) -> (r: Vec<u8>)
        ensures
            r@ == self@,
    {
        proof {
            use_type_invariant(&self);
        }
        let NvimString { mut data } = self;
        data.pop();
        data
    }

    /// Returns a byte slice of the buffer's content, without the terminator.
    pub fn as_bytes(&self) -> (r: &[u8])
        ensures
            r@ == self@,
    {
        proof {
            use_type_invariant(self);
        }
        let r = vstd::slice::slice_subrange(self.data.as_slice(), 0, self.data.len() - 1);
        proof {
            assert(r@ =~= self@);
        }
        r
    }

    /// Lends the buffer to a foreign call as a non-owning view: the callee
    /// sees the same bytes but must not release or retain them.
    pub fn non_owning<'a>(&'a self) -> (r: crate::nonowning::NonOwning<'a, NvimString>)
        ensures
            r@ == self@,
    {
        crate::nonowning::NonOwning::new(self)
    }

    /// Creates a buffer holding the UTF-8 bytes of a string slice.
    pub fn from_str(s: &str) -> (r: Self)
        ensures
            r@ == vstd::utf8::encode_utf8(s@),
    {
        Self::from_bytes(vstd::slice::slice_to_vec(s.as_bytes()))
    }
}

impl NvimString {
    /// Creates a buffer holding the UTF-8 bytes of a string.
    pub fn from_string(s: String) -> (r: Self)
        ensures
            r@ == vstd::utf8::encode_utf8(s@),
    {
        Self::from_str(s.as_str())
    }

    /// Converts the buffer into text, consuming it. This is the strict
    /// path: content that is not valid UTF-8 fails with an explicit
    /// invalid-encoding error, never silently and never lossily. The lossy
    /// path is the separate [`NvimString::to_string_lossy`].
    pub fn into_string(self) -> (r: Result<String, FromObjectError>)
        ensures
            match r {
                Ok(s) => vstd::utf8::valid_utf8(self@) && s@ == vstd::utf8::decode_utf8(self@),
                Err(e) => !vstd::utf8::valid_utf8(self@) && (e matches FromObjectError::Secondary {
                    primitive: crate::object::ObjectType::kObjectTypeString,
                    ..
                }),
            },
    {
        match string_from_utf8(self.into_bytes()) {
            Some(s) => Ok(s),
            None => Err(FromObjectError::secondary(
                crate::object::ObjectType::kObjectTypeString,
                "String".to_owned(),
                "content is not valid UTF-8".to_owned(),
            )),
        }
    }
}

/// Relies on std's `String::from_utf8`: it succeeds exactly when the bytes
/// are valid UTF-8, and then returns those same bytes reinterpreted as
/// text.
#[verifier::external_body]
fn string_from_utf8(bytes: Vec<u8>) -> (r: Option<String>)
    ensures
        match r {
            Some(s) => vstd::utf8::valid_utf8(bytes@) && s@ == vstd::utf8::decode_utf8(bytes@),
            None => !vstd::utf8::valid_utf8(bytes@),
        },
{
    String::from_utf8(bytes).ok()
}

/// Relies on std's `str::from_utf8`: it succeeds exactly when the bytes are
/// valid UTF-8, and then returns those same bytes reinterpreted as text,
/// without copying.
#[verifier::external_body]
fn str_from_utf8(bytes: &[u8]) -> (r: Option<&str>)
    ensures
        match r {
            Some(s) => vstd::utf8::valid_utf8(bytes@) && s@ == vstd::utf8::decode_utf8(bytes@),
            None => !vstd::utf8::valid_utf8(bytes@),
        },
{
    std::str::from_utf8(bytes).ok()
}

impl NvimString {
    /// Borrows the buffer's content as text: `None` if the content is not
    /// valid UTF-8.
    pub fn as_str(&self) -> (r: Option<&str>)
        ensures
            match r {
                Some(s) => vstd::utf8::valid_utf8(self@) && s@ == vstd::utf8::decode_utf8(self@),
                None => !vstd::utf8::valid_utf8(self@),
            },
    {
        str_from_utf8(self.as_bytes())
    }
}

impl NvimString {
    /// Converts the buffer's content into text without consuming it. This
    /// is the lossy path: valid UTF-8 comes through unchanged, and every
    /// invalid sequence is substituted with the replacement character
    /// instead of failing.
    ///
    /// Relies on std's `String::from_utf8_lossy`, which returns valid
    /// UTF-8 content unchanged.
    #[verifier::external_body]
    pub fn to_string_lossy(&self) -> (r: String)
        ensures
            vstd::utf8::valid_utf8(self@) ==> r@ == vstd::utf8::decode_utf8(self@),
    {
        String::from_utf8_lossy(self.as_bytes()).into_owned()
    }
}

/// Byte-buffer round trip: a buffer built from any byte vector — embedded
/// zeros and invalid UTF-8 included — converts back into exactly that
/// vector. [`NvimString::from_bytes`] pins the new buffer's content to the
/// input and [`NvimString::into_bytes`] pins its result to the content, so
/// the two calls compose to the identity on the bytes.
pub proof fn lemma_byte_buffer_roundtrip(bytes: Vec<u8>, buffer: NvimString, back: Vec<u8>)
    requires
        buffer@ == bytes@,
        back@ == buffer@,
    ensures
        back@ == bytes@,
{
}

/// Compares two byte slices for raw-byte equality.
fn bytes_eq(a: &[u8], b: &[u8]) -> (r: bool)
    ensures
        r == (a@ == b@),
{
    if a.len() != b.len() {
        proof {
            assert(a@ != b@);
        }
        return false;
    }
    let n = a.len();
    let mut i: usize = 0;
    while i < n
        invariant
            n == a@.len() == b@.len(),
            0 <= i <= n,
            forall|j: int| 0 <= j < i ==> a@[j] == b@[j],
        decreases n - i,
    {
        if *vstd::slice::slice_index_get(a, i) != *vstd::slice::slice_index_get(b, i) {
            return false;
        }
        i += 1;
    }
    proof {
        assert(a@ =~= b@);
    }
    true
}

impl Clone for NvimString {
    /// Cloning copies the content bytes into a fresh buffer.
    fn clone(&self) -> (r: Self)
        ensures
            r@ == self@,
    {
        proof {
            use_type_invariant(self);
        }
        let data = self.data.clone();
        proof {
            assert(data@ =~= self.data@);
        }
        NvimString { data }
    }
}

impl Default for NvimString {
    /// The default buffer is empty.
    fn default() -> (r: Self)
        ensures
            r@ == Seq::<u8>::empty(),
    {
        let r = NvimString::from_bytes(Vec::new());
        proof {
            assert(r@ =~= Seq::<u8>::empty());
        }
        r
    }
}

impl PartialEq for NvimString {
    /// Equality is raw-byte equality of the contents, never a text
    /// interpretation.
    fn eq(&self, other: &Self) -> (r: bool)
    {
        bytes_eq(self.as_bytes(), other.as_bytes())
    }
}

impl vstd::std_specs::cmp::PartialEqSpecImpl for NvimString {
    open spec fn obeys_eq_spec() -> bool {
        true
    }

    open spec fn eq_spec(&self, other: &NvimString) -> bool {
        self@ == other@
    }
}

impl PartialEq<str> for NvimString {
    /// Compares the buffer's content with the UTF-8 bytes of a string slice.
    fn eq(&self, other: &str) -> (r: bool)
    {
        bytes_eq(self.as_bytes(), other.as_bytes())
    }
}

impl vstd::std_specs::cmp::PartialEqSpecImpl<str> for NvimString {
    open spec fn obeys_eq_spec() -> bool {
        true
    }

    open spec fn eq_spec(&self, other: &str) -> bool {
        self@ == vstd::utf8::encode_utf8(other@)
    }
}

impl PartialEq<&str> for NvimString {
    /// Compares the buffer's content with the UTF-8 bytes of a string slice.
    fn eq(&self, other: &&str) -> (r: bool)
    {
        bytes_eq(self.as_bytes(), other.as_bytes())
    }
}

impl vstd::std_specs::cmp::PartialEqSpecImpl<&str> for NvimString {
    open spec fn obeys_eq_spec() -> bool {
        true
    }

    open spec fn eq_spec(&self, other: &&str) -> bool {
        self@ == vstd::utf8::encode_utf8(other@)
    }
}

} // verus!

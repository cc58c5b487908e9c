//! Host-native representation of a token stream.
//!
//! A token stream is a span of source code wrapped for transformation.  Its
//! wire counterpart is a flat, nul-terminated text buffer, so a stream can
//! cross the boundary only when its text contains no nul byte.

use vstd::prelude::*;
use vstd::utf8::encode_utf8;

verus! {

/// Text can be carried in a nul-terminated wire buffer exactly when none of
/// its UTF-8 bytes is zero.
pub open spec fn nul_free(text: Seq<char>) -> bool {
    forall|i: int| 0 <= i < encode_utf8(text).len() ==> encode_utf8(text)[i] != 0u8
}

/// A span of source code handed to a plugin for transformation.
pub struct TokenText {
    text: String,
}

impl View for TokenText {
    type V = Seq<char>;

    closed spec fn view(&self) -> Seq<char> {
        self.text@
    }
}

impl TokenText {
    /// The text can be carried in a nul-terminated wire buffer: none of its
    /// UTF-8 bytes is zero.
    pub open spec fn wire_safe(&self) -> bool {
        nul_free(self@)
    }

    /// Wrap source text as a token stream.
    pub fn new(text: String) -> (r: TokenText)
        ensures
            r@ == text@,
    {
        TokenText { text }
    }

    /// The empty token stream.
    pub fn empty() -> (r: TokenText)
        ensures
            r@ == Seq::<char>::empty(),
    {
        TokenText { text: String::new() }
    }

    /// Read the wrapped source text.
    pub fn as_str(&self) -> (r: &str)
        ensures
            r@ == self@,
    {
        self.text.as_str()
    }

    /// Whether the stream holds no text.
    pub fn is_empty(&self) -> (r: bool)
        ensures
            r == (self@.len() == 0),
    {
        self.text.as_str().is_empty()
    }

    /// Decide whether this stream may cross the wire: true exactly when no
    /// UTF-8 byte of the text is zero.
    pub fn is_wire_safe(&self) -> (r: bool)
        ensures
            r == self.wire_safe(),
    {
        let bytes: &[u8] = self.text.as_str().as_bytes();
        let mut i: usize = 0;
        while i < bytes.len()
            invariant
                0 <= i <= bytes@.len(),
                bytes@ == encode_utf8(self@),
                forall|j: int| 0 <= j < i ==> bytes@[j] != 0u8,
            decreases bytes@.len() - i,
        {
            if bytes[i] == 0 {
                return false;
            }
            i = i + 1;
        }
        true
    }
}

} // verus!

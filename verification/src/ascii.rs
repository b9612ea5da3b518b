//! Bounded text decoding: converts fixed-capacity, null-padded wide-character
//! buffers into validated, bounded ASCII identifiers.
//!
//! A buffer holds its text in the code units before the first null; the units
//! from the first null onward are padding and must all be null. Decoding
//! fails if the text exceeds the requested capacity, if a code unit lies
//! outside the ASCII range, or if a non-null unit follows a null one.

use vstd::prelude::*;

use crate::ParseError;

verus! {

/// The index of the first null code unit at or after `i`, or the buffer
/// length if none exists. The units before it are the buffer's content.
pub open spec fn content_len_from(s: Seq<u16>, i: int) -> int
    decreases s.len() - i,
{
    if i < 0 || i >= s.len() {
        s.len() as int
    } else if s[i] == 0 {
        i
    } else {
        content_len_from(s, i + 1)
    }
}

/// The length of the buffer's content: the index of its first null unit,
/// or the whole length if it has none.
pub open spec fn content_len(s: Seq<u16>) -> int {
    content_len_from(s, 0)
}

/// Whether the unit at `i` makes the scan fail: it lies outside the ASCII
/// range, or it is non-null text standing after the padding began.
pub open spec fn unit_bad(s: Seq<u16>, i: int) -> bool {
    s[i] >= 0x80 || (s[i] != 0 && content_len(s) < i)
}

/// The index of the first failing unit at or after `i`, or the buffer
/// length if the whole buffer scans cleanly.
pub open spec fn first_bad_from(s: Seq<u16>, i: int) -> int
    decreases s.len() - i,
{
    if i < 0 || i >= s.len() {
        s.len() as int
    } else if unit_bad(s, i) {
        i
    } else {
        first_bad_from(s, i + 1)
    }
}

/// A buffer decodes successfully exactly when its content is ASCII and
/// everything after the first null is null padding.
pub open spec fn buffer_clean(s: Seq<u16>) -> bool {
    &&& forall|i: int| 0 <= i < content_len(s) ==> s[i] < 0x80
    &&& forall|i: int| content_len(s) <= i < s.len() ==> s[i] == 0
}

/// The error a failing buffer reports: the first failing unit decides, and
/// an out-of-range unit reports `NonAscii` even when it stands after a null.
pub open spec fn decode_error(s: Seq<u16>) -> ParseError {
    if s[first_bad_from(s, 0)] >= 0x80 {
        ParseError::NonAscii
    } else {
        ParseError::ContainsNull
    }
}

/// The characters a clean buffer decodes to: its content, byte for byte.
pub open spec fn decoded_chars(s: Seq<u16>) -> Seq<char> {
    Seq::new(content_len(s) as nat, |i: int| (s[i] as u8) as char)
}

proof fn lemma_content_len_from(s: Seq<u16>, i: int)
    requires
        0 <= i <= s.len(),
    ensures
        i <= content_len_from(s, i) <= s.len(),
        forall|j: int| i <= j < content_len_from(s, i) ==> s[j] != 0,
        content_len_from(s, i) < s.len() ==> s[content_len_from(s, i)] == 0,
    decreases s.len() - i,
{
    if i < s.len() && s[i] != 0 {
        lemma_content_len_from(s, i + 1);
    }
}

/// The content of a buffer sits before its first null: every content unit is
/// non-null, and the unit that ends the content, if any, is null.
pub proof fn lemma_content_len(s: Seq<u16>)
    ensures
        0 <= content_len(s) <= s.len(),
        forall|j: int| 0 <= j < content_len(s) ==> s[j] != 0,
        content_len(s) < s.len() ==> s[content_len(s)] == 0,
{
    lemma_content_len_from(s, 0);
}

proof fn lemma_first_bad_advance(s: Seq<u16>, k: int, i: int)
    requires
        0 <= k <= i <= s.len(),
        forall|j: int| k <= j < i ==> !unit_bad(s, j),
    ensures
        first_bad_from(s, k) == first_bad_from(s, i),
    decreases i - k,
{
    if k < i {
        lemma_first_bad_advance(s, k + 1, i);
    }
}

proof fn lemma_bad_implies_not_clean(s: Seq<u16>, i: int)
    requires
        0 <= i < s.len(),
        unit_bad(s, i),
    ensures
        !buffer_clean(s),
{
    lemma_content_len(s);
    if content_len(s) < i {
        // A bad unit after the content is non-null padding.
        assert(s[i] != 0);
    } else {
        // A bad unit inside the content is out of the ASCII range.
        assert(s[i] >= 0x80);
        assert(i < content_len(s));
    }
}

/// Law: a buffer filled to its whole length with non-null ASCII code units
/// — exactly its capacity of text, with no padding at all — always decodes
/// successfully, to one character per unit.
pub proof fn lemma_full_ascii_buffer_decodes(s: Seq<u16>)
    requires
        forall|i: int| 0 <= i < s.len() ==> 0 < #[trigger] s[i] < 0x80,
    ensures
        buffer_clean(s),
        content_len(s) == s.len(),
        decoded_chars(s).len() == s.len(),
{
    lemma_content_len(s);
    if content_len(s) < s.len() {
        assert(s[content_len(s)] == 0);
    }
}

/// Relies on `String::from_utf8`: bytes forming valid UTF-8 become the string
/// of exactly those bytes, and each ASCII byte is a one-byte sequence that
/// decodes to the character with the same code point.
#[verifier::external_body]
fn ascii_bytes_to_string(bytes: Vec<u8>) -> (r: String)
    requires
        forall|i: int| 0 <= i < bytes@.len() ==> bytes@[i] < 128,
    ensures
        r@.len() == bytes@.len(),
        forall|i: int| 0 <= i < bytes@.len() ==> r@[i] == bytes@[i] as char,
{
    String::from_utf8(bytes).unwrap_or_default()
}

/// Decodes a null-padded wide-character buffer into owned ASCII text of at
/// most `cap` characters. The buffer's length may exceed `cap`, in which
/// case decoding fails before the buffer is examined; no truncation is ever
/// applied.
pub fn decode_utf16(raw: &[u16], cap: usize) -> (r: Result<String, ParseError>)
    ensures
        raw@.len() > cap ==> r == Err::<String, ParseError>(ParseError::TooLong),
        raw@.len() <= cap && buffer_clean(raw@) ==> (r matches Ok(s) && s@ == decoded_chars(raw@)),
        raw@.len() <= cap && !buffer_clean(raw@) ==> r == Err::<String, ParseError>(
            decode_error(raw@),
        ),
{
    if raw.len() > cap {
        return Err(ParseError::TooLong);
    }
    proof {
        lemma_content_len(raw@);
    }
    let ghost n = content_len(raw@);
    let mut out: Vec<u8> = Vec::new();
    let mut found_null = false;
    let mut i: usize = 0;
    while i < raw.len()
        invariant
            raw@.len() <= cap,
            0 <= i <= raw@.len(),
            n == content_len(raw@),
            0 <= n <= raw@.len(),
            forall|j: int| 0 <= j < n ==> raw@[j] != 0,
            n < raw@.len() ==> raw@[n] == 0,
            forall|j: int| 0 <= j < i ==> !unit_bad(raw@, j),
            found_null == (n < i),
            out@.len() == if n < i { n } else { i as int },
            forall|j: int| 0 <= j < out@.len() ==> out@[j] == raw@[j] as u8,
            forall|j: int| 0 <= j < out@.len() ==> out@[j] < 128,
        decreases raw@.len() - i,
    {
        let b = raw[i];
        if b == 0 {
            found_null = true;
        } else if b >= 0x80 {
            proof {
                lemma_first_bad_advance(raw@, 0, i as int);
                lemma_bad_implies_not_clean(raw@, i as int);
            }
            return Err(ParseError::NonAscii);
        } else if found_null {
            proof {
                lemma_first_bad_advance(raw@, 0, i as int);
                lemma_bad_implies_not_clean(raw@, i as int);
            }
            return Err(ParseError::ContainsNull);
        } else {
            out.push(b as u8);
        }
        i += 1;
    }
    proof {
        assert forall|j: int| 0 <= j < raw@.len() implies (j < n ==> raw@[j] < 0x80) && (n <= j
            ==> raw@[j] == 0) by {
            assert(!unit_bad(raw@, j));
            if n <= j && j < raw@.len() && raw@[j] != 0 {
                assert(n < j);
            }
        }
        assert(buffer_clean(raw@));
    }
    let s = ascii_bytes_to_string(out);
    proof {
        assert(s@ =~= decoded_chars(raw@));
    }
    Ok(s)
}

/// A bounded ASCII identifier of capacity `N`: owned text of at most `N`
/// non-null ASCII characters, copied out of a native fixed-width buffer.
#[derive(Debug)]
pub struct BoundedAscii<const N: usize> {
    text: String,
}

impl<const N: usize> View for BoundedAscii<N> {
    type V = Seq<char>;

    closed spec fn view(&self) -> Seq<char> {
        self.text@
    }
}

impl<const N: usize> BoundedAscii<N> {
    /// The identifier's invariant: within capacity, and every character a
    /// non-null ASCII one.
    pub open spec fn wf(&self) -> bool {
        &&& self@.len() <= N
        &&& forall|i: int|
            0 <= i < self@.len() ==> ((#[trigger] self@[i]) as u32 != 0 && (self@[i] as u32) < 128)
    }

    /// Decodes a fixed-capacity, null-padded native buffer of exactly `N`
    /// wide code units. Whatever follows the first null unit must be null
    /// padding, and every content unit must be ASCII.
    pub fn try_from_raw_u16(raw: &[u16; N]) -> (r: Result<Self, ParseError>)
        ensures
            buffer_clean(raw@) ==> (r matches Ok(b) && b@ == decoded_chars(raw@) && b.wf()),
            !buffer_clean(raw@) ==> r == Err::<Self, ParseError>(decode_error(raw@)),
    {
        let slice: &[u16] = raw.as_slice();
        match decode_utf16(slice, N) {
            Ok(text) => {
                let b = BoundedAscii { text };
                proof {
                    lemma_content_len(raw@);
                    assert forall|i: int| 0 <= i < b@.len() implies ((#[trigger] b@[i]) as u32 != 0
                        && (b@[i] as u32) < 128) by {
                        assert(b@[i] == (raw@[i] as u8) as char);
                        assert(raw@[i] != 0 && raw@[i] < 0x80);
                    }
                }
                Ok(b)
            },
            Err(e) => Err(e),
        }
    }

    /// The decoded text, as a borrowed string slice.
    pub fn as_str(&self) -> (r: &str)
        ensures
            r@ == self@,
    {
        self.text.as_str()
    }
}

} // verus!

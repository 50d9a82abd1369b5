//! NUL-padded fixed-width text fields.
//!
//! Every textual field of the wire format is ASCII text terminated by a zero
//! byte and right-padded with further zero bytes to the field's fixed width.
//! Encoding rejects text whose length leaves no room for the terminating NUL;
//! decoding takes the bytes before the first NUL (treating a field with no
//! NUL at all as holding empty text) and rejects bytes that are not ASCII.
use crate::error::Error;
use vstd::prelude::*;
use vstd::string::StrSliceExecFns;

verus! {

/// Well-formed field text: ASCII with no embedded NUL, so that it survives a
/// trip through a NUL-padded field unchanged.
pub open spec fn wf_token(s: Seq<char>) -> bool {
    forall|i: int| 0 <= i < s.len() ==> '\0' < #[trigger] s[i] <= '\u{7f}'
}

/// The bytes of ASCII text.
pub open spec fn ascii_bytes(s: Seq<char>) -> Seq<u8> {
    s.map_values(|c: char| c as u8)
}

/// The text carried by ASCII bytes.
pub open spec fn ascii_chars(b: Seq<u8>) -> Seq<char> {
    b.map_values(|x: u8| x as char)
}

/// Text laid out in a NUL-padded field of the given width.
pub open spec fn spec_nul_padded(s: Seq<char>, width: int) -> Seq<u8> {
    ascii_bytes(s) + Seq::new((width - s.len()) as nat, |i: int| 0u8)
}

/// Whether some byte of the field is NUL.
pub open spec fn has_nul(b: Seq<u8>) -> bool {
    exists|i: int| 0 <= i < b.len() && b[i] == 0
}

/// The index of the first NUL byte, or the field's length if it has none.
pub open spec fn first_nul_index(b: Seq<u8>) -> int
    decreases b.len(),
{
    if b.len() == 0 {
        0
    } else if b[0] == 0 {
        0
    } else {
        1 + first_nul_index(b.drop_first())
    }
}

/// The token bytes of a field: everything before the first NUL, or nothing
/// when no NUL terminates the field (the defensive fallback: such a field is
/// read as empty text rather than rejected).
pub open spec fn spec_token_of(b: Seq<u8>) -> Seq<u8> {
    if has_nul(b) {
        b.subrange(0, first_nul_index(b))
    } else {
        Seq::empty()
    }
}

/// Whether the token bytes of a field are ASCII, i.e. decodable as text.
pub open spec fn spec_token_ok(b: Seq<u8>) -> bool {
    forall|i: int| 0 <= i < spec_token_of(b).len() ==> #[trigger] spec_token_of(b)[i] < 128
}

/// The text read from a NUL-padded field.
pub open spec fn spec_token_text(b: Seq<u8>) -> Seq<char> {
    ascii_chars(spec_token_of(b))
}

proof fn lemma_first_nul_index_bounds(b: Seq<u8>)
    ensures
        0 <= first_nul_index(b) <= b.len(),
        forall|i: int| 0 <= i < first_nul_index(b) ==> b[i] != 0,
        has_nul(b) ==> first_nul_index(b) < b.len() && b[first_nul_index(b)] == 0,
    decreases b.len(),
{
    if b.len() == 0 {
    } else if b[0] == 0 {
    } else {
        lemma_first_nul_index_bounds(b.drop_first());
        assert forall|i: int| 0 <= i < first_nul_index(b) implies b[i] != 0 by {
            if i > 0 {
                assert(b.drop_first()[i - 1] != 0);
            }
        }
        if has_nul(b) {
            let i = choose|i: int| 0 <= i < b.len() && b[i] == 0;
            assert(b.drop_first()[i - 1] == 0);
        }
    }
}

/// Builds the token text of ASCII bytes back into a `String`.
///
/// Relies on `String::from_utf8`: bytes below 128 are valid UTF-8 and decode
/// one byte to one character with the same value.
#[verifier::external_body]
fn string_from_ascii_bytes(bytes: Vec<u8>) -> (r: String)
    requires
        forall|i: int| 0 <= i < bytes@.len() ==> bytes@[i] < 128,
    ensures
        r@ == ascii_chars(bytes@),
{
    String::from_utf8(bytes).unwrap_or_default()
}

/// Lays text out in a NUL-padded field of width `length`, or reports
/// `FieldTooLong` exactly when the text leaves no room for the terminating
/// NUL.
pub fn to_bytes_nul_padded(string: &str, length: usize) -> (r: Result<Vec<u8>, Error>)
    requires
        wf_token(string@),
    ensures
        match r {
            Ok(v) => string@.len() < length && v@ == spec_nul_padded(string@, length as int),
            Err(e) => e == Error::FieldTooLong && string@.len() >= length,
        },
{
    assert(vstd::string::is_ascii(string));
    let n = string.unicode_len();
    if n >= length {
        return Err(Error::FieldTooLong);
    }
    let mut v: Vec<u8> = Vec::new();
    let mut i: usize = 0;
    while i < n
        invariant
            wf_token(string@),
            vstd::string::is_ascii(string),
            i <= n,
            n == string@.len(),
            v@ == ascii_bytes(string@).subrange(0, i as int),
        decreases n - i,
    {
        v.push(string.get_ascii(i));
        i = i + 1;
        assert(v@ =~= ascii_bytes(string@).subrange(0, i as int));
    }
    assert(v@ =~= ascii_bytes(string@));
    while i < length
        invariant
            n <= i <= length,
            n == string@.len(),
            v@.len() == i,
            v@ =~= spec_nul_padded(string@, i as int),
        decreases length - i,
    {
        v.push(0u8);
        i = i + 1;
        assert(v@ =~= spec_nul_padded(string@, i as int));
    }
    Ok(v)
}

/// Reads the text of a NUL-padded field, or reports `InvalidText` exactly
/// when the bytes before the first NUL are not ASCII.
pub fn from_bytes_nul_padded(bytes: &[u8]) -> (r: Result<String, Error>)
    ensures
        match r {
            Ok(s) => spec_token_ok(bytes@) && s@ == spec_token_text(bytes@),
            Err(e) => e == Error::InvalidText && !spec_token_ok(bytes@),
        },
{
    proof {
        lemma_first_nul_index_bounds(bytes@);
    }
    let n = bytes.len();
    let mut end: usize = 0;
    while end < n && bytes[end] != 0
        invariant
            n == bytes@.len(),
            0 <= end <= n,
            forall|j: int| 0 <= j < end ==> bytes@[j] != 0,
        decreases n - end,
    {
        end = end + 1;
    }
    let found = end < n;
    if !found {
        // No NUL in the whole field: read it as empty text.
        assert(!has_nul(bytes@));
        assert(spec_token_of(bytes@) =~= Seq::<u8>::empty());
        let empty: Vec<u8> = Vec::new();
        return Ok(string_from_ascii_bytes(empty));
    }
    assert(has_nul(bytes@));
    assert(first_nul_index(bytes@) == end) by {
        lemma_first_nul_index_bounds(bytes@);
        if first_nul_index(bytes@) < end {
            assert(bytes@[first_nul_index(bytes@)] != 0);
        }
        if end < first_nul_index(bytes@) {
            assert(bytes@[end as int] == 0);
        }
    }
    assert(spec_token_of(bytes@) =~= bytes@.subrange(0, end as int));
    let mut token: Vec<u8> = Vec::new();
    let mut i: usize = 0;
    while i < end
        invariant
            end <= bytes@.len(),
            0 <= i <= end,
            spec_token_of(bytes@) =~= bytes@.subrange(0, end as int),
            token@ == bytes@.subrange(0, i as int),
            forall|j: int| 0 <= j < i ==> bytes@[j] < 128,
        decreases end - i,
    {
        if bytes[i] >= 128 {
            assert(spec_token_of(bytes@)[i as int] >= 128);
            return Err(Error::InvalidText);
        }
        token.push(bytes[i]);
        i = i + 1;
        assert(token@ =~= bytes@.subrange(0, i as int));
    }
    assert(token@ =~= spec_token_of(bytes@));
    assert(spec_token_ok(bytes@));
    Ok(string_from_ascii_bytes(token))
}

/// Text read from a NUL-padded field is itself well formed, and leaves room
/// for the terminating NUL of its own field.
pub proof fn lemma_token_text_wf(b: Seq<u8>)
    requires
        spec_token_ok(b),
    ensures
        wf_token(spec_token_text(b)),
        b.len() > 0 ==> spec_token_text(b).len() < b.len(),
        b.len() == 0 ==> spec_token_text(b).len() == 0,
{
    lemma_first_nul_index_bounds(b);
    let tok = spec_token_of(b);
    assert forall|i: int| 0 <= i < tok.len() implies ('\0' < #[trigger] spec_token_text(b)[i]
        <= '\u{7f}') by {
        assert(tok[i] < 128);
        if has_nul(b) {
            assert(tok[i] == b[i]);
            assert(b[i] != 0);
        }
    }
}

/// Field text that fits its width comes back from a NUL-padded field exactly
/// as it went in.
pub proof fn lemma_nul_padded_round_trip(s: Seq<char>, width: int)
    requires
        wf_token(s),
        s.len() < width,
    ensures
        spec_token_ok(spec_nul_padded(s, width)),
        spec_token_text(spec_nul_padded(s, width)) == s,
{
    let b = spec_nul_padded(s, width);
    assert(forall|i: int| 0 <= i < s.len() ==> b[i] == #[trigger] s[i] as u8);
    assert(b[s.len() as int] == 0);
    assert(has_nul(b));
    lemma_first_nul_index_bounds(b);
    assert(forall|i: int| 0 <= i < s.len() ==> b[i] != 0) by {
        assert(forall|i: int| 0 <= i < s.len() ==> '\0' < #[trigger] s[i] <= '\u{7f}');
    }
    assert(first_nul_index(b) == s.len()) by {
        if first_nul_index(b) < s.len() {
            assert(b[first_nul_index(b)] != 0);
        }
    }
    assert(spec_token_of(b) =~= ascii_bytes(s));
    assert(spec_token_text(b) =~= s) by {
        assert(forall|i: int| 0 <= i < s.len() ==> ascii_chars(ascii_bytes(s))[i] == #[trigger] s[i]);
    }
}

} // verus!

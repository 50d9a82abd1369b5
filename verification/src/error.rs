//! Error kinds surfaced by the codec, the session machine and the driver.
use vstd::prelude::*;

verus! {

/// Everything that can go wrong in the protocol core.
///
/// `FieldTooLong` is the only encoding failure: a textual header field whose
/// byte length is at least its fixed field width (the terminating NUL must
/// always fit). The decoding failures are a buffer shorter than the structure
/// being decoded, a header token that is not valid ASCII text, and a response
/// whose argument kind has no implemented decoder. `Transport` stands for an
/// I/O failure reported by the unverified shell that owns the sockets.
#[derive(Clone, Copy, Debug, PartialEq, Eq, Structural)]
pub enum Error {
    FieldTooLong,
    BufferTooShort,
    InvalidText,
    UnimplementedResponse,
    Transport,
}

} // verus!

//! The 32-byte record header that opens every wire frame.
//!
//! Layout: device name (8 bytes), command token (8 bytes), argument token
//! (16 bytes), each an ASCII token NUL-padded to its field width.
use crate::error::Error;
use crate::text::{
    lemma_nul_padded_round_trip, lemma_token_text_wf, spec_nul_padded, spec_token_ok,
    spec_token_text, wf_token,
};
use crate::text::{from_bytes_nul_padded, to_bytes_nul_padded};
use crate::wire::{push_array, read_array, to_array};
use vstd::prelude::*;
use vstd::string::StrSliceExecFns;

verus! {

pub const DEVICE_NAME_WIDTH: usize = 8;

pub const COMMAND_WIDTH: usize = 8;

pub const ARGUMENT_WIDTH: usize = 16;

pub const HEADER_SIZE: usize = 32;

/// The command carried by a frame.
#[derive(Clone, Copy, Debug, PartialEq, Eq, Structural)]
pub enum CommandType {
    Unknown,
    Read,
    Search,
    Write,
}

impl CommandType {
    /// The wire token of each command. `Unknown` has no token of its own and
    /// serialises as "UNKNOWN", which no token maps back to a known command.
    pub open spec fn spec_token(self) -> Seq<char> {
        match self {
            CommandType::Unknown => "UNKNOWN"@,
            CommandType::Read => "READ"@,
            CommandType::Search => "SEARCH"@,
            CommandType::Write => "WRITE"@,
        }
    }

    /// The command a wire token decodes to: unrecognized or empty tokens give
    /// `Unknown`.
    pub open spec fn spec_of_token(s: Seq<char>) -> CommandType {
        if s == "READ"@ {
            CommandType::Read
        } else if s == "SEARCH"@ {
            CommandType::Search
        } else if s == "WRITE"@ {
            CommandType::Write
        } else {
            CommandType::Unknown
        }
    }

    pub fn from_str(command: &str) -> (r: CommandType)
        ensures
            r == CommandType::spec_of_token(command@),
    {
        if str_eq(command, "READ") {
            CommandType::Read
        } else if str_eq(command, "SEARCH") {
            CommandType::Search
        } else if str_eq(command, "WRITE") {
            CommandType::Write
        } else {
            CommandType::Unknown
        }
    }

    pub fn to_string(&self) -> (r: &str)
        ensures
            r@ == self.spec_token(),
    {
        match *self {
            CommandType::Unknown => "UNKNOWN",
            CommandType::Read => "READ",
            CommandType::Search => "SEARCH",
            CommandType::Write => "WRITE",
        }
    }
}

/// The argument carried by a frame.
#[derive(Clone, Copy, Debug, PartialEq, Eq, Structural)]
pub enum ArgumentType {
    Unknown,
    NoArgument,
    Query,
    Search,
    NowRecord,
    HistoryData,
}

impl ArgumentType {
    /// The wire token of each argument. `NoArgument` serialises as an empty
    /// (all NUL) field, not as a named token.
    pub open spec fn spec_token(self) -> Seq<char> {
        match self {
            ArgumentType::Unknown => "UNKNOWN"@,
            ArgumentType::NoArgument => ""@,
            ArgumentType::Query => "QUERY"@,
            ArgumentType::Search => "SEARCH"@,
            ArgumentType::NowRecord => "NOWRECORD"@,
            ArgumentType::HistoryData => "HISTORY_DATA"@,
        }
    }

    /// The argument a wire token decodes to: the empty token is `NoArgument`,
    /// and unrecognized tokens give `Unknown`.
    pub open spec fn spec_of_token(s: Seq<char>) -> ArgumentType {
        if s == ""@ {
            ArgumentType::NoArgument
        } else if s == "QUERY"@ {
            ArgumentType::Query
        } else if s == "SEARCH"@ {
            ArgumentType::Search
        } else if s == "NOWRECORD"@ {
            ArgumentType::NowRecord
        } else if s == "HISTORY_DATA"@ {
            ArgumentType::HistoryData
        } else {
            ArgumentType::Unknown
        }
    }

    pub fn from_str(argument: &str) -> (r: ArgumentType)
        ensures
            r == ArgumentType::spec_of_token(argument@),
    {
        if str_eq(argument, "") {
            ArgumentType::NoArgument
        } else if str_eq(argument, "QUERY") {
            ArgumentType::Query
        } else if str_eq(argument, "SEARCH") {
            ArgumentType::Search
        } else if str_eq(argument, "NOWRECORD") {
            ArgumentType::NowRecord
        } else if str_eq(argument, "HISTORY_DATA") {
            ArgumentType::HistoryData
        } else {
            ArgumentType::Unknown
        }
    }

    pub fn to_string(&self) -> (r: &str)
        ensures
            r@ == self.spec_token(),
    {
        match *self {
            ArgumentType::Unknown => "UNKNOWN",
            ArgumentType::NoArgument => "",
            ArgumentType::Query => "QUERY",
            ArgumentType::Search => "SEARCH",
            ArgumentType::NowRecord => "NOWRECORD",
            ArgumentType::HistoryData => "HISTORY_DATA",
        }
    }
}

/// Equality of two strings, decided character by character.
fn str_eq(s: &str, t: &str) -> (r: bool)
    ensures
        r == (s@ == t@),
{
    let n = s.unicode_len();
    if n != t.unicode_len() {
        return false;
    }
    let mut i: usize = 0;
    while i < n
        invariant
            n == s@.len(),
            n == t@.len(),
            0 <= i <= n,
            forall|j: int| 0 <= j < i ==> s@[j] == t@[j],
        decreases n - i,
    {
        if s.get_char(i) != t.get_char(i) {
            return false;
        }
        i = i + 1;
    }
    assert(s@ =~= t@);
    true
}

/// The typed form of the 32-byte header that opens every frame.
#[derive(Clone, Debug, PartialEq)]
pub struct RecordHeader {
    pub device_name: String,
    pub command: CommandType,
    pub argument: ArgumentType,
}

/// The raw form of the header: three fixed-width NUL-padded byte fields, laid
/// out exactly as they stand on the wire.
#[derive(Clone, Debug, PartialEq, Eq)]
pub struct CRecordHeader {
    pub device_name: [u8; 8],
    pub command: [u8; 8],
    pub argument: [u8; 16],
}

/// The bytes a well-formed header encodes to.
pub open spec fn spec_encode_header(h: RecordHeader) -> Seq<u8> {
    spec_nul_padded(h.device_name@, DEVICE_NAME_WIDTH as int) + spec_nul_padded(
        h.command.spec_token(),
        COMMAND_WIDTH as int,
    ) + spec_nul_padded(h.argument.spec_token(), ARGUMENT_WIDTH as int)
}

/// Whether all three tokens of a 32-byte header are decodable text.
pub open spec fn spec_header_text_ok(b: Seq<u8>) -> bool {
    &&& spec_token_ok(b.subrange(0, 8))
    &&& spec_token_ok(b.subrange(8, 16))
    &&& spec_token_ok(b.subrange(16, 32))
}

/// The device name read from a 32-byte header.
pub open spec fn spec_decode_device(b: Seq<u8>) -> Seq<char> {
    spec_token_text(b.subrange(0, 8))
}

/// The command read from a 32-byte header.
pub open spec fn spec_decode_command(b: Seq<u8>) -> CommandType {
    CommandType::spec_of_token(spec_token_text(b.subrange(8, 16)))
}

/// The argument read from a 32-byte header.
pub open spec fn spec_decode_argument(b: Seq<u8>) -> ArgumentType {
    ArgumentType::spec_of_token(spec_token_text(b.subrange(16, 32)))
}

/// What a 32-byte header with decodable text decodes to.
pub open spec fn spec_decoded_header(b: Seq<u8>, h: RecordHeader) -> bool {
    &&& h.device_name@ == spec_decode_device(b)
    &&& h.command == spec_decode_command(b)
    &&& h.argument == spec_decode_argument(b)
}

impl CRecordHeader {
    /// The 32 bytes of this header as they stand on the wire.
    pub open spec fn spec_bytes(self) -> Seq<u8> {
        self.device_name@ + self.command@ + self.argument@
    }

    /// Reads the raw header off the front of a buffer; fails (rather than
    /// reading out of bounds) on a buffer shorter than the 32-byte header.
    pub fn from_bytes(bytes: &[u8]) -> (r: Result<CRecordHeader, Error>)
        ensures
            match r {
                Ok(c) => bytes@.len() >= HEADER_SIZE && c.spec_bytes() == bytes@.subrange(0, 32),
                Err(e) => e == Error::BufferTooShort && bytes@.len() < HEADER_SIZE,
            },
    {
        if bytes.len() < HEADER_SIZE {
            return Err(Error::BufferTooShort);
        }
        let c = CRecordHeader {
            device_name: read_array::<8>(bytes, 0),
            command: read_array::<8>(bytes, 8),
            argument: read_array::<16>(bytes, 16),
        };
        assert(c.spec_bytes() =~= bytes@.subrange(0, 32));
        Ok(c)
    }

    /// Writes the 32 header bytes back out.
    pub fn to_bytes(&self) -> (v: Vec<u8>)
        ensures
            v@ == self.spec_bytes(),
    {
        let mut v: Vec<u8> = Vec::new();
        push_array::<8>(&mut v, &self.device_name);
        push_array::<8>(&mut v, &self.command);
        push_array::<16>(&mut v, &self.argument);
        assert(v@ =~= self.spec_bytes());
        v
    }
}

/// The command tokens are well-formed text and fit their 8-byte field.
pub proof fn lemma_command_token_wf(c: CommandType)
    ensures
        wf_token(c.spec_token()),
        c.spec_token().len() < COMMAND_WIDTH,
{
    reveal_strlit("UNKNOWN");
    reveal_strlit("READ");
    reveal_strlit("SEARCH");
    reveal_strlit("WRITE");
}

/// The argument tokens are well-formed text and fit their 16-byte field.
pub proof fn lemma_argument_token_wf(a: ArgumentType)
    ensures
        wf_token(a.spec_token()),
        a.spec_token().len() < ARGUMENT_WIDTH,
{
    reveal_strlit("UNKNOWN");
    reveal_strlit("");
    reveal_strlit("QUERY");
    reveal_strlit("SEARCH");
    reveal_strlit("NOWRECORD");
    reveal_strlit("HISTORY_DATA");
}

impl RecordHeader {
    /// Well-formed header: the device name is ASCII text without NUL, so it
    /// can lie in a NUL-padded field.
    pub open spec fn wf(self) -> bool {
        wf_token(self.device_name@)
    }

    /// Whether every textual field fits its wire width. The command and
    /// argument tokens always do; only the device name can be too long.
    pub open spec fn fits(self) -> bool {
        self.device_name@.len() < DEVICE_NAME_WIDTH
    }

    /// Encodes this header into its raw form, NUL-padding each field; fails
    /// with `FieldTooLong` exactly when the device name cannot fit its field
    /// together with a terminating NUL.
    pub fn to_c_record(&self) -> (r: Result<CRecordHeader, Error>)
        requires
            self.wf(),
        ensures
            match r {
                Ok(c) => self.fits() && c.spec_bytes() == spec_encode_header(*self),
                Err(e) => e == Error::FieldTooLong && !self.fits(),
            },
    {
        let device_bytes = match to_bytes_nul_padded(self.device_name.as_str(), DEVICE_NAME_WIDTH) {
            Ok(v) => v,
            Err(e) => {
                return Err(e);
            },
        };
        proof {
            lemma_command_token_wf(self.command);
            lemma_argument_token_wf(self.argument);
        }
        let command_bytes = match to_bytes_nul_padded(self.command.to_string(), COMMAND_WIDTH) {
            Ok(v) => v,
            Err(_) => {
                return Err(Error::FieldTooLong);
            },
        };
        let argument_bytes = match to_bytes_nul_padded(self.argument.to_string(), ARGUMENT_WIDTH) {
            Ok(v) => v,
            Err(_) => {
                return Err(Error::FieldTooLong);
            },
        };
        let c = CRecordHeader {
            device_name: to_array::<8>(&device_bytes),
            command: to_array::<8>(&command_bytes),
            argument: to_array::<16>(&argument_bytes),
        };
        assert(c.spec_bytes() =~= spec_encode_header(*self));
        Ok(c)
    }

    /// Decodes a raw header into its typed form; fails with `InvalidText`
    /// exactly when some field's token bytes are not ASCII.
    pub fn from_c_record(header: &CRecordHeader) -> (r: Result<RecordHeader, Error>)
        ensures
            match r {
                Ok(h) => {
                    &&& spec_header_text_ok(header.spec_bytes())
                    &&& spec_decoded_header(header.spec_bytes(), h)
                    &&& h.wf()
                    &&& h.fits()
                },
                Err(e) => e == Error::InvalidText && !spec_header_text_ok(header.spec_bytes()),
            },
    {
        proof {
            assert(header.spec_bytes().subrange(0, 8) =~= header.device_name@);
            assert(header.spec_bytes().subrange(8, 16) =~= header.command@);
            assert(header.spec_bytes().subrange(16, 32) =~= header.argument@);
        }
        let device_name = match from_bytes_nul_padded(header.device_name.as_slice()) {
            Ok(s) => s,
            Err(e) => {
                return Err(e);
            },
        };
        let command_token = match from_bytes_nul_padded(header.command.as_slice()) {
            Ok(s) => s,
            Err(e) => {
                return Err(e);
            },
        };
        let argument_token = match from_bytes_nul_padded(header.argument.as_slice()) {
            Ok(s) => s,
            Err(e) => {
                return Err(e);
            },
        };
        proof {
            lemma_token_text_wf(header.device_name@);
        }
        let h = RecordHeader {
            device_name,
            command: CommandType::from_str(command_token.as_str()),
            argument: ArgumentType::from_str(argument_token.as_str()),
        };
        Ok(h)
    }

    /// Decodes the typed header off the front of a buffer: the buffer must
    /// hold at least the 32 header bytes, and their tokens must be text.
    pub fn from_bytes(bytes: &[u8]) -> (r: Result<RecordHeader, Error>)
        ensures
            match r {
                Ok(h) => {
                    &&& bytes@.len() >= HEADER_SIZE
                    &&& spec_header_text_ok(bytes@.subrange(0, 32))
                    &&& spec_decoded_header(bytes@.subrange(0, 32), h)
                    &&& h.wf()
                    &&& h.fits()
                },
                Err(e) => {
                    if bytes@.len() < HEADER_SIZE {
                        e == Error::BufferTooShort
                    } else {
                        e == Error::InvalidText && !spec_header_text_ok(bytes@.subrange(0, 32))
                    }
                },
            },
    {
        let c = match CRecordHeader::from_bytes(bytes) {
            Ok(c) => c,
            Err(e) => {
                return Err(e);
            },
        };
        RecordHeader::from_c_record(&c)
    }
}

/// Every command comes back unchanged from its own wire token.
pub proof fn lemma_command_token_round_trip(c: CommandType)
    ensures
        CommandType::spec_of_token(c.spec_token()) == c,
{
    reveal_strlit("UNKNOWN");
    reveal_strlit("READ");
    reveal_strlit("SEARCH");
    reveal_strlit("WRITE");
    assert("UNKNOWN"@.len() == 7);
    assert("READ"@.len() == 4);
    assert("SEARCH"@.len() == 6);
    assert("WRITE"@.len() == 5);
}

/// Every argument comes back unchanged from its own wire token; in
/// particular `NoArgument` round-trips through the empty token.
pub proof fn lemma_argument_token_round_trip(a: ArgumentType)
    ensures
        ArgumentType::spec_of_token(a.spec_token()) == a,
{
    reveal_strlit("UNKNOWN");
    reveal_strlit("");
    reveal_strlit("QUERY");
    reveal_strlit("SEARCH");
    reveal_strlit("NOWRECORD");
    reveal_strlit("HISTORY_DATA");
    assert("UNKNOWN"@.len() == 7);
    assert(""@.len() == 0);
    assert("QUERY"@.len() == 5);
    assert("SEARCH"@.len() == 6);
    assert("NOWRECORD"@.len() == 9);
    assert("HISTORY_DATA"@.len() == 12);
}

/// A token that is no known command token decodes to `Unknown`.
pub proof fn lemma_unmapped_command_token(s: Seq<char>)
    requires
        s != "READ"@,
        s != "SEARCH"@,
        s != "WRITE"@,
    ensures
        CommandType::spec_of_token(s) == CommandType::Unknown,
{
}

/// A token that is no known argument token decodes to `Unknown`; the empty
/// token alone decodes to `NoArgument`.
pub proof fn lemma_unmapped_argument_token(s: Seq<char>)
    requires
        s != ""@,
        s != "QUERY"@,
        s != "SEARCH"@,
        s != "NOWRECORD"@,
        s != "HISTORY_DATA"@,
    ensures
        ArgumentType::spec_of_token(s) == ArgumentType::Unknown,
{
}

/// A well-formed header whose fields fit their widths decodes from its own
/// encoding exactly as it went in.
pub proof fn lemma_header_round_trip(h: RecordHeader)
    requires
        h.wf(),
        h.fits(),
    ensures
        spec_header_text_ok(spec_encode_header(h)),
        spec_decoded_header(spec_encode_header(h), h),
{
    let b = spec_encode_header(h);
    lemma_command_token_wf(h.command);
    lemma_argument_token_wf(h.argument);
    assert(b.subrange(0, 8) =~= spec_nul_padded(h.device_name@, 8));
    assert(b.subrange(8, 16) =~= spec_nul_padded(h.command.spec_token(), 8));
    assert(b.subrange(16, 32) =~= spec_nul_padded(h.argument.spec_token(), 16));
    lemma_nul_padded_round_trip(h.device_name@, 8);
    lemma_nul_padded_round_trip(h.command.spec_token(), 8);
    lemma_nul_padded_round_trip(h.argument.spec_token(), 16);
    lemma_command_token_round_trip(h.command);
    lemma_argument_token_round_trip(h.argument);
}

} // verus!

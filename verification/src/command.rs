//! Outbound command frames.
//!
//! A command frame is a 32-byte record header followed by 8 reserved bytes.
//! The device is observed to ignore the reserved bytes, so they are written
//! as zero. Commands are built by the two factories and serialised once;
//! their device name is always "PC2000", the token the console expects from
//! the querying station.
use crate::error::Error;
use crate::header::{spec_encode_header, ArgumentType, CRecordHeader, CommandType, RecordHeader};
use crate::text::wf_token;
use crate::wire::push_array;
use vstd::prelude::*;
use vstd::string::StringExecFns;

verus! {

/// The reserved trailer after the header of every command frame.
pub const COMMAND_TRAILER: usize = 8;

/// The full size of an encoded command frame.
pub const COMMAND_SIZE: usize = 40;

/// An outbound intent: a header to serialise and send.
#[derive(Clone, Debug, PartialEq)]
pub struct Command {
    header: RecordHeader,
}

/// The raw form of a command frame: the raw header and the reserved trailer.
#[derive(Clone, Debug, PartialEq, Eq)]
pub struct CSearchRequest {
    pub header: CRecordHeader,
    pub _unknown: [u8; 8],
}

/// The bytes a command encodes to: its header, NUL-padded, and the zeroed
/// reserved trailer.
pub open spec fn spec_encode_command(c: Command) -> Seq<u8> {
    spec_encode_header(c.spec_header()) + Seq::new(COMMAND_TRAILER as nat, |i: int| 0u8)
}

impl Command {
    /// The header this command serialises.
    pub closed spec fn spec_header(self) -> RecordHeader {
        self.header
    }

    /// A command as the factories build it: a well-formed header whose fields
    /// all fit their wire widths, so that serialisation cannot fail.
    pub open spec fn wf(self) -> bool {
        &&& self.spec_header().wf()
        &&& self.spec_header().fits()
    }

    /// The discovery broadcast: ask any console on the network to call back.
    pub fn search() -> (c: Command)
        ensures
            c.wf(),
            c.spec_header().device_name@ == "PC2000"@,
            c.spec_header().command == CommandType::Search,
            c.spec_header().argument == ArgumentType::NoArgument,
    {
        proof {
            lemma_station_name_wf();
        }
        Command {
            header: RecordHeader {
                device_name: String::from_str("PC2000"),
                command: CommandType::Search,
                argument: ArgumentType::NoArgument,
            },
        }
    }

    /// The periodic telemetry query: read the current weather record.
    pub fn query() -> (c: Command)
        ensures
            c.wf(),
            c.spec_header().device_name@ == "PC2000"@,
            c.spec_header().command == CommandType::Read,
            c.spec_header().argument == ArgumentType::NowRecord,
    {
        Command::read(ArgumentType::NowRecord)
    }

    /// A READ command with the given argument.
    pub fn read(argument: ArgumentType) -> (c: Command)
        ensures
            c.wf(),
            c.spec_header().device_name@ == "PC2000"@,
            c.spec_header().command == CommandType::Read,
            c.spec_header().argument == argument,
    {
        proof {
            lemma_station_name_wf();
        }
        Command {
            header: RecordHeader {
                device_name: String::from_str("PC2000"),
                command: CommandType::Read,
                argument,
            },
        }
    }

    /// Serialises the command into its 40-byte frame. The factories only
    /// build commands whose fields fit, so serialisation always succeeds;
    /// the `Result` mirrors the fallible header encoding underneath.
    pub fn to_bytes(&self) -> (r: Result<Vec<u8>, Error>)
        requires
            self.wf(),
        ensures
            r matches Ok(v) && v@ == spec_encode_command(*self),
            r matches Ok(v) && v@.len() == COMMAND_SIZE,
    {
        let c_header = match self.header.to_c_record() {
            Ok(c) => c,
            Err(_) => {
                // A well-formed command always fits its frame.
                proof {
                    assert(false);
                }
                return Err(Error::FieldTooLong);
            },
        };
        let request = CSearchRequest { header: c_header, _unknown: [0u8; 8] };
        let mut v = request.header.to_bytes();
        push_array::<8>(&mut v, &request._unknown);
        assert(v@ =~= spec_encode_command(*self));
        Ok(v)
    }
}

/// The station name "PC2000" is well-formed field text and fits its 8-byte
/// field.
proof fn lemma_station_name_wf()
    ensures
        wf_token("PC2000"@),
        "PC2000"@.len() < 8,
{
    reveal_strlit("PC2000");
}

/// The decoded form of a SEARCH response, announcing a console's name and
/// address. Configuration messages are out of the driver's scope: nothing
/// decodes into this yet.
#[derive(Clone, Debug, PartialEq)]
pub struct SearchResponse {
    pub name: String,
    pub command: String,
    pub ip_address: String,
}

/// The raw form of a SEARCH response. Its layout past the header is not yet
/// deciphered, so it carries no fields.
#[derive(Clone, Debug, PartialEq, Eq)]
pub struct CSearchResponse {}

} // verus!

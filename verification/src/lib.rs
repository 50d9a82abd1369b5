//! Driver core for a WS-1001 weather-station console speaking a proprietary
//! binary protocol: a fixed-offset binary record codec, the session state
//! machine that discovers the device and drives a query/response cycle, and
//! the polling driver that turns poll outcomes into a record stream.
pub mod command;
pub mod driver;
pub mod error;
pub mod header;
pub mod record;
pub mod session;
pub mod text;
pub mod wire;

pub use command::{CSearchRequest, CSearchResponse, Command, SearchResponse};
pub use driver::{PollOutcome, StreamItem};
pub use error::Error;
pub use header::{ArgumentType, CRecordHeader, CommandType, RecordHeader};
pub use record::{RainRecord, Response, TemperatureAndHumidity, WeatherRecord, WindRecord};
pub use session::{Session, SessionState};
pub use text::{from_bytes_nul_padded, to_bytes_nul_padded};

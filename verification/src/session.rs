//! The session state machine.
//!
//! A session discovers the console by broadcasting a search command, waits
//! for the console to connect back, and then drives a strict query/response
//! cycle over that single connection. The machine here is the decision core:
//! it says which frame to send next and what each reply means, while the
//! unverified shell performs the socket work and reports each step's outcome
//! back. Any I/O failure is terminal: there is no recovery path back to
//! discovery.
use crate::command::Command;
use crate::error::Error;
use crate::header::{spec_decoded_header, ArgumentType, CommandType};
use crate::record::{
    spec_now_record_fields, spec_response_error, spec_response_ok, Response, WeatherRecord,
};
use vstd::prelude::*;

verus! {

/// The phases of a session's life. `Closed` and `Failed` are terminal.
#[derive(Clone, Copy, Debug, PartialEq, Eq, Structural)]
pub enum SessionState {
    Idle,
    Discovering,
    AwaitingConnection,
    Connected,
    Polling,
    Closed,
    Failed,
}

/// One session with one console: the sole owner of the transport's meaning.
#[derive(Clone, Debug, PartialEq)]
pub struct Session {
    state: SessionState,
}

impl Session {
    /// The phase the session is in.
    pub closed spec fn spec_state(self) -> SessionState {
        self.state
    }

    /// The phase the session is in, for the shell that drives the sockets.
    pub fn state(&self) -> (s: SessionState)
        ensures
            s == self.spec_state(),
    {
        self.state
    }

    /// A fresh session that has not yet started discovery.
    pub fn new() -> (s: Session)
        ensures
            s.spec_state() == SessionState::Idle,
    {
        Session { state: SessionState::Idle }
    }

    /// Starts discovery: the returned search command is to be broadcast on
    /// the discovery port.
    pub fn start_discovery(&mut self) -> (c: Command)
        requires
            old(self).spec_state() == SessionState::Idle,
        ensures
            final(self).spec_state() == SessionState::Discovering,
            c.wf(),
            c.spec_header().device_name@ == "PC2000"@,
            c.spec_header().command == CommandType::Search,
            c.spec_header().argument == ArgumentType::NoArgument,
    {
        self.state = SessionState::Discovering;
        Command::search()
    }

    /// The broadcast went out: wait for the console to connect inbound.
    pub fn broadcast_sent(&mut self)
        requires
            old(self).spec_state() == SessionState::Discovering,
        ensures
            final(self).spec_state() == SessionState::AwaitingConnection,
    {
        self.state = SessionState::AwaitingConnection;
    }

    /// The first inbound connection was accepted and becomes the session's
    /// sole transport.
    pub fn connection_accepted(&mut self)
        requires
            old(self).spec_state() == SessionState::AwaitingConnection,
        ensures
            final(self).spec_state() == SessionState::Connected,
    {
        self.state = SessionState::Connected;
    }

    /// Starts one polling cycle: the returned query command is to be written
    /// to the transport, and the next complete frame read back.
    pub fn begin_poll(&mut self) -> (c: Command)
        requires
            old(self).spec_state() == SessionState::Connected,
        ensures
            final(self).spec_state() == SessionState::Polling,
            c.wf(),
            c.spec_header().device_name@ == "PC2000"@,
            c.spec_header().command == CommandType::Read,
            c.spec_header().argument == ArgumentType::NowRecord,
    {
        self.state = SessionState::Polling;
        Command::query()
    }

    /// Finishes a polling cycle with the frame the transport produced, if
    /// any. An absent frame (end of stream) yields no record and leaves the
    /// session usable; a frame that decodes yields its record; a frame that
    /// does not decode fails the session terminally.
    pub fn handle_frame(&mut self, frame: Option<&[u8]>) -> (r: Result<
        Option<WeatherRecord>,
        Error,
    >)
        requires
            old(self).spec_state() == SessionState::Polling,
        ensures
            match frame {
                None => {
                    &&& r matches Ok(o) && o is None
                    &&& final(self).spec_state() == SessionState::Connected
                },
                Some(b) => {
                    if spec_response_ok(b@) {
                        &&& r matches Ok(o) && o matches Some(rec) && spec_decoded_header(
                            b@.subrange(0, 32),
                            rec.record_header,
                        ) && spec_now_record_fields(b@, rec)
                        &&& final(self).spec_state() == SessionState::Connected
                    } else {
                        &&& r matches Err(e) && e == spec_response_error(b@)
                        &&& final(self).spec_state() == SessionState::Failed
                    }
                },
            },
    {
        match frame {
            None => {
                self.state = SessionState::Connected;
                Ok(None)
            },
            Some(bytes) => {
                match Response::from_bytes(bytes) {
                    Ok(Response::WeatherRecord(rec)) => {
                        self.state = SessionState::Connected;
                        Ok(Some(rec))
                    },
                    Err(e) => {
                        self.state = SessionState::Failed;
                        Err(e)
                    },
                }
            },
        }
    }

    /// An I/O failure anywhere (bind, send, accept, read, write) is terminal.
    pub fn io_failed(&mut self)
        ensures
            final(self).spec_state() == SessionState::Failed,
    {
        self.state = SessionState::Failed;
    }

    /// Tears the session down; the shell releases the transport with it.
    pub fn close(&mut self)
        ensures
            final(self).spec_state() == SessionState::Closed,
    {
        self.state = SessionState::Closed;
    }
}

} // verus!

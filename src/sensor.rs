//! A session with one sensor, as a state machine: each operation hands out the
//! command to write, and the session then takes back what the port read and
//! decides what the reply means.
use crate::error::Error;
use crate::frame::{
    check_reply, command_frame, decode_reading, query_command, reading_of, reply_checksum_ok, reply_payload,
    report_mode_command, work_period_command, Reading, COMMAND_LEN, MAX_WORK_PERIOD, PASSIVE,
    QUERY_CMD, REPLY_LEN, REPORT_MODE_CMD, WORK_PERIOD_CMD, WRITE,
};
use vstd::prelude::*;

verus! {

/// The command whose reply a session waits for.
#[derive(Debug, Clone, Copy, PartialEq, Eq)]
pub enum Exchange {
    /// Switching the sensor to passive reporting.
    ReportMode,
    /// Setting the work period.
    WorkPeriod,
    /// Asking for a measurement.
    Query,
}

/// What a valid reply means for the command it answers.
#[derive(Debug, Clone, Copy, PartialEq, Eq)]
pub enum Reply {
    /// The sensor took the setting.
    Confirmed,
    /// The measurement that answers a query.
    Measured(Reading),
}

/// How a reply frame that answers `exchange` is read, decoded at `timestamp`:
/// a bad checksum fails every exchange; otherwise a query yields the
/// measurement and the other commands a confirmation.
pub open spec fn reply_outcome(exchange: Exchange, reply: Seq<u8>, timestamp: u64) -> Result<
    Reply,
    Error,
> {
    if !reply_checksum_ok(reply) {
        Err(Error::BadChecksum)
    } else {
        match exchange {
            Exchange::Query => Ok(Reply::Measured(reading_of(reply, timestamp))),
            _ => Ok(Reply::Confirmed),
        }
    }
}

/// A session with one sensor over a port that the caller owns.
///
/// The caller writes each command that the session hands out, reads the
/// 10-byte reply (or the failure of the port) and gives it to `reply`.
pub struct SDS011 {
    passive: bool,
    pending: Option<Exchange>,
}

impl SDS011 {
    /// Whether the sensor confirmed passive reporting in this session.
    pub closed spec fn is_passive_spec(&self) -> bool {
        self.passive
    }

    /// The command whose reply the session waits for, if any.
    pub closed spec fn pending(&self) -> Option<Exchange> {
        self.pending
    }

    /// Starts a session with a sensor whose port was just opened. It returns
    /// the command that switches the sensor to passive reporting, which the
    /// caller sends before anything else; its reply ends the setup.
    pub fn new() -> (r: (SDS011, Vec<u8>))
        ensures
            !r.0.is_passive_spec(),
            r.0.pending() == Some(Exchange::ReportMode),
            r.1@ == command_frame(REPORT_MODE_CMD, seq![WRITE, PASSIVE]),
    {
        let mut s = SDS011 { passive: false, pending: None };
        let cmd = s.set_report_mode();
        (s, cmd)
    }

    /// Whether the sensor confirmed passive reporting in this session.
    pub fn is_passive(&self) -> (r: bool)
        ensures
            r == self.is_passive_spec(),
    {
        self.passive
    }

    /// Whether a command was handed out whose reply has not come back yet.
    pub fn awaiting_reply(&self) -> (r: bool)
        ensures
            r == self.pending() is Some,
    {
        self.pending.is_some()
    }

    /// Returns the command that switches the sensor to passive reporting
    /// (write flag, passive flag), and waits for its reply.
    pub fn set_report_mode(&mut self) -> (r: Vec<u8>)
        ensures
            r@ == command_frame(REPORT_MODE_CMD, seq![WRITE, PASSIVE]),
            r@.len() == COMMAND_LEN,
            final(self).pending() == Some(Exchange::ReportMode),
            final(self).is_passive_spec() == old(self).is_passive_spec(),
    {
        self.pending = Some(Exchange::ReportMode);
        report_mode_command()
    }

    /// Returns the command that asks for a measurement, and waits for its
    /// reply.
    pub fn query(&mut self) -> (r: Vec<u8>)
        ensures
            r@ == command_frame(QUERY_CMD, seq![]),
            r@.len() == COMMAND_LEN,
            final(self).pending() == Some(Exchange::Query),
            final(self).is_passive_spec() == old(self).is_passive_spec(),
    {
        self.pending = Some(Exchange::Query);
        query_command()
    }

    /// Returns the command that sets the work period to `work_time` minutes
    /// (0 for continuous operation), and waits for its reply. A period over 30
    /// fails with `TooLongWorkTime`: no command is handed out and the session
    /// stays as it was.
    pub fn set_work_period(&mut self, work_time: u8) -> (r: Result<Vec<u8>, Error>)
        ensures
            r is Ok <==> work_time <= MAX_WORK_PERIOD,
            r matches Ok(v) ==> v@ == command_frame(WORK_PERIOD_CMD, seq![WRITE, work_time]),
            r is Ok ==> final(self).pending() == Some(Exchange::WorkPeriod),
            r is Ok ==> final(self).is_passive_spec() == old(self).is_passive_spec(),
            work_time > MAX_WORK_PERIOD ==> r == Err::<Vec<u8>, Error>(Error::TooLongWorkTime),
            work_time > MAX_WORK_PERIOD ==> *final(self) == *old(self),
    {
        let r = work_period_command(work_time);
        if r.is_ok() {
            self.pending = Some(Exchange::WorkPeriod);
        }
        r
    }

    /// Takes what the port gave back for the pending command: the 10-byte
    /// reply, or the description of the port's failure (to write, or to read
    /// in time). A failure of the port is `ReadError`; a reply is checked and
    /// read as `reply_outcome` says, with `timestamp` (seconds since the Unix
    /// epoch) as the time of a measurement. A confirmed report-mode command
    /// makes the session passive. The session then waits for nothing.
    pub fn reply(&mut self, read: Result<[u8; 10], String>, timestamp: u64) -> (r: Result<
        Reply,
        Error,
    >)
        requires
            old(self).pending() is Some,
        ensures
            final(self).pending() is None,
            read matches Err(s) ==> r == Err::<Reply, Error>(Error::ReadError(s)),
            read matches Ok(buf) ==> r == reply_outcome(old(self).pending()->Some_0, buf@, timestamp),
            final(self).is_passive_spec() == (old(self).is_passive_spec() || (old(self).pending()
                == Some(Exchange::ReportMode) && r is Ok)),
    {
        let exchange = match self.pending {
            Some(e) => e,
            None => Exchange::Query,
        };
        self.pending = None;
        match read {
            Err(s) => Err(Error::ReadError(s)),
            Ok(buf) => {
                match check_reply(&buf) {
                    Err(e) => Err(e),
                    Ok(raw) => {
                        match exchange {
                            Exchange::Query => Ok(Reply::Measured(decode_reading(&raw, timestamp))),
                            Exchange::ReportMode => {
                                self.passive = true;
                                Ok(Reply::Confirmed)
                            },
                            Exchange::WorkPeriod => Ok(Reply::Confirmed),
                        }
                    },
                }
            },
        }
    }
}

/// A reply whose checksum byte was altered fails every exchange with
/// `BadChecksum`: it confirms no setting and yields no measurement.
pub proof fn lemma_altered_checksum_rejected(
    exchange: Exchange,
    reply: Seq<u8>,
    altered: u8,
    timestamp: u64,
)
    requires
        reply.len() == REPLY_LEN,
        reply_checksum_ok(reply),
        altered != reply[8],
    ensures
        reply_outcome(exchange, reply.update(8, altered), timestamp) == Err::<Reply, Error>(
            Error::BadChecksum,
        ),
{
    assert(reply_payload(reply.update(8, altered)) =~= reply_payload(reply));
}

/// Two queries answered by the same valid reply yield the same concentrations;
/// each measurement carries the time at which it was decoded.
pub proof fn lemma_query_repeatable(reply: Seq<u8>, first: u64, second: u64)
    requires
        reply.len() == REPLY_LEN,
        reply_checksum_ok(reply),
    ensures
        reply_outcome(Exchange::Query, reply, first) == Ok::<Reply, Error>(
            Reply::Measured(reading_of(reply, first)),
        ),
        reply_outcome(Exchange::Query, reply, second) == Ok::<Reply, Error>(
            Reply::Measured(reading_of(reply, second)),
        ),
        reading_of(reply, first).pm25 == reading_of(reply, second).pm25,
        reading_of(reply, first).pm10 == reading_of(reply, second).pm10,
        reading_of(reply, first).timestamp == first,
        reading_of(reply, second).timestamp == second,
{
}

} // verus!

//! Codec for the serial protocol of the SDS011 laser particulate-matter sensor.
//!
//! The library builds the 19-byte command frames, checks the 10-byte reply
//! frames and decodes measurements. It performs no I/O of its own: a session
//! (`SDS011`) hands out the bytes to write and takes back what the port read.
pub mod error;
pub mod frame;
pub mod sensor;

pub use error::Error;
pub use frame::{
    check_reply, cmd_begin, decode_reading, finish_cmd, query_command, report_mode_command,
    work_period_command, Reading,
};
pub use sensor::{Exchange, Reply, SDS011};

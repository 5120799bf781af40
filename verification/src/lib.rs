//! Driver for the MCP7940N real-time clock, a battery-backed calendar chip on a
//! two-wire serial bus.
//!
//! The chip keeps the time in seven registers of packed binary-coded decimal,
//! with control flags sharing the upper bits of several of them. This crate
//! converts between those registers and a calendar timestamp, and sequences
//! the bus transactions around that conversion.
//!
//! - [`calendar`]: timestamps, and what makes one valid.
//! - [`codec`]: registers to timestamp and back; the two configuration bits.
//! - [`bus`]: the bus as the driver needs it, and the record of a transaction.
//! - [`driver`]: the session, operation by operation.

pub mod bus;
pub mod calendar;
pub mod codec;
pub mod driver;

pub use crate::bus::Bus;
pub use crate::calendar::CalendarTimestamp;
pub use crate::codec::ClockConfig;
pub use crate::codec::ClockSource;
pub use crate::codec::CodecError;
pub use crate::driver::Error;
pub use crate::driver::Mcp7940n;

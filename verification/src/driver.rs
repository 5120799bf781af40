//! The session with one chip: which transactions each operation issues, and
//! what it makes of the answers.
//!
//! A session keeps a transcript of the transactions it has issued. The
//! transcript is ghost state: it costs nothing at run time, and lets each
//! operation say exactly what it sent, in which order, and how its result
//! follows from what came back.

use crate::bus::Bus;
use crate::bus::Transaction;
use crate::calendar::CalendarTimestamp;
use crate::codec::config_frame;
use crate::codec::decode_oscillator_running;
use crate::codec::decode_time;
use crate::codec::decoded_fields;
use crate::codec::encode_clock_config;
use crate::codec::encode_time;
use crate::codec::reports_running;
use crate::codec::time_frame;
use crate::codec::year_in_range;
use crate::codec::ClockConfig;
use crate::codec::CodecError;
use crate::codec::CENTURY;
use crate::codec::LAST_YEAR;
use crate::codec::REG_SECONDS;
use crate::codec::REG_WEEKDAY;
use vstd::prelude::*;

verus! {

/// The address of the chip on the bus. It is fixed in the silicon.
pub const DEVICE_ADDRESS: u8 = 0b110_1111;

/// Why reading or setting the time failed.
#[derive(Debug, PartialEq, Eq)]
pub enum Error<E> {
    /// The bus reported a failure; the error is the bus's own.
    Transport(E),
    /// The bus worked, and the data makes no sense.
    Codec(CodecError),
}

/// What was added to the transcript `before` to make it `after`.
pub open spec fn issued<E>(before: Seq<Transaction<E>>, after: Seq<Transaction<E>>) -> Seq<
    Transaction<E>,
> {
    after.skip(before.len() as int)
}

/// Whether `steps` is one read of `len` registers from the seconds register
/// on, followed, if and only if the read succeeded, by one write of the
/// frame that `frame_of` makes of what was read.
pub open spec fn is_read_modify_write<E>(
    steps: Seq<Transaction<E>>,
    len: nat,
    frame_of: spec_fn(Seq<u8>) -> Seq<u8>,
) -> bool {
    &&& steps.len() >= 1
    &&& steps[0].is_read(DEVICE_ADDRESS, REG_SECONDS, len)
    &&& match steps[0].failure() {
        Some(_) => steps.len() == 1,
        None => steps.len() == 2 && steps[1].is_write(
            DEVICE_ADDRESS,
            frame_of(steps[0].response()),
        ),
    }
}

/// A session with the chip at [`DEVICE_ADDRESS`]. It owns the bus and keeps
/// nothing else: every answer comes from the chip's registers.
pub struct Mcp7940n<I: Bus> {
    i2c: I,
    transcript: Ghost<Seq<Transaction<I::Error>>>,
}

impl<I: Bus> Mcp7940n<I> {
    /// The transactions that this session has issued, oldest first.
    pub closed spec fn transcript(&self) -> Seq<Transaction<I::Error>> {
        self.transcript@
    }

    /// The bus that this session owns.
    pub closed spec fn bus(&self) -> I {
        self.i2c
    }

    /// Starts a session on `i2c`. Nothing is sent.
    pub fn new(i2c: I) -> (session: Self)
        ensures
            session.bus() == i2c,
            session.transcript() == Seq::<Transaction<I::Error>>::empty(),
    {
        Mcp7940n { i2c, transcript: Ghost(Seq::empty()) }
    }

    /// Ends the session and gives the bus back. Nothing is sent.
    pub fn destroy(self) -> (i2c: I)
        ensures
            i2c == self.bus(),
    {
        self.i2c
    }

    /// One `write_read` that names the register `first` and reads the `N`
    /// registers from it on.
    fn read_registers<const N: usize>(&mut self, first: u8) -> (read: Result<[u8; N], I::Error>)
        ensures
            old(self).transcript().is_prefix_of(final(self).transcript()),
            issued(old(self).transcript(), final(self).transcript()).len() == 1,
            issued(old(self).transcript(), final(self).transcript())[0].is_read(
                DEVICE_ADDRESS,
                first,
                N as nat,
            ),
            match read {
                Ok(registers) => {
                    &&& issued(old(self).transcript(), final(self).transcript())[0].failure()
                        is None
                    &&& issued(old(self).transcript(), final(self).transcript())[0].response()
                        == registers@
                },
                Err(e) => issued(old(self).transcript(), final(self).transcript())[0].failure()
                    == Some(e),
            },
    {
        let request: [u8; 1] = [first];
        let mut registers: [u8; N] = [0u8; N];
        let outcome = self.i2c.write_read(DEVICE_ADDRESS, &request, &mut registers);
        proof {
            self.transcript@ = self.transcript@.push(
                Transaction::WriteRead {
                    address: DEVICE_ADDRESS,
                    request: request@,
                    response: registers@,
                    failure: outcome.err(),
                },
            );
        }
        match outcome {
            Ok(_) => Ok(registers),
            Err(e) => Err(e),
        }
    }

    /// One `write` of `frame`.
    fn write_frame(&mut self, frame: &[u8]) -> (written: Result<(), I::Error>)
        ensures
            old(self).transcript().is_prefix_of(final(self).transcript()),
            issued(old(self).transcript(), final(self).transcript()).len() == 1,
            issued(old(self).transcript(), final(self).transcript())[0].is_write(
                DEVICE_ADDRESS,
                frame@,
            ),
            issued(old(self).transcript(), final(self).transcript())[0].failure()
                == written.err(),
    {
        let outcome = self.i2c.write(DEVICE_ADDRESS, frame);
        proof {
            self.transcript@ = self.transcript@.push(
                Transaction::Write {
                    address: DEVICE_ADDRESS,
                    bytes: frame@,
                    failure: outcome.err(),
                },
            );
        }
        outcome
    }

    /// Sets whether the oscillator is asked to run and where the clock comes
    /// from.
    ///
    /// Reads the eight registers from seconds to control, changes the two
    /// bits, and writes all eight back in one frame. A failed read ends the
    /// operation before anything is written. The result is the error of the
    /// transaction that failed, if one did.
    pub fn configure_clock(&mut self, config: &ClockConfig) -> (done: Result<(), I::Error>)
        ensures
            old(self).transcript().is_prefix_of(final(self).transcript()),
            is_read_modify_write(
                issued(old(self).transcript(), final(self).transcript()),
                8,
                |current: Seq<u8>| config_frame(current, *config),
            ),
            done.err() == issued(old(self).transcript(), final(self).transcript()).last().failure(),
    {
        let ghost before = self.transcript();
        match self.read_registers::<8>(REG_SECONDS) {
            Err(e) => Err(e),
            Ok(current) => {
                let ghost between = self.transcript();
                let frame: [u8; 9] = encode_clock_config(&current, config);
                let written = self.write_frame(frame.as_slice());
                proof {
                    lemma_issued_in_turn(before, between, self.transcript());
                }
                written
            },
        }
    }

    /// Asks the chip whether its oscillator runs.
    ///
    /// Reads the weekday register, and nothing else, in one transaction. The
    /// answer is the chip's own report, which lags behind the request to
    /// start: a crystal takes time to swing.
    pub fn osc_running(&mut self) -> (running: Result<bool, I::Error>)
        ensures
            old(self).transcript().is_prefix_of(final(self).transcript()),
            issued(old(self).transcript(), final(self).transcript()).len() == 1,
            issued(old(self).transcript(), final(self).transcript())[0].is_read(
                DEVICE_ADDRESS,
                REG_WEEKDAY,
                1,
            ),
            running == match issued(old(self).transcript(), final(self).transcript())[0].failure() {
                None => Ok::<bool, I::Error>(
                    reports_running(
                        issued(old(self).transcript(), final(self).transcript())[0].response()[0],
                    ),
                ),
                Some(e) => Err::<bool, I::Error>(e),
            },
    {
        match self.read_registers::<1>(REG_WEEKDAY) {
            Ok(registers) => Ok(decode_oscillator_running(registers[0])),
            Err(e) => Err(e),
        }
    }

    /// Reads the time.
    ///
    /// Reads the seven registers from seconds to year in one transaction and
    /// decodes them. Registers that hold no moment of the calendar are
    /// reported as such, apart from failures of the bus.
    pub fn now(&mut self) -> (read: Result<CalendarTimestamp, Error<I::Error>>)
        ensures
            old(self).transcript().is_prefix_of(final(self).transcript()),
            issued(old(self).transcript(), final(self).transcript()).len() == 1,
            issued(old(self).transcript(), final(self).transcript())[0].is_read(
                DEVICE_ADDRESS,
                REG_SECONDS,
                7,
            ),
            match issued(old(self).transcript(), final(self).transcript())[0].failure() {
                Some(e) => read == Err::<CalendarTimestamp, Error<I::Error>>(Error::Transport(e)),
                None => if decoded_fields(
                    issued(old(self).transcript(), final(self).transcript())[0].response(),
                ).is_valid() {
                    read matches Ok(t) && t@ == decoded_fields(
                        issued(old(self).transcript(), final(self).transcript())[0].response(),
                    )
                } else {
                    read == Err::<CalendarTimestamp, Error<I::Error>>(
                        Error::Codec(CodecError::InvalidCalendarData),
                    )
                },
            },
    {
        match self.read_registers::<7>(REG_SECONDS) {
            Err(e) => Err(Error::Transport(e)),
            Ok(image) => match decode_time(&image) {
                Ok(t) => Ok(t),
                Err(e) => Err(Error::Codec(e)),
            },
        }
    }

    /// Sets the time.
    ///
    /// A year outside 2000 to 2099 is refused before anything is sent.
    /// Otherwise reads the seven registers from seconds to year, puts the new
    /// digits under the bits that are kept, and writes all seven back in one
    /// frame. A failed read ends the operation before anything is written.
    pub fn set_datetime(&mut self, now: &CalendarTimestamp) -> (done: Result<(), Error<I::Error>>)
        ensures
            old(self).transcript().is_prefix_of(final(self).transcript()),
            !year_in_range(now@.year) ==> issued(
                old(self).transcript(),
                final(self).transcript(),
            ).len() == 0 && done == Err::<(), Error<I::Error>>(
                Error::Codec(CodecError::YearOutOfRange),
            ),
            year_in_range(now@.year) ==> is_read_modify_write(
                issued(old(self).transcript(), final(self).transcript()),
                7,
                |current: Seq<u8>| time_frame(now@, current),
            ) && match issued(old(self).transcript(), final(self).transcript()).last().failure() {
                Some(e) => done == Err::<(), Error<I::Error>>(Error::Transport(e)),
                None => done is Ok,
            },
    {
        let ghost before = self.transcript();
        let year: i32 = now.year();
        if year < CENTURY || year > LAST_YEAR {
            return Err(Error::Codec(CodecError::YearOutOfRange));
        }
        match self.read_registers::<7>(REG_SECONDS) {
            Err(e) => Err(Error::Transport(e)),
            Ok(current) => {
                let ghost between = self.transcript();
                match encode_time(now, &current) {
                    Err(e) => Err(Error::Codec(e)),
                    Ok(frame) => {
                        let written = self.write_frame(frame.as_slice());
                        proof {
                            lemma_issued_in_turn(before, between, self.transcript());
                        }
                        match written {
                            Ok(_) => Ok(()),
                            Err(e) => Err(Error::Transport(e)),
                        }
                    },
                }
            },
        }
    }
}

/// What was issued over two stretches is what was issued over the first,
/// then what was issued over the second.
proof fn lemma_issued_in_turn<E>(
    before: Seq<Transaction<E>>,
    between: Seq<Transaction<E>>,
    after: Seq<Transaction<E>>,
)
    requires
        before.is_prefix_of(between),
        between.is_prefix_of(after),
    ensures
        before.is_prefix_of(after),
        issued(before, after) == issued(before, between) + issued(between, after),
{
    assert(issued(before, after) =~= issued(before, between) + issued(between, after));
}

} // verus!

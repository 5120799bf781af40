//! The register codec: between the chip's packed registers and calendar
//! timestamps, and between a clock configuration and the two control bits
//! that carry it.
//!
//! Registers are numbered from 0x00: seconds, minutes, hours, weekday, day of
//! the month, month, year, control. A time field holds two decimal digits, the
//! ones in the low nibble and the tens above it; the bits over the tens digit
//! belong to the chip's control flags. What is sent to the chip is a frame: the
//! number of the first register, then the new contents of that register and
//! of those that follow it.

use crate::calendar::CalendarFields;
use crate::calendar::CalendarTimestamp;
use vstd::prelude::*;

verus! {

/// Number of the seconds register, where every frame begins.
pub const REG_SECONDS: u8 = 0x00;

/// Number of the weekday register, which also reports the oscillator's state.
pub const REG_WEEKDAY: u8 = 0x03;

/// The ones digit of every time field.
pub const ONES_MASK: u8 = 0b0000_1111;

/// The tens digit of the seconds: three bits.
pub const SECONDS_TENS_MASK: u8 = 0b0111_0000;

/// The tens digit of the minutes: three bits.
pub const MINUTES_TENS_MASK: u8 = 0b0111_0000;

/// The tens digit of the hours on the 24-hour clock: two bits.
pub const HOURS_24_TENS_MASK: u8 = 0b0011_0000;

/// The tens digit of the hours on the 12-hour clock: one bit.
pub const HOURS_12_TENS_MASK: u8 = 0b0001_0000;

/// The tens digit of the day of the month: two bits.
pub const DAY_TENS_MASK: u8 = 0b0011_0000;

/// The tens digit of the month: one bit.
pub const MONTH_TENS_MASK: u8 = 0b0001_0000;

/// The tens digit of the year: the whole high nibble.
pub const YEAR_TENS_MASK: u8 = 0b1111_0000;

/// Seconds register: set to let the oscillator start.
pub const OSCILLATOR_ENABLE_BIT: u8 = 0b1000_0000;

/// Hours register: set while the chip counts on the 12-hour clock.
pub const TWELVE_HOUR_BIT: u8 = 0b0100_0000;

/// Hours register, 12-hour clock: set in the afternoon.
pub const PM_BIT: u8 = 0b0010_0000;

/// Weekday register: set by the chip while the oscillator runs.
pub const OSCILLATOR_RUNNING_BIT: u8 = 0b0010_0000;

/// Control register: set to take the clock from the external input rather
/// than from the crystal.
pub const EXTERNAL_CLOCK_BIT: u8 = 0b0000_1000;

/// The bit of the seconds register that a new time leaves as it was.
pub const SECONDS_KEPT_MASK: u8 = 0b1000_0000;

/// The bit of the minutes register that a new time leaves as it was.
pub const MINUTES_KEPT_MASK: u8 = 0b1000_0000;

/// The bit of the hours register that a new time leaves as it was.
pub const HOURS_KEPT_MASK: u8 = 0b1000_0000;

/// The bits of the day register that a new time leaves as they were.
pub const DAY_KEPT_MASK: u8 = 0b1100_0000;

/// The bits of the month register that a new time leaves as they were.
pub const MONTH_KEPT_MASK: u8 = 0b1100_0000;

/// The year that the chip's year 00 stands for.
pub const CENTURY: i32 = 2000;

/// The last year that the chip's two digits can hold.
pub const LAST_YEAR: i32 = 2099;

/// Where the chip takes its clock from.
#[derive(Clone, Copy, Debug, PartialEq, Eq)]
pub enum ClockSource {
    /// A crystal across the oscillator pins.
    ExtCrystal,
    /// A clock signal fed into the oscillator input.
    ExtClock,
}

/// What `configure_clock` sets.
#[derive(Clone, Copy, Debug, PartialEq, Eq)]
pub struct ClockConfig {
    /// Whether the oscillator is asked to run.
    pub enabled: bool,
    /// Where the clock comes from.
    pub clock_source: ClockSource,
}

/// Why a conversion between registers and timestamp failed.
#[derive(Clone, Copy, Debug, PartialEq, Eq)]
pub enum CodecError {
    /// The registers hold digits that name no moment of the calendar.
    InvalidCalendarData,
    /// The year lies outside 2000 to 2099, which is all the chip can hold.
    YearOutOfRange,
}

/// The number that `register` holds: ten times the digit under `tens_mask`,
/// plus the digit in the low nibble.
pub open spec fn bcd_value(register: u8, tens_mask: u8) -> int {
    ((register & tens_mask) >> 4) * 10 + (register & ONES_MASK)
}

/// The two decimal digits of `value`, the tens in the high nibble.
pub open spec fn bcd_pack(value: u8) -> u8 {
    ((value / 10) << 4) | (value % 10)
}

/// The hour on the 24-hour clock that the hours register holds, in either
/// of the chip's two modes.
pub open spec fn hour_value(register: u8) -> int {
    if register & TWELVE_HOUR_BIT != 0 {
        let hour = bcd_value(register, HOURS_12_TENS_MASK);
        let pm = register & PM_BIT != 0;
        if pm && hour != 12 {
            hour + 12
        } else if !pm && hour == 12 {
            0
        } else {
            hour
        }
    } else {
        bcd_value(register, HOURS_24_TENS_MASK)
    }
}

/// The fields that the seven registers from seconds to year hold. The weekday
/// register, `image[3]`, plays no part.
pub open spec fn decoded_fields(image: Seq<u8>) -> CalendarFields
    recommends
        image.len() == 7,
{
    CalendarFields {
        year: bcd_value(image[6], YEAR_TENS_MASK) + CENTURY,
        month: bcd_value(image[5], MONTH_TENS_MASK),
        day: bcd_value(image[4], DAY_TENS_MASK),
        hour: hour_value(image[2]),
        minute: bcd_value(image[1], MINUTES_TENS_MASK),
        second: bcd_value(image[0], SECONDS_TENS_MASK),
    }
}

/// Whether the chip can hold `year`.
pub open spec fn year_in_range(year: int) -> bool {
    CENTURY <= year <= LAST_YEAR
}

/// The frame that sets the clock to `fields` where the seven registers from
/// seconds to year hold `current`: the kept bits of each register as they
/// are, the digits new, the hours on the 24-hour clock, the weekday as it is.
pub open spec fn time_frame(fields: CalendarFields, current: Seq<u8>) -> Seq<u8>
    recommends
        current.len() == 7,
        fields.is_valid(),
        year_in_range(fields.year),
{
    seq![
        REG_SECONDS,
        (current[0] & SECONDS_KEPT_MASK) | bcd_pack(fields.second as u8),
        (current[1] & MINUTES_KEPT_MASK) | bcd_pack(fields.minute as u8),
        (current[2] & HOURS_KEPT_MASK) | bcd_pack(fields.hour as u8),
        current[3],
        (current[4] & DAY_KEPT_MASK) | bcd_pack(fields.day as u8),
        (current[5] & MONTH_KEPT_MASK) | bcd_pack(fields.month as u8),
        bcd_pack((fields.year - CENTURY) as u8),
    ]
}

/// `register` with the bits of `bit` set or cleared.
pub open spec fn with_bit(register: u8, bit: u8, set: bool) -> u8 {
    if set {
        register | bit
    } else {
        register & !bit
    }
}

/// The frame that applies `config` where the eight registers from seconds to
/// control hold `current`: the enable bit of the seconds register and the
/// clock-source bit of the control register as `config` says, all else as it
/// is.
pub open spec fn config_frame(current: Seq<u8>, config: ClockConfig) -> Seq<u8>
    recommends
        current.len() == 8,
{
    seq![
        REG_SECONDS,
        with_bit(current[0], OSCILLATOR_ENABLE_BIT, config.enabled),
        current[1],
        current[2],
        current[3],
        current[4],
        current[5],
        current[6],
        with_bit(current[7], EXTERNAL_CLOCK_BIT, config.clock_source is ExtClock),
    ]
}

/// Whether the weekday register reports a running oscillator.
pub open spec fn reports_running(weekday_register: u8) -> bool {
    weekday_register & OSCILLATOR_RUNNING_BIT != 0
}

fn read_bcd(register: u8, tens_mask: u8) -> (value: u8)
    ensures
        value == bcd_value(register, tens_mask),
        value <= 165,
{
    let tens: u8 = (register & tens_mask) >> 4;
    let ones: u8 = register & ONES_MASK;
    assert(((register & tens_mask) >> 4) <= 15 && (register & ONES_MASK) <= 15) by (bit_vector);
    tens * 10 + ones
}

fn pack_bcd(value: u8) -> (packed: u8)
    ensures
        packed == bcd_pack(value),
{
    ((value / 10) << 4) | (value % 10)
}

fn read_hour(register: u8) -> (hour: u8)
    ensures
        hour == hour_value(register),
{
    if register & TWELVE_HOUR_BIT != 0 {
        let hour: u8 = read_bcd(register, HOURS_12_TENS_MASK);
        assert(bcd_value(register, HOURS_12_TENS_MASK) <= 25) by (bit_vector);
        let pm = register & PM_BIT != 0;
        if pm && hour != 12 {
            hour + 12
        } else if !pm && hour == 12 {
            0
        } else {
            hour
        }
    } else {
        read_bcd(register, HOURS_24_TENS_MASK)
    }
}

/// Reads the timestamp out of the seven registers from seconds to year.
///
/// The hour comes out on the 24-hour clock whichever mode the chip counts in.
/// Digits that name no moment of the calendar (month 0, the 31st of
/// February, minute 75) are an error: the chip was never set, or lost power.
pub fn decode_time(image: &[u8; 7]) -> (decoded: Result<CalendarTimestamp, CodecError>)
    ensures
        decoded_fields(image@).is_valid() ==> (decoded matches Ok(t) && t@ == decoded_fields(
            image@,
        )),
        !decoded_fields(image@).is_valid() ==> decoded == Err::<CalendarTimestamp, CodecError>(
            CodecError::InvalidCalendarData,
        ),
{
    let second: u8 = read_bcd(image[0], SECONDS_TENS_MASK);
    let minute: u8 = read_bcd(image[1], MINUTES_TENS_MASK);
    let hour: u8 = read_hour(image[2]);
    let day: u8 = read_bcd(image[4], DAY_TENS_MASK);
    let month: u8 = read_bcd(image[5], MONTH_TENS_MASK);
    let year_digits: u8 = read_bcd(image[6], YEAR_TENS_MASK);
    let year: i32 = year_digits as i32 + CENTURY;
    match CalendarTimestamp::new(year, month, day, hour, minute, second) {
        Some(t) => Ok(t),
        None => Err(CodecError::InvalidCalendarData),
    }
}

/// Builds the frame that sets the clock to `timestamp`, given what the seven
/// registers from seconds to year hold now.
///
/// The frame always puts the chip on the 24-hour clock. It keeps the
/// oscillator-enable bit, the top bit of minutes and hours, the top two bits
/// of day and month, and the whole weekday register. A year that two digits
/// cannot hold is an error.
pub fn encode_time(timestamp: &CalendarTimestamp, current: &[u8; 7]) -> (encoded: Result<
    [u8; 8],
    CodecError,
>)
    ensures
        year_in_range(timestamp@.year) ==> (encoded matches Ok(frame) && frame@ == time_frame(
            timestamp@,
            current@,
        )),
        !year_in_range(timestamp@.year) ==> encoded == Err::<[u8; 8], CodecError>(
            CodecError::YearOutOfRange,
        ),
{
    let year: i32 = timestamp.year();
    if year < CENTURY || year > LAST_YEAR {
        return Err(CodecError::YearOutOfRange);
    }
    let year_digits: u8 = (year - CENTURY) as u8;
    let frame: [u8; 8] = [
        REG_SECONDS,
        (current[0] & SECONDS_KEPT_MASK) | pack_bcd(timestamp.second()),
        (current[1] & MINUTES_KEPT_MASK) | pack_bcd(timestamp.minute()),
        (current[2] & HOURS_KEPT_MASK) | pack_bcd(timestamp.hour()),
        current[3],
        (current[4] & DAY_KEPT_MASK) | pack_bcd(timestamp.day()),
        (current[5] & MONTH_KEPT_MASK) | pack_bcd(timestamp.month()),
        pack_bcd(year_digits),
    ];
    assert(frame@ =~= time_frame(timestamp@, current@));
    Ok(frame)
}

/// Builds the frame that applies `config`, given what the eight registers
/// from seconds to control hold now. Only the oscillator-enable bit and the
/// clock-source bit differ from what was there.
pub fn encode_clock_config(current: &[u8; 8], config: &ClockConfig) -> (frame: [u8; 9])
    ensures
        frame@ == config_frame(current@, *config),
{
    let seconds: u8 = if config.enabled {
        current[0] | OSCILLATOR_ENABLE_BIT
    } else {
        current[0] & !OSCILLATOR_ENABLE_BIT
    };
    let control: u8 = match config.clock_source {
        ClockSource::ExtClock => current[7] | EXTERNAL_CLOCK_BIT,
        ClockSource::ExtCrystal => current[7] & !EXTERNAL_CLOCK_BIT,
    };
    let frame: [u8; 9] = [
        REG_SECONDS,
        seconds,
        current[1],
        current[2],
        current[3],
        current[4],
        current[5],
        current[6],
        control,
    ];
    assert(frame@ =~= config_frame(current@, *config));
    frame
}

/// Whether the weekday register reports that the oscillator runs. Only the
/// chip sets this bit; asking the oscillator to start does not.
pub fn decode_oscillator_running(weekday_register: u8) -> (running: bool)
    ensures
        running == reports_running(weekday_register),
{
    weekday_register & OSCILLATOR_RUNNING_BIT != 0
}

/// The registers that a frame carries: all of it but the register number
/// that it begins with.
pub open spec fn frame_registers(frame: Seq<u8>) -> Seq<u8> {
    frame.skip(1)
}

proof fn lemma_sixty_under_one_flag(kept: u8, value: u8)
    by (bit_vector)
    requires
        value < 60,
    ensures
        bcd_value((kept & SECONDS_KEPT_MASK) | bcd_pack(value), SECONDS_TENS_MASK) == value,
        ((kept & SECONDS_KEPT_MASK) | bcd_pack(value)) & SECONDS_KEPT_MASK == kept
            & SECONDS_KEPT_MASK,
{
}

proof fn lemma_hour_under_one_flag(kept: u8, value: u8)
    by (bit_vector)
    requires
        value < 24,
    ensures
        bcd_value((kept & HOURS_KEPT_MASK) | bcd_pack(value), HOURS_24_TENS_MASK) == value,
        ((kept & HOURS_KEPT_MASK) | bcd_pack(value)) & TWELVE_HOUR_BIT == 0,
        ((kept & HOURS_KEPT_MASK) | bcd_pack(value)) & HOURS_KEPT_MASK == kept & HOURS_KEPT_MASK,
{
}

proof fn lemma_day_under_two_flags(kept: u8, value: u8)
    by (bit_vector)
    requires
        value < 32,
    ensures
        bcd_value((kept & DAY_KEPT_MASK) | bcd_pack(value), DAY_TENS_MASK) == value,
        ((kept & DAY_KEPT_MASK) | bcd_pack(value)) & DAY_KEPT_MASK == kept & DAY_KEPT_MASK,
{
}

proof fn lemma_month_under_two_flags(kept: u8, value: u8)
    by (bit_vector)
    requires
        value < 13,
    ensures
        bcd_value((kept & MONTH_KEPT_MASK) | bcd_pack(value), MONTH_TENS_MASK) == value,
        ((kept & MONTH_KEPT_MASK) | bcd_pack(value)) & MONTH_KEPT_MASK == kept & MONTH_KEPT_MASK,
{
}

proof fn lemma_two_digits(value: u8)
    by (bit_vector)
    requires
        value < 100,
    ensures
        bcd_value(bcd_pack(value), YEAR_TENS_MASK) == value,
{
}

proof fn lemma_one_bit(register: u8, bit: u8, set: bool)
    by (bit_vector)
    ensures
        (with_bit(register, bit, set) & bit != 0) == (set && bit != 0),
        with_bit(register, bit, set) & !bit == register & !bit,
{
}

/// Setting the clock and reading it back gives the timestamp that was set.
///
/// For every timestamp whose year the chip can hold, and whatever the
/// registers held before: the registers that the frame of `encode_time`
/// carries decode to that timestamp, field for field.
pub proof fn lemma_decode_inverts_encode(fields: CalendarFields, current: Seq<u8>)
    requires
        fields.is_valid(),
        year_in_range(fields.year),
        current.len() == 7,
    ensures
        decoded_fields(frame_registers(time_frame(fields, current))) == fields,
{
    lemma_sixty_under_one_flag(current[0], fields.second as u8);
    lemma_sixty_under_one_flag(current[1], fields.minute as u8);
    lemma_hour_under_one_flag(current[2], fields.hour as u8);
    lemma_day_under_two_flags(current[4], fields.day as u8);
    lemma_month_under_two_flags(current[5], fields.month as u8);
    lemma_two_digits((fields.year - CENTURY) as u8);
}

/// Setting the clock changes digits and nothing else.
///
/// For every timestamp whose year the chip can hold, and whatever the
/// registers held before: the frame of `encode_time` carries the
/// oscillator-enable bit, the top bit of minutes and hours, the top two bits
/// of day and month, and the whole weekday register, as they were; and it
/// selects the 24-hour clock.
pub proof fn lemma_encode_keeps_flags(fields: CalendarFields, current: Seq<u8>)
    requires
        fields.is_valid(),
        year_in_range(fields.year),
        current.len() == 7,
    ensures
        ({
            let registers = frame_registers(time_frame(fields, current));
            &&& registers.len() == 7
            &&& registers[0] & OSCILLATOR_ENABLE_BIT == current[0] & OSCILLATOR_ENABLE_BIT
            &&& registers[1] & MINUTES_KEPT_MASK == current[1] & MINUTES_KEPT_MASK
            &&& registers[2] & HOURS_KEPT_MASK == current[2] & HOURS_KEPT_MASK
            &&& registers[2] & TWELVE_HOUR_BIT == 0
            &&& registers[3] == current[3]
            &&& registers[4] & DAY_KEPT_MASK == current[4] & DAY_KEPT_MASK
            &&& registers[5] & MONTH_KEPT_MASK == current[5] & MONTH_KEPT_MASK
        }),
{
    lemma_sixty_under_one_flag(current[0], fields.second as u8);
    lemma_sixty_under_one_flag(current[1], fields.minute as u8);
    lemma_hour_under_one_flag(current[2], fields.hour as u8);
    lemma_day_under_two_flags(current[4], fields.day as u8);
    lemma_month_under_two_flags(current[5], fields.month as u8);
}

/// Configuring the clock changes two bits and nothing else.
///
/// Whatever the registers held before: in the frame of
/// `encode_clock_config` the oscillator-enable bit of the seconds register
/// and the clock-source bit of the control register are as the
/// configuration says, and every other bit of the eight registers is as it
/// was.
pub proof fn lemma_config_changes_two_bits(current: Seq<u8>, config: ClockConfig)
    requires
        current.len() == 8,
    ensures
        ({
            let registers = frame_registers(config_frame(current, config));
            &&& registers.len() == 8
            &&& (registers[0] & OSCILLATOR_ENABLE_BIT != 0) == config.enabled
            &&& registers[0] & !OSCILLATOR_ENABLE_BIT == current[0] & !OSCILLATOR_ENABLE_BIT
            &&& forall|i: int| 1 <= i < 7 ==> registers[i] == current[i]
            &&& (registers[7] & EXTERNAL_CLOCK_BIT != 0) == (config.clock_source is ExtClock)
            &&& registers[7] & !EXTERNAL_CLOCK_BIT == current[7] & !EXTERNAL_CLOCK_BIT
        }),
{
    lemma_one_bit(current[0], OSCILLATOR_ENABLE_BIT, config.enabled);
    lemma_one_bit(current[7], EXTERNAL_CLOCK_BIT, config.clock_source is ExtClock);
}

/// Whether the oscillator is reported running hangs on one bit of the
/// weekday register.
///
/// Two weekday registers that agree in the oscillator-running bit give the
/// same report, whatever their other bits.
pub proof fn lemma_running_hangs_on_one_bit(one: u8, other: u8)
    requires
        one & OSCILLATOR_RUNNING_BIT == other & OSCILLATOR_RUNNING_BIT,
    ensures
        reports_running(one) == reports_running(other),
{
}

/// Asking the oscillator to run or to stop does not change the report that
/// it runs.
///
/// Whatever the registers held before, and whatever is asked for: the frame
/// of `encode_clock_config` carries the weekday register as it was, and so
/// does the frame of `encode_time`. The report is the chip's alone to change.
pub proof fn lemma_requests_leave_the_report(
    current: Seq<u8>,
    config: ClockConfig,
    fields: CalendarFields,
)
    requires
        current.len() == 8,
    ensures
        reports_running(frame_registers(config_frame(current, config))[3]) == reports_running(
            current[3],
        ),
        reports_running(frame_registers(time_frame(fields, current.take(7)))[3])
            == reports_running(current[3]),
{
}

} // verus!

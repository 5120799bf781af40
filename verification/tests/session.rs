use mcp7940n::bus::Bus;
use mcp7940n::calendar::CalendarTimestamp;
use mcp7940n::codec::ClockConfig;
use mcp7940n::codec::ClockSource;
use mcp7940n::codec::CodecError;
use mcp7940n::driver::Error;
use mcp7940n::driver::Mcp7940n;
use mcp7940n::driver::DEVICE_ADDRESS;

/// What the bus was asked to do.
#[derive(Clone, Debug, PartialEq, Eq)]
enum Call {
    WriteRead { address: u8, request: Vec<u8>, len: usize },
    Write { address: u8, bytes: Vec<u8> },
}

#[derive(Clone, Copy, Debug, PartialEq, Eq)]
struct Nack(usize);

/// A chip in memory: sixteen registers and a register pointer, on a bus that
/// can be told to fail its n-th transaction.
struct Bank {
    registers: [u8; 16],
    calls: Vec<Call>,
    fails_at: Option<usize>,
}

impl Bank {
    fn new(registers: [u8; 16]) -> Bank {
        Bank { registers, calls: Vec::new(), fails_at: None }
    }

    fn failing_at(registers: [u8; 16], n: usize) -> Bank {
        Bank { registers, calls: Vec::new(), fails_at: Some(n) }
    }

    fn holding_time(image: [u8; 7]) -> Bank {
        let mut registers = [0u8; 16];
        registers[..7].copy_from_slice(&image);
        Bank::new(registers)
    }
}

impl Bus for Bank {
    type Error = Nack;

    fn write_read(&mut self, address: u8, request: &[u8], response: &mut [u8]) -> Result<(), Nack> {
        let n = self.calls.len();
        self.calls.push(Call::WriteRead { address, request: request.to_vec(), len: response.len() });
        if self.fails_at == Some(n) {
            return Err(Nack(n));
        }
        let first = request[0] as usize;
        for (i, slot) in response.iter_mut().enumerate() {
            *slot = self.registers[first + i];
        }
        Ok(())
    }

    fn write(&mut self, address: u8, bytes: &[u8]) -> Result<(), Nack> {
        let n = self.calls.len();
        self.calls.push(Call::Write { address, bytes: bytes.to_vec() });
        if self.fails_at == Some(n) {
            return Err(Nack(n));
        }
        let first = bytes[0] as usize;
        for (i, byte) in bytes[1..].iter().enumerate() {
            self.registers[first + i] = *byte;
        }
        Ok(())
    }
}

fn sentinel() -> [u8; 16] {
    let mut registers = [0u8; 16];
    for (i, r) in registers.iter_mut().enumerate() {
        *r = 0xA5 ^ ((i as u8) * 17);
    }
    registers
}

fn stamp(year: i32, month: u8, day: u8, hour: u8, minute: u8, second: u8) -> CalendarTimestamp {
    CalendarTimestamp::new(year, month, day, hour, minute, second).unwrap()
}

fn read_of(first: u8, len: usize) -> Call {
    Call::WriteRead { address: 0b110_1111, request: vec![first], len }
}

#[test]
fn the_chip_answers_at_its_fixed_address() {
    assert_eq!(DEVICE_ADDRESS, 0b110_1111);
    assert_eq!(DEVICE_ADDRESS, 0x6F);
}

#[test]
fn new_and_destroy_send_nothing() {
    let rtc = Mcp7940n::new(Bank::new(sentinel()));
    let bank = rtc.destroy();
    assert_eq!(bank.calls, vec![]);
    assert_eq!(bank.registers, sentinel());
}

#[test]
fn configure_enables_crystal_and_leaves_the_rest() {
    let mut registers = sentinel();
    registers[0] = 0x35;
    registers[7] = 0b1100_1011;
    let mut rtc = Mcp7940n::new(Bank::new(registers));
    let config = ClockConfig { enabled: true, clock_source: ClockSource::ExtCrystal };
    assert_eq!(rtc.configure_clock(&config), Ok(()));
    let bank = rtc.destroy();
    assert_eq!(bank.registers[0], 0xB5);
    assert_eq!(bank.registers[7], 0b1100_0011);
    for i in (1..7).chain(8..16) {
        assert_eq!(bank.registers[i], registers[i]);
    }
}

#[test]
fn configure_reads_eight_registers_then_writes_them_back() {
    let mut registers = sentinel();
    registers[0] = 0x35;
    registers[7] = 0x00;
    let mut rtc = Mcp7940n::new(Bank::new(registers));
    let config = ClockConfig { enabled: true, clock_source: ClockSource::ExtClock };
    assert_eq!(rtc.configure_clock(&config), Ok(()));
    let bank = rtc.destroy();
    let mut frame = vec![0x00, 0xB5];
    frame.extend_from_slice(&registers[1..7]);
    frame.push(0x08);
    assert_eq!(bank.calls, vec![read_of(0x00, 8), Call::Write { address: 0b110_1111, bytes: frame }]);
}

#[test]
fn configure_sets_and_clears_each_bit() {
    for enabled in [false, true] {
        for clock_source in [ClockSource::ExtCrystal, ClockSource::ExtClock] {
            for fill in [0x00u8, 0xFF, 0x5A] {
                let mut rtc = Mcp7940n::new(Bank::new([fill; 16]));
                assert_eq!(rtc.configure_clock(&ClockConfig { enabled, clock_source }), Ok(()));
                let bank = rtc.destroy();
                assert_eq!(bank.registers[0] & 0x80 != 0, enabled);
                assert_eq!(bank.registers[0] & 0x7F, fill & 0x7F);
                assert_eq!(bank.registers[7] & 0x08 != 0, clock_source == ClockSource::ExtClock);
                assert_eq!(bank.registers[7] & 0xF7, fill & 0xF7);
                for i in (1..7).chain(8..16) {
                    assert_eq!(bank.registers[i], fill);
                }
            }
        }
    }
}

#[test]
fn configure_stops_when_the_read_fails() {
    let mut rtc = Mcp7940n::new(Bank::failing_at(sentinel(), 0));
    let config = ClockConfig { enabled: true, clock_source: ClockSource::ExtClock };
    assert_eq!(rtc.configure_clock(&config), Err(Nack(0)));
    let bank = rtc.destroy();
    assert_eq!(bank.calls, vec![read_of(0x00, 8)]);
    assert_eq!(bank.registers, sentinel());
}

#[test]
fn configure_reports_a_failed_write() {
    let mut rtc = Mcp7940n::new(Bank::failing_at(sentinel(), 1));
    let config = ClockConfig { enabled: true, clock_source: ClockSource::ExtClock };
    assert_eq!(rtc.configure_clock(&config), Err(Nack(1)));
    let bank = rtc.destroy();
    assert_eq!(bank.calls.len(), 2);
    assert_eq!(bank.registers, sentinel());
}

#[test]
fn osc_running_reads_the_weekday_register_alone() {
    let mut registers = [0u8; 16];
    registers[3] = 0b0010_0000;
    let mut rtc = Mcp7940n::new(Bank::new(registers));
    assert_eq!(rtc.osc_running(), Ok(true));
    let bank = rtc.destroy();
    assert_eq!(bank.calls, vec![read_of(0x03, 1)]);
    assert_eq!(bank.registers, registers);
}

#[test]
fn osc_running_follows_bit_five_of_the_weekday_register() {
    for weekday in 0..=255u8 {
        let mut registers = sentinel();
        registers[3] = weekday;
        let mut rtc = Mcp7940n::new(Bank::new(registers));
        assert_eq!(rtc.osc_running(), Ok(weekday & 0b0010_0000 != 0));
    }
}

#[test]
fn osc_running_does_not_follow_the_enable_bit() {
    let mut enabled_not_running = [0u8; 16];
    enabled_not_running[0] = 0b1000_0000;
    let mut rtc = Mcp7940n::new(Bank::new(enabled_not_running));
    assert_eq!(rtc.osc_running(), Ok(false));

    let mut running_not_enabled = [0u8; 16];
    running_not_enabled[3] = 0b0010_0000;
    let mut rtc = Mcp7940n::new(Bank::new(running_not_enabled));
    assert_eq!(rtc.osc_running(), Ok(true));

    let mut both = [0xFFu8; 16];
    both[3] = 0b0010_0000;
    let mut rtc = Mcp7940n::new(Bank::new(both));
    assert_eq!(rtc.osc_running(), Ok(true));
    both[3] = 0b1101_1111;
    let mut rtc = Mcp7940n::new(Bank::new(both));
    assert_eq!(rtc.osc_running(), Ok(false));
}

#[test]
fn osc_running_is_the_same_before_and_after_enabling() {
    for weekday in [0x00u8, 0x20, 0x2B, 0x0B] {
        let mut registers = [0u8; 16];
        registers[3] = weekday;
        let mut rtc = Mcp7940n::new(Bank::new(registers));
        let before = rtc.osc_running();
        let config = ClockConfig { enabled: true, clock_source: ClockSource::ExtCrystal };
        assert_eq!(rtc.configure_clock(&config), Ok(()));
        assert_eq!(rtc.osc_running(), before);
        let config = ClockConfig { enabled: false, clock_source: ClockSource::ExtCrystal };
        assert_eq!(rtc.configure_clock(&config), Ok(()));
        assert_eq!(rtc.osc_running(), before);
        assert_eq!(before, Ok(weekday & 0x20 != 0));
    }
}

#[test]
fn osc_running_passes_the_bus_error_on() {
    let mut rtc = Mcp7940n::new(Bank::failing_at([0xFF; 16], 0));
    assert_eq!(rtc.osc_running(), Err(Nack(0)));
}

#[test]
fn now_reads_seven_registers_in_one_transaction() {
    let mut rtc = Mcp7940n::new(Bank::holding_time([0xD6, 0x34, 0x12, 0x2B, 0x28, 0x31, 0x23]));
    assert_eq!(rtc.now(), Ok(stamp(2023, 11, 28, 12, 34, 56)));
    let bank = rtc.destroy();
    assert_eq!(bank.calls, vec![read_of(0x00, 7)]);
}

#[test]
fn now_turns_the_twelve_hour_clock_into_twenty_four() {
    let cases = [(0b0111_0010u8, 12u8), (0b0101_0010, 0), (0b0110_0001, 13), (0b0101_0001, 11)];
    for (register, hour) in cases {
        let mut rtc = Mcp7940n::new(Bank::holding_time([0x00, 0x00, register, 0x00, 0x01, 0x01, 0x24]));
        assert_eq!(rtc.now(), Ok(stamp(2024, 1, 1, hour, 0, 0)));
    }
}

#[test]
fn now_reports_registers_that_hold_no_date() {
    let mut rtc = Mcp7940n::new(Bank::new([0u8; 16]));
    assert_eq!(rtc.now(), Err(Error::Codec(CodecError::InvalidCalendarData)));
    let mut rtc = Mcp7940n::new(Bank::holding_time([0x00, 0x00, 0x00, 0x00, 0x31, 0x02, 0x24]));
    assert_eq!(rtc.now(), Err(Error::Codec(CodecError::InvalidCalendarData)));
}

#[test]
fn now_passes_the_bus_error_on() {
    let mut rtc = Mcp7940n::new(Bank::failing_at([0u8; 16], 0));
    assert_eq!(rtc.now(), Err(Error::Transport(Nack(0))));
}

#[test]
fn set_datetime_reads_seven_registers_then_writes_them_back() {
    let registers = sentinel();
    let mut rtc = Mcp7940n::new(Bank::new(registers));
    assert_eq!(rtc.set_datetime(&stamp(2023, 11, 28, 12, 34, 56)), Ok(()));
    let bank = rtc.destroy();
    let frame = vec![
        0x00,
        (registers[0] & 0x80) | 0x56,
        (registers[1] & 0x80) | 0x34,
        (registers[2] & 0x80) | 0x12,
        registers[3],
        (registers[4] & 0xC0) | 0x28,
        (registers[5] & 0xC0) | 0x11,
        0x23,
    ];
    assert_eq!(bank.calls, vec![read_of(0x00, 7), Call::Write { address: 0b110_1111, bytes: frame }]);
}

#[test]
fn set_datetime_then_now_gives_the_timestamp_back() {
    for fill in [0x00u8, 0xFF, 0xA5, 0x5A] {
        for t in [
            stamp(2000, 1, 1, 0, 0, 0),
            stamp(2024, 2, 29, 23, 59, 59),
            stamp(2038, 1, 19, 3, 14, 7),
            stamp(2099, 12, 31, 12, 0, 0),
        ] {
            let mut rtc = Mcp7940n::new(Bank::new([fill; 16]));
            assert_eq!(rtc.set_datetime(&t), Ok(()));
            assert_eq!(rtc.now(), Ok(t));
        }
    }
}

#[test]
fn set_datetime_keeps_the_flags_and_the_weekday() {
    let mut registers = [0u8; 16];
    registers[0] = 0x80;
    registers[1] = 0x80;
    registers[2] = 0x80 | 0x40 | 0x20 | 0x11;
    registers[3] = 0b0010_1011;
    registers[4] = 0xC0;
    registers[5] = 0xC0;
    registers[6] = 0x77;
    registers[7] = 0x5A;
    let mut rtc = Mcp7940n::new(Bank::new(registers));
    assert_eq!(rtc.set_datetime(&stamp(2050, 10, 9, 8, 7, 6)), Ok(()));
    let bank = rtc.destroy();
    assert_eq!(bank.registers[0], 0x80 | 0x06);
    assert_eq!(bank.registers[1], 0x80 | 0x07);
    assert_eq!(bank.registers[2], 0x80 | 0x08);
    assert_eq!(bank.registers[3], 0b0010_1011);
    assert_eq!(bank.registers[4], 0xC0 | 0x09);
    assert_eq!(bank.registers[5], 0xC0 | 0x10);
    assert_eq!(bank.registers[6], 0x50);
    assert_eq!(bank.registers[7], 0x5A);
    for i in 8..16 {
        assert_eq!(bank.registers[i], 0x00);
    }
}

#[test]
fn set_datetime_refuses_year_1999_before_sending() {
    let mut rtc = Mcp7940n::new(Bank::new(sentinel()));
    let refused = rtc.set_datetime(&stamp(1999, 12, 31, 23, 59, 59));
    assert_eq!(refused, Err(Error::Codec(CodecError::YearOutOfRange)));
    let bank = rtc.destroy();
    assert_eq!(bank.calls, vec![]);
    assert_eq!(bank.registers, sentinel());
}

#[test]
fn set_datetime_refuses_year_2100_before_sending() {
    let mut rtc = Mcp7940n::new(Bank::new(sentinel()));
    let refused = rtc.set_datetime(&stamp(2100, 1, 1, 0, 0, 0));
    assert_eq!(refused, Err(Error::Codec(CodecError::YearOutOfRange)));
    let bank = rtc.destroy();
    assert_eq!(bank.calls, vec![]);
    assert_eq!(bank.registers, sentinel());
}

#[test]
fn set_datetime_stops_when_the_read_fails() {
    let mut rtc = Mcp7940n::new(Bank::failing_at(sentinel(), 0));
    let failed = rtc.set_datetime(&stamp(2024, 6, 15, 12, 0, 0));
    assert_eq!(failed, Err(Error::Transport(Nack(0))));
    let bank = rtc.destroy();
    assert_eq!(bank.calls, vec![read_of(0x00, 7)]);
    assert_eq!(bank.registers, sentinel());
}

#[test]
fn set_datetime_reports_a_failed_write() {
    let mut rtc = Mcp7940n::new(Bank::failing_at(sentinel(), 1));
    let failed = rtc.set_datetime(&stamp(2024, 6, 15, 12, 0, 0));
    assert_eq!(failed, Err(Error::Transport(Nack(1))));
    let bank = rtc.destroy();
    assert_eq!(bank.calls.len(), 2);
    assert_eq!(bank.registers, sentinel());
}

#[test]
fn a_session_goes_on_after_a_failure() {
    let mut registers = [0u8; 16];
    registers[3] = 0x20;
    let mut rtc = Mcp7940n::new(Bank::failing_at(registers, 0));
    assert_eq!(rtc.osc_running(), Err(Nack(0)));
    assert_eq!(rtc.osc_running(), Ok(true));
    assert_eq!(rtc.set_datetime(&stamp(2024, 6, 15, 12, 0, 0)), Ok(()));
    assert_eq!(rtc.now(), Ok(stamp(2024, 6, 15, 12, 0, 0)));
    assert_eq!(rtc.osc_running(), Ok(true));
}

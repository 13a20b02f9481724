use clock_firmware::countdowntimer::CountdownTimer;
use clock_firmware::displayinfo::{DisplayInfo, RTCField, TimeOfDay};
use clock_firmware::ds3231::{
    bcd_to_decimal, decimal_to_bcd, decode_time, encode_time, hours_to_decimal, write_frame,
    Register, I2C_ADDRESS, REGISTER_COUNT,
};
use clock_firmware::format::{format_string, format_time, format_u32, Error as FormatError};
use clock_firmware::i2c_async::timing::{i2c_init, BusTiming, DutyCycle, Mode};
use clock_firmware::lm75b::{raw_temperature, LM75B};
use clock_firmware::ssd1306::SSD1306;
use clock_firmware::stopwatchtimer::StopwatchTimer;

fn time(hours: u8, minutes: u8, seconds: u8) -> TimeOfDay {
    TimeOfDay { hours, minutes, seconds }
}

#[test]
fn bcd_to_decimal_reads_two_digits() {
    assert_eq!(bcd_to_decimal(0x00), 0);
    assert_eq!(bcd_to_decimal(0x09), 9);
    assert_eq!(bcd_to_decimal(0x10), 10);
    assert_eq!(bcd_to_decimal(0x59), 59);
    assert_eq!(bcd_to_decimal(0x99), 99);
    assert_eq!(bcd_to_decimal(0xFF), 165);
}

#[test]
fn decimal_to_bcd_writes_two_digits() {
    assert_eq!(decimal_to_bcd(0), 0x00);
    assert_eq!(decimal_to_bcd(9), 0x09);
    assert_eq!(decimal_to_bcd(10), 0x10);
    assert_eq!(decimal_to_bcd(59), 0x59);
    assert_eq!(decimal_to_bcd(99), 0x99);
    // Past 99 the tens do not fit.
    assert_eq!(decimal_to_bcd(100), 0xA0);
    assert_eq!(decimal_to_bcd(255), 0x95);
}

#[test]
fn bcd_round_trip_below_one_hundred() {
    for d in 0..100u8 {
        assert_eq!(bcd_to_decimal(decimal_to_bcd(d)), d);
    }
}

#[test]
fn hours_in_both_formats() {
    assert_eq!(hours_to_decimal(0x00), 0);
    assert_eq!(hours_to_decimal(0x12), 12);
    assert_eq!(hours_to_decimal(0x23), 23);
    // 12-hour format: morning, then afternoon.
    assert_eq!(hours_to_decimal(0x49), 9);
    assert_eq!(hours_to_decimal(0x52), 12);
    assert_eq!(hours_to_decimal(0x71), 23);
    assert_eq!(hours_to_decimal(0x72), 24);
    for hours in 0..24u8 {
        assert_eq!(hours_to_decimal(decimal_to_bcd(hours)), hours);
    }
}

#[test]
fn registers_to_time_and_back() {
    assert_eq!(I2C_ADDRESS, 0x68);
    assert_eq!(REGISTER_COUNT, 7);
    assert_eq!(Register::Seconds.index(), 0);
    assert_eq!(Register::Minutes.index(), 1);
    assert_eq!(Register::Hours.index(), 2);
    let decoded = decode_time(&[0x56, 0x34, 0x12, 0x03, 0x28, 0x10, 0x26]);
    assert_eq!(decoded, time(12, 34, 56));
    assert_eq!(encode_time(time(23, 59, 58)), [0x58, 0x59, 0x23, 0, 0, 0, 0]);
    assert_eq!(decode_time(&encode_time(time(7, 5, 9))), time(7, 5, 9));
    assert_eq!(
        write_frame(&[0x58, 0x59, 0x23, 1, 2, 3, 4]),
        [0, 0x58, 0x59, 0x23, 1, 2, 3, 4]
    );
}

#[test]
fn sensor_address_follows_its_pins() {
    assert_eq!(LM75B::new([false, false, false]).address(), 0x48);
    assert_eq!(LM75B::new([true, false, false]).address(), 0x49);
    assert_eq!(LM75B::new([false, true, false]).address(), 0x4A);
    assert_eq!(LM75B::new([false, false, true]).address(), 0x4C);
    assert_eq!(LM75B::new([true, true, true]).address(), 0x4F);
}

#[test]
fn raw_temperature_is_eleven_signed_bits() {
    assert_eq!(raw_temperature([0x19, 0x00]), 200);
    assert_eq!(raw_temperature([0xE7, 0x00]), -200);
    assert_eq!(raw_temperature([0x00, 0x00]), 0);
    assert_eq!(raw_temperature([0x00, 0x1F]), 0);
    assert_eq!(raw_temperature([0x00, 0x20]), 1);
    assert_eq!(raw_temperature([0x7F, 0xE0]), 1023);
    assert_eq!(raw_temperature([0x80, 0x00]), -1024);
    assert_eq!(raw_temperature([0xFF, 0xFF]), -1);
    assert_eq!(raw_temperature([0xFF, 0xE0]), -1);
    assert_eq!(raw_temperature([0xFF, 0xDF]), -2);
}

#[test]
fn sensor_window_fills_up_and_goes_round() {
    let mut sensor = LM75B::new([false, false, false]);
    assert_eq!(sensor.samples(), 0);
    for place in 0..9 {
        assert_eq!(sensor.temperature([0x19, 0x00]), (200, place));
        assert_eq!(sensor.samples(), place + 1);
    }
    assert_eq!(sensor.temperature([0x19, 0x20]), (201, 9));
    assert_eq!(sensor.samples(), 10);
    assert_eq!(sensor.temperature([0xE7, 0x00]), (-200, 0));
    assert_eq!(sensor.samples(), 10);
    assert_eq!(sensor.temperature([0x00, 0x00]), (0, 1));
    assert_eq!(sensor.address(), 0x48);
}

#[test]
fn picture_starts_as_control_bytes() {
    let mut display = SSD1306::new();
    let frame = display.send_image();
    assert_eq!(frame.len(), 1025);
    assert!(frame.iter().all(|byte| *byte == 0x40));
}

#[test]
fn dot_sets_and_clears_one_bit() {
    let mut display = SSD1306::new();
    display.clear(false);
    display.dot(5, 10, true);
    display.dot(127, 63, true);
    display.dot(0, 0, true);
    display.dot(0, 7, true);
    {
        let frame = display.send_image();
        assert_eq!(frame[0], 0x40);
        assert_eq!(frame[134], 0x04);
        assert_eq!(frame[1024], 0x80);
        assert_eq!(frame[1], 0x81);
        let lit: usize = frame[1..].iter().map(|byte| byte.count_ones() as usize).sum();
        assert_eq!(lit, 4);
    }
    display.dot(0, 0, false);
    display.dot(5, 10, false);
    display.dot(6, 10, false);
    let frame = display.send_image();
    assert_eq!(frame[1], 0x80);
    assert_eq!(frame[134], 0x00);
    assert_eq!(frame[135], 0x00);
    assert_eq!(frame[1024], 0x80);
}

#[test]
fn clear_fills_all_but_the_control_byte() {
    let mut display = SSD1306::new();
    display.clear(true);
    {
        let frame = display.send_image();
        assert_eq!(frame[0], 0x40);
        assert!(frame[1..].iter().all(|byte| *byte == 0xFF));
    }
    display.dot(3, 17, false);
    {
        let frame = display.send_image();
        assert_eq!(frame[2 * 128 + 3 + 1], 0xFD);
    }
    display.clear(false);
    let frame = display.send_image();
    assert_eq!(frame[0], 0x40);
    assert!(frame[1..].iter().all(|byte| *byte == 0));
}

#[test]
fn display_command_lists() {
    let init = SSD1306::init_commands();
    assert_eq!(init.len(), 28);
    assert_eq!(init[0], 0xAE);
    assert_eq!(init[9], 0xCF);
    assert_eq!(init[27], 0xAF);
    assert_eq!(SSD1306::reset_position_commands(), vec![0x21, 0, 127, 0x22, 0, 7]);
    assert_eq!(SSD1306::command_frame(0xAE), [0x00, 0xAE]);
}

#[test]
fn countdown_runs_down_and_then_buzzes() {
    let mut timer = CountdownTimer::new();
    assert!(!timer.started());
    assert_eq!(timer.countdown(), 0);
    assert!(!timer.handle_it());
    timer.start(2);
    assert!(timer.started());
    assert_eq!(timer.countdown(), 2);
    assert!(!timer.handle_it());
    assert_eq!(timer.countdown(), 1);
    assert!(!timer.handle_it());
    assert_eq!(timer.countdown(), 0);
    assert!(timer.handle_it());
    assert!(timer.handle_it());
    assert_eq!(timer.countdown(), 0);
    assert!(timer.started());
    timer.stop();
    assert!(!timer.started());
    assert!(!timer.handle_it());
}

#[test]
fn stopwatch_counts_while_it_runs() {
    let mut watch = StopwatchTimer::new();
    watch.increment();
    assert_eq!(watch.elapsed(), 0);
    watch.start();
    assert!(watch.started());
    watch.increment();
    watch.increment();
    assert_eq!(watch.elapsed(), 200);
    watch.pause();
    watch.increment();
    assert_eq!(watch.elapsed(), 200);
    assert!(!watch.started());
    watch.start();
    watch.increment();
    assert_eq!(watch.elapsed(), 300);
    watch.stop();
    assert_eq!(watch.elapsed(), 0);
    assert!(!watch.started());
}

#[test]
fn stopwatch_starts_over_past_the_largest_count() {
    let mut watch = StopwatchTimer::new();
    watch.start();
    for _ in 0..42_949_672u32 {
        watch.increment();
    }
    assert_eq!(watch.elapsed(), 4_294_967_200);
    watch.increment();
    assert_eq!(watch.elapsed(), 4);
}

#[test]
fn time_of_day_goes_round_the_clock() {
    assert!(time(23, 59, 59).valid());
    assert!(!time(24, 0, 0).valid());
    assert!(!time(0, 60, 0).valid());
    assert!(!time(0, 0, 60).valid());
    assert_eq!(TimeOfDay::midnight(), time(0, 0, 0));
    assert_eq!(time(12, 34, 56).later(1), time(12, 34, 57));
    assert_eq!(time(23, 59, 59).later(1), time(0, 0, 0));
    assert_eq!(time(23, 30, 0).later(3600), time(0, 30, 0));
    assert_eq!(time(1, 2, 3).later(86400), time(1, 2, 3));
    assert_eq!(time(1, 2, 3).later(4_294_967_295), time(7, 30, 18));
    assert_eq!(time(0, 0, 0).earlier(1), time(23, 59, 59));
    assert_eq!(time(0, 30, 0).earlier(3600), time(23, 30, 0));
    assert_eq!(time(12, 0, 0).earlier(60), time(11, 59, 0));
    assert_eq!(time(1, 2, 3).earlier(86400 * 3), time(1, 2, 3));
    assert_eq!(time(12, 34, 56).reset_seconds(), time(12, 34, 0));
}

#[test]
fn display_info_edits_the_chosen_field() {
    let mut info = DisplayInfo::from_datetime(&time(22, 58, 30));
    assert_eq!(*info.datetime(), time(22, 58, 30));
    assert_eq!(info.field(), RTCField::Hours);
    info.add_time(3);
    assert_eq!(*info.datetime(), time(1, 58, 30));
    info.next_field();
    assert_eq!(info.field(), RTCField::Minutes);
    info.add_time(5);
    assert_eq!(*info.datetime(), time(2, 3, 30));
    info.sub_time(4);
    assert_eq!(*info.datetime(), time(1, 59, 30));
    info.prev_field();
    assert_eq!(info.field(), RTCField::Hours);
    info.sub_time(2);
    assert_eq!(*info.datetime(), time(23, 59, 30));
    info.tick();
    assert_eq!(*info.datetime(), time(23, 59, 31));
    assert_eq!(*info.reset_seconds(), time(23, 59, 0));
    assert_eq!(*info.datetime(), time(23, 59, 0));
}

#[test]
fn field_of_two_alternates() {
    let mut field = RTCField::default();
    assert_eq!(field, RTCField::Hours);
    field.next();
    assert_eq!(field, RTCField::Minutes);
    field.next();
    assert_eq!(field, RTCField::Hours);
    field.prev();
    assert_eq!(field, RTCField::Minutes);
    field.prev();
    assert_eq!(field, RTCField::Hours);
}

#[test]
fn numbers_as_text() {
    let mut buffer = [b'.'; 12];
    assert_eq!(format_u32(&mut buffer, 0), Ok(1));
    assert_eq!(&buffer, b"0...........");
    assert_eq!(format_u32(&mut buffer, 4_294_967_295), Ok(10));
    assert_eq!(&buffer, b"4294967295..");
    assert_eq!(format_u32(&mut buffer, 1050), Ok(4));
    assert_eq!(&buffer, b"1050967295..");
}

#[test]
fn text_that_does_not_fit_is_cut_and_refused() {
    let mut buffer = [b'.'; 3];
    assert_eq!(format_u32(&mut buffer, 12345), Err(FormatError));
    assert_eq!(&buffer, b"123");
    assert_eq!(format_u32(&mut buffer, 987), Ok(3));
    assert_eq!(&buffer, b"987");
    let mut nothing: [u8; 0] = [];
    assert_eq!(format_string(&mut nothing, b""), Ok(0));
    assert_eq!(format_string(&mut nothing, b"a"), Err(FormatError));
    let mut buffer = [b'.'; 5];
    assert_eq!(format_string(&mut buffer, b"ab"), Ok(2));
    assert_eq!(&buffer, b"ab...");
}

#[test]
fn time_as_text() {
    let mut buffer = [b'.'; 10];
    assert_eq!(format_time(&mut buffer, &time(7, 5, 9)), Ok(8));
    assert_eq!(&buffer, b"07:05:09..");
    assert_eq!(format_time(&mut buffer, &time(23, 59, 0)), Ok(8));
    assert_eq!(&buffer, b"23:59:00..");
    let mut short = [b'.'; 7];
    assert_eq!(format_time(&mut short, &time(12, 34, 56)), Err(FormatError));
    assert_eq!(&short, b"12:34:5");
    let mut wide = [b'.'; 12];
    assert_eq!(format_time(&mut wide, &time(200, 100, 7)), Ok(10));
    assert_eq!(&wide, b"200:100:07..");
}

#[test]
fn bus_timing_for_common_speeds() {
    assert_eq!(
        i2c_init(Mode::Standard { frequency: 100_000 }, 42_000_000),
        BusTiming { freq: 42, trise: 43, f_s: false, duty: false, ccr: 210 }
    );
    assert_eq!(
        i2c_init(Mode::Fast { frequency: 400_000, duty_cycle: DutyCycle::Ratio2to1 }, 50_000_000),
        BusTiming { freq: 50, trise: 16, f_s: true, duty: false, ccr: 41 }
    );
    assert_eq!(
        i2c_init(Mode::Fast { frequency: 400_000, duty_cycle: DutyCycle::Ratio16to9 }, 48_000_000),
        BusTiming { freq: 48, trise: 15, f_s: true, duty: true, ccr: 4 }
    );
}

#[test]
fn bus_timing_at_its_limits() {
    // A bus faster than the clock allows gets the least value of its mode.
    assert_eq!(
        i2c_init(Mode::Standard { frequency: 10_000_000 }, 8_000_000),
        BusTiming { freq: 8, trise: 9, f_s: false, duty: false, ccr: 4 }
    );
    assert_eq!(
        i2c_init(Mode::Fast { frequency: 10_000_000, duty_cycle: DutyCycle::Ratio2to1 }, 2_000_000),
        BusTiming { freq: 2, trise: 1, f_s: true, duty: false, ccr: 1 }
    );
    // A value too large for sixteen bits loses its upper part.
    assert_eq!(
        i2c_init(Mode::Standard { frequency: 1 }, 2_000_000),
        BusTiming { freq: 2, trise: 3, f_s: false, duty: false, ccr: 16960 }
    );
    assert_eq!(
        i2c_init(Mode::Standard { frequency: 100_000 }, 50_999_999),
        BusTiming { freq: 50, trise: 51, f_s: false, duty: false, ccr: 254 }
    );
}

//! Tests of the device shell: register shadowing, the address/data port
//! model, the three intercepted timer registers, the status byte, reset,
//! statistics, and the sample accounting of `run`.

use opl3_shell::CoreWrite;
use opl3_shell::Opl3Device;
use opl3_shell::OplError;
use opl3_shell::OplRegisterFile;
use opl3_shell::device::quad_stream_frame_count;
use opl3_shell::device::sample_buffer_check;
use opl3_shell::device::stream_frame_count;

const RATE: u32 = 44100;

#[test]
fn shadow_round_trip_every_register_both_files() {
    let mut dev = Opl3Device::new(RATE);
    for reg in 0..=255u8 {
        dev.write_register(reg, reg.wrapping_mul(3), OplRegisterFile::Primary, false);
        dev.write_register(reg, reg.wrapping_add(7), OplRegisterFile::Secondary, false);
    }
    for reg in 0..=255u8 {
        assert_eq!(dev.read_register(reg, OplRegisterFile::Primary), reg.wrapping_mul(3));
        assert_eq!(dev.read_register(reg, OplRegisterFile::Secondary), reg.wrapping_add(7));
    }
}

#[test]
fn shadow_keeps_the_last_value_written() {
    let mut dev = Opl3Device::new(RATE);
    dev.write_register(0x20, 0x11, OplRegisterFile::Primary, false);
    dev.write_register(0x20, 0x22, OplRegisterFile::Primary, false);
    assert_eq!(dev.read_register(0x20, OplRegisterFile::Primary), 0x22);
    // The same address in the other file is untouched.
    assert_eq!(dev.read_register(0x20, OplRegisterFile::Secondary), 0);
}

#[test]
fn fresh_device_reads_zero_everywhere() {
    let dev = Opl3Device::new(RATE);
    for reg in 0..=255u8 {
        assert_eq!(dev.read_register(reg, OplRegisterFile::Primary), 0);
        assert_eq!(dev.read_register(reg, OplRegisterFile::Secondary), 0);
    }
    let stats = dev.stats();
    assert_eq!(stats.data_writes, 0);
    assert_eq!(stats.addr_writes, 0);
    assert_eq!(stats.status_reads, 0);
    assert_eq!(stats.samples_generated, 0);
}

#[test]
fn reset_clears_shadow_and_statistics() {
    let mut dev = Opl3Device::new(RATE);
    for reg in 0..=255u8 {
        dev.write_register(reg, 0xAB, OplRegisterFile::Primary, false);
        dev.write_register(reg, 0xCD, OplRegisterFile::Secondary, false);
    }
    assert!(dev.write_address(0x33, OplRegisterFile::Primary).is_ok());
    dev.read_status();
    dev.note_samples_generated(123);
    assert!(dev.reset(None).is_ok());
    for reg in 0..=255u8 {
        assert_eq!(dev.read_register(reg, OplRegisterFile::Primary), 0);
        assert_eq!(dev.read_register(reg, OplRegisterFile::Secondary), 0);
    }
    let stats = dev.stats();
    assert_eq!(stats.data_writes, 0);
    assert_eq!(stats.addr_writes, 0);
    assert_eq!(stats.status_reads, 0);
    assert_eq!(stats.samples_generated, 0);
}

#[test]
fn reset_adopts_a_new_sample_rate() {
    let mut dev = Opl3Device::new(RATE);
    assert!(dev.reset(Some(48000)).is_ok());
    assert_eq!(dev.sample_rate, 48000);
    // One second at the new rate is due after exactly one second.
    let samples = dev.run(1_000_000);
    assert_eq!(samples, 48000);
}

#[test]
fn reset_carries_the_timers_over() {
    let mut dev = Opl3Device::new(RATE);
    // Raise timer 1's flag: enable it, load 0xFF, and run one tick period.
    dev.write_register(0x04, 0x01, OplRegisterFile::Primary, false);
    dev.write_register(0x02, 0xFF, OplRegisterFile::Primary, false);
    dev.run(80);
    assert_ne!(dev.read_status() & 0x40, 0);
    assert!(dev.reset(None).is_ok());
    // The shell's reset clears registers and statistics, not timer state.
    assert_ne!(dev.read_status() & 0x40, 0);
}

#[test]
fn write_address_latches_per_file() {
    let mut dev = Opl3Device::new(RATE);
    assert!(dev.write_address(0x60, OplRegisterFile::Primary).is_ok());
    assert!(dev.write_address(0x61, OplRegisterFile::Secondary).is_ok());
    assert!(dev.write_data(0x12, OplRegisterFile::Primary, false).is_ok());
    assert!(dev.write_data(0x34, OplRegisterFile::Secondary, false).is_ok());
    assert_eq!(dev.read_register(0x60, OplRegisterFile::Primary), 0x12);
    assert_eq!(dev.read_register(0x61, OplRegisterFile::Secondary), 0x34);
    // Each file keeps its own latch until it is rewritten.
    assert!(dev.write_data(0x56, OplRegisterFile::Primary, false).is_ok());
    assert_eq!(dev.read_register(0x60, OplRegisterFile::Primary), 0x56);
}

#[test]
fn data_write_to_timer1_counter_register_loads_the_counter() {
    // Latching 0x02 and writing 0xFF sets timer 1's counter directly and
    // shadows the byte.
    let mut dev = Opl3Device::new(RATE);
    assert!(dev.write_address(0x02, OplRegisterFile::Primary).is_ok());
    let w = dev.write_data(0xFF, OplRegisterFile::Primary, false).unwrap();
    assert_eq!(dev.timer1.counter, 0xFF);
    assert_eq!(dev.read_register(0x02, OplRegisterFile::Primary), 0xFF);
    assert_eq!(
        w,
        CoreWrite { register: 0x002, value: 0xFF, buffered: false }
    );
}

#[test]
fn timer_counter_registers_only_intercept_in_the_primary_file() {
    let mut dev = Opl3Device::new(RATE);
    dev.write_register(0x02, 0x55, OplRegisterFile::Secondary, false);
    dev.write_register(0x03, 0x66, OplRegisterFile::Secondary, false);
    dev.write_register(0x04, 0x03, OplRegisterFile::Secondary, false);
    assert_eq!(dev.timer1.counter, 0);
    assert_eq!(dev.timer2.counter, 0);
    assert!(!dev.timer1.enabled);
    assert!(!dev.timer2.enabled);
    assert_eq!(dev.read_register(0x02, OplRegisterFile::Secondary), 0x55);
}

#[test]
fn timer2_counter_register_loads_timer2() {
    let mut dev = Opl3Device::new(RATE);
    dev.write_register(0x03, 0x9C, OplRegisterFile::Primary, false);
    assert_eq!(dev.timer2.counter, 0x9C);
    assert_eq!(dev.timer1.counter, 0);
}

#[test]
fn control_register_start_and_mask_bits() {
    let mut dev = Opl3Device::new(RATE);
    // Start timer 1 (bit 0).
    dev.write_register(0x04, 0x01, OplRegisterFile::Primary, false);
    assert!(dev.timer1.enabled);
    assert!(!dev.timer2.enabled);
    assert!(!dev.timer1.masked);
    // Start timer 2 (bit 1), stop timer 1, mask timer 1 (bit 6).
    dev.write_register(0x04, 0x42, OplRegisterFile::Primary, false);
    assert!(!dev.timer1.enabled);
    assert!(dev.timer2.enabled);
    assert!(dev.timer1.masked);
    assert!(!dev.timer2.masked);
    // Mask timer 2 (bit 5), clear everything else.
    dev.write_register(0x04, 0x20, OplRegisterFile::Primary, false);
    assert!(!dev.timer2.enabled);
    assert!(dev.timer2.masked);
    assert!(!dev.timer1.masked);
}

#[test]
fn control_acknowledge_clears_both_elapsed_flags() {
    let mut dev = Opl3Device::new(RATE);
    dev.timer1.elapsed = true;
    dev.timer2.elapsed = true;
    dev.timer1.enabled = true;
    // Bit 7 set: both flags clear, every other bit of the byte is ignored.
    dev.write_register(0x04, 0xFF, OplRegisterFile::Primary, false);
    assert!(!dev.timer1.elapsed);
    assert!(!dev.timer2.elapsed);
    // The mask and start bits of that byte were not applied.
    assert!(dev.timer1.enabled);
    assert!(!dev.timer1.masked);
    assert!(!dev.timer2.masked);
    assert_eq!(dev.read_status(), 0);
}

#[test]
fn start_then_stop_timer1_never_raises_elapsed() {
    // Address 0x04 latched, data 0x01 then 0x00: timer 1 turns on and off
    // again with no overflow in between.
    let mut dev = Opl3Device::new(RATE);
    assert!(dev.write_address(0x04, OplRegisterFile::Primary).is_ok());
    assert!(dev.write_data(0x01, OplRegisterFile::Primary, false).is_ok());
    assert!(dev.timer1.enabled);
    assert!(!dev.timer1.is_elapsed());
    assert_eq!(dev.read_status(), 0);
    assert!(dev.write_data(0x00, OplRegisterFile::Primary, false).is_ok());
    assert!(!dev.timer1.enabled);
    assert!(!dev.timer1.is_elapsed());
    assert_eq!(dev.read_status(), 0);
}

#[test]
fn status_byte_layout() {
    let mut dev = Opl3Device::new(RATE);
    assert_eq!(dev.read_status(), 0x00);
    dev.timer1.elapsed = true;
    assert_eq!(dev.read_status(), 0xC0);
    dev.timer1.elapsed = false;
    dev.timer2.elapsed = true;
    assert_eq!(dev.read_status(), 0xA0);
    dev.timer1.elapsed = true;
    assert_eq!(dev.read_status(), 0xE0);
}

#[test]
fn status_respects_the_masks() {
    let mut dev = Opl3Device::new(RATE);
    dev.timer1.elapsed = true;
    dev.timer2.elapsed = true;
    // Mask timer 1: its bit and not timer 2's disappears.
    dev.write_register(0x04, 0x40, OplRegisterFile::Primary, false);
    assert_eq!(dev.read_status(), 0xA0);
    // Mask both: the IRQ bit disappears too.
    dev.write_register(0x04, 0x60, OplRegisterFile::Primary, false);
    assert_eq!(dev.read_status(), 0x00);
    // Unmask without touching the flags: everything reappears.
    dev.write_register(0x04, 0x00, OplRegisterFile::Primary, false);
    assert_eq!(dev.read_status(), 0xE0);
}

#[test]
fn run_ticks_the_timers_at_their_rates() {
    let mut dev = Opl3Device::new(RATE);
    // Enable both timers and load both counters with 0xFF.
    dev.write_register(0x04, 0x03, OplRegisterFile::Primary, false);
    dev.write_register(0x02, 0xFF, OplRegisterFile::Primary, false);
    dev.write_register(0x03, 0xFF, OplRegisterFile::Primary, false);
    // 80 microseconds: timer 1 overflows, timer 2 (320 us a step) not yet.
    dev.run(80);
    assert!(dev.timer1.elapsed);
    assert!(!dev.timer2.elapsed);
    // 240 more microseconds complete timer 2's first step.
    dev.run(240);
    assert!(dev.timer2.elapsed);
    assert_eq!(dev.read_status(), 0xE0);
}

#[test]
fn run_accumulates_sub_tick_microseconds() {
    let mut dev = Opl3Device::new(RATE);
    dev.write_register(0x04, 0x01, OplRegisterFile::Primary, false);
    dev.write_register(0x02, 0xFF, OplRegisterFile::Primary, false);
    dev.run(79);
    assert!(!dev.timer1.elapsed);
    assert_eq!(dev.usec_accumulator, 79);
    dev.run(1);
    assert!(dev.timer1.elapsed);
    assert_eq!(dev.usec_accumulator, 0);
}

#[test]
fn run_reports_whole_samples_and_carries_the_fraction() {
    let mut dev = Opl3Device::new(RATE);
    // 100 microseconds at 44100 Hz are 4.41 samples.
    assert_eq!(dev.run(100), 4);
    assert_eq!(dev.samples_fpart, 410_000);
    assert_eq!(dev.run(100), 4);
    // The carried 0.82 sample tips the third call over to 5.
    assert_eq!(dev.run(100), 5);
}

#[test]
fn run_over_one_second_returns_exactly_the_sample_rate() {
    let mut dev = Opl3Device::new(RATE);
    let mut total: usize = 0;
    let mut spent: u64 = 0;
    // Irregular small increments summing to exactly one second.
    let pattern: [u64; 7] = [3, 97, 113, 640, 1009, 77, 4061];
    let mut i: usize = 0;
    while spent < 1_000_000 {
        let mut step: u64 = pattern[i % 7];
        if spent + step > 1_000_000 {
            step = 1_000_000 - spent;
        }
        total += dev.run(step);
        spent += step;
        i += 1;
    }
    assert_eq!(total, RATE as usize);
    assert_eq!(dev.samples_fpart, 0);
    // A second second, in different pieces, adds the rate again.
    let mut total2: usize = 0;
    let mut spent2: u64 = 0;
    while spent2 < 1_000_000 {
        let step: u64 = (1_000_000 - spent2).min(1234);
        total2 += dev.run(step);
        spent2 += step;
    }
    assert_eq!(total2, RATE as usize);
}

#[test]
fn statistics_count_every_operation() {
    let mut dev = Opl3Device::new(RATE);
    dev.write_register(0x20, 0x01, OplRegisterFile::Primary, false);
    assert!(dev.write_address(0x21, OplRegisterFile::Primary).is_ok());
    assert!(dev.write_data(0x02, OplRegisterFile::Primary, true).is_ok());
    dev.read_status();
    dev.read_status();
    dev.read_status();
    dev.note_samples_generated(16);
    dev.note_samples_generated(4);
    let stats = dev.stats();
    assert_eq!(stats.data_writes, 2);
    assert_eq!(stats.status_reads, 3);
    assert_eq!(stats.addr_writes, 1);
    assert_eq!(stats.samples_generated, 20);
}

#[test]
fn address_writes_count_for_both_files() {
    let mut dev = Opl3Device::new(RATE);
    assert!(dev.write_address(0x02, OplRegisterFile::Primary).is_ok());
    assert!(dev.write_address(0x02, OplRegisterFile::Primary).is_ok());
    assert!(dev.write_address(0x05, OplRegisterFile::Secondary).is_ok());
    assert_eq!(dev.stats().addr_writes, 3);
    // Data writes are counted separately.
    assert_eq!(dev.stats().data_writes, 0);
}

#[test]
fn samples_generated_counter_saturates() {
    let mut dev = Opl3Device::new(RATE);
    dev.note_samples_generated(usize::MAX);
    dev.note_samples_generated(5);
    assert_eq!(dev.stats().samples_generated, usize::MAX);
}

#[test]
fn core_write_carries_the_nine_bit_register_index() {
    let mut dev = Opl3Device::new(RATE);
    let w1 = dev.write_register(0x20, 0xA5, OplRegisterFile::Primary, false);
    assert_eq!(w1, CoreWrite { register: 0x020, value: 0xA5, buffered: false });
    let w2 = dev.write_register(0x20, 0x5A, OplRegisterFile::Secondary, true);
    assert_eq!(w2, CoreWrite { register: 0x120, value: 0x5A, buffered: true });
    assert!(dev.write_address(0x05, OplRegisterFile::Secondary).is_ok());
    let w3 = dev.write_data(0x77, OplRegisterFile::Secondary, false).unwrap();
    assert_eq!(w3, CoreWrite { register: 0x105, value: 0x77, buffered: false });
}

#[test]
fn sample_buffer_check_accepts_and_rejects() {
    assert!(sample_buffer_check(2, 2).is_ok());
    assert!(sample_buffer_check(8, 2).is_ok());
    assert_eq!(sample_buffer_check(1, 2), Err(OplError::BufferUndersized));
    assert!(sample_buffer_check(4, 4).is_ok());
    assert_eq!(sample_buffer_check(3, 4), Err(OplError::BufferUndersized));
}

#[test]
fn stream_frame_count_halves_the_length() {
    assert_eq!(stream_frame_count(10), Ok(5));
    assert_eq!(stream_frame_count(2), Ok(1));
    assert_eq!(stream_frame_count(1), Err(OplError::BufferUndersized));
    assert_eq!(stream_frame_count(0), Err(OplError::BufferUndersized));
}

#[test]
fn quad_stream_frame_count_checks_shape() {
    assert_eq!(quad_stream_frame_count(8, 8), Ok(4));
    assert_eq!(quad_stream_frame_count(8, 6), Err(OplError::BufferMismatch));
    assert_eq!(quad_stream_frame_count(2, 2), Err(OplError::BufferUndersized));
}

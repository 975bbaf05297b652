//! The device shell: the register-file addressing model, the two hardware
//! timers, the emulated status register, and the accounting that turns
//! elapsed wall time into timer ticks and due sample frames.
//!
//! The shell does not generate audio itself. Every register write is also
//! handed back to the caller as a [`CoreWrite`], the exact write the
//! external synthesis core must receive; the caller owns that core and
//! forwards the write, immediately or buffered.

use vstd::prelude::*;
use vstd::arithmetic::div_mod::lemma_fundamental_div_mod;
use vstd::arithmetic::div_mod::lemma_fundamental_div_mod_converse_div;
use vstd::arithmetic::div_mod::lemma_fundamental_div_mod_converse_mod;
use vstd::arithmetic::div_mod::lemma_div_pos_is_pos;
use vstd::arithmetic::div_mod::lemma_mod_bound;
use vstd::arithmetic::mul::lemma_mul_upper_bound;
use crate::OplError;
use crate::OplRegisterFile;
use crate::shadow::RegisterShadow;
use crate::shadow::zero_regs;
use crate::timer::OplTimer;
use crate::timer::lemma_tick_additive;

verus! {

/// Address of the timer-1 count register in the primary file.
pub const OPL_TIMER_1_REGISTER: u8 = 0x02;

/// Address of the timer-2 count register in the primary file.
pub const OPL_TIMER_2_REGISTER: u8 = 0x03;

/// Address of the timer control register in the primary file.
pub const OPL_TIMER_CONTROL_REGISTER: u8 = 0x04;

/// Status bit 7: the combined interrupt flag, and in a control write the
/// acknowledge bit.
pub const OPL_IRQ_FLAG: u8 = 0x80;

/// Status bit 6: timer-1 elapsed; in a control write, the timer-1 mask bit.
pub const OPL_TIMER_1_MASK: u8 = 0x40;

/// Status bit 5: timer-2 elapsed; in a control write, the timer-2 mask bit.
pub const OPL_TIMER_2_MASK: u8 = 0x20;

/// Control bit 0: start (enable) timer 1.
pub const OPL_TIMER_1_START: u8 = 0x01;

/// Control bit 1: start (enable) timer 2.
pub const OPL_TIMER_2_START: u8 = 0x02;

/// The device advances its timers in fixed steps of this many microseconds.
pub const OPL_TICK_RATE: u64 = 80;

/// Timer 1 counts once every 80 microseconds.
pub const OPL_TIMER_1_RATE: u32 = 80;

/// Timer 2 counts once every 320 microseconds.
pub const OPL_TIMER_2_RATE: u32 = 320;

/// Microseconds per second, the denominator of the sample accounting.
pub const USEC_PER_SECOND: u64 = 1_000_000;

/// Counters of the operations performed on the device since the last reset.
#[derive(Debug, Clone, Copy, PartialEq, Eq, Structural, Default)]
pub struct Opl3DeviceStats {
    /// Writes to the data register since reset.
    pub data_writes: usize,
    /// Writes to the address register since reset.
    pub addr_writes: usize,
    /// Reads of the status register since reset.
    pub status_reads: usize,
    /// Sample frames generated since reset; one stereo pair is one sample.
    pub samples_generated: usize,
}

/// A register write, as the external synthesis core must receive it: a
/// 9-bit register index (bit 8 set for the secondary file), the byte
/// written, and whether the core should buffer the write behind the chip's
/// settling delay or apply it immediately.
#[derive(Debug, Clone, Copy, PartialEq, Eq, Structural)]
pub struct CoreWrite {
    /// The combined 9-bit register index.
    pub register: u16,
    /// The byte written.
    pub value: u8,
    /// Whether the core should delay the write as real hardware would.
    pub buffered: bool,
}

/// The abstract state of the device shell: both register banks as byte
/// sequences, the two timers, the address latches, and the accounting
/// state.
pub struct DeviceView {
    /// The latched address of the primary file.
    pub addr_primary: u8,
    /// The latched address of the secondary file.
    pub addr_secondary: u8,
    /// Sample frames per second of generated audio.
    pub sample_rate: u32,
    /// The shadowed contents of the primary register bank.
    pub regs_primary: Seq<u8>,
    /// The shadowed contents of the secondary register bank.
    pub regs_secondary: Seq<u8>,
    /// The 80-microsecond timer.
    pub timer1: OplTimer,
    /// The 320-microsecond timer.
    pub timer2: OplTimer,
    /// Operation counters since the last reset.
    pub stats: Opl3DeviceStats,
    /// Numerator, out of one million, of the fractional sample carried to
    /// the next `run` call.
    pub samples_fpart: u64,
    /// Microseconds absorbed by `run` that did not yet amount to a full
    /// 80-microsecond device tick.
    pub usec_accumulator: u64,
}

/// A counter bumped by one, except that it pins at its maximum instead of
/// wrapping.
pub open spec fn sat_inc(x: usize) -> usize {
    if x == usize::MAX {
        x
    } else {
        (x + 1) as usize
    }
}

/// A counter raised by `n`, pinning at its maximum instead of wrapping.
pub open spec fn sat_add(x: usize, n: usize) -> usize {
    if x + n > usize::MAX {
        usize::MAX
    } else {
        (x + n) as usize
    }
}

/// Statistics with every counter zero, the post-reset state.
pub open spec fn spec_zero_stats() -> Opl3DeviceStats {
    Opl3DeviceStats { data_writes: 0, addr_writes: 0, status_reads: 0, samples_generated: 0 }
}

impl DeviceView {
    /// Well-formed: full 256-entry banks, the two timers at their hardware
    /// rates, and both fractional accumulators below their denominators.
    pub open spec fn wf(self) -> bool {
        &&& self.regs_primary.len() == 256
        &&& self.regs_secondary.len() == 256
        &&& self.timer1.wf()
        &&& self.timer1.rate == OPL_TIMER_1_RATE
        &&& self.timer2.wf()
        &&& self.timer2.rate == OPL_TIMER_2_RATE
        &&& self.samples_fpart < USEC_PER_SECOND
        &&& self.usec_accumulator < OPL_TICK_RATE
    }

    /// The shadowed contents of the selected register bank.
    pub open spec fn file_regs(self, file: OplRegisterFile) -> Seq<u8> {
        match file {
            OplRegisterFile::Primary => self.regs_primary,
            OplRegisterFile::Secondary => self.regs_secondary,
        }
    }

    /// The latched address of the selected register bank.
    pub open spec fn latched_addr(self, file: OplRegisterFile) -> u8 {
        match file {
            OplRegisterFile::Primary => self.addr_primary,
            OplRegisterFile::Secondary => self.addr_secondary,
        }
    }

    /// The shadowed value of one register.
    pub open spec fn spec_read_register(self, reg: u8, file: OplRegisterFile) -> u8 {
        self.file_regs(file)[reg as int]
    }

    /// The fresh device state: zeroed banks, latches, statistics and
    /// accumulators, and both timers stopped and unmasked at their rates.
    pub open spec fn spec_new(sample_rate: u32) -> DeviceView {
        DeviceView {
            addr_primary: 0,
            addr_secondary: 0,
            sample_rate,
            regs_primary: zero_regs(),
            regs_secondary: zero_regs(),
            timer1: OplTimer {
                enabled: false,
                masked: false,
                rate: OPL_TIMER_1_RATE,
                preset: 0,
                counter: 0,
                usec_accumulator: 0,
                elapsed: false,
            },
            timer2: OplTimer {
                enabled: false,
                masked: false,
                rate: OPL_TIMER_2_RATE,
                preset: 0,
                counter: 0,
                usec_accumulator: 0,
                elapsed: false,
            },
            stats: spec_zero_stats(),
            samples_fpart: 0,
            usec_accumulator: 0,
        }
    }

    /// The state after latching `addr` as the target of the next data
    /// write to `file`: the latch moves and the address-write counter
    /// bumps.
    pub open spec fn spec_write_address(self, addr: u8, file: OplRegisterFile) -> DeviceView {
        let stats = Opl3DeviceStats { addr_writes: sat_inc(self.stats.addr_writes), ..self.stats };
        match file {
            OplRegisterFile::Primary => DeviceView { addr_primary: addr, stats, ..self },
            OplRegisterFile::Secondary => DeviceView { addr_secondary: addr, stats, ..self },
        }
    }

    /// Both timers after a write of `value` to primary-file register `reg`:
    /// the two count registers load a counter directly, and the control
    /// register either acknowledges both overflow flags (when bit 7 is set,
    /// all other bits ignored) or applies the mask and start bits.
    pub open spec fn spec_timer_intercept(t1: OplTimer, t2: OplTimer, reg: u8, value: u8) -> (
        OplTimer,
        OplTimer,
    ) {
        if reg == OPL_TIMER_1_REGISTER {
            (t1.with_counter(value), t2)
        } else if reg == OPL_TIMER_2_REGISTER {
            (t1, t2.with_counter(value))
        } else if reg == OPL_TIMER_CONTROL_REGISTER {
            if value & OPL_IRQ_FLAG != 0 {
                (t1.spec_reset_elapsed(), t2.spec_reset_elapsed())
            } else {
                (
                    t1.spec_mask(value & OPL_TIMER_1_MASK != 0).spec_enable(
                        value & OPL_TIMER_1_START != 0,
                    ),
                    t2.spec_mask(value & OPL_TIMER_2_MASK != 0).spec_enable(
                        value & OPL_TIMER_2_START != 0,
                    ),
                )
            }
        } else {
            (t1, t2)
        }
    }

    /// The state after a register write: the shadow records the byte, a
    /// primary-file write to one of the three timer registers is
    /// intercepted, and the data-write counter bumps.
    pub open spec fn spec_write_register(self, reg: u8, value: u8, file: OplRegisterFile) -> DeviceView {
        let timers = match file {
            OplRegisterFile::Primary => DeviceView::spec_timer_intercept(
                self.timer1,
                self.timer2,
                reg,
                value,
            ),
            OplRegisterFile::Secondary => (self.timer1, self.timer2),
        };
        DeviceView {
            regs_primary: match file {
                OplRegisterFile::Primary => self.regs_primary.update(reg as int, value),
                OplRegisterFile::Secondary => self.regs_primary,
            },
            regs_secondary: match file {
                OplRegisterFile::Primary => self.regs_secondary,
                OplRegisterFile::Secondary => self.regs_secondary.update(reg as int, value),
            },
            timer1: timers.0,
            timer2: timers.1,
            stats: Opl3DeviceStats { data_writes: sat_inc(self.stats.data_writes), ..self.stats },
            ..self
        }
    }

    /// The write the external core must receive for a register write: the
    /// register index with bit 8 set — an addition of 0x100, since the
    /// index itself never exceeds 0xFF — for the secondary file.
    pub open spec fn spec_core_write(reg: u8, value: u8, file: OplRegisterFile, buffered: bool) -> CoreWrite {
        CoreWrite {
            register: match file {
                OplRegisterFile::Primary => reg as u16,
                OplRegisterFile::Secondary => (reg + 0x100) as u16,
            },
            value,
            buffered,
        }
    }

    /// The status byte: bit 6 for timer 1 elapsed, bit 5 for timer 2
    /// elapsed (each as seen through its mask), and bit 7 when either
    /// holds.
    pub open spec fn spec_status(self) -> u8 {
        ((if self.timer1.spec_is_elapsed() {
            OPL_TIMER_1_MASK
        } else {
            0
        }) + (if self.timer2.spec_is_elapsed() {
            OPL_TIMER_2_MASK
        } else {
            0
        }) + (if self.timer1.spec_is_elapsed() || self.timer2.spec_is_elapsed() {
            OPL_IRQ_FLAG
        } else {
            0
        })) as u8
    }

    /// The state after a status read: only the status-read counter moves.
    pub open spec fn spec_note_status_read(self) -> DeviceView {
        DeviceView {
            stats: Opl3DeviceStats { status_reads: sat_inc(self.stats.status_reads), ..self.stats },
            ..self
        }
    }

    /// The state after the caller reports `n` generated sample frames:
    /// only the samples-generated counter moves.
    pub open spec fn spec_note_samples_generated(self, n: usize) -> DeviceView {
        DeviceView {
            stats: Opl3DeviceStats {
                samples_generated: sat_add(self.stats.samples_generated, n),
                ..self.stats
            },
            ..self
        }
    }

    /// The sample frames due for `usec` elapsed microseconds: the whole
    /// part of the carried fraction plus `usec` seconds-worth of the sample
    /// rate.
    pub open spec fn spec_run_samples(self, usec: int) -> int {
        (self.samples_fpart + usec * self.sample_rate) / (USEC_PER_SECOND as int)
    }

    /// The state after absorbing `usec` elapsed microseconds: both timers
    /// tick once per full 80-microsecond device step now accumulated, and
    /// the fractional sample carry advances.
    pub open spec fn spec_run_state(self, usec: int) -> DeviceView {
        let total = self.usec_accumulator + usec;
        let ticks = total / (OPL_TICK_RATE as int);
        DeviceView {
            timer1: self.timer1.spec_tick(ticks * (OPL_TICK_RATE as int)),
            timer2: self.timer2.spec_tick(ticks * (OPL_TICK_RATE as int)),
            usec_accumulator: (total % (OPL_TICK_RATE as int)) as u64,
            samples_fpart: ((self.samples_fpart + usec * self.sample_rate) % (
            USEC_PER_SECOND as int)) as u64,
            ..self
        }
    }

    /// The state after a reset: banks and statistics cleared, the sample
    /// rate replaced when a new one is given, and everything else — the
    /// timers, latches and accumulators included — carried over unchanged.
    pub open spec fn spec_reset(self, sample_rate: Option<u32>) -> DeviceView {
        DeviceView {
            sample_rate: match sample_rate {
                Some(rate) => rate,
                None => self.sample_rate,
            },
            regs_primary: zero_regs(),
            regs_secondary: zero_regs(),
            stats: spec_zero_stats(),
            ..self
        }
    }
}

/// The device shell. It shadows every register written, emulates the two
/// timers and the status register, and accounts elapsed time into due
/// sample frames; the owning caller forwards each returned [`CoreWrite`] to
/// the external synthesis core.
pub struct Opl3Device {
    /// The latched address of the primary file.
    pub addr_primary: u8,
    /// The latched address of the secondary file.
    pub addr_secondary: u8,
    /// Sample frames per second of generated audio.
    pub sample_rate: u32,
    /// The shadow of both register banks.
    pub shadow: RegisterShadow,
    /// The 80-microsecond timer.
    pub timer1: OplTimer,
    /// The 320-microsecond timer.
    pub timer2: OplTimer,
    /// Operation counters since the last reset.
    pub stats: Opl3DeviceStats,
    /// Numerator, out of one million, of the fractional sample carry.
    pub samples_fpart: u64,
    /// Microseconds not yet amounting to a full device tick.
    pub usec_accumulator: u64,
}

impl View for Opl3Device {
    type V = DeviceView;

    open spec fn view(&self) -> DeviceView {
        DeviceView {
            addr_primary: self.addr_primary,
            addr_secondary: self.addr_secondary,
            sample_rate: self.sample_rate,
            regs_primary: self.shadow.primary@,
            regs_secondary: self.shadow.secondary@,
            timer1: self.timer1,
            timer2: self.timer2,
            stats: self.stats,
            samples_fpart: self.samples_fpart,
            usec_accumulator: self.usec_accumulator,
        }
    }
}

impl Opl3Device {
    /// Well-formed: the abstract state is.
    pub open spec fn wf(self) -> bool {
        self@.wf() && self.shadow.wf()
    }

    /// Create a fresh device shell for the given sample rate. The caller
    /// creates the external synthesis core at the same rate.
    pub fn new(sample_rate: u32) -> (device: Opl3Device)
        ensures
            device.wf(),
            device@ == DeviceView::spec_new(sample_rate),
    {
        let device = Opl3Device {
            addr_primary: 0,
            addr_secondary: 0,
            sample_rate,
            shadow: RegisterShadow::new(),
            timer1: OplTimer::new(OPL_TIMER_1_RATE),
            timer2: OplTimer::new(OPL_TIMER_2_RATE),
            stats: Opl3DeviceStats {
                data_writes: 0,
                addr_writes: 0,
                status_reads: 0,
                samples_generated: 0,
            },
            samples_fpart: 0,
            usec_accumulator: 0,
        };
        device
    }

    /// A snapshot of the operation counters.
    pub fn stats(&self) -> (stats: Opl3DeviceStats)
        ensures
            stats == self@.stats,
    {
        self.stats
    }

    /// Record that the external core generated `n` sample frames on the
    /// caller's behalf; generation itself happens outside the shell, so
    /// the caller reports it here to keep the statistics complete.
    pub fn note_samples_generated(&mut self, n: usize)
        ensures
            final(self)@ == old(self)@.spec_note_samples_generated(n),
            final(self).wf() == old(self).wf(),
    {
        self.stats.samples_generated = self.stats.samples_generated.saturating_add(n);
    }

    /// Latch `addr` as the register the next data write to `file`
    /// targets, and count the address write.
    pub fn write_address(&mut self, addr: u8, file: OplRegisterFile) -> (r: Result<(), OplError>)
        ensures
            final(self)@ == old(self)@.spec_write_address(addr, file),
            final(self).wf() == old(self).wf(),
            r is Ok,
    {
        match file {
            OplRegisterFile::Primary => {
                self.addr_primary = addr;
            },
            OplRegisterFile::Secondary => {
                self.addr_secondary = addr;
            },
        }
        self.stats.addr_writes = self.stats.addr_writes.saturating_add(1);
        Ok(())
    }

    /// The shadowed value of one register; the hardware registers are
    /// write-only, so this reads the last value written since reset.
    pub fn read_register(&self, reg: u8, file: OplRegisterFile) -> (value: u8)
        requires
            self.wf(),
        ensures
            value == self@.spec_read_register(reg, file),
    {
        self.shadow.read(file, reg)
    }

    /// Write `value` to register `reg` of `file`: shadow it, intercept the
    /// three timer registers of the primary file, count the write, and
    /// return the write the external core must receive.
    pub fn write_register(&mut self, reg: u8, value: u8, file: OplRegisterFile, buffered: bool) -> (w:
        CoreWrite)
        requires
            old(self).wf(),
        ensures
            final(self).wf(),
            final(self)@ == old(self)@.spec_write_register(reg, value, file),
            w == DeviceView::spec_core_write(reg, value, file, buffered),
    {
        let register: u16 = match file {
            OplRegisterFile::Primary => reg as u16,
            OplRegisterFile::Secondary => reg as u16 + 0x100,
        };
        self.shadow.write(file, reg, value);

        if let OplRegisterFile::Primary = file {
            if reg == OPL_TIMER_1_REGISTER {
                self.timer1.counter = value;
            } else if reg == OPL_TIMER_2_REGISTER {
                self.timer2.counter = value;
            } else if reg == OPL_TIMER_CONTROL_REGISTER {
                if value & OPL_IRQ_FLAG != 0 {
                    // The acknowledge bit clears both overflow flags and is
                    // exclusive of every other bit in the same write.
                    self.timer1.reset_elapsed();
                    self.timer2.reset_elapsed();
                } else {
                    self.timer1.mask(value & OPL_TIMER_1_MASK != 0);
                    self.timer2.mask(value & OPL_TIMER_2_MASK != 0);
                    self.timer1.enable(value & OPL_TIMER_1_START != 0);
                    self.timer2.enable(value & OPL_TIMER_2_START != 0);
                }
            }
        }

        self.stats.data_writes = self.stats.data_writes.saturating_add(1);
        CoreWrite { register, value, buffered }
    }

    /// Write `data` to the register currently latched for `file`.
    pub fn write_data(&mut self, data: u8, file: OplRegisterFile, buffered: bool) -> (r: Result<
        CoreWrite,
        OplError,
    >)
        requires
            old(self).wf(),
        ensures
            final(self).wf(),
            final(self)@ == old(self)@.spec_write_register(
                old(self)@.latched_addr(file),
                data,
                file,
            ),
            r == Ok::<CoreWrite, OplError>(
                DeviceView::spec_core_write(old(self)@.latched_addr(file), data, file, buffered),
            ),
    {
        let addr: u8 = match file {
            OplRegisterFile::Primary => self.addr_primary,
            OplRegisterFile::Secondary => self.addr_secondary,
        };
        Ok(self.write_register(addr, data, file, buffered))
    }

    /// Read the emulated status register: the two timer overflow flags as
    /// seen through their masks, and the combined interrupt bit.
    pub fn read_status(&mut self) -> (status: u8)
        ensures
            final(self)@ == old(self)@.spec_note_status_read(),
            final(self).wf() == old(self).wf(),
            status == old(self)@.spec_status(),
    {
        self.stats.status_reads = self.stats.status_reads.saturating_add(1);

        // The three status bits are disjoint, so addition assembles the byte.
        let timer1_elapsed = self.timer1.is_elapsed();
        let timer2_elapsed = self.timer2.is_elapsed();
        (if timer1_elapsed {
            OPL_TIMER_1_MASK
        } else {
            0
        }) + (if timer2_elapsed {
            OPL_TIMER_2_MASK
        } else {
            0
        }) + (if timer1_elapsed || timer2_elapsed {
            OPL_IRQ_FLAG
        } else {
            0
        })
    }

    /// Absorb `usec` elapsed microseconds: tick both timers once per full
    /// 80-microsecond device step now accumulated, and return the number of
    /// sample frames due, carrying the fractional remainder so that no
    /// samples are lost across calls.
    #[verifier::loop_isolation(false)]
    pub fn run(&mut self, usec: u64) -> (samples: usize)
        requires
            old(self).wf(),
            old(self).usec_accumulator + usec <= u64::MAX,
            old(self)@.spec_run_samples(usec as int) <= usize::MAX,
        ensures
            final(self).wf(),
            final(self)@ == old(self)@.spec_run_state(usec as int),
            samples == old(self)@.spec_run_samples(usec as int),
    {
        self.usec_accumulator = self.usec_accumulator + usec;
        let ghost total: int = self.usec_accumulator as int;
        let ghost mut ticks: int = 0;
        while self.usec_accumulator >= OPL_TICK_RATE
            invariant
                ticks >= 0,
                ticks * (OPL_TICK_RATE as int) + self.usec_accumulator == total,
                self.timer1 == old(self).timer1.spec_tick(ticks * (OPL_TICK_RATE as int)),
                self.timer2 == old(self).timer2.spec_tick(ticks * (OPL_TICK_RATE as int)),
                self.timer1.wf(),
                self.timer1.rate == OPL_TIMER_1_RATE,
                self.timer2.wf(),
                self.timer2.rate == OPL_TIMER_2_RATE,
                self.addr_primary == old(self).addr_primary,
                self.addr_secondary == old(self).addr_secondary,
                self.sample_rate == old(self).sample_rate,
                self.shadow == old(self).shadow,
                self.stats == old(self).stats,
                self.samples_fpart == old(self).samples_fpart,
            decreases self.usec_accumulator,
        {
            self.usec_accumulator = self.usec_accumulator - OPL_TICK_RATE;
            proof {
                lemma_tick_additive(
                    old(self).timer1,
                    ticks * (OPL_TICK_RATE as int),
                    OPL_TICK_RATE as int,
                );
                lemma_tick_additive(
                    old(self).timer2,
                    ticks * (OPL_TICK_RATE as int),
                    OPL_TICK_RATE as int,
                );
            }
            self.timer1.tick(OPL_TICK_RATE);
            self.timer2.tick(OPL_TICK_RATE);
            proof {
                ticks = ticks + 1;
            }
        }
        proof {
            lemma_fundamental_div_mod_converse_div(
                total,
                OPL_TICK_RATE as int,
                ticks,
                self.usec_accumulator as int,
            );
            lemma_fundamental_div_mod_converse_mod(
                total,
                OPL_TICK_RATE as int,
                ticks,
                self.usec_accumulator as int,
            );
        }

        proof {
            lemma_mul_upper_bound(
                usec as int,
                u64::MAX as int,
                self.sample_rate as int,
                u32::MAX as int,
            );
        }
        let due: u128 = (usec as u128) * (self.sample_rate as u128) + (self.samples_fpart as u128);
        let samples128: u128 = due / (USEC_PER_SECOND as u128);
        proof {
            lemma_mod_bound(due as int, USEC_PER_SECOND as int);
        }
        self.samples_fpart = (due % (USEC_PER_SECOND as u128)) as u64;
        samples128 as usize
    }

    /// Reset the shell: clear both register banks and the statistics, and
    /// adopt the new sample rate when one is given. The timers, latches and
    /// fractional accumulators carry over, matching the observed hardware
    /// shell behaviour rather than a full hardware reset. The caller
    /// reinitializes the external core at the device's sample rate.
    pub fn reset(&mut self, sample_rate: Option<u32>) -> (r: Result<(), OplError>)
        requires
            old(self).wf(),
        ensures
            final(self).wf(),
            final(self)@ == old(self)@.spec_reset(sample_rate),
            r is Ok,
    {
        if let Some(rate) = sample_rate {
            self.sample_rate = rate;
        }
        self.shadow.reset();
        self.stats = Opl3DeviceStats {
            data_writes: 0,
            addr_writes: 0,
            status_reads: 0,
            samples_generated: 0,
        };
        Ok(())
    }
}

/// Check that a one-frame output buffer has room for `channels`
/// interleaved samples, as the core's single-frame generation entry points
/// demand before touching the buffer.
pub fn sample_buffer_check(len: usize, channels: usize) -> (r: Result<(), OplError>)
    ensures
        len >= channels ==> r is Ok,
        len < channels ==> r == Err::<(), OplError>(OplError::BufferUndersized),
{
    if len < channels {
        Err(OplError::BufferUndersized)
    } else {
        Ok(())
    }
}

/// The number of stereo frames a stream buffer of `len` interleaved
/// samples receives: half its length, provided it holds at least one
/// frame.
pub fn stream_frame_count(len: usize) -> (r: Result<usize, OplError>)
    ensures
        len >= 2 ==> r == Ok::<usize, OplError>(len / 2),
        len < 2 ==> r == Err::<usize, OplError>(OplError::BufferUndersized),
{
    if len < 2 {
        Err(OplError::BufferUndersized)
    } else {
        Ok(len / 2)
    }
}

/// The number of frames a pair of four-channel stream buffers receives:
/// the buffers must be of equal length and hold at least one frame each.
pub fn quad_stream_frame_count(len1: usize, len2: usize) -> (r: Result<usize, OplError>)
    ensures
        len1 != len2 ==> r == Err::<usize, OplError>(OplError::BufferMismatch),
        len1 == len2 && len1 < 4 ==> r == Err::<usize, OplError>(OplError::BufferUndersized),
        len1 == len2 && len1 >= 4 ==> r == Ok::<usize, OplError>(len1 / 2),
{
    if len1 != len2 {
        Err(OplError::BufferMismatch)
    } else if len1 < 4 {
        Err(OplError::BufferUndersized)
    } else {
        Ok(len1 / 2)
    }
}

/// Shadow round trip: reading a register straight after writing it returns
/// the byte written, for every register of either file.
pub proof fn lemma_shadow_round_trip(v: DeviceView, reg: u8, value: u8, file: OplRegisterFile)
    requires
        v.wf(),
    ensures
        v.spec_write_register(reg, value, file).spec_read_register(reg, file) == value,
{
}

/// After a reset, every register of both files reads zero and every
/// statistics counter is zero.
pub proof fn lemma_reset_clears(v: DeviceView, sample_rate: Option<u32>)
    ensures
        forall|reg: u8, file: OplRegisterFile|
            v.spec_reset(sample_rate).spec_read_register(reg, file) == 0,
        v.spec_reset(sample_rate).stats == spec_zero_stats(),
{
}

/// A control-register write with the acknowledge bit set clears both
/// timers' elapsed flags, whatever the other bits of the same byte say,
/// and leaves their counters, masks and enables alone.
pub proof fn lemma_ack_clears_elapsed(v: DeviceView, value: u8)
    requires
        value & OPL_IRQ_FLAG != 0,
    ensures
        !v.spec_write_register(OPL_TIMER_CONTROL_REGISTER, value, OplRegisterFile::Primary).timer1.elapsed,
        !v.spec_write_register(OPL_TIMER_CONTROL_REGISTER, value, OplRegisterFile::Primary).timer2.elapsed,
        v.spec_write_register(OPL_TIMER_CONTROL_REGISTER, value, OplRegisterFile::Primary).timer1
            == v.timer1.spec_reset_elapsed(),
        v.spec_write_register(OPL_TIMER_CONTROL_REGISTER, value, OplRegisterFile::Primary).timer2
            == v.timer2.spec_reset_elapsed(),
{
}

/// The microseconds of a series of `run` calls, summed.
pub open spec fn sum_usec(incs: Seq<u64>) -> int
    decreases incs.len(),
{
    if incs.len() == 0 {
        0
    } else {
        incs[0] + sum_usec(incs.drop_first())
    }
}

impl DeviceView {
    /// The state after a series of `run` calls with the given elapsed
    /// intervals.
    pub open spec fn spec_run_seq(self, incs: Seq<u64>) -> DeviceView
        decreases incs.len(),
    {
        if incs.len() == 0 {
            self
        } else {
            self.spec_run_state(incs[0] as int).spec_run_seq(incs.drop_first())
        }
    }

    /// The total sample frames a series of `run` calls reports due.
    pub open spec fn spec_run_seq_samples(self, incs: Seq<u64>) -> int
        decreases incs.len(),
    {
        if incs.len() == 0 {
            0
        } else {
            self.spec_run_samples(incs[0] as int) + self.spec_run_state(
                incs[0] as int,
            ).spec_run_seq_samples(incs.drop_first())
        }
    }
}

/// One `run` call keeps the state well-formed and accounts exactly: the
/// samples reported, scaled to microseconds of audio, plus the new
/// fractional carry equal the old carry plus the elapsed time's worth of
/// samples.
pub proof fn lemma_run_accounting_step(v: DeviceView, usec: int)
    requires
        v.wf(),
        usec >= 0,
    ensures
        v.spec_run_state(usec).wf(),
        v.spec_run_state(usec).sample_rate == v.sample_rate,
        v.spec_run_state(usec).samples_fpart == (v.samples_fpart + usec * v.sample_rate) % (
        USEC_PER_SECOND as int),
        v.spec_run_samples(usec) * (USEC_PER_SECOND as int) + v.spec_run_state(usec).samples_fpart
            == v.samples_fpart + usec * v.sample_rate,
{
    let step = OPL_TICK_RATE as int;
    let total = v.usec_accumulator + usec;
    lemma_div_pos_is_pos(total, step);
    lemma_mod_bound(total, step);
    crate::timer::lemma_tick_wf(v.timer1, (total / step) * step);
    crate::timer::lemma_tick_wf(v.timer2, (total / step) * step);

    let denom = USEC_PER_SECOND as int;
    assert(usec * v.sample_rate >= 0) by (nonlinear_arith)
        requires
            usec >= 0,
            v.sample_rate >= 0,
    ;
    let due = v.samples_fpart + usec * v.sample_rate;
    lemma_fundamental_div_mod(due, denom);
    lemma_mod_bound(due, denom);
}

/// A series of `run` calls keeps the state well-formed and accounts
/// exactly, in total: samples reported, scaled to microseconds of audio,
/// plus the final fractional carry equal the initial carry plus the summed
/// elapsed time's worth of samples.
pub proof fn lemma_run_seq_accounting(v: DeviceView, incs: Seq<u64>)
    requires
        v.wf(),
    ensures
        v.spec_run_seq(incs).wf(),
        v.spec_run_seq(incs).sample_rate == v.sample_rate,
        v.spec_run_seq_samples(incs) * (USEC_PER_SECOND as int) + v.spec_run_seq(
            incs,
        ).samples_fpart == v.samples_fpart + sum_usec(incs) * v.sample_rate,
    decreases incs.len(),
{
    if incs.len() == 0 {
        assert(sum_usec(incs) * v.sample_rate == 0) by (nonlinear_arith)
            requires
                sum_usec(incs) == 0,
        ;
    } else {
        let u = incs[0] as int;
        let rest = incs.drop_first();
        lemma_run_accounting_step(v, u);
        let v1 = v.spec_run_state(u);
        lemma_run_seq_accounting(v1, rest);
        assert((u + sum_usec(rest)) * v.sample_rate == u * v.sample_rate + sum_usec(rest)
            * v.sample_rate) by (nonlinear_arith);
    }
}

/// No drift in the sample accounting: starting from a zero fractional
/// carry, `run` calls whose elapsed microseconds sum to exactly one second
/// report exactly one second's worth of sample frames — the sample rate —
/// in total.
pub proof fn lemma_no_sample_drift(v: DeviceView, incs: Seq<u64>)
    requires
        v.wf(),
        v.samples_fpart == 0,
        sum_usec(incs) == USEC_PER_SECOND,
    ensures
        v.spec_run_seq_samples(incs) == v.sample_rate,
        v.spec_run_seq(incs).samples_fpart == 0,
{
    lemma_run_seq_accounting(v, incs);
    assert(sum_usec(incs) * v.sample_rate == (USEC_PER_SECOND as int) * v.sample_rate);
}

} // verus!


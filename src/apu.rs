//! The audio processing unit: two pulse channels (the first with frequency sweep), a
//! wave channel and a noise channel, the frame sequencer, and mixing into integer
//! stereo levels at the host sample rate.
use vstd::prelude::*;
use crate::io;
use crate::memory::{Memory, MEM_SIZE};

verus! {

/// Host audio sample rate.
pub const SAMPLE_RATE: u32 = 44100;

/// T-cycles per emitted stereo sample.
pub const CYCLES_PER_SAMPLE: u32 = 95;

/// T-cycles per frame-sequencer step.
pub const FRAME_SEQUENCER_PERIOD: u32 = 8192;

/// Largest level one side of a mixed sample can reach: four channels at 15, times 7.
pub const MAX_LEVEL: u16 = 420;

/// One step of the noise LFSR: bits 0 and 1 are XORed into bit 14 (and bit 6 in 7-bit mode).
pub open spec fn lfsr_step(x: u16, width: bool) -> u16 {
    let fb = (x & 1) ^ ((x >> 1u16) & 1);
    let y = (x >> 1u16) | (fb << 14u16);
    if width {
        (y & !(1u16 << 6u16)) | (fb << 6u16)
    } else {
        y
    }
}

/// The LFSR after `n` steps in a fixed width mode.
pub open spec fn lfsr_run(x: u16, width: bool, n: nat) -> u16
    decreases n,
{
    if n == 0 {
        x
    } else {
        lfsr_step(lfsr_run(x, width, (n - 1) as nat), width)
    }
}

/// The LFSR state stays fifteen bits wide, and a state that can step to zero is never
/// reached from a live one: in 15-bit mode any non-zero state stays non-zero, in 7-bit
/// mode a state whose low seven bits are not all zero keeps them so.
pub proof fn lemma_lfsr_step_nonzero()
    by (bit_vector)
    ensures
        forall|x: u16| #![trigger lfsr_step(x, false)] x < 0x8000 && x != 0 ==> lfsr_step(x, false) < 0x8000 && lfsr_step(x, false) != 0,
        forall|x: u16| #![trigger lfsr_step(x, true)] x < 0x8000 && x & 0x7F != 0 ==> lfsr_step(x, true) < 0x8000 && lfsr_step(x, true) & 0x7F != 0,
{
}

/// One LFSR step in either mode keeps a live state live.
pub proof fn lemma_lfsr_step_keeps(x: u16, width: bool)
    requires
        x < 0x8000,
        x != 0,
        width ==> x & 0x7F != 0,
    ensures
        lfsr_step(x, width) != 0,
        lfsr_step(x, width) < 0x8000,
        width ==> lfsr_step(x, width) & 0x7F != 0,
{
    lemma_lfsr_step_nonzero();
    if width {
        assert(lfsr_step(x, true) < 0x8000);
        assert(lfsr_step(x, true) & 0x7F != 0);
        assert(lfsr_step(x, true) != 0) by (bit_vector)
            requires
                lfsr_step(x, true) & 0x7F != 0,
        ;
    } else {
        assert(lfsr_step(x, false) != 0);
    }
}

/// Over any number of ticks in a fixed mode, a live LFSR stays non-zero.
pub proof fn lemma_lfsr_stays_nonzero(x: u16, width: bool, n: nat)
    requires
        x < 0x8000,
        x != 0,
        width ==> x & 0x7F != 0,
    ensures
        lfsr_run(x, width, n) != 0,
        lfsr_run(x, width, n) < 0x8000,
        width ==> lfsr_run(x, width, n) & 0x7F != 0,
    decreases n,
{
    lemma_lfsr_step_nonzero();
    if n > 0 {
        lemma_lfsr_stays_nonzero(x, width, (n - 1) as nat);
    }
    assert(0u16 & 0x7F == 0) by (bit_vector);
}

/// Output (0 or 1) of duty pattern `duty` at position `pos`.
pub open spec fn duty_level(duty: u8, pos: u8) -> u8 {
    if duty == 0 {
        if pos == 7 { 1 } else { 0 }
    } else if duty == 1 {
        if pos == 0 || pos == 7 { 1 } else { 0 }
    } else if duty == 2 {
        if pos == 0 || pos >= 5 { 1 } else { 0 }
    } else {
        if pos == 0 || pos == 7 { 0 } else { 1 }
    }
}

pub fn duty_output(duty: u8, pos: u8) -> (r: u8)
    ensures
        r == duty_level(duty, pos),
        r <= 1,
{
    if duty == 0 {
        if pos == 7 { 1 } else { 0 }
    } else if duty == 1 {
        if pos == 0 || pos == 7 { 1 } else { 0 }
    } else if duty == 2 {
        if pos == 0 || pos >= 5 { 1 } else { 0 }
    } else {
        if pos == 0 || pos == 7 { 0 } else { 1 }
    }
}

/// Period of the noise channel's frequency timer: the divisor shifted by the clock shift.
pub open spec fn noise_period(divisor_code: u8, shift: u8) -> u32 {
    let divisor: u32 = if divisor_code == 0 { 8u32 } else { (divisor_code * 16) as u32 };
    divisor << (shift as u32)
}

/// A volume envelope.
#[derive(Debug, Clone, Copy, PartialEq, Eq, Structural)]
pub struct Envelope {
    pub volume: u8,
    pub timer: u8,
    pub period: u8,
    pub add: bool,
}

/// The envelope after one clock of the frame sequencer.
pub open spec fn envelope_step(e: Envelope) -> Envelope {
    if e.period == 0 {
        e
    } else {
        let t = if e.timer > 0 { (e.timer - 1) as u8 } else { 0u8 };
        if t == 0 {
            let v = if e.add && e.volume < 15 {
                (e.volume + 1) as u8
            } else if !e.add && e.volume > 0 {
                (e.volume - 1) as u8
            } else {
                e.volume
            };
            Envelope { volume: v, timer: e.period, ..e }
        } else {
            Envelope { timer: t, ..e }
        }
    }
}

impl Envelope {
    pub fn clock(&mut self)
        ensures
            *final(self) == envelope_step(*old(self)),
    {
        if self.period > 0 {
            if self.timer > 0 {
                self.timer = self.timer - 1;
            }
            if self.timer == 0 {
                self.timer = self.period;
                if self.add && self.volume < 15 {
                    self.volume = self.volume + 1;
                } else if !self.add && self.volume > 0 {
                    self.volume = self.volume - 1;
                }
            }
        }
    }

    /// An envelope as NRx2 sets it on trigger.
    pub fn from_register(nrx2: u8) -> (r: Envelope)
        ensures
            r == (Envelope { volume: nrx2 >> 4u8, timer: nrx2 & 7, period: nrx2 & 7, add: nrx2 & 8 != 0 }),
            r.volume < 16,
    {
        assert((nrx2 >> 4u8) < 16) by (bit_vector);
        Envelope { volume: nrx2 >> 4u8, timer: nrx2 & 7, period: nrx2 & 7, add: nrx2 & 8 != 0 }
    }
}

/// A length counter.
#[derive(Debug, Clone, Copy, PartialEq, Eq, Structural)]
pub struct Length {
    pub counter: u16,
    pub enabled: bool,
}

/// A length counter after one clock, and whether it ran out on that clock.
pub open spec fn length_step(l: Length) -> (Length, bool) {
    if l.enabled && l.counter > 0 {
        (Length { counter: (l.counter - 1) as u16, ..l }, l.counter == 1)
    } else {
        (l, false)
    }
}

impl Length {
    /// Counts down when enabled; returns true when it reaches zero, which silences the channel.
    pub fn clock(&mut self) -> (expired: bool)
        ensures
            (*final(self), expired) == length_step(*old(self)),
    {
        if self.enabled && self.counter > 0 {
            self.counter = self.counter - 1;
            self.counter == 0
        } else {
            false
        }
    }
}

#[derive(Debug)]
pub struct Apu {
    /// T-cycles since the last emitted sample.
    pub sample_counter: u32,
    /// T-cycles since the last frame-sequencer step.
    pub frame_counter: u32,
    /// Frame-sequencer step, 0..7.
    pub frame_step: u8,
    /// Emitted samples: left and right levels (0..=420) in turn.
    pub levels: Vec<u16>,
    pub enabled: bool,

    pub ch1_enabled: bool,
    pub ch1_dac_enabled: bool,
    pub ch1_length: Length,
    pub ch1_frequency: u16,
    pub ch1_timer: u16,
    pub ch1_duty_position: u8,
    pub ch1_envelope: Envelope,
    pub ch1_sweep_period: u8,
    pub ch1_sweep_shift: u8,
    pub ch1_sweep_negate: bool,
    pub ch1_sweep_timer: u8,
    pub ch1_sweep_enabled: bool,
    pub ch1_sweep_shadow: u16,

    pub ch2_enabled: bool,
    pub ch2_dac_enabled: bool,
    pub ch2_length: Length,
    pub ch2_frequency: u16,
    pub ch2_timer: u16,
    pub ch2_duty_position: u8,
    pub ch2_envelope: Envelope,

    pub ch3_enabled: bool,
    pub ch3_dac_enabled: bool,
    pub ch3_length: Length,
    pub ch3_frequency: u16,
    pub ch3_timer: u16,
    pub ch3_position: u8,
    pub ch3_volume_code: u8,
    pub ch3_sample_buffer: u8,

    pub ch4_enabled: bool,
    pub ch4_dac_enabled: bool,
    pub ch4_length: Length,
    pub ch4_envelope: Envelope,
    pub ch4_timer: u32,
    pub ch4_lfsr: u16,
    pub ch4_width_mode: bool,
    pub ch4_clock_shift: u8,
    pub ch4_divisor_code: u8,
}

/// The sixteen-bit frequency of a channel from its NRx3 and NRx4 registers.
pub open spec fn freq_of(lo: u8, hi: u8) -> u16 {
    (lo as u16) | (((hi & 7) as u16) << 8u16)
}

pub proof fn lemma_register_fields()
    by (bit_vector)
    ensures
        forall|x: u8| #![trigger (x >> 4u8)] (x >> 4u8) < 16,
        forall|x: u8| #![trigger (x & 0x3F)] (x & 0x3F) < 64,
        forall|x: u8| #![trigger (x & 0x0F)] (x & 0x0F) < 16,
        forall|x: u8| #![trigger (x & 7)] (x & 7) < 8,
        forall|x: u8| #![trigger (x >> 6u8)] (x >> 6u8) < 4,
        forall|x: u8| #![trigger ((x >> 5u8) & 3)] ((x >> 5u8) & 3) < 4,
        forall|x: u8| #![trigger ((x >> 4u8) & 7)] ((x >> 4u8) & 7) < 8,
        forall|x: u16| #![trigger (x & 1)] (x & 1) < 2,
{
}

/// A channel frequency from its NRx3 and NRx4 registers.
pub fn freq_from(lo: u8, hi: u8) -> (r: u16)
    ensures
        r == freq_of(lo, hi),
        r <= 2047,
{
    let r = (lo as u16) | (((hi & 7) as u16) << 8u16);
    assert(r <= 2047) by (bit_vector)
        requires
            r == (lo as u16) | (((hi & 7) as u16) << 8u16),
    ;
    r
}

/// Settings an APU takes from the registers, and its sample output, are the same in `a` and `b`.
pub open spec fn settings_same(a: &Apu, b: &Apu) -> bool {
    &&& a.ch1_sweep_period == b.ch1_sweep_period
    &&& a.ch1_sweep_negate == b.ch1_sweep_negate
    &&& a.ch1_sweep_shift == b.ch1_sweep_shift
    &&& a.ch1_dac_enabled == b.ch1_dac_enabled
    &&& a.ch2_dac_enabled == b.ch2_dac_enabled
    &&& a.ch3_dac_enabled == b.ch3_dac_enabled
    &&& a.ch4_dac_enabled == b.ch4_dac_enabled
    &&& a.ch1_length.enabled == b.ch1_length.enabled
    &&& a.ch2_length.enabled == b.ch2_length.enabled
    &&& a.ch3_length.enabled == b.ch3_length.enabled
    &&& a.ch4_length.enabled == b.ch4_length.enabled
    &&& a.ch3_volume_code == b.ch3_volume_code
    &&& a.ch4_clock_shift == b.ch4_clock_shift
    &&& a.ch4_width_mode == b.ch4_width_mode
    &&& a.ch4_divisor_code == b.ch4_divisor_code
    &&& a.sample_counter == b.sample_counter
    &&& a.levels@ == b.levels@
}

/// Output level (0..15) of each channel: a silenced channel or a DAC that is off gives 0.
pub open spec fn channel_outputs(a: &Apu, d: Seq<u8>) -> (u16, u16, u16, u16) {
    let o1: u16 = if a.ch1_enabled && a.ch1_dac_enabled && duty_level(d[io::NR11 as int] >> 6u8, a.ch1_duty_position)
        == 1 {
        a.ch1_envelope.volume as u16
    } else {
        0
    };
    let o2: u16 = if a.ch2_enabled && a.ch2_dac_enabled && duty_level(d[io::NR21 as int] >> 6u8, a.ch2_duty_position)
        == 1 {
        a.ch2_envelope.volume as u16
    } else {
        0
    };
    let s = a.ch3_sample_buffer;
    let o3: u16 = if a.ch3_enabled && a.ch3_dac_enabled {
        (if a.ch3_volume_code == 1 {
            s
        } else if a.ch3_volume_code == 2 {
            s >> 1u8
        } else if a.ch3_volume_code == 3 {
            s >> 2u8
        } else {
            0
        }) as u16
    } else {
        0
    };
    let o4: u16 = if a.ch4_enabled && a.ch4_dac_enabled && a.ch4_lfsr & 1 == 0 {
        a.ch4_envelope.volume as u16
    } else {
        0
    };
    (o1, o2, o3, o4)
}

/// One side of a mixed sample: the channels NR51 pans to it (bits `shift`..`shift`+3), summed
/// and scaled by the NR50 volume of that side.
pub open spec fn mix_side(a: &Apu, d: Seq<u8>, pan_shift: u8, volume: u8) -> u16 {
    let (o1, o2, o3, o4) = channel_outputs(a, d);
    let nr51 = d[io::NR51 as int] >> pan_shift;
    let sum = (if nr51 & 1 != 0 { o1 as int } else { 0 }) + (if nr51 & 2 != 0 { o2 as int } else { 0 }) + (if nr51
        & 4 != 0 {
        o3 as int
    } else {
        0
    }) + (if nr51 & 8 != 0 { o4 as int } else { 0 });
    (sum * volume) as u16
}

pub open spec fn mix_left(a: &Apu, d: Seq<u8>) -> u16 {
    mix_side(a, d, 4, (d[io::NR50 as int] >> 4u8) & 7)
}

pub open spec fn mix_right(a: &Apu, d: Seq<u8>) -> u16 {
    mix_side(a, d, 0, d[io::NR50 as int] & 7)
}

/// One side of a mixed sample from the four channel outputs.
fn side_level(o1: u16, o2: u16, o3: u16, o4: u16, pan: u8, volume: u8) -> (r: u16)
    requires
        o1 <= 15,
        o2 <= 15,
        o3 <= 15,
        o4 <= 15,
        volume <= 7,
    ensures
        r == (((if pan & 1 != 0 { o1 as int } else { 0 }) + (if pan & 2 != 0 { o2 as int } else { 0 }) + (if pan & 4
            != 0 {
            o3 as int
        } else {
            0
        }) + (if pan & 8 != 0 { o4 as int } else { 0 })) * volume) as u16,
        r <= MAX_LEVEL,
{
    let mut sum: u16 = 0;
    if pan & 1 != 0 {
        sum = sum + o1;
    }
    if pan & 2 != 0 {
        sum = sum + o2;
    }
    if pan & 4 != 0 {
        sum = sum + o3;
    }
    if pan & 8 != 0 {
        sum = sum + o4;
    }
    let v = volume as u16;
    assert(sum * v <= 420) by (nonlinear_arith)
        requires
            sum <= 60,
            v <= 7,
    ;
    sum * v
}

impl Apu {
    pub open spec fn wf(&self) -> bool {
        &&& self.frame_step < 8
        &&& self.sample_counter < CYCLES_PER_SAMPLE
        &&& self.frame_counter < FRAME_SEQUENCER_PERIOD
        &&& self.ch1_frequency <= 2047
        &&& self.ch2_frequency <= 2047
        &&& self.ch3_frequency <= 2047
        &&& self.ch1_sweep_shadow <= 2047
        &&& self.ch1_duty_position < 8
        &&& self.ch2_duty_position < 8
        &&& self.ch3_position < 32
        &&& self.ch3_sample_buffer < 16
        &&& self.ch3_volume_code < 4
        &&& self.ch1_envelope.volume < 16
        &&& self.ch2_envelope.volume < 16
        &&& self.ch4_envelope.volume < 16
        &&& self.ch4_clock_shift < 16
        &&& self.ch4_divisor_code < 8
        &&& self.ch1_sweep_period < 8
        &&& self.ch1_sweep_shift < 8
    }

    pub fn new() -> (r: Self)
        ensures
            r.wf(),
            r.levels@.len() == 0,
            r.ch4_lfsr == 0x7FFF,
            !r.enabled,
            !r.ch1_enabled && !r.ch2_enabled && !r.ch3_enabled && !r.ch4_enabled,
    {
        let quiet = Envelope { volume: 0, timer: 0, period: 0, add: false };
        let off = Length { counter: 0, enabled: false };
        Apu {
            sample_counter: 0,
            frame_counter: 0,
            frame_step: 0,
            levels: Vec::new(),
            enabled: false,
            ch1_enabled: false,
            ch1_dac_enabled: false,
            ch1_length: off,
            ch1_frequency: 0,
            ch1_timer: 0,
            ch1_duty_position: 0,
            ch1_envelope: quiet,
            ch1_sweep_period: 0,
            ch1_sweep_shift: 0,
            ch1_sweep_negate: false,
            ch1_sweep_timer: 0,
            ch1_sweep_enabled: false,
            ch1_sweep_shadow: 0,
            ch2_enabled: false,
            ch2_dac_enabled: false,
            ch2_length: off,
            ch2_frequency: 0,
            ch2_timer: 0,
            ch2_duty_position: 0,
            ch2_envelope: quiet,
            ch3_enabled: false,
            ch3_dac_enabled: false,
            ch3_length: off,
            ch3_frequency: 0,
            ch3_timer: 0,
            ch3_position: 0,
            ch3_volume_code: 0,
            ch3_sample_buffer: 0,
            ch4_enabled: false,
            ch4_dac_enabled: false,
            ch4_length: off,
            ch4_envelope: quiet,
            ch4_timer: 0,
            ch4_lfsr: 0x7FFF,
            ch4_width_mode: false,
            ch4_clock_shift: 0,
            ch4_divisor_code: 0,
        }
    }

    pub fn reset(&mut self)
        ensures
            final(self).wf(),
            final(self).levels@.len() == 0,
            final(self).ch4_lfsr == 0x7FFF,
    {
        *self = Self::new();
    }

    /// Advances the APU by the given number of T-cycles, after taking the channel
    /// registers and any triggers from memory. Nothing runs while NR52 bit 7 is clear.
    pub fn tick(&mut self, memory: &mut Memory, cycles: u32)
        requires
            old(self).wf(),
            old(memory).wf(),
        ensures
            final(self).wf(),
            final(memory).wf(),
            final(memory).same_but_data(old(memory)),
            forall|i: int|
                0 <= i < MEM_SIZE && i != io::NR13 && i != io::NR14 && i != io::NR24 && i != io::NR34 && i != io::NR44
                    ==> #[trigger] final(memory).data@[i] == old(memory).data@[i],
            old(self).levels@.len() <= final(self).levels@.len(),
            final(self).levels@.subrange(0, old(self).levels@.len() as int) == old(self).levels@,
            old(memory).data@[io::NR52 as int] & 0x80 == 0 ==> final(self).levels@ == old(self).levels@
                && final(self).sample_counter == old(self).sample_counter && final(self).ch4_lfsr == old(
                self,
            ).ch4_lfsr,
            old(memory).data@[io::NR52 as int] & 0x80 != 0 ==> final(self).levels@.len() == old(self).levels@.len()
                + 2 * ((old(self).sample_counter + cycles) / (CYCLES_PER_SAMPLE as int)) && final(self).sample_counter
                == (old(self).sample_counter + cycles) % (CYCLES_PER_SAMPLE as int),
            old(self).ch4_lfsr != 0 && old(self).ch4_lfsr < 0x8000 && (old(memory).data@[io::NR43 as int] & 0x08 == 0
                || old(self).ch4_lfsr & 0x7F != 0) ==> final(self).ch4_lfsr != 0 && final(self).ch4_lfsr < 0x8000,
    {
        self.enabled = memory.data[io::NR52 as usize] & 0x80 != 0;
        if !self.enabled {
            return;
        }
        let ghost sc0 = self.sample_counter;
        let ghost len0 = self.levels@.len();
        self.read_channel_registers(memory);
        proof {
            lemma_lfsr_step_nonzero();
            assert(0x7FFFu16 & 0x7F != 0) by (bit_vector);
        }
        let ghost w0 = self.ch4_width_mode;
        let mut i: u32 = 0;
        while i < cycles
            invariant
                i <= cycles,
                self.wf(),
                memory.wf(),
                memory.same_but_data(old(memory)),
                forall|k: int|
                    0 <= k < MEM_SIZE && k != io::NR13 && k != io::NR14 && k != io::NR24 && k != io::NR34 && k
                        != io::NR44 ==> #[trigger] memory.data@[k] == old(memory).data@[k],
                old(self).levels@.len() <= self.levels@.len(),
                self.levels@.subrange(0, old(self).levels@.len() as int) == old(self).levels@,
                len0 == old(self).levels@.len(),
                sc0 == old(self).sample_counter,
                self.sample_counter == (sc0 + i) % (CYCLES_PER_SAMPLE as int),
                self.levels@.len() == len0 + 2 * ((sc0 + i) / (CYCLES_PER_SAMPLE as int)),
                self.ch4_width_mode == w0,
                (old(self).ch4_lfsr != 0 && old(self).ch4_lfsr < 0x8000 && (old(memory).data@[io::NR43 as int] & 0x08
                    == 0 || old(self).ch4_lfsr & 0x7F != 0)) ==> (self.ch4_lfsr != 0 && self.ch4_lfsr < 0x8000 && (w0
                    ==> self.ch4_lfsr & 0x7F != 0)),
            decreases cycles - i,
        {
            self.tick_channel1();
            self.tick_channel2();
            self.tick_channel3(memory);
            let ghost prev = self.ch4_lfsr;
            self.tick_channel4();
            proof {
                if prev != 0 && prev < 0x8000 && (w0 ==> prev & 0x7F != 0) {
                    lemma_lfsr_step_keeps(prev, w0);
                }
            }
            self.frame_counter = self.frame_counter + 1;
            if self.frame_counter >= FRAME_SEQUENCER_PERIOD {
                self.frame_counter = 0;
                self.tick_frame_sequencer(memory);
            }
            self.sample_counter = self.sample_counter + 1;
            if self.sample_counter >= CYCLES_PER_SAMPLE {
                self.sample_counter = 0;
                let ghost before = self.levels@;
                self.generate_sample_output(memory);
                assert(self.levels@.subrange(0, old(self).levels@.len() as int) =~= before.subrange(
                    0,
                    old(self).levels@.len() as int,
                ));
            }
            i = i + 1;
        }
    }

}

/// The APU settings that the channel registers in `d` give.
pub open spec fn settings_from(a: &Apu, d: Seq<u8>) -> bool {
    &&& a.ch1_sweep_period == (d[io::NR10 as int] >> 4u8) & 7
    &&& a.ch1_sweep_negate == (d[io::NR10 as int] & 0x08 != 0)
    &&& a.ch1_sweep_shift == d[io::NR10 as int] & 7
    &&& a.ch1_dac_enabled == (d[io::NR12 as int] & 0xF8 != 0)
    &&& a.ch2_dac_enabled == (d[io::NR22 as int] & 0xF8 != 0)
    &&& a.ch3_dac_enabled == (d[io::NR30 as int] & 0x80 != 0)
    &&& a.ch4_dac_enabled == (d[io::NR42 as int] & 0xF8 != 0)
    &&& a.ch1_length.enabled == (d[io::NR14 as int] & 0x40 != 0)
    &&& a.ch2_length.enabled == (d[io::NR24 as int] & 0x40 != 0)
    &&& a.ch3_length.enabled == (d[io::NR34 as int] & 0x40 != 0)
    &&& a.ch4_length.enabled == (d[io::NR44 as int] & 0x40 != 0)
    &&& a.ch3_volume_code == (d[io::NR32 as int] >> 5u8) & 3
    &&& a.ch4_clock_shift == d[io::NR43 as int] >> 4u8
    &&& a.ch4_width_mode == (d[io::NR43 as int] & 0x08 != 0)
    &&& a.ch4_divisor_code == d[io::NR43 as int] & 7
}

impl Apu {
    /// Takes the channel parameters from their registers.
    #[verifier::rlimit(100)]
    #[verifier::spinoff_prover]
    fn load_settings(&mut self, memory: &Memory)
        requires
            old(self).wf(),
            memory.wf(),
        ensures
            final(self).wf(),
            settings_from(final(self), memory.data@),
            final(self).ch1_frequency == freq_of(memory.data@[io::NR13 as int], memory.data@[io::NR14 as int]),
            final(self).ch2_frequency == freq_of(memory.data@[io::NR23 as int], memory.data@[io::NR24 as int]),
            final(self).ch3_frequency == freq_of(memory.data@[io::NR33 as int], memory.data@[io::NR34 as int]),
            final(self).levels@ == old(self).levels@,
            final(self).sample_counter == old(self).sample_counter,
            final(self).ch4_lfsr == old(self).ch4_lfsr,
    {
        proof {
            lemma_register_fields();
        }
        let nr10 = memory.data[io::NR10 as usize];
        self.ch1_sweep_period = (nr10 >> 4u8) & 0x07;
        self.ch1_sweep_negate = nr10 & 0x08 != 0;
        self.ch1_sweep_shift = nr10 & 0x07;
        self.ch1_dac_enabled = memory.data[io::NR12 as usize] & 0xF8 != 0;
        let nr14 = memory.data[io::NR14 as usize];
        self.ch1_frequency = freq_from(memory.data[io::NR13 as usize], nr14);
        self.ch1_length.enabled = nr14 & 0x40 != 0;
        self.ch2_dac_enabled = memory.data[io::NR22 as usize] & 0xF8 != 0;
        let nr24 = memory.data[io::NR24 as usize];
        self.ch2_frequency = freq_from(memory.data[io::NR23 as usize], nr24);
        self.ch2_length.enabled = nr24 & 0x40 != 0;
        self.ch3_dac_enabled = memory.data[io::NR30 as usize] & 0x80 != 0;
        self.ch3_volume_code = (memory.data[io::NR32 as usize] >> 5u8) & 0x03;
        let nr34 = memory.data[io::NR34 as usize];
        self.ch3_frequency = freq_from(memory.data[io::NR33 as usize], nr34);
        self.ch3_length.enabled = nr34 & 0x40 != 0;
        self.ch4_dac_enabled = memory.data[io::NR42 as usize] & 0xF8 != 0;
        let nr43 = memory.data[io::NR43 as usize];
        self.ch4_clock_shift = nr43 >> 4u8;
        self.ch4_width_mode = nr43 & 0x08 != 0;
        self.ch4_divisor_code = nr43 & 0x07;
        self.ch4_length.enabled = memory.data[io::NR44 as usize] & 0x40 != 0;
    }

    /// Takes the channel parameters from their registers and starts any channel whose
    /// trigger bit is set, clearing that bit.
    #[verifier::rlimit(100)]
    #[verifier::spinoff_prover]
    fn read_channel_registers(&mut self, memory: &mut Memory)
        requires
            old(self).wf(),
            old(memory).wf(),
        ensures
            final(self).wf(),
            final(memory).wf(),
            final(memory).same_but_data(old(memory)),
            final(self).levels@ == old(self).levels@,
            forall|i: int|
                0 <= i < MEM_SIZE && i != io::NR14 && i != io::NR24 && i != io::NR34 && i != io::NR44
                    ==> #[trigger] final(memory).data@[i] == old(memory).data@[i],
            final(self).ch4_lfsr == old(self).ch4_lfsr || final(self).ch4_lfsr == 0x7FFF,
            final(self).sample_counter == old(self).sample_counter,
            settings_from(final(self), old(memory).data@),
    {
        self.load_settings(memory);
        let ghost a0 = *self;
        self.take_trigger(memory, io::NR14);
        self.take_trigger(memory, io::NR24);
        self.take_trigger(memory, io::NR34);
        self.take_trigger(memory, io::NR44);
        assert(settings_same(&a0, self));
    }

    /// Starts the channel whose NRx4 register is `reg` if its trigger bit is set, and
    /// clears that bit.
    #[verifier::rlimit(100)]
    #[verifier::spinoff_prover]
    fn take_trigger(&mut self, memory: &mut Memory, reg: u16)
        requires
            old(self).wf(),
            old(memory).wf(),
            reg == io::NR14 || reg == io::NR24 || reg == io::NR34 || reg == io::NR44,
        ensures
            final(self).wf(),
            final(memory).wf(),
            final(memory).same_but_data(old(memory)),
            final(memory).data@ == (if old(memory).data@[reg as int] & 0x80 != 0 {
                old(memory).data@.update(reg as int, old(memory).data@[reg as int] & 0x7F)
            } else {
                old(memory).data@
            }),
            settings_same(old(self), final(self)),
            final(self).ch4_lfsr == old(self).ch4_lfsr || final(self).ch4_lfsr == 0x7FFF,
    {
        let v = memory.data[reg as usize];
        if v & 0x80 != 0 {
            memory.data.set(reg as usize, v & 0x7F);
            if reg == io::NR14 {
                self.trigger_ch1(memory);
            } else if reg == io::NR24 {
                self.trigger_ch2(memory);
            } else if reg == io::NR34 {
                self.trigger_ch3(memory);
            } else {
                self.trigger_ch4(memory);
            }
        }
    }

    /// Restarts channel 1 from its registers (when its DAC is on).
    #[verifier::rlimit(100)]
    #[verifier::spinoff_prover]
    pub fn trigger_ch1(&mut self, memory: &Memory)
        requires
            old(self).wf(),
            memory.wf(),
        ensures
            final(self).wf(),
            final(self).levels@ == old(self).levels@,
            final(self).ch1_enabled ==> old(self).ch1_dac_enabled,
            old(self).ch1_dac_enabled ==> final(self).ch1_sweep_shadow == final(self).ch1_frequency,
            settings_same(old(self), final(self)),
            final(self).ch4_lfsr == old(self).ch4_lfsr,
    {
        if !self.ch1_dac_enabled {
            self.ch1_enabled = false;
            return;
        }
        proof {
            lemma_register_fields();
        }
        let nr11 = memory.data[io::NR11 as usize];
        let nr12 = memory.data[io::NR12 as usize];
        let nr13 = memory.data[io::NR13 as usize];
        let nr14 = memory.data[io::NR14 as usize];
        self.ch1_enabled = true;
        self.ch1_length.counter = 64 - (nr11 & 0x3F) as u16;
        self.ch1_frequency = freq_from(nr13, nr14);
        self.ch1_timer = (2048 - self.ch1_frequency) * 4;
        self.ch1_envelope = Envelope::from_register(nr12);
        self.ch1_sweep_shadow = self.ch1_frequency;
        self.ch1_sweep_timer = if self.ch1_sweep_period > 0 { self.ch1_sweep_period } else { 8 };
        self.ch1_sweep_enabled = self.ch1_sweep_period > 0 || self.ch1_sweep_shift > 0;
        if self.ch1_sweep_shift > 0 {
            let _ = self.calculate_sweep_frequency();
        }
    }

    /// Restarts channel 2 from its registers (when its DAC is on).
    pub fn trigger_ch2(&mut self, memory: &Memory)
        requires
            old(self).wf(),
            memory.wf(),
        ensures
            final(self).wf(),
            final(self).levels@ == old(self).levels@,
            final(self).ch2_enabled == old(self).ch2_dac_enabled,
            settings_same(old(self), final(self)),
            final(self).ch4_lfsr == old(self).ch4_lfsr,
    {
        if !self.ch2_dac_enabled {
            self.ch2_enabled = false;
            return;
        }
        proof {
            lemma_register_fields();
        }
        let nr21 = memory.data[io::NR21 as usize];
        let nr22 = memory.data[io::NR22 as usize];
        let nr23 = memory.data[io::NR23 as usize];
        let nr24 = memory.data[io::NR24 as usize];
        self.ch2_enabled = true;
        self.ch2_length.counter = 64 - (nr21 & 0x3F) as u16;
        self.ch2_frequency = freq_from(nr23, nr24);
        self.ch2_timer = (2048 - self.ch2_frequency) * 4;
        self.ch2_envelope = Envelope::from_register(nr22);
    }

    /// Restarts channel 3 from its registers (when its DAC is on).
    pub fn trigger_ch3(&mut self, memory: &Memory)
        requires
            old(self).wf(),
            memory.wf(),
        ensures
            final(self).wf(),
            final(self).levels@ == old(self).levels@,
            final(self).ch3_enabled == old(self).ch3_dac_enabled,
            old(self).ch3_dac_enabled ==> final(self).ch3_position == 0,
            settings_same(old(self), final(self)),
            final(self).ch4_lfsr == old(self).ch4_lfsr,
    {
        if !self.ch3_dac_enabled {
            self.ch3_enabled = false;
            return;
        }
        proof {
            lemma_register_fields();
        }
        let nr31 = memory.data[io::NR31 as usize];
        let nr33 = memory.data[io::NR33 as usize];
        let nr34 = memory.data[io::NR34 as usize];
        self.ch3_enabled = true;
        self.ch3_length.counter = 256 - nr31 as u16;
        self.ch3_frequency = freq_from(nr33, nr34);
        self.ch3_timer = (2048 - self.ch3_frequency) * 2;
        self.ch3_position = 0;
    }

    /// Restarts channel 4 from its registers (when its DAC is on); the LFSR is reloaded
    /// with all fifteen bits set.
    pub fn trigger_ch4(&mut self, memory: &Memory)
        requires
            old(self).wf(),
            memory.wf(),
        ensures
            final(self).wf(),
            final(self).levels@ == old(self).levels@,
            final(self).ch4_enabled == old(self).ch4_dac_enabled,
            old(self).ch4_dac_enabled ==> final(self).ch4_lfsr == 0x7FFF,
            settings_same(old(self), final(self)),
            !old(self).ch4_dac_enabled ==> final(self).ch4_lfsr == old(self).ch4_lfsr,
    {
        if !self.ch4_dac_enabled {
            self.ch4_enabled = false;
            return;
        }
        proof {
            lemma_register_fields();
        }
        let nr41 = memory.data[io::NR41 as usize];
        let nr42 = memory.data[io::NR42 as usize];
        self.ch4_enabled = true;
        self.ch4_length.counter = 64 - (nr41 & 0x3F) as u16;
        self.ch4_lfsr = 0x7FFF;
        self.ch4_envelope = Envelope::from_register(nr42);
        self.ch4_timer = self.noise_reload();
    }

    /// Reload value of the noise channel's frequency timer.
    fn noise_reload(&self) -> (r: u32)
        requires
            self.ch4_divisor_code < 8,
            self.ch4_clock_shift < 16,
        ensures
            r == noise_period(self.ch4_divisor_code, self.ch4_clock_shift),
    {
        let divisor: u32 = if self.ch4_divisor_code == 0 { 8 } else { (self.ch4_divisor_code as u32) * 16 };
        divisor << (self.ch4_clock_shift as u32)
    }

    /// Advances pulse channel 1's frequency timer by a T-cycle.
    fn tick_channel1(&mut self)
        requires
            old(self).wf(),
        ensures
            final(self).wf(),
            final(self).levels@ == old(self).levels@,
            final(self).ch4_lfsr == old(self).ch4_lfsr,
            final(self).sample_counter == old(self).sample_counter,
            final(self).ch4_width_mode == old(self).ch4_width_mode,
    {
        if self.ch1_timer > 0 {
            self.ch1_timer = self.ch1_timer - 1;
        }
        if self.ch1_timer == 0 {
            self.ch1_timer = (2048 - self.ch1_frequency) * 4;
            self.ch1_duty_position = (self.ch1_duty_position + 1) % 8;
        }
    }

    /// Advances pulse channel 2's frequency timer by a T-cycle.
    fn tick_channel2(&mut self)
        requires
            old(self).wf(),
        ensures
            final(self).wf(),
            final(self).levels@ == old(self).levels@,
            final(self).ch4_lfsr == old(self).ch4_lfsr,
            final(self).sample_counter == old(self).sample_counter,
            final(self).ch4_width_mode == old(self).ch4_width_mode,
    {
        if self.ch2_timer > 0 {
            self.ch2_timer = self.ch2_timer - 1;
        }
        if self.ch2_timer == 0 {
            self.ch2_timer = (2048 - self.ch2_frequency) * 4;
            self.ch2_duty_position = (self.ch2_duty_position + 1) % 8;
        }
    }

    /// Advances the wave channel by a T-cycle, fetching the next sample nibble from wave RAM.
    fn tick_channel3(&mut self, memory: &Memory)
        requires
            old(self).wf(),
            memory.wf(),
        ensures
            final(self).wf(),
            final(self).levels@ == old(self).levels@,
            final(self).ch4_lfsr == old(self).ch4_lfsr,
            final(self).sample_counter == old(self).sample_counter,
            final(self).ch4_width_mode == old(self).ch4_width_mode,
    {
        if self.ch3_timer > 0 {
            self.ch3_timer = self.ch3_timer - 1;
        }
        if self.ch3_timer == 0 {
            self.ch3_timer = (2048 - self.ch3_frequency) * 2;
            self.ch3_position = (self.ch3_position + 1) % 32;
            let byte = memory.data[io::WAVE_RAM as usize + (self.ch3_position / 2) as usize];
            proof {
                lemma_register_fields();
            }
            self.ch3_sample_buffer = if self.ch3_position % 2 == 0 { byte >> 4u8 } else { byte & 0x0F };
        }
    }

    /// Advances the noise channel by a T-cycle; when its timer expires the LFSR steps.
    fn tick_channel4(&mut self)
        requires
            old(self).wf(),
        ensures
            final(self).wf(),
            final(self).levels@ == old(self).levels@,
            final(self).ch4_lfsr == old(self).ch4_lfsr || final(self).ch4_lfsr == lfsr_step(
                old(self).ch4_lfsr,
                old(self).ch4_width_mode,
            ),
            final(self).sample_counter == old(self).sample_counter,
            final(self).ch4_width_mode == old(self).ch4_width_mode,
    {
        if self.ch4_timer > 0 {
            self.ch4_timer = self.ch4_timer - 1;
        }
        if self.ch4_timer == 0 {
            self.ch4_timer = self.noise_reload();
            let x = self.ch4_lfsr;
            let fb = (x & 1) ^ ((x >> 1u16) & 1);
            let y = (x >> 1u16) | (fb << 14u16);
            self.ch4_lfsr = if self.ch4_width_mode { (y & !(1u16 << 6u16)) | (fb << 6u16) } else { y };
        }
    }

    /// Advances the frame sequencer: lengths on even steps, envelopes on step 7, sweep on 2 and 6.
    fn tick_frame_sequencer(&mut self, memory: &mut Memory)
        requires
            old(self).wf(),
            old(memory).wf(),
        ensures
            final(self).wf(),
            final(memory).wf(),
            final(memory).same_but_data(old(memory)),
            forall|i: int|
                0 <= i < MEM_SIZE && i != io::NR13 && i != io::NR14 ==> #[trigger] final(memory).data@[i]
                    == old(memory).data@[i],
            final(self).frame_step == (old(self).frame_step + 1) % 8,
            final(self).levels@ == old(self).levels@,
            final(self).ch4_lfsr == old(self).ch4_lfsr,
            final(self).sample_counter == old(self).sample_counter,
            final(self).ch4_width_mode == old(self).ch4_width_mode,
    {
        self.frame_step = (self.frame_step + 1) % 8;
        if self.frame_step % 2 == 0 {
            self.tick_length_counters();
        }
        if self.frame_step == 7 {
            self.tick_envelopes();
        }
        if self.frame_step == 2 || self.frame_step == 6 {
            self.tick_sweep(memory);
        }
    }

    #[verifier::rlimit(100)]
    #[verifier::spinoff_prover]
    fn tick_length_counters(&mut self)
        ensures
            *final(self) == (Apu {
                ch1_length: length_step(old(self).ch1_length).0,
                ch1_enabled: old(self).ch1_enabled && !length_step(old(self).ch1_length).1,
                ch2_length: length_step(old(self).ch2_length).0,
                ch2_enabled: old(self).ch2_enabled && !length_step(old(self).ch2_length).1,
                ch3_length: length_step(old(self).ch3_length).0,
                ch3_enabled: old(self).ch3_enabled && !length_step(old(self).ch3_length).1,
                ch4_length: length_step(old(self).ch4_length).0,
                ch4_enabled: old(self).ch4_enabled && !length_step(old(self).ch4_length).1,
                ..*old(self)
            }),
    {
        let mut l1 = self.ch1_length;
        let e1 = l1.clock();
        let mut l2 = self.ch2_length;
        let e2 = l2.clock();
        let mut l3 = self.ch3_length;
        let e3 = l3.clock();
        let mut l4 = self.ch4_length;
        let e4 = l4.clock();
        self.ch1_length = l1;
        self.ch1_enabled = self.ch1_enabled && !e1;
        self.ch2_length = l2;
        self.ch2_enabled = self.ch2_enabled && !e2;
        self.ch3_length = l3;
        self.ch3_enabled = self.ch3_enabled && !e3;
        self.ch4_length = l4;
        self.ch4_enabled = self.ch4_enabled && !e4;
    }

    fn tick_envelopes(&mut self)
        requires
            old(self).wf(),
        ensures
            final(self).wf(),
            final(self).frame_step == old(self).frame_step,
            final(self).levels@ == old(self).levels@,
            final(self).ch4_lfsr == old(self).ch4_lfsr,
            final(self).ch1_envelope == envelope_step(old(self).ch1_envelope),
            final(self).ch2_envelope == envelope_step(old(self).ch2_envelope),
            final(self).ch4_envelope == envelope_step(old(self).ch4_envelope),
            final(self).sample_counter == old(self).sample_counter,
            final(self).ch4_width_mode == old(self).ch4_width_mode,
    {
        self.ch1_envelope.clock();
        self.ch2_envelope.clock();
        self.ch4_envelope.clock();
    }

    /// Clocks channel 1's sweep; a new frequency is written back to NR13/NR14.
    fn tick_sweep(&mut self, memory: &mut Memory)
        requires
            old(self).wf(),
            old(memory).wf(),
        ensures
            final(self).wf(),
            final(memory).wf(),
            final(memory).same_but_data(old(memory)),
            forall|i: int|
                0 <= i < MEM_SIZE && i != io::NR13 && i != io::NR14 ==> #[trigger] final(memory).data@[i]
                    == old(memory).data@[i],
            final(self).frame_step == old(self).frame_step,
            final(self).levels@ == old(self).levels@,
            final(self).ch4_lfsr == old(self).ch4_lfsr,
            final(self).sample_counter == old(self).sample_counter,
            final(self).ch4_width_mode == old(self).ch4_width_mode,
    {
        if self.ch1_sweep_timer > 0 {
            self.ch1_sweep_timer = self.ch1_sweep_timer - 1;
        }
        if self.ch1_sweep_timer == 0 {
            self.ch1_sweep_timer = if self.ch1_sweep_period > 0 { self.ch1_sweep_period } else { 8 };
            if self.ch1_sweep_enabled && self.ch1_sweep_period > 0 {
                let new_freq = self.calculate_sweep_frequency();
                if new_freq <= 2047 && self.ch1_sweep_shift > 0 {
                    self.ch1_frequency = new_freq;
                    self.ch1_sweep_shadow = new_freq;
                    let nr14 = memory.data[io::NR14 as usize];
                    memory.data.set(io::NR13 as usize, (new_freq & 0xFF) as u8);
                    memory.data.set(io::NR14 as usize, (nr14 & 0xF8) | ((new_freq >> 8u16) as u8));
                    let _ = self.calculate_sweep_frequency();
                }
            }
        }
    }

    /// The next sweep frequency, shadow ± shadow >> shift; one above 2047 disables channel 1.
    fn calculate_sweep_frequency(&mut self) -> (r: u16)
        requires
            old(self).wf(),
        ensures
            final(self).wf(),
            r as int == (if old(self).ch1_sweep_negate {
                old(self).ch1_sweep_shadow - (old(self).ch1_sweep_shadow >> old(self).ch1_sweep_shift as u16)
            } else {
                old(self).ch1_sweep_shadow + (old(self).ch1_sweep_shadow >> old(self).ch1_sweep_shift as u16)
            }),
            *final(self) == (Apu { ch1_enabled: old(self).ch1_enabled && r <= 2047, ..*old(self) }),
    {
        let shadow = self.ch1_sweep_shadow;
        let shift = self.ch1_sweep_shift as u16;
        let delta = shadow >> shift;
        assert(delta <= shadow) by (bit_vector)
            requires
                delta == shadow >> shift,
        ;
        let new_freq = if self.ch1_sweep_negate { shadow - delta } else { shadow + delta };
        if new_freq > 2047 {
            self.ch1_enabled = false;
        }
        new_freq
    }

    /// Mixes the four channels and appends one stereo sample (left, right) of integer
    /// levels: panned channel outputs (0..15 each) summed per side and scaled by the
    /// NR50 side volume (0..7).
    #[verifier::rlimit(100)]
    #[verifier::spinoff_prover]
    fn generate_sample_output(&mut self, memory: &Memory)
        requires
            old(self).wf(),
            memory.wf(),
        ensures
            final(self).wf(),
            final(self).levels@ == old(self).levels@.push(mix_left(old(self), memory.data@)).push(
                mix_right(old(self), memory.data@),
            ),
            mix_left(old(self), memory.data@) <= MAX_LEVEL,
            mix_right(old(self), memory.data@) <= MAX_LEVEL,
            final(self).frame_step == old(self).frame_step,
            final(self).ch4_lfsr == old(self).ch4_lfsr,
            final(self).ch4_width_mode == old(self).ch4_width_mode,
            final(self).sample_counter == old(self).sample_counter,
    {
        proof {
            lemma_register_fields();
        }
        let nr50 = memory.data[io::NR50 as usize];
        let nr51 = memory.data[io::NR51 as usize];
        let out1: u16 = if self.ch1_enabled && self.ch1_dac_enabled && duty_output(
            memory.data[io::NR11 as usize] >> 6u8,
            self.ch1_duty_position,
        ) == 1 {
            self.ch1_envelope.volume as u16
        } else {
            0
        };
        let out2: u16 = if self.ch2_enabled && self.ch2_dac_enabled && duty_output(
            memory.data[io::NR21 as usize] >> 6u8,
            self.ch2_duty_position,
        ) == 1 {
            self.ch2_envelope.volume as u16
        } else {
            0
        };
        let out3: u16 = if self.ch3_enabled && self.ch3_dac_enabled {
            let s = self.ch3_sample_buffer;
            let v = if self.ch3_volume_code == 1 {
                s
            } else if self.ch3_volume_code == 2 {
                s >> 1u8
            } else if self.ch3_volume_code == 3 {
                s >> 2u8
            } else {
                0
            };
            assert(v <= s) by (bit_vector)
                requires
                    v == s || v == s >> 1u8 || v == s >> 2u8 || v == 0,
            ;
            v as u16
        } else {
            0
        };
        let out4: u16 = if self.ch4_enabled && self.ch4_dac_enabled && self.ch4_lfsr & 1 == 0 {
            self.ch4_envelope.volume as u16
        } else {
            0
        };
        assert((out1, out2, out3, out4) == channel_outputs(self, memory.data@));
        let left = side_level(out1, out2, out3, out4, nr51 >> 4u8, (nr50 >> 4u8) & 0x07);
        let right = side_level(out1, out2, out3, out4, nr51 >> 0u8, nr50 & 0x07);
        let ghost before = self.levels@;
        self.levels.push(left);
        self.levels.push(right);
    }

    /// Drops the emitted samples.
    pub fn clear_buffer(&mut self)
        ensures
            final(self).levels@.len() == 0,
            final(self).wf() == old(self).wf(),
    {
        self.levels.clear();
    }

    /// Hands out the emitted samples and empties the buffer.
    pub fn take_samples(&mut self) -> (r: Vec<u16>)
        ensures
            r@ == old(self).levels@,
            final(self).levels@.len() == 0,
            final(self).wf() == old(self).wf(),
    {
        let mut out: Vec<u16> = Vec::new();
        std::mem::swap(&mut out, &mut self.levels);
        out
    }
}

} // verus!

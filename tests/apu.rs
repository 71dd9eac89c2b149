use gb3000::apu::{Apu, Envelope, CYCLES_PER_SAMPLE};
use gb3000::io;
use gb3000::memory::Memory;

fn audio_memory() -> Memory {
    let mut memory = Memory::new();
    memory.data[io::NR52 as usize] = 0x80;
    memory.data[io::NR50 as usize] = 0x77;
    memory.data[io::NR51 as usize] = 0xFF;
    memory
}

#[test]
fn noise_lfsr_stays_nonzero() {
    let mut apu = Apu::new();
    let mut memory = audio_memory();
    memory.data[io::NR42 as usize] = 0xF0;
    memory.data[io::NR43 as usize] = 0x00;
    memory.data[io::NR44 as usize] = 0x80;
    apu.tick(&mut memory, 1);
    assert!(apu.ch4_enabled);
    for _ in 0..200 {
        apu.tick(&mut memory, 997);
        assert_ne!(apu.ch4_lfsr, 0);
        assert!(apu.ch4_lfsr < 0x8000);
    }
}

#[test]
fn noise_lfsr_seven_bit_mode_stays_nonzero() {
    let mut apu = Apu::new();
    let mut memory = audio_memory();
    memory.data[io::NR42 as usize] = 0xF0;
    memory.data[io::NR43 as usize] = 0x08;
    memory.data[io::NR44 as usize] = 0x80;
    for _ in 0..200 {
        apu.tick(&mut memory, 501);
        assert_ne!(apu.ch4_lfsr & 0x7F, 0);
    }
}

#[test]
fn trigger_clears_trigger_bit_and_starts_channel() {
    let mut apu = Apu::new();
    let mut memory = audio_memory();
    memory.data[io::NR12 as usize] = 0xF3;
    memory.data[io::NR13 as usize] = 0x00;
    memory.data[io::NR14 as usize] = 0x87;
    apu.tick(&mut memory, 1);
    assert!(apu.ch1_enabled);
    assert_eq!(memory.data[io::NR14 as usize], 0x07);
    assert_eq!(apu.ch1_frequency, 0x700);
    assert_eq!(apu.ch1_envelope.volume, 15);
}

#[test]
fn dac_off_channel_stays_silent() {
    let mut apu = Apu::new();
    let mut memory = audio_memory();
    memory.data[io::NR22 as usize] = 0x00;
    memory.data[io::NR24 as usize] = 0x80;
    apu.tick(&mut memory, CYCLES_PER_SAMPLE);
    assert!(!apu.ch2_enabled);
    assert_eq!(apu.levels, vec![0, 0]);
}

#[test]
fn samples_emitted_at_host_rate() {
    let mut apu = Apu::new();
    let mut memory = audio_memory();
    apu.tick(&mut memory, CYCLES_PER_SAMPLE * 10);
    assert_eq!(apu.levels.len(), 20);
    let taken = apu.take_samples();
    assert_eq!(taken.len(), 20);
    assert!(apu.levels.is_empty());
}

#[test]
fn disabled_apu_does_nothing() {
    let mut apu = Apu::new();
    let mut memory = Memory::new();
    apu.tick(&mut memory, 10_000);
    assert!(apu.levels.is_empty());
    assert_eq!(apu.frame_step, 0);
}

#[test]
fn noise_level_mixed_and_scaled() {
    let mut apu = Apu::new();
    let mut memory = audio_memory();
    memory.data[io::NR51 as usize] = 0x80; // channel 4 left only
    memory.data[io::NR50 as usize] = 0x70; // left volume 7, right 0
    memory.data[io::NR42 as usize] = 0xF0;
    memory.data[io::NR44 as usize] = 0x80;
    apu.tick(&mut memory, 1);
    apu.ch4_lfsr = 0x7FFE;
    apu.ch4_timer = 1000;
    apu.clear_buffer();
    apu.tick(&mut memory, CYCLES_PER_SAMPLE);
    assert_eq!(apu.levels, vec![15 * 7, 0]);
}

#[test]
fn envelope_steps_toward_limit() {
    let mut e = Envelope { volume: 14, timer: 1, period: 1, add: true };
    e.clock();
    assert_eq!(e.volume, 15);
    e.clock();
    assert_eq!(e.volume, 15);
    let mut d = Envelope { volume: 1, timer: 2, period: 2, add: false };
    d.clock();
    assert_eq!(d.volume, 1);
    d.clock();
    assert_eq!(d.volume, 0);
    let mut idle = Envelope { volume: 5, timer: 0, period: 0, add: false };
    idle.clock();
    assert_eq!(idle.volume, 5);
}

use gb3000::interrupts;
use gb3000::io;
use gb3000::memory::Memory;
use gb3000::timer::{OverflowState, Timer};

#[test]
fn div_increments() {
    let mut timer = Timer::new();
    let mut memory = Memory::new();
    assert_eq!(memory.data[io::DIV as usize], 0);
    timer.tick(&mut memory, 256);
    assert_eq!(memory.data[io::DIV as usize], 1);
    timer.tick(&mut memory, 256);
    assert_eq!(memory.data[io::DIV as usize], 2);
}

#[test]
fn timer_interrupt_on_overflow() {
    let mut timer = Timer::new();
    let mut memory = Memory::new();
    memory.data[io::TAC as usize] = 0x05;
    memory.data[io::TIMA as usize] = 0xFF;
    memory.data[io::TMA as usize] = 0x42;
    memory.data[io::IF as usize] = 0;
    timer.tick(&mut memory, 16);
    timer.tick(&mut memory, 4);
    assert_eq!(memory.data[io::TIMA as usize], 0x42);
    assert!(memory.data[io::IF as usize] & interrupts::TIMER != 0);
}

#[test]
fn overflow_reads_zero_before_reload() {
    let mut timer = Timer::new();
    let mut memory = Memory::new();
    memory.data[io::TAC as usize] = 0x05;
    memory.data[io::TIMA as usize] = 0xFF;
    memory.data[io::TMA as usize] = 0x42;
    memory.data[io::IF as usize] = 0;
    timer.tick(&mut memory, 16);
    assert_eq!(memory.data[io::TIMA as usize], 0x00);
    assert!(timer.in_overflow_window());
    assert_eq!(memory.data[io::IF as usize] & interrupts::TIMER, 0);
    timer.tick(&mut memory, 3);
    assert_eq!(memory.data[io::TIMA as usize], 0x00);
    timer.tick(&mut memory, 1);
    assert_eq!(memory.data[io::TIMA as usize], 0x42);
    assert!(!timer.in_overflow_window());
}

#[test]
fn div_write_resets_counter_and_may_count_once() {
    // Counter 0xAB00: DIV reads 0xAB; with TAC=0x05 bit 3 is clear, so no count.
    let mut timer = Timer::new();
    let mut memory = Memory::new();
    memory.data[io::TAC as usize] = 0x05;
    timer.div_counter = 0xAB00;
    memory.data[io::DIV as usize] = 0xAB;
    memory.write_byte(io::DIV, 0x3C);
    timer.tick(&mut memory, 0);
    assert_eq!(memory.data[io::DIV as usize], 0);
    assert_eq!(timer.div_counter, 0);
    assert_eq!(memory.data[io::TIMA as usize], 0);
    // Counter with bit 3 set: the clock line falls and TIMA counts once.
    timer.div_counter = 0x0008;
    memory.write_byte(io::DIV, 0x00);
    timer.tick(&mut memory, 0);
    assert_eq!(memory.data[io::DIV as usize], 0);
    assert_eq!(memory.data[io::TIMA as usize], 1);
}

#[test]
fn tac_write_falling_edge_counts() {
    let mut timer = Timer::new();
    let mut memory = Memory::new();
    timer.div_counter = 0x0008;
    memory.data[io::TAC as usize] = 0x05;
    memory.write_byte(io::TAC, 0x00);
    timer.tick(&mut memory, 0);
    assert_eq!(memory.data[io::TIMA as usize], 1);
}

#[test]
fn tima_write_cancels_reload() {
    let mut timer = Timer::new();
    let mut memory = Memory::new();
    memory.data[io::TAC as usize] = 0x05;
    memory.data[io::TIMA as usize] = 0xFF;
    memory.data[io::TMA as usize] = 0x42;
    memory.data[io::IF as usize] = 0;
    timer.tick(&mut memory, 16);
    memory.write_byte(io::TIMA, 0x10);
    timer.tick(&mut memory, 8);
    assert_eq!(memory.data[io::TIMA as usize], 0x10);
    assert_eq!(memory.data[io::IF as usize] & interrupts::TIMER, 0);
    assert_eq!(timer.overflow, OverflowState::Idle);
}

#[test]
fn tick_is_additive() {
    let mut a = Timer::new();
    let mut ma = Memory::new();
    let mut b = Timer::new();
    let mut mb = Memory::new();
    for m in [&mut ma, &mut mb] {
        m.data[io::TAC as usize] = 0x05;
        m.data[io::TIMA as usize] = 0xF0;
        m.data[io::TMA as usize] = 0x80;
    }
    a.tick(&mut ma, 300);
    a.tick(&mut ma, 477);
    b.tick(&mut mb, 777);
    assert_eq!(a.div_counter, b.div_counter);
    assert_eq!(a.overflow, b.overflow);
    assert_eq!(ma.data, mb.data);
}

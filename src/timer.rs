//! The timer: a 16-bit divider whose upper byte is DIV, and TIMA, which counts
//! falling edges of a selected divider bit and reloads from TMA after overflowing.
use vstd::prelude::*;
use crate::interrupts;
use crate::io;
use crate::memory::{Memory, WriteFlags};

verus! {

/// T-cycles during which TIMA reads zero after an overflow, before TMA is copied in.
pub const RELOAD_DELAY: u8 = 4;

#[derive(Debug, Clone, Copy, PartialEq, Eq, Structural)]
pub enum OverflowState {
    Idle,
    /// TIMA overflowed; TMA is copied in when the count reaches zero.
    Pending(u8),
}

#[derive(Debug)]
pub struct Timer {
    /// Internal counter; its upper byte is DIV.
    pub div_counter: u16,
    pub overflow: OverflowState,
}

/// The divider bit that clocks TIMA for a TAC value.
pub open spec fn clock_bit(tac: u8) -> u16 {
    if tac & 3 == 0 {
        9
    } else if tac & 3 == 1 {
        3
    } else if tac & 3 == 2 {
        5
    } else {
        7
    }
}

/// The timer clock line: the selected divider bit ANDed with the TAC enable bit.
pub open spec fn clock_high(counter: u16, tac: u8) -> bool {
    tac & 4 != 0 && (counter >> clock_bit(tac)) & 1 != 0
}

/// Timer and address array after TIMA counts once.
pub open spec fn increment_spec(t: Timer, d: Seq<u8>) -> (Timer, Seq<u8>) {
    let tima = d[io::TIMA as int];
    if tima == 0xFF {
        (Timer { overflow: OverflowState::Pending(RELOAD_DELAY), ..t }, d.update(io::TIMA as int, 0))
    } else {
        (t, d.update(io::TIMA as int, (tima + 1) as u8))
    }
}

/// Timer and address array after one T-cycle.
pub open spec fn timer_step(t: Timer, d: Seq<u8>) -> (Timer, Seq<u8>) {
    let tac = d[io::TAC as int];
    let cnt = ((t.div_counter as int + 1) % 0x10000) as u16;
    let d1 = d.update(io::DIV as int, (cnt >> 8u16) as u8);
    let (ov, d2) = match t.overflow {
        OverflowState::Pending(n) => if n <= 1 {
            (
                OverflowState::Idle,
                d1.update(io::TIMA as int, d1[io::TMA as int]).update(
                    io::IF as int,
                    d1[io::IF as int] | interrupts::TIMER,
                ),
            )
        } else {
            (OverflowState::Pending((n - 1) as u8), d1)
        },
        OverflowState::Idle => (OverflowState::Idle, d1),
    };
    let t2 = Timer { div_counter: cnt, overflow: ov };
    if clock_high(t.div_counter, tac) && !clock_high(cnt, tac) {
        increment_spec(t2, d2)
    } else {
        (t2, d2)
    }
}

/// Timer and address array after `n` T-cycles.
pub open spec fn timer_run(t: Timer, d: Seq<u8>, n: nat) -> (Timer, Seq<u8>)
    decreases n,
{
    if n == 0 {
        (t, d)
    } else {
        let (t1, d1) = timer_run(t, d, (n - 1) as nat);
        timer_step(t1, d1)
    }
}

/// Effect of a write to DIV: the counter restarts; a clock line that was high falls.
pub open spec fn div_reset_spec(t: Timer, d: Seq<u8>) -> (Timer, Seq<u8>) {
    let t1 = Timer { div_counter: 0, ..t };
    let d1 = d.update(io::DIV as int, 0);
    if clock_high(t.div_counter, d[io::TAC as int]) {
        increment_spec(t1, d1)
    } else {
        (t1, d1)
    }
}

/// Effect of TAC changing from `old_tac` to `new_tac`.
pub open spec fn tac_change_spec(t: Timer, d: Seq<u8>, old_tac: u8, new_tac: u8) -> (Timer, Seq<u8>) {
    if clock_high(t.div_counter, old_tac) && !clock_high(t.div_counter, new_tac) {
        increment_spec(t, d)
    } else {
        (t, d)
    }
}

/// Timer and address array once the pending DIV, TAC and TIMA writes are acted on.
pub open spec fn timer_sync(t: Timer, d: Seq<u8>, w: WriteFlags) -> (Timer, Seq<u8>) {
    let (t1, d1) = if w.div { div_reset_spec(t, d) } else { (t, d) };
    let (t2, d2) = if w.tac { tac_change_spec(t1, d1, w.tac_old, d1[io::TAC as int]) } else { (t1, d1) };
    let t3 = if w.tima && t2.overflow is Pending { Timer { overflow: OverflowState::Idle, ..t2 } } else { t2 };
    (t3, d2)
}

/// The pending-write flags once the timer has taken its own.
pub open spec fn timer_flags_taken(w: WriteFlags) -> WriteFlags {
    WriteFlags { div: false, tac: false, tima: false, ..w }
}

/// Timer, address array and pending writes after `tick(n)`.
pub open spec fn timer_tick_spec(t: Timer, d: Seq<u8>, w: WriteFlags, n: nat) -> (Timer, Seq<u8>, WriteFlags) {
    let (t1, d1) = timer_sync(t, d, w);
    let (t2, d2) = timer_run(t1, d1, n);
    (t2, d2, timer_flags_taken(w))
}

proof fn lemma_run_split(t: Timer, d: Seq<u8>, n: nat, m: nat)
    ensures
        timer_run(timer_run(t, d, n).0, timer_run(t, d, n).1, m) == timer_run(t, d, n + m),
    decreases m,
{
    if m > 0 {
        lemma_run_split(t, d, n, (m - 1) as nat);
        assert(n + m - 1 == n + (m - 1) as nat);
    }
}

/// Ticking `n` and then `m` T-cycles leaves the timer, the address array and the pending
/// writes as ticking `n + m` T-cycles at once.
pub proof fn lemma_tick_additive(t: Timer, d: Seq<u8>, w: WriteFlags, n: nat, m: nat)
    ensures
        ({
            let s = timer_tick_spec(t, d, w, n);
            timer_tick_spec(s.0, s.1, s.2, m)
        }) == timer_tick_spec(t, d, w, n + m),
{
    let (t1, d1) = timer_sync(t, d, w);
    lemma_run_split(t1, d1, n, m);
    let s = timer_tick_spec(t, d, w, n);
    assert(timer_sync(s.0, s.1, s.2) == (s.0, s.1));
}

/// A write to DIV leaves DIV and the counter at zero and counts TIMA at most once.
pub proof fn lemma_div_write(t: Timer, d: Seq<u8>)
    requires
        d.len() == 0x10000,
    ensures
        ({
            let (t1, d1) = div_reset_spec(t, d);
            &&& t1.div_counter == 0
            &&& d1[io::DIV as int] == 0
            &&& d1[io::TIMA as int] == d[io::TIMA as int] || d1[io::TIMA as int] == (d[io::TIMA as int] + 1) % 256
        }),
{
}

proof fn lemma_run_keeps_low(t: Timer, d: Seq<u8>, n: nat)
    requires
        d.len() == 0x10000,
    ensures
        timer_run(t, d, n).1.len() == d.len(),
        forall|i: int| 0 <= i < 0xFE00 ==> #[trigger] timer_run(t, d, n).1[i] == d[i],
    decreases n,
{
    if n > 0 {
        lemma_run_keeps_low(t, d, (n - 1) as nat);
    }
}

/// Ticking the timer writes only its registers and IF: nothing below 0xFE00 changes.
pub proof fn lemma_tick_keeps_low(t: Timer, d: Seq<u8>, w: WriteFlags, n: nat)
    requires
        d.len() == 0x10000,
    ensures
        timer_tick_spec(t, d, w, n).1.len() == d.len(),
        forall|i: int| 0 <= i < 0xFE00 ==> #[trigger] timer_tick_spec(t, d, w, n).1[i] == d[i],
{
    let (t1, d1) = timer_sync(t, d, w);
    assert(d1.len() == d.len());
    assert(forall|i: int| 0 <= i < 0xFE00 ==> #[trigger] d1[i] == d[i]);
    lemma_run_keeps_low(t1, d1, n);
}

impl Timer {
    /// A pending reload counts down from 4 to 1.
    pub open spec fn wf(&self) -> bool {
        match self.overflow {
            OverflowState::Pending(n) => 1 <= n <= RELOAD_DELAY,
            OverflowState::Idle => true,
        }
    }

    pub fn new() -> (r: Self)
        ensures
            r.wf(),
            r.div_counter == 0,
            r.overflow == OverflowState::Idle,
    {
        Timer { div_counter: 0, overflow: OverflowState::Idle }
    }

    pub fn reset(&mut self)
        ensures
            final(self).wf(),
            final(self).div_counter == 0,
            final(self).overflow == OverflowState::Idle,
    {
        self.div_counter = 0;
        self.overflow = OverflowState::Idle;
    }

    /// The divider bit that clocks TIMA for a TAC value.
    fn get_bit_position(tac: u8) -> (r: u16)
        ensures
            r == clock_bit(tac),
    {
        match tac & 0x03 {
            0 => 9,
            1 => 3,
            2 => 5,
            _ => 7,
        }
    }

    fn clock_high_at(counter: u16, tac: u8) -> (r: bool)
        ensures
            r == clock_high(counter, tac),
    {
        if tac & 0x04 == 0 {
            return false;
        }
        let bit = Self::get_bit_position(tac);
        (counter >> bit) & 1 != 0
    }

    /// Whether the timer clock line is high now.
    fn timer_clock_high(&self, tac: u8) -> (r: bool)
        ensures
            r == clock_high(self.div_counter, tac),
    {
        Self::clock_high_at(self.div_counter, tac)
    }

    /// Advances the timer by the given number of T-cycles, after acting on pending
    /// writes to DIV, TAC and TIMA.
    pub fn tick(&mut self, memory: &mut Memory, cycles: u32)
        requires
            old(self).wf(),
            old(memory).wf(),
        ensures
            final(self).wf(),
            final(memory).wf(),
            ({
                let s = timer_tick_spec(*old(self), old(memory).data@, old(memory).written, cycles as nat);
                *final(self) == s.0 && final(memory).data@ == s.1 && final(memory).written == s.2
            }),
            final(memory).rom@ == old(memory).rom@,
            final(memory).eram@ == old(memory).eram@,
            final(memory).cart_type == old(memory).cart_type,
            final(memory).mbc == old(memory).mbc,
            final(memory).joypad_state == old(memory).joypad_state,
            final(memory).dma == old(memory).dma,
    {
        self.process_writes(memory);
        let ghost t0: Timer = *self;
        let ghost m0: Memory = *memory;
        let mut i: u32 = 0;
        while i < cycles
            invariant
                i <= cycles,
                self.wf(),
                memory.wf(),
                memory.same_but_data(&m0),
                (*self, memory.data@) == timer_run(t0, m0.data@, i as nat),
            decreases cycles - i,
        {
            self.tick_single(memory);
            i = i + 1;
        }
    }

    /// Acts on the DIV, TAC and TIMA writes that memory has recorded.
    fn process_writes(&mut self, memory: &mut Memory)
        requires
            old(self).wf(),
            old(memory).wf(),
        ensures
            final(self).wf(),
            final(memory).wf(),
            (*final(self), final(memory).data@) == timer_sync(*old(self), old(memory).data@, old(memory).written),
            final(memory).written == timer_flags_taken(old(memory).written),
            final(memory).rom@ == old(memory).rom@,
            final(memory).eram@ == old(memory).eram@,
            final(memory).cart_type == old(memory).cart_type,
            final(memory).mbc == old(memory).mbc,
            final(memory).joypad_state == old(memory).joypad_state,
            final(memory).dma == old(memory).dma,
    {
        let w = memory.written;
        memory.written.div = false;
        memory.written.tac = false;
        memory.written.tima = false;
        if w.div {
            self.write_div(memory);
        }
        if w.tac {
            let new_tac = memory.data[io::TAC as usize];
            self.write_tac(memory, w.tac_old, new_tac);
        }
        if w.tima && self.in_overflow_window() {
            self.overflow = OverflowState::Idle;
        }
    }

    /// Advances the timer by a single T-cycle.
    fn tick_single(&mut self, memory: &mut Memory)
        requires
            old(self).wf(),
            old(memory).wf(),
        ensures
            final(self).wf(),
            final(memory).wf(),
            (*final(self), final(memory).data@) == timer_step(*old(self), old(memory).data@),
            final(memory).same_but_data(old(memory)),
    {
        let tac = memory.data[io::TAC as usize];
        let old_clock = self.timer_clock_high(tac);
        self.div_counter = self.div_counter.wrapping_add(1);
        memory.data.set(io::DIV as usize, (self.div_counter >> 8u16) as u8);
        match self.overflow {
            OverflowState::Pending(n) => {
                if n <= 1 {
                    let tma = memory.data[io::TMA as usize];
                    memory.data.set(io::TIMA as usize, tma);
                    memory.request_interrupt(interrupts::TIMER);
                    self.overflow = OverflowState::Idle;
                } else {
                    self.overflow = OverflowState::Pending(n - 1);
                }
            },
            OverflowState::Idle => {},
        }
        let new_clock = self.timer_clock_high(tac);
        if old_clock && !new_clock {
            self.increment_tima(memory);
        }
    }

    /// Counts TIMA once; an overflow leaves it at zero and starts the delayed reload.
    fn increment_tima(&mut self, memory: &mut Memory)
        requires
            old(self).wf(),
            old(memory).wf(),
        ensures
            final(self).wf(),
            final(memory).wf(),
            (*final(self), final(memory).data@) == increment_spec(*old(self), old(memory).data@),
            final(memory).same_but_data(old(memory)),
    {
        let tima = memory.data[io::TIMA as usize];
        if tima == 0xFF {
            memory.data.set(io::TIMA as usize, 0);
            self.overflow = OverflowState::Pending(RELOAD_DELAY);
        } else {
            memory.data.set(io::TIMA as usize, tima + 1);
        }
    }

    /// Acts on a write to DIV: the counter restarts, which may count TIMA once.
    pub fn write_div(&mut self, memory: &mut Memory)
        requires
            old(self).wf(),
            old(memory).wf(),
        ensures
            final(self).wf(),
            final(memory).wf(),
            (*final(self), final(memory).data@) == div_reset_spec(*old(self), old(memory).data@),
            final(memory).same_but_data(old(memory)),
    {
        let tac = memory.data[io::TAC as usize];
        let old_clock = self.timer_clock_high(tac);
        self.div_counter = 0;
        memory.data.set(io::DIV as usize, 0);
        if old_clock {
            self.increment_tima(memory);
        }
    }

    /// Acts on TAC changing from `old_tac` to `new_tac`: a falling clock line counts TIMA once.
    pub fn write_tac(&mut self, memory: &mut Memory, old_tac: u8, new_tac: u8)
        requires
            old(self).wf(),
            old(memory).wf(),
        ensures
            final(self).wf(),
            final(memory).wf(),
            (*final(self), final(memory).data@) == tac_change_spec(*old(self), old(memory).data@, old_tac, new_tac),
            final(memory).same_but_data(old(memory)),
    {
        let old_clock = Self::clock_high_at(self.div_counter, old_tac);
        let new_clock = Self::clock_high_at(self.div_counter, new_tac);
        if old_clock && !new_clock {
            self.increment_tima(memory);
        }
    }

    /// Writes TIMA; a write during the reload delay cancels the reload.
    pub fn write_tima(&mut self, memory: &mut Memory, value: u8)
        requires
            old(memory).wf(),
        ensures
            final(self).wf(),
            final(memory).wf(),
            final(memory).data@ == old(memory).data@.update(io::TIMA as int, value),
            final(memory).same_but_data(old(memory)),
            *final(self) == (Timer { overflow: OverflowState::Idle, ..*old(self) }),
    {
        memory.data.set(io::TIMA as usize, value);
        self.overflow = OverflowState::Idle;
    }

    /// Whether TIMA is between an overflow and its reload.
    pub fn in_overflow_window(&self) -> (r: bool)
        ensures
            r == self.overflow is Pending,
    {
        match self.overflow {
            OverflowState::Pending(_) => true,
            OverflowState::Idle => false,
        }
    }
}

} // verus!

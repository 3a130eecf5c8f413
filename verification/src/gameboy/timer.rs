//! The divider and the programmable timer.
//!
//! A 16-bit counter runs at the master clock; its high byte is DIV. TAC
//! selects one counter bit and gates it with an enable bit; TIMA counts the
//! falling edges of that gated signal, whether the edge comes from the
//! counter running on or from a write to DIV or TAC. When TIMA wraps, the
//! interrupt and the reload from TMA follow a few cycles later, and a write
//! to TIMA in between calls both off.
use vstd::prelude::*;

use crate::gameboy::bits::bit;
use crate::gameboy::bits::bit16;
use crate::gameboy::bits::has_bit;

verus! {

#[derive(Clone, Copy, Debug)]
pub struct Timer {
    /// The internal counter; DIV is its high byte.
    pub div: u16,
    pub tima: u8,
    pub tma: u8,
    pub tac: u8,
    /// Set from the cycle in which TIMA wraps until the reload is over.
    pub tima_overflown: bool,
    /// Cycles counted since TIMA wrapped, the cycle of the wrap included.
    pub ticks_since_tima_overflown: u8,
}

impl Timer {
    /// The counter bit that the low two bits of TAC select.
    pub open spec fn selected_bit(tac: u8) -> u8 {
        if tac % 4 == 0 {
            9
        } else if tac % 4 == 1 {
            3
        } else if tac % 4 == 2 {
            5
        } else {
            7
        }
    }

    /// The enable bit of TAC.
    pub open spec fn enabled(tac: u8) -> bool {
        has_bit(tac as int, 2)
    }

    /// The signal that TIMA counts the falling edges of: the selected counter
    /// bit, gated by the enable bit.
    pub open spec fn signal(div: u16, tac: u8) -> bool {
        Self::enabled(tac) && has_bit(div as int, Self::selected_bit(tac))
    }

    /// No overflow is pending unless TIMA has wrapped, and a pending one is at
    /// most five cycles old.
    pub open spec fn wf(self) -> bool {
        &&& self.ticks_since_tima_overflown <= 5
        &&& !self.tima_overflown ==> self.ticks_since_tima_overflown == 0
    }

    /// The timer after TIMA has counted one edge.
    pub open spec fn counted(self) -> Timer {
        if self.tima == 255 {
            Timer { tima: 0, tima_overflown: true, ticks_since_tima_overflown: 0, ..self }
        } else {
            Timer { tima: (self.tima + 1) as u8, ..self }
        }
    }

    /// The timer after the counter and TAC have taken new values: TIMA counts
    /// if that made the signal fall.
    pub open spec fn moved_to(self, div: u16, tac: u8) -> Timer {
        let moved = Timer { div, tac, ..self };
        if Self::signal(self.div, self.tac) && !Self::signal(div, tac) {
            moved.counted()
        } else {
            moved
        }
    }

    /// The counter value of the next master cycle.
    pub open spec fn next_div(self) -> u16 {
        if self.div == 0xFFFF {
            0
        } else {
            (self.div + 1) as u16
        }
    }

    /// One master cycle: the timer afterwards, and whether the timer
    /// interrupt is to be requested in this cycle.
    pub open spec fn ticked(self) -> (Timer, bool) {
        let t = self.moved_to(self.next_div(), self.tac);
        if !t.tima_overflown {
            (t, false)
        } else if t.ticks_since_tima_overflown == 3 {
            (Timer { ticks_since_tima_overflown: 4, ..t }, true)
        } else if t.ticks_since_tima_overflown == 4 {
            (Timer { tima: t.tma, ticks_since_tima_overflown: 5, ..t }, false)
        } else if t.ticks_since_tima_overflown == 5 {
            (
                Timer { tima: t.tma, tima_overflown: false, ticks_since_tima_overflown: 0, ..t },
                false,
            )
        } else {
            (
                Timer {
                    ticks_since_tima_overflown: (t.ticks_since_tima_overflown + 1) as u8,
                    ..t
                },
                false,
            )
        }
    }

    /// What a read of a timer register gives. 0xFF03 is the low byte of the
    /// counter, 0xFF04 DIV, 0xFF05 TIMA, 0xFF06 TMA, 0xFF07 TAC with its
    /// unused bits high.
    pub open spec fn read_spec(self, addr: u16) -> u8 {
        if addr == 0xFF03 {
            (self.div % 256) as u8
        } else if addr == 0xFF04 {
            (self.div / 256) as u8
        } else if addr == 0xFF05 {
            self.tima
        } else if addr == 0xFF06 {
            self.tma
        } else {
            (248 + self.tac % 8) as u8
        }
    }

    /// The timer after a write to one of its registers. A write to the
    /// counter clears it whatever the value; a write to TIMA is dropped once
    /// the interrupt of a pending overflow has been raised.
    pub open spec fn written(self, addr: u16, val: u8) -> Timer {
        if addr == 0xFF03 || addr == 0xFF04 {
            self.moved_to(0, self.tac)
        } else if addr == 0xFF05 {
            if self.ticks_since_tima_overflown < 4 {
                Timer { tima: val, tima_overflown: false, ticks_since_tima_overflown: 0, ..self }
            } else {
                self
            }
        } else if addr == 0xFF06 {
            Timer { tma: val, ..self }
        } else {
            self.moved_to(self.div, val)
        }
    }

    /// The timer at power-on.
    pub open spec fn initial() -> Timer {
        Timer {
            div: 5,
            tima: 0,
            tma: 0,
            tac: 0,
            tima_overflown: false,
            ticks_since_tima_overflown: 0,
        }
    }

    pub fn new() -> (timer: Self)
        ensures
            timer == Self::initial(),
            timer.wf(),
    {
        Self {
            div: 0x0005,
            tima: 0,
            tma: 0,
            tac: 0,
            tima_overflown: false,
            ticks_since_tima_overflown: 0,
        }
    }

    pub fn is_timer_enabled(&self) -> (enabled: bool)
        ensures
            enabled == Self::enabled(self.tac),
    {
        bit(self.tac, 2)
    }

    /// The selected counter bit gated by the enable bit, for a given counter
    /// value and TAC.
    fn signal_of(div: u16, tac: u8) -> (high: bool)
        ensures
            high == Self::signal(div, tac),
    {
        let select = tac % 4;
        let n: u8 = if select == 0 {
            9
        } else if select == 1 {
            3
        } else if select == 2 {
            5
        } else {
            7
        };
        bit(tac, 2) && bit16(div, n)
    }

    /// Advances the timer by one master cycle and says whether the timer
    /// interrupt is to be requested in this cycle.
    pub fn tick(&mut self) -> (request_timer_interrupt: bool)
        requires
            old(self).wf(),
        ensures
            (*final(self), request_timer_interrupt) == old(self).ticked(),
            final(self).wf(),
    {
        let prev_div = self.div;
        self.div = self.div.wrapping_add(1);
        if self.div_falling_edge_occured(prev_div, self.div) && self.is_timer_enabled() {
            self.incr_tima();
        }
        let mut request_timer_interrupt = false;
        if self.tima_overflown {
            self.ticks_since_tima_overflown += 1;
            if self.ticks_since_tima_overflown == 4 {
                request_timer_interrupt = true;
            } else if self.ticks_since_tima_overflown == 5 {
                self.tima = self.tma;
            } else if self.ticks_since_tima_overflown == 6 {
                self.tima = self.tma;
                self.tima_overflown = false;
                self.ticks_since_tima_overflown = 0;
            }
        }
        request_timer_interrupt
    }

    /// Whether the selected counter bit was high in `prev_div` and is low in
    /// `current_div`.
    pub fn div_falling_edge_occured(&self, prev_div: u16, current_div: u16) -> (fell: bool)
        ensures
            fell == (has_bit(prev_div as int, Self::selected_bit(self.tac)) && !has_bit(
                current_div as int,
                Self::selected_bit(self.tac),
            )),
    {
        let select = self.tac % 4;
        let n: u8 = if select == 0 {
            9
        } else if select == 1 {
            3
        } else if select == 2 {
            5
        } else {
            7
        };
        bit16(prev_div, n) && !bit16(current_div, n)
    }

    /// Counts one edge; a wrap of TIMA starts the overflow sequence.
    pub fn incr_tima(&mut self)
        ensures
            *final(self) == old(self).counted(),
    {
        self.tima = self.tima.wrapping_add(1);
        if self.tima == 0 {
            self.tima_overflown = true;
            self.ticks_since_tima_overflown = 0;
        }
    }

    pub fn read(&self, addr: u16) -> (val: u8)
        requires
            0xFF03 <= addr <= 0xFF07,
        ensures
            val == self.read_spec(addr),
    {
        if addr == 0xFF03 {
            (self.div % 256) as u8
        } else if addr == 0xFF04 {
            (self.div / 256) as u8
        } else if addr == 0xFF05 {
            self.tima
        } else if addr == 0xFF06 {
            self.tma
        } else {
            248 + self.tac % 8
        }
    }

    pub fn write(&mut self, addr: u16, val: u8)
        requires
            0xFF03 <= addr <= 0xFF07,
            old(self).wf(),
        ensures
            *final(self) == old(self).written(addr, val),
            final(self).wf(),
    {
        if addr == 0xFF03 || addr == 0xFF04 {
            let was_high = Self::signal_of(self.div, self.tac);
            self.div = 0;
            if was_high && !Self::signal_of(self.div, self.tac) {
                self.incr_tima();
            }
        } else if addr == 0xFF05 {
            if self.ticks_since_tima_overflown < 4 {
                self.tima = val;
                self.tima_overflown = false;
                self.ticks_since_tima_overflown = 0;
            }
        } else if addr == 0xFF06 {
            self.tma = val;
        } else {
            let was_high = Self::signal_of(self.div, self.tac);
            self.tac = val;
            if was_high && !Self::signal_of(self.div, self.tac) {
                self.incr_tima();
            }
        }
    }
}

/// TIMA counts exactly the falling edges of the gated signal. A write to DIV
/// counts if and only if the signal was high, since it leaves the signal low;
/// a write to TAC counts if and only if the signal was high under the old
/// TAC and is low under the new one; a master cycle without a pending
/// overflow counts if and only if the signal falls as the counter runs on.
/// Wherever TIMA counts it goes up by one, wrapping to zero.
pub proof fn lemma_tima_counts_falling_edges(timer: Timer, val: u8)
    requires
        timer.wf(),
    ensures
        timer.written(0xFF04, val) == if Timer::signal(timer.div, timer.tac) {
            (Timer { div: 0, ..timer }).counted()
        } else {
            Timer { div: 0, ..timer }
        },
        timer.written(0xFF07, val) == if Timer::signal(timer.div, timer.tac) && !Timer::signal(
            timer.div,
            val,
        ) {
            (Timer { tac: val, ..timer }).counted()
        } else {
            Timer { tac: val, ..timer }
        },
        !timer.tima_overflown ==> timer.ticked().0.tima == if Timer::signal(timer.div, timer.tac)
            && !Timer::signal(timer.next_div(), timer.tac) {
            if timer.tima == 255 {
                0u8
            } else {
                (timer.tima + 1) as u8
            }
        } else {
            timer.tima
        },
        timer.counted().tima == (timer.tima + 1) % 256,
        timer.counted().tima_overflown == (timer.tima_overflown || timer.tima == 255),
{
}

/// A write to TIMA before the interrupt of a pending overflow has been raised
/// sets TIMA to the value written and calls the overflow off: the cycle after
/// it requests nothing. Left alone, the sequence requests the interrupt in
/// the fourth cycle, loads TMA into TIMA in the fifth, and loads it once more
/// in the sixth and ends; writes to TIMA in the fifth and sixth cycle are
/// dropped. The claims about cycles leave out a cycle in which TIMA wraps
/// anew.
pub proof fn lemma_tima_overflow_timing(timer: Timer, val: u8)
    requires
        timer.wf(),
        timer.tima_overflown,
    ensures
        timer.ticks_since_tima_overflown < 4 ==> {
            let written = timer.written(0xFF05, val);
            &&& written.tima == val
            &&& !written.tima_overflown
            &&& !written.ticked().1
        },
        timer.ticks_since_tima_overflown >= 4 ==> timer.written(0xFF05, val) == timer,
        !timer.wraps_next() ==> {
            let (next, request) = timer.ticked();
            &&& request == (timer.ticks_since_tima_overflown == 3)
            &&& timer.ticks_since_tima_overflown >= 4 ==> next.tima == timer.tma
            &&& next.tima_overflown == (timer.ticks_since_tima_overflown != 5)
        },
{
}

impl Timer {
    /// Whether TIMA wraps in the next master cycle.
    pub open spec fn wraps_next(self) -> bool {
        &&& self.tima == 255
        &&& Self::signal(self.div, self.tac)
        &&& !Self::signal(self.next_div(), self.tac)
    }
}

} // verus!

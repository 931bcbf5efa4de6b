//! The polled, timer-gated interrupt controller.
//!
//! Delivery is level-polled between dispatched instructions, never during
//! one: the driver hands the controller a monotonic timestamp, and the
//! controller fires only when the machine has interrupts enabled and at
//! least one period has elapsed since the previous fire. Firing pushes
//! the program counter with the same discipline as a call, jumps to the
//! vector's fixed table slot, and disables interrupts until the running
//! program re-enables them.

use vstd::prelude::*;

use crate::fault::Fault;
use crate::model::spec_interrupt;
use crate::vm::Vm;

verus! {

/// Interval that must elapse between two interrupt deliveries, in
/// microseconds: nominally one sixtieth of a second, modeling a
/// vertical-blank signal.
pub const INTERRUPT_PERIOD_MICROS: u64 = 16667;

/// Whether the interrupt condition holds for a machine whose
/// interrupt-enable flag is `int_enable`, a previous fire at
/// `last_fire_us` and the clock now at `now_us`.
pub open spec fn spec_fires(int_enable: u8, last_fire_us: u64, now_us: u64) -> bool {
    int_enable == 1 && now_us - last_fire_us >= INTERRUPT_PERIOD_MICROS
}

/// The interrupt controller: the vector number it delivers and the
/// timestamp of the previous fire, in microseconds of a monotonic clock.
pub struct InterruptController {
    pub interrupt_num: i32,
    pub last_fire_us: u64,
}

impl InterruptController {
    /// Well-formedness: the vector number is small enough that eight
    /// times it is an address.
    pub open spec fn wf(&self) -> bool {
        0 <= self.interrupt_num < 0x2000
    }

    /// A controller for the given vector that has never fired.
    pub fn new(interrupt_num: i32) -> (r: InterruptController)
        requires
            0 <= interrupt_num < 0x2000,
        ensures
            r.wf(),
            r.interrupt_num == interrupt_num,
            r.last_fire_us == 0,
    {
        InterruptController { interrupt_num, last_fire_us: 0 }
    }

    /// Polls the interrupt condition and fires at most once: delivery
    /// happens exactly when interrupts are enabled and at least one
    /// period has elapsed since the previous fire; a delivery that the
    /// stack cannot take is the fault, and nothing changes.
    pub fn maybe_interrupt(&mut self, vm: &mut Vm, now_us: u64) -> (r: Result<bool, Fault>)
        requires
            old(self).wf(),
            old(vm).wf(),
            now_us >= old(self).last_fire_us,
        ensures
            final(self).wf(),
            final(vm).wf(),
            final(self).interrupt_num == old(self).interrupt_num,
            !spec_fires(old(vm).int_enable, old(self).last_fire_us, now_us) ==> r == Ok::<
                bool,
                Fault,
            >(false) && final(vm)@ == old(vm)@ && *final(self) == *old(self),
            spec_fires(old(vm).int_enable, old(self).last_fire_us, now_us) ==> {
                &&& (spec_interrupt(old(vm)@, old(self).interrupt_num) matches Ok(s2) ==> r == Ok::<
                    bool,
                    Fault,
                >(true) && final(vm)@ == s2 && final(self).last_fire_us == now_us)
                &&& (spec_interrupt(old(vm)@, old(self).interrupt_num) matches Err(f) ==> r
                    == Err::<bool, Fault>(f) && final(vm)@ == old(vm)@ && *final(self) == *old(
                    self,
                ))
            },
    {
        if vm.int_enable == 1 && now_us - self.last_fire_us >= INTERRUPT_PERIOD_MICROS {
            match vm.generate_interrupt(self.interrupt_num) {
                Ok(()) => {
                    self.last_fire_us = now_us;
                    Ok(true)
                },
                Err(f) => Err(f),
            }
        } else {
            Ok(false)
        }
    }
}

} // verus!

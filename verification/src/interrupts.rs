use vstd::prelude::*;

use crate::memory::AccessSize;

verus! {

pub const INTERRUPTS_BASE: u32 = 0x1f80_1070;
pub const INTERRUPTS_END: u32 = 0x1f80_1077;

/// The interrupt controller: a status register of pending requests and a
/// mask register of enabled ones.
#[derive(Debug)]
pub struct InterruptController {
    /// The interrupt status register
    pub i_stat: u16,
    /// The interrupt mask register
    pub i_mask: u16,
}

impl InterruptController {
    /// A controller with no interrupt pending or enabled.
    pub fn new() -> (r: Self)
        ensures
            r.i_stat == 0,
            r.i_mask == 0,
    {
        InterruptController { i_stat: 0, i_mask: 0 }
    }

    /// Sets the status bit of the IRQ `source` (0 to 10).
    pub fn trigger_irq(&mut self, source: usize)
        requires
            source <= 10,
        ensures
            final(self).i_stat == old(self).i_stat | (1u16 << source),
            final(self).i_mask == old(self).i_mask,
    {
        self.i_stat = self.i_stat | (1u16 << source as u16);
    }

    /// Returns true when the controller has pending and enabled interrupts.
    pub fn should_interrupt(&self) -> (r: bool)
        ensures
            r == (self.i_stat & self.i_mask != 0),
    {
        (self.i_stat & self.i_mask) != 0
    }

    /// Reads I_STAT (at 0x1f80_1070) or I_MASK (at 0x1f80_1074).
    pub fn read(&self, address: u32, _size: AccessSize) -> (r: u32)
        requires
            address == 0x1f80_1070 || address == 0x1f80_1074,
        ensures
            r == if address == 0x1f80_1070 { self.i_stat as u32 } else { self.i_mask as u32 },
    {
        if address == 0x1f80_1070 {
            self.i_stat as u32
        } else {
            self.i_mask as u32
        }
    }

    /// Writes I_STAT or I_MASK. A write to I_STAT acknowledges: bits written
    /// as 0 are cleared and bits written as 1 are left unchanged.
    pub fn write(&mut self, address: u32, value: u32, _size: AccessSize)
        requires
            address == 0x1f80_1070 || address == 0x1f80_1074,
        ensures
            address == 0x1f80_1070 ==> final(self).i_stat == old(self).i_stat & (value as u16)
                && final(self).i_mask == old(self).i_mask,
            address == 0x1f80_1074 ==> final(self).i_mask == value as u16
                && final(self).i_stat == old(self).i_stat,
    {
        if address == 0x1f80_1070 {
            self.i_stat = self.i_stat & (value as u16);
        } else {
            self.i_mask = value as u16;
        }
    }
}

/// Acknowledging every pending interrupt leaves nothing to take: after a
/// write of 0 to I_STAT, `should_interrupt` is false whatever the mask.
pub proof fn lemma_acknowledge_all(stat: u16, mask: u16)
    ensures
        (stat & (0u32 as u16)) & mask == 0,
{
    assert((stat & (0u32 as u16)) & mask == 0) by (bit_vector);
}

} // verus!

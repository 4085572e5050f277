//! The CPU's view of memory: the MIPS segments over the physical bus, the
//! cache-isolation window and the control registers of kseg2.

use vstd::prelude::*;

use super::{Cpu, MemoryError};
use crate::bus::{ram_offset, BusError, Devices};
use crate::memory::{is_aligned, read_le, write_le, AccessSize};

verus! {

/// The segments of the MIPS address space.
#[derive(Clone, Copy, Debug, PartialEq, Eq, Structural)]
pub enum MipsSegment {
    Kuseg,
    Kseg0,
    Kseg1,
    Kseg2,
}

/// The segment of a virtual address: kuseg below 0x8000_0000, kseg0 and
/// kseg1 the next two 512MB, kseg2 the top 1GB.
pub open spec fn segment_of(address: u32) -> MipsSegment {
    if address < 0x8000_0000 {
        MipsSegment::Kuseg
    } else if address < 0xa000_0000 {
        MipsSegment::Kseg0
    } else if address < 0xc000_0000 {
        MipsSegment::Kseg1
    } else {
        MipsSegment::Kseg2
    }
}

/// The physical address of a virtual one: kuseg maps as it is, kseg0 and
/// kseg1 drop their top 3 bits, kseg2 its top 2.
pub open spec fn physical_of(address: u32) -> u32 {
    if address < 0x8000_0000 {
        address
    } else if address < 0xc000_0000 {
        address & 0x1fff_ffff
    } else {
        address & 0x3fff_ffff
    }
}

/// The kseg2 addresses of CPU control registers whose behaviour is not
/// known: reads give all ones, writes are ignored.
pub open spec fn reserved_control(address: u32) -> bool {
    (0xfffe_0000 <= address <= 0xfffe_001f) || (0xfffe_0100 <= address <= 0xfffe_012f) || (
    0xfffe_0134 <= address <= 0xfffe_013f)
}

/// The BIU/cache control register.
pub open spec fn biu_cache_address(address: u32) -> bool {
    0xfffe_0130 <= address <= 0xfffe_0133
}

/// How the top bits of an address select its segment.
proof fn lemma_segment_bits(address: u32)
    by (bit_vector)
    ensures
        (address & 0x8000_0000 == 0) <==> address < 0x8000_0000,
        address & 0x8000_0000 != 0 ==> (((address >> 28u32) & 0x0e == 0x8) <==> (0x8000_0000 <= address
            < 0xa000_0000)) && (((address >> 28u32) & 0x0e == 0xa) <==> (0xa000_0000 <= address
            < 0xc000_0000)) && (((address >> 28u32) & 0x0e == 0xc || (address >> 28u32) & 0x0e == 0xe)
            <==> 0xc000_0000 <= address),
{
}

impl<D: Devices> Cpu<D> {
    /// Whether a read of `size` at virtual address `address` reaches main
    /// RAM: aligned, outside the isolated cache window and kseg2, and in
    /// RAM or its mirrors.
    pub open spec fn ram_readable(&self, address: u32, size: AccessSize) -> bool {
        let phys = physical_of(address);
        &&& is_aligned(address, size)
        &&& !(self.cop0.status & 0x1_0000 != 0 && address < 0x1000)
        &&& address < 0xc000_0000
        &&& ram_offset(phys) is Some
        &&& !crate::bus::in_stub(phys)
        &&& self.bus.read_supported(phys, size)
    }

    /// The value such a read gives.
    pub open spec fn ram_value(&self, address: u32, size: AccessSize) -> u32 {
        read_le(self.bus.ram.bytes(), ram_offset(physical_of(address)).unwrap(), size)
    }

    /// Whether a write of `value` (of `size`) at `address` reaches main RAM.
    pub open spec fn ram_writable(&self, address: u32, value: u32, size: AccessSize) -> bool {
        let phys = physical_of(address);
        &&& is_aligned(address, size)
        &&& !(self.cop0.status & 0x1_0000 != 0 && address < 0x1000)
        &&& address < 0xc000_0000
        &&& ram_offset(phys) is Some
        &&& !crate::bus::in_stub(phys)
        &&& self.bus.write_supported(phys, value, size)
    }

    /// RAM after such a write.
    pub open spec fn ram_after_write(&self, address: u32, value: u32, size: AccessSize) -> Seq<u8> {
        write_le(self.bus.ram.bytes(), ram_offset(physical_of(address)).unwrap(), value, size)
    }

    /// The segment and physical address of a virtual address.
    pub fn extract_segment(&self, address: u32) -> (r: (MipsSegment, u32))
        ensures
            r.0 == segment_of(address),
            r.1 == physical_of(address),
    {
        proof {
            lemma_segment_bits(address);
        }
        if address & 0x8000_0000 == 0 {
            (MipsSegment::Kuseg, address)
        } else {
            let top = (address >> 28u32) & 0x0e;
            if top == 0x8 {
                (MipsSegment::Kseg0, address & 0x1fff_ffff)
            } else if top == 0xa {
                (MipsSegment::Kseg1, address & 0x1fff_ffff)
            } else {
                (MipsSegment::Kseg2, address & 0x3fff_ffff)
            }
        }
    }

    /// Checks that the address is a multiple of the access size.
    pub fn check_alignment(address: u32, size: AccessSize) -> (r: Result<(), MemoryError>)
        ensures
            r is Ok <==> is_aligned(address, size),
            r is Err ==> r == Err::<(), MemoryError>(MemoryError::AlignmentError),
    {
        match size {
            AccessSize::Byte => Ok(()),
            AccessSize::HalfWord => {
                proof { crate::bits::lemma_alignment(address); }
                if address & 1 == 0 {
                    Ok(())
                } else {
                    Err(MemoryError::AlignmentError)
                }
            },
            AccessSize::Word => {
                proof { crate::bits::lemma_alignment(address); }
                if address & 3 == 0 {
                    Ok(())
                } else {
                    Err(MemoryError::AlignmentError)
                }
            },
        }
    }

    /// Reads memory at a virtual address. A misaligned address is an
    /// alignment error; with the cache isolated the first 4KB read as 0;
    /// kseg2 holds only the CPU control registers; everything else goes to
    /// the bus at the physical address.
    pub fn read_memory(&mut self, address: u32, size: AccessSize) -> (r: Result<u32, MemoryError>)
        requires
            old(self).wf(),
        ensures
            final(self).wf(),
            final(self).registers == old(self).registers,
            final(self).bus.ram.bytes() == old(self).bus.ram.bytes(),
            final(self).cop0 == old(self).cop0,
            final(self).gte == old(self).gte,
            final(self).pc == old(self).pc && final(self).npc == old(self).npc,
            final(self).hi == old(self).hi && final(self).lo == old(self).lo,
            final(self).branch_target == old(self).branch_target,
            final(self).next_is_bds == old(self).next_is_bds,
            final(self).load_delay == old(self).load_delay,
            final(self).current_load_delay == old(self).current_load_delay,
            final(self).current_pc == old(self).current_pc,
            final(self).current_is_bds == old(self).current_is_bds,
            final(self).branch_taken == old(self).branch_taken,
            final(self).current_instruction == old(self).current_instruction,
            final(self).step_cycles == old(self).step_cycles,
            final(self).biu_cache_control == old(self).biu_cache_control,
            !is_aligned(address, size) ==> r == Err::<u32, MemoryError>(MemoryError::AlignmentError),
            is_aligned(address, size) && old(self).cop0.status & 0x1_0000 != 0 && address < 0x1000
                ==> r == Ok::<u32, MemoryError>(0),
            ({
                let phys = physical_of(address);
                is_aligned(address, size) && !(old(self).cop0.status & 0x1_0000 != 0 && address < 0x1000)
                    && address < 0xc000_0000 && ram_offset(phys) is Some && !crate::bus::in_stub(phys)
                    && old(self).bus.read_supported(phys, size) ==> r == Ok::<u32, MemoryError>(
                    read_le(old(self).bus.ram.bytes(), ram_offset(phys).unwrap(), size),
                )
            }),
            is_aligned(address, size) && address >= 0xc000_0000 && reserved_control(address) ==> r
                == Ok::<u32, MemoryError>(0xffff_ffff),
            is_aligned(address, size) && address >= 0xc000_0000 && biu_cache_address(address) ==> r
                == (if size == AccessSize::Word { Ok::<u32, MemoryError>(old(self).biu_cache_control) }
                else { Err::<u32, MemoryError>(MemoryError::Unsupported) }),
            is_aligned(address, size) && address >= 0xc000_0000 && !reserved_control(address)
                && !biu_cache_address(address) ==> r == Err::<u32, MemoryError>(MemoryError::BusError),
    {
        Self::check_alignment(address, size)?;
        if self.cop0.isolate_cache() && address < 0x1000 {
            return Ok(0);
        }
        let (segment, phys_addr) = self.extract_segment(address);
        match segment {
            MipsSegment::Kseg2 => {
                if (0xfffe_0000 <= address && address <= 0xfffe_001f) || (0xfffe_0100 <= address
                    && address <= 0xfffe_012f) || (0xfffe_0134 <= address && address <= 0xfffe_013f) {
                    Ok(0xffff_ffff)
                } else if 0xfffe_0130 <= address && address <= 0xfffe_0133 {
                    if size == AccessSize::Word {
                        Ok(self.biu_cache_control)
                    } else {
                        Err(MemoryError::Unsupported)
                    }
                } else {
                    Err(MemoryError::BusError)
                }
            },
            _ => match self.bus.read(phys_addr, size) {
                Ok(value) => Ok(value),
                Err(BusError::Unmapped) => Err(MemoryError::BusError),
                Err(BusError::Unsupported) => Err(MemoryError::Unsupported),
            },
        }
    }

    /// Writes memory at a virtual address, with the same map as reads;
    /// with the cache isolated, writes to the first 4KB are dropped.
    pub fn write_memory(&mut self, address: u32, value: u32, size: AccessSize) -> (r: Result<(), MemoryError>)
        requires
            old(self).wf(),
        ensures
            final(self).wf(),
            final(self).registers == old(self).registers,
            final(self).cop0 == old(self).cop0,
            final(self).gte == old(self).gte,
            final(self).pc == old(self).pc && final(self).npc == old(self).npc,
            final(self).hi == old(self).hi && final(self).lo == old(self).lo,
            final(self).branch_target == old(self).branch_target,
            final(self).next_is_bds == old(self).next_is_bds,
            final(self).load_delay == old(self).load_delay,
            final(self).current_load_delay == old(self).current_load_delay,
            final(self).current_pc == old(self).current_pc,
            final(self).current_is_bds == old(self).current_is_bds,
            final(self).branch_taken == old(self).branch_taken,
            final(self).current_instruction == old(self).current_instruction,
            final(self).step_cycles == old(self).step_cycles,
            !is_aligned(address, size) ==> r == Err::<(), MemoryError>(MemoryError::AlignmentError)
                && final(self).bus == old(self).bus,
            is_aligned(address, size) && old(self).cop0.status & 0x1_0000 != 0 && address < 0x1000
                ==> r is Ok && final(self).bus == old(self).bus,
            ({
                let phys = physical_of(address);
                is_aligned(address, size) && !(old(self).cop0.status & 0x1_0000 != 0 && address < 0x1000)
                    && address < 0xc000_0000 && ram_offset(phys) is Some && !crate::bus::in_stub(phys)
                    && old(self).bus.write_supported(phys, value, size) ==> r is Ok
                    && final(self).bus.ram.bytes() == write_le(
                    old(self).bus.ram.bytes(),
                    ram_offset(phys).unwrap(),
                    value,
                    size,
                )
            }),
            address >= 0xc000_0000 ==> final(self).bus == old(self).bus,
            is_aligned(address, size) && address >= 0xc000_0000 && biu_cache_address(address) && size
                == AccessSize::Word ==> r is Ok && final(self).biu_cache_control == value,
            !(address >= 0xc000_0000 && biu_cache_address(address)) ==> final(self).biu_cache_control
                == old(self).biu_cache_control,
            is_aligned(address, size) && address >= 0xc000_0000 && !reserved_control(address)
                && !biu_cache_address(address) ==> r == Err::<(), MemoryError>(MemoryError::BusError),
    {
        Self::check_alignment(address, size)?;
        if self.cop0.isolate_cache() && address < 0x1000 {
            return Ok(());
        }
        let (segment, phys_addr) = self.extract_segment(address);
        match segment {
            MipsSegment::Kseg2 => {
                if (0xfffe_0000 <= address && address <= 0xfffe_001f) || (0xfffe_0100 <= address
                    && address <= 0xfffe_012f) || (0xfffe_0134 <= address && address <= 0xfffe_013f) {
                    Ok(())
                } else if 0xfffe_0130 <= address && address <= 0xfffe_0133 {
                    if size == AccessSize::Word {
                        self.biu_cache_control = value;
                        Ok(())
                    } else {
                        Err(MemoryError::Unsupported)
                    }
                } else {
                    Err(MemoryError::BusError)
                }
            },
            _ => match self.bus.write(phys_addr, value, size) {
                Ok(()) => Ok(()),
                Err(BusError::Unmapped) => Err(MemoryError::BusError),
                Err(BusError::Unsupported) => Err(MemoryError::Unsupported),
            },
        }
    }
}

} // verus!

//! The system bus: the physical memory map, from RAM, the scratchpad and
//! the BIOS ROM to the peripherals' registers, and the DMA transfers a
//! channel start triggers.

use vstd::prelude::*;

use crate::dma::{
    flagged, irq_master, priority_key, with_master_flag, Busy, Channel, ChannelLink, Direction, Dma, SyncMode,
    Trigger,
};
use crate::interrupts::{InterruptController, INTERRUPTS_BASE, INTERRUPTS_END};
use crate::joy::{Joy, MAX_BAUD};
use crate::memory::{
    read_le,
    size_bytes,
    write_le,
    AccessSize,
    Ram,
    Rom,
    Scratchpad,
    RAM_END,
    RAM_SIZE,
    ROM_BASE,
    ROM_END,
    ROM_SIZE,
    SCRATCHPAD_BASE,
    SCRATCHPAD_END,
    SCRATCHPAD_SIZE,
};
use crate::spu::{spu_write_ok, Spu, SOUND_RAM_SIZE, SPU_BASE};
use crate::timers::{timer_register, Timers, TIMERS_BASE, TIMERS_END};

verus! {

/// The devices whose registers the bus forwards to but whose behaviour
/// lies outside this library: the GPU, the CD-ROM drive and the debug
/// character port.
pub trait Devices {
    fn gpu_read(&mut self, address: u32) -> u32;

    fn gpu_write(&mut self, address: u32, value: u32);

    fn cdrom_read(&mut self, address: u32, size: AccessSize) -> u32;

    fn cdrom_write(&mut self, address: u32, value: u32);

    fn putchar(&mut self, c: u8);
}

/// Devices that read as zero and ignore writes.
pub struct NoDevices;

impl Devices for NoDevices {
    fn gpu_read(&mut self, address: u32) -> u32 {
        0
    }

    fn gpu_write(&mut self, address: u32, value: u32) {
    }

    fn cdrom_read(&mut self, address: u32, size: AccessSize) -> u32 {
        0
    }

    fn cdrom_write(&mut self, address: u32, value: u32) {
    }

    fn putchar(&mut self, c: u8) {
    }
}

/// A call the bus made to the devices, with what a read gave back.
pub enum DeviceCall {
    GpuRead { address: u32, value: u32 },
    GpuWrite { address: u32, value: u32 },
    CdromRead { address: u32, size: AccessSize, value: u32 },
    CdromWrite { address: u32, value: u32 },
    Putchar { c: u8 },
}

/// Why a bus access failed.
#[derive(Clone, Copy, Debug, PartialEq, Eq, Structural)]
pub enum BusError {
    /// Nothing answers at the address.
    Unmapped,
    /// A device answers, but not to an access of this kind (a size, offset
    /// or value it does not handle).
    Unsupported,
}

pub const BIU_CONTROL_BASE: u32 = 0x1f80_1000;
pub const BIU_CONTROL_END: u32 = 0x1f80_1023;
pub const DRAM_CONTROL_BASE: u32 = 0x1f80_1060;
pub const DRAM_CONTROL_END: u32 = 0x1f80_1063;
/// The debug port that prints each byte written to it.
pub const PUTCHAR_ADDRESS: u32 = 0x1f80_4000;

/// The expansion and unemulated areas: reads give 0, writes are ignored.
pub open spec fn in_stub(address: u32) -> bool {
    (0x1f00_0000 <= address <= 0x1f7f_ffff) || (0x1f80_1050 <= address <= 0x1f80_105f) || (
    0x1f80_1820 <= address <= 0x1f80_1827) || (0x1f80_2000 <= address <= 0x1f80_3fff) || (
    0x1fa0_0000 <= address <= 0x1fbf_ffff)
}

/// The offset in RAM of a RAM address or of its mirror up to 8MB.
pub open spec fn ram_offset(address: u32) -> Option<int> {
    if address <= RAM_END {
        Some(address as int)
    } else if 0x0020_0000 <= address <= 0x007f_ffff {
        Some((address & 0x1f_ffff) as int)
    } else {
        None
    }
}

pub open spec fn in_scratchpad(address: u32) -> bool {
    SCRATCHPAD_BASE <= address <= SCRATCHPAD_END
}

pub open spec fn in_rom(address: u32) -> bool {
    ROM_BASE <= address <= ROM_END
}

pub open spec fn in_gpu(address: u32) -> bool {
    0x1f80_1810 <= address <= 0x1f80_1817
}

pub open spec fn in_joy(address: u32) -> bool {
    0x1f80_1040 <= address <= 0x1f80_104f
}

pub open spec fn in_biu(address: u32) -> bool {
    BIU_CONTROL_BASE <= address <= BIU_CONTROL_END
}

pub open spec fn in_dma(address: u32) -> bool {
    0x1f80_1080 <= address <= 0x1f80_10f4
}

pub open spec fn in_timers(address: u32) -> bool {
    TIMERS_BASE <= address <= TIMERS_END
}

pub open spec fn in_cdrom(address: u32) -> bool {
    0x1f80_1800 <= address <= 0x1f80_1803
}

pub open spec fn in_spu(address: u32) -> bool {
    0x1f80_1c00 <= address <= 0x1f80_2000
}

pub open spec fn in_dram(address: u32) -> bool {
    DRAM_CONTROL_BASE <= address <= DRAM_CONTROL_END
}

pub open spec fn in_interrupts(address: u32) -> bool {
    INTERRUPTS_BASE <= address <= INTERRUPTS_END
}

/// Whether anything answers a read at `address`.
pub open spec fn readable(address: u32) -> bool {
    in_stub(address) || in_scratchpad(address) || ram_offset(address) is Some || in_rom(address)
        || in_gpu(address) || in_joy(address) || in_biu(address) || in_dma(address) || in_timers(
        address,
    ) || in_cdrom(address) || in_spu(address) || in_dram(address) || in_interrupts(address)
}

/// Whether anything answers a write at `address`.
pub open spec fn writable(address: u32) -> bool {
    readable(address) || address == PUTCHAR_ADDRESS
}

/// Whether an offset within the DMA registers names a register.
pub open spec fn dma_register(offset: u32) -> bool {
    (offset < 0x70 && (offset & 0xf == 0 || offset & 0xf == 4 || offset & 0xf == 8)) || offset == 0x70
        || offset == 0x74
}

/// The words an ordering-table clear writes: from `addr` on, each entry
/// points to the one `step` bytes on, and the last holds the end marker
/// 0xff_ffff.
pub open spec fn otc_fill(bytes: Seq<u8>, addr: u32, step: i32, remaining: nat) -> Seq<u8>
    decreases remaining,
{
    if remaining == 0 {
        bytes
    } else {
        let next = vstd::wrapping::u32_specs::wrapping_add(addr, step as u32) & 0x1f_fffc;
        let word = if remaining == 1 {
            0xff_ffffu32
        } else {
            next
        };
        otc_fill(write_le(bytes, addr as int, word, AccessSize::Word), next, step, (remaining - 1) as nat)
    }
}

/// What a recorded CD-ROM read gave back (0 for any other call).
pub open spec fn cdrom_value(call: DeviceCall) -> u32 {
    match call {
        DeviceCall::CdromRead { value, .. } => value,
        _ => 0,
    }
}

/// A byte-wide read of the CD-ROM data register.
pub open spec fn is_cdrom_data_read(call: DeviceCall) -> bool {
    call matches DeviceCall::CdromRead { address, size, .. } && address == 0x1f80_1802 && size == AccessSize::Byte
}

/// Word `k` of a CD-ROM transfer whose reads were recorded from `calls[start]`
/// on: the four reads of the word, the first in the lowest byte.
pub open spec fn cdrom_dma_word(calls: Seq<DeviceCall>, start: int, k: int) -> u32 {
    let i = start + 4 * k;
    cdrom_value(calls[i]) | (cdrom_value(calls[i + 1]) << 8u32) | (cdrom_value(calls[i + 2]) << 16u32) | (
    cdrom_value(calls[i + 3]) << 24u32)
}

/// The calls that hand `words`, in order, to the GPU's command port.
pub open spec fn gpu_port_writes(words: Seq<u32>) -> Seq<DeviceCall> {
    Seq::new(words.len(), |k: int| DeviceCall::GpuWrite { address: 0x1f80_1810, value: words[k] })
}

/// Handing two runs of words to the GPU is handing the first, then the
/// second.
proof fn lemma_gpu_port_writes_append(a: Seq<u32>, b: Seq<u32>)
    ensures
        gpu_port_writes(a + b) == gpu_port_writes(a) + gpu_port_writes(b),
{
    assert(gpu_port_writes(a + b) =~= gpu_port_writes(a) + gpu_port_writes(b));
}

/// The command words of the packet whose header is at `addr`: the words
/// after the header, `step` bytes apart, as many as bits 31..24 of the
/// header say.
pub open spec fn gpu_packet_words(ram: Seq<u8>, addr: u32, step: i32) -> Seq<u32> {
    let header = read_le(ram, addr as int, AccessSize::Word);
    Seq::new((header >> 24u32) as nat, |j: int| read_le(ram, dma_word_address(addr, step, j + 1), AccessSize::Word))
}

/// The command words a linked list of GPU packets from the header at `addr`
/// sends, packet after packet, within `fuel` headers.
pub open spec fn gpu_list_words(ram: Seq<u8>, addr: u32, step: i32, fuel: nat) -> Seq<u32>
    decreases fuel,
{
    if fuel == 0 {
        Seq::empty()
    } else {
        let next = read_le(ram, addr as int, AccessSize::Word) & 0xff_ffff;
        if next == 0xff_ffff {
            gpu_packet_words(ram, addr, step)
        } else {
            gpu_packet_words(ram, addr, step) + gpu_list_words(ram, next, step, (fuel - 1) as nat)
        }
    }
}

/// Word `k` of RAM from byte `base` on.
pub open spec fn ram_word(bytes: Seq<u8>, base: u32, k: int) -> u32 {
    read_le(bytes, base + 4 * k, AccessSize::Word)
}

/// The address of word `k` of a DMA run from `base` that moves 4 bytes up
/// (`step` positive) or down per word.
pub open spec fn dma_word_address(base: u32, step: i32, k: int) -> int {
    if step >= 0 {
        base + 4 * k
    } else {
        base - 4 * k
    }
}

/// Each of the first `n` words of the run lies in RAM.
pub open spec fn dma_run_fits(base: u32, step: i32, n: int) -> bool {
    forall|k: int|
        0 <= k < n ==> 0 <= #[trigger] dma_word_address(base, step, k) && dma_word_address(base, step, k) + 4
            <= RAM_SIZE
}

/// The first `n` words of the run, as `ram` holds them.
pub open spec fn dma_words(ram: Seq<u8>, base: u32, step: i32, n: nat) -> Seq<u32> {
    Seq::new(n, |k: int| read_le(ram, dma_word_address(base, step, k), AccessSize::Word))
}

/// Sound RAM and transfer address after the SPU's transfer FIFO took
/// `words` in order from transfer address `at`, which moves on 4 bytes per
/// word and back to 0 at the end of sound RAM; `None` where a word would
/// not fit before the end.
pub open spec fn fifo_fill(sound: Seq<u8>, at: u32, words: Seq<u32>) -> Option<(Seq<u8>, u32)>
    decreases words.len(),
{
    if words.len() == 0 {
        Some((sound, at))
    } else if at + 4 > SOUND_RAM_SIZE {
        None
    } else {
        let next = if at + 4 >= SOUND_RAM_SIZE {
            0u32
        } else {
            (at + 4) as u32
        };
        fifo_fill(write_le(sound, at as int, words[0], AccessSize::Word), next, words.drop_first())
    }
}

/// The linked list of GPU packets from the header at `addr` ends within
/// `fuel` headers, each header and command word lying in RAM. A header
/// holds its packet's word count in bits 31..24 and the next header's
/// address below them, 0xff_ffff ending the list; the packet's words follow
/// the header, `step` bytes apart.
pub open spec fn gpu_list_ends(ram: Seq<u8>, addr: u32, step: i32, fuel: nat) -> bool
    decreases fuel,
{
    if fuel == 0 {
        false
    } else {
        let header = read_le(ram, addr as int, AccessSize::Word);
        let next = header & 0xff_ffff;
        &&& dma_run_fits(addr, step, (header >> 24u32) + 1)
        &&& (next == 0xff_ffff || gpu_list_ends(ram, next, step, (fuel - 1) as nat))
    }
}

/// No channel is both enabled and active.
pub open spec fn dma_idle(dma: Dma) -> bool {
    forall|j: int| 0 <= j < 7 ==> !(dma.channels@[j].active_spec() && #[trigger] dma.enabled_spec(dma.channels@[j].link))
}

/// Channel `i` is enabled and active, and no channel of higher priority is.
pub open spec fn dma_selected(dma: Dma, i: int) -> bool {
    &&& dma.channels@[i].active_spec() && dma.enabled_spec(dma.channels@[i].link)
    &&& forall|j: int| 0 <= j < 7 && priority_key(dma.dpcr, j) < priority_key(dma.dpcr, i)
        ==> !(dma.channels@[j].active_spec() && #[trigger] dma.enabled_spec(dma.channels@[j].link))
}

/// The bus and the devices it owns.
pub struct Bus<D: Devices> {
    pub ram: Ram,
    pub rom: Rom,
    pub spu: Spu,
    pub dma: Dma,
    pub timers: Timers,
    pub interrupts: InterruptController,
    /// The BIU control registers: expansion 1 and 2 addresses, then the
    /// size and timing registers of expansion 1, 3, the ROM, the SPU, the
    /// CD-ROM and expansion 2, and the common timings.
    pub biu_control: [u32; 9],
    /// The DRAM control register.
    pub dram_control: u32,
    pub scratchpad: Scratchpad,
    pub joy: Joy,
    pub devices: D,
    /// Every call made to the devices, in order.
    pub calls: Ghost<Seq<DeviceCall>>,
}

impl<D: Devices> Bus<D> {
    pub open spec fn wf(&self) -> bool {
        &&& self.ram.wf()
        &&& self.rom.wf()
        &&& self.scratchpad.wf()
        &&& self.spu.wf()
        &&& self.dma.wf()
        &&& self.timers.wf()
        &&& self.joy.wf()
    }

    /// Whether a read of `size` at `address` is one the device there
    /// handles.
    pub open spec fn read_supported(&self, address: u32, size: AccessSize) -> bool {
        if in_stub(address) {
            true
        } else if in_scratchpad(address) {
            address - SCRATCHPAD_BASE + size_bytes(size) <= SCRATCHPAD_SIZE
        } else if ram_offset(address) is Some {
            ram_offset(address).unwrap() + size_bytes(size) <= RAM_SIZE
        } else if in_rom(address) {
            address - ROM_BASE + size_bytes(size) <= ROM_SIZE
        } else if in_gpu(address) || in_biu(address) || in_dram(address) {
            size == AccessSize::Word
        } else if in_joy(address) {
            address == 0x1f80_1040 || address == 0x1f80_1044 || address == 0x1f80_104a || address
                == 0x1f80_104e
        } else if in_dma(address) {
            dma_register((address - 0x1f80_1080) as u32)
        } else if in_timers(address) {
            timer_register(address)
        } else if in_interrupts(address) {
            address == 0x1f80_1070 || address == 0x1f80_1074
        } else {
            true
        }
    }

    /// Whether a write of `value` (of `size`) at `address` is one the
    /// device there handles.
    pub open spec fn write_supported(&self, address: u32, value: u32, size: AccessSize) -> bool {
        if in_stub(address) {
            true
        } else if ram_offset(address) is Some {
            ram_offset(address).unwrap() + size_bytes(size) <= RAM_SIZE
        } else if in_spu(address) {
            spu_write_ok(self.spu, address, value, size)
        } else if in_joy(address) {
            (address == 0x1f80_1040 || address == 0x1f80_1048 || address == 0x1f80_104a || address
                == 0x1f80_104e) && (address == 0x1f80_104e ==> value <= MAX_BAUD)
        } else if in_scratchpad(address) {
            address - SCRATCHPAD_BASE + size_bytes(size) <= SCRATCHPAD_SIZE
        } else if in_dma(address) {
            let offset = (address - 0x1f80_1080) as u32;
            size == AccessSize::Word && dma_register(offset) && (offset < 0x70 && offset & 0xf == 8
                ==> crate::dma::control_write_valid((offset >> 4u32) as u32, value))
        } else if in_timers(address) {
            timer_register(address)
        } else if in_gpu(address) || in_biu(address) || in_dram(address) {
            size == AccessSize::Word
        } else if in_interrupts(address) {
            address == 0x1f80_1070 || address == 0x1f80_1074
        } else {
            true
        }
    }

    /// A bus with fresh devices and the given GPU and CD-ROM.
    pub fn new(devices: D) -> (r: Self)
        ensures
            r.wf(),
            forall|i: int| 0 <= i < RAM_SIZE ==> r.ram.bytes()[i] == 0,
            r.dram_control == 0,
            r.devices == devices,
            r.calls@ == Seq::<DeviceCall>::empty(),
    {
        Bus {
            ram: Ram::new(),
            rom: Rom::new(),
            spu: Spu::new(),
            dma: Dma::new(),
            timers: Timers::new(),
            interrupts: InterruptController::new(),
            biu_control: [0; 9],
            dram_control: 0,
            scratchpad: Scratchpad::new(),
            joy: Joy::new(),
            devices,
            calls: Ghost(Seq::empty()),
        }
    }

    /// Reads a GPU register, recording the call.
    fn call_gpu_read(&mut self, address: u32) -> (r: u32)
        ensures
            final(self).calls@ == old(self).calls@.push(DeviceCall::GpuRead { address, value: r }),
            *final(self) == (Bus { devices: final(self).devices, calls: final(self).calls, ..*old(self) }),
    {
        let r = self.devices.gpu_read(address);
        self.calls = Ghost(self.calls@.push(DeviceCall::GpuRead { address, value: r }));
        r
    }

    /// Writes a GPU register, recording the call.
    fn call_gpu_write(&mut self, address: u32, value: u32)
        ensures
            final(self).calls@ == old(self).calls@.push(DeviceCall::GpuWrite { address, value }),
            *final(self) == (Bus { devices: final(self).devices, calls: final(self).calls, ..*old(self) }),
    {
        self.devices.gpu_write(address, value);
        self.calls = Ghost(self.calls@.push(DeviceCall::GpuWrite { address, value }));
    }

    /// Reads a CD-ROM register, recording the call.
    fn call_cdrom_read(&mut self, address: u32, size: AccessSize) -> (r: u32)
        ensures
            final(self).calls@ == old(self).calls@.push(DeviceCall::CdromRead { address, size, value: r }),
            *final(self) == (Bus { devices: final(self).devices, calls: final(self).calls, ..*old(self) }),
    {
        let r = self.devices.cdrom_read(address, size);
        self.calls = Ghost(self.calls@.push(DeviceCall::CdromRead { address, size, value: r }));
        r
    }

    /// Writes a CD-ROM register, recording the call.
    fn call_cdrom_write(&mut self, address: u32, value: u32)
        ensures
            final(self).calls@ == old(self).calls@.push(DeviceCall::CdromWrite { address, value }),
            *final(self) == (Bus { devices: final(self).devices, calls: final(self).calls, ..*old(self) }),
    {
        self.devices.cdrom_write(address, value);
        self.calls = Ghost(self.calls@.push(DeviceCall::CdromWrite { address, value }));
    }

    /// Prints a character on the debug port, recording the call.
    fn call_putchar(&mut self, c: u8)
        ensures
            final(self).calls@ == old(self).calls@.push(DeviceCall::Putchar { c }),
            *final(self) == (Bus { devices: final(self).devices, calls: final(self).calls, ..*old(self) }),
    {
        self.devices.putchar(c);
        self.calls = Ghost(self.calls@.push(DeviceCall::Putchar { c }));
    }

    fn stub(address: u32) -> (r: bool)
        ensures
            r == in_stub(address),
    {
        (0x1f00_0000 <= address && address <= 0x1f7f_ffff) || (0x1f80_1050 <= address && address
            <= 0x1f80_105f) || (0x1f80_1820 <= address && address <= 0x1f80_1827) || (0x1f80_2000
            <= address && address <= 0x1f80_3fff) || (0x1fa0_0000 <= address && address
            <= 0x1fbf_ffff)
    }

    /// Performs a read on the bus. Memory reads are little-endian; a read
    /// of device registers may change the device (acknowledging data).
    pub fn read(&mut self, address: u32, size: AccessSize) -> (r: Result<u32, BusError>)
        requires
            old(self).wf(),
        ensures
            final(self).wf(),
            final(self).ram.bytes() == old(self).ram.bytes(),
            final(self).rom.bytes() == old(self).rom.bytes(),
            final(self).scratchpad.bytes() == old(self).scratchpad.bytes(),
            final(self).dram_control == old(self).dram_control,
            final(self).biu_control == old(self).biu_control,
            r == Err::<u32, BusError>(BusError::Unmapped) <==> !readable(address),
            r == Err::<u32, BusError>(BusError::Unsupported) <==> readable(address)
                && !old(self).read_supported(address, size),
            in_stub(address) ==> r == Ok::<u32, BusError>(0),
            !in_stub(address) && in_scratchpad(address) && old(self).read_supported(address, size)
                ==> r == Ok::<u32, BusError>(
                read_le(old(self).scratchpad.bytes(), address - SCRATCHPAD_BASE, size),
            ),
            !in_stub(address) && ram_offset(address) is Some && old(self).read_supported(address, size)
                ==> r == Ok::<u32, BusError>(
                read_le(old(self).ram.bytes(), ram_offset(address).unwrap(), size),
            ),
            in_rom(address) && old(self).read_supported(address, size) ==> r == Ok::<u32, BusError>(
                read_le(old(self).rom.bytes(), address - ROM_BASE, size),
            ),
            in_biu(address) && size == AccessSize::Word ==> r == Ok::<u32, BusError>(
                old(self).biu_control[(address - BIU_CONTROL_BASE) / 4],
            ),
            in_dram(address) && size == AccessSize::Word ==> r == Ok::<u32, BusError>(
                old(self).dram_control,
            ),
            address == 0x1f80_1070 ==> r == Ok::<u32, BusError>(old(self).interrupts.i_stat as u32),
            address == 0x1f80_1074 ==> r == Ok::<u32, BusError>(old(self).interrupts.i_mask as u32),
            in_dma(address) && dma_register((address - 0x1f80_1080) as u32) ==> r == Ok::<u32, BusError>(
                old(self).dma.read_value((address - 0x1f80_1080) as u32, size),
            ),
            timer_register(address) ==> (r matches Ok(v) && old(self).timers.read_effect(final(self).timers, address, v)),
            address == 0x1f80_1040 || address == 0x1f80_1044 || address == 0x1f80_104a || address == 0x1f80_104e
                ==> (r matches Ok(v) && old(self).joy.read_effect(final(self).joy, address, v)),
            !in_stub(address) && in_spu(address) ==> r == Ok::<u32, BusError>(old(self).spu.read_value(address)),
            in_gpu(address) && size == AccessSize::Word ==> (r matches Ok(v) && final(self).calls@ == old(
                self,
            ).calls@.push(DeviceCall::GpuRead { address, value: v })),
            in_cdrom(address) ==> (r matches Ok(v) && final(self).calls@ == old(self).calls@.push(
                DeviceCall::CdromRead { address, size, value: v },
            )),
            !(in_gpu(address) && size == AccessSize::Word) && !in_cdrom(address) ==> final(self).calls@ == old(
                self,
            ).calls@,
    {
        if Self::stub(address) {
            return Ok(0);
        }
        let bytes = size.bytes();
        if SCRATCHPAD_BASE <= address && address <= SCRATCHPAD_END {
            if address - SCRATCHPAD_BASE + bytes > SCRATCHPAD_SIZE as u32 {
                return Err(BusError::Unsupported);
            }
            Ok(self.scratchpad.read(address, size))
        } else if address <= RAM_END {
            if address + bytes > RAM_SIZE as u32 {
                return Err(BusError::Unsupported);
            }
            Ok(self.ram.read(address, size))
        } else if 0x0020_0000 <= address && address <= 0x007f_ffff {
            let mirrored = address & 0x1f_ffff;
            proof { crate::bits::lemma_and_le(address, 0x1f_ffff); }
            let address = mirrored;
            if address + bytes > RAM_SIZE as u32 {
                return Err(BusError::Unsupported);
            }
            Ok(self.ram.read(address, size))
        } else if ROM_BASE <= address && address <= ROM_END {
            if address - ROM_BASE + bytes > ROM_SIZE as u32 {
                return Err(BusError::Unsupported);
            }
            Ok(self.rom.read(address, size))
        } else if 0x1f80_1810 <= address && address <= 0x1f80_1817 {
            if size != AccessSize::Word {
                return Err(BusError::Unsupported);
            }
            Ok(self.call_gpu_read(address))
        } else if 0x1f80_1040 <= address && address <= 0x1f80_104f {
            if address == 0x1f80_1040 || address == 0x1f80_1044 || address == 0x1f80_104a
                || address == 0x1f80_104e {
                Ok(self.joy.read(address))
            } else {
                Err(BusError::Unsupported)
            }
        } else if BIU_CONTROL_BASE <= address && address <= BIU_CONTROL_END {
            if size != AccessSize::Word {
                return Err(BusError::Unsupported);
            }
            let index = ((address - BIU_CONTROL_BASE) / 4) as usize;
            Ok(self.biu_control[index])
        } else if 0x1f80_1080 <= address && address <= 0x1f80_10f4 {
            let offset = address - 0x1f80_1080;
            if (offset < 0x70 && (offset & 0xf == 0 || offset & 0xf == 4 || offset & 0xf == 8))
                || offset == 0x70 || offset == 0x74 {
                Ok(self.dma.read(offset, size))
            } else {
                Err(BusError::Unsupported)
            }
        } else if TIMERS_BASE <= address && address <= TIMERS_END {
            let reg = (address - TIMERS_BASE) & 0xf;
            if reg == 0 || reg == 4 || reg == 8 {
                Ok(self.timers.read(address))
            } else {
                Err(BusError::Unsupported)
            }
        } else if 0x1f80_1800 <= address && address <= 0x1f80_1803 {
            Ok(self.call_cdrom_read(address, size))
        } else if 0x1f80_1c00 <= address && address <= 0x1f80_2000 {
            Ok(self.spu.read(address, size))
        } else if DRAM_CONTROL_BASE <= address && address <= DRAM_CONTROL_END {
            if size != AccessSize::Word {
                return Err(BusError::Unsupported);
            }
            Ok(self.dram_control)
        } else if INTERRUPTS_BASE <= address && address <= INTERRUPTS_END {
            if address == 0x1f80_1070 || address == 0x1f80_1074 {
                Ok(self.interrupts.read(address, size))
            } else {
                Err(BusError::Unsupported)
            }
        } else {
            Err(BusError::Unmapped)
        }
    }

    /// Performs a write on the bus. Memory writes are little-endian; a
    /// write to the DMA registers may start a transfer, which runs to its
    /// end at once.
    pub fn write(&mut self, address: u32, value: u32, size: AccessSize) -> (r: Result<(), BusError>)
        requires
            old(self).wf(),
        ensures
            final(self).wf(),
            final(self).rom.bytes() == old(self).rom.bytes(),
            r == Err::<(), BusError>(BusError::Unmapped) <==> !writable(address),
            !in_dma(address) ==> (r == Err::<(), BusError>(BusError::Unsupported) <==> writable(address)
                && !old(self).write_supported(address, value, size)),
            in_dma(address) && !old(self).write_supported(address, value, size) ==> r == Err::<
                (),
                BusError,
            >(BusError::Unsupported),
            !in_stub(address) && ram_offset(address) is Some && old(self).write_supported(address, value, size)
                ==> final(self).ram.bytes() == write_le(
                old(self).ram.bytes(),
                ram_offset(address).unwrap(),
                value,
                size,
            ),
            ram_offset(address) is None && !in_dma(address) ==> final(self).ram.bytes() == old(
                self,
            ).ram.bytes(),
            !in_stub(address) && in_scratchpad(address) && old(self).write_supported(address, value, size)
                ==> final(self).scratchpad.bytes() == write_le(
                old(self).scratchpad.bytes(),
                address - SCRATCHPAD_BASE,
                value,
                size,
            ),
            !in_scratchpad(address) ==> final(self).scratchpad.bytes() == old(self).scratchpad.bytes(),
            in_biu(address) && size == AccessSize::Word ==> final(self).biu_control@ == old(
                self,
            ).biu_control@.update((address - BIU_CONTROL_BASE) / 4, value),
            !in_biu(address) ==> final(self).biu_control == old(self).biu_control,
            in_dram(address) && size == AccessSize::Word ==> final(self).dram_control == value,
            !in_dram(address) ==> final(self).dram_control == old(self).dram_control,
            address == 0x1f80_1070 ==> final(self).interrupts.i_stat == old(self).interrupts.i_stat
                & (value as u16) && final(self).interrupts.i_mask == old(self).interrupts.i_mask,
            address == 0x1f80_1074 ==> final(self).interrupts.i_mask == value as u16
                && final(self).interrupts.i_stat == old(self).interrupts.i_stat,
            timer_register(address) ==> r is Ok && old(self).timers.write_effect(final(self).timers, address, value),
            (address == 0x1f80_1040 || address == 0x1f80_1048 || address == 0x1f80_104a || (address == 0x1f80_104e
                && value <= MAX_BAUD)) ==> r is Ok && old(self).joy.write_effect(final(self).joy, address, value),
            !in_stub(address) && in_spu(address) && spu_write_ok(old(self).spu, address, value, size) ==> r is Ok
                && old(self).spu.write_effect(final(self).spu, address, value, size),
            in_cdrom(address) ==> r is Ok && final(self).calls@ == old(self).calls@.push(
                DeviceCall::CdromWrite { address, value },
            ),
            in_gpu(address) && size == AccessSize::Word ==> r is Ok && final(self).calls@ == old(self).calls@.push(
                DeviceCall::GpuWrite { address, value },
            ),
            address == PUTCHAR_ADDRESS ==> r is Ok && final(self).calls@ == old(self).calls@.push(
                DeviceCall::Putchar { c: value as u8 },
            ),
            !in_dma(address) && !in_cdrom(address) && !(in_gpu(address) && size == AccessSize::Word) && address
                != PUTCHAR_ADDRESS ==> final(self).calls@ == old(self).calls@,
    {
        if Self::stub(address) {
            return Ok(());
        }
        let bytes = size.bytes();
        if address <= RAM_END {
            if address + bytes > RAM_SIZE as u32 {
                return Err(BusError::Unsupported);
            }
            self.ram.write(address, value, size);
        } else if 0x0020_0000 <= address && address <= 0x007f_ffff {
            let mirrored = address & 0x1f_ffff;
            proof { crate::bits::lemma_and_le(address, 0x1f_ffff); }
            if mirrored + bytes > RAM_SIZE as u32 {
                return Err(BusError::Unsupported);
            }
            self.ram.write(mirrored, value, size);
        } else if ROM_BASE <= address && address <= ROM_END {
            self.rom.write(address, value, size);
        } else if 0x1f80_1c00 <= address && address <= 0x1f80_2000 {
            if !self.spu_write_allowed(address, value, size) {
                return Err(BusError::Unsupported);
            }
            self.spu.write(address, value, size);
        } else if 0x1f80_1040 <= address && address <= 0x1f80_104f {
            if !(address == 0x1f80_1040 || address == 0x1f80_1048 || address == 0x1f80_104a
                || address == 0x1f80_104e) || (address == 0x1f80_104e && value > MAX_BAUD) {
                return Err(BusError::Unsupported);
            }
            self.joy.write(address, value);
        } else if SCRATCHPAD_BASE <= address && address <= SCRATCHPAD_END {
            if address - SCRATCHPAD_BASE + bytes > SCRATCHPAD_SIZE as u32 {
                return Err(BusError::Unsupported);
            }
            self.scratchpad.write(address, value, size);
        } else if 0x1f80_1080 <= address && address <= 0x1f80_10f4 {
            let offset = address - 0x1f80_1080;
            if size != AccessSize::Word || !((offset < 0x70 && (offset & 0xf == 0 || offset & 0xf
                == 4 || offset & 0xf == 8)) || offset == 0x70 || offset == 0x74) {
                return Err(BusError::Unsupported);
            }
            if offset < 0x70 && offset & 0xf == 8 && !Channel::control_value_valid(offset >> 4u32, value) {
                return Err(BusError::Unsupported);
            }
            self.dma.write(offset, value, size);
            return self.handle_dma_write();
        } else if TIMERS_BASE <= address && address <= TIMERS_END {
            let reg = (address - TIMERS_BASE) & 0xf;
            if !(reg == 0 || reg == 4 || reg == 8) {
                return Err(BusError::Unsupported);
            }
            self.timers.write(address, value);
        } else if 0x1f80_1800 <= address && address <= 0x1f80_1803 {
            self.call_cdrom_write(address, value);
        } else if 0x1f80_1810 <= address && address <= 0x1f80_1817 {
            if size != AccessSize::Word {
                return Err(BusError::Unsupported);
            }
            self.call_gpu_write(address, value);
        } else if address == PUTCHAR_ADDRESS {
            #[verifier::truncate]
            let c = value as u8;
            self.call_putchar(c);
        } else if BIU_CONTROL_BASE <= address && address <= BIU_CONTROL_END {
            if size != AccessSize::Word {
                return Err(BusError::Unsupported);
            }
            let index = ((address - BIU_CONTROL_BASE) / 4) as usize;
            self.biu_control[index] = value;
        } else if DRAM_CONTROL_BASE <= address && address <= DRAM_CONTROL_END {
            if size != AccessSize::Word {
                return Err(BusError::Unsupported);
            }
            self.dram_control = value;
        } else if INTERRUPTS_BASE <= address && address <= INTERRUPTS_END {
            if !(address == 0x1f80_1070 || address == 0x1f80_1074) {
                return Err(BusError::Unsupported);
            }
            self.interrupts.write(address, value, size);
        } else {
            return Err(BusError::Unmapped);
        }
        Ok(())
    }

    /// Runs the transfer of the channel a register write started, if any:
    /// the highest-priority channel that is both enabled and active. An
    /// ordering-table clear (channel 6) fills RAM backward with a linked
    /// list; CD-ROM data goes to RAM word by word; RAM goes to the GPU as
    /// blocks or as a linked list of command packets, and to the SPU's
    /// transfer FIFO. A transfer ends with the channel done and its
    /// interrupt raised.
    #[verifier::rlimit(50)]
    pub fn handle_dma_write(&mut self) -> (r: Result<(), BusError>)
        requires
            old(self).wf(),
        ensures
            r != Err::<(), BusError>(BusError::Unmapped),
            final(self).wf(),
            final(self).rom.bytes() == old(self).rom.bytes(),
            final(self).scratchpad.bytes() == old(self).scratchpad.bytes(),
            final(self).biu_control == old(self).biu_control,
            final(self).dram_control == old(self).dram_control,
            final(self).interrupts == old(self).interrupts,
            dma_idle(old(self).dma) ==> r is Ok && final(self).ram.bytes() == old(self).ram.bytes()
                && final(self).dma == old(self).dma && final(self).calls@ == old(self).calls@,
            ({
                let ch = old(self).dma.channels@[6];
                dma_selected(old(self).dma, 6) && ch.sync_mode == SyncMode::Immediate && ch.direction
                    == Direction::ToRam && ch.base + 4 <= RAM_SIZE ==> r is Ok && final(self).ram.bytes()
                    == otc_fill(
                    old(self).ram.bytes(),
                    ch.base,
                    if ch.step == crate::dma::Step::Backward { -4i32 } else { 4i32 },
                    (if ch.block_size == 0 { 0x10000u32 } else { ch.block_size }) as nat,
                ) && final(self).dma.channels@[6].busy == Busy::Available
                    && final(self).dma.channels@[6].trigger == Trigger::Stop
            }),
            forall|i: int|
                0 <= i < 7 && #[trigger] dma_selected(old(self).dma, i) && r is Ok ==> ({
                    let c = old(self).dma.channels@[i];
                    &&& final(self).dma.channels@ == old(self).dma.channels@.update(
                        i,
                        Channel {
                            busy: Busy::Available,
                            trigger: Trigger::Stop,
                            channel_control: c.channel_control & !0x1100_0000u32,
                            ..c
                        },
                    )
                    &&& final(self).dma.dpcr == old(self).dma.dpcr
                    &&& final(self).dma.dicr == with_master_flag(flagged(old(self).dma.dicr, i))
                    &&& final(self).dma.new_irq == (old(self).dma.new_irq || irq_master(
                        flagged(old(self).dma.dicr, i),
                    ))
                }),
            forall|i: int|
                0 <= i < 7 && #[trigger] dma_selected(old(self).dma, i) ==> ({
                    let c = old(self).dma.channels@[i];
                    let step = if c.step == crate::dma::Step::Backward { -4i32 } else { 4i32 };
                    let words = c.block_count * (if c.block_size == 0 { 0x10000u32 } else { c.block_size });
                    let ram = old(self).ram.bytes();
                    let fed = fifo_fill(
                        old(self).spu.ram@,
                        old(self).spu.data_start_address_internal,
                        dma_words(ram, c.base, step, words as nat),
                    );
                    &&& c.sync_mode == SyncMode::Immediate && c.link == ChannelLink::Otc ==> (r is Ok <==> c.direction
                        == Direction::ToRam && c.base + 4 <= RAM_SIZE) && final(self).calls@ == old(self).calls@
                    &&& c.sync_mode == SyncMode::Immediate && c.link == ChannelLink::Cdrom ==> {
                        let n = old(self).calls@.len() as int;
                        &&& final(self).calls@.subrange(0, n) == old(self).calls@
                        &&& forall|j: int| n <= j < final(self).calls@.len() ==> is_cdrom_data_read(
                            #[trigger] final(self).calls@[j],
                        )
                        &&& r is Ok ==> final(self).calls@.len() == n + 4 * words
                        &&& r is Ok ==> forall|k: int|
                            0 <= k < words ==> #[trigger] ram_word(final(self).ram.bytes(), c.base, k)
                                == cdrom_dma_word(final(self).calls@, n, k)
                    }
                    &&& c.sync_mode == SyncMode::LinkedList && r is Ok ==> final(self).calls@ == old(self).calls@
                        + gpu_port_writes(gpu_list_words(ram, c.base, step, RAM_SIZE as nat))
                    &&& c.sync_mode == SyncMode::Sync && c.link == ChannelLink::Gpu && r is Ok ==> final(self).calls@
                        == old(self).calls@ + gpu_port_writes(dma_words(ram, c.base, step, words as nat))
                    &&& c.sync_mode == SyncMode::Sync && c.link == ChannelLink::Spu ==> final(self).calls@ == old(
                        self,
                    ).calls@
                    &&& (c.sync_mode == SyncMode::Reserved || (c.sync_mode == SyncMode::Immediate && c.link
                        != ChannelLink::Otc && c.link != ChannelLink::Cdrom) || (c.sync_mode == SyncMode::Sync
                        && c.link != ChannelLink::Gpu && c.link != ChannelLink::Spu) || (c.sync_mode
                        == SyncMode::LinkedList && c.link != ChannelLink::Gpu)) ==> final(self).calls@ == old(self).calls@
                    &&& c.sync_mode == SyncMode::Immediate && c.link == ChannelLink::Cdrom ==> (r is Ok <==> words == 0
                        || (c.direction == Direction::ToRam && c.base + 4 * words <= RAM_SIZE)) && final(self).spu
                        == old(self).spu && forall|j: int|
                        0 <= j < RAM_SIZE && !(c.base <= j < c.base + 4 * words) ==> #[trigger] final(self).ram.bytes()[j]
                            == ram[j]
                    &&& c.sync_mode == SyncMode::Immediate && c.link != ChannelLink::Otc && c.link != ChannelLink::Cdrom
                        ==> r == Err::<(), BusError>(BusError::Unsupported) && final(self).ram.bytes() == ram
                    &&& c.sync_mode == SyncMode::LinkedList ==> (r is Ok <==> c.link == ChannelLink::Gpu && c.direction
                        == Direction::FromRam && gpu_list_ends(ram, c.base, step, RAM_SIZE as nat))
                        && final(self).ram.bytes() == ram && final(self).spu == old(self).spu
                    &&& c.sync_mode == SyncMode::Sync && c.link == ChannelLink::Gpu ==> (r is Ok <==> words == 0 || (
                    c.direction == Direction::FromRam && dma_run_fits(c.base, step, words as int)))
                        && final(self).ram.bytes() == ram && final(self).spu == old(self).spu
                    &&& c.sync_mode == SyncMode::Sync && c.link == ChannelLink::Spu ==> (r is Ok <==> words == 0 || (
                    c.direction == Direction::FromRam && dma_run_fits(c.base, step, words as int) && fed is Some))
                        && final(self).ram.bytes() == ram && (r is Ok ==> fed == Some(
                        (final(self).spu.ram@, final(self).spu.data_start_address_internal),
                    ))
                    &&& c.sync_mode == SyncMode::Sync && c.link != ChannelLink::Gpu && c.link != ChannelLink::Spu
                        ==> r == Err::<(), BusError>(BusError::Unsupported) && final(self).ram.bytes() == ram
                    &&& c.sync_mode == SyncMode::Reserved ==> r is Ok && final(self).ram.bytes() == ram
                }),
    {
        let active = self.dma.active_channel();
        let i = match active {
            None => {
                return Ok(());
            },
            Some(i) => i,
        };
        proof {
            assert forall|j: int| 0 <= j < 7 && #[trigger] dma_selected(old(self).dma, j) implies j == i by {
                let d = self.dma.dpcr;
                if j != i {
                    assert(priority_key(d, j) != priority_key(d, i as int));
                    assert(self.dma.enabled_spec(self.dma.channels@[j].link));
                    assert(self.dma.enabled_spec(self.dma.channels@[i as int].link));
                }
            }
        }
        proof {
            if dma_selected(old(self).dma, 6) && i != 6 {
                let d = self.dma.dpcr;
                assert(priority_key(d, 6) != priority_key(d, i as int));
                assert(self.dma.enabled_spec(self.dma.channels@[6].link));
            }
        }
        let ch = self.dma.channels[i];
        let step = ch.step();
        let (blocks, block_size) = ch.transfer_size();
        assert(blocks as u64 * block_size as u64 <= 0xffff_fffe_0000_0001u64) by (nonlinear_arith)
            requires blocks <= 0xffff_ffffu32, block_size <= 0xffff_ffffu32;
        let irq: usize;
        match ch.sync_mode() {
            SyncMode::Immediate => {
                match ch.link() {
                    ChannelLink::Otc => {
                        self.dma_otc(ch.base(), step, block_size, ch.direction())?;
                        irq = 6;
                    },
                    ChannelLink::Cdrom => {
                        self.dma_from_cdrom(ch.base(), blocks as u64 * block_size as u64, ch.direction())?;
                        irq = 3;
                    },
                    _ => {
                        return Err(BusError::Unsupported);
                    },
                }
            },
            SyncMode::LinkedList => {
                match ch.link() {
                    ChannelLink::Gpu => {
                        self.dma_gpu_list(ch.base(), step, ch.direction())?;
                        irq = 2;
                    },
                    _ => {
                        return Err(BusError::Unsupported);
                    },
                }
            },
            SyncMode::Sync => {
                match ch.link() {
                    ChannelLink::Gpu => {
                        self.dma_blocks(ch.base(), step, blocks as u64 * block_size as u64, ch.direction(), false)?;
                        irq = 2;
                    },
                    ChannelLink::Spu => {
                        self.dma_blocks(ch.base(), step, blocks as u64 * block_size as u64, ch.direction(), true)?;
                        irq = 4;
                    },
                    _ => {
                        return Err(BusError::Unsupported);
                    },
                }
            },
            SyncMode::Reserved => {
                let mut c = self.dma.channels[i];
                c.done();
                self.dma.channels.set(i, c);
                return Ok(());
            },
        }
        let mut c = self.dma.channels[i];
        c.done();
        self.dma.channels.set(i, c);
        self.dma.irq(irq);
        Ok(())
    }

    /// Clears an ordering table: `count` words from `base`, each pointing
    /// to the next one `step` bytes on, the last an end marker.
    fn dma_otc(&mut self, base: u32, step: i32, count: u32, direction: Direction) -> (r: Result<(), BusError>)
        requires
            old(self).wf(),
            step == 4 || step == -4,
            count >= 1,
        ensures
            r != Err::<(), BusError>(BusError::Unmapped),
            final(self).wf(),
            final(self).rom.bytes() == old(self).rom.bytes(),
            final(self).scratchpad.bytes() == old(self).scratchpad.bytes(),
            final(self).biu_control == old(self).biu_control,
            final(self).dram_control == old(self).dram_control,
            final(self).interrupts == old(self).interrupts,
            final(self).dma == old(self).dma,
            r is Ok <==> direction == Direction::ToRam && base + 4 <= RAM_SIZE,
            r is Ok ==> final(self).ram.bytes() == otc_fill(old(self).ram.bytes(), base, step, count as nat),
            final(self).calls@ == old(self).calls@,
    {
        if direction == Direction::FromRam || base > RAM_SIZE as u32 - 4 {
            return Err(BusError::Unsupported);
        }
        let mut addr = base;
        let mut remaining = count;
        while remaining > 0
            invariant
                self.wf(),
                addr + 4 <= RAM_SIZE,
                otc_fill(self.ram.bytes(), addr, step, remaining as nat) == otc_fill(
                    old(self).ram.bytes(),
                    base,
                    step,
                    count as nat,
                ),
                self.rom.bytes() == old(self).rom.bytes(),
                self.scratchpad.bytes() == old(self).scratchpad.bytes(),
                self.biu_control == old(self).biu_control,
                self.dram_control == old(self).dram_control,
                self.interrupts == old(self).interrupts,
                self.dma == old(self).dma,
                self.spu == old(self).spu,
                self.timers == old(self).timers,
                self.joy == old(self).joy,
                self.calls == old(self).calls,
            decreases remaining,
        {
            let next = addr.wrapping_add(step as u32) & 0x1f_fffc;
            proof { crate::bits::lemma_and_le(addr.wrapping_add(step as u32), 0x1f_fffc); }
            let word = if remaining == 1 {
                0xff_ffff
            } else {
                next
            };
            self.ram.write(addr, word, AccessSize::Word);
            addr = next;
            remaining = remaining - 1;
        }
        Ok(())
    }

    /// Copies `words` words of CD-ROM data into RAM from `base` on.
    fn dma_from_cdrom(&mut self, base: u32, words: u64, direction: Direction) -> (r: Result<(), BusError>)
        requires
            old(self).wf(),
        ensures
            r != Err::<(), BusError>(BusError::Unmapped),
            final(self).wf(),
            final(self).rom.bytes() == old(self).rom.bytes(),
            final(self).scratchpad.bytes() == old(self).scratchpad.bytes(),
            final(self).biu_control == old(self).biu_control,
            final(self).dram_control == old(self).dram_control,
            final(self).interrupts == old(self).interrupts,
            final(self).dma == old(self).dma,
            final(self).spu == old(self).spu,
            final(self).timers == old(self).timers,
            final(self).joy == old(self).joy,
            r is Ok <==> words == 0 || (direction == Direction::ToRam && base + 4 * words <= RAM_SIZE),
            forall|i: int|
                0 <= i < RAM_SIZE && !(base <= i < base + 4 * words) ==> #[trigger] final(self).ram.bytes()[i]
                    == old(self).ram.bytes()[i],
            final(self).calls@.subrange(0, old(self).calls@.len() as int) == old(self).calls@,
            forall|j: int|
                old(self).calls@.len() <= j < final(self).calls@.len() ==> is_cdrom_data_read(
                    #[trigger] final(self).calls@[j],
                ),
            r is Ok ==> final(self).calls@.len() == old(self).calls@.len() + 4 * words,
            r is Ok ==> forall|k: int|
                0 <= k < words ==> #[trigger] ram_word(final(self).ram.bytes(), base, k) == cdrom_dma_word(
                    final(self).calls@,
                    old(self).calls@.len() as int,
                    k,
                ),
    {
        assert(self.calls@.subrange(0, self.calls@.len() as int) =~= self.calls@);
        if words > 0 && direction == Direction::FromRam {
            return Err(BusError::Unsupported);
        }
        let mut addr = base;
        let mut remaining = words;
        let ghost mut done: int = 0;
        while remaining > 0
            invariant
                self.wf(),
                self.rom.bytes() == old(self).rom.bytes(),
                self.scratchpad.bytes() == old(self).scratchpad.bytes(),
                self.biu_control == old(self).biu_control,
                self.dram_control == old(self).dram_control,
                self.interrupts == old(self).interrupts,
                self.dma == old(self).dma,
                self.spu == old(self).spu,
                self.timers == old(self).timers,
                self.joy == old(self).joy,
                words > 0 ==> direction == Direction::ToRam,
                0 <= done <= words,
                remaining == words - done,
                addr == base + 4 * done,
                done > 0 ==> base + 4 * done <= RAM_SIZE,
                forall|i: int|
                    0 <= i < RAM_SIZE && !(base <= i < base + 4 * done) ==> #[trigger] self.ram.bytes()[i]
                        == old(self).ram.bytes()[i],
                self.calls@.len() == old(self).calls@.len() + 4 * done,
                self.calls@.subrange(0, old(self).calls@.len() as int) == old(self).calls@,
                forall|j: int|
                    old(self).calls@.len() <= j < self.calls@.len() ==> is_cdrom_data_read(#[trigger] self.calls@[j]),
                forall|k: int|
                    0 <= k < done ==> #[trigger] ram_word(self.ram.bytes(), base, k) == cdrom_dma_word(
                        self.calls@,
                        old(self).calls@.len() as int,
                        k,
                    ),
            decreases remaining,
        {
            let ghost before = self.calls@;
            let ghost bytes0 = self.ram.bytes();
            let b0 = self.call_cdrom_read(0x1f80_1802, AccessSize::Byte);
            let b1 = self.call_cdrom_read(0x1f80_1802, AccessSize::Byte);
            let b2 = self.call_cdrom_read(0x1f80_1802, AccessSize::Byte);
            let b3 = self.call_cdrom_read(0x1f80_1802, AccessSize::Byte);
            let value = b0 | (b1 << 8u32) | (b2 << 16u32) | (b3 << 24u32);
            proof {
                let n0 = old(self).calls@.len() as int;
                assert(self.calls@.subrange(0, n0) =~= before.subrange(0, n0));
                assert forall|j: int| n0 <= j < self.calls@.len() implies is_cdrom_data_read(
                    #[trigger] self.calls@[j],
                ) by {
                    if j < before.len() {
                        assert(self.calls@[j] == before[j]);
                    }
                }
            }
            if addr > RAM_SIZE as u32 - 4 {
                return Err(BusError::Unsupported);
            }
            self.ram.write(addr, value, AccessSize::Word);
            proof {
                let n0 = old(self).calls@.len() as int;
                crate::memory::lemma_read_of_write(bytes0, addr as int, value, AccessSize::Word);
                assert(cdrom_dma_word(self.calls@, n0, done) == value);
                assert forall|k: int| 0 <= k < done + 1 implies #[trigger] ram_word(self.ram.bytes(), base, k)
                    == cdrom_dma_word(self.calls@, n0, k) by {
                    if k < done {
                        assert(cdrom_dma_word(self.calls@, n0, k) == cdrom_dma_word(before, n0, k));
                        assert(ram_word(bytes0, base, k) == cdrom_dma_word(before, n0, k));
                        assert(ram_word(self.ram.bytes(), base, k) == ram_word(bytes0, base, k));
                    }
                }
            }
            addr = addr.wrapping_add(4);
            remaining = remaining - 1;
            proof {
                done = done + 1;
            }
        }
        Ok(())
    }

    /// Sends `words` words of RAM from `base` on to the GPU's command port,
    /// or to the SPU's transfer FIFO.
    fn dma_blocks(&mut self, base: u32, step: i32, words: u64, direction: Direction, to_spu: bool) -> (r: Result<(), BusError>)
        requires
            old(self).wf(),
            step == 4 || step == -4,
        ensures
            r != Err::<(), BusError>(BusError::Unmapped),
            final(self).wf(),
            final(self).ram.bytes() == old(self).ram.bytes(),
            final(self).rom.bytes() == old(self).rom.bytes(),
            final(self).scratchpad.bytes() == old(self).scratchpad.bytes(),
            final(self).biu_control == old(self).biu_control,
            final(self).dram_control == old(self).dram_control,
            final(self).interrupts == old(self).interrupts,
            final(self).dma == old(self).dma,
            final(self).timers == old(self).timers,
            final(self).joy == old(self).joy,
            r is Ok <==> words == 0 || (direction == Direction::FromRam && dma_run_fits(base, step, words as int) && (
            to_spu ==> fifo_fill(
                old(self).spu.ram@,
                old(self).spu.data_start_address_internal,
                dma_words(old(self).ram.bytes(), base, step, words as nat),
            ) is Some)),
            !to_spu ==> final(self).spu == old(self).spu,
            to_spu && r is Ok ==> fifo_fill(
                old(self).spu.ram@,
                old(self).spu.data_start_address_internal,
                dma_words(old(self).ram.bytes(), base, step, words as nat),
            ) == Some((final(self).spu.ram@, final(self).spu.data_start_address_internal)),
            to_spu ==> final(self).spu == (Spu {
                ram: final(self).spu.ram,
                data_start_address_internal: final(self).spu.data_start_address_internal,
                ..old(self).spu
            }),
            to_spu ==> final(self).calls@ == old(self).calls@,
            !to_spu && r is Ok ==> final(self).calls@ == old(self).calls@ + gpu_port_writes(
                dma_words(old(self).ram.bytes(), base, step, words as nat),
            ),
    {
        if words > 0 && direction == Direction::ToRam {
            return Err(BusError::Unsupported);
        }
        let ghost all = dma_words(old(self).ram.bytes(), base, step, words as nat);
        let ghost sound = old(self).spu.ram@;
        let ghost at = old(self).spu.data_start_address_internal;
        let mut addr = base;
        let mut remaining = words;
        let ghost mut done: int = 0;
        assert(all.subrange(0, words as int) =~= all);
        assert(old(self).calls@ + gpu_port_writes(all.take(0)) =~= old(self).calls@);
        while remaining > 0
            invariant
                self.wf(),
                step == 4 || step == -4,
                self.ram.bytes() == old(self).ram.bytes(),
                self.rom.bytes() == old(self).rom.bytes(),
                self.scratchpad.bytes() == old(self).scratchpad.bytes(),
                self.biu_control == old(self).biu_control,
                self.dram_control == old(self).dram_control,
                self.interrupts == old(self).interrupts,
                self.dma == old(self).dma,
                self.timers == old(self).timers,
                self.joy == old(self).joy,
                words > 0 ==> direction == Direction::FromRam,
                all == dma_words(old(self).ram.bytes(), base, step, words as nat),
                sound == old(self).spu.ram@,
                at == old(self).spu.data_start_address_internal,
                0 <= done <= words,
                remaining == words - done,
                dma_run_fits(base, step, done),
                addr == dma_word_address(base, step, done) || (dma_word_address(base, step, done) < 0 && addr
                    > RAM_SIZE - 4),
                !to_spu ==> self.spu == old(self).spu,
                to_spu ==> self.spu == (Spu {
                    ram: self.spu.ram,
                    data_start_address_internal: self.spu.data_start_address_internal,
                    ..old(self).spu
                }),
                to_spu ==> fifo_fill(self.spu.ram@, self.spu.data_start_address_internal, all.subrange(done, words as int))
                    == fifo_fill(sound, at, all),
                to_spu ==> self.calls@ == old(self).calls@,
                !to_spu ==> self.calls@ == old(self).calls@ + gpu_port_writes(all.take(done)),
            decreases remaining,
        {
            if addr > RAM_SIZE as u32 - 4 {
                proof {
                    assert(!(0 <= dma_word_address(base, step, done) && dma_word_address(base, step, done) + 4
                        <= RAM_SIZE));
                }
                return Err(BusError::Unsupported);
            }
            let value = self.ram.read(addr, AccessSize::Word);
            assert(value == all[done]);
            if to_spu {
                let ghost rest = all.subrange(done, words as int);
                if !self.spu_write_allowed(0x1f80_1da8, value, AccessSize::Word) {
                    assert(fifo_fill(self.spu.ram@, self.spu.data_start_address_internal, rest) is None);
                    return Err(BusError::Unsupported);
                }
                self.spu.write(0x1f80_1da8, value, AccessSize::Word);
                assert(rest.drop_first() =~= all.subrange(done + 1, words as int));
            } else {
                let ghost before = self.calls@;
                self.call_gpu_write(0x1f80_1810, value);
                proof {
                    assert(gpu_port_writes(all.take(done + 1)) =~= gpu_port_writes(all.take(done)).push(
                        DeviceCall::GpuWrite { address: 0x1f80_1810, value },
                    ));
                    assert(self.calls@ =~= old(self).calls@ + gpu_port_writes(all.take(done + 1)));
                }
            }
            proof {
                if step < 0 {
                    crate::bits::lemma_step_down();
                }
            }
            addr = addr.wrapping_add(step as u32);
            remaining = remaining - 1;
            proof {
                done = done + 1;
            }
        }
        assert(all.subrange(done, words as int) =~= Seq::<u32>::empty());
        assert(all.take(done) =~= all);
        Ok(())
    }

    /// Walks a linked list of GPU command packets in RAM from `base`: each
    /// header holds the packet's word count (bits 31..24) and the next
    /// header's address, 0xff_ffff ending the list. A list that visits more
    /// headers than RAM has bytes revisits one and never ends: it is
    /// refused.
    fn dma_gpu_list(&mut self, base: u32, step: i32, direction: Direction) -> (r: Result<(), BusError>)
        requires
            old(self).wf(),
            step == 4 || step == -4,
        ensures
            r != Err::<(), BusError>(BusError::Unmapped),
            final(self).wf(),
            final(self).ram.bytes() == old(self).ram.bytes(),
            final(self).rom.bytes() == old(self).rom.bytes(),
            final(self).scratchpad.bytes() == old(self).scratchpad.bytes(),
            final(self).biu_control == old(self).biu_control,
            final(self).dram_control == old(self).dram_control,
            final(self).interrupts == old(self).interrupts,
            final(self).dma == old(self).dma,
            final(self).spu == old(self).spu,
            final(self).timers == old(self).timers,
            final(self).joy == old(self).joy,
            r is Ok <==> direction == Direction::FromRam && gpu_list_ends(
                old(self).ram.bytes(),
                base,
                step,
                RAM_SIZE as nat,
            ),
            r is Ok ==> final(self).calls@ == old(self).calls@ + gpu_port_writes(
                gpu_list_words(old(self).ram.bytes(), base, step, RAM_SIZE as nat),
            ),
    {
        if direction == Direction::ToRam {
            return Err(BusError::Unsupported);
        }
        let ghost ram = old(self).ram.bytes();
        let ghost ends = gpu_list_ends(ram, base, step, RAM_SIZE as nat);
        let mut addr = base;
        let mut finished = false;
        let mut headers: u32 = 0;
        while !finished && headers < RAM_SIZE as u32
            invariant
                self.wf(),
                step == 4 || step == -4,
                ram == old(self).ram.bytes(),
                ends == gpu_list_ends(ram, base, step, RAM_SIZE as nat),
                self.ram.bytes() == old(self).ram.bytes(),
                self.rom.bytes() == old(self).rom.bytes(),
                self.scratchpad.bytes() == old(self).scratchpad.bytes(),
                self.biu_control == old(self).biu_control,
                self.dram_control == old(self).dram_control,
                self.interrupts == old(self).interrupts,
                self.dma == old(self).dma,
                self.spu == old(self).spu,
                self.timers == old(self).timers,
                self.joy == old(self).joy,
                headers <= RAM_SIZE,
                finished ==> ends,
                !finished ==> gpu_list_ends(ram, addr, step, (RAM_SIZE - headers) as nat) == ends,
                finished ==> self.calls@ == old(self).calls@ + gpu_port_writes(
                    gpu_list_words(ram, base, step, RAM_SIZE as nat),
                ),
                !finished ==> self.calls@ + gpu_port_writes(gpu_list_words(ram, addr, step, (RAM_SIZE - headers) as nat))
                    == old(self).calls@ + gpu_port_writes(gpu_list_words(ram, base, step, RAM_SIZE as nat)),
            decreases RAM_SIZE - headers + (if finished { 0int } else { 1int }),
        {
            let ghost fuel = (RAM_SIZE - headers) as nat;
            if addr > RAM_SIZE as u32 - 4 {
                proof {
                    assert(!(0 <= dma_word_address(addr, step, 0) && dma_word_address(addr, step, 0) + 4
                        <= RAM_SIZE));
                }
                return Err(BusError::Unsupported);
            }
            let ghost start = addr;
            let ghost calls_h = self.calls@;
            let header = self.ram.read(addr, AccessSize::Word);
            let word_count = header >> 24u32;
            let mut k: u32 = 0;
            assert(dma_word_address(start, step, 0) == start);
            while k < word_count
                invariant
                    self.wf(),
                    step == 4 || step == -4,
                    ram == old(self).ram.bytes(),
                    ends == gpu_list_ends(ram, base, step, RAM_SIZE as nat),
                    self.ram.bytes() == old(self).ram.bytes(),
                    self.rom.bytes() == old(self).rom.bytes(),
                    self.scratchpad.bytes() == old(self).scratchpad.bytes(),
                    self.biu_control == old(self).biu_control,
                    self.dram_control == old(self).dram_control,
                    self.interrupts == old(self).interrupts,
                    self.dma == old(self).dma,
                    self.spu == old(self).spu,
                    self.timers == old(self).timers,
                    self.joy == old(self).joy,
                    fuel > 0,
                    gpu_list_ends(ram, start, step, fuel) == ends,
                    header == read_le(ram, start as int, AccessSize::Word),
                    word_count == header >> 24u32,
                    k <= word_count,
                    dma_run_fits(start, step, k + 1),
                    addr == dma_word_address(start, step, k as int),
                    calls_h + gpu_port_writes(gpu_list_words(ram, start, step, fuel)) == old(self).calls@
                        + gpu_port_writes(gpu_list_words(ram, base, step, RAM_SIZE as nat)),
                    self.calls@ == calls_h + gpu_port_writes(gpu_packet_words(ram, start, step).take(k as int)),
                decreases word_count - k,
            {
                proof {
                    if step < 0 {
                        crate::bits::lemma_step_down();
                    }
                }
                addr = addr.wrapping_add(step as u32);
                if addr > RAM_SIZE as u32 - 4 {
                    proof {
                        let j = k + 1;
                        assert(!(0 <= dma_word_address(start, step, j) && dma_word_address(start, step, j) + 4
                            <= RAM_SIZE));
                    }
                    return Err(BusError::Unsupported);
                }
                let cmd = self.ram.read(addr, AccessSize::Word);
                self.call_gpu_write(0x1f80_1810, cmd);
                proof {
                    let p = gpu_packet_words(ram, start, step);
                    assert(p[k as int] == cmd);
                    assert(gpu_port_writes(p.take(k + 1)) =~= gpu_port_writes(p.take(k as int)).push(
                        DeviceCall::GpuWrite { address: 0x1f80_1810, value: cmd },
                    ));
                    assert(self.calls@ =~= calls_h + gpu_port_writes(p.take(k + 1)));
                }
                k = k + 1;
            }
            proof {
                let p = gpu_packet_words(ram, start, step);
                assert(p.take(word_count as int) =~= p);
                let next = header & 0xff_ffff;
                if next != 0xff_ffff {
                    lemma_gpu_port_writes_append(p, gpu_list_words(ram, next, step, (fuel - 1) as nat));
                    assert(calls_h + gpu_port_writes(gpu_list_words(ram, start, step, fuel)) =~= self.calls@
                        + gpu_port_writes(gpu_list_words(ram, next, step, (fuel - 1) as nat)));
                }
            }
            addr = header & 0xff_ffff;
            if addr == 0xff_ffff {
                finished = true;
            }
            headers = headers + 1;
        }
        if finished {
            Ok(())
        } else {
            Err(BusError::Unsupported)
        }
    }

    fn spu_write_allowed(&self, address: u32, value: u32, size: AccessSize) -> (r: bool)
        requires
            self.wf(),
            SPU_BASE <= address < 0x1f80_2000,
        ensures
            r == spu_write_ok(self.spu, address, value, size),
    {
        let voice_addr = address <= 0x1f80_1d7f && (address & 0xf == 6 || address & 0xf == 0xe);
        if voice_addr && value & 0xffff > 0xfffe {
            return false;
        }
        if (address == 0x1f80_1d88 || address == 0x1f80_1d8a || address == 0x1f80_1d8c || address
            == 0x1f80_1d8e) && size != AccessSize::HalfWord {
            return false;
        }
        if address == 0x1f80_1da8 {
            let start = self.spu.data_start_address_internal;
            return match size {
                AccessSize::Byte => false,
                AccessSize::HalfWord => start as u64 + 2 <= crate::spu::SOUND_RAM_SIZE as u64,
                AccessSize::Word => start as u64 + 4 <= crate::spu::SOUND_RAM_SIZE as u64,
            };
        }
        true
    }
}

} // verus!

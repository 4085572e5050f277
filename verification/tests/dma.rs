//! Tests of the DMA transfers a channel start triggers on the bus: CD-ROM
//! data into RAM, RAM blocks into the SPU's transfer FIFO and GPU command
//! lists walked through RAM.

use psemu::bus::{Bus, BusError, Devices, NoDevices};
use psemu::memory::AccessSize;

/// Devices that remember the GPU's command words and hand out the CD-ROM
/// data bytes 1, 2, 3 and so on.
struct Recorder {
    gpu_words: Vec<u32>,
    next_byte: u32,
}

impl Devices for Recorder {
    fn gpu_read(&mut self, _address: u32) -> u32 {
        0
    }

    fn gpu_write(&mut self, address: u32, value: u32) {
        assert_eq!(address, 0x1f80_1810);
        self.gpu_words.push(value);
    }

    fn cdrom_read(&mut self, _address: u32, _size: AccessSize) -> u32 {
        self.next_byte += 1;
        self.next_byte & 0xff
    }

    fn cdrom_write(&mut self, _address: u32, _value: u32) {}

    fn putchar(&mut self, _c: u8) {}
}

fn recorder_bus() -> Bus<Recorder> {
    Bus::new(Recorder { gpu_words: Vec::new(), next_byte: 0 })
}

/// Enables channel `n` in DPCR, keeping the reset priorities.
fn enable_channel<D: Devices>(bus: &mut Bus<D>, n: u32) {
    let dpcr = 0x0765_4321 | (8 << (4 * n));
    assert_eq!(bus.write(0x1f80_10f0, dpcr, AccessSize::Word), Ok(()));
}

/// Starts channel `n` with the given base, block control and channel
/// control; gives what the transfer gave.
fn start<D: Devices>(bus: &mut Bus<D>, n: u32, base: u32, block: u32, control: u32) -> Result<(), BusError> {
    let regs = 0x1f80_1080 + 0x10 * n;
    enable_channel(bus, n);
    assert_eq!(bus.write(regs, base, AccessSize::Word), Ok(()));
    assert_eq!(bus.write(regs + 4, block, AccessSize::Word), Ok(()));
    bus.write(regs + 8, control, AccessSize::Word)
}

#[test]
fn test_dma_cdrom_words_into_ram() {
    let mut bus = recorder_bus();
    assert_eq!(bus.write(0x2008, 0xdead_beef, AccessSize::Word), Ok(()));
    // One block of two words, immediate, into RAM.
    assert_eq!(start(&mut bus, 3, 0x2000, 0x0001_0002, 0x1100_0000), Ok(()));
    assert_eq!(bus.read(0x2000, AccessSize::Word), Ok(0x0403_0201));
    assert_eq!(bus.read(0x2004, AccessSize::Word), Ok(0x0807_0605));
    // The word after the run is untouched.
    assert_eq!(bus.read(0x2008, AccessSize::Word), Ok(0xdead_beef));
}

#[test]
fn test_dma_cdrom_run_past_ram_end_is_refused() {
    let mut bus = recorder_bus();
    // Two words from the last word of RAM: the second lies past the end.
    assert_eq!(start(&mut bus, 3, 0x1f_fffc, 0x0001_0002, 0x1100_0000), Err(BusError::Unsupported));
    // The first word was copied before the transfer stopped.
    assert_eq!(bus.read(0x1f_fffc, AccessSize::Word), Ok(0x0403_0201));
}

#[test]
fn test_dma_spu_blocks_fill_sound_ram() {
    let mut bus = Bus::new(NoDevices);
    assert_eq!(bus.write(0x1000, 0x1122_3344, AccessSize::Word), Ok(()));
    assert_eq!(bus.write(0x1004, 0x5566_7788, AccessSize::Word), Ok(()));
    // Transfer address 0x100 * 8.
    assert_eq!(bus.write(0x1f80_1da6, 0x100, AccessSize::HalfWord), Ok(()));
    assert_eq!(bus.spu.data_start_address_internal, 0x800);
    // One block of two words, synchronised, from RAM, forward.
    assert_eq!(start(&mut bus, 4, 0x1000, 0x0001_0002, 0x0100_0201), Ok(()));
    assert_eq!(&bus.spu.ram[0x800..0x808], &[0x44, 0x33, 0x22, 0x11, 0x88, 0x77, 0x66, 0x55]);
    assert_eq!(bus.spu.data_start_address_internal, 0x808);
}

#[test]
fn test_dma_spu_transfer_address_wraps_at_sound_ram_end() {
    let mut bus = Bus::new(NoDevices);
    assert_eq!(bus.write(0x1000, 0xaabb_ccdd, AccessSize::Word), Ok(()));
    assert_eq!(bus.write(0x1004, 0x0102_0304, AccessSize::Word), Ok(()));
    assert_eq!(bus.write(0x1f80_1da6, 0xffff, AccessSize::HalfWord), Ok(()));
    assert_eq!(bus.spu.data_start_address_internal, 0x7_fff8);
    assert_eq!(start(&mut bus, 4, 0x1000, 0x0001_0002, 0x0100_0201), Ok(()));
    assert_eq!(&bus.spu.ram[0x7_fff8..0x8_0000], &[0xdd, 0xcc, 0xbb, 0xaa, 0x04, 0x03, 0x02, 0x01]);
    assert_eq!(bus.spu.data_start_address_internal, 0);
}

#[test]
fn test_dma_spu_word_past_sound_ram_end_is_refused() {
    let mut bus = Bus::new(NoDevices);
    assert_eq!(bus.write(0x1f80_1da6, 0xffff, AccessSize::HalfWord), Ok(()));
    // A half-word through the FIFO leaves the transfer address 2 bytes on.
    assert_eq!(bus.write(0x1f80_1da8, 0x1234, AccessSize::HalfWord), Ok(()));
    assert_eq!(bus.spu.data_start_address_internal, 0x7_fffa);
    // The second word would cross the end of sound RAM.
    assert_eq!(start(&mut bus, 4, 0x1000, 0x0001_0002, 0x0100_0201), Err(BusError::Unsupported));
}

#[test]
fn test_dma_gpu_list_sends_each_packet() {
    let mut bus = recorder_bus();
    // Two words, then the header at 0x200.
    assert_eq!(bus.write(0x100, 0x0200_0200, AccessSize::Word), Ok(()));
    assert_eq!(bus.write(0x104, 0xaaaa, AccessSize::Word), Ok(()));
    assert_eq!(bus.write(0x108, 0xbbbb, AccessSize::Word), Ok(()));
    // One word, then the end of the list.
    assert_eq!(bus.write(0x200, 0x01ff_ffff, AccessSize::Word), Ok(()));
    assert_eq!(bus.write(0x204, 0xcccc, AccessSize::Word), Ok(()));
    // Linked list, from RAM, forward.
    assert_eq!(start(&mut bus, 2, 0x100, 0, 0x0100_0401), Ok(()));
    assert_eq!(bus.devices.gpu_words, vec![0xaaaa, 0xbbbb, 0xcccc]);
}

#[test]
fn test_dma_gpu_list_that_loops_is_refused() {
    let mut bus = recorder_bus();
    // An empty packet whose next header is itself.
    assert_eq!(bus.write(0x100, 0x0000_0100, AccessSize::Word), Ok(()));
    assert_eq!(start(&mut bus, 2, 0x100, 0, 0x0100_0401), Err(BusError::Unsupported));
    assert!(bus.devices.gpu_words.is_empty());
}

#[test]
fn test_dma_gpu_blocks_in_order() {
    let mut bus = recorder_bus();
    assert_eq!(bus.write(0x300, 7, AccessSize::Word), Ok(()));
    assert_eq!(bus.write(0x304, 8, AccessSize::Word), Ok(()));
    assert_eq!(bus.write(0x308, 9, AccessSize::Word), Ok(()));
    // One block of three words, synchronised, from RAM, forward.
    assert_eq!(start(&mut bus, 2, 0x300, 0x0001_0003, 0x0100_0201), Ok(()));
    assert_eq!(bus.devices.gpu_words, vec![7, 8, 9]);
}

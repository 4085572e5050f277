//! Tests of the devices on the bus: the interrupt controller, the timers,
//! the DMA controller, the pad port and the bus's address decoding.

use psemu::bus::{Bus, BusError, NoDevices};
use psemu::dma::Dma;
use psemu::interrupts::InterruptController;
use psemu::joy::{Joy, JoypadButton, State};
use psemu::memory::AccessSize;
use psemu::timers::Timers;

#[test]
fn test_interrupt_mask_and_acknowledge() {
    let mut intc = InterruptController::new();
    intc.trigger_irq(0);
    intc.trigger_irq(3);
    assert_eq!(intc.read(0x1f80_1070, AccessSize::Word), 0b1001);
    assert!(!intc.should_interrupt());
    intc.write(0x1f80_1074, 0x8, AccessSize::Word);
    assert!(intc.should_interrupt());
    // Writing 0 to bit 3 acknowledges IRQ 3; the 1s leave the rest.
    intc.write(0x1f80_1070, !0x8, AccessSize::Word);
    assert_eq!(intc.read(0x1f80_1070, AccessSize::Word), 1);
    assert!(!intc.should_interrupt());
}

#[test]
fn test_timers_count_and_reach_target() {
    let mut timers = Timers::new();
    // Timer 2 on the system clock divided by 8.
    timers.write(0x1f80_1124, 0x200);
    assert!(timers.can_clock(false, false));
    timers.clock(83, false, false, 0);
    assert_eq!(timers.read(0x1f80_1120), 10);
    timers.clock(88, false, false, 0);
    assert_eq!(timers.read(0x1f80_1120), 11);

    // Timer 0 on the CPU clock, reset at a target of 100.
    timers.write(0x1f80_1104, 0x18);
    timers.write(0x1f80_1108, 100);
    assert_eq!(timers.read(0x1f80_1108), 100);
    timers.clock(238, false, false, 0);
    assert_eq!(timers.read(0x1f80_1100), 50);
    assert_ne!(timers.read(0x1f80_1104) & (1 << 11), 0);
    // Reading the control register cleared the reached flag.
    assert_eq!(timers.read(0x1f80_1104) & (1 << 11), 0);
}

#[test]
fn test_dma_registers_priority_and_interrupts() {
    let mut dma = Dma::new();
    assert_eq!(dma.read(0x70, AccessSize::Word), 0x0765_4321);
    assert_eq!(dma.channels_by_priority(), [0, 1, 2, 3, 4, 5, 6]);

    dma.write(0x60, 0x1234_5678, AccessSize::Word);
    assert_eq!(dma.read(0x60, AccessSize::Word), 0x0034_5678);
    assert_eq!(dma.read(0x60, AccessSize::HalfWord), 0);
    dma.write(0x64, 0x0002_0010, AccessSize::Word);
    assert_eq!(dma.read(0x64, AccessSize::Word), 0x0002_0010);
    // Only bits 24, 28 and 30 of the OTC channel's control can be written;
    // bit 1 always reads 1.
    dma.write(0x68, 0xffff_ffff, AccessSize::Word);
    assert_eq!(dma.read(0x68, AccessSize::Word), 0x5100_0002);

    // Enable channel 2's interrupt and the master enable, then end a
    // transfer on it.
    dma.write(0x74, 0x0084_0000, AccessSize::Word);
    assert!(!dma.get_and_clear_new_irq());
    dma.irq(2);
    assert_eq!(dma.read(0x74, AccessSize::Word), 0x8484_0000);
    assert!(dma.get_and_clear_new_irq());
    assert!(!dma.get_and_clear_new_irq());
    // Acknowledging the flag clears it and the master flag.
    dma.write(0x74, 0x0484_0000, AccessSize::Word);
    assert_eq!(dma.read(0x74, AccessSize::Word), 0x0084_0000);
}

/// Sends a byte to the pad and returns its reply; the acknowledge comes
/// `ack_at` CPU cycles on.
fn exchange(joy: &mut Joy, intc: &mut InterruptController, byte: u32, ack_at: u64) -> u32 {
    joy.write(0x1f80_1040, byte);
    let reply = joy.read(0x1f80_1040);
    joy.cycle(ack_at, intc);
    reply
}

#[test]
fn test_pad_poll() {
    let mut joy = Joy::new();
    let mut intc = InterruptController::new();
    joy.write(0x1f80_104e, 0x88);
    // Transmit enabled, pad selected, acknowledge interrupts enabled.
    joy.write(0x1f80_104a, 0x1003);
    joy.write(0x1f80_1040, 0x01);
    assert_eq!(joy.state, State::PendingTransmission { value: 0x01, ticks: 0x88 * 8 });
    let reply = joy.read(0x1f80_1040);
    assert_eq!(reply, 0xffff_ffff);
    assert_eq!(joy.state, State::PendingAck { ticks: 450 });
    joy.cycle(451, &mut intc);
    assert_eq!(joy.state, State::Idle);
    assert_ne!(joy.stat & 0x80, 0);
    assert_eq!(intc.i_stat & 0x80, 0x80);

    assert_eq!(exchange(&mut joy, &mut intc, 0x42, 1000), 0x4141_4141);
    assert_eq!(exchange(&mut joy, &mut intc, 0x00, 1500), 0x5a5a_5a5a);
    joy.press_button(JoypadButton::Cross);
    assert_eq!(exchange(&mut joy, &mut intc, 0x00, 2000), 0xffff_ffff);
    assert_eq!(exchange(&mut joy, &mut intc, 0x00, 2500), 0xbfbf_bfbf);
    // The last byte is not acknowledged: the port idles.
    assert_eq!(joy.state, State::Idle);
    // Nothing was received since: the data register reads 0xff.
    assert_eq!(joy.read(0x1f80_1040), 0xffff_ffff);
}

#[test]
fn test_bus_decoding() {
    let mut bus = Bus::new(NoDevices);
    assert_eq!(bus.write(0x1000, 0xcafe_f00d, AccessSize::Word), Ok(()));
    assert_eq!(bus.read(0x1000, AccessSize::Word), Ok(0xcafe_f00d));
    // RAM is mirrored four times in the first 8MB.
    assert_eq!(bus.read(0x0060_1000, AccessSize::HalfWord), Ok(0xf00d));
    assert_eq!(bus.read(0x1003, AccessSize::Byte), Ok(0xca));
    // Nothing answers here.
    assert_eq!(bus.read(0x1f90_0000, AccessSize::Word), Err(BusError::Unmapped));
    // The pad port has no register at 0x1f80_1042.
    assert_eq!(bus.read(0x1f80_1042, AccessSize::Word), Err(BusError::Unsupported));
    // The interrupt registers through the bus.
    assert_eq!(bus.write(0x1f80_1074, 0x7ff, AccessSize::Word), Ok(()));
    assert_eq!(bus.read(0x1f80_1074, AccessSize::Word), Ok(0x7ff));
    // A timer through the bus.
    assert_eq!(bus.write(0x1f80_1118, 0x1234, AccessSize::Word), Ok(()));
    assert_eq!(bus.read(0x1f80_1118, AccessSize::Word), Ok(0x1234));
}

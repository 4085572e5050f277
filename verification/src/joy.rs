use vstd::prelude::*;

use crate::interrupts::InterruptController;

verus! {

/// The buttons of a digital pad.
#[derive(Debug, Clone, Copy, PartialEq, Eq, Structural)]
pub enum JoypadButton {
    Up,
    Down,
    Left,
    Right,
    Start,
    Select,
    Square,
    Triangle,
    Circle,
    Cross,
    L1,
    R1,
    L2,
    R2,
    L3,
    R3,
}

/// The bit of each button in the pad's 16-bit button word (0 = pressed).
pub open spec fn button_bit(button: JoypadButton) -> u16 {
    match button {
        JoypadButton::Select => 0,
        JoypadButton::L3 => 1,
        JoypadButton::R3 => 2,
        JoypadButton::Start => 3,
        JoypadButton::Up => 4,
        JoypadButton::Right => 5,
        JoypadButton::Down => 6,
        JoypadButton::Left => 7,
        JoypadButton::L2 => 8,
        JoypadButton::R2 => 9,
        JoypadButton::L1 => 10,
        JoypadButton::R1 => 11,
        JoypadButton::Triangle => 12,
        JoypadButton::Circle => 13,
        JoypadButton::Cross => 14,
        JoypadButton::Square => 15,
    }
}

impl JoypadButton {
    /// The bit of this button in the button word.
    pub fn bit(self) -> (r: u16)
        ensures
            r == button_bit(self),
            r < 16,
    {
        match self {
            JoypadButton::Select => 0,
            JoypadButton::L3 => 1,
            JoypadButton::R3 => 2,
            JoypadButton::Start => 3,
            JoypadButton::Up => 4,
            JoypadButton::Right => 5,
            JoypadButton::Down => 6,
            JoypadButton::Left => 7,
            JoypadButton::L2 => 8,
            JoypadButton::R2 => 9,
            JoypadButton::L1 => 10,
            JoypadButton::R1 => 11,
            JoypadButton::Triangle => 12,
            JoypadButton::Circle => 13,
            JoypadButton::Cross => 14,
            JoypadButton::Square => 15,
        }
    }
}

/// The serial port's transfer state.
#[derive(Debug, Clone, Copy, PartialEq, Eq, Structural)]
pub enum State {
    Idle,
    Transmitting,
    PendingTransmission { value: u8, ticks: i64 },
    PendingAck { ticks: i64 },
}

/// The device that answered the current exchange.
#[derive(Debug, Clone, Copy, PartialEq, Eq, Structural)]
pub enum ActiveDevice {
    Disconnected,
    Controller,
    MemoryCard,
}

/// Where the pad is in its reply to a poll: 01h, 42h, then the ID high
/// byte, then the two bytes of buttons.
#[derive(Debug, Clone, Copy, PartialEq, Eq, Structural)]
pub enum ControllerTransferState {
    Idle,
    Ready,
    IdMsb,
    ButtonsLsb,
    ButtonsMsb,
}

/// The transfer-enable bits of JOY_CTRL.
proof fn lemma_ctrl_bits(v: u32)
    by (bit_vector)
    ensures
        (v & 3 == 0) <==> (v & 2 == 0 && v & 1 == 0),
        (v | 4) & !4u32 == v & !4u32,
{
}

/// Setting a bit sets it.
proof fn lemma_set_bits(x: u32)
    by (bit_vector)
    ensures
        (x | 4) & 4 != 0,
        (x | 0x80) & 0x80 != 0,
        ((x | 0x80) | 0x200) & 0x80 != 0,
{
}

/// Bit 7 survives a change of the low three bits.
proof fn lemma_high_bits_kept(s: u32, s2: u32)
    by (bit_vector)
    ensures
        s2 & !7u32 == s & !7u32 && s & 0x80 != 0 ==> s2 & 0x80 != 0,
{
}

/// Setting or clearing one of the low three bits keeps the others.
proof fn lemma_low3(x: u32, b: u32)
    by (bit_vector)
    requires
        b <= 7,
    ensures
        (x | b) & !7u32 == x & !7u32,
        (x & !b) & !7u32 == x & !7u32,
{
}

/// The largest baud reload value whose tick count (8 per unit) fits 32 bits.
pub const MAX_BAUD: u32 = 0x1fff_ffff;

/// The controller and memory card serial port, with one digital pad plugged
/// in.
pub struct Joy {
    pub button_state: u16,
    pub ctrl: u32,
    pub stat: u32,
    pub mode: u32,
    pub baud: u32,
    pub receive_buffer: u8,
    pub receive_buffer_full: bool,
    pub transmit_buffer: u8,
    pub transmit_buffer_full: bool,
    pub active_device: ActiveDevice,
    pub state: State,
    pub last_cycles: u64,
    pub controller_transfer_state: ControllerTransferState,
    pub irq_requested: bool,
}

/// The status register after recomputing its buffer bits: bit 1 is set when
/// a received byte waits, bit 2 when the transmitter is empty and idle, bit
/// 0 when the transmit buffer is empty.
pub open spec fn status_with_buffers(stat: u32, rx_full: bool, tx_full: bool, transmitting: bool) -> u32 {
    let s1 = if rx_full { stat | 2 } else { stat & !2u32 };
    let s2 = if !tx_full && !transmitting { s1 | 4 } else { s1 & !4u32 };
    if !tx_full { s2 | 1 } else { s2 & !1u32 }
}

impl Joy {
    /// The byte a pending transmission sends.
    pub open spec fn pending_value(self) -> u8 {
        match self.state {
            State::PendingTransmission { value, .. } => value,
            _ => 0,
        }
    }

    /// The port with the transmit buffer's byte moved into a transmission,
    /// due after eight ticks per baud unit.
    pub open spec fn transfer_begun(self) -> Joy {
        Joy {
            transmit_buffer_full: false,
            ctrl: self.ctrl | 4,
            state: State::PendingTransmission { value: self.transmit_buffer, ticks: (self.baud * 8) as i64 },
            ..self
        }
    }

    /// The port after it exchanges the pending byte with the devices: the
    /// pad answers when it is selected or no device is; a memory card never
    /// answers. The answer (0 when none) is received, an interrupt is
    /// requested when CTRL bit 11 asks for one, and an acknowledged byte
    /// waits 450 ticks for its acknowledge; otherwise the port idles and
    /// deselects.
    pub open spec fn transferred(self) -> Joy {
        let value = self.pending_value();
        let c = self.ctrl | 4;
        let (r, a) = controller_reply(self.controller_transfer_state, value, self.button_state);
        let next = controller_next(self.controller_transfer_state, value);
        let (response, ack, cts, device): (u8, bool, ControllerTransferState, ActiveDevice) = match self.active_device {
            ActiveDevice::Disconnected => if a {
                (r, true, next, ActiveDevice::Controller)
            } else {
                (0u8, false, next, ActiveDevice::Disconnected)
            },
            ActiveDevice::Controller => (r, a, next, ActiveDevice::Controller),
            ActiveDevice::MemoryCard => (0u8, false, self.controller_transfer_state, ActiveDevice::MemoryCard),
        };
        let irq = c & 0x800 != 0;
        let stat = if irq { self.stat | 0x200 } else { self.stat };
        Joy {
            ctrl: c,
            controller_transfer_state: cts,
            active_device: if ack { device } else { ActiveDevice::Disconnected },
            receive_buffer: response,
            receive_buffer_full: true,
            irq_requested: if irq { false } else { self.irq_requested },
            stat: status_with_buffers(stat, true, self.transmit_buffer_full, false),
            state: if ack { State::PendingAck { ticks: 450 } } else { State::Idle },
            ..self
        }
    }

    /// The port after the device's acknowledge: stat bit 7 is set, an
    /// interrupt is requested when CTRL bit 12 asks for one, and the port
    /// idles, or sends the next byte if one waits and the port is enabled.
    pub open spec fn acked(self) -> Joy {
        let irq = self.ctrl & 0x1000 != 0;
        let s1 = if irq { (self.stat | 0x80) | 0x200 } else { self.stat | 0x80 };
        let j = Joy {
            stat: status_with_buffers(s1, self.receive_buffer_full, self.transmit_buffer_full, false),
            state: State::Idle,
            irq_requested: if irq { false } else { self.irq_requested },
            ..self
        };
        if self.transmit_buffer_full && self.ctrl & 3 == 3 {
            j.transfer_begun()
        } else {
            j
        }
    }

    /// The port after a write of `value` to CTRL: bit 6 resets the port;
    /// clearing both enable bits idles it; enabling both with a byte waiting
    /// starts a transfer.
    pub open spec fn ctrl_written(self, value: u32) -> Joy {
        let j0 = if value & 0x40 != 0 {
            Joy {
                ctrl: 0,
                stat: status_with_buffers(0, false, false, false),
                mode: 0,
                receive_buffer: 0,
                receive_buffer_full: false,
                transmit_buffer: 0,
                transmit_buffer_full: false,
                active_device: ActiveDevice::Disconnected,
                state: State::Idle,
                ..self
            }
        } else {
            Joy { ctrl: value, ..self }
        };
        if value & 3 == 0 {
            Joy { state: State::Idle, ..j0 }
        } else if j0.state == State::Idle && j0.transmit_buffer_full && value & 3 == 3 {
            j0.transfer_begun()
        } else {
            j0
        }
    }

    /// The port at CPU cycle count `cycles`, before it requests an
    /// interrupt: a pending transmission or acknowledge whose delay runs
    /// out happens now.
    pub open spec fn cycled_state(self, cycles: u64) -> Joy {
        let diff = cycles - self.last_cycles;
        let j = Joy { last_cycles: cycles, ..self };
        match self.state {
            State::PendingAck { ticks } => if ticks - diff < 0 {
                j.acked()
            } else {
                Joy { state: State::PendingAck { ticks: (ticks - diff) as i64 }, ..j }
            },
            State::PendingTransmission { ticks, value } => if ticks - diff < 0 {
                j.transferred()
            } else {
                Joy { state: State::PendingTransmission { ticks: (ticks - diff) as i64, value }, ..j }
            },
            _ => j,
        }
    }

    /// Whether advancing to `cycles` sends IRQ 7: the port requests an
    /// interrupt (stat bit 9) that has not been sent.
    pub open spec fn cycle_raises_irq(self, cycles: u64) -> bool {
        let j = self.cycled_state(cycles);
        j.stat & 0x200 != 0 && !j.irq_requested
    }

    /// The port at CPU cycle count `cycles`.
    pub open spec fn cycled(self, cycles: u64) -> Joy {
        let j = self.cycled_state(cycles);
        if self.cycle_raises_irq(cycles) {
            Joy { irq_requested: true, ..j }
        } else {
            j
        }
    }

    /// What a read of a port register gives (`r`) and leaves (`after`).
    /// Reading the data or status register first completes a pending
    /// transmission. Data reads pop the received byte (0xff when none),
    /// repeated in all four bytes; status reads clear the ack bit (7).
    pub open spec fn read_effect(self, after: Joy, address: u32, r: u32) -> bool {
        let j = if self.state is PendingTransmission { self.transferred() } else { self };
        if address == 0x1f80_1040 {
            let value: u32 = if j.receive_buffer_full { j.receive_buffer as u32 } else { 0xff };
            &&& r == value * 0x0101_0101
            &&& after == (Joy {
                receive_buffer_full: false,
                stat: status_with_buffers(j.stat, false, j.transmit_buffer_full, j.state == State::Transmitting),
                ..j
            })
        } else if address == 0x1f80_1044 {
            r == j.stat && after == (Joy { stat: j.stat & !0x80u32, ..j })
        } else if address == 0x1f80_104a {
            r == self.ctrl && after == self
        } else {
            r == self.baud && after == self
        }
    }

    /// What a write of `value` to a port register leaves. A data write
    /// fills the transmit buffer, requests an interrupt when stat bit 10 is
    /// set, and starts a transfer when the port is idle and enabled.
    pub open spec fn write_effect(self, after: Joy, address: u32, value: u32) -> bool {
        if address == 0x1f80_1040 {
            let j0 = Joy { transmit_buffer: value as u8, transmit_buffer_full: true, ..self };
            let j1 = if self.stat & 0x400 != 0 { Joy { irq_requested: false, stat: j0.stat | 0x200, ..j0 } } else { j0 };
            after == if j1.state == State::Idle && j1.ctrl & 3 == 3 { j1.transfer_begun() } else { j1 }
        } else if address == 0x1f80_1048 {
            after == (Joy { mode: value, ..self })
        } else if address == 0x1f80_104a {
            after == self.ctrl_written(value)
        } else {
            after == (Joy { baud: value, ..self })
        }
    }
}

impl Joy {
    pub open spec fn wf(&self) -> bool {
        &&& self.baud <= MAX_BAUD
        &&& match self.state {
            State::PendingTransmission { ticks, .. } => 0 <= ticks <= 0x1_0000_0000,
            State::PendingAck { ticks } => 0 <= ticks <= 0x1_0000_0000,
            _ => true,
        }
    }

    /// The port after a reset, with every button released.
    pub fn new() -> (r: Self)
        ensures
            r.wf(),
            r.button_state == 0xffff,
            r.ctrl == 0 && r.stat == 0 && r.mode == 0 && r.baud == 0,
            r.state == State::Idle,
            r.active_device == ActiveDevice::Disconnected,
            r.controller_transfer_state == ControllerTransferState::Idle,
            !r.receive_buffer_full && !r.transmit_buffer_full && !r.irq_requested,
            r.last_cycles == 0,
    {
        Joy {
            button_state: 0xffff,
            ctrl: 0,
            stat: 0,
            mode: 0,
            baud: 0,
            receive_buffer: 0,
            receive_buffer_full: false,
            transmit_buffer: 0,
            transmit_buffer_full: false,
            active_device: ActiveDevice::Disconnected,
            state: State::Idle,
            last_cycles: 0,
            controller_transfer_state: ControllerTransferState::Idle,
            irq_requested: false,
        }
    }

    /// Marks `button` as pressed (its bit is cleared).
    pub fn press_button(&mut self, button: JoypadButton)
        ensures
            final(self).button_state == old(self).button_state & !(1u16 << button_bit(button)),
            final(self).state == old(self).state,
            final(self).baud == old(self).baud,
    {
        self.button_state = self.button_state & !(1u16 << button.bit());
    }

    /// Marks `button` as released (its bit is set).
    pub fn release_button(&mut self, button: JoypadButton)
        ensures
            final(self).button_state == old(self).button_state | (1u16 << button_bit(button)),
            final(self).state == old(self).state,
            final(self).baud == old(self).baud,
    {
        self.button_state = self.button_state | (1u16 << button.bit());
    }

    /// Advances the port to the CPU cycle count `cycles`: a pending
    /// transmission or acknowledge whose delay runs out happens now. When
    /// the port requests an interrupt (stat bit 9) that has not been sent,
    /// IRQ 7 is triggered.
    pub fn cycle(&mut self, cycles: u64, intc: &mut InterruptController)
        requires
            old(self).wf(),
            old(self).last_cycles <= cycles <= old(self).last_cycles + 0x7fff_ffff,
        ensures
            final(self).wf(),
            *final(self) == old(self).cycled(cycles),
            final(intc).i_mask == old(intc).i_mask,
            old(self).cycle_raises_irq(cycles) ==> final(intc).i_stat == old(intc).i_stat | (1u16 << 7usize),
            !old(self).cycle_raises_irq(cycles) ==> final(intc).i_stat == old(intc).i_stat,
    {
        let diff = (cycles - self.last_cycles) as i64;
        self.last_cycles = cycles;

        match self.state {
            State::PendingAck { ticks } => {
                let updated = ticks - diff;
                if updated < 0 {
                    self.perform_ack();
                } else {
                    self.state = State::PendingAck { ticks: updated };
                }
            },
            State::PendingTransmission { ticks, value } => {
                let updated = ticks - diff;
                if updated < 0 {
                    self.perform_transfer();
                } else {
                    self.state = State::PendingTransmission { ticks: updated, value };
                }
            },
            _ => {},
        }

        if self.stat & 0x200 != 0 && !self.irq_requested {
            self.irq_requested = true;
            intc.trigger_irq(7);
            proof { crate::bits::lemma_small_shifts(); }
        }
    }

    /// Reads RX_DATA (0x1f80_1040), STAT (…44), CTRL (…4a) or BAUD (…4e).
    /// Reading the data or status register first completes a pending
    /// transmission. Data reads pop the received byte (0xff when none),
    /// repeated in all four bytes; status reads clear the ack bit (7).
    pub fn read(&mut self, address: u32) -> (r: u32)
        requires
            old(self).wf(),
            address == 0x1f80_1040 || address == 0x1f80_1044 || address == 0x1f80_104a
                || address == 0x1f80_104e,
        ensures
            final(self).wf(),
            old(self).read_effect(*final(self), address, r),
    {
        if address == 0x1f80_1040 {
            if matches!(self.state, State::PendingTransmission { .. }) {
                self.perform_transfer();
            }
            let value: u32 = if self.receive_buffer_full { self.receive_buffer as u32 } else { 0xff };
            self.receive_buffer_full = false;
            self.update_status();
            assert(value < 256 ==> value | (value << 8) | (value << 16) | (value << 24) == value * 0x0101_0101)
                by (bit_vector);
            value | (value << 8) | (value << 16) | (value << 24)
        } else if address == 0x1f80_1044 {
            if matches!(self.state, State::PendingTransmission { .. }) {
                self.perform_transfer();
            }
            let stat = self.stat;
            self.stat = self.stat & !0x80u32;
            stat
        } else if address == 0x1f80_104a {
            self.ctrl
        } else {
            self.baud
        }
    }

    /// Writes TX_DATA (0x1f80_1040), MODE (…48), CTRL (…4a) or BAUD (…4e).
    /// A data write fills the transmit buffer, requests an interrupt when
    /// stat bit 10 is set, and starts a transfer when the port is idle and
    /// enabled (CTRL bits 0 and 1).
    pub fn write(&mut self, address: u32, value: u32)
        requires
            old(self).wf(),
            address == 0x1f80_1040 || address == 0x1f80_1048 || address == 0x1f80_104a
                || address == 0x1f80_104e,
            address == 0x1f80_104e ==> value <= MAX_BAUD,
        ensures
            final(self).wf(),
            old(self).write_effect(*final(self), address, value),
    {
        if address == 0x1f80_1040 {
            self.transmit_buffer = value as u8;
            self.transmit_buffer_full = true;

            if self.stat & 0x400 != 0 {
                self.irq();
            }

            if self.state == State::Idle && self.ctrl & 3 == 3 {
                self.begin_transfer();
            }
        } else if address == 0x1f80_1048 {
            self.mode = value;
        } else if address == 0x1f80_104a {
            self.write_ctrl(value);
        } else {
            self.baud = value;
        }
    }

    /// Writes CTRL. Bit 6 resets the port; clearing both enable bits (0 and
    /// 1) idles it; enabling both with a byte waiting starts a transfer.
    pub fn write_ctrl(&mut self, value: u32)
        requires
            old(self).wf(),
        ensures
            final(self).wf(),
            *final(self) == old(self).ctrl_written(value),
    {
        self.ctrl = value;

        if value & 0x40 != 0 {
            self.ctrl = 0;
            self.stat = 0;
            self.mode = 0;
            self.receive_buffer = 0;
            self.receive_buffer_full = false;
            self.transmit_buffer = 0;
            self.transmit_buffer_full = false;
            self.active_device = ActiveDevice::Disconnected;
            self.state = State::Idle;
            self.update_status();
        }

        if value & 2 == 0 && value & 1 == 0 {
            self.state = State::Idle;
            proof { lemma_ctrl_bits(value); }
        } else {
            proof { lemma_ctrl_bits(value); }
            if self.state == State::Idle && self.transmit_buffer_full && value & 3 == 3 {
                self.begin_transfer();
                proof { lemma_ctrl_bits(value); }
            }
        }
    }

    /// Starts sending the byte in the transmit buffer: the buffer empties,
    /// CTRL bit 2 is set, and the byte goes out after 8 ticks per baud unit.
    pub fn begin_transfer(&mut self)
        requires
            old(self).wf(),
        ensures
            final(self).wf(),
            *final(self) == old(self).transfer_begun(),
    {
        let value = self.transmit_buffer;
        self.transmit_buffer_full = false;
        self.ctrl = self.ctrl | 4;
        self.state = State::PendingTransmission { value, ticks: (self.baud as i64) * 8 };
    }

    /// Recomputes the buffer bits of the status register.
    pub fn update_status(&mut self)
        ensures
            *final(self) == (Joy {
                stat: status_with_buffers(
                    old(self).stat,
                    old(self).receive_buffer_full,
                    old(self).transmit_buffer_full,
                    old(self).state == State::Transmitting,
                ),
                ..*old(self)
            }),
    {
        if self.receive_buffer_full {
            self.stat = self.stat | 2;
        } else {
            self.stat = self.stat & !2u32;
        }
        if !self.transmit_buffer_full && self.state != State::Transmitting {
            self.stat = self.stat | 4;
        } else {
            self.stat = self.stat & !4u32;
        }
        if !self.transmit_buffer_full {
            self.stat = self.stat | 1;
        } else {
            self.stat = self.stat & !1u32;
        }
    }

    /// Completes the pending transmission: the byte goes to the device that
    /// answered first (the pad is asked before the memory card), its reply
    /// lands in the receive buffer, an interrupt is requested when CTRL bit
    /// 11 asks for one, and an acknowledged byte is followed by an
    /// acknowledge 450 ticks later.
    pub fn perform_transfer(&mut self)
        requires
            old(self).wf(),
            old(self).state is PendingTransmission,
        ensures
            final(self).wf(),
            *final(self) == old(self).transferred(),
    {
        let value = match self.state {
            State::PendingTransmission { value, .. } => value,
            _ => 0,
        };

        let ct = self.ctrl;
        let c0 = ct | 4;
        proof { lemma_set_bits(ct); }
        self.ctrl = c0;

        let mut response: u8 = 0xff;
        let mut acknowledged = false;

        match self.active_device {
            ActiveDevice::Disconnected => {
                let (r, a) = self.controller_transfer(value);
                response = r;
                acknowledged = a;
                if !acknowledged {
                    let (r2, a2) = self.memcard_transfer(value);
                    response = r2;
                    acknowledged = a2;
                    if acknowledged {
                        self.active_device = ActiveDevice::MemoryCard;
                    }
                } else {
                    self.active_device = ActiveDevice::Controller;
                }
            },
            ActiveDevice::Controller => {
                let (r, a) = self.controller_transfer(value);
                response = r;
                acknowledged = a;
            },
            ActiveDevice::MemoryCard => {
                let (r, a) = self.memcard_transfer(value);
                response = r;
                acknowledged = a;
            },
        }

        self.receive_buffer = response;
        self.receive_buffer_full = true;

        if self.ctrl & 0x800 != 0 {
            self.irq();
        }

        if !acknowledged {
            self.active_device = ActiveDevice::Disconnected;
            self.state = State::Idle;
        } else {
            self.state = State::PendingAck { ticks: 450 };
        }

        self.update_status();
    }

    /// The acknowledge after a transferred byte: stat bit 7 is set, an
    /// interrupt is requested when CTRL bit 12 asks for one, the port goes
    /// idle, and a byte waiting to be sent starts out at once.
    pub fn perform_ack(&mut self)
        requires
            old(self).wf(),
        ensures
            final(self).wf(),
            *final(self) == old(self).acked(),
    {
        let st = self.stat;
        let s0 = st | 0x80;
        proof { lemma_set_bits(st); }
        self.stat = s0;
        if self.ctrl & 0x1000 != 0 {
            self.irq();
        }
        self.state = State::Idle;
        let s = self.stat;
        self.update_status();
        proof {
            lemma_status_keeps_high_bits(s, self.receive_buffer_full, self.transmit_buffer_full, false);
            assert(s & 0x80 != 0);
            let s2 = self.stat;
            lemma_high_bits_kept(s, s2);
        }
        if self.transmit_buffer_full && self.ctrl & 3 == 3 {
            self.begin_transfer();
        }
    }

    /// Requests an interrupt: stat bit 9 is set, to be forwarded on the next
    /// cycle.
    pub fn irq(&mut self)
        ensures
            *final(self) == (Joy { irq_requested: false, stat: old(self).stat | 0x200, ..*old(self) }),
    {
        self.irq_requested = false;
        self.stat = self.stat | 0x200;
    }

    /// The pad's side of one byte exchange: it answers 01h (ready), 42h
    /// (with ID byte 41h), then the ID byte 5Ah, then the two button bytes,
    /// acknowledging every byte but the last. Any other byte out of turn
    /// gets 0xff and no acknowledge.
    pub fn controller_transfer(&mut self, value: u8) -> (r: (u8, bool))
        ensures
            r == controller_reply(old(self).controller_transfer_state, value, old(self).button_state),
            final(self).controller_transfer_state == controller_next(old(self).controller_transfer_state, value),
            *final(self) == (Joy {
                controller_transfer_state: final(self).controller_transfer_state,
                ..*old(self)
            }),
    {
        match self.controller_transfer_state {
            ControllerTransferState::Idle => {
                if value == 1 {
                    self.controller_transfer_state = ControllerTransferState::Ready;
                    return (0xff, true);
                }
                (0xff, false)
            },
            ControllerTransferState::Ready => {
                if value == 0x42 {
                    self.controller_transfer_state = ControllerTransferState::IdMsb;
                    return (0x41, true);
                }
                (0xff, false)
            },
            ControllerTransferState::IdMsb => {
                self.controller_transfer_state = ControllerTransferState::ButtonsLsb;
                (0x5a, true)
            },
            ControllerTransferState::ButtonsLsb => {
                self.controller_transfer_state = ControllerTransferState::ButtonsMsb;
                ((self.button_state & 0xff) as u8, true)
            },
            ControllerTransferState::ButtonsMsb => {
                self.controller_transfer_state = ControllerTransferState::Idle;
                ((self.button_state >> 8) as u8, false)
            },
        }
    }

    /// No memory card is plugged in: it never answers.
    pub fn memcard_transfer(&mut self, _value: u8) -> (r: (u8, bool))
        ensures
            r == (0u8, false),
            *final(self) == *old(self),
    {
        (0, false)
    }
}

/// Recomputing the buffer bits leaves every bit above bit 2 as it was.
pub proof fn lemma_status_keeps_high_bits(stat: u32, rx_full: bool, tx_full: bool, transmitting: bool)
    ensures
        status_with_buffers(stat, rx_full, tx_full, transmitting) & !7u32 == stat & !7u32,
{
    let s1 = if rx_full { stat | 2 } else { stat & !2u32 };
    let s2 = if !tx_full && !transmitting { s1 | 4 } else { s1 & !4u32 };
    let s3 = if !tx_full { s2 | 1 } else { s2 & !1u32 };
    lemma_low3(stat, 2);
    lemma_low3(s1, 4);
    lemma_low3(s2, 1);
}

/// The pad's reply to `value` in state `state`.
pub open spec fn controller_reply(state: ControllerTransferState, value: u8, buttons: u16) -> (u8, bool) {
    match state {
        ControllerTransferState::Idle => if value == 1 { (0xffu8, true) } else { (0xffu8, false) },
        ControllerTransferState::Ready => if value == 0x42 { (0x41u8, true) } else { (0xffu8, false) },
        ControllerTransferState::IdMsb => (0x5au8, true),
        ControllerTransferState::ButtonsLsb => ((buttons & 0xff) as u8, true),
        ControllerTransferState::ButtonsMsb => ((buttons >> 8) as u8, false),
    }
}

/// The pad's state after receiving `value` in state `state`.
pub open spec fn controller_next(state: ControllerTransferState, value: u8) -> ControllerTransferState {
    match state {
        ControllerTransferState::Idle => if value == 1 { ControllerTransferState::Ready } else { state },
        ControllerTransferState::Ready => if value == 0x42 { ControllerTransferState::IdMsb } else { state },
        ControllerTransferState::IdMsb => ControllerTransferState::ButtonsLsb,
        ControllerTransferState::ButtonsLsb => ControllerTransferState::ButtonsMsb,
        ControllerTransferState::ButtonsMsb => ControllerTransferState::Idle,
    }
}

/// Each button clears the pad's hardware bit for it in the button word:
/// Select 0, L3 1, R3 2, Start 3, Up 4, Right 5, Down 6, Left 7, L2 8, R2 9,
/// L1 10, R1 11, Triangle 12, Circle 13, Cross 14, Square 15. So pressing Up
/// alone leaves the word 0xffef.
pub proof fn lemma_button_bits()
    ensures
        button_bit(JoypadButton::Select) == 0 && button_bit(JoypadButton::L3) == 1,
        button_bit(JoypadButton::R3) == 2 && button_bit(JoypadButton::Start) == 3,
        button_bit(JoypadButton::Up) == 4 && button_bit(JoypadButton::Right) == 5,
        button_bit(JoypadButton::Down) == 6 && button_bit(JoypadButton::Left) == 7,
        button_bit(JoypadButton::L2) == 8 && button_bit(JoypadButton::R2) == 9,
        button_bit(JoypadButton::L1) == 10 && button_bit(JoypadButton::R1) == 11,
        button_bit(JoypadButton::Triangle) == 12 && button_bit(JoypadButton::Circle) == 13,
        button_bit(JoypadButton::Cross) == 14 && button_bit(JoypadButton::Square) == 15,
        0xffffu16 & !(1u16 << button_bit(JoypadButton::Up)) == 0xffef,
{
    assert(0xffffu16 & !(1u16 << 4u16) == 0xffef) by (bit_vector);
}

} // verus!

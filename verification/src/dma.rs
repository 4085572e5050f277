use vstd::prelude::*;

use crate::memory::AccessSize;

verus! {

/// The direction of a DMA transfer, seen from main RAM.
#[derive(Copy, Clone, Debug, PartialEq, Eq, Structural)]
pub enum Direction {
    ToRam,
    FromRam,
}

/// Whether a channel walks RAM forward or backward.
#[derive(Copy, Clone, Debug, PartialEq, Eq, Structural)]
pub enum Step {
    Forward,
    Backward,
}

#[derive(Copy, Clone, Debug, PartialEq, Eq, Structural)]
pub enum Chopping {
    Disabled,
    Enabled,
}

/// How a channel synchronises its transfer with the device.
#[derive(Copy, Clone, Debug, PartialEq, Eq, Structural)]
pub enum SyncMode {
    Immediate,
    Sync,
    LinkedList,
    Reserved,
}

#[derive(Copy, Clone, Debug, PartialEq, Eq, Structural)]
pub enum Busy {
    Available,
    Busy,
}

#[derive(Copy, Clone, Debug, PartialEq, Eq, Structural)]
pub enum Trigger {
    Stop,
    Start,
}

/// The device at the other end of each of the seven channels.
#[derive(Copy, Clone, Debug, PartialEq, Eq, Structural)]
pub enum ChannelLink {
    MdecIn,
    MdecOut,
    Gpu,
    Cdrom,
    Spu,
    Pio,
    Otc,
}

/// The channel number of each link.
pub open spec fn link_index(link: ChannelLink) -> nat {
    match link {
        ChannelLink::MdecIn => 0,
        ChannelLink::MdecOut => 1,
        ChannelLink::Gpu => 2,
        ChannelLink::Cdrom => 3,
        ChannelLink::Spu => 4,
        ChannelLink::Pio => 5,
        ChannelLink::Otc => 6,
    }
}

impl ChannelLink {
    /// The link of channel `i` (0 to 6).
    pub fn get(i: u32) -> (r: ChannelLink)
        requires
            i <= 6,
        ensures
            link_index(r) == i,
    {
        match i {
            0 => ChannelLink::MdecIn,
            1 => ChannelLink::MdecOut,
            2 => ChannelLink::Gpu,
            3 => ChannelLink::Cdrom,
            4 => ChannelLink::Spu,
            5 => ChannelLink::Pio,
            _ => ChannelLink::Otc,
        }
    }
}

/// One DMA channel's registers and decoded control fields.
#[derive(Copy, Clone, Debug)]
pub struct Channel {
    pub n: u32,
    pub link: ChannelLink,
    pub base: u32,
    pub channel_control: u32,
    pub block_size: u32,
    pub block_count: u32,
    pub direction: Direction,
    pub step: Step,
    pub chopping: Chopping,
    pub sync_mode: SyncMode,
    pub chopping_dma_window: u32,
    pub chopping_cpu_window: u32,
    pub busy: Busy,
    pub trigger: Trigger,
}

/// The bits a write to a channel control register keeps: on channel 6
/// (OTC) only bits 24, 28 and 30 can be written and bit 1 always reads 1;
/// elsewhere the fixed-zero bits are cleared.
pub open spec fn control_written(n: u32, value: u32) -> u32 {
    if n == 6 {
        (value & 0x5100_0000) | 2
    } else {
        value & !0x8e88_f8fcu32
    }
}

/// Whether a write of `value` to the control register of channel `n`
/// selects a sync mode that exists (bits 10..9 are not both set).
pub open spec fn control_write_valid(n: u32, value: u32) -> bool {
    (control_written(n, value) >> 9) & 3 != 3
}

impl Channel {
    /// The decoded fields agree with the control register.
    pub open spec fn wf(&self) -> bool {
        let c = self.channel_control;
        &&& self.n <= 6
        &&& link_index(self.link) == self.n
        &&& (self.direction == Direction::FromRam) == (c & 1 != 0)
        &&& (self.step == Step::Backward) == (c & 2 != 0)
        &&& (self.chopping == Chopping::Enabled) == (c & 0x100 != 0)
        &&& (self.busy == Busy::Busy) == (c & 0x0100_0000 != 0)
        &&& (self.trigger == Trigger::Start) == (c & 0x1000_0000 != 0)
        &&& self.sync_mode == sync_mode_of(c)
    }

    /// Creates channel `n` in its reset state: idle, immediate mode, RAM
    /// walked forward; channel 6 (OTC) walks backward.
    pub fn new(n: u32) -> (r: Channel)
        requires
            n <= 6,
        ensures
            r.wf(),
            r.n == n,
            r.base == 0,
            r.block_size == 0 && r.block_count == 0,
            r.channel_control == if n == 6 { 2u32 } else { 0u32 },
            r.busy == Busy::Available,
            r.trigger == Trigger::Stop,
            r.sync_mode == SyncMode::Immediate,
            r.direction == Direction::ToRam,
    {
        assert(2u32 & 1 == 0 && 2u32 & 2 != 0 && 2u32 & 0x100 == 0 && 2u32 & 0x0100_0000 == 0
            && 2u32 & 0x1000_0000 == 0 && (2u32 >> 9) & 3 == 0) by (bit_vector);
        assert(0u32 & 1 == 0 && 0u32 & 2 == 0 && 0u32 & 0x100 == 0 && 0u32 & 0x0100_0000 == 0
            && 0u32 & 0x1000_0000 == 0 && (0u32 >> 9) & 3 == 0) by (bit_vector);
        Channel {
            n,
            link: ChannelLink::get(n),
            base: 0,
            // Bit 1 of the OTC channel's control register is fixed to 1: it
            // always walks backward.
            channel_control: if n == 6 { 2 } else { 0 },
            block_size: 0,
            block_count: 0,
            direction: Direction::ToRam,
            step: if n == 6 { Step::Backward } else { Step::Forward },
            chopping: Chopping::Disabled,
            sync_mode: SyncMode::Immediate,
            chopping_dma_window: 0,
            chopping_cpu_window: 0,
            busy: Busy::Available,
            trigger: Trigger::Stop,
        }
    }

    /// Reads the base address (offset 0), block control (4) or channel
    /// control (8) register.
    pub fn read(&self, addr: u32, _size: AccessSize) -> (r: u32)
        requires
            addr == 0 || addr == 4 || addr == 8,
        ensures
            addr == 0 ==> r == self.base,
            addr == 4 ==> r == (self.block_count << 16) | self.block_size,
            addr == 8 ==> r == self.channel_control,
    {
        if addr == 0 {
            self.base
        } else if addr == 4 {
            self.read_block_control()
        } else {
            self.channel_control
        }
    }

    /// Writes the base address (offset 0), block control (4) or channel
    /// control (8) register.
    pub fn write(&mut self, addr: u32, value: u32, _size: AccessSize)
        requires
            old(self).wf(),
            addr == 0 || addr == 4 || addr == 8,
            addr == 8 ==> control_write_valid(old(self).n, value),
        ensures
            final(self).wf(),
            final(self).n == old(self).n,
            addr == 0 ==> *final(self) == (Channel { base: value & 0xff_ffff, ..*old(self) }),
            addr == 4 ==> *final(self) == (Channel {
                block_size: value & 0xffff,
                block_count: value >> 16,
                ..*old(self)
            }),
            addr == 8 ==> final(self).channel_control == control_written(old(self).n, value)
                && final(self).chopping_dma_window == (control_written(old(self).n, value) >> 16) & 7
                && final(self).chopping_cpu_window == (control_written(old(self).n, value) >> 20) & 7
                && final(self).link == old(self).link
                && final(self).base == old(self).base
                && final(self).block_size == old(self).block_size
                && final(self).block_count == old(self).block_count,
    {
        if addr == 0 {
            self.set_base(value);
        } else if addr == 4 {
            self.set_block_control(value);
        } else {
            self.set_channel_control(value);
        }
    }

    /// Whether the channel has a transfer to run: busy and, in immediate
    /// mode, also triggered.
    pub fn active(&self) -> (r: bool)
        ensures
            r == if self.sync_mode == SyncMode::Immediate {
                self.busy == Busy::Busy && self.trigger == Trigger::Start
            } else {
                self.busy == Busy::Busy
            },
    {
        if self.sync_mode == SyncMode::Immediate {
            self.busy == Busy::Busy && self.trigger == Trigger::Start
        } else {
            self.busy == Busy::Busy
        }
    }

    pub fn link(&self) -> (r: ChannelLink)
        ensures
            r == self.link,
    {
        self.link
    }

    /// The address increment per word: 4 forward, -4 backward.
    pub fn step(&self) -> (r: i32)
        ensures
            r == if self.step == Step::Backward { -4i32 } else { 4i32 },
    {
        match self.step {
            Step::Backward => -4,
            Step::Forward => 4,
        }
    }

    pub fn base(&self) -> (r: u32)
        ensures
            r == self.base,
    {
        self.base
    }

    /// The number of blocks and the words per block; a block size of 0
    /// means 0x10000 words.
    pub fn transfer_size(&self) -> (r: (u32, u32))
        ensures
            r.0 == self.block_count,
            r.1 == if self.block_size == 0 { 0x10000u32 } else { self.block_size },
    {
        if self.block_size == 0 {
            return (self.block_count, 0x10000);
        }
        (self.block_count, self.block_size)
    }

    pub fn sync_mode(&self) -> (r: SyncMode)
        ensures
            r == self.sync_mode,
    {
        self.sync_mode
    }

    pub fn chopping(&self) -> (r: bool)
        ensures
            r == (self.chopping == Chopping::Enabled),
    {
        self.chopping == Chopping::Enabled
    }

    pub fn direction(&self) -> (r: Direction)
        ensures
            r == self.direction,
    {
        self.direction
    }

    /// Ends the transfer: the channel is available and stopped, and the busy
    /// (24) and trigger (28) bits of its control register are cleared.
    pub fn done(&mut self)
        requires
            old(self).wf(),
        ensures
            final(self).wf(),
            *final(self) == (Channel {
                busy: Busy::Available,
                trigger: Trigger::Stop,
                channel_control: old(self).channel_control & !0x1100_0000u32,
                ..*old(self)
            }),
    {
        let c = self.channel_control;
        let nc = c & !0x1100_0000u32;
        assert(nc & 1 == c & 1 && nc & 2 == c & 2 && nc & 0x100 == c & 0x100
            && nc & 0x0100_0000 == 0 && nc & 0x1000_0000 == 0 && (nc >> 9) & 3 == (c >> 9) & 3)
            by (bit_vector)
            requires nc == c & !0x1100_0000u32;
        self.busy = Busy::Available;
        self.trigger = Trigger::Stop;
        self.channel_control = nc;
    }

    /// The block control register: block count in the high half, block size
    /// in the low half.
    pub fn read_block_control(&self) -> (r: u32)
        ensures
            r == (self.block_count << 16) | self.block_size,
    {
        (self.block_count << 16) | self.block_size
    }

    /// Sets the base address; only 24 bits are kept.
    pub fn set_base(&mut self, value: u32)
        ensures
            *final(self) == (Channel { base: value & 0xff_ffff, ..*old(self) }),
    {
        self.base = value & 0xff_ffff;
    }

    /// Sets the block size (low half) and block count (high half).
    pub fn set_block_control(&mut self, value: u32)
        ensures
            *final(self) == (Channel {
                block_size: value & 0xffff,
                block_count: value >> 16,
                ..*old(self)
            }),
    {
        self.block_size = value & 0xffff;
        self.block_count = value >> 16;
    }

    /// Whether a write of `value` to the control register of channel `n`
    /// selects a sync mode that exists.
    pub fn control_value_valid(n: u32, value: u32) -> (r: bool)
        ensures
            r == control_write_valid(n, value),
    {
        let written = if n == 6 {
            (value & 0x5100_0000) | 2
        } else {
            value & !0x8e88_f8fcu32
        };
        (written >> 9) & 3 != 3
    }

    /// Writes the channel control register and decodes its fields.
    pub fn set_channel_control(&mut self, value: u32)
        requires
            old(self).n <= 6,
            link_index(old(self).link) == old(self).n,
            control_write_valid(old(self).n, value),
        ensures
            final(self).wf(),
            final(self).channel_control == control_written(old(self).n, value),
            final(self).chopping_dma_window == (control_written(old(self).n, value) >> 16) & 7,
            final(self).chopping_cpu_window == (control_written(old(self).n, value) >> 20) & 7,
            final(self).n == old(self).n,
            final(self).link == old(self).link,
            final(self).base == old(self).base,
            final(self).block_size == old(self).block_size,
            final(self).block_count == old(self).block_count,
    {
        let value = if self.n == 6 {
            (value & 0x5100_0000) | 2
        } else {
            value & !0x8e88_f8fcu32
        };

        self.direction = if value & 1 != 0 { Direction::FromRam } else { Direction::ToRam };
        self.step = if value & 2 != 0 { Step::Backward } else { Step::Forward };
        self.chopping = if value & 0x100 != 0 { Chopping::Enabled } else { Chopping::Disabled };
        let mode = (value >> 9) & 3;
        self.sync_mode = if mode == 0 {
            SyncMode::Immediate
        } else if mode == 1 {
            SyncMode::Sync
        } else {
            SyncMode::LinkedList
        };
        self.chopping_dma_window = (value >> 16) & 7;
        self.chopping_cpu_window = (value >> 20) & 7;
        self.busy = if value & 0x0100_0000 != 0 { Busy::Busy } else { Busy::Available };
        self.trigger = if value & 0x1000_0000 != 0 { Trigger::Start } else { Trigger::Stop };
        self.channel_control = value;
    }
}

/// The sync mode that bits 10..9 of a control register select (3 is never
/// written).
pub open spec fn sync_mode_of(control: u32) -> SyncMode {
    let m = (control >> 9) & 3;
    if m == 0 {
        SyncMode::Immediate
    } else if m == 1 {
        SyncMode::Sync
    } else {
        SyncMode::LinkedList
    }
}

/// The 3-bit priority score of channel `ch` in DPCR (0 is the highest, 7
/// the lowest).
pub open spec fn priority_score(dpcr: u32, ch: int) -> int {
    ((dpcr >> ((ch * 4) as u32)) & 7) as int
}

/// The sort key of channel `ch`: by score, then the higher channel first.
pub open spec fn priority_key(dpcr: u32, ch: int) -> int {
    priority_score(dpcr, ch) * 8 + (6 - ch)
}

/// How many of the seven channels sort before the key `k`.
pub open spec fn channels_below(dpcr: u32, k: int) -> int {
    (if priority_key(dpcr, 0) < k { 1int } else { 0 })
        + (if priority_key(dpcr, 1) < k { 1int } else { 0 })
        + (if priority_key(dpcr, 2) < k { 1int } else { 0 })
        + (if priority_key(dpcr, 3) < k { 1int } else { 0 })
        + (if priority_key(dpcr, 4) < k { 1int } else { 0 })
        + (if priority_key(dpcr, 5) < k { 1int } else { 0 })
        + (if priority_key(dpcr, 6) < k { 1int } else { 0 })
}

/// Channel `c` stands among the first `len` entries of `order`.
pub open spec fn order_holds(order: [usize; 7], c: int, len: int) -> bool {
    exists|a: int| 0 <= a < len && #[trigger] order[a] == c
}

/// The DPCR bit that enables a channel: bit 3 of its 4-bit field.
pub open spec fn enable_bit(link: ChannelLink) -> u32 {
    (3 + 4 * link_index(link)) as u32
}

/// DICR bit 31, the IRQ master flag: forced by bit 15, or set when bit 23
/// enables it and some channel has both its enable (23..16) and its flag
/// (30..24) set.
pub open spec fn irq_master(dicr: u32) -> bool {
    (dicr & 0x8000 != 0) || ((dicr & 0x80_0000 != 0) && ((dicr >> 16) & 0x7f) & ((dicr >> 24) & 0x7f) != 0)
}

/// DICR after a write of `value`, before its master flag is recomputed:
/// bits 23..0 are replaced (bits 14..6 always read 0) and each 1 in bits
/// 30..24 acknowledges (clears) that channel's flag.
pub open spec fn dicr_written(dicr: u32, value: u32) -> u32 {
    let value = value & !0x7fc0u32;
    let kept = (dicr & 0x7f00_0000) & !(value & 0x7f00_0000);
    (dicr & 0x8000_0000) | (value & 0xff_ffff) | kept
}

/// DICR with the flag of channel `ch` (bit 24 + ch) set if its enable
/// (bit 16 + ch) is.
pub open spec fn flagged(dicr: u32, ch: int) -> u32 {
    if dicr & (1u32 << (16 + ch) as u32) != 0 {
        dicr | (1u32 << (24 + ch) as u32)
    } else {
        dicr
    }
}

/// DICR with its master flag (bit 31) recomputed.
pub open spec fn with_master_flag(dicr: u32) -> u32 {
    (dicr & 0x7fff_ffff) | (if irq_master(dicr) { 0x8000_0000u32 } else { 0 })
}

/// The DMA controller: seven channels, the priority/enable register DPCR and
/// the interrupt register DICR.
pub struct Dma {
    pub dpcr: u32,
    pub dicr: u32,
    pub channels: Vec<Channel>,
    pub delay_cycles: i32,
    pub pending: bool,
    pub new_irq: bool,
}

impl Dma {
    pub open spec fn wf(&self) -> bool {
        &&& self.channels@.len() == 7
        &&& forall|i: int| 0 <= i < 7 ==> (#[trigger] self.channels@[i]).wf() && self.channels@[i].n == i
    }

    /// The controller at reset: DPCR holds 0x0765_4321, every channel idle.
    pub fn new() -> (r: Dma)
        ensures
            r.wf(),
            r.dpcr == 0x0765_4321,
            r.dicr == 0,
            !r.new_irq,
            !r.pending,
    {
        let mut channels: Vec<Channel> = Vec::new();
        let mut n: u32 = 0;
        while n < 7
            invariant
                n <= 7,
                channels@.len() == n,
                forall|i: int| 0 <= i < n ==> (#[trigger] channels@[i]).wf() && channels@[i].n == i,
            decreases 7 - n,
        {
            channels.push(Channel::new(n));
            n = n + 1;
        }
        Dma { dpcr: 0x0765_4321, dicr: 0, channels, delay_cycles: 0, pending: false, new_irq: false }
    }

    /// The value a read at offset `addr` from the DMA base gives: a
    /// channel's base address, block control or channel control register
    /// (0x00..0x6f), DPCR (0x70) or DICR (0x74); 0 for reads narrower than
    /// a word.
    pub open spec fn read_value(&self, addr: u32, size: AccessSize) -> u32 {
        if size != AccessSize::Word {
            0
        } else if addr < 0x70 {
            let c = self.channels@[(addr >> 4) as int];
            let reg = addr & 0xf;
            if reg == 0 {
                c.base
            } else if reg == 4 {
                (c.block_count << 16) | c.block_size
            } else {
                c.channel_control
            }
        } else if addr == 0x70 {
            self.dpcr
        } else {
            self.dicr
        }
    }

    /// Reads a register at offset `addr` from the DMA base: a channel
    /// register (0x00..0x6f), DPCR (0x70) or DICR (0x74). Accesses narrower
    /// than a word read 0.
    pub fn read(&self, addr: u32, size: AccessSize) -> (r: u32)
        requires
            self.wf(),
            addr < 0x70 ==> (addr & 0xf == 0 || addr & 0xf == 4 || addr & 0xf == 8),
            addr < 0x78,
            addr == 0x70 || addr == 0x74 || addr < 0x70,
        ensures
            r == self.read_value(addr, size),
    {
        if size != AccessSize::Word {
            return 0;
        }
        if addr < 0x70 {
            let channel = (addr >> 4) as usize;
            proof { crate::bits::lemma_block_index(addr); }
            self.channels[channel].read(addr & 0xf, size)
        } else if addr == 0x70 {
            self.dpcr
        } else {
            self.dicr
        }
    }

    /// Writes a word to a channel register, DPCR or DICR.
    pub fn write(&mut self, addr: u32, value: u32, size: AccessSize)
        requires
            old(self).wf(),
            size == AccessSize::Word,
            addr == 0x70 || addr == 0x74 || addr < 0x70,
            addr < 0x70 ==> (addr & 0xf == 0 || addr & 0xf == 4 || addr & 0xf == 8),
            addr < 0x70 && addr & 0xf == 8 ==> control_write_valid((addr >> 4) as u32, value),
        ensures
            final(self).wf(),
            addr == 0x70 ==> final(self).dpcr == value && final(self).dicr == old(self).dicr
                && final(self).channels@ == old(self).channels@,
            addr < 0x70 ==> final(self).dpcr == old(self).dpcr && final(self).dicr == old(self).dicr
                && final(self).new_irq == old(self).new_irq,
            addr < 0x70 ==> forall|i: int| 0 <= i < 7 && i != (addr >> 4) as int
                ==> final(self).channels@[i] == old(self).channels@[i],
            addr < 0x70 ==> ({
                let o = old(self).channels@[(addr >> 4) as int];
                let c = final(self).channels@[(addr >> 4) as int];
                let reg = addr & 0xf;
                &&& reg == 0 ==> c == (Channel { base: value & 0xff_ffff, ..o })
                &&& reg == 4 ==> c == (Channel { block_size: value & 0xffff, block_count: value >> 16, ..o })
                &&& reg == 8 ==> c.channel_control == control_written(o.n, value) && c.chopping_dma_window == (
                control_written(o.n, value) >> 16) & 7 && c.chopping_cpu_window == (control_written(o.n, value)
                    >> 20) & 7 && c.n == o.n && c.link == o.link && c.base == o.base && c.block_size
                    == o.block_size && c.block_count == o.block_count
            }),
            addr == 0x74 ==> final(self).dicr == with_master_flag(dicr_written(old(self).dicr, value))
                && final(self).new_irq == (old(self).new_irq || irq_master(dicr_written(old(self).dicr, value)))
                && final(self).dpcr == old(self).dpcr && final(self).channels@ == old(self).channels@,
    {
        if addr < 0x70 {
            let channel = (addr >> 4) as usize;
            proof { crate::bits::lemma_block_index(addr); }
            let mut ch = self.channels[channel];
            ch.write(addr & 0xf, value, size);
            self.channels.set(channel, ch);
        } else if addr == 0x70 {
            self.dpcr = value;
        } else {
            self.write_dicr(value);
        }
    }

    /// Signals the end of a transfer on `channel`: its DICR flag (bit
    /// 24 + channel) is set if its enable (bit 16 + channel) is, then the
    /// master flag is recomputed.
    pub fn irq(&mut self, channel: usize)
        requires
            channel < 7,
        ensures
            final(self).dicr == with_master_flag(flagged(old(self).dicr, channel as int)),
            final(self).new_irq == (old(self).new_irq || irq_master(flagged(old(self).dicr, channel as int))),
            final(self).dpcr == old(self).dpcr,
            final(self).channels == old(self).channels,
    {
        if self.dicr & (1u32 << (16 + channel as u32)) != 0 {
            self.dicr = self.dicr | (1u32 << (24 + channel as u32));
        }
        self.update_irq_flag();
    }

    /// Recomputes the IRQ master flag (DICR bit 31); a rising flag is
    /// remembered as a new IRQ.
    pub fn update_irq_flag(&mut self)
        ensures
            final(self).dicr == (old(self).dicr & 0x7fff_ffff)
                | (if irq_master(old(self).dicr) { 0x8000_0000u32 } else { 0 }),
            final(self).new_irq == (old(self).new_irq || irq_master(old(self).dicr)),
            final(self).dpcr == old(self).dpcr,
            final(self).channels == old(self).channels,
    {
        let d = self.dicr;
        let mask = (d >> 16) & 0x7f;
        let active = (d >> 24) & 0x7f;
        let error_flag = d & 0x8000 != 0;
        let master_enable = d & 0x80_0000 != 0;

        let irq_active: u32 = if error_flag || (master_enable && (active & mask) != 0) {
            0x8000_0000
        } else {
            0
        };
        assert((active & mask) == (mask & active)) by (bit_vector);

        if !self.new_irq && irq_active != 0 {
            self.new_irq = true;
        }
        assert(d & !0x8000_0000u32 == d & 0x7fff_ffff) by (bit_vector);
        self.dicr = (d & !0x8000_0000u32) | irq_active;
    }

    /// Returns whether a new IRQ was raised since the last call, and forgets
    /// it.
    pub fn get_and_clear_new_irq(&mut self) -> (r: bool)
        ensures
            r == old(self).new_irq,
            !final(self).new_irq,
            final(self).dicr == old(self).dicr,
            final(self).dpcr == old(self).dpcr,
            final(self).channels == old(self).channels,
    {
        let new_irq = self.new_irq;
        self.new_irq = false;
        new_irq
    }

    /// The channel with the highest priority among those that are enabled in
    /// DPCR and active, if any.
    pub fn active_channel(&self) -> (r: Option<usize>)
        requires
            self.wf(),
        ensures
            r matches Some(i) ==> i < 7 && self.channels@[i as int].active_spec()
                && self.enabled_spec(self.channels@[i as int].link),
            r matches Some(i) ==> forall|j: int| 0 <= j < 7 && priority_key(self.dpcr, j)
                < priority_key(self.dpcr, i as int) ==> !(self.channels@[j].active_spec()
                && #[trigger] self.enabled_spec(self.channels@[j].link)),
            r is None ==> forall|j: int| 0 <= j < 7 ==> !(self.channels@[j].active_spec()
                && #[trigger] self.enabled_spec(self.channels@[j].link)),
    {
        let order = self.channels_by_priority();
        let mut pi: usize = 0;
        while pi < 7
            invariant
                self.wf(),
                pi <= 7,
                forall|a: int, b: int| 0 <= a < b < 7 ==> priority_key(self.dpcr, order[a] as int)
                    < priority_key(self.dpcr, order[b] as int),
                forall|a: int| 0 <= a < 7 ==> (#[trigger] order[a]) < 7,
                forall|c: int| 0 <= c < 7 ==> #[trigger] order_holds(order, c, 7),
                forall|a: int| 0 <= a < pi ==> !(self.channels@[order[a] as int].active_spec()
                    && #[trigger] self.enabled_spec(self.channels@[order[a] as int].link)),
            decreases 7 - pi,
        {
            let i = order[pi];
            let link = self.channels[i].link();
            if self.enabled(link) && self.channels[i].active() {
                proof {
                    self.lemma_order_covers(order, i as int, pi as int);
                }
                return Some(i);
            }
            pi = pi + 1;
        }
        proof {
            assert forall|j: int| 0 <= j < 7 implies !(self.channels@[j].active_spec()
                && #[trigger] self.enabled_spec(self.channels@[j].link)) by {
                assert(order_holds(order, j, 7));
                let a = choose|a: int| 0 <= a < 7 && #[trigger] order[a] == j;
                assert(order[a] == j);
            }
        }
        None
    }

    proof fn lemma_order_covers(&self, order: [usize; 7], i: int, pi: int)
        requires
            self.wf(),
            0 <= pi < 7,
            i == order[pi],
            forall|a: int, b: int| 0 <= a < b < 7 ==> priority_key(self.dpcr, order[a] as int)
                < priority_key(self.dpcr, order[b] as int),
            forall|a: int| 0 <= a < 7 ==> (#[trigger] order[a]) < 7,
            forall|c: int| 0 <= c < 7 ==> #[trigger] order_holds(order, c, 7),
            forall|a: int| 0 <= a < pi ==> !(self.channels@[order[a] as int].active_spec()
                && #[trigger] self.enabled_spec(self.channels@[order[a] as int].link)),
        ensures
            forall|j: int| 0 <= j < 7 && priority_key(self.dpcr, j) < priority_key(self.dpcr, i)
                ==> !(self.channels@[j].active_spec() && #[trigger] self.enabled_spec(self.channels@[j].link)),
    {
        assert forall|j: int| 0 <= j < 7 && priority_key(self.dpcr, j) < priority_key(self.dpcr, i)
            implies !(self.channels@[j].active_spec() && #[trigger] self.enabled_spec(self.channels@[j].link)) by {
            assert(order_holds(order, j, 7));
            let a = choose|a: int| 0 <= a < 7 && #[trigger] order[a] == j;
            if a >= pi {
                if a > pi {
                    assert(priority_key(self.dpcr, order[pi] as int) < priority_key(self.dpcr, order[a] as int));
                }
            }
        }
    }

    /// DPCR channel order: by priority score, lowest first; among equal
    /// scores, the higher channel number first.
    pub fn channels_by_priority(&self) -> (r: [usize; 7])
        ensures
            forall|a: int| 0 <= a < 7 ==> (#[trigger] r[a]) < 7,
            forall|a: int, b: int| 0 <= a < b < 7 ==> priority_key(self.dpcr, r[a] as int)
                < priority_key(self.dpcr, r[b] as int),
            forall|c: int| 0 <= c < 7 ==> #[trigger] order_holds(r, c, 7),
    {
        let dpcr = self.dpcr;
        let mut r: [usize; 7] = [0usize; 7];
        let mut len: usize = 0;
        let mut score: u32 = 0;
        while score < 8
            invariant
                score <= 8,
                len == channels_below(dpcr, score * 8),
                len <= 7,
                forall|a: int| 0 <= a < 7 ==> (#[trigger] r[a]) < 7,
                forall|a: int| 0 <= a < len ==> priority_key(dpcr, #[trigger] r[a] as int) < score * 8,
                forall|a: int, b: int| 0 <= a < b < len ==> priority_key(dpcr, r[a] as int)
                    < priority_key(dpcr, r[b] as int),
                forall|c: int| 0 <= c < 7 && priority_key(dpcr, c) < score * 8
                    ==> #[trigger] order_holds(r, c, len as int),
            decreases 8 - score,
        {
            let mut ch: usize = 7;
            while ch > 0
                invariant
                    score < 8,
                    ch <= 7,
                    len == channels_below(dpcr, score * 8 + (7 - ch)),
                    len <= 7,
                    forall|a: int| 0 <= a < 7 ==> (#[trigger] r[a]) < 7,
                    forall|a: int| 0 <= a < len ==> priority_key(dpcr, #[trigger] r[a] as int)
                        < score * 8 + (7 - ch),
                    forall|a: int, b: int| 0 <= a < b < len ==> priority_key(dpcr, r[a] as int)
                        < priority_key(dpcr, r[b] as int),
                    forall|c: int| 0 <= c < 7 && priority_key(dpcr, c) < score * 8 + (7 - ch)
                        ==> #[trigger] order_holds(r, c, len as int),
                decreases ch,
            {
                ch = ch - 1;
                let s = (dpcr >> ((ch * 4) as u32)) & 7;
                proof {
                    lemma_score_bound(dpcr, ch as int);
                    lemma_channels_below_step(dpcr, score as int, ch as int);
                }
                let ghost old_r = r;
                let ghost old_len = len;
                if s == score {
                    r[len] = ch;
                    len = len + 1;
                }
                proof {
                    assert forall|c: int| 0 <= c < 7 && priority_key(dpcr, c) < score * 8 + (7 - ch)
                        implies #[trigger] order_holds(r, c, len as int) by {
                        lemma_score_bound(dpcr, c);
                        if priority_key(dpcr, c) < score * 8 + (6 - ch) {
                            assert(order_holds(old_r, c, old_len as int));
                            let a = choose|a: int| 0 <= a < old_len && #[trigger] old_r[a] == c;
                            assert(r[a] == c);
                        } else {
                            assert(c == ch);
                            assert(r[old_len as int] == c);
                        }
                    }
                }
            }
            score = score + 1;
        }
        proof {
            lemma_channels_below_all(dpcr);
            assert forall|c: int| 0 <= c < 7 implies priority_key(dpcr, c) < 64 by {
                lemma_score_bound(dpcr, c);
            }
        }
        r
    }

    /// Whether the channel behind `link` is enabled in DPCR.
    pub fn enabled(&self, link: ChannelLink) -> (r: bool)
        ensures
            r == self.enabled_spec(link),
    {
        let bit: u32 = match link {
            ChannelLink::MdecIn => 3,
            ChannelLink::MdecOut => 7,
            ChannelLink::Gpu => 11,
            ChannelLink::Cdrom => 15,
            ChannelLink::Spu => 19,
            ChannelLink::Pio => 23,
            ChannelLink::Otc => 27,
        };
        (self.dpcr & (1u32 << bit)) != 0
    }

    pub open spec fn enabled_spec(&self, link: ChannelLink) -> bool {
        (self.dpcr & (1u32 << enable_bit(link))) != 0
    }

    /// Writes DICR: bits 23..0 are replaced (bits 14..6 always read 0), each
    /// 1 in bits 30..24 acknowledges (clears) that channel's flag, and the
    /// master flag is recomputed; a rising flag is remembered as a new IRQ.
    pub fn write_dicr(&mut self, value: u32)
        ensures
            final(self).dicr == with_master_flag(dicr_written(old(self).dicr, value)),
            final(self).new_irq == (old(self).new_irq || irq_master(dicr_written(old(self).dicr, value))),
            final(self).dpcr == old(self).dpcr,
            final(self).channels == old(self).channels,
    {
        let value = value & !0x7fc0u32;
        let rw_parts = value & 0xff_ffff;
        let acks = value & 0x7f00_0000;

        let old_dicr = self.dicr;
        let kept = (old_dicr & 0x7f00_0000) & !acks;
        let d = (old_dicr & 0x8000_0000) | rw_parts | kept;
        assert(d == ((old_dicr & !0xff_ffffu32) | rw_parts) & !0x7f00_0000u32 | kept) by (bit_vector)
            requires
                d == (old_dicr & 0x8000_0000) | rw_parts | kept,
                rw_parts == value & 0xff_ffff,
                kept == (old_dicr & 0x7f00_0000) & !acks;
        self.dicr = d;
        self.update_irq_flag();
    }
}

impl Channel {
    pub open spec fn active_spec(&self) -> bool {
        if self.sync_mode == SyncMode::Immediate {
            self.busy == Busy::Busy && self.trigger == Trigger::Start
        } else {
            self.busy == Busy::Busy
        }
    }
}

proof fn lemma_score_bound(dpcr: u32, ch: int)
    requires
        0 <= ch < 7,
    ensures
        0 <= priority_score(dpcr, ch) < 8,
{
    let s = (ch * 4) as u32;
    crate::bits::lemma_field_le(dpcr, s, 7);
}

/// Going from key `score*8 + (6-ch)` to the next key adds channel `ch` to
/// the count exactly when its score is `score`.
proof fn lemma_channels_below_step(dpcr: u32, score: int, ch: int)
    requires
        0 <= score < 8,
        0 <= ch < 7,
    ensures
        channels_below(dpcr, score * 8 + (7 - ch)) == channels_below(dpcr, score * 8 + (6 - ch))
            + (if priority_score(dpcr, ch) == score { 1int } else { 0 }),
{
    assert forall|c: int| 0 <= c < 7 implies 0 <= #[trigger] priority_score(dpcr, c) < 8 by {
        lemma_score_bound(dpcr, c);
    }
    assert(0 <= priority_score(dpcr, 0) < 8);
    assert(0 <= priority_score(dpcr, 1) < 8);
    assert(0 <= priority_score(dpcr, 2) < 8);
    assert(0 <= priority_score(dpcr, 3) < 8);
    assert(0 <= priority_score(dpcr, 4) < 8);
    assert(0 <= priority_score(dpcr, 5) < 8);
    assert(0 <= priority_score(dpcr, 6) < 8);
}

proof fn lemma_channels_below_all(dpcr: u32)
    ensures
        channels_below(dpcr, 64) == 7,
{
    lemma_score_bound(dpcr, 0);
    lemma_score_bound(dpcr, 1);
    lemma_score_bound(dpcr, 2);
    lemma_score_bound(dpcr, 3);
    lemma_score_bound(dpcr, 4);
    lemma_score_bound(dpcr, 5);
    lemma_score_bound(dpcr, 6);
}

} // verus!

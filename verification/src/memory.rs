use vstd::prelude::*;

verus! {

/// The possible access sizes for memory operations.
#[derive(Clone, Copy, Debug, PartialEq, Eq, Structural)]
pub enum AccessSize {
    Byte,
    HalfWord,
    Word,
}

/// The number of bytes an access of the given size touches.
pub open spec fn size_bytes(size: AccessSize) -> int {
    match size {
        AccessSize::Byte => 1,
        AccessSize::HalfWord => 2,
        AccessSize::Word => 4,
    }
}

/// Whether `address` is a multiple of the access size.
pub open spec fn is_aligned(address: u32, size: AccessSize) -> bool {
    match size {
        AccessSize::Byte => true,
        AccessSize::HalfWord => address % 2 == 0,
        AccessSize::Word => address % 4 == 0,
    }
}

/// The little-endian value of the `size` bytes of `bytes` at `offset`.
pub open spec fn read_le(bytes: Seq<u8>, offset: int, size: AccessSize) -> u32 {
    match size {
        AccessSize::Byte => bytes[offset] as u32,
        AccessSize::HalfWord => (bytes[offset] as u32) | ((bytes[offset + 1] as u32) << 8),
        AccessSize::Word => (bytes[offset] as u32) | ((bytes[offset + 1] as u32) << 8)
            | ((bytes[offset + 2] as u32) << 16) | ((bytes[offset + 3] as u32) << 24),
    }
}

/// `bytes` after storing the low `size` bytes of `value` at `offset`,
/// little-endian.
pub open spec fn write_le(bytes: Seq<u8>, offset: int, value: u32, size: AccessSize) -> Seq<u8> {
    match size {
        AccessSize::Byte => bytes.update(offset, value as u8),
        AccessSize::HalfWord => bytes.update(offset, value as u8).update(offset + 1, (value >> 8) as u8),
        AccessSize::Word => bytes.update(offset, value as u8).update(offset + 1, (value >> 8) as u8)
            .update(offset + 2, (value >> 16) as u8).update(offset + 3, (value >> 24) as u8),
    }
}

/// The low `size` bytes of `value`.
pub open spec fn truncate_to(value: u32, size: AccessSize) -> u32 {
    match size {
        AccessSize::Byte => value & 0xff,
        AccessSize::HalfWord => value & 0xffff,
        AccessSize::Word => value,
    }
}

impl AccessSize {
    /// The access size of `size` bytes; 1, 2 and 4 are the only sizes there
    /// are.
    pub fn from_bytes(size: usize) -> (r: Result<AccessSize, &'static str>)
        ensures
            r matches Ok(s) ==> size_bytes(s) == size,
            r is Err <==> !(size == 1 || size == 2 || size == 4),
    {
        match size {
            1 => Ok(AccessSize::Byte),
            2 => Ok(AccessSize::HalfWord),
            4 => Ok(AccessSize::Word),
            _ => Err("Invalid access size"),
        }
    }

    /// The number of bytes an access of this size touches.
    pub fn bytes(self) -> (r: u32)
        ensures
            r == size_bytes(self),
    {
        match self {
            AccessSize::Byte => 1,
            AccessSize::HalfWord => 2,
            AccessSize::Word => 4,
        }
    }
}

/// Reads `size` bytes of `data` at `offset`, little-endian.
pub fn load_le(data: &Vec<u8>, offset: usize, size: AccessSize) -> (r: u32)
    requires
        offset + size_bytes(size) <= data.len(),
    ensures
        r == read_le(data@, offset as int, size),
{
    match size {
        AccessSize::Byte => data[offset] as u32,
        AccessSize::HalfWord => (data[offset] as u32) | ((data[offset + 1] as u32) << 8),
        AccessSize::Word => (data[offset] as u32) | ((data[offset + 1] as u32) << 8)
            | ((data[offset + 2] as u32) << 16) | ((data[offset + 3] as u32) << 24),
    }
}

/// Stores the low `size` bytes of `value` in `data` at `offset`,
/// little-endian.
pub fn store_le(data: &mut Vec<u8>, offset: usize, value: u32, size: AccessSize)
    requires
        offset + size_bytes(size) <= old(data).len(),
    ensures
        final(data)@ == write_le(old(data)@, offset as int, value, size),
{
    match size {
        AccessSize::Byte => {
            data[offset] = value as u8;
        },
        AccessSize::HalfWord => {
            data[offset] = value as u8;
            data[offset + 1] = (value >> 8) as u8;
        },
        AccessSize::Word => {
            data[offset] = value as u8;
            data[offset + 1] = (value >> 8) as u8;
            data[offset + 2] = (value >> 16) as u8;
            data[offset + 3] = (value >> 24) as u8;
        },
    }
}

/// A read of what a write stored, at the same offset and size, gives back
/// the written value truncated to that size.
pub proof fn lemma_read_of_write(bytes: Seq<u8>, offset: int, value: u32, size: AccessSize)
    requires
        0 <= offset,
        offset + size_bytes(size) <= bytes.len(),
    ensures
        read_le(write_le(bytes, offset, value, size), offset, size) == truncate_to(value, size),
{
    let w = write_le(bytes, offset, value, size);
    match size {
        AccessSize::Byte => {
            assert(w[offset] == value as u8);
            assert((value as u8) as u32 == value & 0xff) by (bit_vector);
        },
        AccessSize::HalfWord => {
            assert(w[offset] == value as u8);
            assert(w[offset + 1] == (value >> 8) as u8);
            assert(((value as u8) as u32) | ((((value >> 8) as u8) as u32) << 8) == value & 0xffff)
                by (bit_vector);
        },
        AccessSize::Word => {
            assert(w[offset] == value as u8);
            assert(w[offset + 1] == (value >> 8) as u8);
            assert(w[offset + 2] == (value >> 16) as u8);
            assert(w[offset + 3] == (value >> 24) as u8);
            assert(((value as u8) as u32) | ((((value >> 8) as u8) as u32) << 8)
                | ((((value >> 16) as u8) as u32) << 16) | ((((value >> 24) as u8) as u32) << 24)
                == value) by (bit_vector);
        },
    }
}

/// A write leaves every byte outside the written range unchanged.
pub proof fn lemma_write_frame(bytes: Seq<u8>, offset: int, value: u32, size: AccessSize, i: int)
    requires
        0 <= offset,
        offset + size_bytes(size) <= bytes.len(),
        0 <= i < bytes.len(),
        !(offset <= i < offset + size_bytes(size)),
    ensures
        write_le(bytes, offset, value, size)[i] == bytes[i],
        write_le(bytes, offset, value, size).len() == bytes.len(),
{
}

pub const RAM_SIZE: usize = 2 * 1024 * 1024;
pub const RAM_BASE: u32 = 0x0000_0000;
pub const RAM_END: u32 = 0x001f_ffff;

/// The main RAM: 2MB of little-endian memory.
pub struct Ram {
    data: Vec<u8>,
}

impl Ram {
    /// The bytes of the RAM.
    pub closed spec fn bytes(&self) -> Seq<u8> {
        self.data@
    }

    pub open spec fn wf(&self) -> bool {
        self.bytes().len() == RAM_SIZE
    }

    /// A zero-filled RAM.
    pub fn new() -> (r: Self)
        ensures
            r.wf(),
            forall|i: int| 0 <= i < RAM_SIZE ==> r.bytes()[i] == 0,
    {
        Ram { data: vec![0u8; RAM_SIZE] }
    }

    /// Reads `size` bytes at `address`, little-endian.
    pub fn read(&self, address: u32, size: AccessSize) -> (r: u32)
        requires
            self.wf(),
            address + size_bytes(size) <= RAM_SIZE,
        ensures
            r == read_le(self.bytes(), address as int, size),
    {
        load_le(&self.data, address as usize, size)
    }

    /// Writes the low `size` bytes of `value` at `address`, little-endian.
    pub fn write(&mut self, address: u32, value: u32, size: AccessSize)
        requires
            old(self).wf(),
            address + size_bytes(size) <= RAM_SIZE,
        ensures
            final(self).wf(),
            final(self).bytes() == write_le(old(self).bytes(), address as int, value, size),
    {
        store_le(&mut self.data, address as usize, value, size);
    }
}

pub const SCRATCHPAD_SIZE: usize = 1024;
pub const SCRATCHPAD_BASE: u32 = 0x1f80_0000;
pub const SCRATCHPAD_END: u32 = 0x1f80_03ff;

/// The 1KB scratchpad: fast RAM mapped at 0x1f80_0000.
pub struct Scratchpad {
    data: Vec<u8>,
}

impl Scratchpad {
    /// The bytes of the scratchpad.
    pub closed spec fn bytes(&self) -> Seq<u8> {
        self.data@
    }

    pub open spec fn wf(&self) -> bool {
        self.bytes().len() == SCRATCHPAD_SIZE
    }

    /// A zero-filled scratchpad.
    pub fn new() -> (r: Self)
        ensures
            r.wf(),
            forall|i: int| 0 <= i < SCRATCHPAD_SIZE ==> r.bytes()[i] == 0,
    {
        Scratchpad { data: vec![0u8; SCRATCHPAD_SIZE] }
    }

    /// Reads `size` bytes at the bus address `address`, little-endian.
    pub fn read(&self, address: u32, size: AccessSize) -> (r: u32)
        requires
            self.wf(),
            SCRATCHPAD_BASE <= address,
            address - SCRATCHPAD_BASE + size_bytes(size) <= SCRATCHPAD_SIZE,
        ensures
            r == read_le(self.bytes(), address - SCRATCHPAD_BASE, size),
    {
        load_le(&self.data, (address - SCRATCHPAD_BASE) as usize, size)
    }

    /// Writes the low `size` bytes of `value` at the bus address `address`.
    pub fn write(&mut self, address: u32, value: u32, size: AccessSize)
        requires
            old(self).wf(),
            SCRATCHPAD_BASE <= address,
            address - SCRATCHPAD_BASE + size_bytes(size) <= SCRATCHPAD_SIZE,
        ensures
            final(self).wf(),
            final(self).bytes() == write_le(old(self).bytes(), address - SCRATCHPAD_BASE, value, size),
    {
        store_le(&mut self.data, (address - SCRATCHPAD_BASE) as usize, value, size);
    }
}

pub const ROM_BASE: u32 = 0x1fc0_0000;
pub const ROM_SIZE: usize = 512 * 1024;
pub const ROM_END: u32 = 0x1fc7_ffff;

/// The PlayStation BIOS ROM.
#[derive(Debug)]
pub struct Rom {
    data: Vec<u8>,
}

impl Rom {
    /// The bytes of the ROM.
    pub closed spec fn bytes(&self) -> Seq<u8> {
        self.data@
    }

    pub open spec fn wf(&self) -> bool {
        self.bytes().len() == ROM_SIZE
    }

    /// A zero-filled ROM.
    pub fn new() -> (r: Self)
        ensures
            r.wf(),
            forall|i: int| 0 <= i < ROM_SIZE ==> r.bytes()[i] == 0,
    {
        Rom { data: vec![0u8; ROM_SIZE] }
    }

    /// Replaces the ROM's contents with `data`, which must be exactly the
    /// size of the ROM.
    pub fn load(&mut self, data: Vec<u8>)
        requires
            data.len() == ROM_SIZE,
        ensures
            final(self).wf(),
            final(self).bytes() == data@,
    {
        self.data = data;
    }

    /// Reads 1, 2 or 4 bytes from the ROM at the bus address `address`.
    pub fn read(&self, address: u32, size: AccessSize) -> (r: u32)
        requires
            self.wf(),
            ROM_BASE <= address,
            address - ROM_BASE + size_bytes(size) <= ROM_SIZE,
        ensures
            r == read_le(self.bytes(), address - ROM_BASE, size),
    {
        let offset = address - ROM_BASE;
        match size {
            AccessSize::Byte => self.read8(offset) as u32,
            AccessSize::HalfWord => self.read16(offset) as u32,
            AccessSize::Word => self.read32(offset),
        }
    }

    /// Writes to the ROM are ignored: it is read-only.
    pub fn write(&mut self, address: u32, value: u32, size: AccessSize)
        ensures
            final(self).bytes() == old(self).bytes(),
    {
    }

    fn read8(&self, offset: u32) -> (r: u8)
        requires
            self.wf(),
            offset < self.bytes().len(),
        ensures
            r == self.bytes()[offset as int],
    {
        self.data[offset as usize]
    }

    fn read16(&self, offset: u32) -> (r: u16)
        requires
            self.wf(),
            offset + 1 < self.bytes().len(),
        ensures
            r as u32 == read_le(self.bytes(), offset as int, AccessSize::HalfWord),
    {
        let b0 = self.data[offset as usize];
        let b1 = self.data[offset as usize + 1];
        let r = (b0 as u16) | ((b1 as u16) << 8);
        assert(r as u32 == (b0 as u32) | ((b1 as u32) << 8)) by (bit_vector)
            requires r == (b0 as u16) | ((b1 as u16) << 8);
        r
    }

    fn read32(&self, offset: u32) -> (r: u32)
        requires
            self.wf(),
            offset + 3 < self.bytes().len(),
        ensures
            r == read_le(self.bytes(), offset as int, AccessSize::Word),
    {
        load_le(&self.data, offset as usize, AccessSize::Word)
    }
}

} // verus!

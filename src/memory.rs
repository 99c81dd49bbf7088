use vstd::prelude::*;

verus! {

/// Size of the fixed header at the start of every image.
pub const HEADER_SIZE: usize = 36;

/// Byte offset of the checksum word inside the header.
pub const CHECKSUM_POS: u32 = 32;

/// Big-endian value of the two bytes at `a`.
pub open spec fn be16(s: Seq<u8>, a: int) -> int {
    s[a] * 0x100 + s[a + 1]
}

/// Big-endian value of the four bytes at `a`.
pub open spec fn be32(s: Seq<u8>, a: int) -> int {
    s[a] * 0x1000000 + s[a + 1] * 0x10000 + s[a + 2] * 0x100 + s[a + 3]
}

/// The big-endian bytes of a 16-bit value.
pub open spec fn bytes16(v: int) -> Seq<u8> {
    seq![(v / 0x100 % 0x100) as u8, (v % 0x100) as u8]
}

/// The big-endian bytes of a 32-bit value.
pub open spec fn bytes32(v: int) -> Seq<u8> {
    seq![
        (v / 0x1000000 % 0x100) as u8,
        (v / 0x10000 % 0x100) as u8,
        (v / 0x100 % 0x100) as u8,
        (v % 0x100) as u8,
    ]
}

/// `s` with the bytes `b` written at `a`.
pub open spec fn put(s: Seq<u8>, a: int, b: Seq<u8>) -> Seq<u8> {
    Seq::new(s.len(), |i: int| if a <= i < a + b.len() { b[i - a] } else { s[i] })
}

/// The image starts with the ASCII magic `Glul`.
pub open spec fn has_magic(s: Seq<u8>) -> bool {
    s.len() >= 4 && s[0] == 0x47u8 && s[1] == 0x6cu8 && s[2] == 0x75u8 && s[3] == 0x6cu8
}

pub open spec fn ram_start_of(s: Seq<u8>) -> int {
    be32(s, 8)
}

pub open spec fn ext_start_of(s: Seq<u8>) -> int {
    be32(s, 12)
}

pub open spec fn end_mem_of(s: Seq<u8>) -> int {
    be32(s, 16)
}

/// Why the header's region boundaries do not fit, if they do not: they must
/// be ordered, and the image must cover its ROM and initial RAM.
pub open spec fn layout_reason(s: Seq<u8>) -> Option<LayoutReason> {
    if ram_start_of(s) > ext_start_of(s) {
        Some(LayoutReason::RamAfterExt)
    } else if ext_start_of(s) > end_mem_of(s) {
        Some(LayoutReason::ExtAfterEnd)
    } else if ext_start_of(s) > s.len() {
        Some(LayoutReason::ImageTooShort)
    } else {
        None
    }
}

/// `ram_start (+) offset`, wrapping at 2^32.
pub open spec fn wrap_add(a: u32, b: u32) -> u32 {
    ((a as int + b as int) % 0x1_0000_0000) as u32
}

/// A read of `width` bytes at `addr` lies inside `s`.
pub open spec fn in_range(s: Seq<u8>, addr: u32, width: int) -> bool {
    addr as int + width <= s.len()
}

#[derive(Debug, Clone, Copy, PartialEq, Eq, Structural)]
pub struct Version {
    pub major: u16,
    pub minor: u8,
    pub patch: u8,
}

#[derive(Debug, Clone, Copy, PartialEq, Eq, Structural)]
pub struct Header {
    pub version: Version,
    pub ram_start: u32,
    pub ext_start: u32,
    pub end_mem: u32,
    pub stack_size: u32,
    pub start_func: u32,
    pub decoding_tree: u32,
    pub checksum: u32,
}

/// Why an image's layout is refused.
#[derive(Debug, Clone, Copy, PartialEq, Eq, Structural)]
pub enum LayoutReason {
    /// `ram_start` lies past `ext_start`.
    RamAfterExt,
    /// `ext_start` lies past `end_mem`.
    ExtAfterEnd,
    /// The image ends before `ext_start`.
    ImageTooShort,
    /// The image is not made of whole 32-bit words.
    PartialWord,
}

#[derive(Debug, Clone, Copy, PartialEq, Eq, Structural)]
pub enum MemoryError {
    NotEnoughData(usize),
    BadMagic,
    InconsistentLayout(LayoutReason),
    /// The checksum in the header, and the one computed from the image.
    BadChecksum(u32, u32),
    AddressOutOfRange(u32, u32),
    WriteToROM(u32),
}

/// The header that the bytes `s` hold.
pub open spec fn header_of(s: Seq<u8>) -> Header {
    Header {
        version: Version {
            major: be16(s, 4) as u16,
            minor: s[6],
            patch: s[7],
        },
        ram_start: be32(s, 8) as u32,
        ext_start: be32(s, 12) as u32,
        end_mem: be32(s, 16) as u32,
        stack_size: be32(s, 20) as u32,
        start_func: be32(s, 24) as u32,
        decoding_tree: be32(s, 28) as u32,
        checksum: be32(s, 32) as u32,
    }
}

/// What `Memory::new` gives for the bytes `s`.
pub open spec fn new_error(s: Seq<u8>) -> Option<MemoryError> {
    if s.len() < 36 {
        Some(MemoryError::NotEnoughData(s.len() as usize))
    } else if !has_magic(s) {
        Some(MemoryError::BadMagic)
    } else if let Some(reason) = layout_reason(s) {
        Some(MemoryError::InconsistentLayout(reason))
    } else {
        None
    }
}

/// The flat memory of a machine: the image, zero-padded up to `end_mem`.
pub struct Memory {
    raw: Vec<u8>,
    start_ram_address: u32,
    ext_start: u32,
}

fn read_u16_at(s: &Vec<u8>, a: usize) -> (r: u16)
    requires
        a + 2 <= s@.len() <= u32::MAX,
    ensures
        r as int == be16(s@, a as int),
{
    (s[a] as u16) * 0x100 + (s[a + 1] as u16)
}

fn read_u32_at(s: &Vec<u8>, a: usize) -> (r: u32)
    requires
        a + 4 <= s@.len() <= u32::MAX,
    ensures
        r as int == be32(s@, a as int),
{
    (s[a] as u32) * 0x1000000 + (s[a + 1] as u32) * 0x10000 + (s[a + 2] as u32) * 0x100 + (
    s[a + 3] as u32)
}

/// Header fields read from the first 36 bytes of `s`.
pub fn parse_header(s: &Vec<u8>) -> (h: Header)
    requires
        36 <= s@.len() <= u32::MAX,
    ensures
        h == header_of(s@),
{
    Header {
        version: Version { major: read_u16_at(s, 4), minor: s[6], patch: s[7] },
        ram_start: read_u32_at(s, 8),
        ext_start: read_u32_at(s, 12),
        end_mem: read_u32_at(s, 16),
        stack_size: read_u32_at(s, 20),
        start_func: read_u32_at(s, 24),
        decoding_tree: read_u32_at(s, 28),
        checksum: read_u32_at(s, 32),
    }
}

/// Whether the bytes `s` start with the magic `Glul`.
pub fn check_magic(s: &Vec<u8>) -> (r: bool)
    requires
        s@.len() >= 4,
    ensures
        r == has_magic(s@),
{
    s[0] == 0x47u8 && s[1] == 0x6cu8 && s[2] == 0x75u8 && s[3] == 0x6cu8
}

/// Why the header of `s` describes a layout that `s` cannot hold, if it does.
pub fn check_layout(s: &Vec<u8>) -> (r: Option<LayoutReason>)
    requires
        36 <= s@.len() <= u32::MAX,
    ensures
        r == layout_reason(s@),
{
    let h = parse_header(s);
    if h.ram_start > h.ext_start {
        Some(LayoutReason::RamAfterExt)
    } else if h.ext_start > h.end_mem {
        Some(LayoutReason::ExtAfterEnd)
    } else if h.ext_start as usize > s.len() {
        Some(LayoutReason::ImageTooShort)
    } else {
        None
    }
}

/// The error, if any, that the size, magic or layout of the image `s` gives.
pub fn image_error(s: &Vec<u8>) -> (r: Option<MemoryError>)
    requires
        s@.len() <= u32::MAX,
    ensures
        r == new_error(s@),
{
    if s.len() < HEADER_SIZE {
        Some(MemoryError::NotEnoughData(s.len()))
    } else if !check_magic(s) {
        Some(MemoryError::BadMagic)
    } else if let Some(reason) = check_layout(s) {
        Some(MemoryError::InconsistentLayout(reason))
    } else {
        None
    }
}

impl Memory {
    /// The bytes of the memory.
    pub closed spec fn bytes(&self) -> Seq<u8> {
        self.raw@
    }

    /// The address at which RAM starts, recorded at load.
    pub closed spec fn ram_base(&self) -> u32 {
        self.start_ram_address
    }

    /// The address at which extended RAM starts, recorded at load.
    pub closed spec fn ext_base(&self) -> u32 {
        self.ext_start
    }

    /// The memory holds at least a header and is addressable by 32 bits.
    pub open spec fn wf(&self) -> bool {
        36 <= self.bytes().len() <= u32::MAX
    }

    /// Builds the memory of an image: checks its size, magic and layout, and
    /// pads it with zeros up to `end_mem`.
    pub fn new(raw: Vec<u8>) -> (r: Result<Memory, MemoryError>)
        requires
            raw@.len() <= u32::MAX,
        ensures
            match r {
                Ok(m) => {
                    &&& new_error(raw@) is None
                    &&& m.wf()
                    &&& m.ram_base() as int == ram_start_of(raw@)
                    &&& m.ext_base() as int == ext_start_of(raw@)
                    &&& m.bytes().len() == if end_mem_of(raw@) > raw@.len() {
                        end_mem_of(raw@)
                    } else {
                        raw@.len() as int
                    }
                    &&& m.bytes().subrange(0, raw@.len() as int) == raw@
                    &&& forall|i: int|
                        raw@.len() <= i < m.bytes().len() ==> m.bytes()[i] == 0u8
                },
                Err(e) => new_error(raw@) == Some(e),
            },
    {
        if let Some(e) = image_error(&raw) {
            return Err(e);
        }
        let header = parse_header(&raw);
        let ghost orig = raw@;
        let mut raw = raw;
        let end = header.end_mem as usize;
        while raw.len() < end
            invariant
                orig.len() <= raw@.len(),
                raw@.len() <= end || raw@.len() == orig.len(),
                end <= u32::MAX,
                raw@.subrange(0, orig.len() as int) == orig,
                forall|i: int| orig.len() <= i < raw@.len() ==> raw@[i] == 0u8,
            decreases end - raw@.len(),
        {
            raw.push(0u8);
        }
        Ok(Memory { raw, start_ram_address: header.ram_start, ext_start: header.ext_start })
    }

    /// Size of the memory in bytes.
    pub fn len(&self) -> (r: u32)
        requires
            self.wf(),
        ensures
            r as int == self.bytes().len(),
    {
        self.raw.len() as u32
    }

    /// The header, parsed from the first 36 bytes.
    pub fn get_header(&self) -> (h: Header)
        requires
            self.wf(),
        ensures
            h == header_of(self.bytes()),
    {
        parse_header(&self.raw)
    }

    /// `ram_start (+) value`, wrapping on overflow.
    pub fn add_ram_offset(&self, value: u32) -> (r: u32)
        ensures
            r == wrap_add(self.ram_base(), value),
    {
        self.start_ram_address.wrapping_add(value)
    }

    // Getters
    pub fn get_u8(&self, pos: u32) -> (r: Result<u8, MemoryError>)
        requires
            self.wf(),
        ensures
            match r {
                Ok(v) => in_range(self.bytes(), pos, 1) && v == self.bytes()[pos as int],
                Err(e) => !in_range(self.bytes(), pos, 1) && e == MemoryError::AddressOutOfRange(
                    pos,
                    1,
                ),
            },
    {
        if pos as usize >= self.raw.len() {
            return Err(MemoryError::AddressOutOfRange(pos, 1));
        }
        Ok(self.raw[pos as usize])
    }

    pub fn get_u16(&self, pos: u32) -> (r: Result<u16, MemoryError>)
        requires
            self.wf(),
        ensures
            match r {
                Ok(v) => in_range(self.bytes(), pos, 2) && v as int == be16(
                    self.bytes(),
                    pos as int,
                ),
                Err(e) => !in_range(self.bytes(), pos, 2) && e == MemoryError::AddressOutOfRange(
                    pos,
                    2,
                ),
            },
    {
        if self.raw.len() < 2 || pos as usize > self.raw.len() - 2 {
            return Err(MemoryError::AddressOutOfRange(pos, 2));
        }
        Ok(read_u16_at(&self.raw, pos as usize))
    }

    pub fn get_u32(&self, pos: u32) -> (r: Result<u32, MemoryError>)
        requires
            self.wf(),
        ensures
            match r {
                Ok(v) => in_range(self.bytes(), pos, 4) && v as int == be32(
                    self.bytes(),
                    pos as int,
                ),
                Err(e) => !in_range(self.bytes(), pos, 4) && e == MemoryError::AddressOutOfRange(
                    pos,
                    4,
                ),
            },
    {
        if pos as usize > self.raw.len() - 4 {
            return Err(MemoryError::AddressOutOfRange(pos, 4));
        }
        Ok(read_u32_at(&self.raw, pos as usize))
    }

    pub fn get_ram_u8(&self, pos: u32) -> (r: Result<u8, MemoryError>)
        requires
            self.wf(),
        ensures
            r == self.spec_get_u8(wrap_add(self.ram_base(), pos)),
    {
        self.get_u8(self.add_ram_offset(pos))
    }

    pub fn get_ram_u16(&self, pos: u32) -> (r: Result<u16, MemoryError>)
        requires
            self.wf(),
        ensures
            r == self.spec_get_u16(wrap_add(self.ram_base(), pos)),
    {
        self.get_u16(self.add_ram_offset(pos))
    }

    pub fn get_ram_u32(&self, pos: u32) -> (r: Result<u32, MemoryError>)
        requires
            self.wf(),
        ensures
            r == self.spec_get_u32(wrap_add(self.ram_base(), pos)),
    {
        self.get_u32(self.add_ram_offset(pos))
    }

    /// What `get_u8(a)` returns.
    pub open spec fn spec_get_u8(&self, a: u32) -> Result<u8, MemoryError> {
        if in_range(self.bytes(), a, 1) {
            Ok(self.bytes()[a as int])
        } else {
            Err(MemoryError::AddressOutOfRange(a, 1))
        }
    }

    /// What `get_u16(a)` returns.
    pub open spec fn spec_get_u16(&self, a: u32) -> Result<u16, MemoryError> {
        if in_range(self.bytes(), a, 2) {
            Ok(be16(self.bytes(), a as int) as u16)
        } else {
            Err(MemoryError::AddressOutOfRange(a, 2))
        }
    }

    /// What `get_u32(a)` returns.
    pub open spec fn spec_get_u32(&self, a: u32) -> Result<u32, MemoryError> {
        if in_range(self.bytes(), a, 4) {
            Ok(be32(self.bytes(), a as int) as u32)
        } else {
            Err(MemoryError::AddressOutOfRange(a, 4))
        }
    }

    /// The error, if any, of a write of `width` bytes at `a`: ROM, below
    /// `ram_start`, cannot be written.
    pub open spec fn write_error(&self, a: u32, width: int) -> Option<MemoryError> {
        if !in_range(self.bytes(), a, width) {
            Some(MemoryError::AddressOutOfRange(a, width as u32))
        } else if a < self.ram_base() {
            Some(MemoryError::WriteToROM(a))
        } else {
            None
        }
    }

    /// A write of the bytes `b` at `a`: the memory after it, and the result.
    pub open spec fn write_post(
        &self,
        post: &Memory,
        a: u32,
        b: Seq<u8>,
        r: Result<(), MemoryError>,
    ) -> bool {
        &&& post.ram_base() == self.ram_base()
        &&& post.ext_base() == self.ext_base()
        &&& match self.write_error(a, b.len() as int) {
            Some(e) => r == Err::<(), MemoryError>(e) && post.bytes() == self.bytes(),
            None => r is Ok && post.bytes() == put(self.bytes(), a as int, b),
        }
    }

    // Setters
    pub fn set_u8(&mut self, pos: u32, value: u8) -> (r: Result<(), MemoryError>)
        requires
            old(self).wf(),
        ensures
            final(self).wf(),
            old(self).write_post(final(self), pos, seq![value], r),
    {
        if pos as usize >= self.raw.len() {
            return Err(MemoryError::AddressOutOfRange(pos, 1));
        }
        if pos < self.start_ram_address {
            return Err(MemoryError::WriteToROM(pos));
        }
        self.raw.set(pos as usize, value);
        assert(self.raw@ =~= put(old(self).raw@, pos as int, seq![value]));
        Ok(())
    }

    pub fn set_u16(&mut self, pos: u32, value: u16) -> (r: Result<(), MemoryError>)
        requires
            old(self).wf(),
        ensures
            final(self).wf(),
            old(self).write_post(final(self), pos, bytes16(value as int), r),
    {
        if pos as usize > self.raw.len() - 2 {
            return Err(MemoryError::AddressOutOfRange(pos, 2));
        }
        if pos < self.start_ram_address {
            return Err(MemoryError::WriteToROM(pos));
        }
        let p = pos as usize;
        self.raw.set(p, (value / 0x100) as u8);
        self.raw.set(p + 1, (value % 0x100) as u8);
        assert(self.raw@ =~= put(old(self).raw@, pos as int, bytes16(value as int)));
        Ok(())
    }

    pub fn set_u32(&mut self, pos: u32, value: u32) -> (r: Result<(), MemoryError>)
        requires
            old(self).wf(),
        ensures
            final(self).wf(),
            old(self).write_post(final(self), pos, bytes32(value as int), r),
    {
        if pos as usize > self.raw.len() - 4 {
            return Err(MemoryError::AddressOutOfRange(pos, 4));
        }
        if pos < self.start_ram_address {
            return Err(MemoryError::WriteToROM(pos));
        }
        let p = pos as usize;
        self.raw.set(p, (value / 0x1000000) as u8);
        self.raw.set(p + 1, (value / 0x10000 % 0x100) as u8);
        self.raw.set(p + 2, (value / 0x100 % 0x100) as u8);
        self.raw.set(p + 3, (value % 0x100) as u8);
        assert(self.raw@ =~= put(old(self).raw@, pos as int, bytes32(value as int)));
        Ok(())
    }

    /// Writes the low byte of `value` at `ram_start (+) pos`.
    pub fn set_ram_u8(&mut self, pos: u32, value: u32) -> (r: Result<(), MemoryError>)
        requires
            old(self).wf(),
        ensures
            final(self).wf(),
            old(self).write_post(
                final(self),
                wrap_add(old(self).ram_base(), pos),
                seq![(value % 0x100) as u8],
                r,
            ),
    {
        let a = self.add_ram_offset(pos);
        self.set_u8(a, (value % 0x100) as u8)
    }

    /// Writes the low 16 bits of `value` at `ram_start (+) pos`.
    pub fn set_ram_u16(&mut self, pos: u32, value: u32) -> (r: Result<(), MemoryError>)
        requires
            old(self).wf(),
        ensures
            final(self).wf(),
            old(self).write_post(
                final(self),
                wrap_add(old(self).ram_base(), pos),
                bytes16((value % 0x10000) as int),
                r,
            ),
    {
        let a = self.add_ram_offset(pos);
        self.set_u16(a, (value % 0x10000) as u16)
    }

    /// Writes `value` at `ram_start (+) pos`.
    pub fn set_ram_u32(&mut self, pos: u32, value: u32) -> (r: Result<(), MemoryError>)
        requires
            old(self).wf(),
        ensures
            final(self).wf(),
            old(self).write_post(final(self), wrap_add(old(self).ram_base(), pos), bytes32(
                value as int,
            ), r),
    {
        let a = self.add_ram_offset(pos);
        self.set_u32(a, value)
    }

    /// Sets the size of memory to `new_end`: growth fills with zeros, and
    /// memory never shrinks below the start of extended RAM nor the header.
    pub fn resize(&mut self, new_end: u32) -> (r: Result<(), MemoryError>)
        requires
            old(self).wf(),
        ensures
            final(self).wf(),
            final(self).ram_base() == old(self).ram_base(),
            final(self).ext_base() == old(self).ext_base(),
            new_end < old(self).ext_base() ==> r == Err::<(), MemoryError>(
                MemoryError::InconsistentLayout(LayoutReason::ExtAfterEnd),
            ) && final(self).bytes() == old(self).bytes(),
            old(self).ext_base() <= new_end < 36 ==> r == Err::<(), MemoryError>(
                MemoryError::NotEnoughData(new_end as usize),
            ) && final(self).bytes() == old(self).bytes(),
            new_end >= old(self).ext_base() && new_end >= 36 ==> r is Ok
                && final(self).bytes().len() == new_end
                && (forall|i: int|
                0 <= i < new_end && i < old(self).bytes().len() ==> final(self).bytes()[i]
                    == old(self).bytes()[i])
                && (forall|i: int|
                old(self).bytes().len() <= i < new_end ==> final(self).bytes()[i] == 0u8),
    {
        if new_end < self.ext_start {
            return Err(MemoryError::InconsistentLayout(LayoutReason::ExtAfterEnd));
        }
        if new_end < 36 {
            return Err(MemoryError::NotEnoughData(new_end as usize));
        }
        let end = new_end as usize;
        let ghost before = self.raw@;
        if self.raw.len() > end {
            self.raw.truncate(end);
        }
        while self.raw.len() < end
            invariant
                end == new_end,
                self.raw@.len() <= end,
                self.raw@.len() >= before.len() || self.raw@.len() == end,
                self.start_ram_address == old(self).start_ram_address,
                self.ext_start == old(self).ext_start,
                forall|i: int|
                    0 <= i < self.raw@.len() && i < before.len() ==> self.raw@[i] == before[i],
                forall|i: int| before.len() <= i < self.raw@.len() ==> self.raw@[i] == 0u8,
            decreases end - self.raw@.len(),
        {
            self.raw.push(0u8);
        }
        Ok(())
    }
}

} // verus!

//! The memory bus: 1 MiB of physical address space together with a parallel
//! access mask that marks read-only (ROM) bytes and records a per-byte cycle
//! cost, plus an ordered list of range descriptors for the images stamped in.

use crate::byteinterface::ByteInterface;
use crate::text::{
    all_ascii, ascii_to_string, ascii_view, push_hex2, push_hex5_upper, spec_hex2,
    spec_hex5_upper, spec_hex_digit, spec_hex_digit_upper,
};
use vstd::prelude::*;
use vstd::string::StringExecFns;

verus! {

/// Size of the physical address space in bytes (20-bit addressing).
pub const ADDRESS_SPACE: usize = 1048576;

/// Cycles charged for each byte accessed through the bus.
pub const DEFAULT_CYCLE_COST: u32 = 4;

/// Bit in the access mask that marks a byte as read-only.
pub const ROM_BIT: u8 = 0x80;

/// Error returned by the address-indexed accessors when a request falls
/// outside the physical address space.
#[derive(Copy, Clone, Debug, PartialEq, Eq, Structural)]
pub enum MemError {
    ReadOutOfBoundsError,
}

/// Record of a memory range that was stamped or registered on the bus.
#[derive(Copy, Clone, Debug, PartialEq, Eq, Structural)]
pub struct MemRangeDescriptor {
    pub start: usize,
    pub end: usize,
    pub size: usize,
    pub cycle_cost: u32,
    pub read_only: bool,
}

/// The physical memory bus.
pub struct BusInterface {
    memory: Vec<u8>,
    memory_mask: Vec<u8>,
    desc_vec: Vec<MemRangeDescriptor>,
    cursor: usize,
}

impl BusInterface {
    /// The bytes of physical memory.
    pub closed spec fn mem(&self) -> Seq<u8> {
        self.memory@
    }

    /// The access mask, one byte per memory byte.
    pub closed spec fn mask(&self) -> Seq<u8> {
        self.memory_mask@
    }

    /// The registered range descriptors, oldest first.
    pub closed spec fn descriptors(&self) -> Seq<MemRangeDescriptor> {
        self.desc_vec@
    }

    /// Position of the sequential-access cursor.
    pub closed spec fn cur(&self) -> int {
        self.cursor as int
    }

    /// Both arrays span exactly the address space.
    pub open spec fn wf(&self) -> bool {
        &&& self.mem().len() == ADDRESS_SPACE
        &&& self.mask().len() == ADDRESS_SPACE
    }

    /// Whether the mask marks `addr` as read-only.
    pub open spec fn rom_masked(&self, addr: int) -> bool {
        self.mask()[addr] & ROM_BIT != 0
    }

    /// The 16-bit little-endian word stored at `addr`.
    pub open spec fn word_at(&self, addr: int) -> int {
        self.mem()[addr] + self.mem()[addr + 1] * 256
    }

    /// Relation between the bus before and after an image `src` was
    /// successfully stamped at `location`: memory takes the image, the mask
    /// takes the cycle cost and the read-only bit across the range, a
    /// descriptor is appended, and everything else is untouched.
    pub open spec fn stamped(
        self,
        post: BusInterface,
        src: Seq<u8>,
        location: int,
        cycle_cost: u32,
        read_only: bool,
    ) -> bool {
        &&& post.mem().len() == ADDRESS_SPACE
        &&& post.mask().len() == ADDRESS_SPACE
        &&& forall|i: int|
            0 <= i < ADDRESS_SPACE ==> post.mem()[i] == if location <= i < location + src.len() {
                src[i - location]
            } else {
                self.mem()[i]
            }
        &&& forall|i: int|
            0 <= i < ADDRESS_SPACE ==> post.mask()[i] == if location <= i < location
                + src.len() {
                (cycle_cost as u8 & 0xEF) | (if read_only {
                    ROM_BIT
                } else {
                    0u8
                })
            } else {
                self.mask()[i]
            }
        &&& post.descriptors() == self.descriptors().push(
            (MemRangeDescriptor {
                start: location as usize,
                end: (location + src.len()) as usize,
                size: src.len() as usize,
                cycle_cost: cycle_cost,
                read_only: read_only,
            }),
        )
        &&& post.cur() == self.cur()
    }

    pub fn new() -> (bus: BusInterface)
        ensures
            bus.wf(),
            bus.mem() =~= Seq::new(ADDRESS_SPACE as nat, |i: int| 0u8),
            bus.mask() =~= Seq::new(ADDRESS_SPACE as nat, |i: int| 0u8),
            bus.descriptors() =~= Seq::<MemRangeDescriptor>::empty(),
            bus.cur() == 0,
    {
        BusInterface {
            memory: vec![0u8; ADDRESS_SPACE],
            memory_mask: vec![0u8; ADDRESS_SPACE],
            desc_vec: Vec::new(),
            cursor: 0,
        }
    }

    /// Reads the byte at `address`, charging the default cycle cost.
    pub fn read_u8(&self, address: usize) -> (r: Result<(u8, u32), MemError>)
        requires
            self.wf(),
        ensures
            address < ADDRESS_SPACE ==> r == Ok::<(u8, u32), MemError>((
                self.mem()[address as int],
                DEFAULT_CYCLE_COST,
            )),
            address >= ADDRESS_SPACE ==> r == Err::<(u8, u32), MemError>(
                MemError::ReadOutOfBoundsError,
            ),
    {
        if address < self.memory.len() {
            let b: u8 = self.memory[address];
            return Ok((b, DEFAULT_CYCLE_COST));
        }
        Err(MemError::ReadOutOfBoundsError)
    }

    /// Reads the byte at `address` as a signed value.
    pub fn read_i8(&self, address: usize) -> (r: Result<(i8, u32), MemError>)
        requires
            self.wf(),
        ensures
            address < ADDRESS_SPACE ==> r == Ok::<(i8, u32), MemError>((
                self.mem()[address as int] as i8,
                DEFAULT_CYCLE_COST,
            )),
            address >= ADDRESS_SPACE ==> r == Err::<(i8, u32), MemError>(
                MemError::ReadOutOfBoundsError,
            ),
    {
        if address < self.memory.len() {
            let b: i8 = self.memory[address] as i8;
            return Ok((b, DEFAULT_CYCLE_COST));
        }
        Err(MemError::ReadOutOfBoundsError)
    }

    /// Reads the little-endian 16-bit word at `address`.
    pub fn read_u16(&self, address: usize) -> (r: Result<(u16, u32), MemError>)
        requires
            self.wf(),
        ensures
            address < ADDRESS_SPACE - 1 ==> r == Ok::<(u16, u32), MemError>((
                self.word_at(address as int) as u16,
                DEFAULT_CYCLE_COST,
            )),
            address >= ADDRESS_SPACE - 1 ==> r == Err::<(u16, u32), MemError>(
                MemError::ReadOutOfBoundsError,
            ),
    {
        if address < self.memory.len() - 1 {
            let lo = self.memory[address];
            let hi = self.memory[address + 1];
            let w: u16 = lo as u16 | (hi as u16) << 8;
            proof {
                lemma_le_word(lo, hi);
            }
            return Ok((w, DEFAULT_CYCLE_COST));
        }
        Err(MemError::ReadOutOfBoundsError)
    }

    /// Reads the little-endian 16-bit word at `address` as a signed value.
    pub fn read_i16(&self, address: usize) -> (r: Result<(i16, u32), MemError>)
        requires
            self.wf(),
        ensures
            address < ADDRESS_SPACE - 1 ==> r == Ok::<(i16, u32), MemError>((
                self.word_at(address as int) as u16 as i16,
                DEFAULT_CYCLE_COST,
            )),
            address >= ADDRESS_SPACE - 1 ==> r == Err::<(i16, u32), MemError>(
                MemError::ReadOutOfBoundsError,
            ),
    {
        if address < self.memory.len() - 1 {
            let lo = self.memory[address];
            let hi = self.memory[address + 1];
            let w: i16 = (lo as u16 | (hi as u16) << 8) as i16;
            proof {
                lemma_le_word(lo, hi);
            }
            return Ok((w, DEFAULT_CYCLE_COST));
        }
        Err(MemError::ReadOutOfBoundsError)
    }

    /// Writes `data` at `address`. A write to a ROM-masked byte is silently
    /// dropped but still charges the cycle cost.
    pub fn write_u8(&mut self, address: usize, data: u8) -> (r: Result<u32, MemError>)
        requires
            old(self).wf(),
        ensures
            final(self).wf(),
            final(self).mask() == old(self).mask(),
            final(self).descriptors() == old(self).descriptors(),
            final(self).cur() == old(self).cur(),
            address < ADDRESS_SPACE ==> {
                &&& r == Ok::<u32, MemError>(DEFAULT_CYCLE_COST)
                &&& !old(self).rom_masked(address as int) ==> final(self).mem() == old(
                    self,
                ).mem().update(address as int, data)
                &&& old(self).rom_masked(address as int) ==> final(self).mem() == old(self).mem()
            },
            address >= ADDRESS_SPACE ==> {
                &&& r == Err::<u32, MemError>(MemError::ReadOutOfBoundsError)
                &&& final(self).mem() == old(self).mem()
            },
    {
        if address < self.memory.len() {
            if self.memory_mask[address] & ROM_BIT == 0 {
                self.memory[address] = data;
            }
            return Ok(DEFAULT_CYCLE_COST);
        }
        Err(MemError::ReadOutOfBoundsError)
    }

    /// Writes a signed byte at `address`, with the same ROM masking as
    /// `write_u8`.
    pub fn write_i8(&mut self, address: usize, data: i8) -> (r: Result<u32, MemError>)
        requires
            old(self).wf(),
        ensures
            final(self).wf(),
            final(self).mask() == old(self).mask(),
            final(self).descriptors() == old(self).descriptors(),
            final(self).cur() == old(self).cur(),
            address < ADDRESS_SPACE ==> {
                &&& r == Ok::<u32, MemError>(DEFAULT_CYCLE_COST)
                &&& !old(self).rom_masked(address as int) ==> final(self).mem() == old(
                    self,
                ).mem().update(address as int, data as u8)
                &&& old(self).rom_masked(address as int) ==> final(self).mem() == old(self).mem()
            },
            address >= ADDRESS_SPACE ==> {
                &&& r == Err::<u32, MemError>(MemError::ReadOutOfBoundsError)
                &&& final(self).mem() == old(self).mem()
            },
    {
        if address < self.memory.len() {
            if self.memory_mask[address] & ROM_BIT == 0 {
                self.memory[address] = data as u8;
            }
            return Ok(DEFAULT_CYCLE_COST);
        }
        Err(MemError::ReadOutOfBoundsError)
    }

    /// Writes the little-endian 16-bit word `data` at `address`. The ROM mask
    /// of the first byte governs the whole word.
    pub fn write_u16(&mut self, address: usize, data: u16) -> (r: Result<u32, MemError>)
        requires
            old(self).wf(),
        ensures
            final(self).wf(),
            final(self).mask() == old(self).mask(),
            final(self).descriptors() == old(self).descriptors(),
            final(self).cur() == old(self).cur(),
            address < ADDRESS_SPACE - 1 ==> {
                &&& r == Ok::<u32, MemError>(DEFAULT_CYCLE_COST)
                &&& !old(self).rom_masked(address as int) ==> final(self).mem() == old(
                    self,
                ).mem().update(address as int, (data % 256) as u8).update(
                    address + 1,
                    (data / 256) as u8,
                )
                &&& old(self).rom_masked(address as int) ==> final(self).mem() == old(self).mem()
            },
            address >= ADDRESS_SPACE - 1 ==> {
                &&& r == Err::<u32, MemError>(MemError::ReadOutOfBoundsError)
                &&& final(self).mem() == old(self).mem()
            },
    {
        if address < self.memory.len() - 1 {
            if self.memory_mask[address] & ROM_BIT == 0 {
                proof {
                    lemma_word_split(data);
                }
                self.memory[address] = (data & 0xFF) as u8;
                self.memory[address + 1] = (data >> 8) as u8;
            }
            return Ok(DEFAULT_CYCLE_COST);
        }
        Err(MemError::ReadOutOfBoundsError)
    }

    /// Writes a 16-bit word at `address`; the signed entry point shares the
    /// unsigned representation.
    pub fn write_i16(&mut self, address: usize, data: u16) -> (r: Result<u32, MemError>)
        requires
            old(self).wf(),
        ensures
            final(self).wf(),
            final(self).mask() == old(self).mask(),
            final(self).descriptors() == old(self).descriptors(),
            final(self).cur() == old(self).cur(),
            address < ADDRESS_SPACE - 1 ==> {
                &&& r == Ok::<u32, MemError>(DEFAULT_CYCLE_COST)
                &&& !old(self).rom_masked(address as int) ==> final(self).mem() == old(
                    self,
                ).mem().update(address as int, (data % 256) as u8).update(
                    address + 1,
                    (data / 256) as u8,
                )
                &&& old(self).rom_masked(address as int) ==> final(self).mem() == old(self).mem()
            },
            address >= ADDRESS_SPACE - 1 ==> {
                &&& r == Err::<u32, MemError>(MemError::ReadOutOfBoundsError)
                &&& final(self).mem() == old(self).mem()
            },
    {
        if address < self.memory.len() - 1 {
            if self.memory_mask[address] & ROM_BIT == 0 {
                proof {
                    lemma_word_split(data);
                }
                self.memory[address] = (data & 0xFF) as u8;
                self.memory[address + 1] = (data >> 8) as u8;
            }
            return Ok(DEFAULT_CYCLE_COST);
        }
        Err(MemError::ReadOutOfBoundsError)
    }
}

impl BusInterface {
    /// Stamps `src_vec` into memory at `location`, records the cycle cost and
    /// the read-only bit in the access mask across the range, and appends a
    /// range descriptor. Fails without change when the image would run past
    /// the end of the address space.
    pub fn copy_from(
        &mut self,
        src_vec: &Vec<u8>,
        location: usize,
        cycle_cost: u32,
        read_only: bool,
    ) -> (r: Result<(), bool>)
        requires
            old(self).wf(),
        ensures
            final(self).wf(),
            final(self).cur() == old(self).cur(),
            location + src_vec@.len() > ADDRESS_SPACE ==> {
                &&& r == Err::<(), bool>(false)
                &&& *final(self) == *old(self)
            },
            location + src_vec@.len() <= ADDRESS_SPACE ==> {
                &&& r == Ok::<(), bool>(())
                &&& old(self).stamped(
                    *final(self),
                    src_vec@,
                    location as int,
                    cycle_cost,
                    read_only,
                )
            },
    {
        let src_size = src_vec.len();
        if location > self.memory.len() || src_size > self.memory.len() - location {
            // copy request goes out of bounds
            return Err(false);
        }
        let access_bit = if read_only {
            ROM_BIT
        } else {
            0u8
        };
        let mask_byte = (cycle_cost as u8 & 0xEF) | access_bit;
        let mut i: usize = 0;
        while i < src_size
            invariant
                self.wf(),
                i <= src_size,
                src_size == src_vec@.len(),
                location + src_size <= ADDRESS_SPACE,
                mask_byte == (cycle_cost as u8 & 0xEF) | (if read_only {
                    ROM_BIT
                } else {
                    0u8
                }),
                forall|j: int|
                    0 <= j < ADDRESS_SPACE ==> self.mem()[j] == if location <= j < location + i {
                        src_vec@[j - location]
                    } else {
                        old(self).mem()[j]
                    },
                forall|j: int|
                    0 <= j < ADDRESS_SPACE ==> self.mask()[j] == if location <= j < location + i {
                        mask_byte
                    } else {
                        old(self).mask()[j]
                    },
                self.descriptors() == old(self).descriptors(),
                self.cur() == old(self).cur(),
            decreases src_size - i,
        {
            self.memory[location + i] = src_vec[i];
            self.memory_mask[location + i] = mask_byte;
            i = i + 1;
        }
        self.desc_vec.push(
            MemRangeDescriptor {
                start: location,
                end: location + src_size,
                size: src_size,
                cycle_cost: cycle_cost,
                read_only: read_only,
            },
        );
        Ok(())
    }

    /// Writes `src_vec` into memory at `location`, ignoring the ROM mask.
    /// Neither the mask nor the descriptors change. Used to install ROM
    /// patches.
    pub fn patch_from(&mut self, src_vec: &Vec<u8>, location: usize) -> (r: Result<(), bool>)
        requires
            old(self).wf(),
        ensures
            final(self).wf(),
            final(self).mask() == old(self).mask(),
            final(self).descriptors() == old(self).descriptors(),
            final(self).cur() == old(self).cur(),
            location + src_vec@.len() > ADDRESS_SPACE ==> {
                &&& r == Err::<(), bool>(false)
                &&& final(self).mem() == old(self).mem()
            },
            location + src_vec@.len() <= ADDRESS_SPACE ==> {
                &&& r == Ok::<(), bool>(())
                &&& final(self).mem().len() == ADDRESS_SPACE
                &&& forall|i: int|
                    0 <= i < ADDRESS_SPACE ==> final(self).mem()[i] == if location <= i
                        < location + src_vec@.len() {
                        src_vec@[i - location]
                    } else {
                        old(self).mem()[i]
                    }
            },
    {
        let src_size = src_vec.len();
        if location > self.memory.len() || src_size > self.memory.len() - location {
            // copy request goes out of bounds
            return Err(false);
        }
        let mut i: usize = 0;
        while i < src_size
            invariant
                self.wf(),
                i <= src_size,
                src_size == src_vec@.len(),
                location + src_size <= ADDRESS_SPACE,
                forall|j: int|
                    0 <= j < ADDRESS_SPACE ==> self.mem()[j] == if location <= j < location + i {
                        src_vec@[j - location]
                    } else {
                        old(self).mem()[j]
                    },
                self.mask() == old(self).mask(),
                self.descriptors() == old(self).descriptors(),
                self.cur() == old(self).cur(),
            decreases src_size - i,
        {
            self.memory[location + i] = src_vec[i];
            i = i + 1;
        }
        Ok(())
    }

    /// A read-only window on memory, used by the video renderer.
    pub fn get_slice_at(&self, start: usize, len: usize) -> (r: &[u8])
        requires
            self.wf(),
            start + len <= ADDRESS_SPACE,
        ensures
            r@ == self.mem().subrange(start as int, start + len),
    {
        vstd::slice::slice_subrange(self.memory.as_slice(), start, start + len)
    }

    /// Registers a range descriptor without copying any data.
    pub fn set_descriptor(&mut self, start: usize, end: usize, cycle_cost: u32, read_only: bool)
        requires
            old(self).wf(),
            start <= end,
        ensures
            final(self).wf(),
            final(self).mem() == old(self).mem(),
            final(self).mask() == old(self).mask(),
            final(self).cur() == old(self).cur(),
            final(self).descriptors() == old(self).descriptors().push(
                (MemRangeDescriptor {
                    start: start,
                    end: end,
                    size: (end - start) as usize,
                    cycle_cost: cycle_cost,
                    read_only: read_only,
                }),
            ),
    {
        // Overlap with an existing descriptor is not rejected here.
        self.desc_vec.push(
            MemRangeDescriptor {
                start: start,
                end: end,
                size: end - start,
                cycle_cost: cycle_cost,
                read_only: read_only,
            },
        );
    }

    /// Clears the range descriptors and zeroes all of memory. The access mask
    /// is left as it is: callers must re-stamp ROM images to restore the ROM
    /// bits.
    pub fn reset(&mut self)
        requires
            old(self).wf(),
        ensures
            final(self).wf(),
            final(self).mem() =~= Seq::new(ADDRESS_SPACE as nat, |i: int| 0u8),
            final(self).mask() == old(self).mask(),
            final(self).descriptors() =~= Seq::<MemRangeDescriptor>::empty(),
            final(self).cur() == old(self).cur(),
    {
        // Clear mem range descriptors
        self.desc_vec.clear();
        // Set all bytes to 0
        let mut i: usize = 0;
        while i < self.memory.len()
            invariant
                self.wf(),
                i <= ADDRESS_SPACE,
                forall|j: int| 0 <= j < i ==> self.mem()[j] == 0u8,
                self.mask() == old(self).mask(),
                self.descriptors() =~= Seq::<MemRangeDescriptor>::empty(),
                self.cur() == old(self).cur(),
            decreases ADDRESS_SPACE - i,
        {
            self.memory[i] = 0;
            i = i + 1;
        }
    }
}

impl ByteInterface for BusInterface {
    open spec fn bi_store(&self) -> Seq<u8> {
        self.mem()
    }

    open spec fn bi_cursor(&self) -> int {
        self.cur()
    }

    fn set_cursor(&mut self, pos: usize)
        ensures
            final(self).mask() == old(self).mask(),
            final(self).descriptors() == old(self).descriptors(),
    {
        self.cursor = pos;
    }

    fn tell(&self) -> (r: usize) {
        self.cursor
    }

    fn read_u8(&mut self, cost: &mut u32) -> (r: u8)
        ensures
            final(self).mask() == old(self).mask(),
            final(self).descriptors() == old(self).descriptors(),
    {
        if self.cursor < self.memory.len() {
            let b: u8 = self.memory[self.cursor];
            *cost = *cost + DEFAULT_CYCLE_COST;
            self.cursor = self.cursor + 1;
            return b;
        }
        *cost = *cost + DEFAULT_CYCLE_COST;
        0xffu8
    }

    fn read_i8(&mut self, cost: &mut u32) -> (r: i8)
        ensures
            final(self).mask() == old(self).mask(),
            final(self).descriptors() == old(self).descriptors(),
    {
        if self.cursor < self.memory.len() {
            let b: i8 = self.memory[self.cursor] as i8;
            *cost = *cost + DEFAULT_CYCLE_COST;
            self.cursor = self.cursor + 1;
            return b;
        }
        *cost = *cost + DEFAULT_CYCLE_COST;
        -1i8
    }

    fn write_u8(&mut self, data: u8, cost: &mut u32)
        ensures
            final(self).mask() == old(self).mask(),
            final(self).descriptors() == old(self).descriptors(),
            final(self).mem().len() == old(self).mem().len(),
    {
        if self.cursor < self.memory.len() {
            self.memory[self.cursor] = data;
            self.cursor = self.cursor + 1;
        }
        *cost = *cost + DEFAULT_CYCLE_COST;
    }

    fn write_i8(&mut self, data: i8, cost: &mut u32)
        ensures
            final(self).mask() == old(self).mask(),
            final(self).descriptors() == old(self).descriptors(),
            final(self).mem().len() == old(self).mem().len(),
    {
        if self.cursor < self.memory.len() {
            self.memory[self.cursor] = data as u8;
            self.cursor = self.cursor + 1;
        }
        *cost = *cost + DEFAULT_CYCLE_COST;
    }

    fn read_u16(&mut self, cost: &mut u32) -> (r: u16)
        ensures
            final(self).mask() == old(self).mask(),
            final(self).descriptors() == old(self).descriptors(),
    {
        if self.memory.len() >= 2 && self.cursor < self.memory.len() - 1 {
            let lo = self.memory[self.cursor];
            let hi = self.memory[self.cursor + 1];
            let w: u16 = lo as u16 | (hi as u16) << 8;
            proof {
                lemma_le_word(lo, hi);
            }
            *cost = *cost + DEFAULT_CYCLE_COST * 2;
            self.cursor = self.cursor + 2;
            return w;
        }
        *cost = *cost + DEFAULT_CYCLE_COST * 2;
        0xffffu16
    }

    fn read_i16(&mut self, cost: &mut u32) -> (r: i16)
        ensures
            final(self).mask() == old(self).mask(),
            final(self).descriptors() == old(self).descriptors(),
    {
        if self.memory.len() >= 2 && self.cursor < self.memory.len() - 1 {
            let lo = self.memory[self.cursor];
            let hi = self.memory[self.cursor + 1];
            let w: i16 = (lo as u16 | (hi as u16) << 8) as i16;
            proof {
                lemma_le_word(lo, hi);
            }
            *cost = *cost + DEFAULT_CYCLE_COST * 2;
            self.cursor = self.cursor + 2;
            return w;
        }
        *cost = *cost + DEFAULT_CYCLE_COST * 2;
        -1i16
    }

    fn write_u16(&mut self, data: u16, cost: &mut u32)
        ensures
            final(self).mask() == old(self).mask(),
            final(self).descriptors() == old(self).descriptors(),
            final(self).mem().len() == old(self).mem().len(),
    {
        if self.memory.len() >= 2 && self.cursor < self.memory.len() - 1 {
            proof {
                lemma_word_split(data);
            }
            // Little Endian is LO byte first
            let lo_merged = self.memory[self.cursor] | (data & 0xFF) as u8;
            let hi_merged = self.memory[self.cursor + 1] | (data >> 8) as u8;
            self.memory[self.cursor] = lo_merged;
            self.memory[self.cursor + 1] = hi_merged;
            self.cursor = self.cursor + 2;
        }
        *cost = *cost + DEFAULT_CYCLE_COST * 2;
    }

    fn write_i16(&mut self, data: i16, cost: &mut u32)
        ensures
            final(self).mask() == old(self).mask(),
            final(self).descriptors() == old(self).descriptors(),
            final(self).mem().len() == old(self).mem().len(),
    {
        if self.memory.len() >= 2 && self.cursor < self.memory.len() - 1 {
            proof {
                lemma_word_split(data as u16);
            }
            // Little Endian is LO byte first
            let lo_merged = self.memory[self.cursor] | ((data as u16) & 0xFF) as u8;
            let hi_merged = self.memory[self.cursor + 1] | ((data as u16) >> 8) as u8;
            self.memory[self.cursor] = lo_merged;
            self.memory[self.cursor + 1] = hi_merged;
            self.cursor = self.cursor + 2;
        }
        *cost = *cost + DEFAULT_CYCLE_COST * 2;
    }
}

/// How a byte appears in the character column of a dump row: bytes 32 to 127
/// verbatim, a dot for everything else.
pub open spec fn spec_dump_char(b: u8) -> u8 {
    if 32 <= b && b <= 127 {
        b
    } else {
        0x2eu8
    }
}

/// The first `n` hexadecimal cells of a dump row, each cell two digits and a
/// space.
pub open spec fn spec_hex_cells(mem: Seq<u8>, start: int, n: nat) -> Seq<u8>
    decreases n,
{
    if n == 0 {
        Seq::<u8>::empty()
    } else {
        spec_hex_cells(mem, start, (n - 1) as nat) + spec_hex2(mem[start + n - 1]) + seq![0x20u8]
    }
}

/// The first `n` character-column bytes of a dump row.
pub open spec fn spec_char_cells(mem: Seq<u8>, start: int, n: nat) -> Seq<u8>
    decreases n,
{
    if n == 0 {
        Seq::<u8>::empty()
    } else {
        spec_char_cells(mem, start, (n - 1) as nat).push(spec_dump_char(mem[start + n - 1]))
    }
}

/// One dump row: five-digit address, the sixteen hexadecimal cells, the
/// sixteen-character column, and a newline.
pub open spec fn spec_dump_row(mem: Seq<u8>, row_addr: int) -> Seq<u8> {
    spec_hex5_upper(row_addr) + seq![0x20u8] + spec_hex_cells(mem, row_addr, 16) + seq![0x20u8]
        + spec_char_cells(mem, row_addr, 16) + seq![0x0au8]
}

/// The first `nrows` rows of a dump starting at `address`, sixteen bytes per
/// row.
pub open spec fn spec_dump_rows(mem: Seq<u8>, address: int, nrows: nat) -> Seq<u8>
    decreases nrows,
{
    if nrows == 0 {
        Seq::<u8>::empty()
    } else {
        spec_dump_rows(mem, address, (nrows - 1) as nat) + spec_dump_row(
            mem,
            address + (nrows - 1) * 16,
        )
    }
}

proof fn lemma_hex_cells_ascii(mem: Seq<u8>, start: int, n: nat)
    ensures
        all_ascii(spec_hex_cells(mem, start, n)),
    decreases n,
{
    if n > 0 {
        lemma_hex_cells_ascii(mem, start, (n - 1) as nat);
        let prev = spec_hex_cells(mem, start, (n - 1) as nat);
        let whole = spec_hex_cells(mem, start, n);
        assert forall|i: int| 0 <= i < whole.len() implies whole[i] < 128 by {
            if i < prev.len() {
                assert(prev[i] < 128);
            }
        }
    }
}

proof fn lemma_char_cells_ascii(mem: Seq<u8>, start: int, n: nat)
    ensures
        all_ascii(spec_char_cells(mem, start, n)),
    decreases n,
{
    if n > 0 {
        lemma_char_cells_ascii(mem, start, (n - 1) as nat);
        let prev = spec_char_cells(mem, start, (n - 1) as nat);
        let whole = spec_char_cells(mem, start, n);
        assert forall|i: int| 0 <= i < whole.len() implies whole[i] < 128 by {
            if i < prev.len() {
                assert(prev[i] < 128);
            }
        }
    }
}

proof fn lemma_dump_row_ascii(mem: Seq<u8>, row_addr: int)
    ensures
        all_ascii(spec_dump_row(mem, row_addr)),
{
    lemma_hex_cells_ascii(mem, row_addr, 16);
    lemma_char_cells_ascii(mem, row_addr, 16);
    let addr = spec_hex5_upper(row_addr);
    let hexes = spec_hex_cells(mem, row_addr, 16);
    let chars = spec_char_cells(mem, row_addr, 16);
    let whole = spec_dump_row(mem, row_addr);
    assert forall|i: int| 0 <= i < whole.len() implies whole[i] < 128 by {
        if i < addr.len() {
            assert(whole[i] == addr[i]);
        } else if i < addr.len() + 1 {
            assert(whole[i] == 0x20u8);
        } else if i < addr.len() + 1 + hexes.len() {
            assert(whole[i] == hexes[i - addr.len() - 1]);
            assert(hexes[i - addr.len() - 1] < 128);
        } else if i < addr.len() + 1 + hexes.len() + 1 {
            assert(whole[i] == 0x20u8);
        } else if i < addr.len() + 1 + hexes.len() + 1 + chars.len() {
            assert(whole[i] == chars[i - addr.len() - 1 - hexes.len() - 1]);
            assert(chars[i - addr.len() - 1 - hexes.len() - 1] < 128);
        } else {
            assert(whole[i] == 0x0au8);
        }
    }
}

proof fn lemma_dump_rows_ascii(mem: Seq<u8>, address: int, nrows: nat)
    ensures
        all_ascii(spec_dump_rows(mem, address, nrows)),
    decreases nrows,
{
    if nrows > 0 {
        lemma_dump_rows_ascii(mem, address, (nrows - 1) as nat);
        lemma_dump_row_ascii(mem, address + (nrows - 1) * 16);
        let prev = spec_dump_rows(mem, address, (nrows - 1) as nat);
        let row = spec_dump_row(mem, address + (nrows - 1) * 16);
        let whole = spec_dump_rows(mem, address, nrows);
        assert forall|i: int| 0 <= i < whole.len() implies whole[i] < 128 by {
            if i < prev.len() {
                assert(prev[i] < 128);
            } else {
                assert(whole[i] == row[i - prev.len()]);
                assert(row[i - prev.len()] < 128);
            }
        }
    }
}

impl BusInterface {
    /// A hex-and-character dump of memory: sixteen bytes per row, complete
    /// rows only, purely a function of the memory contents and the request.
    /// A request that exceeds the address space yields a fixed message; one
    /// that ends exactly at the top of memory still dumps.
    pub fn dump_flat(&self, address: usize, size: usize) -> (s: String)
        requires
            self.wf(),
        ensures
            address + size > ADDRESS_SPACE ==> s@ == "REQUEST OUT OF BOUNDS"@,
            address + size <= ADDRESS_SPACE ==> s@ == ascii_view(
                spec_dump_rows(self.mem(), address as int, (size / 16) as nat),
            ),
    {
        if address > self.memory.len() || size > self.memory.len() - address {
            return String::from_str("REQUEST OUT OF BOUNDS");
        }
        let rows = size / 16;
        let mut out: Vec<u8> = Vec::new();
        let mut display_address = address;
        let mut row: usize = 0;
        assert(rows * 16 <= size) by (nonlinear_arith)
            requires
                rows == size / 16,
        ;
        while row < rows
            invariant
                self.wf(),
                address + size <= ADDRESS_SPACE,
                rows == size / 16,
                rows * 16 <= size,
                row <= rows,
                display_address == address + row * 16,
                out@ =~= spec_dump_rows(self.mem(), address as int, row as nat),
            decreases rows - row,
        {
            proof {
                assert(row * 16 + 16 <= rows * 16) by (nonlinear_arith)
                    requires
                        row < rows,
                ;
            }
            let ghost row_start = out@;
            push_hex5_upper(&mut out, display_address);
            out.push(0x20);
            let mut i: usize = 0;
            while i < 16
                invariant
                    self.wf(),
                    i <= 16,
                    display_address + 16 <= ADDRESS_SPACE,
                    out@ =~= row_start + spec_hex5_upper(display_address as int) + seq![0x20u8]
                        + spec_hex_cells(self.mem(), display_address as int, i as nat),
                decreases 16 - i,
            {
                let b = self.memory[display_address + i];
                push_hex2(&mut out, b);
                out.push(0x20);
                i = i + 1;
                assert(out@ =~= row_start + spec_hex5_upper(display_address as int) + seq![0x20u8]
                    + spec_hex_cells(self.mem(), display_address as int, i as nat));
            }
            out.push(0x20);
            let mut j: usize = 0;
            while j < 16
                invariant
                    self.wf(),
                    j <= 16,
                    display_address + 16 <= ADDRESS_SPACE,
                    out@ =~= row_start + spec_hex5_upper(display_address as int) + seq![0x20u8]
                        + spec_hex_cells(self.mem(), display_address as int, 16) + seq![0x20u8]
                        + spec_char_cells(self.mem(), display_address as int, j as nat),
                decreases 16 - j,
            {
                let b = self.memory[display_address + j];
                let c: u8 = if b >= 32 && b <= 127 {
                    b
                } else {
                    0x2eu8
                };
                out.push(c);
                j = j + 1;
                assert(out@ =~= row_start + spec_hex5_upper(display_address as int) + seq![0x20u8]
                    + spec_hex_cells(self.mem(), display_address as int, 16) + seq![0x20u8]
                    + spec_char_cells(self.mem(), display_address as int, j as nat));
            }
            out.push(0x0a);
            row = row + 1;
            display_address = display_address + 16;
            assert(out@ =~= spec_dump_rows(self.mem(), address as int, row as nat));
        }
        proof {
            lemma_dump_rows_ascii(self.mem(), address as int, rows as nat);
        }
        ascii_to_string(&out)
    }
}

/// Assembling two bytes little-endian with shift-or equals the arithmetic
/// form `lo + hi * 256`.
pub proof fn lemma_le_word(lo: u8, hi: u8)
    ensures
        (lo as u16 | (hi as u16) << 8) == lo + hi * 256,
{
    assert((lo as u16 | (hi as u16) << 8) == (lo as u16) + (hi as u16) * 256) by (bit_vector);
}

/// After an image is stamped successfully, every byte inside the stamped
/// range reads back as the corresponding byte of the image: `read_u8` at
/// `location + i` returns exactly `src[i]`.
pub proof fn lemma_stamped_reads_back(
    pre: BusInterface,
    post: BusInterface,
    src: Seq<u8>,
    location: int,
    cycle_cost: u32,
    read_only: bool,
    i: int,
)
    requires
        pre.stamped(post, src, location, cycle_cost, read_only),
        0 <= location,
        location + src.len() <= ADDRESS_SPACE,
        0 <= i < src.len(),
    ensures
        post.wf(),
        post.mem()[location + i] == src[i],
{
}

/// After an image is stamped read-only, every byte of the stamped range is
/// ROM-masked, so by the contract of `write_u8` a write there returns Ok yet
/// leaves memory unchanged.
pub proof fn lemma_stamped_read_only_protects(
    pre: BusInterface,
    post: BusInterface,
    src: Seq<u8>,
    location: int,
    cycle_cost: u32,
    i: int,
)
    requires
        pre.stamped(post, src, location, cycle_cost, true),
        0 <= location,
        location + src.len() <= ADDRESS_SPACE,
        0 <= i < src.len(),
    ensures
        post.wf(),
        post.rom_masked(location + i),
{
    let m = (cycle_cost as u8 & 0xEF) | ROM_BIT;
    assert(post.mask()[location + i] == m);
    assert(m & 0x80 != 0) by (bit_vector)
        requires
            m == (cycle_cost as u8 & 0xEF) | 0x80,
    ;
}

/// The word returned by `read_u16` is the low byte OR the high byte shifted
/// left by eight: the word the bus reads at `a` is assembled little-endian
/// from the bytes `read_u8` returns at `a` and `a + 1`.
pub proof fn lemma_word_is_le_bytes(b: BusInterface, a: int)
    requires
        b.wf(),
        0 <= a < ADDRESS_SPACE - 1,
    ensures
        b.word_at(a) as u16 == (b.mem()[a] as u16 | (b.mem()[a + 1] as u16) << 8),
{
    lemma_le_word(b.mem()[a], b.mem()[a + 1]);
}

/// A byte written outside ROM reads back: after `write_u8(a, x)` on a
/// non-ROM-masked address, `read_u8(a)` returns `x`.
pub proof fn lemma_write_then_read(pre: BusInterface, post: BusInterface, a: int, x: u8)
    requires
        pre.wf(),
        0 <= a < ADDRESS_SPACE,
        !pre.rom_masked(a),
        post.mem() == pre.mem().update(a, x),
    ensures
        post.mem()[a] == x,
{
}

/// A word written outside ROM reads back: after `write_u16(a, x)` on a
/// non-ROM-masked address, `read_u16(a)` returns `x`.
pub proof fn lemma_word_round_trip(pre: BusInterface, post: BusInterface, a: int, x: u16)
    requires
        pre.wf(),
        0 <= a < ADDRESS_SPACE - 1,
        !pre.rom_masked(a),
        post.mem() == pre.mem().update(a, (x % 256) as u8).update(a + 1, (x / 256) as u8),
    ensures
        post.word_at(a) == x,
{
    assert(post.mem()[a] == (x % 256) as u8);
    assert(post.mem()[a + 1] == (x / 256) as u8);
    lemma_word_split(x);
}

/// The flat dump is purely a function of memory contents: two buses whose
/// memories agree dump the same text for the same request, whatever their
/// masks, descriptors or cursors hold.
pub proof fn lemma_dump_depends_on_memory_alone(
    a: BusInterface,
    b: BusInterface,
    address: int,
    nrows: nat,
)
    requires
        a.mem() == b.mem(),
    ensures
        spec_dump_rows(a.mem(), address, nrows) == spec_dump_rows(b.mem(), address, nrows),
{
}

/// Splitting a word with mask-and-shift equals the arithmetic form with
/// remainder and quotient by 256.
pub proof fn lemma_word_split(w: u16)
    ensures
        (w & 0xFF) as u8 == (w % 256) as u8,
        (w >> 8) as u8 == (w / 256) as u8,
        w % 256 < 256,
        w / 256 < 256,
        w == (w % 256) + (w / 256) * 256,
{
    assert((w & 0xFF) as u8 == (w % 256) as u8) by (bit_vector);
    assert((w >> 8) as u8 == (w / 256) as u8) by (bit_vector);
    assert(w % 256 < 256 && w / 256 < 256 && w == (w % 256) + (w / 256) * 256) by (bit_vector);
}

} // verus!

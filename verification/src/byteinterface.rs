//! Cursor-oriented sequential access to a byte-addressable store, with cycle
//! accounting: every access charges four cycles per byte whether or not it was
//! in range. Out-of-range reads return the all-ones pull-up pattern of the
//! requested width; out-of-range writes are dropped. The cursor advances by
//! the access width only when the access was in range.

use vstd::prelude::*;

verus! {

pub trait ByteInterface {
    /// The bytes of the underlying store.
    spec fn bi_store(&self) -> Seq<u8>;

    /// The cursor position.
    spec fn bi_cursor(&self) -> int;

    fn set_cursor(&mut self, pos: usize)
        ensures
            final(self).bi_store() == old(self).bi_store(),
            final(self).bi_cursor() == pos,
    ;

    fn tell(&self) -> (r: usize)
        ensures
            r == self.bi_cursor(),
    ;

    fn read_u8(&mut self, cost: &mut u32) -> (r: u8)
        requires
            *old(cost) + 4 <= u32::MAX,
        ensures
            final(self).bi_store() == old(self).bi_store(),
            *final(cost) == *old(cost) + 4,
            old(self).bi_cursor() < old(self).bi_store().len() ==> {
                &&& r == old(self).bi_store()[old(self).bi_cursor()]
                &&& final(self).bi_cursor() == old(self).bi_cursor() + 1
            },
            !(old(self).bi_cursor() < old(self).bi_store().len()) ==> {
                &&& r == 0xffu8
                &&& final(self).bi_cursor() == old(self).bi_cursor()
            },
    ;

    fn read_i8(&mut self, cost: &mut u32) -> (r: i8)
        requires
            *old(cost) + 4 <= u32::MAX,
        ensures
            final(self).bi_store() == old(self).bi_store(),
            *final(cost) == *old(cost) + 4,
            old(self).bi_cursor() < old(self).bi_store().len() ==> {
                &&& r == old(self).bi_store()[old(self).bi_cursor()] as i8
                &&& final(self).bi_cursor() == old(self).bi_cursor() + 1
            },
            !(old(self).bi_cursor() < old(self).bi_store().len()) ==> {
                &&& r == -1i8
                &&& final(self).bi_cursor() == old(self).bi_cursor()
            },
    ;

    fn write_u8(&mut self, data: u8, cost: &mut u32)
        requires
            *old(cost) + 4 <= u32::MAX,
        ensures
            *final(cost) == *old(cost) + 4,
            old(self).bi_cursor() < old(self).bi_store().len() ==> {
                &&& final(self).bi_store() == old(self).bi_store().update(
                    old(self).bi_cursor(),
                    data,
                )
                &&& final(self).bi_cursor() == old(self).bi_cursor() + 1
            },
            !(old(self).bi_cursor() < old(self).bi_store().len()) ==> {
                &&& final(self).bi_store() == old(self).bi_store()
                &&& final(self).bi_cursor() == old(self).bi_cursor()
            },
    ;

    fn write_i8(&mut self, data: i8, cost: &mut u32)
        requires
            *old(cost) + 4 <= u32::MAX,
        ensures
            *final(cost) == *old(cost) + 4,
            old(self).bi_cursor() < old(self).bi_store().len() ==> {
                &&& final(self).bi_store() == old(self).bi_store().update(
                    old(self).bi_cursor(),
                    data as u8,
                )
                &&& final(self).bi_cursor() == old(self).bi_cursor() + 1
            },
            !(old(self).bi_cursor() < old(self).bi_store().len()) ==> {
                &&& final(self).bi_store() == old(self).bi_store()
                &&& final(self).bi_cursor() == old(self).bi_cursor()
            },
    ;

    fn read_u16(&mut self, cost: &mut u32) -> (r: u16)
        requires
            *old(cost) + 8 <= u32::MAX,
        ensures
            final(self).bi_store() == old(self).bi_store(),
            *final(cost) == *old(cost) + 8,
            old(self).bi_cursor() + 1 < old(self).bi_store().len() ==> {
                &&& r == (old(self).bi_store()[old(self).bi_cursor()] + old(self).bi_store()[old(
                    self,
                ).bi_cursor() + 1] * 256) as u16
                &&& final(self).bi_cursor() == old(self).bi_cursor() + 2
            },
            !(old(self).bi_cursor() + 1 < old(self).bi_store().len()) ==> {
                &&& r == 0xffffu16
                &&& final(self).bi_cursor() == old(self).bi_cursor()
            },
    ;

    fn read_i16(&mut self, cost: &mut u32) -> (r: i16)
        requires
            *old(cost) + 8 <= u32::MAX,
        ensures
            final(self).bi_store() == old(self).bi_store(),
            *final(cost) == *old(cost) + 8,
            old(self).bi_cursor() + 1 < old(self).bi_store().len() ==> {
                &&& r == (old(self).bi_store()[old(self).bi_cursor()] + old(self).bi_store()[old(
                    self,
                ).bi_cursor() + 1] * 256) as u16 as i16
                &&& final(self).bi_cursor() == old(self).bi_cursor() + 2
            },
            !(old(self).bi_cursor() + 1 < old(self).bi_store().len()) ==> {
                &&& r == -1i16
                &&& final(self).bi_cursor() == old(self).bi_cursor()
            },
    ;

    /// The 16-bit cursor write OR-merges the little-endian halves into the
    /// two bytes at the cursor instead of overwriting them; the
    /// address-indexed path overwrites.
    fn write_u16(&mut self, data: u16, cost: &mut u32)
        requires
            *old(cost) + 8 <= u32::MAX,
        ensures
            *final(cost) == *old(cost) + 8,
            old(self).bi_cursor() + 1 < old(self).bi_store().len() ==> {
                &&& final(self).bi_store() == old(self).bi_store().update(
                    old(self).bi_cursor(),
                    old(self).bi_store()[old(self).bi_cursor()] | (data % 256) as u8,
                ).update(
                    old(self).bi_cursor() + 1,
                    old(self).bi_store()[old(self).bi_cursor() + 1] | (data / 256) as u8,
                )
                &&& final(self).bi_cursor() == old(self).bi_cursor() + 2
            },
            !(old(self).bi_cursor() + 1 < old(self).bi_store().len()) ==> {
                &&& final(self).bi_store() == old(self).bi_store()
                &&& final(self).bi_cursor() == old(self).bi_cursor()
            },
    ;

    /// OR-merges like `write_u16`, with the word taken from the signed
    /// value's bit pattern.
    fn write_i16(&mut self, data: i16, cost: &mut u32)
        requires
            *old(cost) + 8 <= u32::MAX,
        ensures
            *final(cost) == *old(cost) + 8,
            old(self).bi_cursor() + 1 < old(self).bi_store().len() ==> {
                &&& final(self).bi_store() == old(self).bi_store().update(
                    old(self).bi_cursor(),
                    old(self).bi_store()[old(self).bi_cursor()] | (data as u16 % 256) as u8,
                ).update(
                    old(self).bi_cursor() + 1,
                    old(self).bi_store()[old(self).bi_cursor() + 1] | (data as u16 / 256) as u8,
                )
                &&& final(self).bi_cursor() == old(self).bi_cursor() + 2
            },
            !(old(self).bi_cursor() + 1 < old(self).bi_store().len()) ==> {
                &&& final(self).bi_store() == old(self).bi_store()
                &&& final(self).bi_cursor() == old(self).bi_cursor()
            },
    ;
}

} // verus!

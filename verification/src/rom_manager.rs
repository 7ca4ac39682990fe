//! The ROM manager: the images stamped into memory at power-on and after a
//! reset, the reset entry point, the checkpoint labels keyed by flat
//! address, and the patches applied — past ROM protection — when execution
//! reaches a patch checkpoint. Discovering and loading image files is the
//! caller's business; the manager works on bytes it is given.

use crate::bus::{BusInterface, ADDRESS_SPACE};
use vstd::prelude::*;

verus! {

/// One ROM image and where it lands.
pub struct RomImage {
    pub data: Vec<u8>,
    pub address: usize,
    pub cycle_cost: u32,
}

/// A labelled address that is only reported, never acted on.
pub struct RomCheckpoint {
    pub addr: u32,
    pub label: String,
}

/// Bytes written into memory, ignoring ROM protection, when execution
/// reaches the trigger address.
pub struct RomPatch {
    pub trigger: u32,
    pub address: usize,
    pub data: Vec<u8>,
}

/// The ROM manager.
pub struct RomManager {
    pub images: Vec<RomImage>,
    pub entry_seg: u16,
    pub entry_off: u16,
    pub checkpoints: Vec<RomCheckpoint>,
    pub patches: Vec<RomPatch>,
}

/// Every image and patch fits inside the address space.
pub open spec fn rom_manager_wf(rm: RomManager) -> bool {
    &&& forall|i: int|
        0 <= i < rm.images@.len() ==> (#[trigger] rm.images@[i]).address
            + rm.images@[i].data@.len() <= ADDRESS_SPACE
    &&& forall|i: int|
        0 <= i < rm.patches@.len() ==> (#[trigger] rm.patches@[i]).address
            + rm.patches@[i].data@.len() <= ADDRESS_SPACE
}

/// `mem` with `data` laid over it at `location`.
pub open spec fn spec_overlay(mem: Seq<u8>, data: Seq<u8>, location: int) -> Seq<u8> {
    Seq::new(
        mem.len(),
        |i: int|
            if location <= i < location + data.len() {
                data[i - location]
            } else {
                mem[i]
            },
    )
}

/// `mask` with `value` written across `len` bytes at `location`.
pub open spec fn spec_mask_overlay(mask: Seq<u8>, len: int, location: int, value: u8) -> Seq<u8> {
    Seq::new(
        mask.len(),
        |i: int|
            if location <= i < location + len {
                value
            } else {
                mask[i]
            },
    )
}

/// The access-mask byte an image stamped read-only leaves behind.
pub open spec fn spec_rom_mask_byte(cycle_cost: u32) -> u8 {
    (cycle_cost as u8 & 0xEF) | crate::bus::ROM_BIT
}

/// Memory after the images are stamped in order.
pub open spec fn spec_mem_after_images(mem: Seq<u8>, images: Seq<RomImage>) -> Seq<u8>
    decreases images.len(),
{
    if images.len() == 0 {
        mem
    } else {
        spec_overlay(
            spec_mem_after_images(mem, images.drop_last()),
            images.last().data@,
            images.last().address as int,
        )
    }
}

/// The access mask after the images are stamped in order, read-only.
pub open spec fn spec_mask_after_images(mask: Seq<u8>, images: Seq<RomImage>) -> Seq<u8>
    decreases images.len(),
{
    if images.len() == 0 {
        mask
    } else {
        spec_mask_overlay(
            spec_mask_after_images(mask, images.drop_last()),
            images.last().data@.len() as int,
            images.last().address as int,
            spec_rom_mask_byte(images.last().cycle_cost),
        )
    }
}

/// The descriptor list after the images are stamped in order.
pub open spec fn spec_descs_after_images(
    descs: Seq<crate::bus::MemRangeDescriptor>,
    images: Seq<RomImage>,
) -> Seq<crate::bus::MemRangeDescriptor>
    decreases images.len(),
{
    if images.len() == 0 {
        descs
    } else {
        spec_descs_after_images(descs, images.drop_last()).push(
            (crate::bus::MemRangeDescriptor {
                start: images.last().address,
                end: (images.last().address + images.last().data@.len()) as usize,
                size: images.last().data@.len() as usize,
                cycle_cost: images.last().cycle_cost,
                read_only: true,
            }),
        )
    }
}

/// Memory after the patches are written in order, past ROM protection.
pub open spec fn spec_mem_after_patches(mem: Seq<u8>, patches: Seq<RomPatch>) -> Seq<u8>
    decreases patches.len(),
{
    if patches.len() == 0 {
        mem
    } else {
        spec_overlay(
            spec_mem_after_patches(mem, patches.drop_last()),
            patches.last().data@,
            patches.last().address as int,
        )
    }
}

/// The first checkpoint label at `flat`, searching front to back.
pub open spec fn spec_find_checkpoint(cps: Seq<RomCheckpoint>, flat: u32) -> Option<Seq<char>>
    decreases cps.len(),
{
    if cps.len() == 0 {
        Option::None
    } else if cps[0].addr == flat {
        Option::Some(cps[0].label@)
    } else {
        spec_find_checkpoint(cps.subrange(1, cps.len() as int), flat)
    }
}

impl RomManager {
    pub fn new(entry_seg: u16, entry_off: u16) -> (rm: RomManager)
        ensures
            rom_manager_wf(rm),
            rm.images@.len() == 0,
            rm.checkpoints@.len() == 0,
            rm.patches@.len() == 0,
            rm.entry_seg == entry_seg,
            rm.entry_off == entry_off,
    {
        RomManager {
            images: Vec::new(),
            entry_seg,
            entry_off,
            checkpoints: Vec::new(),
            patches: Vec::new(),
        }
    }

    /// Adds an image; an image that would run past the end of the address
    /// space is refused.
    pub fn add_image(&mut self, data: Vec<u8>, address: usize, cycle_cost: u32) -> (r: bool)
        requires
            rom_manager_wf(*old(self)),
        ensures
            rom_manager_wf(*final(self)),
            address + data@.len() <= ADDRESS_SPACE ==> {
                &&& r
                &&& final(self).images@.len() == old(self).images@.len() + 1
                &&& final(self).images@.last().data@ == data@
                &&& final(self).images@.last().address == address
                &&& final(self).images@.last().cycle_cost == cycle_cost
                &&& final(self).images@.drop_last() == old(self).images@
            },
            address + data@.len() > ADDRESS_SPACE ==> {
                &&& !r
                &&& final(self).images@ == old(self).images@
            },
            final(self).entry_seg == old(self).entry_seg,
            final(self).entry_off == old(self).entry_off,
            final(self).checkpoints@ == old(self).checkpoints@,
            final(self).patches@ == old(self).patches@,
    {
        if address > ADDRESS_SPACE || data.len() > ADDRESS_SPACE - address {
            return false;
        }
        self.images.push(RomImage { data, address, cycle_cost });
        true
    }

    /// Adds a checkpoint label.
    pub fn add_checkpoint(&mut self, addr: u32, label: String)
        requires
            rom_manager_wf(*old(self)),
        ensures
            rom_manager_wf(*final(self)),
            final(self).checkpoints@.len() == old(self).checkpoints@.len() + 1,
            final(self).checkpoints@.last().addr == addr,
            final(self).checkpoints@.last().label@ == label@,
            final(self).checkpoints@.drop_last() == old(self).checkpoints@,
            final(self).images@ == old(self).images@,
            final(self).patches@ == old(self).patches@,
            final(self).entry_seg == old(self).entry_seg,
            final(self).entry_off == old(self).entry_off,
    {
        self.checkpoints.push(RomCheckpoint { addr, label });
    }

    /// Adds a patch; a patch that would run past the end of the address
    /// space is refused.
    pub fn add_patch(&mut self, trigger: u32, address: usize, data: Vec<u8>) -> (r: bool)
        requires
            rom_manager_wf(*old(self)),
        ensures
            rom_manager_wf(*final(self)),
            address + data@.len() <= ADDRESS_SPACE ==> {
                &&& r
                &&& final(self).patches@.len() == old(self).patches@.len() + 1
                &&& final(self).patches@.last().trigger == trigger
                &&& final(self).patches@.last().address == address
                &&& final(self).patches@.last().data@ == data@
                &&& final(self).patches@.drop_last() == old(self).patches@
            },
            address + data@.len() > ADDRESS_SPACE ==> {
                &&& !r
                &&& final(self).patches@ == old(self).patches@
            },
            final(self).images@ == old(self).images@,
            final(self).checkpoints@ == old(self).checkpoints@,
            final(self).entry_seg == old(self).entry_seg,
            final(self).entry_off == old(self).entry_off,
    {
        if address > ADDRESS_SPACE || data.len() > ADDRESS_SPACE - address {
            return false;
        }
        self.patches.push(RomPatch { trigger, address, data });
        true
    }

    /// The reset entry point as a segment-offset pair.
    pub fn get_entrypoint(&self) -> (r: (u16, u16))
        ensures
            r == (self.entry_seg, self.entry_off),
    {
        (self.entry_seg, self.entry_off)
    }

    /// Stamps every image into the bus, read-only, in order.
    pub fn copy_into_memory(&self, bus: &mut BusInterface)
        requires
            rom_manager_wf(*self),
            old(bus).wf(),
        ensures
            final(bus).wf(),
            final(bus).mem() == spec_mem_after_images(old(bus).mem(), self.images@),
            final(bus).mask() == spec_mask_after_images(old(bus).mask(), self.images@),
            final(bus).descriptors() == spec_descs_after_images(
                old(bus).descriptors(),
                self.images@,
            ),
            final(bus).cur() == old(bus).cur(),
    {
        let mut i: usize = 0;
        while i < self.images.len()
            invariant
                rom_manager_wf(*self),
                bus.wf(),
                i <= self.images@.len(),
                bus.mem() == spec_mem_after_images(old(bus).mem(), self.images@.subrange(
                    0,
                    i as int,
                )),
                bus.mask() == spec_mask_after_images(old(bus).mask(), self.images@.subrange(
                    0,
                    i as int,
                )),
                bus.descriptors() == spec_descs_after_images(
                    old(bus).descriptors(),
                    self.images@.subrange(0, i as int),
                ),
                bus.cur() == old(bus).cur(),
            decreases self.images@.len() - i,
        {
            let ghost mid = *bus;
            let img = &self.images[i];
            proof {
                assert(self.images@[i as int].address + self.images@[i as int].data@.len()
                    <= ADDRESS_SPACE);
            }
            let _ = bus.copy_from(&img.data, img.address, img.cycle_cost, true);
            i = i + 1;
            proof {
                let prefix = self.images@.subrange(0, i as int);
                assert(prefix.drop_last() =~= self.images@.subrange(0, i - 1));
                assert(prefix.last() == self.images@[i - 1]);
                assert(bus.mem() =~= spec_overlay(
                    mid.mem(),
                    prefix.last().data@,
                    prefix.last().address as int,
                ));
                assert(bus.mask() =~= spec_mask_overlay(
                    mid.mask(),
                    prefix.last().data@.len() as int,
                    prefix.last().address as int,
                    spec_rom_mask_byte(prefix.last().cycle_cost),
                ));
                assert(bus.descriptors() =~= spec_descs_after_images(
                    old(bus).descriptors(),
                    prefix,
                ));
            }
        }
        proof {
            assert(self.images@.subrange(0, self.images@.len() as int) =~= self.images@);
        }
    }

    /// The label of the first checkpoint at `flat`, if any.
    pub fn get_checkpoint(&self, flat: u32) -> (r: Option<&String>)
        ensures
            r is None <==> spec_find_checkpoint(self.checkpoints@, flat) is None,
            r matches Some(s) ==> spec_find_checkpoint(self.checkpoints@, flat) == Some(s@),
    {
        let mut i: usize = 0;
        proof {
            assert(self.checkpoints@.subrange(0, self.checkpoints@.len() as int)
                =~= self.checkpoints@);
        }
        while i < self.checkpoints.len()
            invariant
                i <= self.checkpoints@.len(),
                spec_find_checkpoint(self.checkpoints@, flat) == spec_find_checkpoint(
                    self.checkpoints@.subrange(i as int, self.checkpoints@.len() as int),
                    flat,
                ),
            decreases self.checkpoints@.len() - i,
        {
            let ghost rest = self.checkpoints@.subrange(i as int, self.checkpoints@.len() as int);
            if self.checkpoints[i].addr == flat {
                return Some(&self.checkpoints[i].label);
            }
            i = i + 1;
            proof {
                assert(rest.subrange(1, rest.len() as int) =~= self.checkpoints@.subrange(
                    i as int,
                    self.checkpoints@.len() as int,
                ));
            }
        }
        proof {
            assert(self.checkpoints@.subrange(
                self.checkpoints@.len() as int,
                self.checkpoints@.len() as int,
            ) =~= Seq::<RomCheckpoint>::empty());
        }
        None
    }

    /// Whether `flat` is the trigger of any patch.
    pub fn is_patch_checkpoint(&self, flat: u32) -> (r: bool)
        ensures
            r == exists|i: int|
                0 <= i < self.patches@.len() && (#[trigger] self.patches@[i]).trigger == flat,
    {
        let mut i: usize = 0;
        while i < self.patches.len()
            invariant
                i <= self.patches@.len(),
                forall|j: int| 0 <= j < i ==> (#[trigger] self.patches@[j]).trigger != flat,
            decreases self.patches@.len() - i,
        {
            if self.patches[i].trigger == flat {
                return true;
            }
            i = i + 1;
        }
        false
    }

    /// Writes every patch into the bus, in order, ignoring ROM protection.
    pub fn install_patches(&self, bus: &mut BusInterface)
        requires
            rom_manager_wf(*self),
            old(bus).wf(),
        ensures
            final(bus).wf(),
            final(bus).mem() == spec_mem_after_patches(old(bus).mem(), self.patches@),
            final(bus).mask() == old(bus).mask(),
            final(bus).descriptors() == old(bus).descriptors(),
            final(bus).cur() == old(bus).cur(),
    {
        let mut i: usize = 0;
        while i < self.patches.len()
            invariant
                rom_manager_wf(*self),
                bus.wf(),
                i <= self.patches@.len(),
                bus.mem() == spec_mem_after_patches(old(bus).mem(), self.patches@.subrange(
                    0,
                    i as int,
                )),
                bus.mask() == old(bus).mask(),
                bus.descriptors() == old(bus).descriptors(),
                bus.cur() == old(bus).cur(),
            decreases self.patches@.len() - i,
        {
            let ghost mid = *bus;
            let patch = &self.patches[i];
            proof {
                assert(self.patches@[i as int].address + self.patches@[i as int].data@.len()
                    <= ADDRESS_SPACE);
            }
            let _ = bus.patch_from(&patch.data, patch.address);
            i = i + 1;
            proof {
                let prefix = self.patches@.subrange(0, i as int);
                assert(prefix.drop_last() =~= self.patches@.subrange(0, i - 1));
                assert(prefix.last() == self.patches@[i - 1]);
                assert(bus.mem() =~= spec_overlay(
                    mid.mem(),
                    prefix.last().data@,
                    prefix.last().address as int,
                ));
            }
        }
        proof {
            assert(self.patches@.subrange(0, self.patches@.len() as int) =~= self.patches@);
        }
    }
}

} // verus!

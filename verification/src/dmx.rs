//! DMX universes, addresses within them, and the maps that bind an attribute
//! to a renderer at a channel offset.

use vstd::prelude::*;
use crate::render::DmxAttributeRenderer;

verus! {

/// The number of channels in one universe.
pub const FRAME_LEN: usize = 512;

/// Where, within its device's slice of the frame, an attribute is written.
#[derive(Clone, Copy, Debug, PartialEq, Eq, Structural)]
pub enum DmxAddressOffset {
    DmxAddressOffsetSingle(usize),
}

/// Binds an attribute to a renderer at an offset within the device's slice
/// of the frame.
pub struct DmxMap {
    pub offset: DmxAddressOffset,
    pub renderer: DmxAttributeRenderer,
}

/// A logical DMX universe: one output frame of `FRAME_LEN` channels, shared
/// by every device patched into it and guarded by a single-writer flag.
pub struct DmxUniverse {
    pub id: u32,
    pub name: String,
    pub frame: [u8; FRAME_LEN],
    /// Set while a writer holds the frame.
    pub borrowed: bool,
}

/// Situates a device within a slice of a universe.
#[derive(Clone, Copy, Debug, PartialEq, Eq, Structural)]
pub struct DmxAddr {
    /// The id of the universe.
    pub universe: u32,
    /// The first channel of the slice.
    pub address: usize,
    /// The number of channels in the slice.
    pub length: usize,
}

/// A frame whose channels from `address` on are replaced by `window`.
pub open spec fn splice(frame: Seq<u8>, address: int, window: Seq<u8>) -> Seq<u8> {
    frame.subrange(0, address) + window + frame.subrange(address + window.len(), frame.len() as int)
}

impl DmxUniverse {
    /// A universe with all channels at zero and no writer.
    pub fn new(id: u32, name: String) -> (u: DmxUniverse)
        ensures
            u.id == id,
            u.name == name,
            !u.borrowed,
            forall|i: int| 0 <= i < FRAME_LEN ==> u.frame@[i] == 0,
    {
        DmxUniverse { id, name, frame: [0u8; FRAME_LEN], borrowed: false }
    }

    /// Gives the frame back after a write.
    pub fn release(&mut self)
        ensures
            !final(self).borrowed,
            final(self).id == old(self).id,
            final(self).name == old(self).name,
            final(self).frame == old(self).frame,
    {
        self.borrowed = false;
    }
}

impl DmxAddr {
    /// The slice lies within a frame.
    pub open spec fn fits(&self) -> bool {
        self.address + self.length <= FRAME_LEN
    }

    /// Tries to take the universe for writing, without waiting. Succeeds
    /// where `univ` is the universe of this address and no writer holds it;
    /// the universe is then held until it is released.
    pub fn try_get_univ_ref(&self, univ: &mut DmxUniverse) -> (acquired: bool)
        ensures
            acquired == (old(univ).id == self.universe && !old(univ).borrowed),
            final(univ).borrowed == (old(univ).borrowed || acquired),
            final(univ).id == old(univ).id,
            final(univ).name == old(univ).name,
            final(univ).frame == old(univ).frame,
    {
        if univ.id == self.universe && !univ.borrowed {
            univ.borrowed = true;
            true
        } else {
            false
        }
    }

    /// Extracts the slice of the frame that belongs to this address, so that
    /// a device cannot overwrite channels that are not its own. `None` where
    /// the slice does not lie within the frame.
    pub fn slice_universe(&self, univ: &DmxUniverse) -> (window: Option<Vec<u8>>)
        ensures
            window.is_some() == self.fits(),
            window matches Some(w) ==> w@ == univ.frame@.subrange(
                self.address as int,
                self.address + self.length,
            ),
    {
        if self.address > FRAME_LEN || self.length > FRAME_LEN - self.address {
            return None;
        }
        let mut w: Vec<u8> = Vec::new();
        let mut i: usize = 0;
        while i < self.length
            invariant
                i <= self.length,
                self.address + self.length <= FRAME_LEN,
                w@ == univ.frame@.subrange(self.address as int, self.address + i),
            decreases self.length - i,
        {
            w.push(univ.frame[self.address + i]);
            i += 1;
            assert(w@ =~= univ.frame@.subrange(self.address as int, self.address + i));
        }
        Some(w)
    }

    /// Writes a rendered slice back into the frame at this address.
    pub fn store_slice(&self, univ: &mut DmxUniverse, window: &Vec<u8>)
        requires
            self.fits(),
            window@.len() == self.length,
        ensures
            final(univ).frame@ == splice(old(univ).frame@, self.address as int, window@),
            final(univ).id == old(univ).id,
            final(univ).name == old(univ).name,
            final(univ).borrowed == old(univ).borrowed,
    {
        let mut i: usize = 0;
        while i < self.length
            invariant
                i <= self.length,
                self.address + self.length <= FRAME_LEN,
                window@.len() == self.length,
                univ.id == old(univ).id,
                univ.name == old(univ).name,
                univ.borrowed == old(univ).borrowed,
                forall|k: int|
                    0 <= k < FRAME_LEN ==> univ.frame@[k] == (if self.address <= k < self.address
                        + i {
                        window@[k - self.address]
                    } else {
                        old(univ).frame@[k]
                    }),
            decreases self.length - i,
        {
            univ.frame[self.address + i] = window[i];
            i += 1;
        }
        assert(univ.frame@ =~= splice(old(univ).frame@, self.address as int, window@));
    }
}

} // verus!

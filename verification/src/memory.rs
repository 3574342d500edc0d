//! The program-image input: a mapping from section identifiers to raw
//! bytes, produced by an external image parser. The core loads only the
//! primary section.

use std::collections::HashMap;
use vstd::prelude::*;

verus! {

broadcast use vstd::std_specs::hash::group_hash_axioms;

/// The section identifier whose bytes the loader places at address 0.
pub const PRIMARY_SECTION: u16 = 0;

/// A loadable program image: raw bytes keyed by section identifier.
pub struct MemoryRepr {
    pub sections: HashMap<u16, Vec<u8>>,
}

impl MemoryRepr {
    /// An image with no sections at all.
    pub fn new() -> (r: MemoryRepr)
        ensures
            r.sections@ == Map::<u16, Vec<u8>>::empty(),
    {
        MemoryRepr { sections: HashMap::new() }
    }

    /// Add or replace one section's bytes.
    pub fn set_section(&mut self, id: u16, data: Vec<u8>)
        ensures
            final(self).sections@ == old(self).sections@.insert(id, data),
    {
        self.sections.insert(id, data);
    }

    /// The bytes of the primary section, if the image has one.
    pub fn primary(&self) -> (r: Option<&Vec<u8>>)
        ensures
            match r {
                Some(data) => self.sections@.contains_key(PRIMARY_SECTION) && data
                    == self.sections@[PRIMARY_SECTION],
                None => !self.sections@.contains_key(PRIMARY_SECTION),
            },
    {
        self.sections.get(&PRIMARY_SECTION)
    }
}

} // verus!

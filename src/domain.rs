//! The domain model. This module holds a plain catalogue listing, where a pet
//! is simply available or not; [`pet`] holds the full sale lifecycle and
//! [`user`] the accounts.
pub mod pet;
pub mod user;

use vstd::prelude::*;

verus! {

/// Whether a catalogue listing can be adopted.
#[derive(Debug, PartialEq, Eq, Structural, Clone, Copy)]
pub enum PetStatus {
    Available,
    Unavailable,
}

/// A key/value annotation attached to a listing.
#[derive(Debug, PartialEq, Eq, Clone)]
pub struct PetTag(pub String, pub String);

/// A catalogue listing of a pet.
#[derive(Debug, PartialEq, Eq)]
pub struct Pet {
    pub id: i64,
    pub name: String,
    pub status: PetStatus,
    pub category: String,
    pub tags: Vec<PetTag>,
}

impl Pet {
    /// Returns true exactly when the listing is `Available`.
    pub fn is_available(&self) -> (r: bool)
        ensures
            r == (self.status == PetStatus::Available),
    {
        self.status == PetStatus::Available
    }

    /// Appends a copy of `tag` after the existing tags; nothing else changes.
    pub fn tag(&mut self, tag: &PetTag)
        ensures
            final(self).tags@ == old(self).tags@.push(*tag),
            final(self).id == old(self).id,
            final(self).name == old(self).name,
            final(self).status == old(self).status,
            final(self).category == old(self).category,
    {
        let copy = PetTag(tag.0.clone(), tag.1.clone());
        self.tags.push(copy);
    }
}

} // verus!

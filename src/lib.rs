//! A small pet-store domain model: pets that can be tagged and sold, and
//! users whose session operations are guarded by their account status.
pub mod domain;

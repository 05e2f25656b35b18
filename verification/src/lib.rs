//! A pull-based cursor over a paginated object listing.
//!
//! The cursor hands out the entries of a listing one at a time. It never talks
//! to the storage service itself: when its buffer has run dry it names the
//! request that has to be sent, and it is told afterwards what came back.

pub mod listing;
pub mod cursor;
pub mod laws;

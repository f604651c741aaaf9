//! Human-friendly, collision-free default names for the objects of an ISOBUS
//! virtual-terminal object pool.
//!
//! Two pieces:
//! - a total registry mapping each [`kind::ObjectKind`] to a canonical display
//!   label (`registry`), and
//! - a pure generator that derives a default name for a new object which is
//!   guaranteed not to collide with any name already in use (`generator`).

pub mod decimal;
pub mod generator;
pub mod kind;
pub mod registry;
pub mod table;

use vstd::prelude::*;

verus! {

/// Ceiling on the number of objects in one pool: object identifiers are
/// 16-bit. The ceiling belongs to the surrounding identifier allocator;
/// the naming functions themselves do not enforce it.
pub const MAX_OBJECTS: u32 = 65535;

} // verus!

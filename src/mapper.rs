//! Cartridge mappers.

use vstd::prelude::*;

verus! {

/// A cartridge mapper: places a cartridge's program and character data in the console's
/// address spaces and switches its banks. Each cartridge board implements it; the processor
/// itself only ever sees a flat address space.
pub trait Mapper {}

} // verus!

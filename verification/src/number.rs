//! Numbers with a fractional part, as they travel through the library. The
//! library never computes with them: it carries their bit patterns from the
//! answer of the service to the caller.

use vstd::prelude::*;

verus! {

/// A single-precision number, held as its IEEE 754 bit pattern.
#[derive(Clone, Copy, Debug, PartialEq, Eq, Hash, Structural)]
pub struct SingleBits(pub u32);

/// A double-precision number, held as its IEEE 754 bit pattern.
#[derive(Clone, Copy, Debug, PartialEq, Eq, Hash, Structural)]
pub struct DoubleBits(pub u64);

} // verus!

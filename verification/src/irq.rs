//! Interrupt entry points.

use vstd::prelude::*;

verus! {

/// Handler for the quad-SPI interrupt line. Neither the converter driver nor
/// the timer uses interrupts, so the handler does no work; it exists so that
/// the vector table has an entry to point at.
#[allow(non_snake_case)]
pub fn QUADSPI() {
}

} // verus!

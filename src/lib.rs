//! Telemetry primitives: a gauge that remembers the range of values it held
//! between reads, and a per-context stack of "current" values.

use vstd::prelude::*;

pub mod context;
pub mod gauge;
pub mod range;

verus! {

} // verus!

use vstd::prelude::*;

verus! {

/// Why building an engine part failed.
#[derive(Clone, Copy, Debug, PartialEq, Eq, Structural)]
pub enum Error {
    /// A random choice was asked of an empty pool.
    Rng,
}

} // verus!

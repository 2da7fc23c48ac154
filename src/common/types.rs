use vstd::prelude::*;

verus! {

/// Name-table mirroring selected by the cartridge header.
#[derive(Debug, Clone, Copy, PartialEq, Eq, Structural)]
pub enum Mirroring {
    Horizontal,
    Vertical,
    FourScreen,
}

} // verus!

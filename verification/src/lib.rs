use vstd::prelude::*;

pub mod input;
pub mod layout;
pub mod pipeline;
pub mod tape;

verus! {

/// Why a request to the visualizer was refused.
#[derive(Clone, Copy, PartialEq, Eq, Structural, Debug)]
pub enum VisError {
    /// A tape was declared with no cells.
    ZeroCellCount,
    /// A declared frame geometry (width, height, framerate) is unusable.
    InvalidGeometry,
    /// A pointer move would have left the tape bounds.
    OutOfRange,
}

} // verus!

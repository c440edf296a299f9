use vstd::prelude::*;

verus! {

/// The failures that the storage stack reports to its callers.
#[derive(Debug, Clone, Copy, PartialEq, Eq, Structural)]
pub enum DiskError {
    /// A sector buffer whose length is not one sector.
    InvalidBufferSize,
    /// An address or extent outside the device or region.
    OutOfRange,
    /// The device cannot hold the reserved regions and the minimum partition.
    InsufficientCapacity,
    /// No partition with the requested name.
    PartitionNotFound,
    /// The region is smaller than the filesystem's minimum size.
    VolumeTooSmall,
    /// An error of the underlying storage medium.
    IoFailure,
}

} // verus!

//! The storage medium behind a file, and what it asks of a wipe.

use vstd::prelude::*;

pub mod detector;

verus! {

/// The class of block device that holds a file.
#[derive(Debug, Clone, Copy, PartialEq, Eq, Structural)]
pub enum StorageType {
    /// A rotational disk with its logical block size in bytes.
    HDD { block_size: usize },
    SSD { trim_support: bool },
    /// An NVMe device with its optimal I/O size in bytes.
    NVMe { optimal_io_size: usize },
    Unknown,
}

impl StorageType {
    /// The size in bytes at which sequential writes suit the medium best.
    pub open spec fn optimal_block_size(self) -> usize {
        match self {
            StorageType::HDD { block_size } => block_size,
            StorageType::SSD { .. } => 4096,
            StorageType::NVMe { optimal_io_size } => optimal_io_size,
            StorageType::Unknown => 4096,
        }
    }

    /// The number of passes the medium asks for by itself.
    pub open spec fn wipe_passes(self) -> usize {
        match self {
            StorageType::HDD { .. } => 3,
            StorageType::SSD { .. } => 1,
            StorageType::NVMe { .. } => 1,
            StorageType::Unknown => 3,
        }
    }

    pub fn get_optimal_block_size(&self) -> (size: usize)
        ensures
            size == self.optimal_block_size(),
    {
        match self {
            StorageType::HDD { block_size } => *block_size,
            StorageType::SSD { .. } => 4096,
            StorageType::NVMe { optimal_io_size } => *optimal_io_size,
            StorageType::Unknown => 4096,
        }
    }

    pub fn get_wipe_passes(&self) -> (passes: usize)
        ensures
            passes == self.wipe_passes(),
    {
        match self {
            StorageType::HDD { .. } => 3,
            StorageType::SSD { .. } => 1,
            StorageType::NVMe { .. } => 1,
            StorageType::Unknown => 3,
        }
    }

    /// Whether the device is flash and could erase itself on command.
    pub fn supports_secure_erase(&self) -> (flash: bool)
        ensures
            flash == (self is SSD || self is NVMe),
    {
        match self {
            StorageType::SSD { .. } => true,
            StorageType::NVMe { .. } => true,
            _ => false,
        }
    }
}

} // verus!

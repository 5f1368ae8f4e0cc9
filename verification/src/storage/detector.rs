//! Finding the class of the block device behind a path.
//!
//! The caller examines the path and reads the attribute files of the
//! device; what they mean is decided here.

use vstd::prelude::*;
use vstd::string::StrSliceExecFns;
use vstd::string::StringExecFns;
use super::StorageType;
use crate::io::run::WipeError;
use crate::text::decimal;
use crate::text::parse_unsigned;
use crate::text::same_text;
use crate::text::starts_with;
use crate::text::to_decimal;
use crate::text::trimmed;
use crate::text::unsigned_value;
use crate::text::begins_with;

verus! {

/// The block size of a rotational disk that reports none.
pub const DEFAULT_LOGICAL_BLOCK_SIZE: usize = 512;

/// The I/O size of an NVMe device that reports none.
pub const DEFAULT_OPTIMAL_IO_SIZE: usize = 4096;

/// The major number of SCSI and SATA disks.
pub const SCSI_DISK_MAJOR: u64 = 8;

/// The major number under which NVMe namespaces appear.
pub const NVME_MAJOR: u64 = 259;

/// What the files under the `queue` directory of a block device held when
/// they were read; `None` for a file that could not be read.
pub struct SysfsQueue {
    pub rotational: Option<Vec<u8>>,
    pub logical_block_size: Option<Vec<u8>>,
    pub optimal_io_size: Option<Vec<u8>>,
    pub discard_granularity: Option<Vec<u8>>,
}

/// An attribute file of a block device.
#[derive(Debug, Clone, Copy, PartialEq, Eq, Structural)]
pub enum QueueAttribute {
    Rotational,
    LogicalBlockSize,
    OptimalIoSize,
    DiscardGranularity,
}

/// The number that an attribute file holds, if it could be read and holds
/// one that fits a `usize`.
pub open spec fn sys_value(content: Option<Vec<u8>>) -> Option<usize> {
    match content {
        Some(bytes) => match unsigned_value(trimmed(bytes@)) {
            Some(number) => if number <= usize::MAX {
                Some(number as usize)
            } else {
                None
            },
            None => None,
        },
        None => None,
    }
}

/// The number in `value`, or `default` where there is none.
pub open spec fn value_or(value: Option<usize>, default: usize) -> usize {
    match value {
        Some(number) => number,
        None => default,
    }
}

/// The major part of a device number.
pub open spec fn major_of(dev: u64) -> u64 {
    ((dev / 256) % 256) as u64
}

/// The minor part of a device number.
pub open spec fn minor_of(dev: u64) -> u64 {
    (dev % 256) as u64
}

/// The letters that number the disks of one kind.
pub open spec fn disk_letters() -> Seq<char> {
    "abcdefghijklmnopqrstuvwxyz"@
}

/// The name under which the kernel lists the device with these numbers:
/// `sd` and a letter for a SCSI or SATA disk, sixteen minor numbers to a
/// disk; `nvme`, a controller, `n` and a namespace for NVMe, two minor
/// numbers to a controller; `unknown` for every other device.
pub open spec fn device_name_of(major: u64, minor: u64) -> Seq<char> {
    if major == SCSI_DISK_MAJOR && minor / 16 < 26 {
        "sd"@ + seq![disk_letters()[(minor / 16) as int]]
    } else if major == NVME_MAJOR {
        "nvme"@ + decimal((minor / 2) as nat) + "n"@ + decimal((minor % 2 + 1) as nat)
    } else {
        "unknown"@
    }
}

/// The class of the device `device`, given its attribute files. A missing
/// or unreadable attribute counts as its default: rotational, 512-byte
/// blocks, an I/O size of 4096, no discard.
pub open spec fn storage_of(device: Seq<char>, queue: SysfsQueue) -> StorageType {
    if device == "unknown"@ {
        StorageType::Unknown
    } else if begins_with(device, "nvme"@) {
        StorageType::NVMe {
            optimal_io_size: value_or(sys_value(queue.optimal_io_size), DEFAULT_OPTIMAL_IO_SIZE),
        }
    } else if value_or(sys_value(queue.rotational), 1) == 1 {
        StorageType::HDD {
            block_size: value_or(sys_value(queue.logical_block_size), DEFAULT_LOGICAL_BLOCK_SIZE),
        }
    } else {
        StorageType::SSD { trim_support: value_or(sys_value(queue.discard_granularity), 0) > 0 }
    }
}

/// Splits a device number into its major and minor part.
pub fn split_device_number(dev: u64) -> (parts: (u64, u64))
    ensures
        parts.0 == major_of(dev),
        parts.1 == minor_of(dev),
{
    ((dev / 256) % 256, dev % 256)
}

/// The name under which the kernel lists a device.
pub fn device_name(major: u64, minor: u64) -> (name: String)
    ensures
        name@ == device_name_of(major, minor),
{
    if major == SCSI_DISK_MAJOR && minor / 16 < 26 {
        let letters: &'static str = "abcdefghijklmnopqrstuvwxyz";
        proof {
            reveal_strlit("abcdefghijklmnopqrstuvwxyz");
        }
        let index = (minor / 16) as usize;
        let letter = letters.substring_ascii(index, index + 1);
        assert(letter@ =~= seq![disk_letters()[index as int]]);
        let mut name = String::from_str("sd");
        name.append(letter);
        name
    } else if major == NVME_MAJOR {
        let mut name = String::from_str("nvme");
        name.append(to_decimal(minor / 2).as_str());
        name.append("n");
        name.append(to_decimal(minor % 2 + 1).as_str());
        name
    } else {
        String::from_str("unknown")
    }
}

/// The name of the device that a path lies on. `dev` is the device number
/// of the path, or `None` where the path could not be examined, which is
/// a path error.
pub fn get_device_for_path(dev: Option<u64>) -> (device: Result<String, WipeError>)
    ensures
        dev is None ==> device is Err && device->Err_0 == WipeError::PathError,
        dev matches Some(number) ==> device is Ok && device->Ok_0@ == device_name_of(
            major_of(number),
            minor_of(number),
        ),
{
    match dev {
        None => Err(WipeError::PathError),
        Some(number) => {
            let (major, minor) = split_device_number(number);
            Ok(device_name(major, minor))
        },
    }
}

/// The file name of an attribute.
pub open spec fn attribute_name(attribute: QueueAttribute) -> Seq<char> {
    match attribute {
        QueueAttribute::Rotational => "rotational"@,
        QueueAttribute::LogicalBlockSize => "logical_block_size"@,
        QueueAttribute::OptimalIoSize => "optimal_io_size"@,
        QueueAttribute::DiscardGranularity => "discard_granularity"@,
    }
}

/// The path of an attribute file of a device.
pub fn queue_attribute_path(device: &str, attribute: QueueAttribute) -> (path: String)
    ensures
        path@ == "/sys/block/"@ + device@ + "/queue/"@ + attribute_name(attribute),
{
    let mut path = String::from_str("/sys/block/");
    path.append(device);
    path.append("/queue/");
    match attribute {
        QueueAttribute::Rotational => path.append("rotational"),
        QueueAttribute::LogicalBlockSize => path.append("logical_block_size"),
        QueueAttribute::OptimalIoSize => path.append("optimal_io_size"),
        QueueAttribute::DiscardGranularity => path.append("discard_granularity"),
    }
    path
}

/// The number that an attribute file holds.
pub fn read_sys_value(content: &Option<Vec<u8>>) -> (value: Option<usize>)
    ensures
        value == sys_value(*content),
{
    match content {
        Some(bytes) => parse_unsigned(bytes.as_slice()),
        None => None,
    }
}

/// Whether the device takes discard requests: its discard granularity is
/// above zero.
pub fn check_trim_support(queue: &SysfsQueue) -> (trim: bool)
    ensures
        trim == (value_or(sys_value(queue.discard_granularity), 0) > 0),
{
    match read_sys_value(&queue.discard_granularity) {
        Some(granularity) => granularity > 0,
        None => false,
    }
}

/// Classifies a device by its name and its attribute files.
pub fn detect_storage_for_device(device: &str, queue: &SysfsQueue) -> (storage: StorageType)
    ensures
        storage == storage_of(device@, *queue),
{
    if same_text(device, "unknown") {
        return StorageType::Unknown;
    }
    if starts_with(device, "nvme") {
        let optimal_io_size = match read_sys_value(&queue.optimal_io_size) {
            Some(size) => size,
            None => DEFAULT_OPTIMAL_IO_SIZE,
        };
        return StorageType::NVMe { optimal_io_size };
    }
    let rotational = match read_sys_value(&queue.rotational) {
        Some(flag) => flag == 1,
        None => true,
    };
    if rotational {
        let block_size = match read_sys_value(&queue.logical_block_size) {
            Some(size) => size,
            None => DEFAULT_LOGICAL_BLOCK_SIZE,
        };
        StorageType::HDD { block_size }
    } else {
        StorageType::SSD { trim_support: check_trim_support(queue) }
    }
}

/// Classifies the device behind a path. `dev` is the device number of the
/// path, or `None` where the path could not be examined; `queue` holds the
/// attribute files of the device that `get_device_for_path` names for it.
pub fn detect_storage_type(dev: Option<u64>, queue: &SysfsQueue) -> (storage: Result<
    StorageType,
    WipeError,
>)
    ensures
        dev is None ==> storage is Err && storage->Err_0 == WipeError::PathError,
        dev matches Some(number) ==> storage is Ok && storage->Ok_0 == storage_of(
            device_name_of(major_of(number), minor_of(number)),
            *queue,
        ),
{
    match get_device_for_path(dev) {
        Ok(device) => Ok(detect_storage_for_device(device.as_str(), queue)),
        Err(error) => Err(error),
    }
}

/// Probing is repeatable: two probes of the same device that read the same
/// attribute files give the same class.
pub proof fn lemma_storage_probe_is_repeatable(
    device: Seq<char>,
    queue: SysfsQueue,
    first: StorageType,
    second: StorageType,
)
    requires
        first == storage_of(device, queue),
        second == storage_of(device, queue),
    ensures
        first == second,
{
}

} // verus!

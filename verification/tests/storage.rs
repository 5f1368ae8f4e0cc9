use amaterasu::io::run::WipeError;
use amaterasu::storage::detector::check_trim_support;
use amaterasu::storage::detector::detect_storage_for_device;
use amaterasu::storage::detector::detect_storage_type;
use amaterasu::storage::detector::device_name;
use amaterasu::storage::detector::queue_attribute_path;
use amaterasu::storage::detector::read_sys_value;
use amaterasu::storage::detector::split_device_number;
use amaterasu::storage::detector::get_device_for_path;
use amaterasu::storage::detector::QueueAttribute;
use amaterasu::storage::detector::SysfsQueue;
use amaterasu::storage::StorageType;
use amaterasu::text::parse_unsigned;
use amaterasu::text::to_decimal;

fn queue(
    rotational: Option<&str>,
    logical_block_size: Option<&str>,
    optimal_io_size: Option<&str>,
    discard_granularity: Option<&str>,
) -> SysfsQueue {
    SysfsQueue {
        rotational: rotational.map(|s| s.as_bytes().to_vec()),
        logical_block_size: logical_block_size.map(|s| s.as_bytes().to_vec()),
        optimal_io_size: optimal_io_size.map(|s| s.as_bytes().to_vec()),
        discard_granularity: discard_granularity.map(|s| s.as_bytes().to_vec()),
    }
}

#[test]
fn test_device_detection() {
    let storage_type = detect_storage_for_device("sda", &queue(None, None, None, None));
    println!("Storage type: {:?}", storage_type);
}

#[test]
fn unreadable_attributes_fall_back_to_defaults() {
    assert_eq!(
        detect_storage_for_device("sda", &queue(None, None, None, None)),
        StorageType::HDD { block_size: 512 }
    );
    assert_eq!(
        detect_storage_for_device("nvme0n1", &queue(None, None, None, None)),
        StorageType::NVMe { optimal_io_size: 4096 }
    );
    assert_eq!(
        detect_storage_for_device("sda", &queue(Some("0\n"), None, None, None)),
        StorageType::SSD { trim_support: false }
    );
    assert_eq!(
        detect_storage_for_device("sda", &queue(Some("junk"), Some("junk"), None, None)),
        StorageType::HDD { block_size: 512 }
    );
}

#[test]
fn attributes_decide_the_class() {
    assert_eq!(
        detect_storage_for_device("sdb", &queue(Some("1\n"), Some("4096\n"), None, None)),
        StorageType::HDD { block_size: 4096 }
    );
    assert_eq!(
        detect_storage_for_device("sdb", &queue(Some("0\n"), Some("512\n"), None, Some("512\n"))),
        StorageType::SSD { trim_support: true }
    );
    assert_eq!(
        detect_storage_for_device("sdb", &queue(Some("0\n"), None, None, Some("0\n"))),
        StorageType::SSD { trim_support: false }
    );
    assert_eq!(
        detect_storage_for_device("nvme1n2", &queue(Some("0\n"), None, Some("131072\n"), None)),
        StorageType::NVMe { optimal_io_size: 131072 }
    );
    assert_eq!(
        detect_storage_for_device("unknown", &queue(Some("0\n"), None, None, Some("512\n"))),
        StorageType::Unknown
    );
    assert_eq!(
        detect_storage_for_device("sdb", &queue(Some("2\n"), None, None, Some("512\n"))),
        StorageType::SSD { trim_support: true }
    );
}

#[test]
fn probes_are_repeatable() {
    let attributes = queue(Some("0\n"), Some("512\n"), None, Some("4096\n"));
    let first = detect_storage_for_device("sdc", &attributes);
    let second = detect_storage_for_device("sdc", &attributes);
    assert_eq!(first, second);
    assert_eq!(
        detect_storage_type(Some(0x0810), &attributes),
        detect_storage_type(Some(0x0810), &attributes)
    );
}

#[test]
fn failure_to_examine_the_path_is_fatal() {
    let attributes = queue(None, None, None, None);
    assert_eq!(detect_storage_type(None, &attributes), Err(WipeError::PathError));
    assert_eq!(get_device_for_path(None), Err(WipeError::PathError));
    assert_eq!(
        detect_storage_type(Some(0x0800), &attributes),
        Ok(StorageType::HDD { block_size: 512 })
    );
    assert_eq!(detect_storage_type(Some(0x0300), &attributes), Ok(StorageType::Unknown));
}

#[test]
fn device_numbers_split_into_major_and_minor() {
    assert_eq!(split_device_number(0x0811), (8, 0x11));
    assert_eq!(split_device_number(0), (0, 0));
    assert_eq!(split_device_number(0xfd03), (0xfd, 3));
    assert_eq!(split_device_number(0x1_0305), (3, 5));
    assert_eq!(split_device_number(u64::MAX), (255, 255));
}

#[test]
fn devices_are_named_as_the_kernel_names_them() {
    assert_eq!(device_name(8, 0), "sda");
    assert_eq!(device_name(8, 15), "sda");
    assert_eq!(device_name(8, 16), "sdb");
    assert_eq!(device_name(8, 255), "sdp");
    assert_eq!(device_name(8, 415), "sdz");
    assert_eq!(device_name(8, 416), "unknown");
    assert_eq!(device_name(259, 0), "nvme0n1");
    assert_eq!(device_name(259, 1), "nvme0n2");
    assert_eq!(device_name(259, 5), "nvme2n2");
    assert_eq!(device_name(259, 246), "nvme123n1");
    assert_eq!(device_name(7, 0), "unknown");
    assert_eq!(get_device_for_path(Some(0x0821)), Ok("sdc".to_string()));
    assert_eq!(get_device_for_path(Some(0xfe00)), Ok("unknown".to_string()));
}

#[test]
fn attribute_paths() {
    assert_eq!(
        queue_attribute_path("sda", QueueAttribute::Rotational),
        "/sys/block/sda/queue/rotational"
    );
    assert_eq!(
        queue_attribute_path("sda", QueueAttribute::LogicalBlockSize),
        "/sys/block/sda/queue/logical_block_size"
    );
    assert_eq!(
        queue_attribute_path("nvme0n1", QueueAttribute::OptimalIoSize),
        "/sys/block/nvme0n1/queue/optimal_io_size"
    );
    assert_eq!(
        queue_attribute_path("sdb", QueueAttribute::DiscardGranularity),
        "/sys/block/sdb/queue/discard_granularity"
    );
}

#[test]
fn attribute_values_are_trimmed_numbers() {
    assert_eq!(read_sys_value(&Some(b"4096\n".to_vec())), Some(4096));
    assert_eq!(read_sys_value(&Some(b"  17\t\n".to_vec())), Some(17));
    assert_eq!(read_sys_value(&Some(b"+5".to_vec())), Some(5));
    assert_eq!(read_sys_value(&Some(b"007".to_vec())), Some(7));
    assert_eq!(read_sys_value(&Some(b"".to_vec())), None);
    assert_eq!(read_sys_value(&Some(b"\n".to_vec())), None);
    assert_eq!(read_sys_value(&Some(b"+".to_vec())), None);
    assert_eq!(read_sys_value(&Some(b"-1".to_vec())), None);
    assert_eq!(read_sys_value(&Some(b"12 3".to_vec())), None);
    assert_eq!(read_sys_value(&Some(b"0x10".to_vec())), None);
    assert_eq!(read_sys_value(&None), None);
    assert!(check_trim_support(&queue(None, None, None, Some("1"))));
    assert!(!check_trim_support(&queue(None, None, None, Some("0"))));
    assert!(!check_trim_support(&queue(None, None, None, None)));
}

#[test]
fn numbers_that_do_not_fit_are_none() {
    let largest = usize::MAX.to_string();
    assert_eq!(parse_unsigned(largest.as_bytes()), Some(usize::MAX));
    let too_large = format!("{}0", largest);
    assert_eq!(parse_unsigned(too_large.as_bytes()), None);
    assert_eq!(parse_unsigned(b"99999999999999999999999999999"), None);
    assert_eq!(parse_unsigned(b"0"), Some(0));
}

#[test]
fn numbers_are_written_in_decimal() {
    assert_eq!(to_decimal(0), "0");
    assert_eq!(to_decimal(9), "9");
    assert_eq!(to_decimal(10), "10");
    assert_eq!(to_decimal(4096), "4096");
    assert_eq!(to_decimal(u64::MAX), "18446744073709551615");
}

#[test]
fn what_a_medium_asks_for() {
    let hdd = StorageType::HDD { block_size: 512 };
    let ssd = StorageType::SSD { trim_support: true };
    let nvme = StorageType::NVMe { optimal_io_size: 8192 };
    let unknown = StorageType::Unknown;
    assert_eq!(hdd.get_optimal_block_size(), 512);
    assert_eq!(ssd.get_optimal_block_size(), 4096);
    assert_eq!(nvme.get_optimal_block_size(), 8192);
    assert_eq!(unknown.get_optimal_block_size(), 4096);
    assert_eq!(hdd.get_wipe_passes(), 3);
    assert_eq!(ssd.get_wipe_passes(), 1);
    assert_eq!(nvme.get_wipe_passes(), 1);
    assert_eq!(unknown.get_wipe_passes(), 3);
    assert!(!hdd.supports_secure_erase());
    assert!(ssd.supports_secure_erase());
    assert!(nvme.supports_secure_erase());
    assert!(!unknown.supports_secure_erase());
}

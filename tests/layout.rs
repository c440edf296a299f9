use disk_stack::error::DiskError;
use disk_stack::layout::{
    capacity_of, effective_len, partition_sectors, protective_mbr_size, sector_byte_offset, sectors_in,
    MIN_DEVICE_SECTORS,
};

#[test]
fn sector_arithmetic() {
    assert_eq!(sectors_in(64 * 1024 * 1024), 131072);
    assert_eq!(sectors_in(1023), 1);
    assert_eq!(sector_byte_offset(3), 1536);
}

#[test]
fn empty_store_grows_to_default() {
    assert_eq!(effective_len(0, 1024 * 1024), 1024 * 1024);
    assert_eq!(effective_len(4096, 1024 * 1024), 4096);
}

#[test]
fn protective_size_is_saturated() {
    assert_eq!(protective_mbr_size(131072), 131071);
    assert_eq!(protective_mbr_size(0), 0);
    assert_eq!(protective_mbr_size(1u64 << 40), 0xFFFF_FFFF);
    assert_eq!(protective_mbr_size(0x1_0000_0000), 0xFFFF_FFFF);
}

#[test]
fn partition_size_on_large_device() {
    assert_eq!(partition_sectors(131072), Ok(131072 - 34 - 33 - 2048));
}

#[test]
fn partition_size_floor_on_small_device() {
    assert_eq!(partition_sectors(2000), Ok(1024));
    assert_eq!(partition_sectors(MIN_DEVICE_SECTORS), Ok(1024));
}

#[test]
fn device_too_small_is_rejected() {
    assert_eq!(partition_sectors(MIN_DEVICE_SECTORS - 1), Err(DiskError::InsufficientCapacity));
    assert_eq!(partition_sectors(66), Err(DiskError::InsufficientCapacity));
    assert_eq!(partition_sectors(0), Err(DiskError::InsufficientCapacity));
}

#[test]
fn capacity_is_rounded_to_whole_sectors() {
    assert_eq!(capacity_of(1024 * 1024), 1024 * 1024);
    assert_eq!(capacity_of(1535), 1024);
    assert_eq!(capacity_of(511), 0);
}

use vstd::prelude::*;

use crate::error::DiskError;

verus! {

/// Bytes in one sector.
pub const SECTOR_SIZE: u64 = 512;

/// Sectors that the partition table reserves at the head of the device
/// (boot record, table header and entry array).
pub const HEAD_RESERVED: u64 = 34;

/// Sectors that the partition table reserves at the tail of the device
/// (backup entry array and backup header).
pub const TAIL_RESERVED: u64 = 33;

/// Sectors left unallocated after the data partition.
pub const SAFETY_MARGIN: u64 = 2048;

/// The smallest data partition, in sectors.
pub const MIN_PARTITION_SECTORS: u64 = 1024;

/// The smallest device on which a table is built: the reserved regions
/// plus the minimum partition.
pub const MIN_DEVICE_SECTORS: u64 = HEAD_RESERVED + TAIL_RESERVED + MIN_PARTITION_SECTORS;

/// The largest sector count that a legacy boot record can declare.
pub const LEGACY_MAX_SECTORS: u32 = 0xFFFF_FFFF;

/// `a - b`, or zero where `b` is larger.
pub open spec fn sat_sub(a: int, b: int) -> int {
    if a >= b { a - b } else { 0 }
}

/// Sectors given to the data partition on a device of `n` sectors.
pub open spec fn usable_sectors(n: int) -> int {
    let computed = sat_sub(n, HEAD_RESERVED + TAIL_RESERVED + SAFETY_MARGIN);
    if computed >= MIN_PARTITION_SECTORS { computed } else { MIN_PARTITION_SECTORS as int }
}

/// Whether a table with its minimum partition fits on a device of `n` sectors.
pub open spec fn table_fits(n: int) -> bool {
    n >= HEAD_RESERVED + TAIL_RESERVED + MIN_PARTITION_SECTORS
}

/// The size that the protective boot record declares for a device of `n`
/// sectors: every sector after the first, saturated to the legacy maximum.
pub open spec fn legacy_sector_count(n: int) -> int {
    let rest = sat_sub(n, 1);
    if rest <= LEGACY_MAX_SECTORS { rest } else { LEGACY_MAX_SECTORS as int }
}

/// On a device that can hold a table, the data partition has at least the
/// minimum size and fits between the reserved head and tail, so it never
/// describes space that the device lacks.
pub proof fn lemma_partition_fits(n: int)
    requires
        table_fits(n),
    ensures
        usable_sectors(n) >= MIN_PARTITION_SECTORS,
        HEAD_RESERVED + usable_sectors(n) + TAIL_RESERVED <= n,
{
}

/// Whole sectors in `bytes` bytes.
pub fn sectors_in(bytes: u64) -> (r: u64)
    ensures
        r == bytes / SECTOR_SIZE,
{
    bytes / SECTOR_SIZE
}

/// The capacity of a backing store of `bytes` bytes: its length rounded
/// down to a whole sector.
pub fn capacity_of(bytes: u64) -> (r: u64)
    ensures
        r == bytes / SECTOR_SIZE * SECTOR_SIZE,
        r % SECTOR_SIZE == 0,
        r <= bytes,
        bytes - r < SECTOR_SIZE,
{
    let r = bytes / SECTOR_SIZE * SECTOR_SIZE;
    assert(r % SECTOR_SIZE == 0) by (nonlinear_arith)
        requires
            r == bytes / SECTOR_SIZE * SECTOR_SIZE,
    ;
    r
}

/// Byte offset of sector `lba` from the start of the device.
pub fn sector_byte_offset(lba: u64) -> (r: u64)
    requires
        lba * SECTOR_SIZE <= u64::MAX,
    ensures
        r == lba * SECTOR_SIZE,
{
    lba * SECTOR_SIZE
}

/// The length of a backing store once opened: an empty one is grown to
/// `default_len`, any other keeps its length.
pub fn effective_len(current: u64, default_len: u64) -> (r: u64)
    ensures
        current == 0 ==> r == default_len,
        current != 0 ==> r == current,
{
    if current == 0 { default_len } else { current }
}

/// Sector count declared by the protective boot record of a device of
/// `num_sectors` sectors.
pub fn protective_mbr_size(num_sectors: u64) -> (r: u32)
    ensures
        r == legacy_sector_count(num_sectors as int),
{
    let rest = num_sectors.saturating_sub(1);
    if rest <= LEGACY_MAX_SECTORS as u64 {
        rest as u32
    } else {
        LEGACY_MAX_SECTORS
    }
}

/// Size in sectors of the data partition on a device of `num_sectors`
/// sectors; fails where the reserved regions and the minimum partition do
/// not fit.
pub fn partition_sectors(num_sectors: u64) -> (r: Result<u64, DiskError>)
    ensures
        r is Ok <==> table_fits(num_sectors as int),
        r is Ok ==> r->Ok_0 == usable_sectors(num_sectors as int),
        r is Err ==> r->Err_0 == DiskError::InsufficientCapacity,
{
    if num_sectors < MIN_DEVICE_SECTORS {
        return Err(DiskError::InsufficientCapacity);
    }
    let usable = num_sectors
        .saturating_sub(HEAD_RESERVED)
        .saturating_sub(TAIL_RESERVED)
        .saturating_sub(SAFETY_MARGIN);
    if usable >= MIN_PARTITION_SECTORS {
        Ok(usable)
    } else {
        Ok(MIN_PARTITION_SECTORS)
    }
}

} // verus!

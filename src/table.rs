use vstd::prelude::*;

use crate::device::{sector_in_bounds, BlockDevice};
use crate::error::DiskError;
use crate::layout::{
    legacy_sector_count, partition_sectors, protective_mbr_size, sectors_in, table_fits,
    usable_sectors, SECTOR_SIZE,
};
use crate::region::PartitionSlice;

verus! {

/// Byte `k` (0 to 3) of `v` in little-endian order.
pub open spec fn le_byte(v: u32, k: int) -> u8 {
    if k == 0 {
        (v as int % 0x100) as u8
    } else if k == 1 {
        (v as int / 0x100 % 0x100) as u8
    } else if k == 2 {
        (v as int / 0x1_0000 % 0x100) as u8
    } else {
        (v as int / 0x100_0000 % 0x100) as u8
    }
}

/// Byte `i` of the protective boot record that declares `lb_size` sectors:
/// no boot code, one partition record of type `0xEE` from sector 1 over
/// `lb_size` sectors, three empty records, and the `0x55 0xAA` signature.
pub open spec fn protective_mbr_byte(lb_size: u32, i: int) -> u8 {
    if i == 448 {
        0x02
    } else if i == 450 {
        0xEE
    } else if 451 <= i < 454 {
        0xFF
    } else if i == 454 {
        0x01
    } else if 458 <= i < 462 {
        le_byte(lb_size, i - 458)
    } else if i == 510 {
        0x55
    } else if i == 511 {
        0xAA
    } else {
        0
    }
}

/// The protective boot record that declares `lb_size` sectors.
pub open spec fn protective_mbr(lb_size: u32) -> Seq<u8> {
    Seq::new(512, |i: int| protective_mbr_byte(lb_size, i))
}

/// Relies on gpt's `ProtectiveMBR::with_lb_size` and `ProtectiveMBR::to_bytes`:
/// the 512-byte sector of a protective boot record that declares `lb_size`
/// sectors, laid out as `protective_mbr` states.
#[verifier::external_body]
fn protective_mbr_bytes(lb_size: u32) -> (r: Vec<u8>)
    ensures
        r@ == protective_mbr(lb_size),
{
    gpt::mbr::ProtectiveMBR::with_lb_size(lb_size).to_bytes().to_vec()
}

/// What a partition table on a device is built from.
#[derive(Debug, Clone, Copy, PartialEq, Eq, Structural)]
pub struct TablePlan {
    /// Sectors of the device.
    pub num_sectors: u64,
    /// Sectors that the protective boot record declares.
    pub mbr_sectors: u32,
    /// Sectors of the one data partition.
    pub partition_sectors: u64,
    /// Bytes of the one data partition.
    pub partition_bytes: u64,
}

/// The plan for a device of `num_sectors` sectors.
pub open spec fn plan_for(num_sectors: u64) -> TablePlan {
    TablePlan {
        num_sectors,
        mbr_sectors: legacy_sector_count(num_sectors as int) as u32,
        partition_sectors: usable_sectors(num_sectors as int) as u64,
        partition_bytes: (usable_sectors(num_sectors as int) * SECTOR_SIZE) as u64,
    }
}

/// The plan for a table on a device of `size_bytes` bytes; fails where
/// the reserved regions and the minimum partition do not fit.
pub fn plan_table(size_bytes: u64) -> (r: Result<TablePlan, DiskError>)
    ensures
        r is Ok <==> table_fits((size_bytes / SECTOR_SIZE) as int),
        r is Ok ==> r->Ok_0 == plan_for(size_bytes / SECTOR_SIZE),
        r is Err ==> r->Err_0 == DiskError::InsufficientCapacity,
{
    let n = sectors_in(size_bytes);
    let part = partition_sectors(n)?;
    assert(part * SECTOR_SIZE <= n * SECTOR_SIZE) by (nonlinear_arith)
        requires
            part <= n,
    ;
    assert(n * SECTOR_SIZE <= size_bytes);
    Ok(
        TablePlan {
            num_sectors: n,
            mbr_sectors: protective_mbr_size(n),
            partition_sectors: part,
            partition_bytes: part * SECTOR_SIZE,
        },
    )
}

/// The plan for a table on a device of `size_bytes` bytes, with the
/// protective boot record to write to its first sector; fails where the
/// reserved regions and the minimum partition do not fit.
pub fn boot_record(size_bytes: u64) -> (r: Result<(TablePlan, Vec<u8>), DiskError>)
    ensures
        r is Ok <==> table_fits((size_bytes / SECTOR_SIZE) as int),
        r is Ok ==> {
            &&& r->Ok_0.0 == plan_for(size_bytes / SECTOR_SIZE)
            &&& r->Ok_0.1@ == protective_mbr(r->Ok_0.0.mbr_sectors)
        },
        r is Err ==> r->Err_0 == DiskError::InsufficientCapacity,
{
    let plan = plan_table(size_bytes)?;
    let sector = protective_mbr_bytes(plan.mbr_sectors);
    Ok((plan, sector))
}

/// Checks that a table fits on `dev` and writes the protective boot record
/// to its first sector; returns the plan for the rest of the table. On a
/// device that is too small nothing is written.
pub fn write_boot_record<D: BlockDevice>(dev: &mut D) -> (r: Result<TablePlan, DiskError>)
    ensures
        r is Ok <==> table_fits(old(dev).spec_size() as int / SECTOR_SIZE as int),
        r is Err ==> r->Err_0 == DiskError::InsufficientCapacity && *final(dev) == *old(dev),
        r is Ok ==> {
            &&& r->Ok_0 == plan_for((old(dev).spec_size() as int / SECTOR_SIZE as int) as u64)
            &&& final(dev).spec_size() == old(dev).spec_size()
            &&& final(dev).spec_sector(0) == protective_mbr(r->Ok_0.mbr_sectors)
            &&& forall|i: int|
                sector_in_bounds(old(dev).spec_size() as int, i) && i != 0
                    ==> #[trigger] final(dev).spec_sector(i) == old(dev).spec_sector(i)
        },
{
    let (plan, sector) = boot_record(dev.size())?;
    dev.write_sector(0, sector.as_slice());
    Ok(plan)
}

/// A partition as the table lists it.
#[derive(Debug, PartialEq, Eq)]
pub struct PartitionEntry {
    /// The table's index of the entry.
    pub index: u32,
    /// The partition's name.
    pub name: String,
    /// First sector of the partition.
    pub first_lba: u64,
    /// Last sector of the partition, inclusive.
    pub last_lba: u64,
}

/// The sectors `[first_lba, last_lba]` of a partition.
#[derive(Debug, Clone, Copy, PartialEq, Eq, Structural)]
pub struct PartitionExtent {
    /// First sector.
    pub first_lba: u64,
    /// Last sector, inclusive.
    pub last_lba: u64,
}

/// Entry `k` is the first one named `name`.
pub open spec fn is_first_match(entries: Seq<PartitionEntry>, name: Seq<char>, k: int) -> bool {
    &&& 0 <= k < entries.len()
    &&& entries[k].name@ == name
    &&& forall|j: int| 0 <= j < k ==> #[trigger] entries[j].name@ != name
}

/// Some entry is named `name`.
pub open spec fn has_name(entries: Seq<PartitionEntry>, name: Seq<char>) -> bool {
    exists|k: int| 0 <= k < entries.len() && #[trigger] entries[k].name@ == name
}

/// The extent is ordered and lies on a device of `num_sectors` sectors.
pub open spec fn extent_on_device(first_lba: u64, last_lba: u64, num_sectors: u64) -> bool {
    first_lba <= last_lba && last_lba < num_sectors
}

/// The extent of the first partition named `name` on a device of
/// `num_sectors` sectors. Fails with `PartitionNotFound` where no entry has
/// that name, and with `OutOfRange` where the first such entry is not an
/// ordered extent on the device.
pub fn find_partition(entries: &Vec<PartitionEntry>, name: &String, num_sectors: u64) -> (r:
    Result<PartitionExtent, DiskError>)
    ensures
        !has_name(entries@, name@) <==> r == Err::<PartitionExtent, DiskError>(
            DiskError::PartitionNotFound,
        ),
        r is Ok ==> exists|k: int|
            {
                &&& is_first_match(entries@, name@, k)
                &&& extent_on_device(entries@[k].first_lba, entries@[k].last_lba, num_sectors)
                &&& r->Ok_0.first_lba == entries@[k].first_lba
                &&& r->Ok_0.last_lba == entries@[k].last_lba
            },
        r == Err::<PartitionExtent, DiskError>(DiskError::OutOfRange) ==> exists|k: int|
            is_first_match(entries@, name@, k) && !extent_on_device(
                entries@[k].first_lba,
                entries@[k].last_lba,
                num_sectors,
            ),
        r is Err ==> r->Err_0 == DiskError::PartitionNotFound || r->Err_0 == DiskError::OutOfRange,
{
    let mut i: usize = 0;
    while i < entries.len()
        invariant
            i <= entries@.len(),
            forall|j: int| 0 <= j < i ==> #[trigger] entries@[j].name@ != name@,
        decreases entries@.len() - i,
    {
        let e = &entries[i];
        if e.name == *name {
            assert(is_first_match(entries@, name@, i as int));
            if e.first_lba <= e.last_lba && e.last_lba < num_sectors {
                return Ok(PartitionExtent { first_lba: e.first_lba, last_lba: e.last_lba });
            } else {
                return Err(DiskError::OutOfRange);
            }
        }
        i = i + 1;
    }
    Err(DiskError::PartitionNotFound)
}

/// The region of the device's bytes that the extent covers:
/// `[first_lba * SECTOR_SIZE, (last_lba + 1) * SECTOR_SIZE)`, cursor at its
/// start. Fails with `OutOfRange` where the extent is not ordered or its end
/// is not addressable.
pub fn partition_region(ext: &PartitionExtent) -> (r: Result<PartitionSlice, DiskError>)
    ensures
        r is Ok <==> ext.first_lba <= ext.last_lba && (ext.last_lba + 1) * SECTOR_SIZE
            <= u64::MAX,
        r is Ok ==> {
            &&& r->Ok_0.wf()
            &&& r->Ok_0.spec_start() == ext.first_lba * SECTOR_SIZE
            &&& r->Ok_0.spec_len() == (ext.last_lba - ext.first_lba + 1) * SECTOR_SIZE
            &&& r->Ok_0.spec_pos() == 0
        },
        r is Err ==> r->Err_0 == DiskError::OutOfRange,
{
    if ext.first_lba > ext.last_lba || ext.last_lba >= u64::MAX / SECTOR_SIZE {
        return Err(DiskError::OutOfRange);
    }
    let start = ext.first_lba * SECTOR_SIZE;
    let len = (ext.last_lba - ext.first_lba + 1) * SECTOR_SIZE;
    assert(start + len == (ext.last_lba + 1) * SECTOR_SIZE) by (nonlinear_arith)
        requires
            start == ext.first_lba * SECTOR_SIZE,
            len == (ext.last_lba - ext.first_lba + 1) * SECTOR_SIZE,
    ;
    PartitionSlice::new(start, len)
}

} // verus!

use vstd::prelude::*;

use crate::error::DiskError;
use crate::layout::SECTOR_SIZE;
use crate::region::PartitionSlice;
use crate::table::{
    extent_on_device, find_partition, has_name, is_first_match, partition_region, PartitionEntry,
    TablePlan,
};

verus! {

/// The partition-entry size, in bytes, of the tables that can be read.
pub const GPT_ENTRY_SIZE: u32 = 128;

#[verifier::external_type_specification]
#[verifier::external_body]
#[verifier::reject_recursive_types(D)]
pub struct ExGptDisk<D>(gpt::GptDisk<D>);

#[verifier::external_type_specification]
#[verifier::external_body]
pub struct ExGptError(gpt::GptError);

#[verifier::external_type_specification]
#[verifier::external_body]
pub struct ExUuid(uuid::Uuid);

#[verifier::external_type_specification]
pub struct ExHeader(gpt::header::Header);

#[verifier::external_type_specification]
#[verifier::external_body]
pub struct ExHeaderError(gpt::header::HeaderError);

#[verifier::external_type_specification]
#[verifier::external_body]
pub struct ExIoError(std::io::Error);

/// Relies on gpt's `GptConfig::create_from_device`: a new, writable table
/// with 512-byte blocks and no partitions, for `device`.
#[verifier::external_body]
fn gpt_create<D: gpt::DiskDevice>(device: D) -> (r: Result<gpt::GptDisk<D>, gpt::GptError>) {
    gpt::GptConfig::new()
        .writable(true)
        .logical_block_size(gpt::disk::LogicalBlockSize::Lb512)
        .create_from_device(device, None)
}

/// Relies on gpt's `GptDisk::add_partition`: adds a basic data partition of
/// at least `size_bytes` bytes in the first free space, without alignment.
/// It panics on a size of zero.
#[verifier::external_body]
fn gpt_add_partition<D: gpt::DiskDevice>(
    disk: &mut gpt::GptDisk<D>,
    name: &str,
    size_bytes: u64,
) -> (r: Result<u32, gpt::GptError>)
    requires
        size_bytes > 0,
{
    disk.add_partition(name, size_bytes, gpt::partition_types::BASIC, 0, None)
}

/// Relies on gpt's `GptDisk::write`: writes both headers and both entry
/// arrays, with their checksums, and gives the device back.
#[verifier::external_body]
fn gpt_write<D: gpt::DiskDevice>(disk: gpt::GptDisk<D>) -> (r: Result<D, gpt::GptError>) {
    disk.write()
}

/// Relies on gpt's `header::read_header_from_arbitrary_device`: reads the
/// primary header at sector 1, and fails where the device cannot be read or
/// the header's signature or checksum is not valid.
#[verifier::external_body]
fn gpt_read_header<D: gpt::DiskDevice>(device: &mut D) -> (r: Result<
    gpt::header::Header,
    gpt::header::HeaderError,
>) {
    gpt::header::read_header_from_arbitrary_device(device, gpt::disk::LogicalBlockSize::Lb512)
}

/// Relies on gpt's `partition::file_read_partitions`: reads the entry array
/// that `header` describes and checks its checksum, giving the used entries
/// in order of index. It asserts that the entries are `GPT_ENTRY_SIZE`
/// bytes long, hence the `requires`.
#[verifier::external_body]
fn gpt_read_entries<D: gpt::DiskDevice>(device: &mut D, header: &gpt::header::Header) -> (r:
    Result<Vec<PartitionEntry>, std::io::Error>)
    requires
        header.part_size == GPT_ENTRY_SIZE,
{
    gpt::partition::file_read_partitions(device, header, gpt::disk::LogicalBlockSize::Lb512).map(
        |parts|
            parts.iter().map(
                |(i, p)|
                    PartitionEntry {
                        index: *i,
                        name: p.name.clone(),
                        first_lba: p.first_lba,
                        last_lba: p.last_lba,
                    },
            ).collect(),
    )
}

/// Writes a partition table to `device` with the one data partition of
/// `plan`, named `name`, and gives the device back. A plan without bytes
/// gives `InsufficientCapacity` and touches nothing; an error of the table
/// layer or the device gives `IoFailure`.
pub fn build_table<D: gpt::DiskDevice>(device: D, plan: &TablePlan, name: &str) -> (r: Result<
    D,
    DiskError,
>)
    ensures
        plan.partition_bytes == 0 ==> r == Err::<D, DiskError>(DiskError::InsufficientCapacity),
        plan.partition_bytes > 0 && r is Err ==> r->Err_0 == DiskError::IoFailure,
{
    if plan.partition_bytes == 0 {
        return Err(DiskError::InsufficientCapacity);
    }
    let mut disk = match gpt_create(device) {
        Ok(d) => d,
        Err(_) => return Err(DiskError::IoFailure),
    };
    if gpt_add_partition(&mut disk, name, plan.partition_bytes).is_err() {
        return Err(DiskError::IoFailure);
    }
    match gpt_write(disk) {
        Ok(d) => Ok(d),
        Err(_) => Err(DiskError::IoFailure),
    }
}

/// Reads the partition table of a device of `num_sectors` sectors and gives
/// the byte region of the first entry named `name`, cursor at its start.
/// That region covers the entry's whole sectors `[first, last]`, with
/// `first <= last < num_sectors`. An unreadable or corrupt table, or one
/// whose primary header is not valid or has entries of another size than
/// `GPT_ENTRY_SIZE`, gives `IoFailure`; a missing name gives
/// `PartitionNotFound`; an entry off the device gives `OutOfRange`.
pub fn locate_partition<D: gpt::DiskDevice>(device: D, name: &String, num_sectors: u64) -> (r:
    Result<PartitionSlice, DiskError>)
    ensures
        r is Ok ==> exists|entries: Seq<PartitionEntry>, k: int|
            {
                &&& is_first_match(entries, name@, k)
                &&& extent_on_device(entries[k].first_lba, entries[k].last_lba, num_sectors)
                &&& r->Ok_0.wf()
                &&& r->Ok_0.spec_start() == entries[k].first_lba * SECTOR_SIZE
                &&& r->Ok_0.spec_len() == (entries[k].last_lba - entries[k].first_lba + 1)
                    * SECTOR_SIZE
                &&& r->Ok_0.spec_pos() == 0
            },
        r == Err::<PartitionSlice, DiskError>(DiskError::PartitionNotFound) ==> exists|
            entries: Seq<PartitionEntry>,
        | !has_name(entries, name@),
        r is Err ==> r->Err_0 == DiskError::IoFailure || r->Err_0 == DiskError::PartitionNotFound
            || r->Err_0 == DiskError::OutOfRange,
{
    let mut device = device;
    let header = match gpt_read_header(&mut device) {
        Ok(h) => h,
        Err(_) => return Err(DiskError::IoFailure),
    };
    if header.part_size != GPT_ENTRY_SIZE {
        return Err(DiskError::IoFailure);
    }
    let entries = match gpt_read_entries(&mut device, &header) {
        Ok(e) => e,
        Err(_) => return Err(DiskError::IoFailure),
    };
    let found = find_partition(&entries, name, num_sectors);
    let ext = match found {
        Ok(ext) => ext,
        Err(e) => {
            assert(e == DiskError::PartitionNotFound ==> !has_name(entries@, name@));
            return Err(e);
        },
    };
    let r = partition_region(&ext);
    proof {
        if r is Ok {
            let k = choose|k: int|
                {
                    &&& is_first_match(entries@, name@, k)
                    &&& extent_on_device(entries@[k].first_lba, entries@[k].last_lba, num_sectors)
                    &&& ext.first_lba == entries@[k].first_lba
                    &&& ext.last_lba == entries@[k].last_lba
                };
            assert(is_first_match(entries@, name@, k));
        }
    }
    r
}

} // verus!

use vstd::prelude::*;

use crate::layout::{capacity_of, SECTOR_SIZE};

verus! {

/// The bytes of sector `lba` in the device image `disk`.
pub open spec fn sector_of(disk: Seq<u8>, lba: int) -> Seq<u8> {
    disk.subrange(lba * SECTOR_SIZE, (lba + 1) * SECTOR_SIZE)
}

/// The device image `disk` with sector `lba` replaced by `buf`.
pub open spec fn with_sector(disk: Seq<u8>, lba: int, buf: Seq<u8>) -> Seq<u8> {
    disk.subrange(0, lba * SECTOR_SIZE) + buf + disk.subrange((lba + 1) * SECTOR_SIZE, disk.len() as int)
}

/// Sector `lba` lies wholly within a device of `size` bytes.
pub open spec fn sector_in_bounds(size: int, lba: int) -> bool {
    0 <= lba && (lba + 1) * SECTOR_SIZE <= size
}

/// A random-access device that reads and writes whole sectors of
/// `SECTOR_SIZE` bytes. A write is durable once it returns.
pub trait BlockDevice {
    /// Total bytes of the device.
    spec fn spec_size(&self) -> nat;

    /// Current contents of sector `lba`.
    spec fn spec_sector(&self, lba: int) -> Seq<u8>;

    /// Total bytes of the device, a whole number of sectors.
    fn size(&self) -> (r: u64)
        ensures
            r == self.spec_size(),
            r % SECTOR_SIZE == 0,
    ;

    /// Fills `buf` with sector `lba`.
    fn read_sector(&self, lba: u64, buf: &mut [u8])
        requires
            old(buf)@.len() == SECTOR_SIZE,
            sector_in_bounds(self.spec_size() as int, lba as int),
        ensures
            final(buf)@ == self.spec_sector(lba as int),
    ;

    /// Writes `buf` to sector `lba` and leaves every other sector as it was.
    fn write_sector(&mut self, lba: u64, buf: &[u8])
        requires
            buf@.len() == SECTOR_SIZE,
            sector_in_bounds(old(self).spec_size() as int, lba as int),
        ensures
            final(self).spec_size() == old(self).spec_size(),
            final(self).spec_sector(lba as int) == buf@,
            forall|i: int|
                sector_in_bounds(old(self).spec_size() as int, i) && i != lba
                    ==> #[trigger] final(self).spec_sector(i) == old(self).spec_sector(i),
    ;
}

/// A block device held in memory, one byte vector for the whole device.
pub struct MemDisk {
    bytes: Vec<u8>,
}

impl View for MemDisk {
    type V = Seq<u8>;

    closed spec fn view(&self) -> Seq<u8> {
        self.bytes@
    }
}

impl MemDisk {
    /// A zero-filled device of `num_sectors` sectors.
    pub fn new(num_sectors: u64) -> (r: MemDisk)
        requires
            num_sectors * SECTOR_SIZE <= usize::MAX,
        ensures
            r@.len() == num_sectors * SECTOR_SIZE,
            forall|i: int| 0 <= i < r@.len() ==> r@[i] == 0,
    {
        let total = (num_sectors * SECTOR_SIZE) as usize;
        let mut bytes: Vec<u8> = Vec::with_capacity(total);
        let mut i: usize = 0;
        while i < total
            invariant
                i <= total,
                bytes@.len() == i,
                forall|j: int| 0 <= j < i ==> bytes@[j] == 0,
            decreases total - i,
        {
            bytes.push(0);
            i = i + 1;
        }
        MemDisk { bytes }
    }

    /// The whole device image.
    pub fn contents(&self) -> (r: &Vec<u8>)
        ensures
            r@ == self@,
    {
        &self.bytes
    }
}

impl BlockDevice for MemDisk {
    open spec fn spec_size(&self) -> nat {
        (self@.len() / SECTOR_SIZE as nat * SECTOR_SIZE as nat) as nat
    }

    open spec fn spec_sector(&self, lba: int) -> Seq<u8> {
        sector_of(self@, lba)
    }

    fn size(&self) -> (r: u64) {
        capacity_of(self.bytes.len() as u64)
    }

    fn read_sector(&self, lba: u64, buf: &mut [u8]) {
        proof {
            lemma_sector_offsets(lba as int);
        }
        let total = self.bytes.len();
        assert(lba * SECTOR_SIZE + SECTOR_SIZE <= total);
        let base: usize = (lba as usize) * (SECTOR_SIZE as usize);
        let mut i: usize = 0;
        while i < SECTOR_SIZE as usize
            invariant
                i <= SECTOR_SIZE,
                buf@.len() == SECTOR_SIZE,
                base == lba * SECTOR_SIZE,
                (lba + 1) * SECTOR_SIZE <= self.bytes@.len(),
                forall|j: int| 0 <= j < i ==> buf@[j] == self.bytes@[base + j],
            decreases SECTOR_SIZE - i,
        {
            buf[i] = self.bytes[base + i];
            i = i + 1;
        }
        assert(buf@ =~= sector_of(self.bytes@, lba as int));
    }

    fn write_sector(&mut self, lba: u64, buf: &[u8]) {
        proof {
            lemma_sector_offsets(lba as int);
        }
        let total = self.bytes.len();
        assert(lba * SECTOR_SIZE + SECTOR_SIZE <= total);
        let base: usize = (lba as usize) * (SECTOR_SIZE as usize);
        let ghost before = self.bytes@;
        let mut i: usize = 0;
        while i < SECTOR_SIZE as usize
            invariant
                i <= SECTOR_SIZE,
                buf@.len() == SECTOR_SIZE,
                base == lba * SECTOR_SIZE,
                (lba + 1) * SECTOR_SIZE <= before.len(),
                self.bytes@.len() == before.len(),
                forall|j: int| 0 <= j < base + i ==> j < base ==> self.bytes@[j] == before[j],
                forall|j: int| base <= j < base + i ==> self.bytes@[j] == buf@[j - base],
                forall|j: int| base + i <= j < before.len() ==> self.bytes@[j] == before[j],
            decreases SECTOR_SIZE - i,
        {
            self.bytes.set(base + i, buf[i]);
            i = i + 1;
        }
        assert(self.bytes@ =~= with_sector(before, lba as int, buf@));
        proof {
            lemma_sector_round_trip(before, lba as int, buf@);
            lemma_other_sectors_kept(before, lba as int, buf@);
        }
    }
}

/// Writing a sector and then reading it back gives exactly the bytes written.
pub proof fn lemma_sector_round_trip(disk: Seq<u8>, lba: int, buf: Seq<u8>)
    requires
        sector_in_bounds(disk.len() as int, lba),
        buf.len() == SECTOR_SIZE,
    ensures
        with_sector(disk, lba, buf).len() == disk.len(),
        sector_of(with_sector(disk, lba, buf), lba) == buf,
{
    assert(sector_of(with_sector(disk, lba, buf), lba) =~= buf);
}

/// Writing a sector leaves every other sector as it was.
pub proof fn lemma_other_sectors_kept(disk: Seq<u8>, lba: int, buf: Seq<u8>)
    requires
        sector_in_bounds(disk.len() as int, lba),
        buf.len() == SECTOR_SIZE,
    ensures
        forall|i: int|
            sector_in_bounds(disk.len() as int, i) && i != lba
                ==> #[trigger] sector_of(with_sector(disk, lba, buf), i) == sector_of(disk, i),
{
    assert forall|i: int| sector_in_bounds(disk.len() as int, i) && i != lba implies
        #[trigger] sector_of(with_sector(disk, lba, buf), i) == sector_of(disk, i) by {
        lemma_sector_offsets(lba);
        lemma_sector_offsets(i);
        if i < lba {
            assert(i * SECTOR_SIZE + SECTOR_SIZE <= lba * SECTOR_SIZE) by (nonlinear_arith)
                requires i < lba;
        } else {
            assert(lba * SECTOR_SIZE + SECTOR_SIZE <= i * SECTOR_SIZE) by (nonlinear_arith)
                requires lba < i;
        }
        assert(sector_of(with_sector(disk, lba, buf), i) =~= sector_of(disk, i));
    }
}

/// A sector ends one sector after it starts, and starts at or after byte zero.
proof fn lemma_sector_offsets(lba: int)
    requires
        lba >= 0,
    ensures
        (lba + 1) * SECTOR_SIZE == lba * SECTOR_SIZE + SECTOR_SIZE,
        lba * SECTOR_SIZE >= 0,
{
    assert((lba + 1) * SECTOR_SIZE == lba * SECTOR_SIZE + SECTOR_SIZE) by (nonlinear_arith);
    assert(lba * SECTOR_SIZE >= 0) by (nonlinear_arith) requires lba >= 0;
}

} // verus!

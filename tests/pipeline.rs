use std::io::{Cursor, Read, Seek, SeekFrom, Write};

use disk_stack::device::MemDisk;
use disk_stack::error::DiskError;
use disk_stack::region::{PartitionSlice, SeekOrigin};
use disk_stack::gpt_table::{build_table, locate_partition};
use disk_stack::table::{write_boot_record, TablePlan};

struct SliceStream<'a, F> {
    f: &'a mut F,
    slice: PartitionSlice,
}

impl<'a, F: Seek> SliceStream<'a, F> {
    fn new(f: &'a mut F, slice: PartitionSlice) -> std::io::Result<Self> {
        f.seek(SeekFrom::Start(slice.absolute_pos()))?;
        Ok(SliceStream { f, slice })
    }
}

impl<'a, F: Read> Read for SliceStream<'a, F> {
    fn read(&mut self, buf: &mut [u8]) -> std::io::Result<usize> {
        let n = self.slice.window(buf.len());
        let got = self.f.read(&mut buf[..n])?;
        self.slice.advance(got.min(n) as u64);
        Ok(got)
    }
}

impl<'a, F: Write> Write for SliceStream<'a, F> {
    fn write(&mut self, buf: &[u8]) -> std::io::Result<usize> {
        let n = self.slice.window(buf.len());
        let put = self.f.write(&buf[..n])?;
        self.slice.advance(put.min(n) as u64);
        Ok(put)
    }
    fn flush(&mut self) -> std::io::Result<()> {
        self.f.flush()
    }
}

impl<'a, F: Seek> Seek for SliceStream<'a, F> {
    fn seek(&mut self, pos: SeekFrom) -> std::io::Result<u64> {
        let origin = match pos {
            SeekFrom::Start(o) => SeekOrigin::Start(o),
            SeekFrom::End(o) => SeekOrigin::End(o),
            SeekFrom::Current(o) => SeekOrigin::Current(o),
        };
        let mut next = self.slice;
        let abs = next.seek(origin);
        self.f.seek(SeekFrom::Start(abs))?;
        self.slice = next;
        Ok(self.slice.pos())
    }
}

fn build(sectors: u64, name: &str) -> Result<(Cursor<Vec<u8>>, u64), DiskError> {
    let mut disk = MemDisk::new(sectors);
    let plan = write_boot_record(&mut disk)?;
    let image = build_table(Cursor::new(disk.contents().clone()), &plan, name)?;
    Ok((image, plan.partition_sectors))
}

#[test]
fn table_reads_back_with_planned_size() {
    let sectors = 131072;
    let (mut image, planned) = build(sectors, "data").unwrap();
    assert_eq!(planned, 131072 - 34 - 33 - 2048);
    let region = locate_partition(&mut image, &"data".to_string(), sectors).unwrap();
    assert_eq!(region.start(), 34 * 512);
    assert_eq!(region.len(), planned * 512);
    let again = locate_partition(&mut image, &"data".to_string(), sectors).unwrap();
    assert_eq!(again, region);
    assert_eq!(
        locate_partition(&mut image, &"oxide".to_string(), sectors),
        Err(DiskError::PartitionNotFound)
    );
    assert_eq!(image.get_ref()[510], 0x55);
    assert_eq!(image.get_ref()[511], 0xAA);
    assert_eq!(image.get_ref()[450], 0xEE);
}

#[test]
fn table_on_too_small_device_fails() {
    assert_eq!(build(66, "data").err(), Some(DiskError::InsufficientCapacity));
    let mut blank = Cursor::new(vec![0u8; 66 * 512]);
    assert_eq!(locate_partition(&mut blank, &"data".to_string(), 66), Err(DiskError::IoFailure));
}

fn crc32(bytes: &[u8]) -> u32 {
    let mut crc: u32 = 0xFFFF_FFFF;
    for b in bytes {
        crc ^= *b as u32;
        for _ in 0..8 {
            let mask = (crc & 1).wrapping_neg();
            crc = (crc >> 1) ^ (0xEDB8_8320 & mask);
        }
    }
    !crc
}

/// Rewrites the primary header's entry size and reseals its checksum.
fn set_primary_entry_size(image: &mut Cursor<Vec<u8>>, size: u32) {
    let bytes = image.get_mut();
    let header = &mut bytes[512..512 + 92];
    header[84..88].copy_from_slice(&size.to_le_bytes());
    header[16..20].copy_from_slice(&[0, 0, 0, 0]);
    let crc = crc32(header);
    header[16..20].copy_from_slice(&crc.to_le_bytes());
}

#[test]
fn resealed_header_with_standard_entries_still_reads() {
    let (mut image, _) = build(4096, "data").unwrap();
    set_primary_entry_size(&mut image, 128);
    assert!(locate_partition(&mut image, &"data".to_string(), 4096).is_ok());
}

#[test]
fn unsupported_entry_size_is_refused() {
    let (mut image, _) = build(4096, "data").unwrap();
    set_primary_entry_size(&mut image, 256);
    assert_eq!(locate_partition(&mut image, &"data".to_string(), 4096), Err(DiskError::IoFailure));
}

#[test]
fn damaged_primary_header_is_refused() {
    let (mut image, _) = build(4096, "data").unwrap();
    image.get_mut()[512 + 40] ^= 0xFF;
    assert_eq!(locate_partition(&mut image, &"data".to_string(), 4096), Err(DiskError::IoFailure));
}

#[test]
fn empty_plan_is_refused() {
    let plan = TablePlan { num_sectors: 4096, mbr_sectors: 4095, partition_sectors: 0, partition_bytes: 0 };
    let image = Cursor::new(vec![0u8; 4096 * 512]);
    assert_eq!(build_table(image, &plan, "data").err(), Some(DiskError::InsufficientCapacity));
}

fn format_write_and_read_back(sectors: u64) -> Vec<u8> {
    let (mut image, _) = build(sectors, "data").unwrap();
    let slice = locate_partition(&mut image, &"data".to_string(), sectors).unwrap();
    {
        let ps = SliceStream::new(&mut image, slice).unwrap();
        fatfs::format_volume(ps, fatfs::FormatVolumeOptions::new()).unwrap();
    }
    {
        let ps = SliceStream::new(&mut image, slice).unwrap();
        let fs = fatfs::FileSystem::new(ps, fatfs::FsOptions::new()).unwrap();
        let mut file = fs.root_dir().create_file("HELLO.TXT").unwrap();
        file.write_all(b"Hello from Oxide!\n").unwrap();
        file.flush().unwrap();
    }
    let mut reopened = Cursor::new(image.into_inner());
    let slice = locate_partition(&mut reopened, &"data".to_string(), sectors).unwrap();
    let ps = SliceStream::new(&mut reopened, slice).unwrap();
    let fs = fatfs::FileSystem::new(ps, fatfs::FsOptions::new()).unwrap();
    let mut file = fs.root_dir().open_file("HELLO.TXT").unwrap();
    let mut content = Vec::new();
    file.read_to_end(&mut content).unwrap();
    content
}

#[test]
fn format_mount_and_read_back_file() {
    assert_eq!(format_write_and_read_back(131072), b"Hello from Oxide!\n".to_vec());
}

#[test]
fn smallest_device_still_mounts() {
    assert_eq!(format_write_and_read_back(1091), b"Hello from Oxide!\n".to_vec());
}

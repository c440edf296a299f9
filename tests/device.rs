use disk_stack::device::{BlockDevice, MemDisk};

#[test]
fn new_device_is_zeroed() {
    let d = MemDisk::new(4);
    assert_eq!(d.size(), 2048);
    assert!(d.contents().iter().all(|b| *b == 0));
}

#[test]
fn sector_round_trip() {
    let mut d = MemDisk::new(8);
    let mut buf = [0u8; 512];
    for (i, b) in buf.iter_mut().enumerate() {
        *b = (i * 7 % 251) as u8;
    }
    d.write_sector(5, &buf);
    let mut out = [0u8; 512];
    d.read_sector(5, &mut out);
    assert_eq!(out, buf);
}

#[test]
fn write_leaves_other_sectors() {
    let mut d = MemDisk::new(3);
    d.write_sector(1, &[0xAB; 512]);
    let mut out = [1u8; 512];
    d.read_sector(0, &mut out);
    assert_eq!(out, [0u8; 512]);
    d.read_sector(2, &mut out);
    assert_eq!(out, [0u8; 512]);
    d.read_sector(1, &mut out);
    assert_eq!(out, [0xAB; 512]);
    assert_eq!(&d.contents()[512..1024], &[0xAB; 512][..]);
}

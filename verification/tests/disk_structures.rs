use krust::fat::{fat_root_lba, fat_root_lba_checked, BiosParameterBlock, DirEnt, ExtBiosParameterBlock};
use krust::mbr::MasterBoostRecord;

fn put16(s: &mut [u8], at: usize, v: u16) {
    s[at..at + 2].copy_from_slice(&v.to_le_bytes());
}

fn put32(s: &mut [u8], at: usize, v: u32) {
    s[at..at + 4].copy_from_slice(&v.to_le_bytes());
}

fn boot_sector() -> [u8; 512] {
    let mut s = [0u8; 512];
    s[3..11].copy_from_slice(b"MSWIN4.1");
    put16(&mut s, 11, 512);
    s[13] = 8;
    put16(&mut s, 14, 32);
    s[16] = 2;
    put16(&mut s, 17, 0);
    put16(&mut s, 19, 0);
    s[21] = 0xF8;
    put16(&mut s, 22, 0);
    put16(&mut s, 24, 63);
    put16(&mut s, 26, 255);
    put32(&mut s, 28, 2048);
    put32(&mut s, 32, 0x0003_C000);
    put32(&mut s, 36, 0x3C1);
    put16(&mut s, 40, 0);
    put16(&mut s, 42, 0);
    put32(&mut s, 44, 2);
    put16(&mut s, 48, 1);
    put16(&mut s, 50, 6);
    s[64] = 0x80;
    s[65] = 0;
    s[66] = 0x29;
    put32(&mut s, 67, 0x1234_ABCD);
    s[71..82].copy_from_slice(b"NO NAME    ");
    s[82..90].copy_from_slice(b"FAT32   ");
    put16(&mut s, 510, 0xAA55);
    s
}

#[test]
fn bios_parameter_block_fields() {
    let s = boot_sector();
    let b = BiosParameterBlock::new(s);
    assert_eq!(b.oem_identifier, u64::from_le_bytes(*b"MSWIN4.1"));
    assert_eq!(b.bps, 512);
    assert_eq!(b.spc, 8);
    assert_eq!(b.num_rsec, 32);
    assert_eq!(b.num_fat, 2);
    assert_eq!(b.med_desc_type, 0xF8);
    assert_eq!(b.num_sec_trck, 63);
    assert_eq!(b.num_heads, 255);
    assert_eq!(b.num_hsec, 2048);
    assert_eq!(b.lrg_sec_cnt, 0x0003_C000);
}

#[test]
fn extended_block_fields() {
    let s = boot_sector();
    let e = ExtBiosParameterBlock::new(s);
    assert_eq!(e.num_sec_pfat, 0x3C1);
    assert_eq!(e.root_cluster, 2);
    assert_eq!(e.fs_info_secn, 1);
    assert_eq!(e.bck_bsec_secn, 6);
    assert_eq!(e.reserved, [0u8; 12]);
    assert_eq!(e.drive_num, 0x80);
    assert_eq!(e.signature, 0x29);
    assert_eq!(e.volume_id, 0x1234_ABCD);
    assert_eq!(&e.volume_label, b"NO NAME    ");
    assert_eq!(e.sys_identifier, u64::from_le_bytes(*b"FAT32   "));
    assert_eq!(e.bp_signature, 0xAA55);
}

#[test]
fn root_directory_lba() {
    let s = boot_sector();
    let b = BiosParameterBlock::new(s);
    let e = ExtBiosParameterBlock::new(s);
    // 0x3C1 sectors per FAT, two FATs, 32 reserved sectors, partition at 2048.
    assert_eq!(fat_root_lba(&b, &e, 2048), 0x3C1 * 2 + 32 + 2048);
    assert_eq!(fat_root_lba(&b, &e, 0), 1954);
    assert_eq!(fat_root_lba_checked(&b, &e, 2048), Some(1954 + 2048));
    assert_eq!(fat_root_lba_checked(&b, &e, u32::MAX - 1954), Some(u32::MAX));
    assert_eq!(fat_root_lba_checked(&b, &e, u32::MAX - 1953), None);
}

#[test]
fn parameter_block_dumps() {
    let s = boot_sector();
    let b = BiosParameterBlock::new(s);
    let text = String::from_utf8(b.dump()).unwrap();
    let expected = format!(
        "BiosParameterBlock: (FAT32)\n\tOEM:\t0x{:X}\n\tBytes per sector:\t0x200\n\tSectors per cluster:\t0x8\n\t# Reserved Sectors:\t0x20\n\t# FAT's:\t0x2\n\t# Directories:\t0x0\n\tTotal Sectors:\t0x0\n\t# of Hidden Sectors:\t0x800\n\t# of Sectors (Large):\t0x3C000\n",
        u64::from_le_bytes(*b"MSWIN4.1")
    );
    assert_eq!(text, expected);
    let e = ExtBiosParameterBlock::new(s);
    let text = String::from_utf8(e.dump()).unwrap();
    assert!(text.starts_with("Extended BIOS Parameter Block (FAT32): \n\t# of Sectors per FAT:\t0x3C1\n"));
    assert!(text.contains("\tVolume Label:\tNO NAME    \n"));
    assert!(text.ends_with("\tBoot partition signature:\t0xAA55\n"));
}

fn dir_entry() -> [u8; 32] {
    let mut d = [0u8; 32];
    d[0..11].copy_from_slice(b"KERNEL  IMG");
    d[11] = 0x20;
    d[13] = 100;
    // 13:45:58 is hour 13, minute 45, 29 two-second units.
    put16(&mut d, 14, (13 << 11) | (45 << 5) | 29);
    // 2019-03-07.
    put16(&mut d, 16, ((2019 - 1980) << 9) | (3 << 5) | 7);
    put16(&mut d, 18, ((2019 - 1980) << 9) | (3 << 5) | 8);
    put16(&mut d, 20, 0);
    put16(&mut d, 22, (9 << 11) | (5 << 5) | 1);
    put16(&mut d, 24, ((2020 - 1980) << 9) | (12 << 5) | 31);
    put16(&mut d, 26, 3);
    put32(&mut d, 28, 0x1_0000);
    d
}

#[test]
fn directory_entry_fields() {
    let raw = dir_entry();
    let d = DirEnt::new(&raw);
    assert_eq!(&d.filename, b"KERNEL  IMG");
    assert_eq!(d.file_attr, 0x20);
    assert_eq!(d.create_time_tsec, 100);
    assert_eq!(d.low_cluster, 3);
    assert_eq!(d.file_size, 0x1_0000);
}

#[test]
fn time_and_date_text() {
    assert_eq!(DirEnt::time_str((13 << 11) | (45 << 5) | 29), b"13:45:29\n".to_vec());
    assert_eq!(DirEnt::time_str(0), b"0:0:0\n".to_vec());
    assert_eq!(DirEnt::time_str(0xFFFF), b"31:63:31\n".to_vec());
    assert_eq!(DirEnt::date_str(((2019 - 1980) << 9) | (3 << 5) | 7), b"2019-03-07\n".to_vec());
    assert_eq!(DirEnt::date_str(0), b"1980-00-00\n".to_vec());
    assert_eq!(DirEnt::date_str(0xFFFF), b"2107-15-31\n".to_vec());
}

#[test]
fn directory_entry_dump() {
    let raw = dir_entry();
    let d = DirEnt::new(&raw);
    let text = String::from_utf8(d.dump()).unwrap();
    assert_eq!(
        text,
        "Directory Entity (FAT32):\n\tFilename:\tKERNEL  IMG\n\tAttributes:\t0x20\n\tCreate time:\t13:45:29\n\tCreate date:\t2019-03-07\n\tAccess date:\t2019-03-08\n\tModification time:\t9:5:1\n\tModification date:\t2020-12-31\n\tHigh cluster:\t0x0\n\tLow cluster:\t0x3\n\tFile size:\t0x10000\n"
    );
}

fn master_boot_record() -> [u8; 512] {
    let mut s = [0xEEu8; 512];
    let e = 446;
    s[e] = 0x80;
    s[e + 1] = 0x20;
    s[e + 2] = 0x21;
    s[e + 3] = 0x00;
    s[e + 4] = 0x0C;
    s[e + 5] = 0xFE;
    s[e + 6] = 0xFF;
    s[e + 7] = 0xFF;
    put32(&mut s, e + 8, 2048);
    put32(&mut s, e + 12, 0x003B_F800);
    for k in 462..510 {
        s[k] = 0;
    }
    put16(&mut s, 510, 0xAA55);
    s
}

#[test]
fn master_boot_record_fields() {
    let m = MasterBoostRecord::new(master_boot_record());
    // The boot code is not kept.
    assert!(m.code_area.iter().all(|b| *b == 0));
    assert_eq!(m.mpt.part0.boot, 0x80);
    assert_eq!(m.mpt.part0.start_chs.cylinder, 0x20);
    assert_eq!(m.mpt.part0.start_chs.head, 0x21);
    assert_eq!(m.mpt.part0.part_type, 0x0C);
    assert_eq!(m.mpt.part0.end_chs.sector, 0xFF);
    assert_eq!(m.mpt.part0.start_sector, 2048);
    assert_eq!(m.mpt.part0.part_size, 0x003B_F800);
    assert_eq!(m.mpt.part1.start_sector, 0);
    assert_eq!(m.mpt.part3.part_size, 0);
    assert_eq!(m.brs, 0xAA55);
}

#[test]
fn master_boot_record_dump() {
    let m = MasterBoostRecord::new(master_boot_record());
    let text = String::from_utf8(m.dump()).unwrap();
    let empty = "\tboot:\t0x0\n\ttype:\t0x0\n\tstart:\t0x0\n\tsize:\t0x0\n";
    let expected = format!(
        "Part0:\n\tboot:\t0x80\n\ttype:\t0xC\n\tstart:\t0x800\n\tsize:\t0x3BF800\nPart1: \n{}Part2: \n{}Part3: \n{}",
        empty, empty, empty
    );
    assert_eq!(text, expected);
}

#[test]
fn iso_calendar_date() {
    assert_eq!(DirEnt::date_str(0x4E67), b"2019-03-07\n".to_vec());
    assert_eq!(DirEnt::date_str((41 << 9) | (11 << 5) | 25), b"2021-11-25\n".to_vec());
}

//! FAT32 on-disk structures: the BIOS parameter block and its FAT32
//! extension in a volume's first sector, and 32-byte directory entries.
//! Multi-byte fields are little-endian.

use vstd::prelude::*;
use vstd::string::StringSliceAdditionalSpecFns;
use vstd::utf8::valid_utf8;
use crate::bitmath::{le16, le32, le64, u8stou16, u8stou32, u8stou64};
use crate::text::{dec2_text, dec_text, hex_line, push_bytes, push_dec, push_dec2, push_hex_line, push_str, text_of};

verus! {

pub struct BiosParameterBlock {
    pub oem_identifier: u64,
    /// bytes per sector
    pub bps: u16,
    /// sectors per cluster
    pub spc: u8,
    pub num_rsec: u16,
    pub num_fat: u8,
    pub num_dirent: u16,
    pub ttl_sectors: u16,
    pub med_desc_type: u8,
    pub num_sec_pfat: u16,
    pub num_sec_trck: u16,
    pub num_heads: u16,
    pub num_hsec: u32,
    pub lrg_sec_cnt: u32,
}

/// The FAT32 extended BIOS parameter block.
pub struct ExtBiosParameterBlock {
    pub num_sec_pfat: u32,
    pub flags: u16,
    pub fat_ver: u16,
    pub root_cluster: u32,
    pub fs_info_secn: u16,
    pub bck_bsec_secn: u16,
    pub reserved: [u8; 12],
    pub drive_num: u8,
    pub flags_nt: u8,
    pub signature: u8,
    pub volume_id: u32,
    pub volume_label: [u8; 11],
    pub sys_identifier: u64,
    /// boot sector signature, 0xAA55 on a valid volume
    pub bp_signature: u16,
}

pub struct DirEnt {
    pub filename: [u8; 11],
    pub file_attr: u8,
    pub win_nt: u8,
    /// tenths of a second of the creation time, 0-199
    pub create_time_tsec: u8,
    pub create_time: u16,
    pub create_date: u16,
    pub access_date: u16,
    pub high_cluster: u16,
    pub modif_time: u16,
    pub modif_date: u16,
    pub low_cluster: u16,
    pub file_size: u32,
}

impl BiosParameterBlock {
    /// Reads the parameter block from a volume's boot sector.
    pub fn new(sector: [u8; 512]) -> (b: Self)
        ensures
            b.oem_identifier == le64(sector@, 3),
            b.bps == le16(sector@, 11),
            b.spc == sector@[13],
            b.num_rsec == le16(sector@, 14),
            b.num_fat == sector@[16],
            b.num_dirent == le16(sector@, 17),
            b.ttl_sectors == le16(sector@, 19),
            b.med_desc_type == sector@[21],
            b.num_sec_pfat == le16(sector@, 22),
            b.num_sec_trck == le16(sector@, 24),
            b.num_heads == le16(sector@, 26),
            b.num_hsec == le32(sector@, 28),
            b.lrg_sec_cnt == le32(sector@, 32),
    {
        let s = sector.as_slice();
        BiosParameterBlock {
            oem_identifier: u8stou64(&s[3..11]),
            bps: u8stou16(&s[11..13]),
            spc: s[13],
            num_rsec: u8stou16(&s[14..16]),
            num_fat: s[16],
            num_dirent: u8stou16(&s[17..19]),
            ttl_sectors: u8stou16(&s[19..21]),
            med_desc_type: s[21],
            num_sec_pfat: u8stou16(&s[22..24]),
            num_sec_trck: u8stou16(&s[24..26]),
            num_heads: u8stou16(&s[26..28]),
            num_hsec: u8stou32(&s[28..32]),
            lrg_sec_cnt: u8stou32(&s[32..36]),
        }
    }
}

impl ExtBiosParameterBlock {
    /// Reads the FAT32 extension of the parameter block from a volume's
    /// boot sector; the reserved bytes are not kept (they read as zero).
    pub fn new(sector: [u8; 512]) -> (e: Self)
        ensures
            e.num_sec_pfat == le32(sector@, 36),
            e.flags == le16(sector@, 40),
            e.fat_ver == le16(sector@, 42),
            e.root_cluster == le32(sector@, 44),
            e.fs_info_secn == le16(sector@, 48),
            e.bck_bsec_secn == le16(sector@, 50),
            e.reserved@ == Seq::new(12, |i: int| 0u8),
            e.drive_num == sector@[64],
            e.flags_nt == sector@[65],
            e.signature == sector@[66],
            e.volume_id == le32(sector@, 67),
            e.volume_label@ == sector@.subrange(71, 82),
            e.sys_identifier == le64(sector@, 82),
            e.bp_signature == le16(sector@, 510),
    {
        let s = sector.as_slice();
        let mut ebpb = ExtBiosParameterBlock {
            num_sec_pfat: u8stou32(&s[36..40]),
            flags: u8stou16(&s[40..42]),
            fat_ver: u8stou16(&s[42..44]),
            root_cluster: u8stou32(&s[44..48]),
            fs_info_secn: u8stou16(&s[48..50]),
            bck_bsec_secn: u8stou16(&s[50..52]),
            reserved: [0; 12],
            drive_num: s[64],
            flags_nt: s[65],
            signature: s[66],
            volume_id: u8stou32(&s[67..71]),
            volume_label: [0; 11],
            sys_identifier: u8stou64(&s[82..90]),
            bp_signature: u8stou16(&s[510..512]),
        };
        let mut i: usize = 0;
        while i < 11
            invariant
                0 <= i <= 11,
                s@ == sector@,
                forall|k: int| 0 <= k < i ==> ebpb.volume_label@[k] == sector@[71 + k],
                ebpb.reserved@ == Seq::new(12, |j: int| 0u8),
                ebpb.num_sec_pfat == le32(sector@, 36),
                ebpb.flags == le16(sector@, 40),
                ebpb.fat_ver == le16(sector@, 42),
                ebpb.root_cluster == le32(sector@, 44),
                ebpb.fs_info_secn == le16(sector@, 48),
                ebpb.bck_bsec_secn == le16(sector@, 50),
                ebpb.drive_num == sector@[64],
                ebpb.flags_nt == sector@[65],
                ebpb.signature == sector@[66],
                ebpb.volume_id == le32(sector@, 67),
                ebpb.sys_identifier == le64(sector@, 82),
                ebpb.bp_signature == le16(sector@, 510),
            decreases 11 - i,
        {
            ebpb.volume_label[i] = s[71 + i];
            i = i + 1;
        }
        assert(ebpb.volume_label@ =~= sector@.subrange(71, 82));
        ebpb
    }
}

impl DirEnt {
    /// Reads a directory entry from the first 32 bytes of `block`.
    pub fn new(block: &[u8]) -> (d: Self)
        requires
            block@.len() >= 32,
        ensures
            d.filename@ == block@.subrange(0, 11),
            d.file_attr == block@[11],
            d.win_nt == block@[12],
            d.create_time_tsec == block@[13],
            d.create_time == le16(block@, 14),
            d.create_date == le16(block@, 16),
            d.access_date == le16(block@, 18),
            d.high_cluster == le16(block@, 20),
            d.modif_time == le16(block@, 22),
            d.modif_date == le16(block@, 24),
            d.low_cluster == le16(block@, 26),
            d.file_size == le32(block@, 28),
    {
        let mut dir_ent = DirEnt {
            filename: [0; 11],
            file_attr: block[11],
            win_nt: block[12],
            create_time_tsec: block[13],
            create_time: u8stou16(&block[14..16]),
            create_date: u8stou16(&block[16..18]),
            access_date: u8stou16(&block[18..20]),
            high_cluster: u8stou16(&block[20..22]),
            modif_time: u8stou16(&block[22..24]),
            modif_date: u8stou16(&block[24..26]),
            low_cluster: u8stou16(&block[26..28]),
            file_size: u8stou32(&block[28..32]),
        };
        let mut i: usize = 0;
        while i < 11
            invariant
                0 <= i <= 11,
                block@.len() >= 32,
                forall|k: int| 0 <= k < i ==> dir_ent.filename@[k] == block@[k],
                dir_ent.file_attr == block@[11],
                dir_ent.win_nt == block@[12],
                dir_ent.create_time_tsec == block@[13],
                dir_ent.create_time == le16(block@, 14),
                dir_ent.create_date == le16(block@, 16),
                dir_ent.access_date == le16(block@, 18),
                dir_ent.high_cluster == le16(block@, 20),
                dir_ent.modif_time == le16(block@, 22),
                dir_ent.modif_date == le16(block@, 24),
                dir_ent.low_cluster == le16(block@, 26),
                dir_ent.file_size == le32(block@, 28),
            decreases 11 - i,
        {
            dir_ent.filename[i] = block[i];
            i = i + 1;
        }
        assert(dir_ent.filename@ =~= block@.subrange(0, 11));
        dir_ent
    }

    /// Text of a packed FAT time: hours (bits 11..16), minutes (bits 5..11)
    /// and the seconds field (bits 0..5, in units of two seconds), in
    /// decimal, separated by colons and followed by a newline.
    pub fn time_str(time: u16) -> (out: Vec<u8>)
        ensures
            out@ == fat_time_text(time),
    {
        let hour_mask: u16 = 0xF800;
        let minute_mask: u16 = 0x07E0;
        let second_mask: u16 = 0x1F;
        let h: u16 = (time & hour_mask) >> 11u16;
        let m: u16 = (time & minute_mask) >> 5u16;
        let sec: u16 = (time & second_mask) >> 0u16;
        assert(h == time / 2048 && m == (time / 32) % 64 && sec == time % 32) by (bit_vector)
            requires
                h == (time & 0xF800u16) >> 11u16,
                m == (time & 0x07E0u16) >> 5u16,
                sec == (time & 0x1Fu16) >> 0u16,
        ;
        let mut out: Vec<u8> = Vec::new();
        push_dec(&mut out, h as u64);
        push_str(&mut out, ":");
        push_dec(&mut out, m as u64);
        push_str(&mut out, ":");
        push_dec(&mut out, sec as u64);
        push_str(&mut out, "\n");
        assert(Seq::<u8>::empty() + dec_text(h as nat) == dec_text(h as nat));
        out
    }

    /// Text of a packed FAT date as an ISO 8601 calendar date: the year
    /// (1980 plus bits 9..16), the month (bits 5..9) and the day (bits
    /// 0..5), the last two with two digits, separated by hyphens and followed
    /// by a newline.
    pub fn date_str(date: u16) -> (out: Vec<u8>)
        ensures
            out@ == fat_date_text(date),
    {
        let year_mask: u16 = 0xFE00;
        let month_mask: u16 = 0x01E0;
        let day_mask: u16 = 0x001F;
        let yf: u16 = (date & year_mask) >> 9u16;
        let m: u16 = (date & month_mask) >> 5u16;
        let d: u16 = (date & day_mask) >> 0u16;
        assert(yf == date / 512 && m == (date / 32) % 16 && d == date % 32) by (bit_vector)
            requires
                yf == (date & 0xFE00u16) >> 9u16,
                m == (date & 0x01E0u16) >> 5u16,
                d == (date & 0x001Fu16) >> 0u16,
        ;
        let y: u16 = 1980 + yf;
        let mut out: Vec<u8> = Vec::new();
        push_dec(&mut out, y as u64);
        push_str(&mut out, "-");
        push_dec2(&mut out, m);
        push_str(&mut out, "-");
        push_dec2(&mut out, d);
        push_str(&mut out, "\n");
        assert(Seq::<u8>::empty() + dec_text(y as nat) == dec_text(y as nat));
        out
    }
}

/// Hours, minutes and two-second units of a packed FAT time.
pub open spec fn fat_hour(time: u16) -> nat {
    (time / 2048) as nat
}

pub open spec fn fat_minute(time: u16) -> nat {
    ((time / 32) % 64) as nat
}

pub open spec fn fat_second(time: u16) -> nat {
    (time % 32) as nat
}

/// Year, month and day of a packed FAT date.
pub open spec fn fat_year(date: u16) -> nat {
    (1980 + date / 512) as nat
}

pub open spec fn fat_month(date: u16) -> nat {
    ((date / 32) % 16) as nat
}

pub open spec fn fat_day(date: u16) -> nat {
    (date % 32) as nat
}

pub open spec fn fat_time_text(time: u16) -> Seq<u8> {
    dec_text(fat_hour(time)) + ":".spec_bytes() + dec_text(fat_minute(time)) + ":".spec_bytes()
        + dec_text(fat_second(time)) + "\n".spec_bytes()
}

pub open spec fn fat_date_text(date: u16) -> Seq<u8> {
    dec_text(fat_year(date)) + "-".spec_bytes() + dec2_text(fat_month(date)) + "-".spec_bytes()
        + dec2_text(fat_day(date)) + "\n".spec_bytes()
}

/// The fields of a packed time or date stay in their ranges: hours below
/// 32, minutes below 64, two-second units below 32, years from 1980 to
/// 2107, months below 16 and days below 32; and the fields give back the
/// packed value.
pub proof fn lemma_fat_time_date_fields(time: u16, date: u16)
    ensures
        fat_hour(time) < 32,
        fat_minute(time) < 64,
        fat_second(time) < 32,
        fat_hour(time) * 2048 + fat_minute(time) * 32 + fat_second(time) == time,
        1980 <= fat_year(date) <= 2107,
        fat_month(date) < 16,
        fat_day(date) < 32,
        (fat_year(date) - 1980) * 512 + fat_month(date) * 32 + fat_day(date) == date,
{
}

/// First sector of the root directory of a FAT32 volume that starts at
/// `partition_start`: past the reserved sectors and the file allocation
/// tables.
pub open spec fn fat_root_sector(
    bpb: BiosParameterBlock,
    ebpb: ExtBiosParameterBlock,
    partition_start: u32,
) -> int {
    ebpb.num_sec_pfat * bpb.num_fat + bpb.num_rsec + partition_start
}

/// Logical block address of the root directory, computed in 32-bit
/// arithmetic as the volume reader does; the sum must fit.
pub fn fat_root_lba(bpb: &BiosParameterBlock, ebpb: &ExtBiosParameterBlock, partition_start: u32) -> (r: u32)
    requires
        fat_root_sector(*bpb, *ebpb, partition_start) <= u32::MAX,
    ensures
        r == fat_root_sector(*bpb, *ebpb, partition_start),
{
    assert(ebpb.num_sec_pfat * bpb.num_fat <= fat_root_sector(*bpb, *ebpb, partition_start));
    let mut lba: u32 = (ebpb.num_sec_pfat as u32 * bpb.num_fat as u32) + bpb.num_rsec as u32;
    lba = lba + partition_start;
    lba
}

/// The root directory's address when it fits in 32 bits, else `None`.
pub fn fat_root_lba_checked(bpb: &BiosParameterBlock, ebpb: &ExtBiosParameterBlock, partition_start: u32) -> (r: Option<u32>)
    ensures
        r is Some <==> fat_root_sector(*bpb, *ebpb, partition_start) <= u32::MAX,
        r matches Some(v) ==> v == fat_root_sector(*bpb, *ebpb, partition_start),
{
    let a: u64 = ebpb.num_sec_pfat as u64;
    let b: u64 = bpb.num_fat as u64;
    assert(a * b <= 0xFFFF_FFFF * 255) by (nonlinear_arith)
        requires
            a <= 0xFFFF_FFFF,
            b <= 255,
    ;
    let fats: u64 = a * b;
    let total: u64 = fats + bpb.num_rsec as u64 + partition_start as u64;
    if total <= 0xFFFF_FFFF {
        Some(fat_root_lba(bpb, ebpb, partition_start))
    } else {
        None
    }
}

/// What `BiosParameterBlock::dump` prints.
pub open spec fn bpb_dump_text(b: BiosParameterBlock) -> Seq<u8> {
    "BiosParameterBlock: (FAT32)\n".spec_bytes()
        + hex_line("\tOEM:\t0x", b.oem_identifier as nat)
        + hex_line("\tBytes per sector:\t0x", b.bps as nat)
        + hex_line("\tSectors per cluster:\t0x", b.spc as nat)
        + hex_line("\t# Reserved Sectors:\t0x", b.num_rsec as nat)
        + hex_line("\t# FAT's:\t0x", b.num_fat as nat)
        + hex_line("\t# Directories:\t0x", b.num_dirent as nat)
        + hex_line("\tTotal Sectors:\t0x", b.ttl_sectors as nat)
        + hex_line("\t# of Hidden Sectors:\t0x", b.num_hsec as nat)
        + hex_line("\t# of Sectors (Large):\t0x", b.lrg_sec_cnt as nat)
}

/// What `ExtBiosParameterBlock::dump` prints; the volume label is printed
/// as the text its bytes encode.
pub open spec fn ebpb_dump_text(e: ExtBiosParameterBlock) -> Seq<u8> {
    "Extended BIOS Parameter Block (FAT32): \n".spec_bytes()
        + hex_line("\t# of Sectors per FAT:\t0x", e.num_sec_pfat as nat)
        + hex_line("\tFlags:\t0x", e.flags as nat)
        + hex_line("\tFAT Version:\t0x", e.fat_ver as nat)
        + hex_line("\tRoot Cluster:\t0x", e.root_cluster as nat)
        + hex_line("\tFSInfo Sector#:\t0x", e.fs_info_secn as nat)
        + hex_line("\tBackup Boot Sector #:\t0x", e.bck_bsec_secn as nat)
        + hex_line("\tDrive #:\t0x", e.drive_num as nat)
        + hex_line("\tSignature:\t0x", e.signature as nat)
        + hex_line("\tVolume ID:\t0x", e.volume_id as nat)
        + "\tVolume Label:\t".spec_bytes() + e.volume_label@ + "\n".spec_bytes()
        + hex_line("\tSystem Identifier:\t0x", e.sys_identifier as nat)
        + hex_line("\tBoot partition signature:\t0x", e.bp_signature as nat)
}

/// What `DirEnt::dump` prints; the file name is printed as the text its
/// bytes encode.
pub open spec fn dirent_dump_text(d: DirEnt) -> Seq<u8> {
    "Directory Entity (FAT32):\n".spec_bytes() + "\tFilename:\t".spec_bytes() + d.filename@
        + "\n".spec_bytes() + hex_line("\tAttributes:\t0x", d.file_attr as nat)
        + "\tCreate time:\t".spec_bytes() + fat_time_text(d.create_time)
        + "\tCreate date:\t".spec_bytes() + fat_date_text(d.create_date)
        + "\tAccess date:\t".spec_bytes() + fat_date_text(d.access_date)
        + "\tModification time:\t".spec_bytes() + fat_time_text(d.modif_time)
        + "\tModification date:\t".spec_bytes() + fat_date_text(d.modif_date)
        + hex_line("\tHigh cluster:\t0x", d.high_cluster as nat)
        + hex_line("\tLow cluster:\t0x", d.low_cluster as nat)
        + hex_line("\tFile size:\t0x", d.file_size as nat)
}

impl BiosParameterBlock {
    /// The text that describes the parameter block on the serial line.
    pub fn dump(&self) -> (out: Vec<u8>)
        ensures
            out@ == bpb_dump_text(*self),
    {
        let mut out = text_of("BiosParameterBlock: (FAT32)\n");
        push_hex_line(&mut out, "\tOEM:\t0x", self.oem_identifier as u64);
        push_hex_line(&mut out, "\tBytes per sector:\t0x", self.bps as u64);
        push_hex_line(&mut out, "\tSectors per cluster:\t0x", self.spc as u64);
        push_hex_line(&mut out, "\t# Reserved Sectors:\t0x", self.num_rsec as u64);
        push_hex_line(&mut out, "\t# FAT's:\t0x", self.num_fat as u64);
        push_hex_line(&mut out, "\t# Directories:\t0x", self.num_dirent as u64);
        push_hex_line(&mut out, "\tTotal Sectors:\t0x", self.ttl_sectors as u64);
        push_hex_line(&mut out, "\t# of Hidden Sectors:\t0x", self.num_hsec as u64);
        push_hex_line(&mut out, "\t# of Sectors (Large):\t0x", self.lrg_sec_cnt as u64);
        out
    }
}

impl ExtBiosParameterBlock {
    /// The text that describes the extended parameter block on the serial
    /// line. The label is printed as text, which fails unless its bytes are
    /// UTF-8; `requires` leaves such labels out.
    pub fn dump(&self) -> (out: Vec<u8>)
        requires
            valid_utf8(self.volume_label@),
        ensures
            out@ == ebpb_dump_text(*self),
    {
        let mut out = text_of("Extended BIOS Parameter Block (FAT32): \n");
        push_hex_line(&mut out, "\t# of Sectors per FAT:\t0x", self.num_sec_pfat as u64);
        push_hex_line(&mut out, "\tFlags:\t0x", self.flags as u64);
        push_hex_line(&mut out, "\tFAT Version:\t0x", self.fat_ver as u64);
        push_hex_line(&mut out, "\tRoot Cluster:\t0x", self.root_cluster as u64);
        push_hex_line(&mut out, "\tFSInfo Sector#:\t0x", self.fs_info_secn as u64);
        push_hex_line(&mut out, "\tBackup Boot Sector #:\t0x", self.bck_bsec_secn as u64);
        push_hex_line(&mut out, "\tDrive #:\t0x", self.drive_num as u64);
        push_hex_line(&mut out, "\tSignature:\t0x", self.signature as u64);
        push_hex_line(&mut out, "\tVolume ID:\t0x", self.volume_id as u64);
        push_str(&mut out, "\tVolume Label:\t");
        push_bytes(&mut out, self.volume_label.as_slice());
        push_str(&mut out, "\n");
        push_hex_line(&mut out, "\tSystem Identifier:\t0x", self.sys_identifier as u64);
        push_hex_line(&mut out, "\tBoot partition signature:\t0x", self.bp_signature as u64);
        out
    }
}

impl DirEnt {
    /// The text that describes the entry on the serial line. The file name
    /// is printed as text, which fails unless its bytes are UTF-8;
    /// `requires` leaves such names out.
    pub fn dump(&self) -> (out: Vec<u8>)
        requires
            valid_utf8(self.filename@),
        ensures
            out@ == dirent_dump_text(*self),
    {
        let mut out = text_of("Directory Entity (FAT32):\n");
        push_str(&mut out, "\tFilename:\t");
        push_bytes(&mut out, self.filename.as_slice());
        push_str(&mut out, "\n");
        push_hex_line(&mut out, "\tAttributes:\t0x", self.file_attr as u64);
        push_str(&mut out, "\tCreate time:\t");
        let t = Self::time_str(self.create_time);
        push_bytes(&mut out, t.as_slice());
        push_str(&mut out, "\tCreate date:\t");
        let t = Self::date_str(self.create_date);
        push_bytes(&mut out, t.as_slice());
        push_str(&mut out, "\tAccess date:\t");
        let t = Self::date_str(self.access_date);
        push_bytes(&mut out, t.as_slice());
        push_str(&mut out, "\tModification time:\t");
        let t = Self::time_str(self.modif_time);
        push_bytes(&mut out, t.as_slice());
        push_str(&mut out, "\tModification date:\t");
        let t = Self::date_str(self.modif_date);
        push_bytes(&mut out, t.as_slice());
        push_hex_line(&mut out, "\tHigh cluster:\t0x", self.high_cluster as u64);
        push_hex_line(&mut out, "\tLow cluster:\t0x", self.low_cluster as u64);
        push_hex_line(&mut out, "\tFile size:\t0x", self.file_size as u64);
        out
    }
}

} // verus!

//! The master boot record: the first sector of a disk, holding boot code,
//! four partition-table entries and the boot signature.

use vstd::prelude::*;
use vstd::string::StringSliceAdditionalSpecFns;
use crate::bitmath::{le16, le32, u8stou16, u8stou32};
use crate::text::{hex_line, push_hex_line, push_str, text_of};

verus! {

/// Byte value that marks a bootable partition.
pub const BOOTABLE: u8 = 0x80;

/// A cylinder/head/sector address as the entry stores its three bytes.
pub struct CHS {
    pub cylinder: u8,
    pub head: u8,
    pub sector: u8,
}

pub struct PartionTableEntry {
    pub boot: u8,
    pub start_chs: CHS,
    pub part_type: u8,
    pub end_chs: CHS,
    pub start_sector: u32,
    pub part_size: u32,
}

pub struct PartionTable {
    pub part0: PartionTableEntry,
    pub part1: PartionTableEntry,
    pub part2: PartionTableEntry,
    pub part3: PartionTableEntry,
}

pub struct MasterBoostRecord {
    pub code_area: [u8; 446],
    pub mpt: PartionTable,
    /// boot record signature
    pub brs: u16,
}

/// Offset of partition-table entry `i` in the sector.
pub open spec fn entry_offset(i: int) -> int {
    446 + 16 * i
}

/// The entry whose 16 bytes start at `base`.
pub open spec fn partition_entry(s: Seq<u8>, base: int) -> PartionTableEntry {
    PartionTableEntry {
        boot: s[base],
        start_chs: CHS { cylinder: s[base + 1], head: s[base + 2], sector: s[base + 3] },
        part_type: s[base + 4],
        end_chs: CHS { cylinder: s[base + 5], head: s[base + 6], sector: s[base + 7] },
        start_sector: le32(s, base + 8) as u32,
        part_size: le32(s, base + 12) as u32,
    }
}

fn parse_entry(s: &[u8], base: usize) -> (e: PartionTableEntry)
    requires
        base + 16 <= s@.len(),
    ensures
        e == partition_entry(s@, base as int),
{
    let e = PartionTableEntry {
        boot: s[base],
        start_chs: CHS { cylinder: s[base + 1], head: s[base + 2], sector: s[base + 3] },
        part_type: s[base + 4],
        end_chs: CHS { cylinder: s[base + 5], head: s[base + 6], sector: s[base + 7] },
        start_sector: u8stou32(&s[base + 8..base + 12]),
        part_size: u8stou32(&s[base + 12..base + 16]),
    };
    assert(s@.subrange(base + 8, base + 12)[3] == s@[base + 11]);
    e
}

impl MasterBoostRecord {
    /// Reads the record from a disk's first sector: the four partition
    /// entries and the signature. The boot code is not kept: the copy
    /// between the sector and the record runs from the record's (zeroed)
    /// code area into the sector, so `code_area` stays all zeros.
    pub fn new(mbr_buf: [u8; 512]) -> (m: Self)
        ensures
            m.code_area@ == Seq::new(446, |i: int| 0u8),
            m.mpt.part0 == partition_entry(mbr_buf@, entry_offset(0)),
            m.mpt.part1 == partition_entry(mbr_buf@, entry_offset(1)),
            m.mpt.part2 == partition_entry(mbr_buf@, entry_offset(2)),
            m.mpt.part3 == partition_entry(mbr_buf@, entry_offset(3)),
            m.brs == le16(mbr_buf@, 510),
    {
        let s = mbr_buf.as_slice();
        let m = MasterBoostRecord {
            code_area: [0; 446],
            mpt: PartionTable {
                part0: parse_entry(s, 446),
                part1: parse_entry(s, 462),
                part2: parse_entry(s, 478),
                part3: parse_entry(s, 494),
            },
            brs: u8stou16(&s[510..512]),
        };
        assert(m.code_area@ =~= Seq::new(446, |i: int| 0u8));
        m
    }

    /// The text that describes the four partitions on the serial line.
    pub fn dump(&self) -> (out: Vec<u8>)
        ensures
            out@ == mbr_dump_text(*self),
    {
        let mut out = text_of("Part0:\n");
        push_entry_lines(&mut out, &self.mpt.part0);
        push_str(&mut out, "Part1: \n");
        push_entry_lines(&mut out, &self.mpt.part1);
        push_str(&mut out, "Part2: \n");
        push_entry_lines(&mut out, &self.mpt.part2);
        push_str(&mut out, "Part3: \n");
        push_entry_lines(&mut out, &self.mpt.part3);
        out
    }
}

/// The four lines that describe one partition.
pub open spec fn entry_text(e: PartionTableEntry) -> Seq<u8> {
    hex_line("\tboot:\t0x", e.boot as nat) + hex_line("\ttype:\t0x", e.part_type as nat)
        + hex_line("\tstart:\t0x", e.start_sector as nat) + hex_line("\tsize:\t0x", e.part_size as nat)
}

/// What `MasterBoostRecord::dump` prints.
pub open spec fn mbr_dump_text(m: MasterBoostRecord) -> Seq<u8> {
    "Part0:\n".spec_bytes() + entry_text(m.mpt.part0) + "Part1: \n".spec_bytes() + entry_text(
        m.mpt.part1,
    ) + "Part2: \n".spec_bytes() + entry_text(m.mpt.part2) + "Part3: \n".spec_bytes()
        + entry_text(m.mpt.part3)
}

/// The lines for the partition entry whose 16 bytes start at `base` of a
/// sector: the boot flag (byte 0), the type (byte 4), the first sector
/// (bytes 8..12) and the size (bytes 12..16), little-endian.
pub open spec fn sector_entry_lines(sector: Seq<u8>, base: int) -> Seq<u8> {
    hex_line("\tboot:\t0x", sector[base] as nat) + hex_line("\ttype:\t0x", sector[base + 4] as nat)
        + hex_line("\tstart:\t0x", le32(sector, base + 8) as nat) + hex_line(
        "\tsize:\t0x",
        le32(sector, base + 12) as nat,
    )
}

/// The dump of a record read from a sector describes, under the header
/// `PartN`, the entry at byte 446 + 16 * N of that sector, for N from 0 to
/// 3 in order.
pub proof fn lemma_mbr_dump_follows_sector(sector: Seq<u8>, m: MasterBoostRecord)
    requires
        sector.len() == 512,
        m.mpt.part0 == partition_entry(sector, entry_offset(0)),
        m.mpt.part1 == partition_entry(sector, entry_offset(1)),
        m.mpt.part2 == partition_entry(sector, entry_offset(2)),
        m.mpt.part3 == partition_entry(sector, entry_offset(3)),
    ensures
        mbr_dump_text(m) == "Part0:\n".spec_bytes() + sector_entry_lines(sector, 446) + "Part1: \n".spec_bytes()
            + sector_entry_lines(sector, 462) + "Part2: \n".spec_bytes() + sector_entry_lines(sector, 478)
            + "Part3: \n".spec_bytes() + sector_entry_lines(sector, 494),
{
    lemma_entry_lines(sector, 446);
    lemma_entry_lines(sector, 462);
    lemma_entry_lines(sector, 478);
    lemma_entry_lines(sector, 494);
}

proof fn lemma_entry_lines(sector: Seq<u8>, base: int)
    requires
        0 <= base && base + 16 <= sector.len(),
    ensures
        entry_text(partition_entry(sector, base)) == sector_entry_lines(sector, base),
{
    assert(le32(sector, base + 8) < 0x1_0000_0000);
    assert(le32(sector, base + 12) < 0x1_0000_0000);
}

fn push_entry_lines(out: &mut Vec<u8>, e: &PartionTableEntry)
    ensures
        final(out)@ == old(out)@ + entry_text(*e),
{
    let ghost start = out@;
    push_hex_line(out, "\tboot:\t0x", e.boot as u64);
    push_hex_line(out, "\ttype:\t0x", e.part_type as u64);
    push_hex_line(out, "\tstart:\t0x", e.start_sector as u64);
    push_hex_line(out, "\tsize:\t0x", e.part_size as u64);
    assert(out@ == start + entry_text(*e));
}

} // verus!

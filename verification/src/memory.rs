//! Kernel memory: the physical-to-virtual offset and the translation of a
//! virtual address through the ARMv7 short-descriptor page tables.

use vstd::prelude::*;

verus! {

/// The kernel heap. No memory is handed out yet: every request fails.
pub struct Heap;

impl Heap {
    /// The address of a block of `size` bytes aligned to `align`, if the
    /// heap has one; it never has.
    pub fn allocate(&self, size: usize, align: usize) -> (r: Option<usize>)
        ensures
            r is None,
    {
        None
    }
}

/// Offset of the kernel's virtual mapping of physical memory.
pub const KERNEL_VIRTUAL_BASE: usize = 0x8000_0000;

/// Physical address of the first-level page table.
pub const PAGETABLE_PHYS: usize = 0x4000;

/// Value returned for an address that nothing maps.
pub const UNMAPPED: usize = 0xFFFF_FFFF;

/// The kernel virtual address of a physical one.
pub fn mem_p2v(paddr: usize) -> (v: usize)
    requires
        paddr + KERNEL_VIRTUAL_BASE <= usize::MAX,
    ensures
        v == paddr + KERNEL_VIRTUAL_BASE,
{
    paddr + KERNEL_VIRTUAL_BASE
}

/// The physical address a section descriptor gives for `vaddr`: the frame
/// in the descriptor's top twelve bits plus the offset within the 1 MiB
/// section, or within the 16 MiB supersection when bit 18 is set.
pub open spec fn section_address(pt_data: usize, vaddr: usize) -> int {
    if pt_data & (1usize << 18usize) != 0 {
        (pt_data & 0xFFF0_0000) + (vaddr & 0x00FF_FFFF)
    } else {
        (pt_data & 0xFFF0_0000) + (vaddr & 0x000F_FFFF)
    }
}

/// Translation by a first-level descriptor: `None` when a second-level
/// (coarse) table must be consulted; a section maps 1 MiB and a
/// supersection (bit 18) 16 MiB; descriptor types 0 and 3 map nothing.
pub open spec fn first_level_translation(pt_data: usize, vaddr: usize) -> Option<int> {
    if pt_data & 3 == 0 || pt_data & 3 == 3 {
        Some(UNMAPPED as int)
    } else if pt_data & 3 == 2 {
        Some(section_address(pt_data, vaddr))
    } else {
        None
    }
}

/// Translation by a second-level (coarse table) descriptor: a small page
/// maps 4 KiB and a large page 64 KiB; type 0 maps nothing.
pub open spec fn second_level_translation(cpt_data: usize, vaddr: usize) -> usize {
    if cpt_data & 3 == 0 {
        UNMAPPED
    } else if cpt_data & 2 != 0 {
        ((cpt_data & 0xFFFF_F000) + (vaddr & 0xFFF)) as usize
    } else {
        ((cpt_data & 0xFFFF_0000) + (vaddr & 0xFFFF)) as usize
    }
}

/// Translation by a first-level descriptor (the section address must fit,
/// as the addition would otherwise overflow).
pub fn translate_first_level(pt_data: usize, vaddr: usize) -> (r: Option<usize>)
    requires
        pt_data & 3 == 2 ==> section_address(pt_data, vaddr) <= usize::MAX,
    ensures
        r matches Some(p) ==> first_level_translation(pt_data, vaddr) == Some(p as int),
        r is None <==> first_level_translation(pt_data, vaddr) is None,
{
    if (pt_data & 3) == 0 || (pt_data & 3) == 3 {
        return Some(UNMAPPED);
    }
    if (pt_data & 3) == 2 {
        let mut paddr: usize = pt_data & 0xFFF0_0000;
        if (pt_data & (1 << 18)) != 0 {
            paddr = paddr + (vaddr & 0x00FF_FFFF);
        } else {
            paddr = paddr + (vaddr & 0x000F_FFFF);
        }
        return Some(paddr);
    }
    None
}

/// Translation by a coarse-table descriptor.
pub fn translate_second_level(cpt_data: usize, vaddr: usize) -> (r: usize)
    ensures
        r == second_level_translation(cpt_data, vaddr),
{
    if (cpt_data & 3) == 0 {
        return UNMAPPED;
    }
    assert((cpt_data & 0xFFFF_F000) + (vaddr & 0xFFF) <= 0xFFFF_FFFF && (cpt_data & 0xFFFF_0000) + (
    vaddr & 0xFFFF) <= 0xFFFF_FFFF) by (bit_vector);
    if (cpt_data & 2) != 0 {
        return (cpt_data & 0xFFFF_F000) + (vaddr & 0xFFF);
    }
    (cpt_data & 0xFFFF_0000) + (vaddr & 0xFFFF)
}

/// A section keeps the offset within its megabyte and takes the frame from
/// the descriptor's top twelve bits; a supersection keeps the offset within
/// its 16 MiB.
pub proof fn lemma_section_translation(pt_data: usize, vaddr: usize)
    requires
        pt_data & 3 == 2,
        section_address(pt_data, vaddr) <= usize::MAX,
    ensures
        first_level_translation(pt_data, vaddr) matches Some(p) && {
            &&& (p as usize) & 0xF_FFFF == vaddr & 0xF_FFFF
            &&& pt_data & (1usize << 18usize) == 0 ==> (p as usize) & 0xFFF0_0000 == pt_data
                & 0xFFF0_0000
            &&& pt_data & (1usize << 18usize) != 0 ==> p == (pt_data & 0xFFF0_0000) + (vaddr
                & 0xFF_FFFF)
        },
{
    let p = section_address(pt_data, vaddr);
    if pt_data & (1usize << 18usize) != 0 {
        assert(((pt_data & 0xFFF0_0000) + (vaddr & 0xFF_FFFF)) as usize & 0xF_FFFF == vaddr & 0xF_FFFF)
            by (bit_vector)
            requires
                (pt_data & 0xFFF0_0000) + (vaddr & 0xFF_FFFF) == ((pt_data & 0xFFF0_0000) + (vaddr
                    & 0xFF_FFFF)) as usize,
        ;
    } else {
        assert(((pt_data & 0xFFF0_0000) + (vaddr & 0xF_FFFF)) as usize & 0xF_FFFF == vaddr & 0xF_FFFF
            && ((pt_data & 0xFFF0_0000) + (vaddr & 0xF_FFFF)) as usize & 0xFFF0_0000 == pt_data
            & 0xFFF0_0000) by (bit_vector)
            requires
                (pt_data & 0xFFF0_0000) + (vaddr & 0xF_FFFF) == ((pt_data & 0xFFF0_0000) + (vaddr
                    & 0xF_FFFF)) as usize,
        ;
    }
}

/// A coarse-table descriptor maps a page: with type 0 nothing (the result
/// is 0xFFFF_FFFF); a small page (bit 1 set) keeps the whole 12-bit offset
/// within its 4 KiB and takes the frame from the descriptor's top twenty
/// bits; a large page keeps the 16-bit offset within its 64 KiB and takes
/// the frame from the descriptor's top sixteen bits.
pub proof fn lemma_page_translation(cpt_data: usize, vaddr: usize)
    ensures
        cpt_data & 3 == 0 ==> second_level_translation(cpt_data, vaddr) == 0xFFFF_FFFF,
        cpt_data & 3 != 0 && cpt_data & 2 != 0 ==> {
            &&& second_level_translation(cpt_data, vaddr) & 0xFFF == vaddr & 0xFFF
            &&& second_level_translation(cpt_data, vaddr) & 0xFFFF_F000 == cpt_data & 0xFFFF_F000
            &&& second_level_translation(cpt_data, vaddr) <= 0xFFFF_FFFF
        },
        cpt_data & 3 != 0 && cpt_data & 2 == 0 ==> {
            &&& second_level_translation(cpt_data, vaddr) & 0xFFFF == vaddr & 0xFFFF
            &&& second_level_translation(cpt_data, vaddr) & 0xFFFF_0000 == cpt_data & 0xFFFF_0000
            &&& second_level_translation(cpt_data, vaddr) <= 0xFFFF_FFFF
        },
{
    let small = ((cpt_data & 0xFFFF_F000) + (vaddr & 0xFFF)) as usize;
    let large = ((cpt_data & 0xFFFF_0000) + (vaddr & 0xFFFF)) as usize;
    assert(small & 0xFFF == vaddr & 0xFFF && small & 0xFFFF_F000 == cpt_data & 0xFFFF_F000 && small
        <= 0xFFFF_FFFF && large & 0xFFFF == vaddr & 0xFFFF && large & 0xFFFF_0000 == cpt_data
        & 0xFFFF_0000 && large <= 0xFFFF_FFFF) by (bit_vector)
        requires
            small == ((cpt_data & 0xFFFF_F000) + (vaddr & 0xFFF)) as usize,
            large == ((cpt_data & 0xFFFF_0000) + (vaddr & 0xFFFF)) as usize,
    ;
}

/// The walk: a fault or reserved first-level descriptor maps nothing, a
/// section or supersection gives its translation, and a coarse-table
/// descriptor defers to the page the coarse entry maps.
pub proof fn lemma_walk(vaddr: usize, pt_data: usize, cpt_data: usize)
    ensures
        (pt_data & 3 == 0 || pt_data & 3 == 3) ==> walk(vaddr, pt_data, cpt_data) == 0xFFFF_FFFF,
        pt_data & 3 == 2 ==> walk(vaddr, pt_data, cpt_data) == section_address(pt_data, vaddr),
        pt_data & 3 == 1 ==> walk(vaddr, pt_data, cpt_data) == second_level_translation(cpt_data, vaddr),
{
}

/// Kernel virtual address of the first-level entry for `vaddr`: one
/// 32-bit word per megabyte in the table at `PAGETABLE_PHYS`.
pub open spec fn first_level_entry(vaddr: usize) -> int {
    KERNEL_VIRTUAL_BASE + PAGETABLE_PHYS + 4 * (vaddr / 0x10_0000)
}

pub fn first_level_entry_address(vaddr: usize) -> (a: usize)
    ensures
        a == first_level_entry(vaddr),
{
    let table: usize = mem_p2v(PAGETABLE_PHYS);
    let idx: usize = vaddr >> 20usize;
    assert(idx == vaddr / 0x10_0000 && 0x8000_4000 + 4 * idx == (0x8000_4000 + 4 * idx) as usize)
        by (bit_vector)
        requires
            idx == vaddr >> 20usize,
    ;
    table + 4 * idx
}

/// Whether a first-level descriptor points to a coarse table, whose entry
/// for the address must then be read.
pub fn needs_coarse_entry(pt_data: usize) -> (b: bool)
    ensures
        b == (pt_data & 3 == 1),
{
    (pt_data & 3) == 1
}

/// Kernel virtual address of the entry for `vaddr` in the coarse table that
/// descriptor `pt_data` points to: 256 words, indexed by bits 12..20.
pub open spec fn coarse_entry(pt_data: usize, vaddr: usize) -> int {
    KERNEL_VIRTUAL_BASE + (pt_data & 0xFFFF_FC00) + 4 * ((vaddr / 0x1000) % 0x100)
}

/// The address of the coarse entry; it must fit.
pub fn coarse_entry_address(pt_data: usize, vaddr: usize) -> (a: usize)
    requires
        coarse_entry(pt_data, vaddr) <= usize::MAX,
    ensures
        a == coarse_entry(pt_data, vaddr),
{
    let k: usize = (vaddr >> 12usize) & 0xFF;
    assert(k == (vaddr / 0x1000) % 0x100) by (bit_vector)
        requires
            k == (vaddr >> 12usize) & 0xFF,
    ;
    KERNEL_VIRTUAL_BASE + (pt_data & 0xFFFF_FC00) + 4 * k
}

/// What the page-table walk gives for `vaddr`, from its first-level
/// descriptor and, for a coarse table, its second-level descriptor.
pub open spec fn walk(vaddr: usize, pt_data: usize, cpt_data: usize) -> int {
    match first_level_translation(pt_data, vaddr) {
        Some(p) => p,
        None => second_level_translation(cpt_data, vaddr) as int,
    }
}

/// Physical address of a kernel virtual address, given the first-level
/// entry `pt_data` read at `first_level_entry_address(vaddr)` and, when
/// `needs_coarse_entry(pt_data)`, the coarse entry `cpt_data` read at
/// `coarse_entry_address(pt_data, vaddr)` (otherwise it is not looked at).
/// Faults and reserved descriptors give `UNMAPPED`; a section or
/// supersection address must fit.
pub fn mem_v2p(vaddr: usize, pt_data: usize, cpt_data: usize) -> (r: usize)
    requires
        pt_data & 3 == 2 ==> section_address(pt_data, vaddr) <= usize::MAX,
    ensures
        r == walk(vaddr, pt_data, cpt_data),
{
    match translate_first_level(pt_data, vaddr) {
        Some(p) => p,
        None => translate_second_level(cpt_data, vaddr),
    }
}

} // verus!

use krust::dma::{DmaChannel, DmaControlBlock};
use krust::fs::btrfs::{BlockGroupItemAllocationType, BlockGroupItemReplicationPolicy, FileType, INodeFlags};
use krust::fs::ext2::{ErrorHandle, FileSystemState, OSId};
use krust::memory::{
    coarse_entry_address, first_level_entry_address, mem_p2v, mem_v2p, needs_coarse_entry, translate_first_level,
    translate_second_level, Heap, UNMAPPED,
};
use krust::mmu::granule_supported;
use krust::time::{wait_deadline, wait_over};

#[test]
fn kernel_mapping() {
    assert_eq!(mem_p2v(0x4000), 0x8000_4000);
    assert_eq!(mem_p2v(0), 0x8000_0000);
}

#[test]
fn first_level_descriptors() {
    // Fault and reserved descriptors map nothing.
    assert_eq!(translate_first_level(0x0000_0000, 0x1234_5678), Some(UNMAPPED));
    assert_eq!(translate_first_level(0x0000_0003, 0x1234_5678), Some(UNMAPPED));
    // A 1 MiB section keeps the offset within the megabyte.
    assert_eq!(translate_first_level(0x3F00_0C02, 0x1234_5678), Some(0x3F04_5678));
    // A 16 MiB supersection keeps 24 bits of offset.
    assert_eq!(translate_first_level(0x3F04_0C02, 0x1234_5678), Some(0x3F00_0000 + 0x0034_5678));
    // A coarse table needs the second level.
    assert_eq!(translate_first_level(0x0000_4001, 0x1234_5678), None);
}

#[test]
fn second_level_descriptors() {
    assert_eq!(translate_second_level(0, 0x1234_5678), UNMAPPED);
    assert_eq!(translate_second_level(0x0ABC_D002, 0x1234_5678), 0x0ABC_D678);
    assert_eq!(translate_second_level(0x0ABC_0001, 0x1234_5678), 0x0ABC_5678);
}

#[test]
fn page_table_walk() {
    let v = 0x1234_5678;
    assert_eq!(first_level_entry_address(v), 0x8000_4000 + 4 * 0x123);
    // Nothing mapped.
    assert_eq!(mem_v2p(v, 0, 0xFFFF), UNMAPPED);
    assert_eq!(mem_v2p(v, 0x3F00_0003, 0xFFFF), UNMAPPED);
    // 1 MiB section and 16 MiB supersection.
    assert_eq!(mem_v2p(v, 0x3F00_0C02, 0), 0x3F04_5678);
    assert_eq!(mem_v2p(v, 0x3F04_0C02, 0), 0x3F34_5678);
    // A coarse table at physical 0x0010_0400.
    let pt = 0x0010_0401;
    assert!(needs_coarse_entry(pt));
    assert!(!needs_coarse_entry(0x3F00_0C02));
    assert_eq!(coarse_entry_address(pt, v), 0x8000_0000 + 0x0010_0400 + 4 * 0x45);
    assert_eq!(mem_v2p(v, pt, 0x0ABC_D002), 0x0ABC_D678);
    assert_eq!(mem_v2p(v, pt, 0x0ABC_0001), 0x0ABC_5678);
    assert_eq!(mem_v2p(v, pt, 0x0ABC_0000), UNMAPPED);
}

#[test]
fn memory_model_check() {
    // 36-bit physical addresses and a 4 KiB granule.
    assert!(granule_supported(0x1));
    assert!(granule_supported(0x0F00_0005));
    // A 32-bit physical address range.
    assert!(!granule_supported(0));
    // No 4 KiB granule.
    assert!(!granule_supported(0xF000_0000));
    assert!(!granule_supported(0xF000_0001));
}

#[test]
fn timer_deadlines() {
    // 19.2 MHz counter, 1000 ms: 19 200 ticks per ms, over 1000.
    assert_eq!(wait_deadline(100, 19_200_000, 1000), 100 + 19_200);
    assert_eq!(wait_deadline(5, 999, 7), 5);
    assert!(!wait_over(10, 10));
    assert!(wait_over(11, 10));
}

#[test]
fn dma_registers_and_blocks() {
    let c = DmaChannel::channel0();
    assert_eq!(c.addr, 0x3F00_7000);
    assert_eq!(c.cs_register(), 0x3F00_7000);
    assert_eq!(c.cba_register(), 0x3F00_7004);
    assert!(DmaChannel::transfer_ended(0x2));
    assert!(!DmaChannel::transfer_ended(0x1));
    let cb = DmaControlBlock::sd_block_read(0x0010_0000);
    assert_eq!((cb.ti, cb.src, cb.dst, cb.len, cb.stride, cb.ncba), (0x000B_0410, 0x7E30_0020, 0x0010_0000, 512, 0, 0));
}

#[test]
fn file_system_codes() {
    assert_eq!(FileSystemState::Clean.code(), 1);
    assert_eq!(FileSystemState::Error.code(), 2);
    assert_eq!(ErrorHandle::Panic.code(), 3);
    assert_eq!(OSId::Linux.code(), 0);
    assert_eq!(OSId::Lite.code(), 4);
    assert_eq!(BlockGroupItemAllocationType::Metadata.code(), 0x4);
    assert_eq!(BlockGroupItemReplicationPolicy::Raid6.code(), 0x100);
    assert_eq!(FileType::Xattr.code(), 8);
    assert_eq!(INodeFlags::Compress.code(), 0x800);
}

#[test]
fn heap_hands_out_nothing() {
    let heap = Heap;
    assert_eq!(heap.allocate(16, 8), None);
    assert_eq!(heap.allocate(0, 1), None);
}

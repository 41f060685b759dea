# krust

A small bare-metal kernel for the Raspberry Pi 3 (with an x86 side for PCI
and an RTL8139 network card), whose decision-making core is a Verus-verified
library.

## Layout

- `src/` — the verified library. Every function carries a contract:
  - `bitmath`, `text`: byte assembly, hexadecimal and decimal text.
  - `mbr`, `fat`, `fs`: on-disk structures (partition table, FAT32
    parameter blocks and directory entries, Btrfs and Ext2 records).
  - `sdhci`: the SD host controller driver as step functions from state and
    event to next state and action (initialisation, commands, clock, block
    reads, waits), plus the block dump.
  - `mailbox`, `postman`, `screen`, `font`, `exported_image`, `dma`: the
    VideoCore mailbox messages, framebuffer set-up, test patterns, glyphs and
    DMA control blocks.
  - `gpio`, `uart`, `led`, `time`, `memory`, `mmu`: register programs, the
    mini UART's text, timer deadlines, page-table translation and the CPU
    feature check.
  - `pci`, `rtl8139`: PCI configuration addresses, header decoding and
    names, and the network card's start-up and transmit reclaim.
- `app/` — the kernel around the library: register and port access, the
  loops that perform the library's actions against the hardware, console
  output and interrupt handlers.
- `tests/` — tests of the library on concrete values.

//! PCI configuration mechanism #1: configuration-space addresses, decoding
//! of the header words read back, and human-readable class names.

use vstd::prelude::*;
use vstd::string::is_ascii;
use crate::text::{hex_line, push_hex_line, push_str};
use vstd::string::StringSliceAdditionalSpecFns;
use vstd::utf8::encode_utf8;

verus! {

#[verifier::external_type_specification]
#[verifier::external_body]
pub struct ExHeaplessString<const N: usize>(heapless::String<N>);

/// Text held by a 24-byte heapless string.
pub uninterp spec fn heapless_text(s: heapless::String<24>) -> Seq<char>;

/// `heapless::String::<24>::from(s)`: pushes the bytes of `s` into an empty
/// string and unwraps the push, which fails (and so panics) when the bytes
/// exceed the capacity; `requires` rules that out. The result holds exactly
/// the text of `s`.
#[verifier::external_body]
fn heapless_from(s: &str) -> (r: heapless::String<24>)
    requires
        is_ascii(s),
        s@.len() <= 24,
    ensures
        heapless_text(r) == s@,
{
    heapless::String::from(s)
}

/// `heapless::String::as_str`: the string's bytes read as text, which is
/// exactly the text the string holds.
#[verifier::external_body]
fn heapless_as_str(s: &heapless::String<24>) -> (r: &str)
    ensures
        r@ == heapless_text(*s),
{
    s.as_str()
}

/// Address word of the configuration mechanism, as `pci_conf1_address`
/// builds it: the enable bit, the bus in bits 16..24, the device/function
/// number in bits 8..16 and, OR-ed into the low byte, the function number
/// with its two low bits cleared (the register argument is not used).
pub open spec fn conf1_address(bus: u8, devfn: u8) -> u32 {
    0x8000_0000u32 | ((bus as u32) << 16u32) | ((devfn as u32) << 8u32) | ((devfn as u32) & 0xFCu32)
}

pub fn pci_conf1_address(bus: u8, devfn: u8, reg: u16) -> (r: u32)
    ensures
        r == conf1_address(bus, devfn),
{
    let lreg: u32 = bus as u32;
    let ldevfn: u32 = devfn as u32;
    let lreg: u32 = devfn as u32;
    let lbus: u32 = bus as u32;
    assert(0x8000_0000u32 | ((lreg & 0xF00u32) << 16u32) | (lbus << 16u32) | (ldevfn << 8u32) | (
    lreg & 0xFCu32) == 0x8000_0000u32 | (lbus << 16u32) | (ldevfn << 8u32) | (ldevfn & 0xFCu32))
        by (bit_vector)
        requires
            lreg == ldevfn,
            lreg < 256u32,
    ;
    0x8000_0000u32 | ((lreg & 0xF00u32) << 16u32) | (lbus << 16u32) | (ldevfn << 8u32) | (lreg
        & 0xFCu32)
}

/// Address word for a (bus, slot, function, register) quadruple: the enable
/// bit, the high nibble of the register in bits 24..28, the bus in bits
/// 16..24, the slot from bit 11, the function from bit 8, and the register's
/// dword offset in the low byte.
pub open spec fn slconf1_address(bus: u8, slot: u8, devfn: u8, reg: u16) -> u32 {
    0x8000_0000u32 | (((reg as u32) & 0xF00u32) << 16u32) | ((bus as u32) << 16u32) | ((slot as u32)
        << 11u32) | ((devfn as u32) << 8u32) | ((reg as u32) & 0xFCu32)
}

pub fn pci_slconf1_address(bus: u8, slot: u8, devfn: u8, reg: u16) -> (r: u32)
    ensures
        r == slconf1_address(bus, slot, devfn, reg),
{
    let lreg: u32 = reg as u32;
    let ldevfn: u32 = devfn as u32;
    let lbus: u32 = bus as u32;
    let lslot: u32 = slot as u32;
    0x8000_0000u32 | ((lreg & 0xF00u32) << 16u32) | (lbus << 16u32) | (lslot << 11u32) | (ldevfn
        << 8u32) | (lreg & 0xFCu32)
}

/// Every configuration address selects a dword: the enable bit is set, the
/// two low bits are clear, and for a slot below 32 and a function below 8
/// each field is read back from its bits.
pub proof fn lemma_slconf1_address_fields(bus: u8, slot: u8, devfn: u8, reg: u16)
    requires
        slot < 32,
        devfn < 8,
    ensures
        ({
            let a = slconf1_address(bus, slot, devfn, reg);
            &&& a & 0x8000_0000u32 == 0x8000_0000u32
            &&& a & 3u32 == 0u32
            &&& (a >> 16u32) & 0xFFu32 == bus as u32
            &&& (a >> 11u32) & 0x1Fu32 == slot as u32
            &&& (a >> 8u32) & 7u32 == devfn as u32
            &&& a & 0xFCu32 == (reg as u32) & 0xFCu32
            &&& (a >> 24u32) & 0xFu32 == ((reg as u32) >> 8u32) & 0xFu32
        }),
{
    let b = bus as u32;
    let s = slot as u32;
    let d = devfn as u32;
    let g = reg as u32;
    assert({
        let a = 0x8000_0000u32 | ((g & 0xF00u32) << 16u32) | (b << 16u32) | (s << 11u32) | (d
            << 8u32) | (g & 0xFCu32);
        &&& a & 0x8000_0000u32 == 0x8000_0000u32
        &&& a & 3u32 == 0u32
        &&& (a >> 16u32) & 0xFFu32 == b
        &&& (a >> 11u32) & 0x1Fu32 == s
        &&& (a >> 8u32) & 7u32 == d
        &&& a & 0xFCu32 == g & 0xFCu32
        &&& (a >> 24u32) & 0xFu32 == (g >> 8u32) & 0xFu32
    }) by (bit_vector)
        requires
            b < 256u32,
            s < 32u32,
            d < 8u32,
            g < 0x1_0000u32,
    ;
}

/// The fields of the first four dwords of any PCI configuration header.
pub struct PciCommonHeader {
    pub vendor_id: u32,
    pub device_id: u32,
    pub command: u32,
    pub status: u32,
    pub revision_id: u32,
    pub prog_if: u32,
    pub subclass_code: u32,
    pub class_code: u32,
    pub cache_line_size: u32,
    pub latency_timer: u32,
    pub header_type: u32,
    pub bist: u32,
}

/// Low and high halves of a dword.
pub open spec fn lo16(w: u32) -> int {
    w as int % 0x1_0000
}

pub open spec fn hi16(w: u32) -> int {
    w as int / 0x1_0000
}

/// The four bytes of a dword, least significant first.
pub open spec fn byte0(w: u32) -> int {
    w as int % 0x100
}

pub open spec fn byte1(w: u32) -> int {
    (w as int / 0x100) % 0x100
}

pub open spec fn byte2(w: u32) -> int {
    (w as int / 0x1_0000) % 0x100
}

pub open spec fn byte3(w: u32) -> int {
    w as int / 0x100_0000
}

fn split16(w: u32) -> (r: (u32, u32))
    ensures
        r.0 == lo16(w),
        r.1 == hi16(w),
{
    assert((w & 0x0000FFFFu32) >> 0u32 == w % 0x1_0000u32 && (w & 0xFFFF0000u32) >> 16u32 == w
        / 0x1_0000u32) by (bit_vector);
    ((w & 0x0000FFFFu32) >> 0u32, (w & 0xFFFF0000u32) >> 16u32)
}

fn split8(w: u32) -> (r: (u32, u32, u32, u32))
    ensures
        r.0 == byte0(w),
        r.1 == byte1(w),
        r.2 == byte2(w),
        r.3 == byte3(w),
{
    assert((w & 0x000000FFu32) >> 0u32 == w % 0x100u32 && (w & 0x0000FF00u32) >> 8u32 == (w
        / 0x100u32) % 0x100u32 && (w & 0x00FF0000u32) >> 16u32 == (w / 0x1_0000u32) % 0x100u32
        && (w & 0xFF000000u32) >> 24u32 == w / 0x100_0000u32) by (bit_vector);
    (
        (w & 0x000000FFu32) >> 0u32,
        (w & 0x0000FF00u32) >> 8u32,
        (w & 0x00FF0000u32) >> 16u32,
        (w & 0xFF000000u32) >> 24u32,
    )
}

impl PciCommonHeader {
    /// Decodes the dwords at offsets 0x00, 0x04, 0x08 and 0x0C.
    pub fn decode(block0: u32, block1: u32, block2: u32, block3: u32) -> (h: Self)
        ensures
            h.vendor_id == lo16(block0),
            h.device_id == hi16(block0),
            h.command == lo16(block1),
            h.status == hi16(block1),
            h.revision_id == byte0(block2),
            h.prog_if == byte1(block2),
            h.subclass_code == byte2(block2),
            h.class_code == byte3(block2),
            h.cache_line_size == byte0(block3),
            h.latency_timer == byte1(block3),
            h.header_type == byte2(block3),
            h.bist == byte3(block3),
    {
        let (vendor_id, device_id) = split16(block0);
        let (command, status) = split16(block1);
        let (revision_id, prog_if, subclass_code, class_code) = split8(block2);
        let (cache_line_size, latency_timer, header_type, bist) = split8(block3);
        PciCommonHeader {
            vendor_id,
            device_id,
            command,
            status,
            revision_id,
            prog_if,
            subclass_code,
            class_code,
            cache_line_size,
            latency_timer,
            header_type,
            bist,
        }
    }
}

/// Decoding keeps every bit of the four dwords: the fields recombine into
/// them.
pub proof fn lemma_common_header_complete(block0: u32, block1: u32, block2: u32, block3: u32)
    ensures
        lo16(block0) + hi16(block0) * 0x1_0000 == block0,
        lo16(block1) + hi16(block1) * 0x1_0000 == block1,
        byte0(block2) + byte1(block2) * 0x100 + byte2(block2) * 0x1_0000 + byte3(block2) * 0x100_0000
            == block2,
        byte0(block3) + byte1(block3) * 0x100 + byte2(block3) * 0x1_0000 + byte3(block3) * 0x100_0000
            == block3,
{
    lemma_bytes_recombine(block2);
    lemma_bytes_recombine(block3);
}

proof fn lemma_bytes_recombine(w: u32)
    ensures
        byte0(w) + byte1(w) * 0x100 + byte2(w) * 0x1_0000 + byte3(w) * 0x100_0000 == w,
{
    let x = w as int;
    assert(x == (x / 0x100) * 0x100 + x % 0x100);
    let y = x / 0x100;
    assert(y == (y / 0x100) * 0x100 + y % 0x100);
    assert(y / 0x100 == x / 0x1_0000);
    let z = x / 0x1_0000;
    assert(z == (z / 0x100) * 0x100 + z % 0x100);
    assert(z / 0x100 == x / 0x100_0000);
}

/// Which layout follows the common part of a header.
#[derive(Clone, Copy, Debug)]
pub enum PciHeaderLayout {
    General,
    PciToPciBridge,
    CardBusBridge,
    Unknown,
}

pub fn header_layout(header_type: u32) -> (r: PciHeaderLayout)
    ensures
        header_type == 0 <==> r is General,
        header_type == 1 <==> r is PciToPciBridge,
        header_type == 2 <==> r is CardBusBridge,
        header_type > 2 <==> r is Unknown,
{
    match header_type {
        0x00 => PciHeaderLayout::General,
        0x01 => PciHeaderLayout::PciToPciBridge,
        0x02 => PciHeaderLayout::CardBusBridge,
        _ => PciHeaderLayout::Unknown,
    }
}

/// Fields that a general (type 0x00) header holds past the base addresses.
pub struct PciGeneralFields {
    pub subsystem_id: u32,
    pub subsystem_vendor_id: u32,
    pub capabilities_pointer: u32,
    pub interrupt_line: u32,
    pub interrupt_pin: u32,
    pub min_grant: u32,
    pub max_latency: u32,
}

impl PciGeneralFields {
    pub open spec fn decode_spec(block_b: u32, block_d: u32, block_f: u32) -> Self {
        PciGeneralFields {
            subsystem_id: hi16(block_b) as u32,
            subsystem_vendor_id: lo16(block_b) as u32,
            capabilities_pointer: byte0(block_d) as u32,
            interrupt_line: byte0(block_f) as u32,
            interrupt_pin: byte1(block_f) as u32,
            min_grant: byte2(block_f) as u32,
            max_latency: byte3(block_f) as u32,
        }
    }

    /// Decodes the dwords at offsets 0x2C, 0x34 and 0x3C.
    pub fn decode(block_b: u32, block_d: u32, block_f: u32) -> (f: Self)
        ensures
            f == Self::decode_spec(block_b, block_d, block_f),
            f.subsystem_id == hi16(block_b),
            f.subsystem_vendor_id == lo16(block_b),
            f.capabilities_pointer == byte0(block_d),
            f.interrupt_line == byte0(block_f),
            f.interrupt_pin == byte1(block_f),
            f.min_grant == byte2(block_f),
            f.max_latency == byte3(block_f),
    {
        let (subsystem_vendor_id, subsystem_id) = split16(block_b);
        let (capabilities_pointer, _, _, _) = split8(block_d);
        let (interrupt_line, interrupt_pin, min_grant, max_latency) = split8(block_f);
        PciGeneralFields {
            subsystem_id,
            subsystem_vendor_id,
            capabilities_pointer,
            interrupt_line,
            interrupt_pin,
            min_grant,
            max_latency,
        }
    }
}

/// The lines that describe the common part of a header on the console.
pub open spec fn pci_common_text(h: PciCommonHeader) -> Seq<u8> {
    hex_line("Vendor id: 0x", h.vendor_id as nat)
        + hex_line("Device id: 0x", h.device_id as nat)
        + hex_line("Command: 0x", h.command as nat)
        + hex_line("Status: 0x", h.status as nat)
        + hex_line("Revision Id: 0x", h.revision_id as nat)
        + hex_line("Prog IF: 0x", h.prog_if as nat)
        + hex_line("Class code: 0x", h.class_code as nat)
        + hex_line("Subclass code: 0x", h.subclass_code as nat)
        + hex_line("Cache line size: 0x", h.cache_line_size as nat)
        + hex_line("Latency timer: 0x", h.latency_timer as nat)
        + hex_line("Header type: 0x", h.header_type as nat)
        + hex_line("BIST: 0x", h.bist as nat)
}

impl PciCommonHeader {
    /// The text that describes the common part of the header.
    pub fn info_text(&self) -> (out: Vec<u8>)
        ensures
            out@ == pci_common_text(*self),
    {
        let mut out: Vec<u8> = Vec::new();
        push_hex_line(&mut out, "Vendor id: 0x", self.vendor_id as u64);
        push_hex_line(&mut out, "Device id: 0x", self.device_id as u64);
        push_hex_line(&mut out, "Command: 0x", self.command as u64);
        push_hex_line(&mut out, "Status: 0x", self.status as u64);
        push_hex_line(&mut out, "Revision Id: 0x", self.revision_id as u64);
        push_hex_line(&mut out, "Prog IF: 0x", self.prog_if as u64);
        push_hex_line(&mut out, "Class code: 0x", self.class_code as u64);
        push_hex_line(&mut out, "Subclass code: 0x", self.subclass_code as u64);
        push_hex_line(&mut out, "Cache line size: 0x", self.cache_line_size as u64);
        push_hex_line(&mut out, "Latency timer: 0x", self.latency_timer as u64);
        push_hex_line(&mut out, "Header type: 0x", self.header_type as u64);
        push_hex_line(&mut out, "BIST: 0x", self.bist as u64);
        assert(out@ =~= pci_common_text(*self));
        out
    }
}

/// The lines that describe the rest of a general (type 0x00) header: the
/// six base addresses, the CardBus CIS pointer, the fields decoded from the
/// dwords at 0x2C, 0x34 and 0x3C, and the expansion ROM address.
pub open spec fn pci_general_text(bars: Seq<u32>, cis: u32, rom: u32, f: PciGeneralFields) -> Seq<u8> {
    hex_line("Base address #0: 0x", bars[0] as nat)
        + hex_line("Base address #1: 0x", bars[1] as nat)
        + hex_line("Base address #2: 0x", bars[2] as nat)
        + hex_line("Base address #3: 0x", bars[3] as nat)
        + hex_line("Base address #4: 0x", bars[4] as nat)
        + hex_line("Base address #5: 0x", bars[5] as nat)
        + hex_line("Cardbus CIS Pointer 0x", cis as nat)
        + hex_line("Subsystem id: 0x", f.subsystem_id as nat)
        + hex_line("Subsystem vendor id: 0x", f.subsystem_vendor_id as nat)
        + hex_line("Expansion ROM Address: 0x", rom as nat)
        + hex_line("Capabilities pointer: 0x", f.capabilities_pointer as nat)
        + hex_line("Interrupt line: 0x", f.interrupt_line as nat)
        + hex_line("Interrupt pin: 0x", f.interrupt_pin as nat)
        + hex_line("Min Grant: 0x", f.min_grant as nat)
        + hex_line("Max Latency: 0x", f.max_latency as nat)
}

/// The text that describes the rest of a general header from its dwords at
/// 0x10 to 0x24 (`bars`), 0x28 (`cis`), 0x2C, 0x30 (`rom`), 0x34 and 0x3C.
pub fn pci_general_info_text(bars: &[u32; 6], cis: u32, block_b: u32, rom: u32, block_d: u32, block_f: u32) -> (out: Vec<u8>)
    ensures
        out@ == pci_general_text(bars@, cis, rom, PciGeneralFields::decode_spec(block_b, block_d, block_f)),
{
    let f = PciGeneralFields::decode(block_b, block_d, block_f);
    let mut out: Vec<u8> = Vec::new();
    push_hex_line(&mut out, "Base address #0: 0x", bars[0] as u64);
    push_hex_line(&mut out, "Base address #1: 0x", bars[1] as u64);
    push_hex_line(&mut out, "Base address #2: 0x", bars[2] as u64);
    push_hex_line(&mut out, "Base address #3: 0x", bars[3] as u64);
    push_hex_line(&mut out, "Base address #4: 0x", bars[4] as u64);
    push_hex_line(&mut out, "Base address #5: 0x", bars[5] as u64);
    push_hex_line(&mut out, "Cardbus CIS Pointer 0x", cis as u64);
    push_hex_line(&mut out, "Subsystem id: 0x", f.subsystem_id as u64);
    push_hex_line(&mut out, "Subsystem vendor id: 0x", f.subsystem_vendor_id as u64);
    push_hex_line(&mut out, "Expansion ROM Address: 0x", rom as u64);
    push_hex_line(&mut out, "Capabilities pointer: 0x", f.capabilities_pointer as u64);
    push_hex_line(&mut out, "Interrupt line: 0x", f.interrupt_line as u64);
    push_hex_line(&mut out, "Interrupt pin: 0x", f.interrupt_pin as u64);
    push_hex_line(&mut out, "Min Grant: 0x", f.min_grant as u64);
    push_hex_line(&mut out, "Max Latency: 0x", f.max_latency as u64);
    assert(out@ =~= pci_general_text(bars@, cis, rom, f));
    out
}

/// Name of a PCI class code.
pub open spec fn pci_class_text(class: u8) -> Seq<char> {
    if class == 0x00 {
        "Unclassified"@
    } else if class == 0x01 {
        "Mass Storage Controller"@
    } else if class == 0x02 {
        "Network Controller"@
    } else if class == 0x03 {
        "Display Controller"@
    } else if class == 0x04 {
        "Multimedia Controller"@
    } else if class == 0x05 {
        "Memory Controller"@
    } else if class == 0x06 {
        "Bridge Device"@
    } else if class == 0x07 {
        "Simple communication Controller"@
    } else if class == 0x08 {
        "Base system peripheral"@
    } else if class == 0x09 {
        "Input Device Controller"@
    } else if class == 0x0A {
        "Docking Station"@
    } else if class == 0x0B {
        "Processor"@
    } else if class == 0x0C {
        "Serial Bus Controller"@
    } else if class == 0x0D {
        "Wireless Controller"@
    } else if class == 0x0E {
        "Intelligent Controller"@
    } else if class == 0x0F {
        "Satellite Communication Controller"@
    } else if class == 0x10 {
        "Encryption Controller"@
    } else if class == 0x11 {
        "Signal Processing Controller"@
    } else if class == 0x12 {
        "Processing Accelerator"@
    } else if class == 0x13 {
        "Non-Essential Instrumentation"@
    } else if class == 0x40 {
        "Co-Processor"@
    } else if class == 0xFF {
        "Unassigned Class"@
    } else {
        "Unknown Controller"@
    }
}

/// Name of a subclass, for the three classes whose subclasses are named;
/// an unknown class is named "Unknown Controller" in every position, and
/// the other known classes leave the subclass empty.
pub open spec fn pci_subclass_text(class: u8, subclass: u8) -> Seq<char> {
    if class == 0x00 {
        if subclass == 0x00 {
            "Non-VGA-Compatible device"@
        } else if subclass == 0x01 {
            "VGA-Compatible Device"@
        } else if subclass == 0xFF {
            "Invalid device"@
        } else {
            "Unknown subclass"@
        }
    } else if class == 0x01 {
        if subclass == 0x00 {
            "SCSI Bus Controller"@
        } else if subclass == 0x01 {
            "IDE Controller"@
        } else if subclass == 0x02 {
            "Floppy Disk Controller"@
        } else if subclass == 0x03 {
            "IPI Bus Controller"@
        } else if subclass == 0x04 {
            "RAID Controller"@
        } else if subclass == 0x05 {
            "ATA Controller"@
        } else if subclass == 0x06 {
            "Serial ATA"@
        } else if subclass == 0x07 {
            "Serial Attached SCSI"@
        } else if subclass == 0x08 {
            "Non-Volatile Memory Controller"@
        } else if subclass == 0x80 {
            "Other"@
        } else {
            "Unknown Controller"@
        }
    } else if class == 0x02 {
        if subclass == 0x00 {
            "Ethernet Controller"@
        } else if subclass == 0x01 {
            "Token Ring Controller"@
        } else if subclass == 0x02 {
            "FDDI Controller"@
        } else if subclass == 0x03 {
            "ATM Controller"@
        } else if subclass == 0x04 {
            "ISDN Controller"@
        } else if subclass == 0x05 {
            "WorldFip Controller"@
        } else if subclass == 0x06 {
            "PICMG 2.14 Multi Computing"@
        } else if subclass == 0x07 {
            "Infiniband Controller"@
        } else if subclass == 0x08 {
            "Fabric Controller"@
        } else if subclass == 0x80 {
            "Other"@
        } else {
            "Unknown device"@
        }
    } else if pci_class_known(class) {
        ""@
    } else {
        "Unknown Controller"@
    }
}

/// Programming interfaces are not named: the text is empty, except for an
/// unknown class.
pub open spec fn pci_prog_if_text(class: u8) -> Seq<char> {
    if pci_class_known(class) {
        ""@
    } else {
        "Unknown Controller"@
    }
}

pub open spec fn pci_class_known(class: u8) -> bool {
    class == 0x00 || class == 0x01 || class == 0x02 || class == 0x03 || class == 0x04 || class == 0x05 || class == 0x06 || class == 0x07 || class == 0x08 || class == 0x09 || class == 0x0A || class == 0x0B || class == 0x0C || class == 0x0D || class == 0x0E || class == 0x0F || class == 0x10 || class == 0x11 || class == 0x12 || class == 0x13 || class == 0x40 || class == 0xFF
}

/// The three names fit the 24-byte strings that hold them.
pub open spec fn pci_names_fit(class: u8, subclass: u8) -> bool {
    &&& pci_class_text(class).len() <= 24
    &&& pci_subclass_text(class, subclass).len() <= 24
}

proof fn lemma_pci_names_ascii()
    ensures
        is_ascii(""),
        ""@.len() == 0,
        is_ascii("ATA Controller"),
        "ATA Controller"@.len() == 14,
        is_ascii("ATM Controller"),
        "ATM Controller"@.len() == 14,
        is_ascii("Base system peripheral"),
        "Base system peripheral"@.len() == 22,
        is_ascii("Bridge Device"),
        "Bridge Device"@.len() == 13,
        is_ascii("Co-Processor"),
        "Co-Processor"@.len() == 12,
        is_ascii("Display Controller"),
        "Display Controller"@.len() == 18,
        is_ascii("Docking Station"),
        "Docking Station"@.len() == 15,
        is_ascii("Encryption Controller"),
        "Encryption Controller"@.len() == 21,
        is_ascii("Ethernet Controller"),
        "Ethernet Controller"@.len() == 19,
        is_ascii("FDDI Controller"),
        "FDDI Controller"@.len() == 15,
        is_ascii("Fabric Controller"),
        "Fabric Controller"@.len() == 17,
        is_ascii("Floppy Disk Controller"),
        "Floppy Disk Controller"@.len() == 22,
        is_ascii("IDE Controller"),
        "IDE Controller"@.len() == 14,
        is_ascii("IPI Bus Controller"),
        "IPI Bus Controller"@.len() == 18,
        is_ascii("ISDN Controller"),
        "ISDN Controller"@.len() == 15,
        is_ascii("Infiniband Controller"),
        "Infiniband Controller"@.len() == 21,
        is_ascii("Input Device Controller"),
        "Input Device Controller"@.len() == 23,
        is_ascii("Intelligent Controller"),
        "Intelligent Controller"@.len() == 22,
        is_ascii("Invalid device"),
        "Invalid device"@.len() == 14,
        is_ascii("Mass Storage Controller"),
        "Mass Storage Controller"@.len() == 23,
        is_ascii("Memory Controller"),
        "Memory Controller"@.len() == 17,
        is_ascii("Multimedia Controller"),
        "Multimedia Controller"@.len() == 21,
        is_ascii("Network Controller"),
        "Network Controller"@.len() == 18,
        is_ascii("Non-Essential Instrumentation"),
        "Non-Essential Instrumentation"@.len() == 29,
        is_ascii("Non-VGA-Compatible device"),
        "Non-VGA-Compatible device"@.len() == 25,
        is_ascii("Non-Volatile Memory Controller"),
        "Non-Volatile Memory Controller"@.len() == 30,
        is_ascii("Other"),
        "Other"@.len() == 5,
        is_ascii("PICMG 2.14 Multi Computing"),
        "PICMG 2.14 Multi Computing"@.len() == 26,
        is_ascii("Processing Accelerator"),
        "Processing Accelerator"@.len() == 22,
        is_ascii("Processor"),
        "Processor"@.len() == 9,
        is_ascii("RAID Controller"),
        "RAID Controller"@.len() == 15,
        is_ascii("SCSI Bus Controller"),
        "SCSI Bus Controller"@.len() == 19,
        is_ascii("Satellite Communication Controller"),
        "Satellite Communication Controller"@.len() == 34,
        is_ascii("Serial ATA"),
        "Serial ATA"@.len() == 10,
        is_ascii("Serial Attached SCSI"),
        "Serial Attached SCSI"@.len() == 20,
        is_ascii("Serial Bus Controller"),
        "Serial Bus Controller"@.len() == 21,
        is_ascii("Signal Processing Controller"),
        "Signal Processing Controller"@.len() == 28,
        is_ascii("Simple communication Controller"),
        "Simple communication Controller"@.len() == 31,
        is_ascii("Token Ring Controller"),
        "Token Ring Controller"@.len() == 21,
        is_ascii("Unassigned Class"),
        "Unassigned Class"@.len() == 16,
        is_ascii("Unclassified"),
        "Unclassified"@.len() == 12,
        is_ascii("Unknown Controller"),
        "Unknown Controller"@.len() == 18,
        is_ascii("Unknown device"),
        "Unknown device"@.len() == 14,
        is_ascii("Unknown subclass"),
        "Unknown subclass"@.len() == 16,
        is_ascii("VGA-Compatible Device"),
        "VGA-Compatible Device"@.len() == 21,
        is_ascii("Wireless Controller"),
        "Wireless Controller"@.len() == 19,
        is_ascii("WorldFip Controller"),
        "WorldFip Controller"@.len() == 19,
{
    reveal_strlit("");
    reveal_strlit("ATA Controller");
    reveal_strlit("ATM Controller");
    reveal_strlit("Base system peripheral");
    reveal_strlit("Bridge Device");
    reveal_strlit("Co-Processor");
    reveal_strlit("Display Controller");
    reveal_strlit("Docking Station");
    reveal_strlit("Encryption Controller");
    reveal_strlit("Ethernet Controller");
    reveal_strlit("FDDI Controller");
    reveal_strlit("Fabric Controller");
    reveal_strlit("Floppy Disk Controller");
    reveal_strlit("IDE Controller");
    reveal_strlit("IPI Bus Controller");
    reveal_strlit("ISDN Controller");
    reveal_strlit("Infiniband Controller");
    reveal_strlit("Input Device Controller");
    reveal_strlit("Intelligent Controller");
    reveal_strlit("Invalid device");
    reveal_strlit("Mass Storage Controller");
    reveal_strlit("Memory Controller");
    reveal_strlit("Multimedia Controller");
    reveal_strlit("Network Controller");
    reveal_strlit("Non-Essential Instrumentation");
    reveal_strlit("Non-VGA-Compatible device");
    reveal_strlit("Non-Volatile Memory Controller");
    reveal_strlit("Other");
    reveal_strlit("PICMG 2.14 Multi Computing");
    reveal_strlit("Processing Accelerator");
    reveal_strlit("Processor");
    reveal_strlit("RAID Controller");
    reveal_strlit("SCSI Bus Controller");
    reveal_strlit("Satellite Communication Controller");
    reveal_strlit("Serial ATA");
    reveal_strlit("Serial Attached SCSI");
    reveal_strlit("Serial Bus Controller");
    reveal_strlit("Signal Processing Controller");
    reveal_strlit("Simple communication Controller");
    reveal_strlit("Token Ring Controller");
    reveal_strlit("Unassigned Class");
    reveal_strlit("Unclassified");
    reveal_strlit("Unknown Controller");
    reveal_strlit("Unknown device");
    reveal_strlit("Unknown subclass");
    reveal_strlit("VGA-Compatible Device");
    reveal_strlit("Wireless Controller");
    reveal_strlit("WorldFip Controller");
}

/// The names `pci_parsedriver` gives, as the PCI class table lists them:
/// one name per class code 0x00 to 0x13, 0x40 and 0xFF, "Unknown
/// Controller" for any other class; the subclass names of classes 0x00,
/// 0x01 and 0x02, none for the other listed classes; and no
/// programming-interface name for a listed class.
pub proof fn lemma_pci_name_table()
    ensures
        pci_class_text(0x00) == "Unclassified"@,
        pci_class_text(0x01) == "Mass Storage Controller"@,
        pci_class_text(0x02) == "Network Controller"@,
        pci_class_text(0x03) == "Display Controller"@,
        pci_class_text(0x04) == "Multimedia Controller"@,
        pci_class_text(0x05) == "Memory Controller"@,
        pci_class_text(0x06) == "Bridge Device"@,
        pci_class_text(0x07) == "Simple communication Controller"@,
        pci_class_text(0x08) == "Base system peripheral"@,
        pci_class_text(0x09) == "Input Device Controller"@,
        pci_class_text(0x0A) == "Docking Station"@,
        pci_class_text(0x0B) == "Processor"@,
        pci_class_text(0x0C) == "Serial Bus Controller"@,
        pci_class_text(0x0D) == "Wireless Controller"@,
        pci_class_text(0x0E) == "Intelligent Controller"@,
        pci_class_text(0x0F) == "Satellite Communication Controller"@,
        pci_class_text(0x10) == "Encryption Controller"@,
        pci_class_text(0x11) == "Signal Processing Controller"@,
        pci_class_text(0x12) == "Processing Accelerator"@,
        pci_class_text(0x13) == "Non-Essential Instrumentation"@,
        pci_class_text(0x40) == "Co-Processor"@,
        pci_class_text(0xFF) == "Unassigned Class"@,
        forall|c: u8| !(c <= 0x13 || c == 0x40 || c == 0xFF) ==> #[trigger] pci_class_text(c) == "Unknown Controller"@,
        pci_subclass_text(0x00, 0x00) == "Non-VGA-Compatible device"@,
        pci_subclass_text(0x00, 0x01) == "VGA-Compatible Device"@,
        pci_subclass_text(0x00, 0xFF) == "Invalid device"@,
        forall|sc: u8| !(sc == 0x00 || sc == 0x01 || sc == 0xFF) ==> #[trigger] pci_subclass_text(0x00, sc) == "Unknown subclass"@,
        pci_subclass_text(0x01, 0x00) == "SCSI Bus Controller"@,
        pci_subclass_text(0x01, 0x01) == "IDE Controller"@,
        pci_subclass_text(0x01, 0x02) == "Floppy Disk Controller"@,
        pci_subclass_text(0x01, 0x03) == "IPI Bus Controller"@,
        pci_subclass_text(0x01, 0x04) == "RAID Controller"@,
        pci_subclass_text(0x01, 0x05) == "ATA Controller"@,
        pci_subclass_text(0x01, 0x06) == "Serial ATA"@,
        pci_subclass_text(0x01, 0x07) == "Serial Attached SCSI"@,
        pci_subclass_text(0x01, 0x08) == "Non-Volatile Memory Controller"@,
        pci_subclass_text(0x01, 0x80) == "Other"@,
        forall|sc: u8| !(sc == 0x00 || sc == 0x01 || sc == 0x02 || sc == 0x03 || sc == 0x04 || sc == 0x05 || sc == 0x06 || sc == 0x07 || sc == 0x08 || sc == 0x80) ==> #[trigger] pci_subclass_text(0x01, sc) == "Unknown Controller"@,
        pci_subclass_text(0x02, 0x00) == "Ethernet Controller"@,
        pci_subclass_text(0x02, 0x01) == "Token Ring Controller"@,
        pci_subclass_text(0x02, 0x02) == "FDDI Controller"@,
        pci_subclass_text(0x02, 0x03) == "ATM Controller"@,
        pci_subclass_text(0x02, 0x04) == "ISDN Controller"@,
        pci_subclass_text(0x02, 0x05) == "WorldFip Controller"@,
        pci_subclass_text(0x02, 0x06) == "PICMG 2.14 Multi Computing"@,
        pci_subclass_text(0x02, 0x07) == "Infiniband Controller"@,
        pci_subclass_text(0x02, 0x08) == "Fabric Controller"@,
        pci_subclass_text(0x02, 0x80) == "Other"@,
        forall|sc: u8| !(sc == 0x00 || sc == 0x01 || sc == 0x02 || sc == 0x03 || sc == 0x04 || sc == 0x05 || sc == 0x06 || sc == 0x07 || sc == 0x08 || sc == 0x80) ==> #[trigger] pci_subclass_text(0x02, sc) == "Unknown device"@,
        forall|c: u8, sc: u8| 0x03 <= c <= 0x13 || c == 0x40 || c == 0xFF ==> #[trigger] pci_subclass_text(c, sc) == ""@,
        forall|c: u8, sc: u8| !(c <= 0x13 || c == 0x40 || c == 0xFF) ==> #[trigger] pci_subclass_text(c, sc) == "Unknown Controller"@,
        forall|c: u8| (c <= 0x13 || c == 0x40 || c == 0xFF) ==> #[trigger] pci_prog_if_text(c) == ""@,
        forall|c: u8| !(c <= 0x13 || c == 0x40 || c == 0xFF) ==> #[trigger] pci_prog_if_text(c) == "Unknown Controller"@,
{
}

/// The names overflow their 24-byte strings exactly for classes 0x07, 0x0F,
/// 0x11 and 0x13 and for subclass 0x00 of class 0x00, subclass 0x08 of
/// class 0x01 and subclass 0x06 of class 0x02.
pub proof fn lemma_pci_names_fit_exactly(class: u8, subclass: u8)
    ensures
        pci_names_fit(class, subclass) <==> !(class == 0x07 || class == 0x0F || class == 0x11
            || class == 0x13 || (class == 0x00 && subclass == 0x00) || (class == 0x01 && subclass
            == 0x08) || (class == 0x02 && subclass == 0x06)),
{
    lemma_pci_names_ascii();
}

/// Whether `pci_parsedriver` can name a device of this class and subclass:
/// both names fit their strings.
pub fn driver_names_fit(class: u8, subclass: u8) -> (b: bool)
    ensures
        b == pci_names_fit(class, subclass),
{
    proof {
        lemma_pci_names_fit_exactly(class, subclass);
    }
    !(class == 0x07 || class == 0x0F || class == 0x11 || class == 0x13 || (class == 0x00 && subclass
        == 0x00) || (class == 0x01 && subclass == 0x08) || (class == 0x02 && subclass == 0x06))
}

fn class_str(class: u8) -> (s: &'static str)
    ensures
        s@ == pci_class_text(class),
{
    match class {
        0x00 => "Unclassified",
        0x01 => "Mass Storage Controller",
        0x02 => "Network Controller",
        0x03 => "Display Controller",
        0x04 => "Multimedia Controller",
        0x05 => "Memory Controller",
        0x06 => "Bridge Device",
        0x07 => "Simple communication Controller",
        0x08 => "Base system peripheral",
        0x09 => "Input Device Controller",
        0x0A => "Docking Station",
        0x0B => "Processor",
        0x0C => "Serial Bus Controller",
        0x0D => "Wireless Controller",
        0x0E => "Intelligent Controller",
        0x0F => "Satellite Communication Controller",
        0x10 => "Encryption Controller",
        0x11 => "Signal Processing Controller",
        0x12 => "Processing Accelerator",
        0x13 => "Non-Essential Instrumentation",
        0x40 => "Co-Processor",
        0xFF => "Unassigned Class",
        _ => "Unknown Controller",
    }
}

fn subclass_str(class: u8, subclass: u8) -> (s: &'static str)
    ensures
        s@ == pci_subclass_text(class, subclass),
{
    match class {
        0x00 => {
            match subclass {
                0x00 => "Non-VGA-Compatible device",
                0x01 => "VGA-Compatible Device",
                0xFF => "Invalid device",
                _ => "Unknown subclass",
            }
        },
        0x01 => {
            match subclass {
                0x00 => "SCSI Bus Controller",
                0x01 => "IDE Controller",
                0x02 => "Floppy Disk Controller",
                0x03 => "IPI Bus Controller",
                0x04 => "RAID Controller",
                0x05 => "ATA Controller",
                0x06 => "Serial ATA",
                0x07 => "Serial Attached SCSI",
                0x08 => "Non-Volatile Memory Controller",
                0x80 => "Other",
                _ => "Unknown Controller",
            }
        },
        0x02 => {
            match subclass {
                0x00 => "Ethernet Controller",
                0x01 => "Token Ring Controller",
                0x02 => "FDDI Controller",
                0x03 => "ATM Controller",
                0x04 => "ISDN Controller",
                0x05 => "WorldFip Controller",
                0x06 => "PICMG 2.14 Multi Computing",
                0x07 => "Infiniband Controller",
                0x08 => "Fabric Controller",
                0x80 => "Other",
                _ => "Unknown device",
            }
        },
        0x03 => "",
        0x04 => "",
        0x05 => "",
        0x06 => "",
        0x07 => "",
        0x08 => "",
        0x09 => "",
        0x0A => "",
        0x0B => "",
        0x0C => "",
        0x0D => "",
        0x0E => "",
        0x0F => "",
        0x10 => "",
        0x11 => "",
        0x12 => "",
        0x13 => "",
        0x40 => "",
        0xFF => "",
        _ => "Unknown Controller",
    }
}

fn prog_if_str(class: u8) -> (s: &'static str)
    ensures
        s@ == pci_prog_if_text(class),
{
    if class <= 0x13 || class == 0x40 || class == 0xFF {
        ""
    } else {
        "Unknown Controller"
    }
}

/// Names the class, subclass and programming interface of a device. The
/// names are held in 24-byte strings, and a longer name does not fit: the
/// push fails and the function panics, so `requires` leaves those class and
/// subclass codes out.
pub fn pci_parsedriver(class: u8, subclass: u8, prog_if: u8) -> (r: (
    heapless::String<24>,
    heapless::String<24>,
    heapless::String<24>,
))
    requires
        pci_names_fit(class, subclass),
    ensures
        heapless_text(r.0) == pci_class_text(class),
        heapless_text(r.1) == pci_subclass_text(class, subclass),
        heapless_text(r.2) == pci_prog_if_text(class),
{
    proof {
        lemma_pci_names_ascii();
    }
    let c = class_str(class);
    let s = subclass_str(class, subclass);
    let p = prog_if_str(class);
    (heapless_from(c), heapless_from(s), heapless_from(p))
}

/// Everything `pci_info_dump` prints from the common part of a header: its
/// fields, the class, subclass and programming-interface names, and the
/// notice for a header layout it does not know.
pub open spec fn pci_info_spec(h: PciCommonHeader) -> Seq<u8> {
    pci_common_text(h) + "Class: ".spec_bytes() + encode_utf8(pci_class_text(h.class_code as u8))
        + "\n".spec_bytes() + "Subclass: ".spec_bytes() + encode_utf8(
        pci_subclass_text(h.class_code as u8, h.subclass_code as u8),
    ) + "\n".spec_bytes() + "Prog IF: ".spec_bytes() + encode_utf8(
        pci_prog_if_text(h.class_code as u8),
    ) + "\n".spec_bytes() + if h.header_type > 2 {
        "Unknown header type\n".spec_bytes()
    } else {
        Seq::empty()
    }
}

impl PciCommonHeader {
    /// The text `pci_info_dump` prints for the common part of the header;
    /// the names come from `pci_parsedriver`, so they must fit its strings.
    pub fn info_dump_text(&self) -> (out: Vec<u8>)
        requires
            pci_names_fit(self.class_code as u8, self.subclass_code as u8),
        ensures
            out@ == pci_info_spec(*self),
    {
        let mut out = self.info_text();
        let names = pci_parsedriver(self.class_code as u8, self.subclass_code as u8, self.prog_if as u8);
        push_str(&mut out, "Class: ");
        push_str(&mut out, heapless_as_str(&names.0));
        push_str(&mut out, "\n");
        push_str(&mut out, "Subclass: ");
        push_str(&mut out, heapless_as_str(&names.1));
        push_str(&mut out, "\n");
        push_str(&mut out, "Prog IF: ");
        push_str(&mut out, heapless_as_str(&names.2));
        push_str(&mut out, "\n");
        match header_layout(self.header_type) {
            PciHeaderLayout::Unknown => push_str(&mut out, "Unknown header type\n"),
            _ => {},
        }
        assert(out@ =~= pci_info_spec(*self));
        out
    }
}

} // verus!

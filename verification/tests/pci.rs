use krust::pci::{
    driver_names_fit, header_layout, pci_conf1_address, pci_general_info_text, pci_parsedriver, pci_slconf1_address,
    PciCommonHeader, PciGeneralFields, PciHeaderLayout,
};

#[test]
fn slot_configuration_address() {
    // Bus 0, slot 3, function 0, register 0x10.
    assert_eq!(pci_slconf1_address(0, 3, 0, 0x10), 0x8000_1810);
    assert_eq!(pci_slconf1_address(1, 0x1F, 7, 0xFC), 0x8001_FFFC);
    // The register's high nibble goes to bits 24..28, its low two bits are dropped.
    assert_eq!(pci_slconf1_address(0, 0, 0, 0x103), 0x8100_0000);
}

#[test]
fn function_configuration_address() {
    // The register argument is not used; the function number is also OR-ed
    // into the low byte with its two low bits cleared.
    assert_eq!(pci_conf1_address(2, 0x0B, 0x40), 0x8002_0B08);
    assert_eq!(pci_conf1_address(2, 0x0B, 0x00), 0x8002_0B08);
    assert_eq!(pci_conf1_address(0, 0, 0x3C), 0x8000_0000);
}

#[test]
fn common_header_decoding() {
    let h = PciCommonHeader::decode(0x8139_10EC, 0x0290_0107, 0x0200_0010, 0x0000_4000);
    assert_eq!(h.vendor_id, 0x10EC);
    assert_eq!(h.device_id, 0x8139);
    assert_eq!(h.command, 0x0107);
    assert_eq!(h.status, 0x0290);
    assert_eq!(h.revision_id, 0x10);
    assert_eq!(h.prog_if, 0x00);
    assert_eq!(h.subclass_code, 0x00);
    assert_eq!(h.class_code, 0x02);
    assert_eq!(h.cache_line_size, 0);
    assert_eq!(h.latency_timer, 0x40);
    assert_eq!(h.header_type, 0);
    assert_eq!(h.bist, 0);
    assert!(matches!(header_layout(h.header_type), PciHeaderLayout::General));
    assert!(matches!(header_layout(1), PciHeaderLayout::PciToPciBridge));
    assert!(matches!(header_layout(2), PciHeaderLayout::CardBusBridge));
    assert!(matches!(header_layout(0x80), PciHeaderLayout::Unknown));
}

#[test]
fn common_header_text() {
    let h = PciCommonHeader::decode(0x8139_10EC, 0x0290_0107, 0x0200_0010, 0x0000_4000);
    let text = String::from_utf8(h.info_text()).unwrap();
    assert_eq!(
        text,
        "Vendor id: 0x10EC\nDevice id: 0x8139\nCommand: 0x107\nStatus: 0x290\nRevision Id: 0x10\nProg IF: 0x0\nClass code: 0x2\nSubclass code: 0x0\nCache line size: 0x0\nLatency timer: 0x40\nHeader type: 0x0\nBIST: 0x0\n"
    );
}

#[test]
fn general_header_fields_and_text() {
    let f = PciGeneralFields::decode(0x1100_1AF4, 0x0000_0050, 0x0840_010B);
    assert_eq!(f.subsystem_id, 0x1100);
    assert_eq!(f.subsystem_vendor_id, 0x1AF4);
    assert_eq!(f.capabilities_pointer, 0x50);
    assert_eq!(f.interrupt_line, 0x0B);
    assert_eq!(f.interrupt_pin, 0x01);
    assert_eq!(f.min_grant, 0x40);
    assert_eq!(f.max_latency, 0x08);
    let bars = [0xC001u32, 0xFEBF_1000, 0, 0, 0, 0];
    let text = String::from_utf8(pci_general_info_text(&bars, 0, 0x1100_1AF4, 0xFEB8_0000, 0x50, 0x0840_010B)).unwrap();
    assert_eq!(
        text,
        "Base address #0: 0xC001\nBase address #1: 0xFEBF1000\nBase address #2: 0x0\nBase address #3: 0x0\nBase address #4: 0x0\nBase address #5: 0x0\nCardbus CIS Pointer 0x0\nSubsystem id: 0x1100\nSubsystem vendor id: 0x1AF4\nExpansion ROM Address: 0xFEB80000\nCapabilities pointer: 0x50\nInterrupt line: 0xB\nInterrupt pin: 0x1\nMin Grant: 0x40\nMax Latency: 0x8\n"
    );
}

#[test]
fn driver_names() {
    let (c, s, p) = pci_parsedriver(0x02, 0x00, 0x00);
    assert_eq!(c.as_str(), "Network Controller");
    assert_eq!(s.as_str(), "Ethernet Controller");
    assert_eq!(p.as_str(), "");
    let (c, s, _) = pci_parsedriver(0x01, 0x01, 0x80);
    assert_eq!(c.as_str(), "Mass Storage Controller");
    assert_eq!(s.as_str(), "IDE Controller");
    let (c, s, _) = pci_parsedriver(0x03, 0x00, 0x00);
    assert_eq!(c.as_str(), "Display Controller");
    assert_eq!(s.as_str(), "");
}

#[test]
fn unknown_codes_are_named_so() {
    let (c, s, p) = pci_parsedriver(0x50, 0x00, 0x00);
    assert_eq!(c.as_str(), "Unknown Controller");
    assert_eq!(s.as_str(), "Unknown Controller");
    assert_eq!(p.as_str(), "Unknown Controller");
}

#[test]
fn names_that_do_not_fit() {
    // "Simple communication Controller" is longer than 24 bytes.
    assert!(!driver_names_fit(0x07, 0x00));
    // "Non-VGA-Compatible device" too.
    assert!(!driver_names_fit(0x00, 0x00));
    assert!(driver_names_fit(0x00, 0x01));
    assert!(!driver_names_fit(0x01, 0x08));
    assert!(!driver_names_fit(0x02, 0x06));
    assert!(driver_names_fit(0x02, 0x00));
    assert!(driver_names_fit(0x50, 0x33));
}

#[test]
fn info_dump_text_names_the_device() {
    let h = PciCommonHeader::decode(0x8139_10EC, 0x0290_0107, 0x0200_0010, 0x0000_4000);
    let text = String::from_utf8(h.info_dump_text()).unwrap();
    assert!(text.starts_with("Vendor id: 0x10EC\n"));
    assert!(text.ends_with("BIST: 0x0\nClass: Network Controller\nSubclass: Ethernet Controller\nProg IF: \n"));
    // An unknown header layout is reported.
    let h = PciCommonHeader::decode(0x8139_10EC, 0x0290_0107, 0x0200_0010, 0x0005_4000);
    let text = String::from_utf8(h.info_dump_text()).unwrap();
    assert!(text.ends_with("Prog IF: \nUnknown header type\n"));
}

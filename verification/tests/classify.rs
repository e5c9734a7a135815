use walkley_usb::os_usb::classify::{
    DescriptorType, Direction, TransferType, ENDPOINT_ADDRESS_MASK, ENDPOINT_DIR_MASK,
    TRANSFER_TYPE_MASK,
};
use walkley_usb::os_usb::{desc_type_str, ep_direction_str, ep_xfer_type_str};

#[test]
fn descriptor_type_labels() {
    assert_eq!(desc_type_str(0x01), "DEVICE");
    assert_eq!(desc_type_str(0x02), "CONFIG");
    assert_eq!(desc_type_str(0x03), "STRING");
    assert_eq!(desc_type_str(0x04), "INTERFACE");
    assert_eq!(desc_type_str(0x05), "ENDPOINT");
    assert_eq!(desc_type_str(0x0f), "BOS");
    assert_eq!(desc_type_str(0x10), "DEVICE_CAPABILITY");
    assert_eq!(desc_type_str(0x21), "HID");
    assert_eq!(desc_type_str(0x22), "REPORT");
    assert_eq!(desc_type_str(0x23), "PHYSICAL");
    assert_eq!(desc_type_str(0x29), "HUB");
    assert_eq!(desc_type_str(0x2a), "SUPERSPEED_HUB");
    assert_eq!(desc_type_str(0x30), "SS_ENDPOINT_COMPANION");
}

#[test]
fn unknown_descriptor_types_are_invalid() {
    assert_eq!(desc_type_str(0x00), "INVALID");
    assert_eq!(desc_type_str(0x06), "INVALID");
    assert_eq!(desc_type_str(0x0b), "INVALID");
    assert_eq!(desc_type_str(0x31), "INVALID");
    assert_eq!(desc_type_str(0xff), "INVALID");
    assert_eq!(desc_type_str(0x101), "INVALID");
    assert_eq!(desc_type_str(u32::MAX), "INVALID");
}

#[test]
fn every_code_has_one_descriptor_label() {
    let known: [u32; 13] =
        [0x01, 0x02, 0x03, 0x04, 0x05, 0x0f, 0x10, 0x21, 0x22, 0x23, 0x29, 0x2a, 0x30];
    let mut seen: Vec<&'static str> = Vec::new();
    for code in 0u32..=0x1ff {
        let label = desc_type_str(code);
        assert_eq!(label, DescriptorType::from_code(code).name());
        if known.contains(&code) {
            assert_ne!(label, "INVALID");
            assert!(!seen.contains(&label));
            seen.push(label);
        } else {
            assert_eq!(label, "INVALID");
            assert_eq!(DescriptorType::from_code(code), DescriptorType::Invalid);
        }
    }
    assert_eq!(seen.len(), 13);
}

#[test]
fn direction_of_examples() {
    assert_eq!(ep_direction_str(0x81), "IN");
    assert_eq!(ep_direction_str(0x02), "OUT");
    assert_eq!(ep_direction_str(0x80), "IN");
    assert_eq!(ep_direction_str(0x00), "OUT");
    assert_eq!(ep_direction_str(0x7f), "OUT");
    assert_eq!(ep_direction_str(0xff), "IN");
}

#[test]
fn direction_is_total_over_address_bytes() {
    for byte in 0u32..=255 {
        let label = ep_direction_str(byte);
        assert!(label == "IN" || label == "OUT");
        assert_eq!(label == "IN", byte >= 0x80);
        assert_eq!(ep_direction_str(byte & ENDPOINT_DIR_MASK), label);
        let expected = if byte >= 0x80 { Direction::In } else { Direction::Out };
        assert_eq!(Direction::from_address(byte), expected);
        assert_eq!(expected.name(), label);
    }
}

#[test]
fn direction_ignores_bits_above_the_byte() {
    assert_eq!(ep_direction_str(0x100), "OUT");
    assert_eq!(ep_direction_str(0x180), "IN");
    assert_eq!(ep_direction_str(u32::MAX), "IN");
}

#[test]
fn transfer_type_of_examples() {
    assert_eq!(ep_xfer_type_str(0), "CONTROL");
    assert_eq!(ep_xfer_type_str(1), "ISOCHRONOUS");
    assert_eq!(ep_xfer_type_str(2), "BULK");
    assert_eq!(ep_xfer_type_str(3), "INTERRUPT");
    assert_eq!(ep_xfer_type_str(0x0d), "ISOCHRONOUS");
    assert_eq!(ep_xfer_type_str(0xfe), "BULK");
}

#[test]
fn transfer_type_is_total_over_attribute_bytes() {
    let labels = ["CONTROL", "ISOCHRONOUS", "BULK", "INTERRUPT"];
    for byte in 0u32..=255 {
        let label = ep_xfer_type_str(byte);
        assert_eq!(label, labels[(byte % 4) as usize]);
        assert_eq!(ep_xfer_type_str(byte & TRANSFER_TYPE_MASK), label);
        assert_eq!(TransferType::from_attributes(byte).name(), label);
        assert_ne!(label, "INVALID");
    }
}

#[test]
fn transfer_code_above_three_is_invalid() {
    assert_eq!(TransferType::from_code(0), TransferType::Control);
    assert_eq!(TransferType::from_code(1), TransferType::Isochronous);
    assert_eq!(TransferType::from_code(2), TransferType::Bulk);
    assert_eq!(TransferType::from_code(3), TransferType::Interrupt);
    assert_eq!(TransferType::from_code(4), TransferType::Invalid);
    assert_eq!(TransferType::from_code(4).name(), "INVALID");
    assert_eq!(TransferType::from_code(255), TransferType::Invalid);
    // As attributes, the same value is read through the two-bit mask.
    assert_eq!(ep_xfer_type_str(4), "CONTROL");
}

#[test]
fn masks_have_their_values() {
    assert_eq!(ENDPOINT_DIR_MASK, 0x80);
    assert_eq!(ENDPOINT_ADDRESS_MASK, 0x0f);
    assert_eq!(TRANSFER_TYPE_MASK, 0x03);
}

//! Labels for descriptor-type codes, endpoint directions and transfer types.

use vstd::prelude::*;

verus! {

/// Bit of an endpoint address that tells the direction.
pub const ENDPOINT_DIR_MASK: u32 = 0x80;

/// Bits of an endpoint address that hold the endpoint number.
pub const ENDPOINT_ADDRESS_MASK: u32 = 0x0f;

/// Bits of an endpoint's attributes that hold the transfer type.
pub const TRANSFER_TYPE_MASK: u32 = 0x03;

/// What a descriptor-type code stands for.
#[derive(Clone, Copy, Debug, PartialEq, Eq, Structural)]
pub enum DescriptorType {
    Device,
    Config,
    /// A string descriptor.
    Text,
    Interface,
    Endpoint,
    Bos,
    DeviceCapability,
    Hid,
    Report,
    Physical,
    Hub,
    SuperspeedHub,
    SsEndpointCompanion,
    Invalid,
}

impl DescriptorType {
    /// The descriptor type that a code denotes; `Invalid` for every code
    /// that denotes none.
    pub open spec fn of_code(code: u32) -> DescriptorType {
        if code == 0x01 {
            DescriptorType::Device
        } else if code == 0x02 {
            DescriptorType::Config
        } else if code == 0x03 {
            DescriptorType::Text
        } else if code == 0x04 {
            DescriptorType::Interface
        } else if code == 0x05 {
            DescriptorType::Endpoint
        } else if code == 0x0f {
            DescriptorType::Bos
        } else if code == 0x10 {
            DescriptorType::DeviceCapability
        } else if code == 0x21 {
            DescriptorType::Hid
        } else if code == 0x22 {
            DescriptorType::Report
        } else if code == 0x23 {
            DescriptorType::Physical
        } else if code == 0x29 {
            DescriptorType::Hub
        } else if code == 0x2a {
            DescriptorType::SuperspeedHub
        } else if code == 0x30 {
            DescriptorType::SsEndpointCompanion
        } else {
            DescriptorType::Invalid
        }
    }

    /// The label under which a descriptor type is reported.
    pub open spec fn label(self) -> Seq<char> {
        match self {
            DescriptorType::Device => "DEVICE"@,
            DescriptorType::Config => "CONFIG"@,
            DescriptorType::Text => "STRING"@,
            DescriptorType::Interface => "INTERFACE"@,
            DescriptorType::Endpoint => "ENDPOINT"@,
            DescriptorType::Bos => "BOS"@,
            DescriptorType::DeviceCapability => "DEVICE_CAPABILITY"@,
            DescriptorType::Hid => "HID"@,
            DescriptorType::Report => "REPORT"@,
            DescriptorType::Physical => "PHYSICAL"@,
            DescriptorType::Hub => "HUB"@,
            DescriptorType::SuperspeedHub => "SUPERSPEED_HUB"@,
            DescriptorType::SsEndpointCompanion => "SS_ENDPOINT_COMPANION"@,
            DescriptorType::Invalid => "INVALID"@,
        }
    }

    /// Classifies a descriptor-type code.
    pub fn from_code(code: u32) -> (kind: DescriptorType)
        ensures
            kind == DescriptorType::of_code(code),
    {
        match code {
            0x01 => DescriptorType::Device,
            0x02 => DescriptorType::Config,
            0x03 => DescriptorType::Text,
            0x04 => DescriptorType::Interface,
            0x05 => DescriptorType::Endpoint,
            0x0f => DescriptorType::Bos,
            0x10 => DescriptorType::DeviceCapability,
            0x21 => DescriptorType::Hid,
            0x22 => DescriptorType::Report,
            0x23 => DescriptorType::Physical,
            0x29 => DescriptorType::Hub,
            0x2a => DescriptorType::SuperspeedHub,
            0x30 => DescriptorType::SsEndpointCompanion,
            _ => DescriptorType::Invalid,
        }
    }

    /// Gives the label of the descriptor type.
    pub fn name(self) -> (text: &'static str)
        ensures
            text@ == self.label(),
    {
        match self {
            DescriptorType::Device => "DEVICE",
            DescriptorType::Config => "CONFIG",
            DescriptorType::Text => "STRING",
            DescriptorType::Interface => "INTERFACE",
            DescriptorType::Endpoint => "ENDPOINT",
            DescriptorType::Bos => "BOS",
            DescriptorType::DeviceCapability => "DEVICE_CAPABILITY",
            DescriptorType::Hid => "HID",
            DescriptorType::Report => "REPORT",
            DescriptorType::Physical => "PHYSICAL",
            DescriptorType::Hub => "HUB",
            DescriptorType::SuperspeedHub => "SUPERSPEED_HUB",
            DescriptorType::SsEndpointCompanion => "SS_ENDPOINT_COMPANION",
            DescriptorType::Invalid => "INVALID",
        }
    }
}

/// Direction of the transfers over an endpoint.
#[derive(Clone, Copy, Debug, PartialEq, Eq, Structural)]
pub enum Direction {
    In,
    Out,
}

impl Direction {
    /// The direction that an endpoint address encodes: its direction bit
    /// alone decides.
    pub open spec fn of_address(address: u32) -> Direction {
        if address & ENDPOINT_DIR_MASK == 0x80 {
            Direction::In
        } else {
            Direction::Out
        }
    }

    /// The label under which a direction is reported.
    pub open spec fn label(self) -> Seq<char> {
        match self {
            Direction::In => "IN"@,
            Direction::Out => "OUT"@,
        }
    }

    /// Reads the direction off an endpoint address.
    pub fn from_address(address: u32) -> (direction: Direction)
        ensures
            direction == Direction::of_address(address),
    {
        if address & ENDPOINT_DIR_MASK == 0x80 {
            Direction::In
        } else {
            Direction::Out
        }
    }

    /// Gives the label of the direction.
    pub fn name(self) -> (text: &'static str)
        ensures
            text@ == self.label(),
    {
        match self {
            Direction::In => "IN",
            Direction::Out => "OUT",
        }
    }
}

/// How an endpoint transfers data.
#[derive(Clone, Copy, Debug, PartialEq, Eq, Structural)]
pub enum TransferType {
    Control,
    Isochronous,
    Bulk,
    Interrupt,
    Invalid,
}

impl TransferType {
    /// The transfer type that a two-bit code denotes; `Invalid` for every
    /// code above three, the code of bulk streams among them.
    pub open spec fn of_code(code: u32) -> TransferType {
        if code == 0 {
            TransferType::Control
        } else if code == 1 {
            TransferType::Isochronous
        } else if code == 2 {
            TransferType::Bulk
        } else if code == 3 {
            TransferType::Interrupt
        } else {
            TransferType::Invalid
        }
    }

    /// The transfer type that an endpoint's attributes encode: their two
    /// lowest bits alone decide.
    pub open spec fn of_attributes(attributes: u32) -> TransferType {
        TransferType::of_code(attributes & TRANSFER_TYPE_MASK)
    }

    /// The label under which a transfer type is reported.
    pub open spec fn label(self) -> Seq<char> {
        match self {
            TransferType::Control => "CONTROL"@,
            TransferType::Isochronous => "ISOCHRONOUS"@,
            TransferType::Bulk => "BULK"@,
            TransferType::Interrupt => "INTERRUPT"@,
            TransferType::Invalid => "INVALID"@,
        }
    }

    /// Classifies a transfer-type code.
    pub fn from_code(code: u32) -> (kind: TransferType)
        ensures
            kind == TransferType::of_code(code),
    {
        match code {
            0 => TransferType::Control,
            1 => TransferType::Isochronous,
            2 => TransferType::Bulk,
            3 => TransferType::Interrupt,
            _ => TransferType::Invalid,
        }
    }

    /// Reads the transfer type off an endpoint's attributes.
    pub fn from_attributes(attributes: u32) -> (kind: TransferType)
        ensures
            kind == TransferType::of_attributes(attributes),
    {
        TransferType::from_code(attributes & TRANSFER_TYPE_MASK)
    }

    /// Gives the label of the transfer type.
    pub fn name(self) -> (text: &'static str)
        ensures
            text@ == self.label(),
    {
        match self {
            TransferType::Control => "CONTROL",
            TransferType::Isochronous => "ISOCHRONOUS",
            TransferType::Bulk => "BULK",
            TransferType::Interrupt => "INTERRUPT",
            TransferType::Invalid => "INVALID",
        }
    }
}

/// The label of a descriptor-type code.
pub open spec fn desc_type_label(code: u32) -> Seq<char> {
    DescriptorType::of_code(code).label()
}

/// The label of the direction that an endpoint address encodes.
pub open spec fn ep_direction_label(address: u32) -> Seq<char> {
    Direction::of_address(address).label()
}

/// The label of the transfer type that an endpoint's attributes encode.
pub open spec fn ep_xfer_type_label(attributes: u32) -> Seq<char> {
    TransferType::of_attributes(attributes).label()
}

/// Names the kind of descriptor that `dev_type` denotes. A code that
/// denotes none is named "INVALID".
pub fn desc_type_str(dev_type: u32) -> (text: &'static str)
    ensures
        text@ == desc_type_label(dev_type),
{
    DescriptorType::from_code(dev_type).name()
}

/// Names the direction of the endpoint at address `ep_addr`: "IN" where
/// the direction bit is set, "OUT" where it is not.
pub fn ep_direction_str(ep_addr: u32) -> (text: &'static str)
    ensures
        text@ == ep_direction_label(ep_addr),
        text@ == (if ep_addr & 0x80 == 0x80 { "IN"@ } else { "OUT"@ }),
{
    Direction::from_address(ep_addr).name()
}

/// Names the transfer type that the two lowest bits of `ep_attrs` encode.
pub fn ep_xfer_type_str(ep_attrs: u32) -> (text: &'static str)
    ensures
        text@ == ep_xfer_type_label(ep_attrs),
        text@ == TransferType::of_code(ep_attrs & 0x03).label(),
{
    TransferType::from_attributes(ep_attrs).name()
}

/// What tells the labels apart: the length and the first two characters.
spec fn traits_of(label: Seq<char>) -> (nat, char, char) {
    (label.len(), label[0], label[1])
}

/// No two descriptor types share a label, so a label tells the type.
pub proof fn lemma_descriptor_labels_distinct(a: DescriptorType, b: DescriptorType)
    ensures
        a.label() == b.label() <==> a == b,
{
    reveal_strlit("DEVICE");
    reveal_strlit("CONFIG");
    reveal_strlit("STRING");
    reveal_strlit("INTERFACE");
    reveal_strlit("ENDPOINT");
    reveal_strlit("BOS");
    reveal_strlit("DEVICE_CAPABILITY");
    reveal_strlit("HID");
    reveal_strlit("REPORT");
    reveal_strlit("PHYSICAL");
    reveal_strlit("HUB");
    reveal_strlit("SUPERSPEED_HUB");
    reveal_strlit("SS_ENDPOINT_COMPANION");
    reveal_strlit("INVALID");
    assert(traits_of("DEVICE"@) == (6nat, 'D', 'E'));
    assert(traits_of("CONFIG"@) == (6nat, 'C', 'O'));
    assert(traits_of("STRING"@) == (6nat, 'S', 'T'));
    assert(traits_of("INTERFACE"@) == (9nat, 'I', 'N'));
    assert(traits_of("ENDPOINT"@) == (8nat, 'E', 'N'));
    assert(traits_of("BOS"@) == (3nat, 'B', 'O'));
    assert(traits_of("DEVICE_CAPABILITY"@) == (17nat, 'D', 'E'));
    assert(traits_of("HID"@) == (3nat, 'H', 'I'));
    assert(traits_of("REPORT"@) == (6nat, 'R', 'E'));
    assert(traits_of("PHYSICAL"@) == (8nat, 'P', 'H'));
    assert(traits_of("HUB"@) == (3nat, 'H', 'U'));
    assert(traits_of("SUPERSPEED_HUB"@) == (14nat, 'S', 'U'));
    assert(traits_of("SS_ENDPOINT_COMPANION"@) == (21nat, 'S', 'S'));
    assert(traits_of("INVALID"@) == (7nat, 'I', 'N'));
    assert(traits_of(a.label()) == traits_of(b.label()) ==> a == b);
}

/// The two directions have different labels.
pub proof fn lemma_direction_labels_distinct(a: Direction, b: Direction)
    ensures
        a.label() == b.label() <==> a == b,
{
    reveal_strlit("IN");
    reveal_strlit("OUT");
    assert(traits_of("IN"@) == (2nat, 'I', 'N'));
    assert(traits_of("OUT"@) == (3nat, 'O', 'U'));
    assert(traits_of(a.label()) == traits_of(b.label()) ==> a == b);
}

/// No two transfer types share a label.
pub proof fn lemma_transfer_labels_distinct(a: TransferType, b: TransferType)
    ensures
        a.label() == b.label() <==> a == b,
{
    reveal_strlit("CONTROL");
    reveal_strlit("ISOCHRONOUS");
    reveal_strlit("BULK");
    reveal_strlit("INTERRUPT");
    reveal_strlit("INVALID");
    assert(traits_of("CONTROL"@) == (7nat, 'C', 'O'));
    assert(traits_of("ISOCHRONOUS"@) == (11nat, 'I', 'S'));
    assert(traits_of("BULK"@) == (4nat, 'B', 'U'));
    assert(traits_of("INTERRUPT"@) == (9nat, 'I', 'N'));
    assert(traits_of("INVALID"@) == (7nat, 'I', 'N'));
    assert(traits_of(a.label()) == traits_of(b.label()) ==> a == b);
}

/// Every endpoint address has exactly one direction, which only its
/// direction bit decides: masking the address first changes nothing.
pub proof fn lemma_direction_masked(address: u32)
    ensures
        Direction::of_address(address & ENDPOINT_DIR_MASK) == Direction::of_address(address),
        ep_direction_label(address) == "IN"@ || ep_direction_label(address) == "OUT"@,
        ep_direction_label(address) == "IN"@ <==> address & 0x80 != 0,
        "IN"@ != "OUT"@,
{
    assert((address & 0x80) & 0x80 == address & 0x80) by (bit_vector);
    assert(address & 0x80 == 0x80 || address & 0x80 == 0) by (bit_vector);
    lemma_direction_labels_distinct(Direction::In, Direction::Out);
}

/// Every attribute value has exactly one transfer type, which only its two
/// lowest bits decide: masking the value first changes nothing, and the
/// type is never `Invalid`.
pub proof fn lemma_transfer_type_masked(attributes: u32)
    ensures
        TransferType::of_attributes(attributes & TRANSFER_TYPE_MASK)
            == TransferType::of_attributes(attributes),
        TransferType::of_attributes(attributes) != TransferType::Invalid,
        TransferType::of_attributes(attributes) == TransferType::of_code(attributes % 4),
        ep_xfer_type_label(attributes) == "CONTROL"@ || ep_xfer_type_label(attributes)
            == "ISOCHRONOUS"@ || ep_xfer_type_label(attributes) == "BULK"@ || ep_xfer_type_label(
            attributes,
        ) == "INTERRUPT"@,
{
    assert((attributes & 0x03) & 0x03 == attributes & 0x03) by (bit_vector);
    assert(attributes & 0x03 == attributes % 4) by (bit_vector);
}

/// A code above three has no transfer type of its own.
pub proof fn lemma_transfer_code_out_of_range(code: u32)
    ensures
        TransferType::of_code(code) == TransferType::Invalid <==> code > 3,
{
}

} // verus!

use pcics::capabilities::enhanced_allocation::{BusNumbers, EnhancedAllocationError};
use pcics::capabilities::hypertransport::{CapabilityType, HypertransportError};
use pcics::capabilities::message_signaled_interrups::{
    MessageAddress, MessageSignaledInterrupsError,
};
use pcics::capabilities::pci_express::{Device, DeviceType, PciExpressError};
use pcics::capabilities::pci_x::{Ecc, PciXBridgeError, PciXError};
use pcics::capabilities::vendor_specific::{Framing, VendorSpecificError};
use pcics::capabilities::{
    AcceleratedGraphicsPort, AdvancedFeatures, Agp8x, BridgeSubsystemVendorId, CapabilityDataError,
    CapabilityError, CapabilityKind, CapabilityKindError, CompactPciHotSwap,
    CompactPciResourceControl, DebugPort, EnhancedAllocation, FlatteningPortalBridge,
    Hypertransport, MessageSignaledInterrups, MsiX, PciExpress, PciHotPlug, PciX, PciXBridge,
    PowerManagementInterface, Sata, SecureDevice, SlotIdentification, VendorSpecific,
    VitalProductData,
};
use pcics::header::{Header, HeaderType};

const DEVICE: Header = Header {
    vendor_id: 0x8086,
    device_id: 0x9dc8,
    header_type: HeaderType::Normal,
    capabilities_pointer: 0x40,
};

const BRIDGE: Header = Header {
    vendor_id: 0x8086,
    device_id: 0x9dc8,
    header_type: HeaderType::Bridge,
    capabilities_pointer: 0x40,
};

const CARDBUS: Header = Header {
    vendor_id: 0x8086,
    device_id: 0x9dc8,
    header_type: HeaderType::Cardbus,
    capabilities_pointer: 0x40,
};

const VIRTIO: Header = Header {
    vendor_id: 0x1af4,
    device_id: 0x1041,
    header_type: HeaderType::Normal,
    capabilities_pointer: 0x40,
};

/// The bytes 0x01, 0x02, 0x03 and so on.
fn counting(len: usize) -> Vec<u8> {
    (1..=len).map(|i| i as u8).collect()
}

fn too_short(name: &'static str, size: usize) -> CapabilityDataError {
    CapabilityDataError { name, size }
}

#[test]
fn power_management_interface_registers() {
    let bytes = counting(8);
    assert_eq!(
        Ok(PowerManagementInterface {
            capabilities: 0x0201,
            control: 0x0403,
            bridge: 0x05,
            data: 0x06,
        }),
        PowerManagementInterface::try_from(&bytes[..])
    );
    assert_eq!(
        PowerManagementInterface::try_from(&bytes[..]),
        PowerManagementInterface::try_from(&bytes[..6])
    );
    assert_eq!(
        Err(too_short("Power Management Interface", 6)),
        PowerManagementInterface::try_from(&bytes[..5])
    );
}

#[test]
fn accelerated_graphics_port_registers() {
    let bytes = counting(10);
    assert_eq!(
        Ok(AcceleratedGraphicsPort {
            revision: 0x01,
            status: 0x06050403,
            command: 0x0a090807,
        }),
        AcceleratedGraphicsPort::try_from(&bytes[..])
    );
    assert_eq!(
        Err(too_short("Accelerated Graphics Port", 10)),
        AcceleratedGraphicsPort::try_from(&bytes[..9])
    );
}

#[test]
fn vital_product_data_registers() {
    let bytes = counting(6);
    assert_eq!(
        Ok(VitalProductData {
            address: 0x0201,
            data: 0x06050403,
        }),
        VitalProductData::try_from(&bytes[..])
    );
    assert_eq!(
        Err(too_short("Vital Product Data", 6)),
        VitalProductData::try_from(&bytes[..5])
    );
}

#[test]
fn slot_identification_registers() {
    let bytes = counting(2);
    assert_eq!(
        Ok(SlotIdentification {
            expansion_slot: 0x01,
            chassis_number: 0x02,
        }),
        SlotIdentification::try_from(&bytes[..])
    );
    assert_eq!(
        Err(too_short("Slot Identification", 2)),
        SlotIdentification::try_from(&bytes[..1])
    );
}

#[test]
fn debug_port_register() {
    let bytes = [0xa0, 0x20];
    assert_eq!(Ok(DebugPort { port: 0x20a0 }), DebugPort::try_from(&bytes[..]));
    assert_eq!(
        Err(too_short("Debug port", 2)),
        DebugPort::try_from(&bytes[..1])
    );
    assert_eq!(Err(too_short("Debug port", 2)), DebugPort::try_from(&[][..]));
}

#[test]
fn bridge_subsystem_vendor_id_registers() {
    let bytes = counting(6);
    assert_eq!(
        Ok(BridgeSubsystemVendorId {
            reserved: 0x0201,
            subsystem_vendor_id: 0x0403,
            subsystem_id: 0x0605,
        }),
        BridgeSubsystemVendorId::try_from(&bytes[..])
    );
    assert_eq!(
        Err(too_short("Bridge Subsystem Vendor ID", 6)),
        BridgeSubsystemVendorId::try_from(&bytes[..5])
    );
}

#[test]
fn msi_x_registers() {
    let bytes = counting(10);
    assert_eq!(
        Ok(MsiX {
            message_control: 0x0201,
            table: 0x06050403,
            pending_bit_array: 0x0a090807,
        }),
        MsiX::try_from(&bytes[..])
    );
    assert_eq!(Err(too_short("MSI-X", 10)), MsiX::try_from(&bytes[..9]));
}

#[test]
fn sata_registers() {
    let bytes = counting(6);
    assert_eq!(
        Ok(Sata {
            revision: 0x01,
            bar: 0x06050403,
        }),
        Sata::try_from(&bytes[..])
    );
    assert_eq!(Err(too_short("Serial ATA", 6)), Sata::try_from(&bytes[..5]));
}

#[test]
fn advanced_features_registers() {
    let bytes = counting(4);
    assert_eq!(
        Ok(AdvancedFeatures {
            length: 0x01,
            capabilities: 0x02,
            control: 0x03,
            status: 0x04,
        }),
        AdvancedFeatures::try_from(&bytes[..])
    );
    assert_eq!(
        Err(too_short("Advanced Features", 4)),
        AdvancedFeatures::try_from(&bytes[..3])
    );
}

#[test]
fn flattening_portal_bridge_registers() {
    let bytes = counting(34);
    assert_eq!(
        Ok(FlatteningPortalBridge {
            capabilities: 0x06050403,
            rid_vector_control_1: 0x0a090807,
            rid_vector_control_2: 0x0e0d0c0b,
            mem_low_vector_control: 0x1211100f,
            mem_high_vector_control_1: 0x16151413,
            mem_high_vector_control_2: 0x1a191817,
            vector_access_control: 0x1e1d1c1b,
            vector_access_data: 0x2221201f,
        }),
        FlatteningPortalBridge::try_from(&bytes[..])
    );
    assert_eq!(
        Err(too_short("Flattening Portal Bridge", 34)),
        FlatteningPortalBridge::try_from(&bytes[..33])
    );
}

#[test]
fn registers_of_the_largest_values() {
    let bytes = [0xff; 10];
    assert_eq!(
        Ok(MsiX {
            message_control: 0xffff,
            table: 0xffff_ffff,
            pending_bit_array: 0xffff_ffff,
        }),
        MsiX::try_from(&bytes[..])
    );
}

#[test]
fn message_signaled_interrupts_of_each_shape() {
    let mut bytes = counting(24);
    // 32-bit address, no masking: ten bytes.
    bytes[0] = 0x01;
    bytes[1] = 0x00;
    assert!(!MessageSignaledInterrups::is_64_bit(0x0001));
    assert!(!MessageSignaledInterrups::is_maskable(0x0001));
    let narrow = MessageSignaledInterrups {
        message_control: 0x0001,
        message_address: MessageAddress::Dword(0x06050403),
        message_data: 0x0807,
        extended_message_data: 0x0a09,
        mask_bits: None,
        pending_bits: None,
    };
    assert_eq!(Ok(narrow), MessageSignaledInterrups::try_from(&bytes[..]));
    assert_eq!(Ok(narrow), MessageSignaledInterrups::try_from(&bytes[..10]));
    assert_eq!(
        Err(MessageSignaledInterrupsError::Registers { size: 10 }),
        MessageSignaledInterrups::try_from(&bytes[..9])
    );
    // 64-bit address, no masking: fourteen bytes.
    bytes[0] = 0x80;
    assert!(MessageSignaledInterrups::is_64_bit(0x0080));
    assert_eq!(
        Ok(MessageSignaledInterrups {
            message_control: 0x0080,
            message_address: MessageAddress::Qword(0x0a09080706050403),
            message_data: 0x0c0b,
            extended_message_data: 0x0e0d,
            mask_bits: None,
            pending_bits: None,
        }),
        MessageSignaledInterrups::try_from(&bytes[..14])
    );
    assert_eq!(
        Err(MessageSignaledInterrupsError::Registers { size: 14 }),
        MessageSignaledInterrups::try_from(&bytes[..13])
    );
    // 32-bit address with masking: eighteen bytes.
    bytes[0] = 0x00;
    bytes[1] = 0x01;
    assert!(MessageSignaledInterrups::is_maskable(0x0100));
    assert_eq!(
        Ok(MessageSignaledInterrups {
            message_control: 0x0100,
            message_address: MessageAddress::Dword(0x06050403),
            message_data: 0x0807,
            extended_message_data: 0x0a09,
            mask_bits: Some(0x0e0d0c0b),
            pending_bits: Some(0x1211100f),
        }),
        MessageSignaledInterrups::try_from(&bytes[..18])
    );
    assert_eq!(
        Err(MessageSignaledInterrupsError::Registers { size: 18 }),
        MessageSignaledInterrups::try_from(&bytes[..17])
    );
    // 64-bit address with masking: twenty-two bytes.
    bytes[0] = 0x80;
    assert_eq!(
        Ok(MessageSignaledInterrups {
            message_control: 0x0180,
            message_address: MessageAddress::Qword(0x0a09080706050403),
            message_data: 0x0c0b,
            extended_message_data: 0x0e0d,
            mask_bits: Some(0x1211100f),
            pending_bits: Some(0x16151413),
        }),
        MessageSignaledInterrups::try_from(&bytes[..])
    );
    assert_eq!(
        Err(MessageSignaledInterrupsError::Registers { size: 22 }),
        MessageSignaledInterrups::try_from(&bytes[..21])
    );
    // No Message Control to tell which registers there are.
    assert_eq!(
        Err(MessageSignaledInterrupsError::MessageControl),
        MessageSignaledInterrups::try_from(&bytes[..1])
    );
    assert_eq!(
        Err(MessageSignaledInterrupsError::MessageControl),
        MessageSignaledInterrups::try_from(&[][..])
    );
}

#[test]
fn pci_x_with_and_without_ecc() {
    let mut bytes = counting(22);
    bytes[1] = 0x00;
    assert_eq!(
        Ok(PciX {
            command: 0x0001,
            status: 0x06050403,
            ecc: None
        }),
        PciX::try_from(&bytes[..])
    );
    assert_eq!(
        Ok(PciX {
            command: 0x0001,
            status: 0x06050403,
            ecc: None
        }),
        PciX::try_from(&bytes[..6])
    );
    assert_eq!(Err(PciXError::Registers), PciX::try_from(&bytes[..5]));
    for (version, command) in [(0x10, 0x1001), (0x20, 0x2001), (0x30, 0x3001)] {
        bytes[1] = version;
        assert!(Ecc::is_announced(command));
        assert_eq!(
            Ok(PciX {
                command,
                status: 0x06050403,
                ecc: Some(Ecc {
                    control_and_status: 0x0a090807,
                    first_address: 0x0e0d0c0b,
                    second_address: 0x1211100f,
                    attribute: 0x16151413,
                }),
            }),
            PciX::try_from(&bytes[..])
        );
        assert_eq!(Err(PciXError::Ecc), PciX::try_from(&bytes[..21]));
        assert_eq!(Err(PciXError::Ecc), PciX::try_from(&bytes[..6]));
        assert_eq!(Err(PciXError::Registers), PciX::try_from(&bytes[..5]));
    }
    assert!(!Ecc::is_announced(0xcfff));
}

#[test]
fn pci_x_bridge_with_and_without_ecc() {
    let mut bytes = counting(30);
    bytes[1] = 0x00;
    let plain = PciXBridge {
        secondary_status: 0x0001,
        bridge_status: 0x06050403,
        upstream_split_transaction_control: 0x0a090807,
        downstream_split_transaction_control: 0x0e0d0c0b,
        ecc: None,
    };
    assert_eq!(Ok(plain), PciXBridge::try_from(&bytes[..]));
    assert_eq!(Ok(plain), PciXBridge::try_from(&bytes[..14]));
    assert_eq!(
        Err(PciXBridgeError::Registers),
        PciXBridge::try_from(&bytes[..13])
    );
    bytes[1] = 0x10;
    assert_eq!(
        Ok(PciXBridge {
            secondary_status: 0x1001,
            ecc: Some(Ecc {
                control_and_status: 0x1211100f,
                first_address: 0x16151413,
                second_address: 0x1a191817,
                attribute: 0x1e1d1c1b,
            }),
            ..plain
        }),
        PciXBridge::try_from(&bytes[..])
    );
    assert_eq!(Err(PciXBridgeError::Ecc), PciXBridge::try_from(&bytes[..29]));
    assert_eq!(
        Err(PciXBridgeError::Registers),
        PciXBridge::try_from(&bytes[..13])
    );
}

#[test]
fn header_type_picks_the_shape_of_pci_x() {
    let bytes = [0u8; 14];
    let device = PciX {
        command: 0,
        status: 0,
        ecc: None,
    };
    let bridge = PciXBridge {
        secondary_status: 0,
        bridge_status: 0,
        upstream_split_transaction_control: 0,
        downstream_split_transaction_control: 0,
        ecc: None,
    };
    assert_eq!(
        Ok(CapabilityKind::PciXBridge(bridge)),
        CapabilityKind::decode(0x07, &bytes, &BRIDGE)
    );
    assert_eq!(
        Ok(CapabilityKind::PciX(device)),
        CapabilityKind::decode(0x07, &bytes, &DEVICE)
    );
    assert_eq!(
        Ok(CapabilityKind::PciX(device)),
        CapabilityKind::decode(0x07, &bytes, &CARDBUS)
    );
    // Each shape fails in its own way.
    assert_eq!(
        Err(CapabilityKindError::PciXBridge(PciXBridgeError::Registers)),
        CapabilityKind::decode(0x07, &bytes[..13], &BRIDGE)
    );
    assert_eq!(
        Ok(CapabilityKind::PciX(device)),
        CapabilityKind::decode(0x07, &bytes[..13], &DEVICE)
    );
    assert_eq!(
        Err(CapabilityKindError::PciX(PciXError::Registers)),
        CapabilityKind::decode(0x07, &bytes[..5], &DEVICE)
    );
}

#[test]
fn hypertransport_capability_types() {
    let named = [
        (0x00, CapabilityType::SlaveOrPrimaryInterface),
        (0x1f, CapabilityType::SlaveOrPrimaryInterface),
        (0x20, CapabilityType::HostOrSecondaryInterface),
        (0x3f, CapabilityType::HostOrSecondaryInterface),
        (0x40, CapabilityType::Switch),
        (0x47, CapabilityType::Switch),
        (0x80, CapabilityType::InterruptDiscoveryAndConfiguration),
        (0x88, CapabilityType::RevisionId),
        (0x90, CapabilityType::UnitIdClumping),
        (0x98, CapabilityType::ExtendedConfigurationSpaceAccess),
        (0xa0, CapabilityType::AddressMapping),
        (0xa8, CapabilityType::MsiMapping),
        (0xb0, CapabilityType::DirectRoute),
        (0xb8, CapabilityType::VcSet),
        (0xc0, CapabilityType::RetryMode),
        (0xc8, CapabilityType::X86Encoding),
        (0xd0, CapabilityType::Gen3),
        (0xd8, CapabilityType::FunctionLevelExtension),
        (0xe0, CapabilityType::PowerManagement),
        (0xe8, CapabilityType::HighNodeCount),
    ];
    for (high, capability_type) in named {
        assert_eq!(
            Ok(Hypertransport {
                command: 0x34 + 0x100 * high as u16,
                capability_type,
            }),
            Hypertransport::try_from(&[0x34, high, 0xff][..])
        );
    }
    for (high, code) in [(0x48, 9), (0x50, 10), (0x7f, 15), (0xf0, 30), (0xff, 31)] {
        assert_eq!(
            Err(HypertransportError::CapabilityType { code }),
            Hypertransport::try_from(&[0x34, high][..])
        );
    }
    assert_eq!(
        Err(HypertransportError::Command),
        Hypertransport::try_from(&[0x34][..])
    );
    assert_eq!(None, CapabilityType::from_code(32));
}

#[test]
fn pci_express_device_registers() {
    let mut bytes = counting(12);
    let types = [
        (0, DeviceType::Endpoint),
        (1, DeviceType::LegacyEndpoint),
        (4, DeviceType::RootPort),
        (5, DeviceType::UpstreamPort),
        (6, DeviceType::DownstreamPort),
        (7, DeviceType::PcieToPciBridge),
        (8, DeviceType::PciToPcieBridge),
        (9, DeviceType::RootComplexIntegratedEndpoint),
        (10, DeviceType::RootComplexEventCollector),
    ];
    for (code, device_type) in types {
        bytes[0] = code * 16 + 2;
        assert_eq!(Some(device_type), DeviceType::from_code(code));
        assert_eq!(
            Ok(PciExpress {
                capabilities: 0x0202 + 16 * code as u16,
                device_type,
                device: Device {
                    capabilities: 0x06050403,
                    control: 0x0807,
                    status: 0x0a09,
                },
            }),
            PciExpress::try_from(&bytes[..])
        );
        assert_eq!(
            Err(PciExpressError::Device),
            PciExpress::try_from(&bytes[..9])
        );
    }
    for code in [2, 3, 11, 12, 13, 14, 15] {
        bytes[0] = code * 16 + 2;
        assert_eq!(None, DeviceType::from_code(code));
        assert_eq!(
            Err(PciExpressError::DeviceType { code }),
            PciExpress::try_from(&bytes[..])
        );
        assert_eq!(
            Err(PciExpressError::DeviceType { code }),
            PciExpress::try_from(&bytes[..2])
        );
    }
    assert_eq!(
        Err(PciExpressError::Capabilities),
        PciExpress::try_from(&bytes[..1])
    );
}

#[test]
fn vendor_specific_bytes_after_the_length() {
    let bytes = [0x08, 0xa1, 0xa2, 0xa3, 0xa4, 0xa5, 0xa6, 0xa7];
    assert_eq!(
        Ok(VendorSpecific {
            length: 8,
            framing: Framing::Unspecified,
            data: &[0xa1, 0xa2, 0xa3, 0xa4, 0xa5],
        }),
        VendorSpecific::try_new(&bytes, &DEVICE)
    );
    assert_eq!(
        Ok(VendorSpecific {
            length: 8,
            framing: Framing::Unspecified,
            data: &[0xa1, 0xa2, 0xa3, 0xa4, 0xa5],
        }),
        VendorSpecific::try_new(&bytes[..6], &DEVICE)
    );
    assert_eq!(
        Err(VendorSpecificError::Data { size: 8 }),
        VendorSpecific::try_new(&bytes[..5], &DEVICE)
    );
    // Nothing but the header and the length.
    assert_eq!(
        Ok(VendorSpecific {
            length: 3,
            framing: Framing::Unspecified,
            data: &[],
        }),
        VendorSpecific::try_new(&[0x03], &DEVICE)
    );
    for value in [0, 1, 2] {
        assert_eq!(
            Err(VendorSpecificError::Length { value }),
            VendorSpecific::try_new(&[value, 0xa1, 0xa2], &DEVICE)
        );
    }
    assert_eq!(
        Err(VendorSpecificError::LengthUnreadable),
        VendorSpecific::try_new(&[], &DEVICE)
    );
    // The longest.
    let mut bytes = [0x5a; 300];
    bytes[0] = 0xff;
    assert_eq!(
        Ok(VendorSpecific {
            length: 0xff,
            framing: Framing::Unspecified,
            data: &[0x5a; 252],
        }),
        VendorSpecific::try_new(&bytes, &DEVICE)
    );
    assert_eq!(
        Err(VendorSpecificError::Data { size: 255 }),
        VendorSpecific::try_new(&bytes[..252], &DEVICE)
    );
}

#[test]
fn vendor_specific_framing_of_virtio() {
    assert_eq!(Framing::Virtio, Framing::of(&VIRTIO));
    assert_eq!(Framing::Unspecified, Framing::of(&DEVICE));
    for (vendor_id, device_id, framing) in [
        (0x1af4, 0x1000, Framing::Virtio),
        (0x1af4, 0x107f, Framing::Virtio),
        (0x1af4, 0x0fff, Framing::Unspecified),
        (0x1af4, 0x1080, Framing::Unspecified),
        (0x1af3, 0x1041, Framing::Unspecified),
    ] {
        let header = Header {
            vendor_id,
            device_id,
            ..DEVICE
        };
        assert_eq!(framing, Framing::of(&header));
    }
    assert_eq!(3, Framing::Unspecified.min_length());
    assert_eq!(16, Framing::Virtio.min_length());
    let mut bytes = counting(20);
    bytes[0] = 16;
    assert_eq!(
        Ok(VendorSpecific {
            length: 16,
            framing: Framing::Virtio,
            data: &bytes[1..14],
        }),
        VendorSpecific::try_new(&bytes, &VIRTIO)
    );
    // The same bytes are too short for virtio and long enough for others.
    bytes[0] = 15;
    assert_eq!(
        Err(VendorSpecificError::Length { value: 15 }),
        VendorSpecific::try_new(&bytes, &VIRTIO)
    );
    assert_eq!(
        Ok(VendorSpecific {
            length: 15,
            framing: Framing::Unspecified,
            data: &bytes[1..13],
        }),
        VendorSpecific::try_new(&bytes, &DEVICE)
    );
}

#[test]
fn enhanced_allocation_entries() {
    // Two entries in a device: one of two registers, one of one.
    let bytes = [
        0x02, 0x00, // number of entries
        0x01, 0x11, 0x12, 0x13, 0x14, 0x15, 0x16, 0x17, // first entry
        0x00, 0x21, 0x22, 0x23, // second entry
        0xee, 0xee,
    ];
    assert_eq!(
        Ok(EnhancedAllocation {
            num_entries: 2,
            bus_numbers: None,
            entries: &bytes[2..14],
        }),
        EnhancedAllocation::try_new(&bytes, &DEVICE)
    );
    assert_eq!(
        Ok(EnhancedAllocation {
            num_entries: 2,
            bus_numbers: None,
            entries: &bytes[2..14],
        }),
        EnhancedAllocation::try_new(&bytes[..14], &DEVICE)
    );
    assert_eq!(
        Err(EnhancedAllocationError::Entry { number: 1 }),
        EnhancedAllocation::try_new(&bytes[..13], &DEVICE)
    );
    assert_eq!(
        Err(EnhancedAllocationError::Entry { number: 1 }),
        EnhancedAllocation::try_new(&bytes[..10], &DEVICE)
    );
    assert_eq!(
        Err(EnhancedAllocationError::Entry { number: 0 }),
        EnhancedAllocation::try_new(&bytes[..9], &DEVICE)
    );
    assert_eq!(
        Err(EnhancedAllocationError::Entry { number: 0 }),
        EnhancedAllocation::try_new(&bytes[..2], &DEVICE)
    );
    assert_eq!(
        Err(EnhancedAllocationError::NumEntries),
        EnhancedAllocation::try_new(&bytes[..1], &DEVICE)
    );
    // No entries; the two highest bits of the first byte do not count.
    assert_eq!(
        Ok(EnhancedAllocation {
            num_entries: 0,
            bus_numbers: None,
            entries: &[],
        }),
        EnhancedAllocation::try_new(&[0xc0, 0x00, 0x07], &DEVICE)
    );
}

#[test]
fn enhanced_allocation_of_a_bridge() {
    let bytes = [
        0x01, 0x00, // number of entries
        0x05, 0x09, 0x00, 0x00, // bus numbers
        0x0f, 0x11, 0x12, 0x13, // an entry of eight registers
        0x21, 0x22, 0x23, 0x24, 0x25, 0x26, 0x27, 0x28, 0x31, 0x32, 0x33, 0x34, 0x35, 0x36, 0x37,
        0x38, 0x41, 0x42, 0x43, 0x44, 0x45, 0x46, 0x47, 0x48, 0x51, 0x52, 0x53, 0x54,
    ];
    assert_eq!(38, bytes.len());
    assert_eq!(
        Ok(EnhancedAllocation {
            num_entries: 1,
            bus_numbers: Some(BusNumbers {
                secondary: 5,
                subordinate: 9
            }),
            entries: &bytes[6..38],
        }),
        EnhancedAllocation::try_new(&bytes, &BRIDGE)
    );
    assert_eq!(
        Err(EnhancedAllocationError::Entry { number: 0 }),
        EnhancedAllocation::try_new(&bytes[..37], &BRIDGE)
    );
    assert_eq!(
        Err(EnhancedAllocationError::BusNumbers),
        EnhancedAllocation::try_new(&bytes[..5], &BRIDGE)
    );
    assert_eq!(
        Err(EnhancedAllocationError::NumEntries),
        EnhancedAllocation::try_new(&bytes[..1], &BRIDGE)
    );
    // In a device the entries start where a bridge has its bus numbers.
    assert_eq!(
        Ok(EnhancedAllocation {
            num_entries: 1,
            bus_numbers: None,
            entries: &bytes[2..26],
        }),
        EnhancedAllocation::try_new(&bytes, &DEVICE)
    );
}

#[test]
fn enhanced_allocation_of_the_most_entries() {
    let mut bytes = vec![0x3f, 0x00];
    for _ in 0..63 {
        bytes.extend_from_slice(&[0x00, 0x00, 0x00, 0x00]);
    }
    assert_eq!(
        Ok(EnhancedAllocation {
            num_entries: 63,
            bus_numbers: None,
            entries: &[0; 252],
        }),
        EnhancedAllocation::try_new(&bytes, &DEVICE)
    );
    assert_eq!(
        Err(EnhancedAllocationError::Entry { number: 62 }),
        EnhancedAllocation::try_new(&bytes[..253], &DEVICE)
    );
}

#[test]
fn kinds_without_registers_take_no_bytes() {
    let none: &[u8] = &[];
    for header in [DEVICE, BRIDGE, VIRTIO] {
        assert_eq!(
            Ok(CapabilityKind::NullCapability),
            CapabilityKind::decode(0x00, none, &header)
        );
        assert_eq!(
            Ok(CapabilityKind::CompactPciHotSwap(CompactPciHotSwap)),
            CapabilityKind::decode(0x06, none, &header)
        );
        assert_eq!(
            Ok(CapabilityKind::CompactPciResourceControl(
                CompactPciResourceControl
            )),
            CapabilityKind::decode(0x0b, none, &header)
        );
        assert_eq!(
            Ok(CapabilityKind::PciHotPlug(PciHotPlug)),
            CapabilityKind::decode(0x0c, none, &header)
        );
        assert_eq!(
            Ok(CapabilityKind::Agp8x(Agp8x)),
            CapabilityKind::decode(0x0e, none, &header)
        );
        assert_eq!(
            Ok(CapabilityKind::SecureDevice(SecureDevice)),
            CapabilityKind::decode(0x0f, none, &header)
        );
        for id in 0x16..=0xff {
            assert_eq!(
                Ok(CapabilityKind::Reserved(id)),
                CapabilityKind::decode(id, none, &header)
            );
            assert_eq!(
                Ok(CapabilityKind::Reserved(id)),
                CapabilityKind::decode(id, &[0xff; 64], &header)
            );
        }
    }
}

#[test]
fn each_id_has_its_kind() {
    let mut bytes = [0u8; 66];
    // A Vendor Specific capability of 16 bytes, and 16 entries of Enhanced
    // Allocation of four bytes each.
    bytes[0] = 0x10;
    let decoded = |id| CapabilityKind::decode(id, &bytes, &DEVICE).unwrap();
    assert!(matches!(decoded(0x01), CapabilityKind::PowerManagementInterface(_)));
    assert!(matches!(decoded(0x02), CapabilityKind::AcceleratedGraphicsPort(_)));
    assert!(matches!(decoded(0x03), CapabilityKind::VitalProductData(_)));
    assert!(matches!(decoded(0x04), CapabilityKind::SlotIdentification(_)));
    assert!(matches!(decoded(0x05), CapabilityKind::MessageSignaledInterrups(_)));
    assert!(matches!(decoded(0x07), CapabilityKind::PciX(_)));
    assert!(matches!(decoded(0x08), CapabilityKind::Hypertransport(_)));
    assert!(matches!(decoded(0x09), CapabilityKind::VendorSpecific(_)));
    assert!(matches!(decoded(0x0a), CapabilityKind::DebugPort(_)));
    assert!(matches!(decoded(0x0d), CapabilityKind::BridgeSubsystemVendorId(_)));
    assert!(matches!(decoded(0x10), CapabilityKind::PciExpress(_)));
    assert!(matches!(decoded(0x11), CapabilityKind::MsiX(_)));
    assert!(matches!(decoded(0x12), CapabilityKind::Sata(_)));
    assert!(matches!(decoded(0x13), CapabilityKind::AdvancedFeatures(_)));
    assert!(matches!(decoded(0x14), CapabilityKind::EnhancedAllocation(_)));
    assert!(matches!(decoded(0x15), CapabilityKind::FlatteningPortalBridge(_)));
}

#[test]
fn each_kind_fails_with_its_own_error() {
    let none: &[u8] = &[];
    let failed = |id, header: &Header| CapabilityKind::decode(id, none, header).unwrap_err();
    let names = [
        (0x01, "Power Management Interface", 6),
        (0x02, "Accelerated Graphics Port", 10),
        (0x03, "Vital Product Data", 6),
        (0x04, "Slot Identification", 2),
        (0x0a, "Debug port", 2),
        (0x0d, "Bridge Subsystem Vendor ID", 6),
        (0x11, "MSI-X", 10),
        (0x12, "Serial ATA", 6),
        (0x13, "Advanced Features", 4),
        (0x15, "Flattening Portal Bridge", 34),
    ];
    for (id, name, size) in names {
        let source = too_short(name, size);
        assert_eq!(CapabilityKindError::Data(source), failed(id, &DEVICE));
        assert_eq!(
            CapabilityError::Data { ptr: 0x77, source },
            CapabilityError::at(0x77, failed(id, &DEVICE))
        );
    }
    let source = MessageSignaledInterrupsError::MessageControl;
    assert_eq!(
        CapabilityKindError::MessageSignaledInterrups(source),
        failed(0x05, &DEVICE)
    );
    assert_eq!(
        CapabilityError::MessageSignaledInterrups { ptr: 0x77, source },
        CapabilityError::at(0x77, failed(0x05, &DEVICE))
    );
    let source = PciXError::Registers;
    assert_eq!(CapabilityKindError::PciX(source), failed(0x07, &DEVICE));
    assert_eq!(
        CapabilityError::PciX { ptr: 0x77, source },
        CapabilityError::at(0x77, failed(0x07, &DEVICE))
    );
    let source = PciXBridgeError::Registers;
    assert_eq!(CapabilityKindError::PciXBridge(source), failed(0x07, &BRIDGE));
    assert_eq!(
        CapabilityError::PciXBridge { ptr: 0x77, source },
        CapabilityError::at(0x77, failed(0x07, &BRIDGE))
    );
    let source = HypertransportError::Command;
    assert_eq!(
        CapabilityKindError::Hypertransport(source),
        failed(0x08, &DEVICE)
    );
    assert_eq!(
        CapabilityError::Hypertransport { ptr: 0x77, source },
        CapabilityError::at(0x77, failed(0x08, &DEVICE))
    );
    let source = VendorSpecificError::LengthUnreadable;
    assert_eq!(
        CapabilityKindError::VendorSpecific(source),
        failed(0x09, &DEVICE)
    );
    assert_eq!(
        CapabilityError::VendorSpecific { ptr: 0x77, source },
        CapabilityError::at(0x77, failed(0x09, &DEVICE))
    );
    let source = PciExpressError::Capabilities;
    assert_eq!(CapabilityKindError::PciExpress(source), failed(0x10, &DEVICE));
    assert_eq!(
        CapabilityError::PciExpress { ptr: 0x77, source },
        CapabilityError::at(0x77, failed(0x10, &DEVICE))
    );
    let source = EnhancedAllocationError::NumEntries;
    assert_eq!(
        CapabilityKindError::EnhancedAllocation(source),
        failed(0x14, &DEVICE)
    );
    assert_eq!(
        CapabilityError::EnhancedAllocation { ptr: 0x77, source },
        CapabilityError::at(0x77, failed(0x14, &DEVICE))
    );
}

#[test]
fn header_reaches_the_decoders_that_read_it() {
    let mut bytes = [0u8; 16];
    bytes[0] = 0x08;
    assert_eq!(
        Err(CapabilityKindError::VendorSpecific(
            VendorSpecificError::Length { value: 8 }
        )),
        CapabilityKind::decode(0x09, &bytes, &VIRTIO)
    );
    assert_eq!(
        Ok(CapabilityKind::VendorSpecific(VendorSpecific {
            length: 8,
            framing: Framing::Unspecified,
            data: &[0; 5],
        })),
        CapabilityKind::decode(0x09, &bytes, &DEVICE)
    );
    bytes[0] = 0x01;
    assert_eq!(
        Ok(CapabilityKind::EnhancedAllocation(EnhancedAllocation {
            num_entries: 1,
            bus_numbers: Some(BusNumbers {
                secondary: 0,
                subordinate: 0
            }),
            entries: &[0; 4],
        })),
        CapabilityKind::decode(0x14, &bytes[..10], &BRIDGE)
    );
    assert_eq!(
        Err(CapabilityKindError::EnhancedAllocation(
            EnhancedAllocationError::Entry { number: 0 }
        )),
        CapabilityKind::decode(0x14, &bytes[..9], &BRIDGE)
    );
    assert_eq!(
        Ok(CapabilityKind::EnhancedAllocation(EnhancedAllocation {
            num_entries: 1,
            bus_numbers: None,
            entries: &[0; 4],
        })),
        CapabilityKind::decode(0x14, &bytes[..9], &DEVICE)
    );
}

//! The capability list of a PCI function.

use crate::header::{Header, HeaderType};
use crate::{DDR_OFFSET, ECS_OFFSET};
use enhanced_allocation::{EnhancedAllocationError, EnhancedAllocationView};
use hypertransport::HypertransportError;
use message_signaled_interrups::MessageSignaledInterrupsError;
use pci_express::PciExpressError;
use pci_x::{PciXBridgeError, PciXError};
use vendor_specific::{VendorSpecificError, VendorSpecificView};
use vstd::prelude::*;
use vstd::set_lib::{lemma_int_range, lemma_len_subset, set_int_range};

pub mod accelerated_graphics_port;
pub mod advanced_features;
pub mod bridge_subsystem_vendor_id;
pub mod debug_port;
pub mod enhanced_allocation;
pub mod flattening_portal_bridge;
pub mod hypertransport;
pub mod message_signaled_interrups;
pub mod msi_x;
pub mod pci_express;
pub mod pci_x;
pub mod power_management_interface;
pub mod record;
pub mod sata;
pub mod slot_identification;
pub mod vendor_specific;
pub mod vital_product_data;

pub use accelerated_graphics_port::AcceleratedGraphicsPort;
pub use advanced_features::AdvancedFeatures;
pub use bridge_subsystem_vendor_id::BridgeSubsystemVendorId;
pub use debug_port::DebugPort;
pub use enhanced_allocation::EnhancedAllocation;
pub use flattening_portal_bridge::FlatteningPortalBridge;
pub use hypertransport::Hypertransport;
pub use message_signaled_interrups::MessageSignaledInterrups;
pub use msi_x::MsiX;
pub use pci_express::PciExpress;
pub use pci_x::{PciX, PciXBridge};
pub use power_management_interface::PowerManagementInterface;
pub use record::{RawRecord, RawRecordView};
pub use sata::Sata;
pub use slot_identification::SlotIdentification;
pub use vendor_specific::VendorSpecific;
pub use vital_product_data::VitalProductData;

verus! {

/// CompactPCI Hot Swap (06h), which this library does not look into.
#[derive(Debug, Clone, Copy, PartialEq, Eq, Structural)]
pub struct CompactPciHotSwap;

/// CompactPCI central resource control (0Bh), which this library does not
/// look into.
#[derive(Debug, Clone, Copy, PartialEq, Eq, Structural)]
pub struct CompactPciResourceControl;

/// PCI Hot-Plug (0Ch): the function conforms to the Standard Hot-Plug
/// Controller model. The capability has no registers that this library
/// looks into.
#[derive(Debug, Clone, Copy, PartialEq, Eq, Structural)]
pub struct PciHotPlug;

/// AGP 8x (0Eh), which this library does not look into.
#[derive(Debug, Clone, Copy, PartialEq, Eq, Structural)]
pub struct Agp8x;

/// Secure Device (0Fh), which this library does not look into.
#[derive(Debug, Clone, Copy, PartialEq, Eq, Structural)]
pub struct SecureDevice;

/// A capability whose registers do not fit into the bytes that follow its
/// header.
#[derive(Debug, Clone, Copy, PartialEq, Eq)]
pub struct CapabilityDataError {
    /// Name of the capability.
    pub name: &'static str,
    /// Number of bytes after the capability header that its registers take.
    pub size: usize,
}

/// Why the bytes of one capability could not be decoded. The capabilities
/// after it are not affected.
#[derive(Debug, Clone, Copy, PartialEq, Eq)]
pub enum CapabilityKindError {
    /// The registers of the capability take more bytes than there are.
    Data(CapabilityDataError),
    /// The bytes are not those of a PCI Express capability.
    PciExpress(PciExpressError),
    /// The bytes are not those of a HyperTransport capability.
    Hypertransport(HypertransportError),
    /// The bytes are not those of a Vendor Specific capability.
    VendorSpecific(VendorSpecificError),
    /// The bytes are not those of a Message Signaled Interrupts capability.
    MessageSignaledInterrups(MessageSignaledInterrupsError),
    /// The bytes are not those of the PCI-X capability of a device.
    PciX(PciXError),
    /// The bytes are not those of the PCI-X capability of a bridge.
    PciXBridge(PciXBridgeError),
    /// The bytes are not those of an Enhanced Allocation capability.
    EnhancedAllocation(EnhancedAllocationError),
}

/// Capability parsing error. Each holds the offset in configuration space
/// of the capability that it is about.
#[derive(Debug, Clone, Copy, PartialEq, Eq)]
#[allow(inconsistent_fields)]
pub enum CapabilityError {
    /// The offset points below the device dependent region, where no
    /// capability can be. The list ends here.
    Pointer { ptr: u8 },
    /// The buffer ends before the two bytes of the capability header do.
    /// The list ends here.
    Header { ptr: u8 },
    /// The offset points at a capability that the list already went
    /// through, so the list would never end. It ends here.
    Cycle { ptr: u8 },
    /// The registers of the capability take more bytes than there are.
    Data { ptr: u8, source: CapabilityDataError },
    /// The bytes are not those of a PCI Express capability.
    PciExpress { ptr: u8, source: PciExpressError },
    /// The bytes are not those of a HyperTransport capability.
    Hypertransport { ptr: u8, source: HypertransportError },
    /// The bytes are not those of a Vendor Specific capability.
    VendorSpecific { ptr: u8, source: VendorSpecificError },
    /// The bytes are not those of a Message Signaled Interrupts capability.
    MessageSignaledInterrups { ptr: u8, source: MessageSignaledInterrupsError },
    /// The bytes are not those of the PCI-X capability of a device.
    PciX { ptr: u8, source: PciXError },
    /// The bytes are not those of the PCI-X capability of a bridge.
    PciXBridge { ptr: u8, source: PciXBridgeError },
    /// The bytes are not those of an Enhanced Allocation capability.
    EnhancedAllocation { ptr: u8, source: EnhancedAllocationError },
}

impl CapabilityError {
    /// The offset in configuration space of the capability that the error
    /// is about.
    pub open spec fn spec_ptr(&self) -> u8 {
        match *self {
            CapabilityError::Pointer { ptr } => ptr,
            CapabilityError::Header { ptr } => ptr,
            CapabilityError::Cycle { ptr } => ptr,
            CapabilityError::Data { ptr, .. } => ptr,
            CapabilityError::PciExpress { ptr, .. } => ptr,
            CapabilityError::Hypertransport { ptr, .. } => ptr,
            CapabilityError::VendorSpecific { ptr, .. } => ptr,
            CapabilityError::MessageSignaledInterrups { ptr, .. } => ptr,
            CapabilityError::PciX { ptr, .. } => ptr,
            CapabilityError::PciXBridge { ptr, .. } => ptr,
            CapabilityError::EnhancedAllocation { ptr, .. } => ptr,
        }
    }

    /// The offset in configuration space of the capability that the error
    /// is about.
    #[verifier::when_used_as_spec(spec_ptr)]
    pub fn ptr(&self) -> (ptr: u8)
        ensures
            ptr == self.spec_ptr(),
    {
        match self {
            CapabilityError::Pointer { ptr } => *ptr,
            CapabilityError::Header { ptr } => *ptr,
            CapabilityError::Cycle { ptr } => *ptr,
            CapabilityError::Data { ptr, .. } => *ptr,
            CapabilityError::PciExpress { ptr, .. } => *ptr,
            CapabilityError::Hypertransport { ptr, .. } => *ptr,
            CapabilityError::VendorSpecific { ptr, .. } => *ptr,
            CapabilityError::MessageSignaledInterrups { ptr, .. } => *ptr,
            CapabilityError::PciX { ptr, .. } => *ptr,
            CapabilityError::PciXBridge { ptr, .. } => *ptr,
            CapabilityError::EnhancedAllocation { ptr, .. } => *ptr,
        }
    }

    /// Whether the error is about the list itself, which ends with it, and
    /// not about the bytes of one capability.
    pub open spec fn spec_ends_list(&self) -> bool {
        *self is Pointer || *self is Header || *self is Cycle
    }

    /// Whether the error is about the list itself, which ends with it, and
    /// not about the bytes of one capability.
    #[verifier::when_used_as_spec(spec_ends_list)]
    pub fn ends_list(&self) -> (ends: bool)
        ensures
            ends == self.spec_ends_list(),
    {
        matches!(
            self,
            CapabilityError::Pointer { .. } | CapabilityError::Header { .. }
                | CapabilityError::Cycle { .. }
        )
    }

    /// The error that says of the capability at offset `ptr` what `source`
    /// says of its bytes.
    pub open spec fn spec_at(ptr: u8, source: CapabilityKindError) -> CapabilityError {
        match source {
            CapabilityKindError::Data(source) => CapabilityError::Data { ptr, source },
            CapabilityKindError::PciExpress(source) => CapabilityError::PciExpress { ptr, source },
            CapabilityKindError::Hypertransport(source) => CapabilityError::Hypertransport {
                ptr,
                source,
            },
            CapabilityKindError::VendorSpecific(source) => CapabilityError::VendorSpecific {
                ptr,
                source,
            },
            CapabilityKindError::MessageSignaledInterrups(
                source,
            ) => CapabilityError::MessageSignaledInterrups { ptr, source },
            CapabilityKindError::PciX(source) => CapabilityError::PciX { ptr, source },
            CapabilityKindError::PciXBridge(source) => CapabilityError::PciXBridge { ptr, source },
            CapabilityKindError::EnhancedAllocation(
                source,
            ) => CapabilityError::EnhancedAllocation { ptr, source },
        }
    }

    /// The error that says of the capability at offset `ptr` what `source`
    /// says of its bytes.
    #[verifier::when_used_as_spec(spec_at)]
    pub fn at(ptr: u8, source: CapabilityKindError) -> (error: CapabilityError)
        ensures
            error == Self::spec_at(ptr, source),
    {
        match source {
            CapabilityKindError::Data(source) => CapabilityError::Data { ptr, source },
            CapabilityKindError::PciExpress(source) => CapabilityError::PciExpress { ptr, source },
            CapabilityKindError::Hypertransport(source) => CapabilityError::Hypertransport {
                ptr,
                source,
            },
            CapabilityKindError::VendorSpecific(source) => CapabilityError::VendorSpecific {
                ptr,
                source,
            },
            CapabilityKindError::MessageSignaledInterrups(
                source,
            ) => CapabilityError::MessageSignaledInterrups { ptr, source },
            CapabilityKindError::PciX(source) => CapabilityError::PciX { ptr, source },
            CapabilityKindError::PciXBridge(source) => CapabilityError::PciXBridge { ptr, source },
            CapabilityKindError::EnhancedAllocation(
                source,
            ) => CapabilityError::EnhancedAllocation { ptr, source },
        }
    }
}

/// A result with what it holds on success as its view.
pub open spec fn viewed<T: View, E>(result: Result<T, E>) -> Result<T::V, E> {
    match result {
        Ok(value) => Ok(value@),
        Err(error) => Err(error),
    }
}

/// Capability structure
#[derive(Debug, PartialEq, Eq)]
pub struct Capability<'a> {
    pub pointer: u8,
    pub kind: CapabilityKind<'a>,
}

impl<'a> Capability<'a> {
    /// Each capability in the capability list consists of an 8-bit ID field assigned by the PCI
    /// SIG, an 8 bit pointer in configuration space to the next capability.
    pub const HEADER_SIZE: usize = 2;
}

/// Capability ID assigned by the PCI-SIG
#[derive(Debug, PartialEq, Eq)]
pub enum CapabilityKind<'a> {
    /// Null Capability (00h)
    ///
    /// This capability contains no registers. It may be present in any Function. Functions may
    /// contain multiple instances of this capability.
    NullCapability,
    /// PCI Power Management Interface (01h)
    PowerManagementInterface(PowerManagementInterface),
    /// AGP (02h)
    AcceleratedGraphicsPort(AcceleratedGraphicsPort),
    /// VPD (03h)
    VitalProductData(VitalProductData),
    /// Slot Identification (04h)
    SlotIdentification(SlotIdentification),
    /// Message Signaled Interrupts (05h)
    MessageSignaledInterrups(MessageSignaledInterrups),
    /// CompactPCI Hot Swap (06h)
    CompactPciHotSwap(CompactPciHotSwap),
    /// PCI-X (07h) of a device
    PciX(PciX),
    /// PCI-X (07h) of a PCI-to-PCI bridge
    PciXBridge(PciXBridge),
    /// HyperTransport (08h)
    Hypertransport(Hypertransport),
    /// Vendor Specific (09h)
    VendorSpecific(VendorSpecific<'a>),
    /// Debug port (0Ah)
    DebugPort(DebugPort),
    /// CompactPCI central resource control (0Bh)
    CompactPciResourceControl(CompactPciResourceControl),
    /// PCI Hot-Plug (0Ch)
    PciHotPlug(PciHotPlug),
    /// PCI Bridge Subsystem Vendor ID (0Dh)
    BridgeSubsystemVendorId(BridgeSubsystemVendorId),
    /// AGP 8x (0Eh)
    Agp8x(Agp8x),
    /// Secure Device (0Fh)
    SecureDevice(SecureDevice),
    /// PCI Express (10h)
    PciExpress(PciExpress),
    /// MSI-X (11h)
    MsiX(MsiX),
    /// Serial ATA Data/Index Configuration (12h)
    Sata(Sata),
    /// Advanced Features (13h)
    AdvancedFeatures(AdvancedFeatures),
    /// Enhanced Allocation (14h)
    EnhancedAllocation(EnhancedAllocation<'a>),
    /// Flattening Portal Bridge (15h)
    FlatteningPortalBridge(FlatteningPortalBridge),
    /// A capability ID that is assigned to no capability this library knows
    /// of.
    Reserved(u8),
}

/// What a capability holds, with the bytes that it borrows from the buffer
/// as sequences.
pub enum CapabilityKindView {
    NullCapability,
    PowerManagementInterface(PowerManagementInterface),
    AcceleratedGraphicsPort(AcceleratedGraphicsPort),
    VitalProductData(VitalProductData),
    SlotIdentification(SlotIdentification),
    MessageSignaledInterrups(MessageSignaledInterrups),
    CompactPciHotSwap(CompactPciHotSwap),
    PciX(PciX),
    PciXBridge(PciXBridge),
    Hypertransport(Hypertransport),
    VendorSpecific(VendorSpecificView),
    DebugPort(DebugPort),
    CompactPciResourceControl(CompactPciResourceControl),
    PciHotPlug(PciHotPlug),
    BridgeSubsystemVendorId(BridgeSubsystemVendorId),
    Agp8x(Agp8x),
    SecureDevice(SecureDevice),
    PciExpress(PciExpress),
    MsiX(MsiX),
    Sata(Sata),
    AdvancedFeatures(AdvancedFeatures),
    EnhancedAllocation(EnhancedAllocationView),
    FlatteningPortalBridge(FlatteningPortalBridge),
    Reserved(u8),
}

impl<'a> View for CapabilityKind<'a> {
    type V = CapabilityKindView;

    open spec fn view(&self) -> CapabilityKindView {
        match *self {
            CapabilityKind::NullCapability => CapabilityKindView::NullCapability,
            CapabilityKind::PowerManagementInterface(registers) => CapabilityKindView::PowerManagementInterface(registers),
            CapabilityKind::AcceleratedGraphicsPort(registers) => CapabilityKindView::AcceleratedGraphicsPort(registers),
            CapabilityKind::VitalProductData(registers) => CapabilityKindView::VitalProductData(registers),
            CapabilityKind::SlotIdentification(registers) => CapabilityKindView::SlotIdentification(registers),
            CapabilityKind::MessageSignaledInterrups(registers) => CapabilityKindView::MessageSignaledInterrups(registers),
            CapabilityKind::CompactPciHotSwap(registers) => CapabilityKindView::CompactPciHotSwap(registers),
            CapabilityKind::PciX(registers) => CapabilityKindView::PciX(registers),
            CapabilityKind::PciXBridge(registers) => CapabilityKindView::PciXBridge(registers),
            CapabilityKind::Hypertransport(registers) => CapabilityKindView::Hypertransport(registers),
            CapabilityKind::VendorSpecific(capability) => CapabilityKindView::VendorSpecific(capability@),
            CapabilityKind::DebugPort(registers) => CapabilityKindView::DebugPort(registers),
            CapabilityKind::CompactPciResourceControl(registers) => CapabilityKindView::CompactPciResourceControl(registers),
            CapabilityKind::PciHotPlug(registers) => CapabilityKindView::PciHotPlug(registers),
            CapabilityKind::BridgeSubsystemVendorId(registers) => CapabilityKindView::BridgeSubsystemVendorId(registers),
            CapabilityKind::Agp8x(registers) => CapabilityKindView::Agp8x(registers),
            CapabilityKind::SecureDevice(registers) => CapabilityKindView::SecureDevice(registers),
            CapabilityKind::PciExpress(registers) => CapabilityKindView::PciExpress(registers),
            CapabilityKind::MsiX(registers) => CapabilityKindView::MsiX(registers),
            CapabilityKind::Sata(registers) => CapabilityKindView::Sata(registers),
            CapabilityKind::AdvancedFeatures(registers) => CapabilityKindView::AdvancedFeatures(registers),
            CapabilityKind::EnhancedAllocation(capability) => CapabilityKindView::EnhancedAllocation(capability@),
            CapabilityKind::FlatteningPortalBridge(registers) => CapabilityKindView::FlatteningPortalBridge(registers),
            CapabilityKind::Reserved(id) => CapabilityKindView::Reserved(id),
        }
    }
}

impl CapabilityKindView {
    /// Whether a capability ID is assigned to a capability that this library
    /// knows of.
    pub open spec fn is_recognized(id: u8) -> bool {
        id <= 0x15
    }

    /// What the capability with the given ID holds, whose bytes after the
    /// capability header are `payload`, in a function with the given header;
    /// or why its bytes cannot be decoded.
    ///
    /// A capability of a kind that this library does not look into takes none
    /// of the bytes and is always decoded, and so is one with an ID that is
    /// not recognized. The header decides between the two shapes of PCI-X,
    /// and the decoders of Vendor Specific and of Enhanced Allocation read it.
    pub open spec fn decode(id: u8, payload: Seq<u8>, header: Header) -> Result<
        CapabilityKindView,
        CapabilityKindError,
    > {
        match id {
            0x00 => Ok(CapabilityKindView::NullCapability),
            0x01 => match PowerManagementInterface::decode(payload) {
                Ok(registers) => Ok(CapabilityKindView::PowerManagementInterface(registers)),
                Err(error) => Err(CapabilityKindError::Data(error)),
            },
            0x02 => match AcceleratedGraphicsPort::decode(payload) {
                Ok(registers) => Ok(CapabilityKindView::AcceleratedGraphicsPort(registers)),
                Err(error) => Err(CapabilityKindError::Data(error)),
            },
            0x03 => match VitalProductData::decode(payload) {
                Ok(registers) => Ok(CapabilityKindView::VitalProductData(registers)),
                Err(error) => Err(CapabilityKindError::Data(error)),
            },
            0x04 => match SlotIdentification::decode(payload) {
                Ok(registers) => Ok(CapabilityKindView::SlotIdentification(registers)),
                Err(error) => Err(CapabilityKindError::Data(error)),
            },
            0x05 => match MessageSignaledInterrups::decode(payload) {
                Ok(registers) => Ok(CapabilityKindView::MessageSignaledInterrups(registers)),
                Err(error) => Err(CapabilityKindError::MessageSignaledInterrups(error)),
            },
            0x06 => Ok(CapabilityKindView::CompactPciHotSwap(CompactPciHotSwap)),
            0x07 => if header.header_type is Bridge {
                match PciXBridge::decode(payload) {
                    Ok(registers) => Ok(CapabilityKindView::PciXBridge(registers)),
                    Err(error) => Err(CapabilityKindError::PciXBridge(error)),
                }
            } else {
                match PciX::decode(payload) {
                    Ok(registers) => Ok(CapabilityKindView::PciX(registers)),
                    Err(error) => Err(CapabilityKindError::PciX(error)),
                }
            },
            0x08 => match Hypertransport::decode(payload) {
                Ok(registers) => Ok(CapabilityKindView::Hypertransport(registers)),
                Err(error) => Err(CapabilityKindError::Hypertransport(error)),
            },
            0x09 => match VendorSpecificView::decode(payload, header) {
                Ok(capability) => Ok(CapabilityKindView::VendorSpecific(capability)),
                Err(error) => Err(CapabilityKindError::VendorSpecific(error)),
            },
            0x0a => match DebugPort::decode(payload) {
                Ok(registers) => Ok(CapabilityKindView::DebugPort(registers)),
                Err(error) => Err(CapabilityKindError::Data(error)),
            },
            0x0b => Ok(CapabilityKindView::CompactPciResourceControl(CompactPciResourceControl)),
            0x0c => Ok(CapabilityKindView::PciHotPlug(PciHotPlug)),
            0x0d => match BridgeSubsystemVendorId::decode(payload) {
                Ok(registers) => Ok(CapabilityKindView::BridgeSubsystemVendorId(registers)),
                Err(error) => Err(CapabilityKindError::Data(error)),
            },
            0x0e => Ok(CapabilityKindView::Agp8x(Agp8x)),
            0x0f => Ok(CapabilityKindView::SecureDevice(SecureDevice)),
            0x10 => match PciExpress::decode(payload) {
                Ok(registers) => Ok(CapabilityKindView::PciExpress(registers)),
                Err(error) => Err(CapabilityKindError::PciExpress(error)),
            },
            0x11 => match MsiX::decode(payload) {
                Ok(registers) => Ok(CapabilityKindView::MsiX(registers)),
                Err(error) => Err(CapabilityKindError::Data(error)),
            },
            0x12 => match Sata::decode(payload) {
                Ok(registers) => Ok(CapabilityKindView::Sata(registers)),
                Err(error) => Err(CapabilityKindError::Data(error)),
            },
            0x13 => match AdvancedFeatures::decode(payload) {
                Ok(registers) => Ok(CapabilityKindView::AdvancedFeatures(registers)),
                Err(error) => Err(CapabilityKindError::Data(error)),
            },
            0x14 => match EnhancedAllocationView::decode(payload, header) {
                Ok(capability) => Ok(CapabilityKindView::EnhancedAllocation(capability)),
                Err(error) => Err(CapabilityKindError::EnhancedAllocation(error)),
            },
            0x15 => match FlatteningPortalBridge::decode(payload) {
                Ok(registers) => Ok(CapabilityKindView::FlatteningPortalBridge(registers)),
                Err(error) => Err(CapabilityKindError::Data(error)),
            },
            id => Ok(CapabilityKindView::Reserved(id)),
        }
    }
}

impl<'a> CapabilityKind<'a> {
    /// Decodes the capability with the given ID, whose bytes after the
    /// capability header are `payload`, in a function with the given header.
    pub fn decode(id: u8, payload: &'a [u8], header: &'a Header) -> (kind: Result<
        CapabilityKind<'a>,
        CapabilityKindError,
    >)
        ensures
            viewed(kind) == CapabilityKindView::decode(id, payload@, *header),
    {
        match id {
            0x00 => Ok(CapabilityKind::NullCapability),
            0x01 => match PowerManagementInterface::try_from(payload) {
                Ok(registers) => Ok(CapabilityKind::PowerManagementInterface(registers)),
                Err(error) => Err(CapabilityKindError::Data(error)),
            },
            0x02 => match AcceleratedGraphicsPort::try_from(payload) {
                Ok(registers) => Ok(CapabilityKind::AcceleratedGraphicsPort(registers)),
                Err(error) => Err(CapabilityKindError::Data(error)),
            },
            0x03 => match VitalProductData::try_from(payload) {
                Ok(registers) => Ok(CapabilityKind::VitalProductData(registers)),
                Err(error) => Err(CapabilityKindError::Data(error)),
            },
            0x04 => match SlotIdentification::try_from(payload) {
                Ok(registers) => Ok(CapabilityKind::SlotIdentification(registers)),
                Err(error) => Err(CapabilityKindError::Data(error)),
            },
            0x05 => match MessageSignaledInterrups::try_from(payload) {
                Ok(registers) => Ok(CapabilityKind::MessageSignaledInterrups(registers)),
                Err(error) => Err(CapabilityKindError::MessageSignaledInterrups(error)),
            },
            0x06 => Ok(CapabilityKind::CompactPciHotSwap(CompactPciHotSwap)),
            0x07 => {
                if matches!(header.header_type, HeaderType::Bridge) {
                    match PciXBridge::try_from(payload) {
                        Ok(registers) => Ok(CapabilityKind::PciXBridge(registers)),
                        Err(error) => Err(CapabilityKindError::PciXBridge(error)),
                    }
                } else {
                    match PciX::try_from(payload) {
                        Ok(registers) => Ok(CapabilityKind::PciX(registers)),
                        Err(error) => Err(CapabilityKindError::PciX(error)),
                    }
                }
            },
            0x08 => match Hypertransport::try_from(payload) {
                Ok(registers) => Ok(CapabilityKind::Hypertransport(registers)),
                Err(error) => Err(CapabilityKindError::Hypertransport(error)),
            },
            0x09 => match VendorSpecific::try_new(payload, header) {
                Ok(capability) => Ok(CapabilityKind::VendorSpecific(capability)),
                Err(error) => Err(CapabilityKindError::VendorSpecific(error)),
            },
            0x0a => match DebugPort::try_from(payload) {
                Ok(registers) => Ok(CapabilityKind::DebugPort(registers)),
                Err(error) => Err(CapabilityKindError::Data(error)),
            },
            0x0b => Ok(CapabilityKind::CompactPciResourceControl(CompactPciResourceControl)),
            0x0c => Ok(CapabilityKind::PciHotPlug(PciHotPlug)),
            0x0d => match BridgeSubsystemVendorId::try_from(payload) {
                Ok(registers) => Ok(CapabilityKind::BridgeSubsystemVendorId(registers)),
                Err(error) => Err(CapabilityKindError::Data(error)),
            },
            0x0e => Ok(CapabilityKind::Agp8x(Agp8x)),
            0x0f => Ok(CapabilityKind::SecureDevice(SecureDevice)),
            0x10 => match PciExpress::try_from(payload) {
                Ok(registers) => Ok(CapabilityKind::PciExpress(registers)),
                Err(error) => Err(CapabilityKindError::PciExpress(error)),
            },
            0x11 => match MsiX::try_from(payload) {
                Ok(registers) => Ok(CapabilityKind::MsiX(registers)),
                Err(error) => Err(CapabilityKindError::Data(error)),
            },
            0x12 => match Sata::try_from(payload) {
                Ok(registers) => Ok(CapabilityKind::Sata(registers)),
                Err(error) => Err(CapabilityKindError::Data(error)),
            },
            0x13 => match AdvancedFeatures::try_from(payload) {
                Ok(registers) => Ok(CapabilityKind::AdvancedFeatures(registers)),
                Err(error) => Err(CapabilityKindError::Data(error)),
            },
            0x14 => match EnhancedAllocation::try_new(payload, header) {
                Ok(capability) => Ok(CapabilityKind::EnhancedAllocation(capability)),
                Err(error) => Err(CapabilityKindError::EnhancedAllocation(error)),
            },
            0x15 => match FlatteningPortalBridge::try_from(payload) {
                Ok(registers) => Ok(CapabilityKind::FlatteningPortalBridge(registers)),
                Err(error) => Err(CapabilityKindError::Data(error)),
            },
            v => Ok(CapabilityKind::Reserved(v)),
        }
    }
}

/// A capability with the bytes that it borrows from the buffer as sequences.
pub struct CapabilityView {
    /// Offset of the capability in configuration space.
    pub pointer: u8,
    /// What the capability holds.
    pub kind: CapabilityKindView,
}

impl<'a> View for Capability<'a> {
    type V = CapabilityView;

    open spec fn view(&self) -> CapabilityView {
        CapabilityView { pointer: self.pointer, kind: self.kind@ }
    }
}

/// What reading one capability gives: the capability, or why there is none
/// to give.
pub type CapabilityResult<'a> = Result<Capability<'a>, CapabilityError>;

/// What reading one capability gives, with the bytes that the capability
/// borrows from the buffer as sequences.
pub type CapabilityResultView = Result<CapabilityView, CapabilityError>;

/// The items of a list, with the bytes that they borrow from the buffer as
/// sequences.
pub open spec fn views<'a>(items: Seq<CapabilityResult<'a>>) -> Seq<CapabilityResultView> {
    items.map_values(|item: CapabilityResult<'a>| viewed(item))
}

impl CapabilityView {
    /// The capability at offset `ptr` of configuration space, where `data`
    /// holds the device dependent region of a function with the given
    /// header; or why there is none to give.
    pub open spec fn parse(data: Seq<u8>, ptr: u8, header: Header) -> CapabilityResultView {
        match RawRecordView::locate(data, DDR_OFFSET, ptr) {
            Err(error) => Err(error),
            Ok(record) => match CapabilityKindView::decode(record.id, record.payload, header) {
                Ok(kind) => Ok(CapabilityView { pointer: ptr, kind }),
                Err(source) => Err(CapabilityError::at(ptr, source)),
            },
        }
    }

    /// The offset at which the list goes on after the capability at offset
    /// `ptr`: the one that the capability header names, whether or not the
    /// bytes after the header can be decoded; and zero, which ends the
    /// list, where no capability header can be read at `ptr`.
    pub open spec fn successor(data: Seq<u8>, ptr: u8) -> u8 {
        match RawRecordView::locate(data, DDR_OFFSET, ptr) {
            Err(_) => 0,
            Ok(record) => record.next,
        }
    }

    /// The offsets of the device dependent region that are not in `visited`.
    pub open spec fn unvisited(visited: Set<u8>) -> Set<int> {
        Set::new(|ptr: int| DDR_OFFSET <= ptr < ECS_OFFSET && !visited.contains(ptr as u8))
    }

    /// The list of capabilities that starts at offset `ptr`, for a reader
    /// that has already been at the offsets in `visited`.
    ///
    /// The list is empty where `ptr` is zero. An offset that the reader
    /// has been at before ends the list with an error, and so does one at
    /// which no capability header can be read. Every other offset gives
    /// one item, the capability or what is wrong with its bytes, and the
    /// list goes on where the capability header says.
    pub open spec fn list(data: Seq<u8>, header: Header, ptr: u8, visited: Set<u8>) -> Seq<
        CapabilityResultView,
    >
        decreases Self::unvisited(visited).len(),
        via Self::list_decreases
    {
        if ptr == 0 {
            Seq::empty()
        } else if visited.contains(ptr) {
            seq![Err(CapabilityError::Cycle { ptr })]
        } else if RawRecordView::locate(data, DDR_OFFSET, ptr) is Err {
            seq![Self::parse(data, ptr, header)]
        } else {
            seq![Self::parse(data, ptr, header)] + Self::list(
                data,
                header,
                Self::successor(data, ptr),
                visited.insert(ptr),
            )
        }
    }

    #[via_fn]
    proof fn list_decreases(data: Seq<u8>, header: Header, ptr: u8, visited: Set<u8>) {
        if ptr != 0 && !visited.contains(ptr) && RawRecordView::locate(data, DDR_OFFSET, ptr) is Ok {
            Self::lemma_visit(ptr, visited);
        }
    }

    /// There are finitely many offsets left to visit, and one less after a
    /// visit to one of them.
    pub proof fn lemma_visit(ptr: u8, visited: Set<u8>)
        requires
            DDR_OFFSET <= ptr,
            !visited.contains(ptr),
        ensures
            Self::unvisited(visited).finite(),
            Self::unvisited(visited).len() <= ECS_OFFSET - DDR_OFFSET,
            Self::unvisited(visited.insert(ptr)).len() + 1 == Self::unvisited(visited).len(),
    {
        let region = set_int_range(DDR_OFFSET as int, ECS_OFFSET as int);
        lemma_int_range(DDR_OFFSET as int, ECS_OFFSET as int);
        lemma_len_subset(Self::unvisited(visited), region);
        assert(Self::unvisited(visited.insert(ptr)) =~= Self::unvisited(visited).remove(
            ptr as int,
        ));
    }
}

impl CapabilityView {
    /// The list of capabilities of a function with the given header, where
    /// `data` holds its device dependent region: what a reader of the list
    /// gives from its creation to its end.
    pub open spec fn all(data: Seq<u8>, header: Header) -> Seq<CapabilityResultView> {
        Self::list(data, header, header.capabilities_pointer, Set::empty())
    }

    /// Whether the two bytes of a capability header at offset `ptr` are in
    /// the buffer.
    pub open spec fn in_buffer(data: Seq<u8>, ptr: u8) -> bool {
        DDR_OFFSET <= ptr && ptr - DDR_OFFSET + Capability::HEADER_SIZE <= data.len()
    }

    /// A function whose capabilities pointer is zero has no capabilities,
    /// whatever the buffer holds.
    pub proof fn lemma_null_pointer_gives_nothing(data: Seq<u8>, header: Header)
        requires
            header.capabilities_pointer == 0,
        ensures
            Self::all(data, header) == Seq::<CapabilityResultView>::empty(),
    {
    }

    /// A capabilities pointer below the device dependent region gives one
    /// item, the error that says so, and nothing after it.
    pub proof fn lemma_pointer_below_region_gives_one_error(data: Seq<u8>, header: Header)
        requires
            0 < header.capabilities_pointer < DDR_OFFSET,
        ensures
            Self::all(data, header) == seq![
                Err::<CapabilityView, _>(
                    CapabilityError::Pointer { ptr: header.capabilities_pointer },
                ),
            ],
    {
    }

    /// A capabilities pointer with less than the two bytes of a capability
    /// header between it and the end of the buffer gives one item, the error
    /// that says so, and nothing after it.
    pub proof fn lemma_cut_header_gives_one_error(data: Seq<u8>, header: Header)
        requires
            DDR_OFFSET <= header.capabilities_pointer,
            !Self::in_buffer(data, header.capabilities_pointer),
        ensures
            Self::all(data, header) == seq![
                Err::<CapabilityView, _>(
                    CapabilityError::Header { ptr: header.capabilities_pointer },
                ),
            ],
    {
    }

    /// A capability whose header is in the buffer gives one item, and the
    /// list goes on at the offset that its header names, whether or not the
    /// bytes after the header can be decoded: what is wrong with the bytes
    /// of one capability does not end the list.
    pub proof fn lemma_list_goes_on_after_capability(
        data: Seq<u8>,
        header: Header,
        ptr: u8,
        visited: Set<u8>,
    )
        requires
            Self::in_buffer(data, ptr),
            !visited.contains(ptr),
        ensures
            Self::list(data, header, ptr, visited) == seq![Self::parse(data, ptr, header)]
                + Self::list(data, header, data[ptr - DDR_OFFSET + 1], visited.insert(ptr)),
            Self::parse(data, ptr, header) matches Err(error) ==> !error.ends_list()
                && error.ptr() == ptr,
            Self::parse(data, ptr, header) matches Ok(capability) ==> capability.pointer == ptr,
    {
    }

    /// A capability with an ID that is not recognized is decoded, whatever
    /// bytes follow its header, to the reserved kind that holds the ID.
    pub proof fn lemma_unrecognized_id_is_reserved(id: u8, payload: Seq<u8>, header: Header)
        requires
            !CapabilityKindView::is_recognized(id),
        ensures
            CapabilityKindView::decode(id, payload, header) == Ok::<_, CapabilityKindError>(
                CapabilityKindView::Reserved(id),
            ),
    {
    }

    /// After a capability with an ID that is not recognized the list goes on
    /// at the offset that the header of that capability names.
    pub proof fn lemma_list_goes_on_after_unrecognized_id(
        data: Seq<u8>,
        header: Header,
        ptr: u8,
        visited: Set<u8>,
    )
        requires
            Self::in_buffer(data, ptr),
            !visited.contains(ptr),
            !CapabilityKindView::is_recognized(data[ptr - DDR_OFFSET]),
        ensures
            Self::list(data, header, ptr, visited) == seq![
                Ok::<_, CapabilityError>(
                    CapabilityView {
                        pointer: ptr,
                        kind: CapabilityKindView::Reserved(data[ptr - DDR_OFFSET]),
                    },
                ),
            ] + Self::list(data, header, data[ptr - DDR_OFFSET + 1], visited.insert(ptr)),
    {
    }

    /// The bytes after a PCI-X capability header are decoded as those of a
    /// bridge where the header of the function is that of a PCI-to-PCI
    /// bridge, and as those of a device where it is any other.
    pub proof fn lemma_header_type_picks_pci_x_shape(payload: Seq<u8>, header: Header)
        ensures
            header.header_type is Bridge ==> CapabilityKindView::decode(0x07, payload, header)
                == match PciXBridge::decode(payload) {
                Ok(registers) => Ok::<_, CapabilityKindError>(
                    CapabilityKindView::PciXBridge(registers),
                ),
                Err(error) => Err(CapabilityKindError::PciXBridge(error)),
            },
            !(header.header_type is Bridge) ==> CapabilityKindView::decode(0x07, payload, header)
                == match PciX::decode(payload) {
                Ok(registers) => Ok::<_, CapabilityKindError>(CapabilityKindView::PciX(registers)),
                Err(error) => Err(CapabilityKindError::PciX(error)),
            },
    {
    }

    /// Bytes that hold the registers of a PCI-X capability in either shape
    /// give the shape of a bridge in a bridge and the shape of a device in
    /// any other function.
    pub proof fn lemma_same_bytes_two_pci_x_shapes(payload: Seq<u8>, bridge: Header, other: Header)
        requires
            bridge.header_type is Bridge,
            !(other.header_type is Bridge),
            PciXBridge::decode(payload) is Ok,
            PciX::decode(payload) is Ok,
        ensures
            CapabilityKindView::decode(0x07, payload, bridge) matches Ok(kind)
                && kind is PciXBridge,
            CapabilityKindView::decode(0x07, payload, other) matches Ok(kind) && kind is PciX,
    {
    }

    /// The list depends on nothing but the bytes of the buffer, the header,
    /// the offset to read at and the offsets visited: reading the same
    /// buffer with the same header twice gives the same items.
    pub proof fn lemma_same_input_same_list(
        data: Seq<u8>,
        header: Header,
        again: Seq<u8>,
        header_again: Header,
    )
        requires
            data =~= again,
            header == header_again,
        ensures
            Self::all(data, header) == Self::all(again, header_again),
    {
    }

    /// The list is finite, with at most one item for each offset of the
    /// device dependent region that was not visited and one error at its
    /// end. Every capability in it has its header in the buffer, at an
    /// offset that was not visited, and an error that ends the list stands
    /// nowhere but at its end.
    pub proof fn lemma_list_is_bounded(data: Seq<u8>, header: Header, ptr: u8, visited: Set<u8>)
        ensures
            Self::list(data, header, ptr, visited).len() <= Self::unvisited(visited).len() + 1,
            Self::unvisited(visited).len() <= ECS_OFFSET - DDR_OFFSET,
            forall|i: int|
                0 <= i < Self::list(data, header, ptr, visited).len() ==> match #[trigger] Self::list(
                    data,
                    header,
                    ptr,
                    visited,
                )[i] {
                    Ok(capability) => Self::in_buffer(data, capability.pointer)
                        && !visited.contains(capability.pointer),
                    Err(error) => error.ends_list() ==> i + 1 == Self::list(
                        data,
                        header,
                        ptr,
                        visited,
                    ).len(),
                },
        decreases Self::unvisited(visited).len(),
    {
        let region = set_int_range(DDR_OFFSET as int, ECS_OFFSET as int);
        lemma_int_range(DDR_OFFSET as int, ECS_OFFSET as int);
        lemma_len_subset(Self::unvisited(visited), region);
        if ptr != 0 && !visited.contains(ptr) && RawRecordView::locate(data, DDR_OFFSET, ptr) is Ok {
            let next = Self::successor(data, ptr);
            let rest = Self::list(data, header, next, visited.insert(ptr));
            Self::lemma_visit(ptr, visited);
            Self::lemma_list_is_bounded(data, header, next, visited.insert(ptr));
            assert forall|i: int|
                0 <= i < Self::list(data, header, ptr, visited).len() implies match #[trigger] Self::list(
                data,
                header,
                ptr,
                visited,
            )[i] {
                Ok(capability) => Self::in_buffer(data, capability.pointer) && !visited.contains(
                    capability.pointer,
                ),
                Err(error) => error.ends_list() ==> i + 1 == Self::list(
                    data,
                    header,
                    ptr,
                    visited,
                ).len(),
            } by {
                if i > 0 {
                    assert(Self::list(data, header, ptr, visited)[i] == rest[i - 1]);
                }
            }
        }
    }

    /// The list of the capabilities of a function has at most one item for
    /// each offset of the device dependent region and one error at its end,
    /// whatever the buffer holds and wherever the capabilities pointer
    /// points.
    pub proof fn lemma_all_is_bounded(data: Seq<u8>, header: Header)
        ensures
            Self::all(data, header).len() <= ECS_OFFSET - DDR_OFFSET + 1,
    {
        Self::lemma_list_is_bounded(data, header, header.capabilities_pointer, Set::empty());
    }
}

/// Reads the capability at offset `*pointer` of configuration space, where
/// `bytes` holds the device dependent region of a function with the given
/// header, and moves `*pointer` to where the list goes on: to the next
/// capability that the capability header names, before the bytes after the
/// header are looked at, or to zero where no header can be read.
pub fn parse_cap<'a>(bytes: &'a [u8], pointer: &mut u8, header: &'a Header) -> (capability:
    CapabilityResult<'a>)
    ensures
        viewed(capability) == CapabilityView::parse(bytes@, *old(pointer), *header),
        *final(pointer) == CapabilityView::successor(bytes@, *old(pointer)),
{
    let ptr = *pointer;
    // Capability data resides in Device dependent region (starts from 0x40)
    let record = match RawRecord::read(bytes, DDR_OFFSET, ptr) {
        Ok(record) => record,
        Err(error) => {
            *pointer = 0;
            return Err(error);
        },
    };
    *pointer = record.next;
    match CapabilityKind::decode(record.id, record.payload, header) {
        Ok(kind) => Ok(Capability { pointer: ptr, kind }),
        Err(source) => Err(CapabilityError::at(ptr, source)),
    }
}

/// A reader of the *Capabilities List*
///
/// The capabilities pointer of the header points to a linked list of capabilities
/// implemented by this device. The list lies in the device dependent region, whose
/// bytes the reader borrows, and the reader gives its items one by one. It remembers
/// the offsets that it has been at, so that it comes to an end on every buffer.
#[derive(Debug, Clone, Copy, PartialEq, Eq)]
pub struct Capabilities<'a> {
    data: &'a [u8],
    header: &'a Header,
    pointer: u8,
    visited: [bool; 256],
}

impl<'a> Capabilities<'a> {
    /// The bytes of the device dependent region.
    pub closed spec fn data(&self) -> Seq<u8> {
        self.data@
    }

    /// The header of the function.
    pub closed spec fn header(&self) -> Header {
        *self.header
    }

    /// The offset of the capability to read next, or zero at the end of the
    /// list.
    pub closed spec fn pointer(&self) -> u8 {
        self.pointer
    }

    /// The offsets that the reader has been at.
    pub closed spec fn visited(&self) -> Set<u8> {
        Set::new(|ptr: u8| self.visited@[ptr as int])
    }

    /// The items that the reader has yet to give, in order.
    pub open spec fn remaining(&self) -> Seq<CapabilityResultView> {
        CapabilityView::list(self.data(), self.header(), self.pointer(), self.visited())
    }

    /// The capabilities of a function with the given header, read from the
    /// bytes of its device dependent region.
    pub fn new(data: &'a [u8], header: &'a Header) -> (capabilities: Self)
        ensures
            capabilities.data() == data@,
            capabilities.header() == *header,
            capabilities.pointer() == header.capabilities_pointer,
            capabilities.visited() == Set::<u8>::empty(),
            capabilities.remaining() == CapabilityView::all(data@, *header),
    {
        let capabilities = Self {
            data,
            header,
            pointer: header.capabilities_pointer,
            visited: [false;256],
        };
        assert(capabilities.visited() =~= Set::<u8>::empty());
        capabilities
    }

    /// Gives the next item of the list, or `None` at its end, where it
    /// stays.
    pub fn next(&mut self) -> (item: Option<CapabilityResult<'a>>)
        ensures
            final(self).data() == old(self).data(),
            final(self).header() == old(self).header(),
            match item {
                None => old(self).remaining().len() == 0 && *final(self) == *old(self),
                Some(item) => {
                    &&& old(self).remaining().len() > 0
                    &&& viewed(item) == old(self).remaining().first()
                    &&& final(self).remaining() == old(self).remaining().drop_first()
                },
            },
            old(self).pointer() == 0 <==> item is None,
            old(self).pointer() != 0 ==> final(self).pointer() == if old(self).visited().contains(
                old(self).pointer(),
            ) {
                0
            } else {
                CapabilityView::successor(old(self).data(), old(self).pointer())
            },
            old(self).pointer() != 0 ==> final(self).visited() == old(self).visited().insert(
                old(self).pointer(),
            ),
    {
        // Stop iterating if next pointer is null
        if self.pointer == 0 {
            return None;
        }
        let ptr = self.pointer;
        if self.visited[ptr as usize] {
            self.pointer = 0;
            return Some(Err(CapabilityError::Cycle { ptr }));
        }
        self.visited[ptr as usize] = true;
        assert(self.visited() =~= old(self).visited().insert(ptr));
        let item = parse_cap(self.data, &mut self.pointer, self.header);
        Some(item)
    }

    /// Gives all the items that the reader has yet to give.
    pub fn collect(self) -> (items: Vec<CapabilityResult<'a>>)
        ensures
            views(items@) == self.remaining(),
    {
        let mut capabilities = self;
        let mut items: Vec<CapabilityResult<'a>> = Vec::new();
        loop
            invariant
                views(items@) + capabilities.remaining() == self.remaining(),
            ensures
                capabilities.remaining().len() == 0,
            decreases capabilities.remaining().len(),
        {
            let ghost before = views(items@);
            let ghost rest = capabilities.remaining();
            match capabilities.next() {
                Some(item) => {
                    items.push(item);
                    assert(views(items@) =~= before.push(rest.first()));
                    assert(before.push(rest.first()) + rest.drop_first() =~= before + rest);
                },
                None => {
                    break ;
                },
            }
        }
        items
    }
}

} // verus!

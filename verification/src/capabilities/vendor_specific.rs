//! Vendor Specific
//!
//! The byte after the capability header tells how long the capability is.
//! What follows is for the vendor to define, so how it is framed depends on
//! who made the device: the header of the function tells.

use super::viewed;
use crate::header::Header;
use vstd::prelude::*;
use vstd::slice::slice_subrange;

verus! {

/// How the vendor frames the bytes of its capability.
#[derive(Debug, Clone, Copy, PartialEq, Eq, Structural)]
pub enum Framing {
    /// No framing that this library knows of.
    Unspecified,
    /// The capability of a virtio device, which starts with sixteen bytes
    /// that locate a structure of the device in one of its memory or I/O
    /// regions.
    Virtio,
}

/// The bytes of a Vendor Specific capability.
#[derive(Debug, Clone, Copy, PartialEq, Eq)]
pub struct VendorSpecific<'a> {
    /// Length of the capability in bytes, which counts the capability
    /// header and the length byte itself.
    pub length: u8,
    /// How the vendor frames the bytes.
    pub framing: Framing,
    /// The bytes after the length byte.
    pub data: &'a [u8],
}

/// A Vendor Specific capability with its bytes as a sequence.
pub struct VendorSpecificView {
    /// Length of the capability in bytes.
    pub length: u8,
    /// How the vendor frames the bytes.
    pub framing: Framing,
    /// The bytes after the length byte.
    pub data: Seq<u8>,
}

impl<'a> View for VendorSpecific<'a> {
    type V = VendorSpecificView;

    open spec fn view(&self) -> VendorSpecificView {
        VendorSpecificView { length: self.length, framing: self.framing, data: self.data@ }
    }
}

/// What is wrong with the bytes of a Vendor Specific capability.
#[derive(Debug, Clone, Copy, PartialEq, Eq, Structural)]
pub enum VendorSpecificError {
    /// There is no length byte.
    LengthUnreadable,
    /// The length byte holds `value`, which is less than what the
    /// capability header and the length byte take, or less than what the
    /// framing of the vendor takes.
    Length { value: u8 },
    /// The capability is `size` bytes long, and the buffer ends before it
    /// does.
    Data { size: usize },
}

impl Framing {
    /// Vendor ID of virtio devices.
    pub const VIRTIO_VENDOR_ID: u16 = 0x1af4;

    /// The framing that the vendor of the function uses: that of virtio
    /// for the device IDs 0x1000 to 0x107f of the virtio vendor.
    pub open spec fn spec_of(header: Header) -> Framing {
        if header.vendor_id == Self::VIRTIO_VENDOR_ID && 0x1000 <= header.device_id <= 0x107f {
            Framing::Virtio
        } else {
            Framing::Unspecified
        }
    }

    /// The framing that the vendor of the function uses.
    pub fn of(header: &Header) -> (framing: Framing)
        ensures
            framing == Self::spec_of(*header),
    {
        if header.vendor_id == Self::VIRTIO_VENDOR_ID && 0x1000 <= header.device_id
            && header.device_id <= 0x107f {
            Framing::Virtio
        } else {
            Framing::Unspecified
        }
    }

    /// The least length that a capability with this framing has: the
    /// capability header and the length byte, and for virtio the sixteen
    /// bytes that every virtio capability starts with.
    pub open spec fn spec_min_length(self) -> u8 {
        match self {
            Framing::Unspecified => 3,
            Framing::Virtio => 16,
        }
    }

    /// The least length that a capability with this framing has.
    #[verifier::when_used_as_spec(spec_min_length)]
    pub fn min_length(self) -> (length: u8)
        ensures
            length == self.spec_min_length(),
    {
        match self {
            Framing::Unspecified => 3,
            Framing::Virtio => 16,
        }
    }
}

impl VendorSpecificView {
    /// Whether the capability is as long as it says, and no shorter than
    /// its framing lets it be.
    pub open spec fn wf(self) -> bool {
        &&& self.length >= self.framing.min_length()
        &&& self.data.len() == self.length - 3
    }

    /// The capability that the bytes after the capability header hold in a
    /// function with the given header, or what is wrong with the bytes.
    pub open spec fn decode(payload: Seq<u8>, header: Header) -> Result<
        VendorSpecificView,
        VendorSpecificError,
    > {
        let length = payload[0];
        let framing = Framing::spec_of(header);
        if payload.len() == 0 {
            Err(VendorSpecificError::LengthUnreadable)
        } else if length < framing.min_length() {
            Err(VendorSpecificError::Length { value: length })
        } else if payload.len() < length - 2 {
            Err(VendorSpecificError::Data { size: length as usize })
        } else {
            Ok(VendorSpecificView { length, framing, data: payload.subrange(1, length - 2) })
        }
    }
}

impl<'a> VendorSpecific<'a> {
    /// Reads the capability from the bytes after the capability header, as
    /// the vendor that the header names frames it.
    pub fn try_new(slice: &'a [u8], header: &'a Header) -> (capability: Result<
        Self,
        VendorSpecificError,
    >)
        ensures
            viewed(capability) == VendorSpecificView::decode(slice@, *header),
            capability matches Ok(capability) ==> capability@.wf(),
    {
        if slice.len() == 0 {
            return Err(VendorSpecificError::LengthUnreadable);
        }
        let length = slice[0];
        let framing = Framing::of(header);
        if length < framing.min_length() {
            return Err(VendorSpecificError::Length { value: length });
        }
        let end: usize = length as usize - 2;
        if slice.len() < end {
            return Err(VendorSpecificError::Data { size: length as usize });
        }
        Ok(VendorSpecific { length, framing, data: slice_subrange(slice, 1, end) })
    }
}

} // verus!

//! Message Signaled Interrupts

use crate::bytes::{dword, qword, read_dword, read_qword, read_word, word};
use vstd::prelude::*;
use vstd::std_specs::convert::TryFromSpecImpl;

verus! {

/// Address that the function writes its message to.
#[derive(Debug, Clone, Copy, PartialEq, Eq, Structural)]
pub enum MessageAddress {
    /// Address of a function that takes 32-bit message addresses.
    Dword(u32),
    /// Address of a function that takes 64-bit message addresses.
    Qword(u64),
}

/// Registers of the Message Signaled Interrupts capability. Message Control
/// tells which of them the function has.
#[derive(Debug, Clone, Copy, PartialEq, Eq)]
pub struct MessageSignaledInterrups {
    /// Message Control register.
    pub message_control: u16,
    /// Message Address register, with Message Upper Address where the
    /// function has it.
    pub message_address: MessageAddress,
    /// Message Data register.
    pub message_data: u16,
    /// Extended Message Data register.
    pub extended_message_data: u16,
    /// Mask Bits register of a function with per-vector masking.
    pub mask_bits: Option<u32>,
    /// Pending Bits register of a function with per-vector masking.
    pub pending_bits: Option<u32>,
}

/// What is wrong with the bytes of a Message Signaled Interrupts capability.
#[derive(Debug, Clone, Copy, PartialEq, Eq, Structural)]
pub enum MessageSignaledInterrupsError {
    /// The Message Control register is not all there.
    MessageControl,
    /// The registers that Message Control announces take `size` bytes after
    /// the capability header, and there are fewer.
    Registers { size: usize },
}

impl MessageSignaledInterrups {
    /// Whether Message Control announces a 64-bit message address.
    pub open spec fn spec_is_64_bit(message_control: u16) -> bool {
        message_control & 0x0080 != 0
    }

    /// Whether Message Control announces a 64-bit message address.
    #[verifier::when_used_as_spec(spec_is_64_bit)]
    pub fn is_64_bit(message_control: u16) -> (wide: bool)
        ensures
            wide == Self::spec_is_64_bit(message_control),
    {
        message_control & 0x0080 != 0
    }

    /// Whether Message Control announces per-vector masking.
    pub open spec fn spec_is_maskable(message_control: u16) -> bool {
        message_control & 0x0100 != 0
    }

    /// Whether Message Control announces per-vector masking.
    #[verifier::when_used_as_spec(spec_is_maskable)]
    pub fn is_maskable(message_control: u16) -> (maskable: bool)
        ensures
            maskable == Self::spec_is_maskable(message_control),
    {
        message_control & 0x0100 != 0
    }

    /// Where the Message Data register starts after the capability header.
    pub open spec fn data_offset(message_control: u16) -> int {
        if Self::is_64_bit(message_control) {
            10
        } else {
            6
        }
    }

    /// Number of bytes after the capability header that the registers take.
    pub open spec fn size(message_control: u16) -> int {
        Self::data_offset(message_control) + if Self::is_maskable(message_control) {
            12int
        } else {
            4int
        }
    }

    /// The registers that the bytes after the capability header hold, or
    /// what is wrong with the bytes.
    pub open spec fn decode(payload: Seq<u8>) -> Result<Self, MessageSignaledInterrupsError> {
        let control = word(payload, 0);
        let at = Self::data_offset(control);
        if payload.len() < 2 {
            Err(MessageSignaledInterrupsError::MessageControl)
        } else if payload.len() < Self::size(control) {
            Err(MessageSignaledInterrupsError::Registers { size: Self::size(control) as usize })
        } else {
            Ok(
                MessageSignaledInterrups {
                    message_control: control,
                    message_address: if Self::is_64_bit(control) {
                        MessageAddress::Qword(qword(payload, 2))
                    } else {
                        MessageAddress::Dword(dword(payload, 2))
                    },
                    message_data: word(payload, at),
                    extended_message_data: word(payload, at + 2),
                    mask_bits: if Self::is_maskable(control) {
                        Some(dword(payload, at + 4))
                    } else {
                        None
                    },
                    pending_bits: if Self::is_maskable(control) {
                        Some(dword(payload, at + 8))
                    } else {
                        None
                    },
                },
            )
        }
    }
}

impl<'a> TryFrom<&'a [u8]> for MessageSignaledInterrups {
    type Error = MessageSignaledInterrupsError;

    fn try_from(slice: &'a [u8]) -> (registers: Result<Self, Self::Error>) {
        if slice.len() < 2 {
            return Err(MessageSignaledInterrupsError::MessageControl);
        }
        let message_control = read_word(slice, 0);
        let wide = Self::is_64_bit(message_control);
        let maskable = Self::is_maskable(message_control);
        let at: usize = if wide {
            10
        } else {
            6
        };
        let size: usize = if maskable {
            at + 12
        } else {
            at + 4
        };
        if slice.len() < size {
            return Err(MessageSignaledInterrupsError::Registers { size });
        }
        let message_address = if wide {
            MessageAddress::Qword(read_qword(slice, 2))
        } else {
            MessageAddress::Dword(read_dword(slice, 2))
        };
        let (mask_bits, pending_bits) = if maskable {
            (Some(read_dword(slice, at + 4)), Some(read_dword(slice, at + 8)))
        } else {
            (None, None)
        };
        Ok(
            MessageSignaledInterrups {
                message_control,
                message_address,
                message_data: read_word(slice, at),
                extended_message_data: read_word(slice, at + 2),
                mask_bits,
                pending_bits,
            },
        )
    }
}

impl<'a> TryFromSpecImpl<&'a [u8]> for MessageSignaledInterrups {
    open spec fn obeys_try_from_spec() -> bool {
        true
    }

    open spec fn try_from_spec(slice: &'a [u8]) -> Result<Self, Self::Error> {
        Self::decode(slice@)
    }
}

} // verus!

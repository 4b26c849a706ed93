//! Finding a capability in the buffer.
//!
//! A capability starts with two bytes, its identifier and the offset of the
//! capability after it. How many of the bytes behind them are its own is for
//! the decoder of its kind to say: what is found here is the header and all
//! that the buffer holds after it.

use super::{viewed, Capability, CapabilityError};
use vstd::prelude::*;
use vstd::slice::slice_subrange;

verus! {

/// A capability as it lies in the buffer.
#[derive(Debug, Clone, Copy, PartialEq, Eq)]
pub struct RawRecord<'a> {
    /// Capability ID.
    pub id: u8,
    /// Offset of the next capability in configuration space, or zero if
    /// this is the last one.
    pub next: u8,
    /// The bytes of the buffer after the two of the header, up to its end.
    pub payload: &'a [u8],
}

/// A capability as it lies in the buffer, with its bytes as a sequence.
pub struct RawRecordView {
    /// Capability ID.
    pub id: u8,
    /// Offset of the next capability in configuration space, or zero.
    pub next: u8,
    /// The bytes of the buffer after the two of the header, up to its end.
    pub payload: Seq<u8>,
}

impl<'a> View for RawRecord<'a> {
    type V = RawRecordView;

    open spec fn view(&self) -> RawRecordView {
        RawRecordView { id: self.id, next: self.next, payload: self.payload@ }
    }
}

impl RawRecordView {
    /// The capability at offset `ptr` of configuration space, in a buffer
    /// whose first byte is the one at offset `base`. An offset below `base`
    /// points at nothing in the buffer, and one with less than two bytes
    /// from it to the end of the buffer at no whole capability header.
    pub open spec fn locate(data: Seq<u8>, base: usize, ptr: u8) -> Result<
        RawRecordView,
        CapabilityError,
    > {
        let at = ptr - base;
        if ptr < base {
            Err(CapabilityError::Pointer { ptr })
        } else if data.len() < at + Capability::HEADER_SIZE {
            Err(CapabilityError::Header { ptr })
        } else {
            Ok(
                RawRecordView {
                    id: data[at],
                    next: data[at + 1],
                    payload: data.subrange(at + Capability::HEADER_SIZE, data.len() as int),
                },
            )
        }
    }
}

impl<'a> RawRecord<'a> {
    /// Finds the capability at offset `ptr` of configuration space, in a
    /// buffer whose first byte is the one at offset `base`.
    pub fn read(data: &'a [u8], base: usize, ptr: u8) -> (record: Result<Self, CapabilityError>)
        ensures
            viewed(record) == RawRecordView::locate(data@, base, ptr),
    {
        if (ptr as usize) < base {
            return Err(CapabilityError::Pointer { ptr });
        }
        let at: usize = ptr as usize - base;
        if data.len() < Capability::HEADER_SIZE || data.len() - Capability::HEADER_SIZE < at {
            return Err(CapabilityError::Header { ptr });
        }
        Ok(
            RawRecord {
                id: data[at],
                next: data[at + 1],
                payload: slice_subrange(data, at + Capability::HEADER_SIZE, data.len()),
            },
        )
    }
}

} // verus!

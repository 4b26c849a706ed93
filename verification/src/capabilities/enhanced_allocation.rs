//! Enhanced Allocation
//!
//! The capability holds a number of entries, each of which says in its first
//! byte how long it is. The entries of a PCI-to-PCI bridge start after one
//! more register than those of other functions, so where they start depends
//! on the header of the function.

use super::viewed;
use crate::header::{Header, HeaderType};
use vstd::prelude::*;
use vstd::slice::slice_subrange;

verus! {

/// The bus numbers that a bridge with Enhanced Allocation has fixed.
#[derive(Debug, Clone, Copy, PartialEq, Eq, Structural)]
pub struct BusNumbers {
    /// Fixed Secondary Bus Number.
    pub secondary: u8,
    /// Fixed Subordinate Bus Number.
    pub subordinate: u8,
}

/// The Enhanced Allocation capability.
#[derive(Debug, Clone, Copy, PartialEq, Eq)]
pub struct EnhancedAllocation<'a> {
    /// Number of entries.
    pub num_entries: u8,
    /// Fixed bus numbers, which only a bridge has.
    pub bus_numbers: Option<BusNumbers>,
    /// The bytes of the entries, one entry after the other.
    pub entries: &'a [u8],
}

/// An Enhanced Allocation capability with the bytes of its entries as a
/// sequence.
pub struct EnhancedAllocationView {
    /// Number of entries.
    pub num_entries: u8,
    /// Fixed bus numbers, which only a bridge has.
    pub bus_numbers: Option<BusNumbers>,
    /// The bytes of the entries, one entry after the other.
    pub entries: Seq<u8>,
}

impl<'a> View for EnhancedAllocation<'a> {
    type V = EnhancedAllocationView;

    open spec fn view(&self) -> EnhancedAllocationView {
        EnhancedAllocationView {
            num_entries: self.num_entries,
            bus_numbers: self.bus_numbers,
            entries: self.entries@,
        }
    }
}

/// What is wrong with the bytes of an Enhanced Allocation capability.
#[derive(Debug, Clone, Copy, PartialEq, Eq, Structural)]
pub enum EnhancedAllocationError {
    /// The register that holds the number of entries is not all there.
    NumEntries,
    /// The function is a bridge, and the register that holds its fixed bus
    /// numbers is not all there.
    BusNumbers,
    /// The entry with this number, counted from zero, is the first that the
    /// buffer ends before.
    Entry { number: u8 },
}

impl EnhancedAllocationView {
    /// Where the entries start after the capability header: after the two
    /// bytes that are left of the first register, and in a bridge after the
    /// four bytes of the register with the bus numbers too.
    pub open spec fn entries_start(header: Header) -> int {
        if header.header_type is Bridge {
            6
        } else {
            2
        }
    }

    /// Length in bytes of the entry that starts at `at`. The low three bits
    /// of its first byte count the 32-bit registers that follow its first
    /// one.
    pub open spec fn entry_size(payload: Seq<u8>, at: int) -> int
        recommends
            0 <= at < payload.len(),
    {
        4 * (payload[at] % 8 + 1)
    }

    /// Whether the entry that starts at `at` is all in the buffer.
    pub open spec fn entry_fits(payload: Seq<u8>, at: int) -> bool {
        at + 4 <= payload.len() && at + Self::entry_size(payload, at) <= payload.len()
    }

    /// Where `count` entries end of which the first starts at `at`, or, if
    /// the buffer ends before they do, how many of them are all in it.
    pub open spec fn entries_end(payload: Seq<u8>, at: int, count: nat) -> Result<int, nat>
        decreases count,
    {
        if count == 0 {
            Ok(at)
        } else if !Self::entry_fits(payload, at) {
            Err(0)
        } else {
            match Self::entries_end(
                payload,
                at + Self::entry_size(payload, at),
                (count - 1) as nat,
            ) {
                Ok(end) => Ok(end),
                Err(whole) => Err(whole + 1),
            }
        }
    }

    /// Whether the capability holds as many whole entries as it counts, and
    /// no byte after them.
    pub open spec fn wf(self) -> bool {
        &&& self.num_entries < 64
        &&& Self::entries_end(self.entries, 0, self.num_entries as nat) == Ok::<int, nat>(
            self.entries.len() as int,
        )
    }

    /// The capability that the bytes after the capability header hold in a
    /// function with the given header, or what is wrong with the bytes.
    pub open spec fn decode(payload: Seq<u8>, header: Header) -> Result<
        EnhancedAllocationView,
        EnhancedAllocationError,
    > {
        let num_entries = payload[0] % 64;
        let start = Self::entries_start(header);
        if payload.len() < 2 {
            Err(EnhancedAllocationError::NumEntries)
        } else if payload.len() < start {
            Err(EnhancedAllocationError::BusNumbers)
        } else {
            match Self::entries_end(payload, start, num_entries as nat) {
                Err(whole) => Err(EnhancedAllocationError::Entry { number: whole as u8 }),
                Ok(end) => Ok(
                    EnhancedAllocationView {
                        num_entries,
                        bus_numbers: if header.header_type is Bridge {
                            Some(BusNumbers { secondary: payload[2], subordinate: payload[3] })
                        } else {
                            None
                        },
                        entries: payload.subrange(start, end),
                    },
                ),
            }
        }
    }

    /// Entries end no earlier than they start, and the bytes from the start
    /// of some entries to their end hold the same entries.
    pub proof fn lemma_entries_alone(payload: Seq<u8>, start: int, at: int, count: nat, end: int)
        requires
            0 <= start <= at <= payload.len(),
            Self::entries_end(payload, at, count) == Ok::<int, nat>(end),
        ensures
            at <= end <= payload.len(),
            Self::entries_end(payload.subrange(start, end), at - start, count) == Ok::<int, nat>(
                end - start,
            ),
        decreases count,
    {
        if count > 0 {
            let next = at + Self::entry_size(payload, at);
            Self::lemma_entries_alone(payload, start, next, (count - 1) as nat, end);
            assert(payload.subrange(start, end)[at - start] == payload[at]);
        }
    }

    /// What is decoded holds as many whole entries as it counts, and a
    /// bridge alone has bus numbers.
    pub proof fn lemma_decoded_is_wf(payload: Seq<u8>, header: Header)
        ensures
            Self::decode(payload, header) matches Ok(capability) ==> capability.wf() && (
            capability.bus_numbers is Some <==> header.header_type is Bridge),
    {
        if let Ok(capability) = Self::decode(payload, header) {
            let start = Self::entries_start(header);
            let end = Self::entries_end(payload, start, capability.num_entries as nat)->Ok_0;
            Self::lemma_entries_alone(payload, start, start, capability.num_entries as nat, end);
        }
    }
}

/// Adds `before` to the count of whole entries in the result of a search
/// that left `before` entries behind it.
spec fn after(before: nat, found: Result<int, nat>) -> Result<int, nat> {
    match found {
        Ok(end) => Ok(end),
        Err(whole) => Err(whole + before),
    }
}

impl<'a> EnhancedAllocation<'a> {
    /// Reads the capability from the bytes after the capability header of a
    /// function with the given header.
    pub fn try_new(slice: &'a [u8], header: &'a Header) -> (capability: Result<
        Self,
        EnhancedAllocationError,
    >)
        ensures
            viewed(capability) == EnhancedAllocationView::decode(slice@, *header),
            capability matches Ok(capability) ==> capability@.wf(),
    {
        proof {
            EnhancedAllocationView::lemma_decoded_is_wf(slice@, *header);
        }
        if slice.len() < 2 {
            return Err(EnhancedAllocationError::NumEntries);
        }
        let num_entries: u8 = slice[0] % 64;
        let bridge = matches!(header.header_type, HeaderType::Bridge);
        let start: usize = if bridge {
            6
        } else {
            2
        };
        if slice.len() < start {
            return Err(EnhancedAllocationError::BusNumbers);
        }
        let bus_numbers = if bridge {
            Some(BusNumbers { secondary: slice[2], subordinate: slice[3] })
        } else {
            None
        };
        let mut at: usize = start;
        let mut number: u8 = 0;
        while number < num_entries
            invariant
                number <= num_entries == slice@[0] % 64,
                2 <= start == EnhancedAllocationView::entries_start(*header),
                start <= at <= slice.len(),
                EnhancedAllocationView::entries_end(slice@, start as int, num_entries as nat)
                    == after(
                    number as nat,
                    EnhancedAllocationView::entries_end(
                        slice@,
                        at as int,
                        (num_entries - number) as nat,
                    ),
                ),
            decreases num_entries - number,
        {
            if slice.len() - at < 4 {
                return Err(EnhancedAllocationError::Entry { number });
            }
            let size: usize = 4 * (slice[at] as usize % 8 + 1);
            if slice.len() - at < size {
                return Err(EnhancedAllocationError::Entry { number });
            }
            at = at + size;
            number = number + 1;
        }
        Ok(EnhancedAllocation { num_entries, bus_numbers, entries: slice_subrange(slice, start, at) })
    }
}

} // verus!

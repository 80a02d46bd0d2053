//! Encoding of an interrupt descriptor.
//!
//! The processor reads an entry of the interrupt table as 16 bytes of fixed
//! layout, without padding:
//!
//! | offset | bytes | field                              |
//! |--------|-------|------------------------------------|
//! | 0      | 2     | handler address, bits 0 to 15      |
//! | 2      | 2     | code segment selector              |
//! | 4      | 1     | reserved, zero                     |
//! | 5      | 1     | attributes                         |
//! | 6      | 2     | handler address, bits 16 to 31     |
//! | 8      | 4     | handler address, bits 32 to 63     |
//! | 12     | 4     | reserved, zero                     |
//!
//! Read as one little-endian number, the 16 bytes are the raw value of the
//! entry. This layer encodes and does not judge: whether the selector names a
//! code segment, or the attributes make a usable entry, is for the caller to
//! know.

use core::cmp::Ordering;
use vstd::prelude::*;
use vstd::std_specs::cmp::PartialOrdSpecImpl;

verus! {

/// Bits of a raw value that belong to no field and stay zero.
pub const RESERVED_BITS: u128 = (0xFF << 32) | (0xFFFF_FFFF << 96);

/// An entry of the interrupt table. Its view is its raw value: the 128 bits
/// that the processor reads. Entries are equal exactly if their raw values
/// are, and are ordered as their raw values are, read as numbers.
///
/// The two reserved regions are not stored: they are zero in the raw value
/// and in the bytes of every entry.
#[derive(Clone, Copy, Debug, PartialEq, Eq, Structural)]
pub struct IdtEntry {
    isr_low: u16,
    kernel_cs: u16,
    attributes: u8,
    isr_mid: u16,
    isr_high: u32,
}

/// The raw value of the entry for the handler at `handler`, entered through
/// the code segment `selector`, with the attribute byte `attributes`.
pub open spec fn spec_encode(handler: u64, selector: u16, attributes: u8) -> u128 {
    ((handler & 0xFFFF) as u128) | ((selector as u128) << 16) | ((attributes as u128) << 40) | ((((
    handler >> 16) & 0xFFFF) as u128) << 48) | (((handler >> 32) as u128) << 64)
}

/// Bits 0 to 15 of the handler address in a raw value.
pub open spec fn spec_isr_low(raw: u128) -> u16 {
    (raw & 0xFFFF) as u16
}

/// Bits 16 to 31 of the handler address in a raw value.
pub open spec fn spec_isr_mid(raw: u128) -> u16 {
    ((raw >> 48) & 0xFFFF) as u16
}

/// Bits 32 to 63 of the handler address in a raw value.
pub open spec fn spec_isr_high(raw: u128) -> u32 {
    ((raw >> 64) & 0xFFFF_FFFF) as u32
}

/// The handler address in a raw value, put together from its three parts.
pub open spec fn spec_handler(raw: u128) -> u64 {
    (spec_isr_low(raw) as u64) | ((spec_isr_mid(raw) as u64) << 16) | ((spec_isr_high(raw) as u64)
        << 32)
}

/// The code segment selector in a raw value.
pub open spec fn spec_selector(raw: u128) -> u16 {
    ((raw >> 16) & 0xFFFF) as u16
}

/// The attribute byte in a raw value.
pub open spec fn spec_attributes(raw: u128) -> u8 {
    ((raw >> 40) & 0xFF) as u8
}

/// The 16 bytes of a raw value in memory order, the least significant first.
pub open spec fn spec_bytes(raw: u128) -> Seq<u8> {
    seq![
        (raw & 0xFF) as u8,
        ((raw >> 8) & 0xFF) as u8,
        ((raw >> 16) & 0xFF) as u8,
        ((raw >> 24) & 0xFF) as u8,
        ((raw >> 32) & 0xFF) as u8,
        ((raw >> 40) & 0xFF) as u8,
        ((raw >> 48) & 0xFF) as u8,
        ((raw >> 56) & 0xFF) as u8,
        ((raw >> 64) & 0xFF) as u8,
        ((raw >> 72) & 0xFF) as u8,
        ((raw >> 80) & 0xFF) as u8,
        ((raw >> 88) & 0xFF) as u8,
        ((raw >> 96) & 0xFF) as u8,
        ((raw >> 104) & 0xFF) as u8,
        ((raw >> 112) & 0xFF) as u8,
        ((raw >> 120) & 0xFF) as u8,
    ]
}

impl View for IdtEntry {
    type V = u128;

    closed spec fn view(&self) -> u128 {
        (self.isr_low as u128) | ((self.kernel_cs as u128) << 16) | ((self.attributes as u128)
            << 40) | ((self.isr_mid as u128) << 48) | ((self.isr_high as u128) << 64)
    }
}

impl IdtEntry {
    /// The entry in which every bit is zero.
    pub fn new() -> (entry: Self)
        ensures
            entry@ == 0,
            entry@ == spec_encode(0, 0, 0),
    {
        let entry = Self { isr_low: 0, kernel_cs: 0, attributes: 0, isr_mid: 0, isr_high: 0 };
        assert(entry@ == 0 && entry@ == spec_encode(0, 0, 0)) by {
            assert((0u16 as u128) | ((0u16 as u128) << 16) | ((0u8 as u128) << 40) | ((0u16 as u128)
                << 48) | ((0u32 as u128) << 64) == 0) by (bit_vector);
            assert(spec_encode(0, 0, 0) == 0) by (bit_vector);
        }
        entry
    }

    /// Hands the entry back unchanged: `isr_routine` is not stored. The
    /// handler of an entry is set by [`build_interrupt_entry`] alone, which
    /// takes all fields at once, so that no half-built entry is ever seen.
    #[allow(unused_variables)]
    pub fn isr(self, isr_routine: u32) -> (entry: Self)
        ensures
            entry == self,
    {
        self
    }

    /// The raw value of the entry, as the processor reads it.
    pub fn raw(&self) -> (raw: u128)
        ensures
            raw == self@,
            raw & RESERVED_BITS == 0,
    {
        proof {
            self.lemma_fields();
        }
        (self.isr_low as u128) | ((self.kernel_cs as u128) << 16) | ((self.attributes as u128)
            << 40) | ((self.isr_mid as u128) << 48) | ((self.isr_high as u128) << 64)
    }

    /// The address of the handler.
    pub fn handler_address(&self) -> (handler: u64)
        ensures
            handler == spec_handler(self@),
    {
        proof {
            self.lemma_fields();
        }
        (self.isr_low as u64) | ((self.isr_mid as u64) << 16) | ((self.isr_high as u64) << 32)
    }

    /// The code segment selector.
    pub fn selector(&self) -> (selector: u16)
        ensures
            selector == spec_selector(self@),
    {
        proof {
            self.lemma_fields();
        }
        self.kernel_cs
    }

    /// The attribute byte.
    pub fn attributes(&self) -> (attributes: u8)
        ensures
            attributes == spec_attributes(self@),
    {
        proof {
            self.lemma_fields();
        }
        self.attributes
    }

    /// The entry as the 16 bytes that are written to the table.
    pub fn to_bytes(&self) -> (bytes: [u8; 16])
        ensures
            bytes@ == spec_bytes(self@),
    {
        let low = self.isr_low;
        let cs = self.kernel_cs;
        let attributes = self.attributes;
        let mid = self.isr_mid;
        let high = self.isr_high;
        let bytes: [u8; 16] = [
            (low & 0xFF) as u8,
            (low >> 8) as u8,
            (cs & 0xFF) as u8,
            (cs >> 8) as u8,
            0,
            attributes,
            (mid & 0xFF) as u8,
            (mid >> 8) as u8,
            (high & 0xFF) as u8,
            ((high >> 8) & 0xFF) as u8,
            ((high >> 16) & 0xFF) as u8,
            (high >> 24) as u8,
            0,
            0,
            0,
            0,
        ];
        proof {
            let raw = (low as u128) | ((cs as u128) << 16) | ((attributes as u128) << 40) | ((
            mid as u128) << 48) | ((high as u128) << 64);
            assert(raw == self@);
            assert({
                &&& (raw & 0xFF) as u8 == (low & 0xFF) as u8
                &&& ((raw >> 8) & 0xFF) as u8 == (low >> 8) as u8
                &&& ((raw >> 16) & 0xFF) as u8 == (cs & 0xFF) as u8
                &&& ((raw >> 24) & 0xFF) as u8 == (cs >> 8) as u8
                &&& ((raw >> 32) & 0xFF) as u8 == 0
                &&& ((raw >> 40) & 0xFF) as u8 == attributes
                &&& ((raw >> 48) & 0xFF) as u8 == (mid & 0xFF) as u8
                &&& ((raw >> 56) & 0xFF) as u8 == (mid >> 8) as u8
                &&& ((raw >> 64) & 0xFF) as u8 == (high & 0xFF) as u8
                &&& ((raw >> 72) & 0xFF) as u8 == ((high >> 8) & 0xFF) as u8
                &&& ((raw >> 80) & 0xFF) as u8 == ((high >> 16) & 0xFF) as u8
                &&& ((raw >> 88) & 0xFF) as u8 == (high >> 24) as u8
                &&& ((raw >> 96) & 0xFF) as u8 == 0
                &&& ((raw >> 104) & 0xFF) as u8 == 0
                &&& ((raw >> 112) & 0xFF) as u8 == 0
                &&& ((raw >> 120) & 0xFF) as u8 == 0
            }) by (bit_vector)
                requires
                    raw == (low as u128) | ((cs as u128) << 16) | ((attributes as u128) << 40) | ((
                    mid as u128) << 48) | ((high as u128) << 64),
            ;
            assert(bytes@ =~= spec_bytes(self@));
        }
        bytes
    }

    /// An entry is the encoding of the handler, selector and attributes that
    /// are read back from it: its reserved bits are zero, and its raw value
    /// says all there is to say about it.
    pub proof fn lemma_is_encoding(self)
        ensures
            self@ == spec_encode(spec_handler(self@), spec_selector(self@), spec_attributes(self@)),
            self@ & RESERVED_BITS == 0,
    {
        self.lemma_fields();
    }

    /// Each stored field is the part of the raw value that stands at its
    /// place.
    proof fn lemma_fields(self)
        ensures
            self@ == spec_encode(spec_handler(self@), spec_selector(self@), spec_attributes(self@)),
            self@ & RESERVED_BITS == 0,
            spec_isr_low(self@) == self.isr_low,
            spec_isr_mid(self@) == self.isr_mid,
            spec_isr_high(self@) == self.isr_high,
            spec_selector(self@) == self.kernel_cs,
            spec_attributes(self@) == self.attributes,
    {
        let low = self.isr_low;
        let cs = self.kernel_cs;
        let attributes = self.attributes;
        let mid = self.isr_mid;
        let high = self.isr_high;
        let raw = self@;
        assert({
            &&& (raw & 0xFFFF) as u16 == low
            &&& ((raw >> 48) & 0xFFFF) as u16 == mid
            &&& ((raw >> 64) & 0xFFFF_FFFF) as u32 == high
            &&& ((raw >> 16) & 0xFFFF) as u16 == cs
            &&& ((raw >> 40) & 0xFF) as u8 == attributes
            &&& raw & RESERVED_BITS == 0
        }) by (bit_vector)
            requires
                raw == (low as u128) | ((cs as u128) << 16) | ((attributes as u128) << 40) | ((
                mid as u128) << 48) | ((high as u128) << 64),
        ;
        let handler = (low as u64) | ((mid as u64) << 16) | ((high as u64) << 32);
        assert(spec_handler(raw) == handler);
        assert({
            &&& (handler & 0xFFFF) as u128 == low as u128
            &&& ((handler >> 16) & 0xFFFF) as u128 == mid as u128
            &&& (handler >> 32) as u128 == high as u128
        }) by (bit_vector)
            requires
                handler == (low as u64) | ((mid as u64) << 16) | ((high as u64) << 32),
        ;
    }

    /// Entries with the same raw value are the same entry.
    pub proof fn lemma_equal_by_bits(self, other: IdtEntry)
        ensures
            (self == other) <==> (self@ == other@),
    {
        self.lemma_fields();
        other.lemma_fields();
    }
}

impl PartialOrd for IdtEntry {
    fn partial_cmp(&self, other: &Self) -> (order: Option<Ordering>) {
        let own = self.raw();
        let others = other.raw();
        if own < others {
            Some(Ordering::Less)
        } else if own == others {
            Some(Ordering::Equal)
        } else {
            Some(Ordering::Greater)
        }
    }
}

impl PartialOrdSpecImpl for IdtEntry {
    open spec fn obeys_partial_cmp_spec() -> bool {
        true
    }

    /// Entries compare as their raw values do.
    open spec fn partial_cmp_spec(&self, other: &Self) -> Option<Ordering> {
        if self@ < other@ {
            Some(Ordering::Less)
        } else if self@ == other@ {
            Some(Ordering::Equal)
        } else {
            Some(Ordering::Greater)
        }
    }
}

/// Encodes an entry from all its fields at once: `handler_address` is split
/// into its low 16, middle 16 and high 32 bits, the selector and the
/// attribute byte are stored as given, and the reserved bits are zero.
pub fn build_interrupt_entry(
    handler_address: u64,
    code_segment_selector: u16,
    attribute_byte: u8,
) -> (entry: IdtEntry)
    ensures
        entry@ == spec_encode(handler_address, code_segment_selector, attribute_byte),
        spec_handler(entry@) == handler_address,
        spec_selector(entry@) == code_segment_selector,
        spec_attributes(entry@) == attribute_byte,
        entry@ & RESERVED_BITS == 0,
{
    proof {
        lemma_encode_round_trip(handler_address, code_segment_selector, attribute_byte);
    }
    let entry = IdtEntry {
        isr_low: (handler_address & 0xFFFF) as u16,
        kernel_cs: code_segment_selector,
        attributes: attribute_byte,
        isr_mid: ((handler_address >> 16) & 0xFFFF) as u16,
        isr_high: (handler_address >> 32) as u32,
    };
    proof {
        let low = entry.isr_low;
        let mid = entry.isr_mid;
        let high = entry.isr_high;
        assert({
            &&& low as u128 == (handler_address & 0xFFFF) as u128
            &&& mid as u128 == ((handler_address >> 16) & 0xFFFF) as u128
            &&& high as u128 == (handler_address >> 32) as u128
        }) by (bit_vector)
            requires
                low == (handler_address & 0xFFFF) as u16,
                mid == ((handler_address >> 16) & 0xFFFF) as u16,
                high == (handler_address >> 32) as u32,
        ;
    }
    entry
}

/// What was encoded is read back: the three parts of the handler address in
/// the raw value of an entry put the address together again, bit for bit, and
/// the selector and the attributes come back as they went in. No reserved
/// bit is set.
pub proof fn lemma_encode_round_trip(handler: u64, selector: u16, attributes: u8)
    ensures
        spec_handler(spec_encode(handler, selector, attributes)) == handler,
        spec_isr_low(spec_encode(handler, selector, attributes)) == handler & 0xFFFF,
        spec_isr_mid(spec_encode(handler, selector, attributes)) == (handler >> 16) & 0xFFFF,
        spec_isr_high(spec_encode(handler, selector, attributes)) == handler >> 32,
        spec_selector(spec_encode(handler, selector, attributes)) == selector,
        spec_attributes(spec_encode(handler, selector, attributes)) == attributes,
        spec_encode(handler, selector, attributes) & RESERVED_BITS == 0,
{
    assert({
        let raw = spec_encode(handler, selector, attributes);
        &&& spec_handler(raw) == handler
        &&& spec_isr_low(raw) == handler & 0xFFFF
        &&& spec_isr_mid(raw) == (handler >> 16) & 0xFFFF
        &&& spec_isr_high(raw) == handler >> 32
        &&& spec_selector(raw) == selector
        &&& spec_attributes(raw) == attributes
        &&& raw & RESERVED_BITS == 0
    }) by (bit_vector);
}

} // verus!

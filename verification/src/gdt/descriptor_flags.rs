//! Flags of a segment descriptor.
//!
//! A segment descriptor is a 64-bit word in which every bit has a meaning
//! that the processor fixes:
//!
//! | bits   | field                 |
//! |--------|-----------------------|
//! | 63..56 | base, bits 24 to 31   |
//! | 55     | granularity           |
//! | 54     | default operand size  |
//! | 53     | long mode             |
//! | 52     | available             |
//! | 51..48 | limit, bits 16 to 19  |
//! | 47     | present               |
//! | 46..45 | privilege level       |
//! | 44     | user segment          |
//! | 43     | executable            |
//! | 42     | conforming            |
//! | 41     | writable              |
//! | 40     | accessed              |
//! | 39..16 | base, bits 0 to 23    |
//! | 15..0  | limit, bits 0 to 15   |
//!
//! A flag set is such a word. Flag sets are values: a new one is made by
//! uniting others, never by changing one in place.

use core::cmp::Ordering;
use vstd::prelude::*;
use vstd::std_specs::cmp::PartialOrdSpecImpl;

verus! {

/// A set of descriptor flags. Its view is the 64-bit word that the processor
/// reads. Flag sets are equal exactly if their words are, and are ordered as
/// their words are, read as numbers.
#[derive(PartialEq, Eq, Structural, Ord, Hash, Debug, Clone, Copy)]
pub struct DescriptorFlags {
    bits: u64,
}

impl View for DescriptorFlags {
    type V = u64;

    closed spec fn view(&self) -> u64 {
        self.bits
    }
}

impl PartialOrd for DescriptorFlags {
    fn partial_cmp(&self, other: &Self) -> (order: Option<Ordering>) {
        if self.bits < other.bits {
            Some(Ordering::Less)
        } else if self.bits == other.bits {
            Some(Ordering::Equal)
        } else {
            Some(Ordering::Greater)
        }
    }
}

impl PartialOrdSpecImpl for DescriptorFlags {
    open spec fn obeys_partial_cmp_spec() -> bool {
        true
    }

    /// Flag sets compare as their words do.
    open spec fn partial_cmp_spec(&self, other: &Self) -> Option<Ordering> {
        if self@ < other@ {
            Some(Ordering::Less)
        } else if self@ == other@ {
            Some(Ordering::Equal)
        } else {
            Some(Ordering::Greater)
        }
    }
}

/// The union of the words of `parts`: a bit is set if some part sets it.
pub open spec fn spec_union_of(parts: Seq<u64>) -> u64
    decreases parts.len(),
{
    if parts.len() == 0 {
        0
    } else {
        spec_union_of(parts.drop_last()) | parts.last()
    }
}

/// The flag word composed of `parts`: their union, cut down to the bits that
/// belong to a named field.
pub open spec fn spec_compose(parts: Seq<u64>) -> u64 {
    spec_union_of(parts) & DescriptorFlags::ALL
}

/// The named bits and bit ranges, each once.
pub open spec fn spec_named_bits() -> Seq<u64> {
    seq![
        DescriptorFlags::ACCESSED,
        DescriptorFlags::WRITABLE,
        DescriptorFlags::CONFORMING,
        DescriptorFlags::EXECUTABLE,
        DescriptorFlags::USER_SEGMENT,
        DescriptorFlags::DPL_RING_3,
        DescriptorFlags::PRESENT,
        DescriptorFlags::AVAILABLE,
        DescriptorFlags::LONG_MODE,
        DescriptorFlags::DEFAULT_SIZE,
        DescriptorFlags::GRANULARITY,
        DescriptorFlags::LIMIT_0_15,
        DescriptorFlags::LIMIT_16_19,
        DescriptorFlags::BASE_0_23,
        DescriptorFlags::BASE_24_31,
    ]
}

impl DescriptorFlags {
    /// Set by the processor when the segment is accessed.
    pub const ACCESSED: u64 = 1 << 40;

    /// Data segments: writable. Code segments: readable.
    pub const WRITABLE: u64 = 1 << 41;

    /// Code segments: conforming. Data segments: expand down.
    pub const CONFORMING: u64 = 1 << 42;

    /// Set for code segments, clear for data segments.
    pub const EXECUTABLE: u64 = 1 << 43;

    /// Set for code and data segments, clear for system segments.
    pub const USER_SEGMENT: u64 = 1 << 44;

    /// The two bits of the privilege level, both set: ring 3.
    pub const DPL_RING_3: u64 = 3 << 45;

    /// Must be set for any segment that is used.
    pub const PRESENT: u64 = 1 << 47;

    /// Free for the operating system.
    pub const AVAILABLE: u64 = 1 << 52;

    /// Set for 64-bit code segments, clear otherwise.
    pub const LONG_MODE: u64 = 1 << 53;

    /// 32-bit operands by default. Clear where `LONG_MODE` is set.
    pub const DEFAULT_SIZE: u64 = 1 << 54;

    /// The limit counts units of 4096 bytes.
    pub const GRANULARITY: u64 = 1 << 55;

    /// Bits 0 to 15 of the limit.
    pub const LIMIT_0_15: u64 = 0xFFFF;

    /// Bits 16 to 19 of the limit.
    pub const LIMIT_16_19: u64 = 0xF << 48;

    /// Bits 0 to 23 of the base.
    pub const BASE_0_23: u64 = 0xFF_FFFF << 16;

    /// Bits 24 to 31 of the base.
    pub const BASE_24_31: u64 = 0xFF << 56;

    /// Every bit that belongs to a named field.
    pub const ALL: u64 = Self::ACCESSED | Self::WRITABLE | Self::CONFORMING | Self::EXECUTABLE
        | Self::USER_SEGMENT | Self::DPL_RING_3 | Self::PRESENT | Self::AVAILABLE
        | Self::LONG_MODE | Self::DEFAULT_SIZE | Self::GRANULARITY | Self::LIMIT_0_15
        | Self::LIMIT_16_19 | Self::BASE_0_23 | Self::BASE_24_31;

    /// What all the kernel's segments share: a present, writable, accessed
    /// code or data segment that spans the address space in 4096-byte units.
    pub const COMMON: u64 = Self::USER_SEGMENT | Self::PRESENT | Self::WRITABLE | Self::ACCESSED
        | Self::LIMIT_0_15 | Self::LIMIT_16_19 | Self::GRANULARITY;

    /// A kernel data segment, 64-bit or flat 32-bit.
    pub const KERNEL_DATA: u64 = Self::COMMON | Self::DEFAULT_SIZE;

    /// A flat 32-bit kernel code segment.
    pub const KERNEL_CODE32: u64 = Self::COMMON | Self::EXECUTABLE | Self::DEFAULT_SIZE;

    /// A 64-bit kernel code segment.
    pub const KERNEL_CODE64: u64 = Self::COMMON | Self::EXECUTABLE | Self::LONG_MODE;

    /// A user data segment, 64-bit or flat 32-bit.
    pub const USER_DATA: u64 = Self::KERNEL_DATA | Self::DPL_RING_3;

    /// A flat 32-bit user code segment.
    pub const USER_CODE32: u64 = Self::KERNEL_CODE32 | Self::DPL_RING_3;

    /// A 64-bit user code segment.
    pub const USER_CODE64: u64 = Self::KERNEL_CODE64 | Self::DPL_RING_3;

    /// The set without any flag.
    pub fn empty() -> (flags: Self)
        ensures
            flags@ == 0,
    {
        Self { bits: 0 }
    }

    /// The set of all flags.
    pub fn all() -> (flags: Self)
        ensures
            flags@ == Self::ALL,
    {
        Self { bits: Self::ALL }
    }

    /// The word of the set. No bit outside the named fields is set in it.
    pub fn bits(&self) -> (bits: u64)
        ensures
            bits == self@,
            bits & !Self::ALL == 0,
    {
        proof {
            lemma_all_bits_named(self.bits);
        }
        self.bits
    }

    /// The set that `bits` holds. A bit outside every named field is dropped
    /// without complaint, as the processor ignores it.
    pub fn from_bits_truncate(bits: u64) -> (flags: Self)
        ensures
            flags@ == bits & Self::ALL,
    {
        Self { bits: bits & Self::ALL }
    }

    /// The flags of `self` and those of `other` together: the word of the
    /// union is the bitwise or of the two words.
    pub fn union(self, other: Self) -> (flags: Self)
        ensures
            flags@ == self@ | other@,
            flags@ == (self@ | other@) & Self::ALL,
    {
        proof {
            lemma_all_bits_named(self.bits | other.bits);
        }
        Self::from_bits_truncate(self.bits | other.bits)
    }

    /// Whether every flag of `other` is in `self`.
    pub fn contains(&self, other: Self) -> (held: bool)
        ensures
            held == (self@ & other@ == other@),
    {
        self.bits & other.bits == other.bits
    }

    /// Composes a set from `parts`: the union of all of them, cut down to the
    /// named fields.
    pub fn compose(parts: &[u64]) -> (flags: Self)
        ensures
            flags@ == spec_compose(parts@),
    {
        let mut bits: u64 = 0;
        let mut i: usize = 0;
        while i < parts.len()
            invariant
                i <= parts@.len(),
                bits == spec_union_of(parts@.take(i as int)),
            decreases parts@.len() - i,
        {
            assert(parts@.take(i + 1).drop_last() =~= parts@.take(i as int));
            bits = bits | parts[i];
            i = i + 1;
        }
        assert(parts@.take(i as int) =~= parts@);
        Self::from_bits_truncate(bits)
    }

    /// The flags of `COMMON`.
    pub fn common() -> (flags: Self)
        ensures
            flags@ == Self::COMMON,
    {
        proof {
            lemma_all_bits_named(Self::COMMON);
        }
        Self::from_bits_truncate(Self::COMMON)
    }

    /// The flags of `KERNEL_DATA`.
    pub fn kernel_data() -> (flags: Self)
        ensures
            flags@ == Self::KERNEL_DATA,
    {
        proof {
            lemma_all_bits_named(Self::KERNEL_DATA);
        }
        Self::from_bits_truncate(Self::KERNEL_DATA)
    }

    /// The flags of `KERNEL_CODE32`.
    pub fn kernel_code32() -> (flags: Self)
        ensures
            flags@ == Self::KERNEL_CODE32,
    {
        proof {
            lemma_all_bits_named(Self::KERNEL_CODE32);
        }
        Self::from_bits_truncate(Self::KERNEL_CODE32)
    }

    /// The flags of `KERNEL_CODE64`.
    pub fn kernel_code64() -> (flags: Self)
        ensures
            flags@ == Self::KERNEL_CODE64,
    {
        proof {
            lemma_all_bits_named(Self::KERNEL_CODE64);
        }
        Self::from_bits_truncate(Self::KERNEL_CODE64)
    }

    /// The flags of `USER_DATA`: the kernel's data segment at ring 3.
    pub fn user_data() -> (flags: Self)
        ensures
            flags@ == Self::USER_DATA,
            flags@ == Self::KERNEL_DATA | Self::DPL_RING_3,
    {
        proof {
            lemma_all_bits_named(Self::DPL_RING_3);
        }
        Self::kernel_data().union(Self::from_bits_truncate(Self::DPL_RING_3))
    }

    /// The flags of `USER_CODE32`: the kernel's 32-bit code segment at ring 3.
    pub fn user_code32() -> (flags: Self)
        ensures
            flags@ == Self::USER_CODE32,
            flags@ == Self::KERNEL_CODE32 | Self::DPL_RING_3,
    {
        proof {
            lemma_all_bits_named(Self::DPL_RING_3);
        }
        Self::kernel_code32().union(Self::from_bits_truncate(Self::DPL_RING_3))
    }

    /// The flags of `USER_CODE64`: the kernel's 64-bit code segment at ring 3.
    pub fn user_code64() -> (flags: Self)
        ensures
            flags@ == Self::USER_CODE64,
            flags@ == Self::KERNEL_CODE64 | Self::DPL_RING_3,
    {
        proof {
            lemma_all_bits_named(Self::DPL_RING_3);
        }
        Self::kernel_code64().union(Self::from_bits_truncate(Self::DPL_RING_3))
    }
}

/// The named fields cover the whole word, so cutting a word down to them
/// keeps all of it.
pub proof fn lemma_all_bits_named(bits: u64)
    ensures
        DescriptorFlags::ALL == 0xFFFF_FFFF_FFFF_FFFF,
        bits & DescriptorFlags::ALL == bits,
        bits & !DescriptorFlags::ALL == 0,
{
    assert(DescriptorFlags::ALL == 0xFFFF_FFFF_FFFF_FFFF) by (bit_vector);
    assert(bits & 0xFFFF_FFFF_FFFF_FFFF == bits && bits & !0xFFFF_FFFF_FFFF_FFFFu64 == 0)
        by (bit_vector);
}

/// Adding one part to a union adds its bits.
proof fn lemma_union_of_push(parts: Seq<u64>, part: u64)
    ensures
        spec_union_of(parts.push(part)) == spec_union_of(parts) | part,
{
    assert(parts.push(part).drop_last() =~= parts);
}

/// The union of two runs of parts, one after the other, is the union of
/// their unions.
proof fn lemma_union_of_concat(a: Seq<u64>, b: Seq<u64>)
    ensures
        spec_union_of(a + b) == spec_union_of(a) | spec_union_of(b),
    decreases b.len(),
{
    let left = spec_union_of(a);
    if b.len() == 0 {
        assert(a + b =~= a);
        assert(left | 0 == left) by (bit_vector);
    } else {
        let rest = spec_union_of(b.drop_last());
        let last = b.last();
        assert((a + b).drop_last() =~= a + b.drop_last());
        lemma_union_of_concat(a, b.drop_last());
        assert((left | rest) | last == left | (rest | last)) by (bit_vector);
    }
}

/// Composition and union commute: composing two runs of parts and uniting
/// the results gives what composing all the parts at once gives.
pub proof fn lemma_compose_distributes(a: Seq<u64>, b: Seq<u64>)
    ensures
        spec_compose(a + b) == spec_compose(a) | spec_compose(b),
{
    let left = spec_union_of(a);
    let right = spec_union_of(b);
    let all = DescriptorFlags::ALL;
    lemma_union_of_concat(a, b);
    assert((left | right) & all == (left & all) | (right & all)) by (bit_vector);
}

/// Uniting a part that is already among the parts changes nothing.
proof fn lemma_union_absorbs(parts: Seq<u64>, i: int)
    requires
        0 <= i < parts.len(),
    ensures
        spec_union_of(parts) | parts[i] == spec_union_of(parts),
    decreases parts.len(),
{
    let rest = spec_union_of(parts.drop_last());
    let last = parts.last();
    let part = parts[i];
    if i == parts.len() - 1 {
        assert((rest | last) | last == rest | last) by (bit_vector);
    } else {
        lemma_union_absorbs(parts.drop_last(), i);
        assert((rest | last) | part == rest | last) by (bit_vector)
            requires
                rest | part == rest,
        ;
    }
}

/// Parts that all occur among `b` add nothing to the union of `b`.
proof fn lemma_union_covers(a: Seq<u64>, b: Seq<u64>)
    requires
        forall|i: int| 0 <= i < a.len() ==> b.contains(#[trigger] a[i]),
    ensures
        spec_union_of(b) | spec_union_of(a) == spec_union_of(b),
    decreases a.len(),
{
    let whole = spec_union_of(b);
    if a.len() == 0 {
        assert(whole | 0 == whole) by (bit_vector);
    } else {
        let rest = spec_union_of(a.drop_last());
        let last = a.last();
        assert forall|i: int| 0 <= i < a.drop_last().len() implies b.contains(
            #[trigger] a.drop_last()[i],
        ) by {
            assert(a.drop_last()[i] == a[i]);
        }
        lemma_union_covers(a.drop_last(), b);
        assert(b.contains(a[a.len() - 1]));
        let j = choose|j: int| 0 <= j < b.len() && b[j] == last;
        lemma_union_absorbs(b, j);
        assert(whole | (rest | last) == whole) by (bit_vector)
            requires
                whole | rest == whole,
                whole | last == whole,
        ;
    }
}

/// A composition depends on which parts are given, not on their order nor on
/// how often one of them is given: the parts are a set.
pub proof fn lemma_compose_of_same_parts(a: Seq<u64>, b: Seq<u64>)
    requires
        forall|part: u64| a.contains(part) <==> b.contains(part),
    ensures
        spec_compose(a) == spec_compose(b),
{
    let left = spec_union_of(a);
    let right = spec_union_of(b);
    assert forall|i: int| 0 <= i < a.len() implies b.contains(#[trigger] a[i]) by {
        assert(a.contains(a[i]));
    }
    assert forall|i: int| 0 <= i < b.len() implies a.contains(#[trigger] b[i]) by {
        assert(b.contains(b[i]));
    }
    lemma_union_covers(a, b);
    lemma_union_covers(b, a);
    assert(left == right) by (bit_vector)
        requires
            right | left == right,
            left | right == left,
    ;
}

/// Composing no parts gives the word without any bit.
pub proof fn lemma_compose_nothing()
    ensures
        spec_compose(Seq::<u64>::empty()) == 0,
{
    assert(0 & DescriptorFlags::ALL == 0) by (bit_vector);
}

/// No composition sets a bit outside the named fields.
pub proof fn lemma_compose_keeps_to_named_fields(parts: Seq<u64>)
    ensures
        spec_compose(parts) & !DescriptorFlags::ALL == 0,
{
    let union = spec_union_of(parts);
    let all = DescriptorFlags::ALL;
    assert((union & all) & !all == 0) by (bit_vector);
}

/// Composing every named bit and range gives the word in which exactly the
/// bits of the named fields are set.
pub proof fn lemma_compose_everything()
    ensures
        spec_compose(spec_named_bits()) == DescriptorFlags::ALL,
{
    let s0 = Seq::<u64>::empty();
    let s1 = s0.push(DescriptorFlags::ACCESSED);
    let s2 = s1.push(DescriptorFlags::WRITABLE);
    let s3 = s2.push(DescriptorFlags::CONFORMING);
    let s4 = s3.push(DescriptorFlags::EXECUTABLE);
    let s5 = s4.push(DescriptorFlags::USER_SEGMENT);
    let s6 = s5.push(DescriptorFlags::DPL_RING_3);
    let s7 = s6.push(DescriptorFlags::PRESENT);
    let s8 = s7.push(DescriptorFlags::AVAILABLE);
    let s9 = s8.push(DescriptorFlags::LONG_MODE);
    let s10 = s9.push(DescriptorFlags::DEFAULT_SIZE);
    let s11 = s10.push(DescriptorFlags::GRANULARITY);
    let s12 = s11.push(DescriptorFlags::LIMIT_0_15);
    let s13 = s12.push(DescriptorFlags::LIMIT_16_19);
    let s14 = s13.push(DescriptorFlags::BASE_0_23);
    let s15 = s14.push(DescriptorFlags::BASE_24_31);
    lemma_union_of_push(s0, DescriptorFlags::ACCESSED);
    lemma_union_of_push(s1, DescriptorFlags::WRITABLE);
    lemma_union_of_push(s2, DescriptorFlags::CONFORMING);
    lemma_union_of_push(s3, DescriptorFlags::EXECUTABLE);
    lemma_union_of_push(s4, DescriptorFlags::USER_SEGMENT);
    lemma_union_of_push(s5, DescriptorFlags::DPL_RING_3);
    lemma_union_of_push(s6, DescriptorFlags::PRESENT);
    lemma_union_of_push(s7, DescriptorFlags::AVAILABLE);
    lemma_union_of_push(s8, DescriptorFlags::LONG_MODE);
    lemma_union_of_push(s9, DescriptorFlags::DEFAULT_SIZE);
    lemma_union_of_push(s10, DescriptorFlags::GRANULARITY);
    lemma_union_of_push(s11, DescriptorFlags::LIMIT_0_15);
    lemma_union_of_push(s12, DescriptorFlags::LIMIT_16_19);
    lemma_union_of_push(s13, DescriptorFlags::BASE_0_23);
    lemma_union_of_push(s14, DescriptorFlags::BASE_24_31);
    assert(spec_named_bits() =~= s15);
    assert(0 | DescriptorFlags::ACCESSED == DescriptorFlags::ACCESSED) by (bit_vector);
    lemma_all_bits_named(DescriptorFlags::ALL);
}

/// Each user preset is its kernel preset with the two privilege bits set,
/// and the two differ in those two bits alone.
pub proof fn lemma_user_presets()
    ensures
        DescriptorFlags::USER_DATA == DescriptorFlags::KERNEL_DATA | DescriptorFlags::DPL_RING_3,
        DescriptorFlags::USER_DATA ^ DescriptorFlags::KERNEL_DATA == DescriptorFlags::DPL_RING_3,
        DescriptorFlags::USER_CODE32 == DescriptorFlags::KERNEL_CODE32
            | DescriptorFlags::DPL_RING_3,
        DescriptorFlags::USER_CODE32 ^ DescriptorFlags::KERNEL_CODE32
            == DescriptorFlags::DPL_RING_3,
        DescriptorFlags::USER_CODE64 == DescriptorFlags::KERNEL_CODE64
            | DescriptorFlags::DPL_RING_3,
        DescriptorFlags::USER_CODE64 ^ DescriptorFlags::KERNEL_CODE64
            == DescriptorFlags::DPL_RING_3,
        DescriptorFlags::DPL_RING_3 == (1u64 << 45) | (1u64 << 46),
{
    assert({
        &&& DescriptorFlags::USER_DATA ^ DescriptorFlags::KERNEL_DATA
            == DescriptorFlags::DPL_RING_3
        &&& DescriptorFlags::USER_CODE32 ^ DescriptorFlags::KERNEL_CODE32
            == DescriptorFlags::DPL_RING_3
        &&& DescriptorFlags::USER_CODE64 ^ DescriptorFlags::KERNEL_CODE64
            == DescriptorFlags::DPL_RING_3
        &&& DescriptorFlags::DPL_RING_3 == (1u64 << 45) | (1u64 << 46)
    }) by (bit_vector);
}

} // verus!

//! Width and memory-ordering tags, as they cross the call boundary.

use vstd::prelude::*;

use std::sync::atomic::Ordering;

verus! {

/// The bit width of an atomic cell.
#[derive(Clone, Copy, Debug, PartialEq, Eq, Structural)]
pub enum SizeType {
    AtomicU8,
    AtomicU16,
    AtomicU32,
    AtomicU64,
}

/// A memory-ordering tag.
#[derive(Clone, Copy, Debug, PartialEq, Eq, Structural)]
pub enum MemoryOrder {
    Relaxed,
    Acquire,
    Release,
    AcqRel,
    SeqCst,
}

/// Number of bits held by a cell of width `ty`.
pub open spec fn spec_bits(ty: SizeType) -> nat {
    match ty {
        SizeType::AtomicU8 => 8,
        SizeType::AtomicU16 => 16,
        SizeType::AtomicU32 => 32,
        SizeType::AtomicU64 => 64,
    }
}

/// Largest value a cell of width `ty` can hold.
pub open spec fn max_value(ty: SizeType) -> u64 {
    match ty {
        SizeType::AtomicU8 => 0xff,
        SizeType::AtomicU16 => 0xffff,
        SizeType::AtomicU32 => 0xffff_ffff,
        SizeType::AtomicU64 => 0xffff_ffff_ffff_ffff,
    }
}

/// `v` is representable in a cell of width `ty`.
pub open spec fn fits(ty: SizeType, v: u64) -> bool {
    v <= max_value(ty)
}

/// The width whose wire tag is `n`, if any.
pub open spec fn spec_size_of_tag(n: u32) -> Option<SizeType> {
    if n == 8 {
        Some(SizeType::AtomicU8)
    } else if n == 16 {
        Some(SizeType::AtomicU16)
    } else if n == 32 {
        Some(SizeType::AtomicU32)
    } else if n == 64 {
        Some(SizeType::AtomicU64)
    } else {
        None
    }
}

/// Wire tag of an ordering.
pub open spec fn spec_order_tag(o: MemoryOrder) -> u32 {
    match o {
        MemoryOrder::Relaxed => 0,
        MemoryOrder::Acquire => 1,
        MemoryOrder::Release => 2,
        MemoryOrder::AcqRel => 3,
        MemoryOrder::SeqCst => 4,
    }
}

/// The ordering whose wire tag is `n`, if any.
pub open spec fn spec_order_of_tag(n: u32) -> Option<MemoryOrder> {
    if n == 0 {
        Some(MemoryOrder::Relaxed)
    } else if n == 1 {
        Some(MemoryOrder::Acquire)
    } else if n == 2 {
        Some(MemoryOrder::Release)
    } else if n == 3 {
        Some(MemoryOrder::AcqRel)
    } else if n == 4 {
        Some(MemoryOrder::SeqCst)
    } else {
        None
    }
}

/// The native ordering that a tag stands for.
pub open spec fn spec_ordering(o: MemoryOrder) -> Ordering {
    match o {
        MemoryOrder::Relaxed => Ordering::Relaxed,
        MemoryOrder::Acquire => Ordering::Acquire,
        MemoryOrder::Release => Ordering::Release,
        MemoryOrder::AcqRel => Ordering::AcqRel,
        MemoryOrder::SeqCst => Ordering::SeqCst,
    }
}

impl SizeType {
    /// The wire tag of this width: its number of bits.
    pub fn bits(self) -> (r: u32)
        ensures
            r as nat == spec_bits(self),
    {
        match self {
            SizeType::AtomicU8 => 8,
            SizeType::AtomicU16 => 16,
            SizeType::AtomicU32 => 32,
            SizeType::AtomicU64 => 64,
        }
    }

    /// Decodes a wire tag; `None` unless it is 8, 16, 32 or 64.
    pub fn from_bits(n: u32) -> (r: Option<SizeType>)
        ensures
            r == spec_size_of_tag(n),
    {
        if n == 8 {
            Some(SizeType::AtomicU8)
        } else if n == 16 {
            Some(SizeType::AtomicU16)
        } else if n == 32 {
            Some(SizeType::AtomicU32)
        } else if n == 64 {
            Some(SizeType::AtomicU64)
        } else {
            None
        }
    }

    /// Largest value a cell of this width holds.
    pub fn max_value(self) -> (r: u64)
        ensures
            r == max_value(self),
    {
        match self {
            SizeType::AtomicU8 => 0xff,
            SizeType::AtomicU16 => 0xffff,
            SizeType::AtomicU32 => 0xffff_ffff,
            SizeType::AtomicU64 => 0xffff_ffff_ffff_ffff,
        }
    }
}

impl MemoryOrder {
    /// The wire tag of this ordering.
    pub fn tag(self) -> (r: u32)
        ensures
            r == spec_order_tag(self),
    {
        match self {
            MemoryOrder::Relaxed => 0,
            MemoryOrder::Acquire => 1,
            MemoryOrder::Release => 2,
            MemoryOrder::AcqRel => 3,
            MemoryOrder::SeqCst => 4,
        }
    }

    /// Decodes a wire tag; `None` unless it is in `0..=4`.
    pub fn from_tag(n: u32) -> (r: Option<MemoryOrder>)
        ensures
            r == spec_order_of_tag(n),
    {
        if n == 0 {
            Some(MemoryOrder::Relaxed)
        } else if n == 1 {
            Some(MemoryOrder::Acquire)
        } else if n == 2 {
            Some(MemoryOrder::Release)
        } else if n == 3 {
            Some(MemoryOrder::AcqRel)
        } else if n == 4 {
            Some(MemoryOrder::SeqCst)
        } else {
            None
        }
    }
}

impl From<MemoryOrder> for Ordering {
    fn from(ord: MemoryOrder) -> (r: Ordering) {
        match ord {
            MemoryOrder::Relaxed => Ordering::Relaxed,
            MemoryOrder::Acquire => Ordering::Acquire,
            MemoryOrder::Release => Ordering::Release,
            MemoryOrder::AcqRel => Ordering::AcqRel,
            MemoryOrder::SeqCst => Ordering::SeqCst,
        }
    }
}

impl vstd::std_specs::convert::FromSpecImpl<MemoryOrder> for Ordering {
    open spec fn obeys_from_spec() -> bool {
        true
    }

    open spec fn from_spec(ord: MemoryOrder) -> Ordering {
        spec_ordering(ord)
    }
}

/// Every width survives a round trip through its wire tag.
pub proof fn size_tag_round_trip(ty: SizeType)
    ensures
        spec_bits(ty) <= u32::MAX,
        spec_size_of_tag(spec_bits(ty) as u32) == Some(ty),
{
}

/// Every ordering survives a round trip through its wire tag, and every
/// accepted tag names exactly one ordering.
pub proof fn order_tag_round_trip(o: MemoryOrder, n: u32)
    ensures
        spec_order_of_tag(spec_order_tag(o)) == Some(o),
        spec_order_of_tag(n) is Some ==> spec_order_tag(spec_order_of_tag(n)->0) == n,
{
}

/// Distinct tags map to distinct native orderings.
pub proof fn ordering_is_injective(a: MemoryOrder, b: MemoryOrder)
    ensures
        spec_ordering(a) == spec_ordering(b) ==> a == b,
{
}

} // verus!

//! Symbolic event flags and their encoding as integer bit-masks.

use vstd::prelude::*;
use vstd::std_specs::convert::FromSpecImpl;

verus! {

/// The unsigned integer in which the foreign runtime encodes bit-masks.
pub type NSUInteger = u64;

/// An EventMask describes the type of event.
#[derive(Clone, Copy, Debug, PartialEq, Eq, Structural)]
pub enum EventMask {
    KeyDown,
}

/// A modifier key, or a union of modifier keys, that an event may carry.
#[derive(Clone, Copy, Debug, PartialEq, Eq, Structural)]
pub enum EventModifierFlag {
    CapsLock,
    Control,
    Option,
    Command,
    DeviceIndependentFlagsMask,
}

/// The bit pattern of one flag: bit 16, 18, 19 or 20 for the single keys, and
/// the upper half of the low 32 bits for the device-independent union.
pub open spec fn mask_of(flag: EventModifierFlag) -> u64 {
    match flag {
        EventModifierFlag::CapsLock => 0x0001_0000u64,
        EventModifierFlag::Control => 0x0004_0000u64,
        EventModifierFlag::Option => 0x0008_0000u64,
        EventModifierFlag::Command => 0x0010_0000u64,
        EventModifierFlag::DeviceIndependentFlagsMask => 0xffff_0000u64,
    }
}

/// The bitwise OR of the patterns of all the flags in `flags`; 0 for none.
pub open spec fn mask_of_any(flags: Seq<EventModifierFlag>) -> u64
    decreases flags.len(),
{
    if flags.len() == 0 {
        0u64
    } else {
        mask_of_any(flags.drop_last()) | mask_of(flags.last())
    }
}

/// A mask contains a flag when every bit of the flag's pattern is set in it.
pub open spec fn mask_contains(mask: u64, flag: EventModifierFlag) -> bool {
    mask & mask_of(flag) == mask_of(flag)
}

/// The bit pattern by which the foreign runtime selects a category of events.
pub open spec fn category_of(category: EventMask) -> u64 {
    match category {
        EventMask::KeyDown => 0x400u64,
    }
}

impl FromSpecImpl<EventModifierFlag> for u64 {
    open spec fn obeys_from_spec() -> bool {
        true
    }

    open spec fn from_spec(flag: EventModifierFlag) -> u64 {
        mask_of(flag)
    }
}

impl From<EventModifierFlag> for u64 {
    fn from(flag: EventModifierFlag) -> (mask: u64) {
        match flag {
            EventModifierFlag::CapsLock => 0x0001_0000,
            EventModifierFlag::Control => 0x0004_0000,
            EventModifierFlag::Option => 0x0008_0000,
            EventModifierFlag::Command => 0x0010_0000,
            EventModifierFlag::DeviceIndependentFlagsMask => 0xffff_0000,
        }
    }
}

impl<'a> FromSpecImpl<&'a EventModifierFlag> for u64 {
    open spec fn obeys_from_spec() -> bool {
        true
    }

    open spec fn from_spec(flag: &'a EventModifierFlag) -> u64 {
        mask_of(*flag)
    }
}

impl<'a> From<&'a EventModifierFlag> for u64 {
    fn from(flag: &'a EventModifierFlag) -> (mask: u64) {
        u64::from(*flag)
    }
}

/// The bit-mask of one flag.
pub fn to_mask(flag: EventModifierFlag) -> (mask: NSUInteger)
    ensures
        mask == mask_of(flag),
{
    u64::from(flag)
}

/// The bit-mask that selects the events of `category`.
pub fn to_category_mask(category: EventMask) -> (mask: NSUInteger)
    ensures
        mask == category_of(category),
{
    match category {
        EventMask::KeyDown => 0x400,
    }
}

/// The bit-mask of a set of flags: the bitwise OR of each flag's pattern.
pub fn to_mask_any(flags: &[EventModifierFlag]) -> (mask: NSUInteger)
    ensures
        mask == mask_of_any(flags@),
{
    let mut mask: u64 = 0;
    let mut i: usize = 0;
    while i < flags.len()
        invariant
            i <= flags.len(),
            mask == mask_of_any(flags@.take(i as int)),
        decreases flags.len() - i,
    {
        proof {
            assert(flags@.take(i + 1).drop_last() =~= flags@.take(i as int));
        }
        mask = mask | u64::from(&flags[i]);
        i = i + 1;
    }
    proof {
        assert(flags@.take(i as int) =~= flags@);
    }
    mask
}

/// Whether every bit of `flag` is set in `mask`.
pub fn contains(mask: NSUInteger, flag: EventModifierFlag) -> (found: bool)
    ensures
        found == mask_contains(mask, flag),
{
    let bits: u64 = to_mask(flag);
    mask & bits == bits
}

/// The mask of two flags is the bitwise OR of their two masks.
pub proof fn lemma_mask_of_pair(a: EventModifierFlag, b: EventModifierFlag)
    ensures
        mask_of_any(seq![a, b]) == mask_of(a) | mask_of(b),
{
    let s = seq![a, b];
    assert(s.drop_last() =~= seq![a]);
    assert(seq![a].drop_last() =~= Seq::<EventModifierFlag>::empty());
    assert(s.last() == b);
    assert(seq![a].last() == a);
    assert(mask_of_any(Seq::<EventModifierFlag>::empty()) == 0u64);
    assert(mask_of_any(seq![a]) == 0u64 | mask_of(a));
    let x = mask_of(a);
    let y = mask_of(b);
    assert((0u64 | x) | y == x | y) by (bit_vector);
}

/// The mask of a set of flags contains each flag of the set.
pub proof fn lemma_mask_of_any_contains(flags: Seq<EventModifierFlag>, i: int)
    requires
        0 <= i < flags.len(),
    ensures
        mask_contains(mask_of_any(flags), flags[i]),
    decreases flags.len(),
{
    let rest = mask_of_any(flags.drop_last());
    let last = mask_of(flags.last());
    let bits = mask_of(flags[i]);
    if i == flags.len() - 1 {
        assert((rest | last) & last == last) by (bit_vector);
    } else {
        lemma_mask_of_any_contains(flags.drop_last(), i);
        assert(flags.drop_last()[i] == flags[i]);
        assert((rest | last) & bits == bits) by (bit_vector)
            requires
                rest & bits == bits,
        ;
    }
}

/// A bit is set in the mask of a set of flags only where some flag of the set
/// has it: a flag whose pattern shares no bit with any flag of the set shares
/// none with the set's mask.
pub proof fn lemma_mask_of_any_exact(flags: Seq<EventModifierFlag>, probe: u64)
    requires
        forall|i: int| 0 <= i < flags.len() ==> mask_of(#[trigger] flags[i]) & probe == 0,
    ensures
        mask_of_any(flags) & probe == 0,
    decreases flags.len(),
{
    if flags.len() == 0 {
        assert(0u64 & probe == 0) by (bit_vector);
    } else {
        let rest = mask_of_any(flags.drop_last());
        let last = mask_of(flags.last());
        assert forall|i: int| 0 <= i < flags.drop_last().len() implies mask_of(
            #[trigger] flags.drop_last()[i],
        ) & probe == 0 by {
            assert(flags.drop_last()[i] == flags[i]);
        }
        lemma_mask_of_any_exact(flags.drop_last(), probe);
        assert((rest | last) & probe == 0) by (bit_vector)
            requires
                rest & probe == 0,
                last & probe == 0,
        ;
    }
}

/// The mask of one single-key flag contains no other single-key flag.
pub proof fn lemma_single_keys_are_distinct(a: EventModifierFlag, b: EventModifierFlag)
    requires
        a != b,
        a != EventModifierFlag::DeviceIndependentFlagsMask,
        b != EventModifierFlag::DeviceIndependentFlagsMask,
    ensures
        !mask_contains(mask_of(a), b),
{
    assert(0x0001_0000u64 & 0x0004_0000u64 == 0) by (bit_vector);
    assert(0x0001_0000u64 & 0x0008_0000u64 == 0) by (bit_vector);
    assert(0x0001_0000u64 & 0x0010_0000u64 == 0) by (bit_vector);
    assert(0x0004_0000u64 & 0x0001_0000u64 == 0) by (bit_vector);
    assert(0x0004_0000u64 & 0x0008_0000u64 == 0) by (bit_vector);
    assert(0x0004_0000u64 & 0x0010_0000u64 == 0) by (bit_vector);
    assert(0x0008_0000u64 & 0x0001_0000u64 == 0) by (bit_vector);
    assert(0x0008_0000u64 & 0x0004_0000u64 == 0) by (bit_vector);
    assert(0x0008_0000u64 & 0x0010_0000u64 == 0) by (bit_vector);
    assert(0x0010_0000u64 & 0x0001_0000u64 == 0) by (bit_vector);
    assert(0x0010_0000u64 & 0x0004_0000u64 == 0) by (bit_vector);
    assert(0x0010_0000u64 & 0x0008_0000u64 == 0) by (bit_vector);
}

/// The device-independent union contains every flag.
pub proof fn lemma_union_contains_all(flag: EventModifierFlag)
    ensures
        mask_contains(mask_of(EventModifierFlag::DeviceIndependentFlagsMask), flag),
{
    assert(0xffff_0000u64 & 0x0001_0000u64 == 0x0001_0000u64) by (bit_vector);
    assert(0xffff_0000u64 & 0x0004_0000u64 == 0x0004_0000u64) by (bit_vector);
    assert(0xffff_0000u64 & 0x0008_0000u64 == 0x0008_0000u64) by (bit_vector);
    assert(0xffff_0000u64 & 0x0010_0000u64 == 0x0010_0000u64) by (bit_vector);
    assert(0xffff_0000u64 & 0xffff_0000u64 == 0xffff_0000u64) by (bit_vector);
}

} // verus!

use vstd::prelude::*;
use std::marker::PhantomData;
use crate::handles::VkFlags;

verus! {

/// The named flags of one kind of set: each value stands for a pattern of bits.
pub trait FlagBits: Copy {
    spec fn spec_bits(&self) -> VkFlags;

    fn bits(&self) -> (bits: VkFlags)
        ensures
            bits == self.spec_bits(),
    ;
}

/// A set of flags of the kind `B`, kept as the bits of one word.
///
/// Sets of different kinds are different types, and a set is made only from
/// the empty set and from flags of its own kind.
#[derive(Debug)]
pub struct Flags<B> {
    flags: VkFlags,
    kind: PhantomData<B>,
}

impl<B> View for Flags<B> {
    type V = VkFlags;

    closed spec fn view(&self) -> VkFlags {
        self.flags
    }
}

impl<B> Clone for Flags<B> {
    fn clone(&self) -> (copy: Self)
        ensures
            copy@ == self@,
    {
        Flags { flags: self.flags, kind: PhantomData }
    }
}

impl<B> Copy for Flags<B> {
}

impl<B> Flags<B> {
    /// The empty set.
    pub fn none() -> (set: Self)
        ensures
            set@ == 0,
    {
        Flags { flags: 0, kind: PhantomData }
    }

    /// The bits of the set.
    pub fn mask(&self) -> (mask: VkFlags)
        ensures
            mask == self@,
    {
        self.flags
    }
}

impl<B: FlagBits> Flags<B> {
    /// Whether every bit of `flag` is in the set.
    pub fn contains(&self, flag: B) -> (held: bool)
        ensures
            held == (self@ & flag.spec_bits() == flag.spec_bits()),
    {
        let bits = flag.bits();
        self.flags & bits == bits
    }
}

impl<B> PartialEq for Flags<B> {
    fn eq(&self, other: &Self) -> (equal: bool) {
        self.flags == other.flags
    }
}

impl<B> vstd::std_specs::cmp::PartialEqSpecImpl for Flags<B> {
    open spec fn obeys_eq_spec() -> bool {
        true
    }

    open spec fn eq_spec(&self, other: &Self) -> bool {
        self@ == other@
    }
}

impl<B> vstd::std_specs::ops::BitOrSpecImpl for Flags<B> {
    open spec fn obeys_bitor_spec() -> bool {
        true
    }

    open spec fn bitor_req(self, rhs: Flags<B>) -> bool {
        true
    }

    closed spec fn bitor_spec(self, rhs: Flags<B>) -> Flags<B> {
        Flags { flags: self.flags | rhs.flags, kind: PhantomData }
    }
}

impl<B> std::ops::BitOr for Flags<B> {
    type Output = Flags<B>;

    fn bitor(self, rhs: Flags<B>) -> (union: Flags<B>)
        ensures
            union@ == self@ | rhs@,
    {
        Flags { flags: self.flags | rhs.flags, kind: PhantomData }
    }
}

impl<B: FlagBits> vstd::std_specs::ops::BitOrSpecImpl<B> for Flags<B> {
    open spec fn obeys_bitor_spec() -> bool {
        true
    }

    open spec fn bitor_req(self, rhs: B) -> bool {
        true
    }

    closed spec fn bitor_spec(self, rhs: B) -> Flags<B> {
        Flags { flags: self.flags | rhs.spec_bits(), kind: PhantomData }
    }
}

impl<B: FlagBits> std::ops::BitOr<B> for Flags<B> {
    type Output = Flags<B>;

    fn bitor(self, rhs: B) -> (union: Flags<B>)
        ensures
            union@ == self@ | rhs.spec_bits(),
    {
        Flags { flags: self.flags | rhs.bits(), kind: PhantomData }
    }
}

impl<B> vstd::std_specs::ops::BitAndSpecImpl for Flags<B> {
    open spec fn obeys_bitand_spec() -> bool {
        true
    }

    open spec fn bitand_req(self, rhs: Flags<B>) -> bool {
        true
    }

    closed spec fn bitand_spec(self, rhs: Flags<B>) -> Flags<B> {
        Flags { flags: self.flags & rhs.flags, kind: PhantomData }
    }
}

impl<B> std::ops::BitAnd for Flags<B> {
    type Output = Flags<B>;

    fn bitand(self, rhs: Flags<B>) -> (common: Flags<B>)
        ensures
            common@ == self@ & rhs@,
    {
        Flags { flags: self.flags & rhs.flags, kind: PhantomData }
    }
}

impl<B: FlagBits> vstd::std_specs::ops::BitAndSpecImpl<B> for Flags<B> {
    open spec fn obeys_bitand_spec() -> bool {
        true
    }

    open spec fn bitand_req(self, rhs: B) -> bool {
        true
    }

    closed spec fn bitand_spec(self, rhs: B) -> Flags<B> {
        Flags { flags: self.flags & rhs.spec_bits(), kind: PhantomData }
    }
}

impl<B: FlagBits> std::ops::BitAnd<B> for Flags<B> {
    type Output = Flags<B>;

    fn bitand(self, rhs: B) -> (common: Flags<B>)
        ensures
            common@ == self@ & rhs.spec_bits(),
    {
        Flags { flags: self.flags & rhs.bits(), kind: PhantomData }
    }
}

/// Sets combine as their words do, bit by bit: union and intersection are
/// commutative, associative and idempotent, the empty set changes no union
/// and empties every intersection, and a union holds what went into it.
pub proof fn lemma_set_algebra(a: VkFlags, b: VkFlags, c: VkFlags)
    by (bit_vector)
    ensures
        a | b == b | a,
        (a | b) | c == a | (b | c),
        a | a == a,
        a | 0 == a,
        a & b == b & a,
        (a & b) & c == a & (b & c),
        a & a == a,
        a & 0 == 0,
        (a | b) & b == b,
{
}

} // verus!

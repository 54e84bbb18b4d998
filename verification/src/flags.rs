//! Flags that say how the nodes of a subgraph may be scheduled.

use vstd::prelude::*;

verus! {

/// A set of subgraph flags, held as a bit mask in which only the bits of
/// known flags are ever set.
#[derive(Clone, Copy, Debug, PartialEq, Eq, Hash, Structural)]
pub struct SubgraphFlags {
    bits: u32,
}

impl SubgraphFlags {
    /// No flag.
    pub const NONE: u32 = 0;

    /// The subgraph is scheduled as one unit: no outside node is placed
    /// between its nodes.
    pub const ATOMIC: u32 = 1;

    /// The nodes of the subgraph keep the order in which they were recorded.
    pub const SEQUENTIAL: u32 = 2;

    /// Every known flag.
    pub const ALL: u32 = 3;

    /// The bit mask of this set.
    pub closed spec fn mask(self) -> u32 {
        self.bits
    }

    #[verifier::type_invariant]
    spec fn only_known_bits(self) -> bool {
        self.bits & !3u32 == 0
    }

    pub fn empty() -> (flags: Self)
        ensures
            flags.mask() == 0,
    {
        assert(0u32 & !3u32 == 0) by (bit_vector);
        SubgraphFlags { bits: 0 }
    }

    pub fn all() -> (flags: Self)
        ensures
            flags.mask() == Self::ALL,
    {
        assert(3u32 & !3u32 == 0) by (bit_vector);
        SubgraphFlags { bits: 3 }
    }

    #[verifier::when_used_as_spec(mask)]
    pub fn bits(self) -> (bits: u32)
        ensures
            bits == self.mask(),
            bits & !Self::ALL == 0,
    {
        proof {
            use_type_invariant(self);
        }
        self.bits
    }

    /// The set with exactly the given bits, where all of them are bits of
    /// known flags.
    pub fn from_bits(bits: u32) -> (flags: Option<Self>)
        ensures
            flags is Some <==> bits & !Self::ALL == 0,
            flags matches Some(f) ==> f.mask() == bits,
    {
        if bits & !3u32 == 0 {
            Some(SubgraphFlags { bits })
        } else {
            None
        }
    }

    /// The set of the known flags among the given bits.
    pub fn from_bits_truncate(bits: u32) -> (flags: Self)
        ensures
            flags.mask() == bits & Self::ALL,
    {
        assert((bits & 3u32) & !3u32 == 0) by (bit_vector);
        SubgraphFlags { bits: bits & 3u32 }
    }

    pub fn is_empty(self) -> (none: bool)
        ensures
            none <==> self.mask() == 0,
    {
        self.bits == 0
    }

    /// Whether every flag of `other` is in this set.
    pub fn contains(self, other: Self) -> (all_in: bool)
        ensures
            all_in <==> self.mask() & other.mask() == other.mask(),
    {
        self.bits & other.bits == other.bits
    }

    /// Whether some flag is in both sets.
    pub fn intersects(self, other: Self) -> (some_in: bool)
        ensures
            some_in <==> self.mask() & other.mask() != 0,
    {
        self.bits & other.bits != 0
    }

    pub fn union(self, other: Self) -> (flags: Self)
        ensures
            flags.mask() == self.mask() | other.mask(),
    {
        let a: u32 = self.bits;
        let b: u32 = other.bits;
        proof {
            use_type_invariant(self);
            use_type_invariant(other);
        }
        assert((a | b) & !3u32 == 0) by (bit_vector)
            requires
                a & !3u32 == 0,
                b & !3u32 == 0,
        ;
        SubgraphFlags { bits: a | b }
    }

    pub fn intersection(self, other: Self) -> (flags: Self)
        ensures
            flags.mask() == self.mask() & other.mask(),
    {
        let a: u32 = self.bits;
        let b: u32 = other.bits;
        proof {
            use_type_invariant(self);
            use_type_invariant(other);
        }
        assert((a & b) & !3u32 == 0) by (bit_vector)
            requires
                a & !3u32 == 0,
        ;
        SubgraphFlags { bits: a & b }
    }

    /// The flags of this set that are not in `other`.
    pub fn difference(self, other: Self) -> (flags: Self)
        ensures
            flags.mask() == self.mask() & !other.mask(),
    {
        let a: u32 = self.bits;
        let b: u32 = other.bits;
        proof {
            use_type_invariant(self);
            use_type_invariant(other);
        }
        assert((a & !b) & !3u32 == 0) by (bit_vector)
            requires
                a & !3u32 == 0,
        ;
        SubgraphFlags { bits: a & !b }
    }

    /// The known flags that are not in this set.
    pub fn complement(self) -> (flags: Self)
        ensures
            flags.mask() == !self.mask() & Self::ALL,
    {
        Self::from_bits_truncate(!self.bits)
    }

    /// A union holds both of its parts, and a set holds whatever it was
    /// united with.
    pub proof fn lemma_union_contains(a: u32, b: u32)
        ensures
            (a | b) & a == a,
            (a | b) & b == b,
            a | b == b | a,
    {
        assert((a | b) & a == a) by (bit_vector);
        assert((a | b) & b == b) by (bit_vector);
        assert(a | b == b | a) by (bit_vector);
    }

    /// A set and its complement share no flag and together hold every
    /// known flag.
    pub proof fn lemma_complement_partitions(a: u32)
        requires
            a & !Self::ALL == 0,
        ensures
            a & (!a & Self::ALL) == 0,
            a | (!a & Self::ALL) == Self::ALL,
    {
        assert(a & (!a & 3u32) == 0) by (bit_vector);
        assert(a | (!a & 3u32) == 3u32) by (bit_vector)
            requires
                a & !3u32 == 0,
        ;
    }
}

} // verus!

use libc::c_int;
use vstd::prelude::*;
use vstd::std_specs::ops::{
    BitAndSpecImpl, BitOrSpecImpl, BitXorSpecImpl, NotSpecImpl, SubSpecImpl,
};

verus! {

/// The mods available to osu!: a set of flags, one bit each, as the engine
/// takes them.
///
/// A set only ever holds flags that have a name here: its bits are within
/// those of [`Mods::ALL`].
#[derive(Clone, Copy, PartialEq, Eq, Structural, Debug, Hash)]
pub struct Mods {
    bits: c_int,
}

impl Mods {
    pub const NOMOD: c_int = 0;

    pub const NF: c_int = 1 << 0;

    pub const EZ: c_int = 1 << 1;

    pub const TD: c_int = 1 << 2;

    pub const HD: c_int = 1 << 3;

    pub const HR: c_int = 1 << 4;

    pub const SD: c_int = 1 << 5;

    pub const DT: c_int = 1 << 6;

    pub const RX: c_int = 1 << 7;

    pub const HT: c_int = 1 << 8;

    pub const NC: c_int = 1 << 9;

    pub const FL: c_int = 1 << 10;

    pub const AT: c_int = 1 << 11;

    pub const SO: c_int = 1 << 12;

    pub const AP: c_int = 1 << 13;

    pub const PF: c_int = 1 << 14;

    pub const KEY4: c_int = 1 << 15;

    pub const KEY5: c_int = 1 << 16;

    pub const KEY6: c_int = 1 << 17;

    pub const KEY7: c_int = 1 << 18;

    pub const KEY8: c_int = 1 << 19;

    pub const FADEIN: c_int = 1 << 20;

    pub const RANDOM: c_int = 1 << 21;

    pub const CINEMA: c_int = 1 << 22;

    pub const TARGET: c_int = 1 << 23;

    pub const KEY9: c_int = 1 << 24;

    pub const KEYCOOP: c_int = 1 << 25;

    pub const KEY1: c_int = 1 << 26;

    pub const KEY3: c_int = 1 << 27;

    pub const KEY2: c_int = 1 << 28;

    pub const SCOREV2: c_int = 1 << 29;

    /// Another name for [`Mods::TD`].
    pub const TOUCH_DEVICE: c_int = Self::TD;

    /// Another name for [`Mods::TD`].
    pub const NOVIDEO: c_int = Self::TD;

    /// The mods that change the speed of the map.
    pub const SPEED_CHANGING: c_int = Self::DT | Self::HT | Self::NC;

    /// The mods that change the map.
    pub const MAP_CHANGING: c_int = Self::HR | Self::EZ | Self::SPEED_CHANGING;

    /// Every flag that has a name.
    pub const ALL: c_int = 0x3FFF_FFFF;

    #[verifier::type_invariant]
    spec fn named(self) -> bool {
        0 <= self.bits <= Self::ALL
    }

    /// The raw value of the flags currently stored.
    pub closed spec fn spec_bits(&self) -> c_int {
        self.bits
    }

    /// Whether any of `flags` is in this set.
    pub open spec fn has(&self, flags: c_int) -> bool {
        self.bits() & flags != 0
    }

    /// Whether all of `flags` are in this set.
    pub open spec fn has_all(&self, flags: c_int) -> bool {
        self.bits() & flags == flags
    }

    /// Returns an empty set of flags.
    pub fn empty() -> (r: Mods)
        ensures
            r.bits() == 0,
    {
        Mods { bits: 0 }
    }

    /// Returns the set containing all flags.
    pub fn all() -> (r: Mods)
        ensures
            r.bits() == Self::ALL,
    {
        Mods { bits: Self::ALL }
    }

    /// Returns the raw value of the flags currently stored.
    #[verifier::when_used_as_spec(spec_bits)]
    pub fn bits(&self) -> (bits: c_int)
        ensures
            bits == self.spec_bits(),
            0 <= bits <= Self::ALL,
    {
        proof {
            use_type_invariant(self);
        }
        self.bits
    }

    /// Convert from underlying bit representation, unless that
    /// representation contains bits that do not correspond to a flag.
    pub fn from_bits(bits: c_int) -> (r: Option<Mods>)
        ensures
            r is Some <==> 0 <= bits <= Self::ALL,
            r is Some <==> bits & !Self::ALL == 0,
            r matches Some(m) ==> m.bits() == bits,
    {
        assert((bits & !0x3FFF_FFFFi32 == 0) <==> (0 <= bits <= 0x3FFF_FFFFi32)) by (bit_vector);
        if (bits & !Self::ALL) == 0 {
            Some(Mods { bits })
        } else {
            None
        }
    }

    /// Convert from underlying bit representation, dropping any bits
    /// that do not correspond to flags.
    pub fn from_bits_truncate(bits: c_int) -> (r: Mods)
        ensures
            r.bits() == bits & Self::ALL,
    {
        assert(0 <= bits & 0x3FFF_FFFFi32 <= 0x3FFF_FFFFi32) by (bit_vector);
        Mods { bits: bits & Self::ALL }
    }

    /// Returns `true` if no flags are currently stored.
    pub fn is_empty(&self) -> (r: bool)
        ensures
            r == (self.bits() == 0),
    {
        self.bits() == Mods::empty().bits()
    }

    /// Returns `true` if all flags are currently set.
    pub fn is_all(&self) -> (r: bool)
        ensures
            r == (self.bits() == Self::ALL),
    {
        proof {
            use_type_invariant(self);
            lemma_all(self.bits);
        }
        Self::ALL | self.bits == self.bits
    }

    /// Returns `true` if there are flags common to both `self` and `other`.
    pub fn intersects(&self, other: Mods) -> (r: bool)
        ensures
            r == self.has(other.bits()),
    {
        (self.bits & other.bits) != 0
    }

    /// Returns `true` if all of the flags in `other` are contained within `self`.
    pub fn contains(&self, other: Mods) -> (r: bool)
        ensures
            r == self.has_all(other.bits()),
    {
        (self.bits & other.bits) == other.bits
    }

    /// Inserts the specified flags in-place.
    pub fn insert(&mut self, other: Mods)
        ensures
            final(self).bits() == old(self).bits() | other.bits(),
    {
        proof {
            use_type_invariant(&*self);
            use_type_invariant(&other);
            lemma_named(self.bits, other.bits);
        }
        self.bits = self.bits | other.bits;
    }

    /// Removes the specified flags in-place.
    pub fn remove(&mut self, other: Mods)
        ensures
            final(self).bits() == old(self).bits() & !other.bits(),
    {
        proof {
            use_type_invariant(&*self);
            use_type_invariant(&other);
            lemma_named(self.bits, other.bits);
        }
        self.bits = self.bits & !other.bits;
    }

    /// Toggles the specified flags in-place.
    pub fn toggle(&mut self, other: Mods)
        ensures
            final(self).bits() == old(self).bits() ^ other.bits(),
    {
        proof {
            use_type_invariant(&*self);
            use_type_invariant(&other);
            lemma_named(self.bits, other.bits);
        }
        self.bits = self.bits ^ other.bits;
    }

    /// Inserts or removes the specified flags depending on the passed value.
    pub fn set(&mut self, other: Mods, value: bool)
        ensures
            final(self).bits() == if value {
                old(self).bits() | other.bits()
            } else {
                old(self).bits() & !other.bits()
            },
    {
        if value {
            self.insert(other);
        } else {
            self.remove(other);
        }
    }

    /// Returns the intersection between the flags in `self` and `other`.
    #[must_use]
    pub fn intersection(self, other: Mods) -> (r: Mods)
        ensures
            r.bits() == self.bits() & other.bits(),
    {
        proof {
            use_type_invariant(&self);
            use_type_invariant(&other);
            lemma_named(self.bits, other.bits);
        }
        Mods { bits: self.bits & other.bits }
    }

    /// Returns the union of between the flags in `self` and `other`.
    #[must_use]
    pub fn union(self, other: Mods) -> (r: Mods)
        ensures
            r.bits() == self.bits() | other.bits(),
    {
        proof {
            use_type_invariant(&self);
            use_type_invariant(&other);
            lemma_named(self.bits, other.bits);
        }
        Mods { bits: self.bits | other.bits }
    }

    /// Returns the difference between the flags in `self` and `other`.
    #[must_use]
    pub fn difference(self, other: Mods) -> (r: Mods)
        ensures
            r.bits() == self.bits() & !other.bits(),
    {
        proof {
            use_type_invariant(&self);
            use_type_invariant(&other);
            lemma_named(self.bits, other.bits);
        }
        Mods { bits: self.bits & !other.bits }
    }

    /// Returns the symmetric difference between the flags in `self` and
    /// `other`: the flags that are in exactly one of the two.
    #[must_use]
    pub fn symmetric_difference(self, other: Mods) -> (r: Mods)
        ensures
            r.bits() == self.bits() ^ other.bits(),
    {
        proof {
            use_type_invariant(&self);
            use_type_invariant(&other);
            lemma_named(self.bits, other.bits);
        }
        Mods { bits: self.bits ^ other.bits }
    }

    /// Returns the complement of this set of flags: all the flags with a
    /// name that are not in it.
    #[must_use]
    pub fn complement(self) -> (r: Mods)
        ensures
            r.bits() == !self.bits() & Self::ALL,
    {
        Self::from_bits_truncate(!self.bits)
    }
}

impl core::ops::BitOr for Mods {
    type Output = Mods;

    /// Returns the union of the two sets of flags.
    fn bitor(self, other: Mods) -> (r: Mods)
        ensures
            r.bits() == self.bits() | other.bits(),
    {
        self.union(other)
    }
}

impl BitOrSpecImpl for Mods {
    open spec fn obeys_bitor_spec() -> bool {
        true
    }

    open spec fn bitor_req(self, other: Mods) -> bool {
        true
    }

    closed spec fn bitor_spec(self, other: Mods) -> Mods {
        Mods { bits: self.bits | other.bits }
    }
}

impl core::ops::BitAnd for Mods {
    type Output = Mods;

    /// Returns the intersection between the two sets of flags.
    fn bitand(self, other: Mods) -> (r: Mods)
        ensures
            r.bits() == self.bits() & other.bits(),
    {
        self.intersection(other)
    }
}

impl BitAndSpecImpl for Mods {
    open spec fn obeys_bitand_spec() -> bool {
        true
    }

    open spec fn bitand_req(self, other: Mods) -> bool {
        true
    }

    closed spec fn bitand_spec(self, other: Mods) -> Mods {
        Mods { bits: self.bits & other.bits }
    }
}

impl core::ops::BitXor for Mods {
    type Output = Mods;

    /// Returns the left flags, but with all the right flags toggled.
    fn bitxor(self, other: Mods) -> (r: Mods)
        ensures
            r.bits() == self.bits() ^ other.bits(),
    {
        self.symmetric_difference(other)
    }
}

impl BitXorSpecImpl for Mods {
    open spec fn obeys_bitxor_spec() -> bool {
        true
    }

    open spec fn bitxor_req(self, other: Mods) -> bool {
        true
    }

    closed spec fn bitxor_spec(self, other: Mods) -> Mods {
        Mods { bits: self.bits ^ other.bits }
    }
}

impl core::ops::Sub for Mods {
    type Output = Mods;

    /// Returns the set difference of the two sets of flags.
    fn sub(self, other: Mods) -> (r: Mods)
        ensures
            r.bits() == self.bits() & !other.bits(),
    {
        self.difference(other)
    }
}

impl SubSpecImpl for Mods {
    open spec fn obeys_sub_spec() -> bool {
        true
    }

    open spec fn sub_req(self, other: Mods) -> bool {
        true
    }

    closed spec fn sub_spec(self, other: Mods) -> Mods {
        Mods { bits: self.bits & !other.bits }
    }
}

impl core::ops::Not for Mods {
    type Output = Mods;

    /// Returns the complement of this set of flags.
    fn not(self) -> (r: Mods)
        ensures
            r.bits() == !self.bits() & Mods::ALL,
    {
        self.complement()
    }
}

impl NotSpecImpl for Mods {
    open spec fn obeys_not_spec() -> bool {
        true
    }

    open spec fn not_req(self) -> bool {
        true
    }

    closed spec fn not_spec(self) -> Mods {
        Mods { bits: !self.bits & Mods::ALL }
    }
}

impl Default for Mods {
    /// The empty set.
    fn default() -> (r: Mods)
        ensures
            r.bits() == 0,
    {
        Mods::empty()
    }
}

/// Flags with a name stay flags with a name under the set operations.
proof fn lemma_named(a: c_int, b: c_int)
    by (bit_vector)
    requires
        0 <= a <= 0x3FFF_FFFFi32,
        0 <= b <= 0x3FFF_FFFFi32,
    ensures
        0 <= a | b <= 0x3FFF_FFFFi32,
        0 <= a & b <= 0x3FFF_FFFFi32,
        0 <= a & !b <= 0x3FFF_FFFFi32,
        0 <= a ^ b <= 0x3FFF_FFFFi32,
{
}

/// Only the set of all flags takes in all flags without growing.
proof fn lemma_all(a: c_int)
    by (bit_vector)
    requires
        0 <= a <= 0x3FFF_FFFFi32,
    ensures
        (0x3FFF_FFFFi32 | a == a) <==> a == 0x3FFF_FFFFi32,
{
}

/// The flags have one bit each, from the lowest on, and [`Mods::ALL`] is
/// all of them.
pub proof fn lemma_all_flags()
    by (bit_vector)
    ensures
        Mods::ALL == Mods::NF | Mods::EZ | Mods::TD | Mods::HD | Mods::HR | Mods::SD | Mods::DT
            | Mods::RX | Mods::HT | Mods::NC | Mods::FL | Mods::AT | Mods::SO | Mods::AP
            | Mods::PF | Mods::KEY4 | Mods::KEY5 | Mods::KEY6 | Mods::KEY7 | Mods::KEY8
            | Mods::FADEIN | Mods::RANDOM | Mods::CINEMA | Mods::TARGET | Mods::KEY9
            | Mods::KEYCOOP | Mods::KEY1 | Mods::KEY3 | Mods::KEY2 | Mods::SCOREV2,
{
}

/// The composite flags are nothing of their own: each is in a set where one
/// of the flags that it is made of is. So a set with double time in it
/// changes the speed, and changes the map.
pub proof fn lemma_composites(mods: Mods)
    ensures
        mods.has(Mods::TOUCH_DEVICE) == mods.has(Mods::TD),
        mods.has(Mods::NOVIDEO) == mods.has(Mods::TD),
        mods.has(Mods::SPEED_CHANGING) == (mods.has(Mods::DT) || mods.has(Mods::HT) || mods.has(
            Mods::NC,
        )),
        mods.has(Mods::MAP_CHANGING) == (mods.has(Mods::HR) || mods.has(Mods::EZ) || mods.has(
            Mods::SPEED_CHANGING,
        )),
        mods.has_all(Mods::DT) ==> mods.has(Mods::SPEED_CHANGING) && mods.has(Mods::MAP_CHANGING),
{
    let bits = mods.bits();
    assert((bits & Mods::SPEED_CHANGING != 0) == ((bits & Mods::DT != 0) || (bits & Mods::HT != 0)
        || (bits & Mods::NC != 0))) by (bit_vector);
    assert((bits & Mods::MAP_CHANGING != 0) == ((bits & Mods::HR != 0) || (bits & Mods::EZ != 0)
        || (bits & Mods::SPEED_CHANGING != 0))) by (bit_vector);
    assert((bits & Mods::DT == Mods::DT) ==> (bits & Mods::DT != 0)) by (bit_vector);
}

} // verus!

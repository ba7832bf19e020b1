//! Calculation options and their composition into the single bitmask the
//! foreign surface expects.
//!
//! Every option occupies its own bit, except `AstrometricPos`, which the
//! foreign surface itself defines as the combination of
//! `NoGravDeflection` and `NoAnnualAbberation`. Options combine with
//! bitwise OR, so composing a collection of flags is insensitive to order
//! and to duplicates; `lemma_mask_set_determined` states that law.

use vstd::prelude::*;

verus! {

/// One independently selectable calculation option.
#[derive(Copy, Clone, PartialEq, Eq, Structural, Debug)]
pub enum Flag {
    JPLEphemeris,
    SwissEphemeris,
    MoshierEphemeris,
    HeliocentricPos,
    TruePos,
    NoPrecession,
    NoNutation,
    HighPrecSpeed,
    NoGravDeflection,
    NoAnnualAbberation,
    AstrometricPos,
    EquatorialPos,
    CartesianCoords,
    Radians,
    BarycentricPos,
    TopocentricPos,
    Sideral,
    ICRS,
    JPLHorizons,
    JPLHorizonsApprox,
    CenterOfBody,
}

/// The bit pattern the foreign surface assigns to each option.
pub open spec fn flag_bits(f: Flag) -> u32 {
    match f {
        Flag::JPLEphemeris => 1u32,
        Flag::SwissEphemeris => 2u32,
        Flag::MoshierEphemeris => 4u32,
        Flag::HeliocentricPos => 8u32,
        Flag::TruePos => 16u32,
        Flag::NoPrecession => 32u32,
        Flag::NoNutation => 64u32,
        Flag::HighPrecSpeed => 256u32,
        Flag::NoGravDeflection => 512u32,
        Flag::NoAnnualAbberation => 1024u32,
        Flag::AstrometricPos => 1536u32,
        Flag::EquatorialPos => 2048u32,
        Flag::CartesianCoords => 4096u32,
        Flag::Radians => 8192u32,
        Flag::BarycentricPos => 16384u32,
        Flag::TopocentricPos => 32768u32,
        Flag::Sideral => 65536u32,
        Flag::ICRS => 131072u32,
        Flag::JPLHorizons => 262144u32,
        Flag::JPLHorizonsApprox => 524288u32,
        Flag::CenterOfBody => 1048576u32,
    }
}

impl Flag {
    /// The bit pattern of this option, as executable code.
    pub fn bits(&self) -> (r: u32)
        ensures
            r == flag_bits(*self),
    {
        match self {
            Flag::JPLEphemeris => 1,
            Flag::SwissEphemeris => 2,
            Flag::MoshierEphemeris => 4,
            Flag::HeliocentricPos => 8,
            Flag::TruePos => 16,
            Flag::NoPrecession => 32,
            Flag::NoNutation => 64,
            Flag::HighPrecSpeed => 256,
            Flag::NoGravDeflection => 512,
            Flag::NoAnnualAbberation => 1024,
            Flag::AstrometricPos => 1536,
            Flag::EquatorialPos => 2048,
            Flag::CartesianCoords => 4096,
            Flag::Radians => 8192,
            Flag::BarycentricPos => 16384,
            Flag::TopocentricPos => 32768,
            Flag::Sideral => 65536,
            Flag::ICRS => 131072,
            Flag::JPLHorizons => 262144,
            Flag::JPLHorizonsApprox => 524288,
            Flag::CenterOfBody => 1048576,
        }
    }
}

/// The bitmask a sequence of flags composes to: the bitwise OR of every
/// flag's bit pattern, with the empty sequence composing to zero.
pub open spec fn mask_of(s: Seq<Flag>) -> u32
    decreases s.len(),
{
    if s.len() == 0 {
        0u32
    } else {
        mask_of(s.drop_last()) | flag_bits(s.last())
    }
}

/// Combine a collection of options into the single bitmask the foreign
/// surface takes. Order and duplicates are irrelevant (see
/// `lemma_mask_set_determined`).
pub fn compose_flags(flags: &[Flag]) -> (r: u32)
    ensures
        r == mask_of(flags@),
{
    let mut acc: u32 = 0;
    let mut i: usize = 0;
    while i < flags.len()
        invariant
            i <= flags@.len(),
            acc == mask_of(flags@.subrange(0, i as int)),
        decreases flags@.len() - i,
    {
        proof {
            assert(flags@.subrange(0, i + 1).drop_last() =~= flags@.subrange(0, i as int));
            assert(flags@.subrange(0, i + 1).last() == flags@[i as int]);
        }
        acc = acc | flags[i].bits();
        i = i + 1;
    }
    proof {
        assert(flags@.subrange(0, flags@.len() as int) =~= flags@);
    }
    acc
}

/// A flag already present in a collection contributes nothing new to its
/// mask: OR is idempotent.
pub proof fn lemma_mask_absorb(s: Seq<Flag>, f: Flag)
    requires
        s.contains(f),
    ensures
        mask_of(s) | flag_bits(f) == mask_of(s),
    decreases s.len(),
{
    let m = mask_of(s.drop_last());
    let b = flag_bits(s.last());
    let c = flag_bits(f);
    if s.last() == f {
        assert((m | c) | c == m | c) by (bit_vector);
    } else {
        let i = choose|i: int| 0 <= i < s.len() && s[i] == f;
        assert(s.drop_last()[i] == f);
        assert(s.drop_last().contains(f));
        lemma_mask_absorb(s.drop_last(), f);
        assert(m | c == m);
        assert((m | b) | c == (m | c) | b) by (bit_vector);
    }
}

/// Every flag of `s1` is already in `s2`: then `s1` adds nothing to the
/// mask of `s2`.
pub proof fn lemma_mask_subset(s1: Seq<Flag>, s2: Seq<Flag>)
    requires
        forall|f: Flag| s1.contains(f) ==> s2.contains(f),
    ensures
        mask_of(s2) | mask_of(s1) == mask_of(s2),
    decreases s1.len(),
{
    let m2 = mask_of(s2);
    if s1.len() == 0 {
        assert(m2 | 0u32 == m2) by (bit_vector);
    } else {
        let dl = s1.drop_last();
        let lf = s1.last();
        assert forall|f: Flag| dl.contains(f) implies s2.contains(f) by {
            let i = choose|i: int| 0 <= i < dl.len() && dl[i] == f;
            assert(s1[i] == f);
            assert(s1.contains(f));
        }
        lemma_mask_subset(dl, s2);
        assert(s1[s1.len() - 1] == lf);
        assert(s1.contains(lf));
        lemma_mask_absorb(s2, lf);
        let md = mask_of(dl);
        let b = flag_bits(lf);
        assert(m2 | (md | b) == (m2 | md) | b) by (bit_vector);
    }
}

/// Law: the composed bitmask is determined by the set of flags alone.
/// Composition is therefore commutative and idempotent: `{A, B}`, `{B, A}`
/// and `{A, A, B}` all compose to one and the same mask, whatever flags of
/// the defined set they hold.
pub proof fn lemma_mask_set_determined(s1: Seq<Flag>, s2: Seq<Flag>)
    requires
        forall|f: Flag| s1.contains(f) <==> s2.contains(f),
    ensures
        mask_of(s1) == mask_of(s2),
{
    lemma_mask_subset(s1, s2);
    lemma_mask_subset(s2, s1);
    let m1 = mask_of(s1);
    let m2 = mask_of(s2);
    assert(m1 | m2 == m2 | m1) by (bit_vector);
}

/// Whether a mask is a single set bit: one of the 20 single-bit option
/// patterns of the defined set.
pub open spec fn is_single_bit_pattern(x: u32) -> bool {
    x == 1 || x == 2 || x == 4 || x == 8 || x == 16 || x == 32 || x == 64 || x == 256 || x == 512
        || x == 1024 || x == 2048 || x == 4096 || x == 8192 || x == 16384 || x == 32768
        || x == 65536 || x == 131072 || x == 262144 || x == 524288 || x == 1048576
}

/// Law: the hand-maintained bit assignment is sound. Distinct flags have
/// distinct patterns; every flag but `AstrometricPos` holds a single bit of
/// its own, so no two overlap; and `AstrometricPos` is exactly the
/// combination of `NoGravDeflection` and `NoAnnualAbberation` that the
/// foreign surface defines it as.
pub proof fn lemma_flag_bits_unique()
    ensures
        forall|f: Flag, g: Flag| f != g ==> flag_bits(f) != flag_bits(g),
        forall|f: Flag, g: Flag|
            f != g && f != Flag::AstrometricPos && g != Flag::AstrometricPos ==> flag_bits(f)
                & flag_bits(g) == 0,
        flag_bits(Flag::AstrometricPos) == flag_bits(Flag::NoGravDeflection) | flag_bits(
            Flag::NoAnnualAbberation,
        ),
{
    assert(512u32 | 1024u32 == 1536u32) by (bit_vector);
    assert forall|f: Flag, g: Flag|
        f != g && f != Flag::AstrometricPos && g != Flag::AstrometricPos implies flag_bits(f)
        & flag_bits(g) == 0 by {
        let x = flag_bits(f);
        let y = flag_bits(g);
        assert(is_single_bit_pattern(x));
        assert(is_single_bit_pattern(y));
        assert(x != y);
        lemma_single_bits_disjoint(x, y);
    }
}

/// Two distinct single-bit patterns share no bit.
proof fn lemma_single_bits_disjoint(x: u32, y: u32)
    requires
        is_single_bit_pattern(x),
        is_single_bit_pattern(y),
        x != y,
    ensures
        x & y == 0,
{
    assert((x == 1 || x == 2 || x == 4 || x == 8 || x == 16 || x == 32 || x == 64 || x == 256
        || x == 512 || x == 1024 || x == 2048 || x == 4096 || x == 8192 || x == 16384
        || x == 32768 || x == 65536 || x == 131072 || x == 262144 || x == 524288 || x == 1048576)
        && (y == 1 || y == 2 || y == 4 || y == 8 || y == 16 || y == 32 || y == 64 || y == 256
        || y == 512 || y == 1024 || y == 2048 || y == 4096 || y == 8192 || y == 16384
        || y == 32768 || y == 65536 || y == 131072 || y == 262144 || y == 524288 || y == 1048576)
        && x != y ==> x & y == 0) by (bit_vector);
}

} // verus!

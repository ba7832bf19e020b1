use libswe::flag::{compose_flags, Flag};

#[test]
fn single_flags_compose_to_their_bits() {
    assert_eq!(compose_flags(&[]), 0);
    assert_eq!(compose_flags(&[Flag::JPLEphemeris]), 1);
    assert_eq!(compose_flags(&[Flag::SwissEphemeris]), 2);
    assert_eq!(compose_flags(&[Flag::MoshierEphemeris]), 4);
    assert_eq!(compose_flags(&[Flag::HeliocentricPos]), 8);
    assert_eq!(compose_flags(&[Flag::TruePos]), 16);
    assert_eq!(compose_flags(&[Flag::NoPrecession]), 32);
    assert_eq!(compose_flags(&[Flag::NoNutation]), 64);
    assert_eq!(compose_flags(&[Flag::HighPrecSpeed]), 256);
    assert_eq!(compose_flags(&[Flag::NoGravDeflection]), 512);
    assert_eq!(compose_flags(&[Flag::NoAnnualAbberation]), 1024);
    assert_eq!(compose_flags(&[Flag::AstrometricPos]), 1536);
    assert_eq!(compose_flags(&[Flag::EquatorialPos]), 2048);
    assert_eq!(compose_flags(&[Flag::CartesianCoords]), 4096);
    assert_eq!(compose_flags(&[Flag::Radians]), 8192);
    assert_eq!(compose_flags(&[Flag::BarycentricPos]), 16384);
    assert_eq!(compose_flags(&[Flag::TopocentricPos]), 32 * 1024);
    assert_eq!(compose_flags(&[Flag::Sideral]), 64 * 1024);
    assert_eq!(compose_flags(&[Flag::ICRS]), 128 * 1024);
    assert_eq!(compose_flags(&[Flag::JPLHorizons]), 256 * 1024);
    assert_eq!(compose_flags(&[Flag::JPLHorizonsApprox]), 512 * 1024);
    assert_eq!(compose_flags(&[Flag::CenterOfBody]), 1024 * 1024);
}

#[test]
fn composition_is_commutative() {
    let ab = compose_flags(&[Flag::SwissEphemeris, Flag::HighPrecSpeed]);
    let ba = compose_flags(&[Flag::HighPrecSpeed, Flag::SwissEphemeris]);
    assert_eq!(ab, ba);
    assert_eq!(ab, 258);

    let many = compose_flags(&[Flag::Radians, Flag::TruePos, Flag::NoNutation]);
    let many_rev = compose_flags(&[Flag::NoNutation, Flag::Radians, Flag::TruePos]);
    assert_eq!(many, many_rev);
    assert_eq!(many, 8192 + 16 + 64);
}

#[test]
fn composition_is_idempotent() {
    let ab = compose_flags(&[Flag::SwissEphemeris, Flag::HighPrecSpeed]);
    let aab = compose_flags(&[Flag::SwissEphemeris, Flag::SwissEphemeris, Flag::HighPrecSpeed]);
    assert_eq!(ab, aab);
}

#[test]
fn astrometric_is_the_defined_combination() {
    let combined = compose_flags(&[Flag::NoGravDeflection, Flag::NoAnnualAbberation]);
    assert_eq!(combined, compose_flags(&[Flag::AstrometricPos]));
}

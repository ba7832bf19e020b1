use libswe::body::Body;
use libswe::calc::{interpret_calc, prepare_calc};
use libswe::flag::Flag;
use libswe::lifecycle::Ephemeris;

fn buffer_with(message: &[u8]) -> [u8; 256] {
    let mut buf = [0u8; 256];
    buf[..message.len()].copy_from_slice(message);
    buf
}

#[test]
fn success_populates_the_six_fields_and_no_diagnostic() {
    let values: [u64; 6] = [
        (217.5_f64).to_bits(),
        (-1.2_f64).to_bits(),
        (0.99_f64).to_bits(),
        (1.01_f64).to_bits(),
        (0.0_f64).to_bits(),
        (-0.003_f64).to_bits(),
    ];
    // whatever stale text sits in the buffer, success carries no diagnostic
    let buf = buffer_with(b"stale text from an earlier call");
    let r = interpret_calc(2, &values, &buf).expect("success must yield a result");
    assert_eq!(r.code, 2);
    assert_eq!(f64::from_bits(r.lng), 217.5);
    assert_eq!(f64::from_bits(r.lat), -1.2);
    assert_eq!(f64::from_bits(r.dist), 0.99);
    assert_eq!(f64::from_bits(r.lng_speed), 1.01);
    assert_eq!(f64::from_bits(r.lat_speed), 0.0);
    assert_eq!(f64::from_bits(r.dist_speed), -0.003);
    assert!(r.error.is_empty());
}

#[test]
fn failure_carries_the_diagnostic_and_hides_the_fields() {
    let values: [u64; 6] = [(99.0_f64).to_bits(); 6];
    let buf = buffer_with(b"SwissEph file 'sepl_18.se1' not found");
    let r = interpret_calc(-1, &values, &buf).expect("a legal diagnostic must decode");
    assert_eq!(r.code, -1);
    assert_eq!(r.error, "SwissEph file 'sepl_18.se1' not found");
    assert!(!r.error.is_empty());
    assert_eq!(r.lng, 0);
    assert_eq!(r.lat, 0);
    assert_eq!(r.dist, 0);
    assert_eq!(r.lng_speed, 0);
    assert_eq!(r.lat_speed, 0);
    assert_eq!(r.dist_speed, 0);
}

#[test]
fn failure_with_illegal_diagnostic_is_reported() {
    let values: [u64; 6] = [0; 6];
    let buf = buffer_with(&[0xFF, 0xFE, 0x41]);
    assert!(interpret_calc(-1, &values, &buf).is_none());
}

#[test]
fn prepare_composes_body_and_flags() {
    let mut g = Ephemeris::new();
    g.set_ephe_path(None, false, false);
    let (id, mask) = prepare_calc(&g, Body::Moon, &[Flag::SwissEphemeris, Flag::HighPrecSpeed]);
    assert_eq!(id, 1);
    assert_eq!(mask, 258);
}

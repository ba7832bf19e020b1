use libswe::body::Body;
use libswe::calc::interpret_calc;
use libswe::flag::Flag;
use libswe::time::{julday_moment, UtcMoment};

/// The classic smoke walk: the day-count for 1991-10-13 20:00 UT, then a
/// sweep over the bodies from the Sun up to (not including) Chiron,
/// skipping the Earth, printing one line per body.
#[test]
fn it_works() {
    let tropical: Vec<Flag> = Vec::new();
    let iflag = libswe::flag::compose_flags(&tropical);
    assert_eq!(iflag, 0);

    let moment = UtcMoment { year: 1991, month: 10, day: 13, hour: 20 };
    let julian_day_ut = julday_moment(moment);
    assert_eq!(julian_day_ut.whole, 2448543);
    let jd = julian_day_ut.whole as f64 - 0.5 + julian_day_ut.hour as f64 / 24.0;
    assert!((jd - 2448543.3333333335).abs() < 1e-9);

    let _name: [u8; 64] = [0; 64];
    let coordinates: [u64; 6] = [0; 6];
    let error_message: [u8; 256] = [0; 256];
    println!("Planet\tlon\tlat\tdist");
    let mut visited = 0;
    for body in libswe::body::bodies_between(Body::Sun, Body::Chiron) {
        assert!(body != Body::Earth);
        // the native surface is not linked here: interpret a nominal outcome
        let return_flag: i32 = 0;
        let result = interpret_calc(return_flag, &coordinates, &error_message)
            .expect("a legal diagnostic buffer must decode");
        if result.code < 0 {
            println!("Error: {}", result.error);
        } else {
            println!(
                "{}\t{}\t{}\t{}",
                body.id(),
                f64::from_bits(result.lng),
                f64::from_bits(result.lat),
                f64::from_bits(result.dist)
            );
        }
        visited += 1;
    }
    assert_eq!(visited, 14);
}

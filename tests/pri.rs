use squealog::pri::{compose_pri, decode_pri};

#[test]
fn pri_decodes_facility_and_severity() {
    assert_eq!(decode_pri(11), Some((1, 3)));
    assert_eq!(decode_pri(0), Some((0, 0)));
    assert_eq!(decode_pri(191), Some((23, 7)));
    assert_eq!(decode_pri(165), Some((20, 5)));
}

#[test]
fn pri_out_of_range() {
    assert_eq!(decode_pri(192), None);
    assert_eq!(decode_pri(255), None);
    assert_eq!(decode_pri(1000), None);
}

#[test]
fn pri_round_trip() {
    for f in 0u8..=23 {
        for s in 0u8..=7 {
            let p = compose_pri(f, s);
            assert_eq!(p, f as u64 * 8 + s as u64);
            assert_eq!(decode_pri(p), Some((f, s)));
        }
    }
}

use hdr_merge::luma::average_luma;
use hdr_merge::raster::Raster;

#[test]
fn black_raster_has_zero_luma() {
    let l = average_luma(&Raster::from_raw(2, 2, vec![0; 12]).unwrap());
    assert_eq!(l.numerator, 0);
    assert!(l.denominator > 0);
}

#[test]
fn white_raster_has_unit_luma() {
    let l = average_luma(&Raster::from_raw(3, 1, vec![65535; 9]).unwrap());
    assert_eq!(l.numerator, l.denominator);
    assert_eq!(l.denominator, 3 * 10000 * 65535);
    let ratio = l.numerator as f64 / l.denominator as f64;
    assert!((ratio - 1.0).abs() < 1e-9);
}

#[test]
fn empty_raster_has_zero_luma() {
    let l = average_luma(&Raster::from_raw(0, 5, vec![]).unwrap());
    assert_eq!((l.numerator, l.denominator), (0, 1));
}

#[test]
fn luma_weights_channels() {
    let r = Raster::from_raw(2, 1, vec![65535, 0, 0, 0, 65535, 0]).unwrap();
    let l = average_luma(&r);
    assert_eq!(l.numerator, (2126 + 7152) * 65535);
    assert_eq!(l.denominator, 2 * 10000 * 65535);
    let ratio = l.numerator as f64 / l.denominator as f64;
    assert!((ratio - 0.4639).abs() < 1e-9);
}

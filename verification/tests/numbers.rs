use simple_tqdm::scale::Scale;
use simple_tqdm::text::{integer_text, natural_text, pad_start};

#[test]
fn numerals_of_naturals() {
    assert_eq!(natural_text(0), "0");
    assert_eq!(natural_text(7), "7");
    assert_eq!(natural_text(10), "10");
    assert_eq!(natural_text(1234567890), "1234567890");
    assert_eq!(natural_text(u128::MAX), u128::MAX.to_string());
}

#[test]
fn numerals_of_integers() {
    assert_eq!(integer_text(0), "0");
    assert_eq!(integer_text(-1), "-1");
    assert_eq!(integer_text(-250), "-250");
    assert_eq!(integer_text(i128::MAX), i128::MAX.to_string());
    assert_eq!(integer_text(i128::MIN), i128::MIN.to_string());
}

#[test]
fn padding_fills_up_to_the_width() {
    assert_eq!(pad_start("7", 3, " "), "  7");
    assert_eq!(pad_start("33", 3, " "), " 33");
    assert_eq!(pad_start("100", 3, " "), "100");
    assert_eq!(pad_start("1000", 3, " "), "1000");
    assert_eq!(pad_start("", 2, "0"), "00");
    assert_eq!(pad_start("5", 2, "0"), "05");
    assert_eq!(pad_start("é", 3, "*"), "**é");
    assert_eq!(pad_start("x", 0, " "), "x");
}

#[test]
fn integer_scale_times_count() {
    assert_eq!(Scale::Integer(1).times(250), Some(250));
    assert_eq!(Scale::Integer(3).times(7), Some(21));
    assert_eq!(Scale::Integer(0).times(u64::MAX), Some(0));
    assert_eq!(Scale::Integer(-2).times(5), Some(-10));
    assert_eq!(
        Scale::Integer(i64::MAX).times(u64::MAX),
        Some(i64::MAX as i128 * u64::MAX as i128)
    );
    assert_eq!(
        Scale::Integer(i64::MIN).times(u64::MAX),
        Some(i64::MIN as i128 * u64::MAX as i128)
    );
}

#[test]
fn integer_scale_shows_no_decimal_point() {
    assert_eq!(Scale::Integer(1).count_text(250), Some("250".to_string()));
    assert_eq!(Scale::Integer(2).count_text(125), Some("250".to_string()));
    assert_eq!(Scale::Integer(-4).count_text(25), Some("-100".to_string()));
    let text = Scale::Integer(i64::MIN).count_text(u64::MAX).unwrap();
    assert_eq!(text, (i64::MIN as i128 * u64::MAX as i128).to_string());
    assert!(!text.contains('.'));
}

#[test]
fn a_double_is_not_multiplied_here() {
    let half = Scale::Float(0.5f64.to_bits());
    assert_eq!(half.times(250), None);
    assert_eq!(half.count_text(250), None);
    assert_eq!(half, Scale::Float(0x3fe0_0000_0000_0000));
}

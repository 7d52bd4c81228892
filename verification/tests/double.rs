use niri_screencast::double::{number_eq, numbers_eq};

#[test]
fn doubles_are_compared_as_numbers() {
    let values = [
        0.,
        -0.,
        1.5,
        -1.5,
        f64::MIN_POSITIVE,
        5e-324,
        f64::MAX,
        f64::INFINITY,
        f64::NEG_INFINITY,
        f64::NAN,
        -f64::NAN,
    ];
    for a in values {
        for b in values {
            assert_eq!(number_eq(a.to_bits(), b.to_bits()), a == b);
        }
    }
}

#[test]
fn lists_of_doubles_are_compared_in_order() {
    let bits = |values: &[f64]| values.iter().map(|value| value.to_bits()).collect();
    let list: Vec<u64> = bits(&[1., 0.]);
    assert!(numbers_eq(&list, &bits(&[1., -0.])));
    assert!(!numbers_eq(&list, &bits(&[0., 1.])));
    assert!(!numbers_eq(&list, &bits(&[1.])));
    let none: Vec<u64> = bits(&[f64::NAN]);
    assert!(!numbers_eq(&none, &none));
}

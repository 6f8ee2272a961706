use notesponge::decimal::{i64_to_decimal, push_decimal, push_decimal_nat};

#[test]
fn decimal_of_small_numbers() {
    assert_eq!(i64_to_decimal(0), "0");
    assert_eq!(i64_to_decimal(9), "9");
    assert_eq!(i64_to_decimal(10), "10");
    assert_eq!(i64_to_decimal(-1), "-1");
    assert_eq!(i64_to_decimal(1205), "1205");
}

#[test]
fn decimal_agrees_with_the_standard_library() {
    let samples: [i64; 9] = [
        0,
        1,
        -1,
        99,
        100,
        -100,
        i64::MAX,
        i64::MIN,
        -9_007_199_254_740_993,
    ];
    for sample in samples {
        assert_eq!(i64_to_decimal(sample), sample.to_string());
    }
}

#[test]
fn decimal_is_appended_to_what_is_there() {
    let mut text = String::from("id=");
    push_decimal(&mut text, -42);
    assert_eq!(text, "id=-42");
    push_decimal_nat(&mut text, u64::MAX);
    assert_eq!(text, "id=-4218446744073709551615");
}

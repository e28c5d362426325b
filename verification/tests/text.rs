use faceit::text::{join, to_decimal};

#[test]
fn decimal_of_small_numbers() {
    assert_eq!(to_decimal(0), "0");
    assert_eq!(to_decimal(7), "7");
    assert_eq!(to_decimal(10), "10");
    assert_eq!(to_decimal(20), "20");
    assert_eq!(to_decimal(-1), "-1");
    assert_eq!(to_decimal(-100), "-100");
}

#[test]
fn decimal_has_no_separators_or_exponent() {
    assert_eq!(to_decimal(1234567), "1234567");
    assert_eq!(to_decimal(1000000000000), "1000000000000");
    assert_eq!(to_decimal(1700000000), "1700000000");
}

#[test]
fn decimal_of_the_extremes() {
    assert_eq!(to_decimal(i64::MAX), "9223372036854775807");
    assert_eq!(to_decimal(i64::MIN), "-9223372036854775808");
    assert_eq!(to_decimal(i64::MIN + 1), "-9223372036854775807");
}

#[test]
fn decimal_agrees_with_the_standard_rendering() {
    let samples: [i64; 12] =
        [0, 1, -1, 9, 10, 11, 99, 100, 101, -999, 4294967296, -4294967297];
    for n in samples {
        assert_eq!(to_decimal(n), n.to_string());
        assert_eq!(to_decimal(n).parse::<i64>().unwrap(), n);
    }
}

#[test]
fn join_puts_the_separator_between_neighbours() {
    assert_eq!(join(&[], ","), "");
    assert_eq!(join(&["a"], ","), "a");
    assert_eq!(join(&["a", "b"], ","), "a,b");
    assert_eq!(join(&["organizer", "game"], ","), "organizer,game");
    assert_eq!(join(&["a", "", "c"], ", "), "a, , c");
    assert_eq!(join(&["", ""], ","), ",");
}

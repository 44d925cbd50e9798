use fbas_graph::text::append_decimal;

fn numeral(n: usize) -> String {
    let mut out = String::new();
    append_decimal(&mut out, n);
    out
}

#[test]
fn numerals_of_one_digit() {
    assert_eq!(numeral(0), "0");
    assert_eq!(numeral(7), "7");
    assert_eq!(numeral(9), "9");
}

#[test]
fn numerals_of_several_digits() {
    assert_eq!(numeral(10), "10");
    assert_eq!(numeral(101), "101");
    assert_eq!(numeral(12345), "12345");
    assert_eq!(numeral(usize::MAX), usize::MAX.to_string());
}

#[test]
fn numeral_goes_behind_what_is_there() {
    let mut out = String::from("id ");
    append_decimal(&mut out, 42);
    append_decimal(&mut out, 0);
    assert_eq!(out, "id 420");
}

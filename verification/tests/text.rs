use keybroker::text::decimal;

#[test]
fn decimal_of_small_numbers() {
    assert_eq!(decimal(0), "0");
    assert_eq!(decimal(7), "7");
    assert_eq!(decimal(9), "9");
    assert_eq!(decimal(10), "10");
    assert_eq!(decimal(305), "305");
}

#[test]
fn decimal_of_large_numbers() {
    assert_eq!(decimal(4294967295), "4294967295");
    assert_eq!(decimal(1000000), "1000000");
    assert_eq!(decimal(u64::MAX), "18446744073709551615");
}

#[test]
fn decimal_reads_back() {
    for n in [0u64, 1, 9, 10, 99, 100, 12345, 4294967295] {
        assert_eq!(decimal(n).parse::<u64>().unwrap(), n);
    }
}

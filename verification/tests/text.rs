use sienna::mgmt::err_allocation;
use sienna::text::u128_to_string;

#[test]
fn decimal_notation() {
    assert_eq!(u128_to_string(0), "0");
    assert_eq!(u128_to_string(7), "7");
    assert_eq!(u128_to_string(1_234_567_890), "1234567890");
    assert_eq!(u128_to_string(u128::MAX), u128::MAX.to_string());
}

#[test]
fn allocation_error_message() {
    assert_eq!(err_allocation(1000, 999), "allocations added up to 1000 which is over the maximum of 999");
    assert_eq!(err_allocation(0, 0), "allocations added up to 0 which is over the maximum of 0");
}

use grok_modes::fmt::{opt_u64_debug, u64_to_string, usize_to_string};

#[test]
fn decimal_rendering() {
    assert_eq!(u64_to_string(0), "0");
    assert_eq!(u64_to_string(7), "7");
    assert_eq!(u64_to_string(10), "10");
    assert_eq!(u64_to_string(1234567890), "1234567890");
    assert_eq!(u64_to_string(u64::MAX), u64::MAX.to_string());
    assert_eq!(usize_to_string(305), "305");
    assert_eq!(opt_u64_debug(Some(42)), "Some(42)");
    assert_eq!(opt_u64_debug(None), "None");
}

use spearmint::text::{clone_opt, opt_eq, u64_to_string};

#[test]
fn u64_to_string_single_digits() {
    assert_eq!(u64_to_string(0), "0");
    assert_eq!(u64_to_string(7), "7");
    assert_eq!(u64_to_string(9), "9");
}

#[test]
fn u64_to_string_several_digits() {
    assert_eq!(u64_to_string(10), "10");
    assert_eq!(u64_to_string(100), "100");
    assert_eq!(u64_to_string(123456789), "123456789");
    assert_eq!(u64_to_string(1002003), "1002003");
}

#[test]
fn u64_to_string_largest_value() {
    assert_eq!(u64_to_string(u64::MAX), "18446744073709551615");
}

#[test]
fn opt_eq_compares_contents() {
    let a = Some("abc".to_string());
    let b = Some("abc".to_string());
    let c = Some("abd".to_string());
    assert!(opt_eq(&a, &b));
    assert!(!opt_eq(&a, &c));
    assert!(!opt_eq(&a, &None));
    assert!(!opt_eq(&None, &a));
    assert!(opt_eq(&None, &None));
}

#[test]
fn clone_opt_copies() {
    assert_eq!(clone_opt(&Some("x".to_string())), Some("x".to_string()));
    assert_eq!(clone_opt(&None), None);
}

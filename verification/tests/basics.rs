use hunterfi::principal::Principal;
use hunterfi::text::{
    chars_of, decimal_string, join_strings, push_bool, push_debug_str, push_hex, push_icp, push_padded_decimal,
    push_principal, str_less,
};
use hunterfi::types::{StrategyStatus, StrategyType};

#[test]
fn principal_from_slice_keeps_bytes() {
    let p = Principal::from_slice(&[1, 2, 3]);
    assert_eq!(p.as_slice(), vec![1, 2, 3]);
    assert_eq!(p.len(), 3);
    assert!(!p.is_anonymous());
}

#[test]
fn principal_try_from_slice_refuses_long_input() {
    let long = [7u8; 30];
    assert!(Principal::try_from_slice(&long).is_none());
    let max = [7u8; 29];
    let p = Principal::try_from_slice(&max).unwrap();
    assert_eq!(p.as_slice(), max.to_vec());
}

#[test]
fn anonymous_principal_is_byte_four() {
    let a = Principal::anonymous();
    assert_eq!(a.as_slice(), vec![4]);
    assert!(a.is_anonymous());
    assert!(a.equals(&Principal::from_slice(&[4])));
    assert!(!a.equals(&Principal::from_slice(&[4, 0])));
}

#[test]
fn principal_text_matches_candid() {
    let mut s = String::new();
    push_principal(&mut s, &Principal::anonymous());
    assert_eq!(s, "2vxsx-fae");
    let mut t = String::from("id=");
    push_principal(&mut t, &Principal::from_slice(&[1, 2, 3]));
    assert_eq!(t, "id=kw6ia-hibai-bq");
    let mut e = String::new();
    push_principal(&mut e, &Principal::from_slice(&[]));
    assert_eq!(e, "aaaaa-aa");
}

#[test]
fn decimal_and_padded_decimal() {
    assert_eq!(decimal_string(0), "0");
    assert_eq!(decimal_string(1234567890), "1234567890");
    assert_eq!(decimal_string(u128::MAX), "340282366920938463463374607431768211455");
    let mut s = String::new();
    push_padded_decimal(&mut s, 42, 5);
    assert_eq!(s, "00042");
    let mut t = String::new();
    push_padded_decimal(&mut t, 123456, 3);
    assert_eq!(t, "456");
}

#[test]
fn icp_amounts_have_eight_decimals() {
    let mut s = String::new();
    push_icp(&mut s, 150_000_000);
    assert_eq!(s, "1.50000000");
    let mut t = String::new();
    push_icp(&mut t, 1);
    assert_eq!(t, "0.00000001");
    let mut u = String::new();
    push_icp(&mut u, 0);
    assert_eq!(u, "0.00000000");
}

#[test]
fn hex_is_lowercase_two_digits_per_byte() {
    let mut s = String::from("x");
    push_hex(&mut s, &vec![0, 15, 16, 255, 171]);
    assert_eq!(s, "x000f10ffab");
}

#[test]
fn bools_print_as_rust_does() {
    let mut s = String::new();
    push_bool(&mut s, true);
    push_bool(&mut s, false);
    assert_eq!(s, "truefalse");
}

#[test]
fn debug_strings_are_quoted_and_escaped() {
    let mut s = String::new();
    push_debug_str(&mut s, "a\"b\\c\nd\te\u{1}");
    assert_eq!(s, format!("{:?}", "a\"b\\c\nd\te\u{1}"));
    let mut t = String::new();
    push_debug_str(&mut t, "");
    assert_eq!(t, "\"\"");
}

#[test]
fn join_puts_separator_between_parts() {
    let parts = vec!["a".to_string(), "bc".to_string(), "".to_string(), "d".to_string()];
    assert_eq!(join_strings(&parts, ", "), "a, bc, , d");
    assert_eq!(join_strings(&Vec::new(), ", "), "");
    assert_eq!(join_strings(&vec!["only".to_string()], "-"), "only");
}

#[test]
fn chars_and_lexicographic_order() {
    assert_eq!(chars_of("héllo"), vec!['h', 'é', 'l', 'l', 'o']);
    assert!(str_less("abc", "abd"));
    assert!(str_less("ab", "abc"));
    assert!(!str_less("abc", "abc"));
    assert!(!str_less("b", "abc"));
    for (a, b) in [("ryjl3", "xmiu5"), ("aa", "a"), ("", ""), ("", "z"), ("Z", "a")] {
        assert_eq!(str_less(a, b), a < b);
    }
}

#[test]
fn variant_names_match_debug_forms() {
    assert_eq!(StrategyType::DollarCostAveraging.name(), "DollarCostAveraging");
    assert_eq!(StrategyType::SelfHedging.name(), "SelfHedging");
    assert_eq!(StrategyStatus::EmergencyStopped.name(), "EmergencyStopped");
    assert_eq!(StrategyStatus::Running.name(), "Running");
}

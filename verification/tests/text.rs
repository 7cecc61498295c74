use jellium_platform::text::decimal;
use jellium_platform::text::same_text;
use jellium_platform::text::signed_decimal;

#[test]
fn numbers_are_written_in_decimal() {
    assert_eq!(decimal(0), "0");
    assert_eq!(decimal(10), "10");
    assert_eq!(decimal(u32::MAX), "4294967295");
    assert_eq!(signed_decimal(-7), "-7");
    assert_eq!(signed_decimal(i32::MIN), "-2147483648");
    assert_eq!(signed_decimal(i32::MAX), "2147483647");
}

#[test]
fn texts_are_compared_by_content() {
    assert!(same_text("STRING", &String::from("STRING")));
    assert!(!same_text("STRING", "string"));
    assert!(!same_text("", " "));
}

use ani_scheduler::clean_text;
use ani_scheduler::extract_number;

#[test]
fn test_formats() {
    let df = "";
    println!("{:#?}", df);
}

#[test]
fn clean_text_trims_both_ends() {
    assert_eq!(clean_text("  hello  "), "hello");
    assert_eq!(clean_text("\t第12话 \n"), "第12话");
    assert_eq!(clean_text("no-trim"), "no-trim");
    assert_eq!(clean_text("   "), "");
    assert_eq!(clean_text(""), "");
}

#[test]
fn clean_text_keeps_inner_whitespace() {
    assert_eq!(clean_text(" a b "), "a b");
}

#[test]
fn extract_number_takes_the_first_digit_run() {
    assert_eq!(extract_number("更新至第12话"), Some(12));
    assert_eq!(extract_number("abc 007 xyz 9"), Some(7));
    assert_eq!(extract_number("42"), Some(42));
    assert_eq!(extract_number("no digits"), None);
    assert_eq!(extract_number(""), None);
}

#[test]
fn extract_number_rejects_overflow() {
    assert_eq!(extract_number("2147483647 ok"), Some(i32::MAX));
    assert_eq!(extract_number("2147483648 too big"), None);
    assert_eq!(extract_number("99999999999999999999"), None);
}

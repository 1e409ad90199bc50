use telop::models::ass_subtitle::{
    escape_ass_text, format_duration_as_time, StyleType, Subtitle,
};

#[test]
fn test_escape_ass_text() {
    let text = "これはテストです。もう一つの文章です。";
    let modified_text = escape_ass_text(text);
    println!("{}", modified_text);
}

#[test]
fn test_escape_inserts_breaks_and_strips_trailing() {
    // A break follows each mark, and the break left by the final mark is
    // stripped again.
    assert_eq!(escape_ass_text("A。B。"), "A。\nB。");
    assert_eq!(
        escape_ass_text("これはテストです。もう一つの文章です。"),
        "これはテストです。\nもう一つの文章です。"
    );
}

#[test]
fn test_escape_without_mark_is_identity() {
    assert_eq!(escape_ass_text(""), "");
    assert_eq!(escape_ass_text("ABC"), "ABC");
    assert_eq!(escape_ass_text("hello world\n"), "hello world\n");
}

#[test]
fn test_escape_internal_mark_keeps_break() {
    assert_eq!(escape_ass_text("A。B"), "A。\nB");
}

#[test]
fn test_format_duration_zero() {
    assert_eq!(format_duration_as_time(0), "0:00:00.00");
}

#[test]
fn test_format_duration_truncates_centiseconds() {
    // 3723.456 s: one hour, two minutes, three seconds, and the millisecond
    // field truncated (not rounded) to hundredths.
    assert_eq!(format_duration_as_time(3_723_456), "1:02:03.45");
    assert_eq!(format_duration_as_time(999), "0:00:00.99");
    assert_eq!(format_duration_as_time(90), "0:00:00.09");
}

#[test]
fn test_format_duration_wide_hours() {
    assert_eq!(format_duration_as_time(360_000_000), "100:00:00.00");
}

#[test]
fn test_style_type_from_zero_is_default() {
    assert_eq!(StyleType::from(0), StyleType::Default);
    assert_eq!(StyleType::new(), StyleType::Default);
}

#[test]
fn test_style_type_from_wraps_to_default() {
    assert_eq!(StyleType::from(3), StyleType::Blue);
    assert_eq!(StyleType::from(9), StyleType::Gray);
    assert_eq!(StyleType::from(10), StyleType::Default);
    assert_eq!(StyleType::from(4_000_000_000), StyleType::Default);
}

#[test]
fn test_dialogue_line() {
    let sub = Subtitle {
        id: 0,
        start_time: 0,
        end_time: 2_000,
        text: String::from("A。B。"),
        style_name: Some(StyleType::Red),
    };
    assert_eq!(
        sub.to_string(),
        "Dialogue:0,0:00:00.00,0:00:02.00,Red,,0,0,0,,A。\nB。"
    );
}

#[test]
fn test_dialogue_line_without_style_uses_default() {
    let sub = Subtitle {
        id: 5,
        start_time: 61_500,
        end_time: 63_210,
        text: String::from("hi"),
        style_name: None,
    };
    assert_eq!(
        sub.to_string(),
        "Dialogue:0,0:01:01.50,0:01:03.21,Default,,0,0,0,,hi"
    );
}

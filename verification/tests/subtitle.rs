use telop::models::subtitle::{format_duration_as_srt_time, Color, Style, Subtitle};

#[test]
fn test_color_to_string() {
    assert_eq!(Color::Red.to_string(00), "&Hffef9a9a");
    assert_eq!(Color::Green.to_string(00), "&Hffa5d6a7");
    assert_eq!(Color::Blue.to_string(00), "&Hff90caf9");
    assert_eq!(Color::Yellow.to_string(00), "&Hfffff59d");
    assert_eq!(Color::Orange.to_string(00), "&Hffffcc80");
    assert_eq!(Color::Cyan.to_string(255), "&H0080deea");
    assert_eq!(Color::Magenta.to_string(255), "&H00f48fb1");
    assert_eq!(Color::White.to_string(255), "&H00ffffff");
    assert_eq!(Color::Brown.to_string(255), "&H00bcaaa4");
    assert_eq!(Color::Gray.to_string(255), "&H00eeeeee");
    assert_eq!(Color::Black.to_string(255), "&H00000000");
}

#[test]
fn test_to_style() {
    let style = Style {
        font_family: "Arial".to_string(),
        font_size: 24,
        font_color: Color::White,
        font_alpha: 255,
        border_style: 1,
        border_color: Color::Black,
        border_alpha: 255,
        outline_style: 1,
        shadow_style: 1,
        background_color: Color::Black,
        background_alpha: 0,
        x1: 10,
        y1: 10,
        x2: 10,
        y2: 10,
    };

    assert_eq!(
        style.to_style(),
        "Fontname=Arial,Fontsize=24,PrimaryColour=&H00ffffff,BorderStyle=1,BorderColour=&H00000000,Outline=1,Shadow=1,BackColour=&Hff000000,MarginL=10,MarginV=10"
    );
}

#[test]
fn test_format_duration_as_srt_time() {
    assert_eq!(format_duration_as_srt_time(0), "00:00:00,000");
    assert_eq!(format_duration_as_srt_time(3_723_456), "01:02:03,456");
    assert_eq!(format_duration_as_srt_time(360_000_042), "100:00:00,042");
}

#[test]
fn test_srt_entry_rendering() {
    let sub = Subtitle {
        id: 1,
        start_time: 0,
        end_time: 2_000,
        text: String::from("hello"),
        style: None,
    };
    assert_eq!(sub.to_string(), "1\n00:00:00,000 --> 00:00:02,000\nhello\n\n");
}

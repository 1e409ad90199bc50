use telop::models::ass_subtitle::{create_ass_file, Style, StyleType, Subtitle};

#[test]
fn test_build_empty_document_keeps_all_sections() {
    // Zero cues still yield the script-info header, the full style table,
    // and a header-only events section.
    let doc = create_ass_file(&[]);
    assert!(doc.starts_with("[Script Info]\n"));
    assert!(doc.contains("PlayResX: 1280\nPlayResY: 720\n"));
    assert!(doc.contains("[V4+ Styles]\nFormat:Name,"));
    assert!(doc.contains("Style:Default,Arial,48,"));
    assert!(doc.contains("Style:Gray,Arial,48,"));
    assert!(doc.ends_with(
        "[Events]\nFormat:Layer,Start,End,Style,Name,MarginL,MarginR,MarginV,Effect,Text\n"
    ));
}

#[test]
fn test_build_is_deterministic() {
    let make = || {
        vec![
            Subtitle {
                id: 0,
                start_time: 0,
                end_time: 2_000,
                text: String::from("一行目です。"),
                style_name: Some(StyleType::Default),
            },
            Subtitle {
                id: 1,
                start_time: 3_000,
                end_time: 6_000,
                text: String::from("二行目です。"),
                style_name: Some(StyleType::Red),
            },
        ]
    };
    let first = create_ass_file(&make());
    let second = create_ass_file(&make());
    assert_eq!(first, second);
}

#[test]
fn test_build_keeps_cue_order() {
    let subs = vec![
        Subtitle {
            id: 0,
            start_time: 0,
            end_time: 1_000,
            text: String::from("first"),
            style_name: None,
        },
        Subtitle {
            id: 1,
            start_time: 2_000,
            end_time: 3_000,
            text: String::from("second"),
            style_name: Some(StyleType::Green),
        },
    ];
    let doc = create_ass_file(&subs);
    assert!(doc.ends_with(
        "Dialogue:0,0:00:00.00,0:00:01.00,Default,,0,0,0,,first\n\
         Dialogue:0,0:00:02.00,0:00:03.00,Green,,0,0,0,,second\n"
    ));
    let first_at = doc.find("first").unwrap();
    let second_at = doc.find("second").unwrap();
    assert!(first_at < second_at);
}

#[test]
fn test_style_line_rendering() {
    let line = Style::from(0).to_string();
    assert_eq!(
        line,
        "Style:Default,Arial,48,&H00ffffff,&H23000000,&H23000000,&H23000000,\
         0,0,0,0,100,100,0,0,1,2,1,2,20,20,20,1"
    );
    let red = Style::from(1).to_string();
    assert_eq!(
        red,
        "Style:Red,Arial,48,&H00ffffff,&H23000000,&H23ef9a9a,&H23000000,\
         0,0,0,0,100,100,0,0,1,2,1,2,20,20,20,1"
    );
}

#[test]
fn test_style_catalog_order() {
    let styles = Style::all();
    assert_eq!(styles.len(), 10);
    let names = [
        "Default", "Red", "Green", "Blue", "Yellow", "Orange", "Cyan", "Magenta", "Brown", "Gray",
    ];
    for (i, style) in styles.iter().enumerate() {
        assert!(style.to_string().starts_with(&format!("Style:{},", names[i])));
    }
}

#[test]
fn test_default_style_margins() {
    let style = Style::default();
    assert!(style.to_string().ends_with(",2,10,10,10,1"));
}

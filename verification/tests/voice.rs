use telop::speech::voice::{Code, Name};

#[test]
fn test_code_display() {
    assert_eq!(Code::JaJP.to_string(), "ja-JP");
}

#[test]
fn test_name_display() {
    assert_eq!(Name::JaJPStandardA.to_string(), "ja-JP-Standard-A");
    assert_eq!(Name::JaJPStandardB.to_string(), "ja-JP-Standard-B");
    assert_eq!(Name::JaJPStandardC.to_string(), "ja-JP-Standard-C");
    assert_eq!(Name::JaJPStandardD.to_string(), "ja-JP-Standard-D");

    assert_eq!(Name::JaJPNeural2B.to_string(), "ja-JP-Neural2-B");
    assert_eq!(Name::JaJPNeural2C.to_string(), "ja-JP-Neural2-C");
    assert_eq!(Name::JaJPNeural2D.to_string(), "ja-JP-Neural2-D");

    assert_eq!(Name::JaJPWavenetA.to_string(), "ja-JP-Wavenet-A");
    assert_eq!(Name::JaJPWavenetB.to_string(), "ja-JP-Wavenet-B");
    assert_eq!(Name::JaJPWavenetC.to_string(), "ja-JP-Wavenet-C");
    assert_eq!(Name::JaJPWavenetD.to_string(), "ja-JP-Wavenet-D");
}

#[test]
fn test_name_from() {
    let count = 15;
    let code = Code::JaJP;

    for i in 0..count {
        let name = Name::from(code, i).unwrap();
        println!("name: {}", name.to_string());
    }
}

#[test]
fn test_name_from_table_and_fallback() {
    let code = Code::JaJP;
    assert_eq!(Name::from(code, 0), Some(Name::JaJPStandardA));
    assert_eq!(Name::from(code, 4), Some(Name::JaJPNeural2B));
    assert_eq!(Name::from(code, 10), Some(Name::JaJPWavenetD));
    // Indices past the table fall back to the default voice.
    assert_eq!(Name::from(code, 11), Some(Name::JaJPStandardA));
    assert_eq!(Name::from(code, 1_000_000), Some(Name::JaJPStandardA));
}

#[test]
fn test_code_new() {
    assert_eq!(Code::new(), Code::JaJP);
}

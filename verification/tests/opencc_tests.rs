use whisper_typeless::transcription::opencc::{
    conversion_mode_from_str, convert_chinese_text, ConversionMode, OpenCCProcessor,
};

#[test]
fn raw_mode_unchanged() {
    let proc = OpenCCProcessor::new(ConversionMode::Raw).unwrap();
    assert_eq!(proc.convert("軟體"), "軟體");
}

#[test]
fn simp_to_trad_tw() {
    let proc = OpenCCProcessor::new(ConversionMode::ZhTW).unwrap();
    let result = proc.convert("这是一个软件程序，设置里面还有用户数据。");
    assert!(result.contains("這是一個軟體程式"));
    assert!(result.contains("設定"));
    assert!(result.contains("使用者資料"));
}

#[test]
fn opencc_traditional_to_simplified() {
    let proc = OpenCCProcessor::new(ConversionMode::ZhCN).unwrap();
    let result = proc.convert("軟體");
    assert_ne!(result, "軟體");
}

#[test]
fn opencc_set_mode_raw_stops_converting() {
    let mut proc = OpenCCProcessor::new(ConversionMode::ZhTW).unwrap();
    assert!(proc.converter.is_some());
    proc.set_mode(ConversionMode::Raw);
    assert!(proc.converter.is_none());
    assert_eq!(proc.convert("软件"), "软件");
}

#[test]
fn conversion_mode_names() {
    assert_eq!(conversion_mode_from_str("zh-HK"), ConversionMode::ZhHK);
    assert_eq!(conversion_mode_from_str("zh-CN"), ConversionMode::ZhCN);
    assert_eq!(conversion_mode_from_str("raw"), ConversionMode::Raw);
    assert_eq!(conversion_mode_from_str("zh-TW"), ConversionMode::ZhTW);
    assert_eq!(conversion_mode_from_str("anything"), ConversionMode::ZhTW);
    assert_eq!(ConversionMode::default(), ConversionMode::ZhTW);
}

#[test]
fn convert_chinese_text_disabled_or_raw_copies() {
    assert_eq!(convert_chinese_text("软件", false, "zh-TW"), "软件");
    assert_eq!(convert_chinese_text("软件", true, "raw"), "软件");
    assert_eq!(convert_chinese_text("软件", true, "zh-TW"), "軟體");
}

use whisper_typeless::file_transcription::{
    export_file_name, file_result_text, format_transcript, ExportFormat,
};
use whisper_typeless::whisper::TranscriptSegment;

fn seg(text: &str, start_ms: i64, end_ms: i64) -> TranscriptSegment {
    TranscriptSegment { text: text.to_string(), start_ms, end_ms }
}

fn sample() -> Vec<TranscriptSegment> {
    vec![seg("你好 ", 0, 1500), seg(" world", 3_723_004, 3_725_000)]
}

#[test]
fn export_format_extensions() {
    assert_eq!(ExportFormat::from_extension("srt"), ExportFormat::Srt);
    assert_eq!(ExportFormat::from_extension("vtt"), ExportFormat::Vtt);
    assert_eq!(ExportFormat::from_extension("txt"), ExportFormat::Txt);
    assert_eq!(ExportFormat::from_extension("SRT"), ExportFormat::Txt);
    assert_eq!(ExportFormat::Srt.extension(), "srt");
    assert_eq!(ExportFormat::Vtt.extension(), "vtt");
    assert_eq!(ExportFormat::Txt.extension(), "txt");
}

#[test]
fn export_txt_joins_lines() {
    assert_eq!(format_transcript(&sample(), ExportFormat::Txt), "你好 \n world");
    assert_eq!(format_transcript(&[], ExportFormat::Txt), "");
}

#[test]
fn export_srt_exact() {
    assert_eq!(
        format_transcript(&sample(), ExportFormat::Srt),
        "1\n00:00:00,000 --> 00:00:01,500\n你好\n\n2\n01:02:03,004 --> 01:02:05,000\nworld\n"
    );
    assert_eq!(format_transcript(&[], ExportFormat::Srt), "");
}

#[test]
fn export_vtt_exact() {
    assert_eq!(
        format_transcript(&sample(), ExportFormat::Vtt),
        "WEBVTT\n\n00:00:00.000 --> 00:00:01.500\n你好\n\n01:02:03.004 --> 01:02:05.000\nworld\n\n"
    );
    assert_eq!(format_transcript(&[], ExportFormat::Vtt), "WEBVTT\n\n");
}

#[test]
fn export_clamps_negative_and_long_times() {
    let segs = vec![seg("x", -20, 360_000_000)];
    assert_eq!(
        format_transcript(&segs, ExportFormat::Srt),
        "1\n00:00:00,000 --> 100:00:00,000\nx\n"
    );
}

#[test]
fn export_file_names() {
    assert_eq!(export_file_name("meeting", ExportFormat::Srt), "meeting.srt");
    assert_eq!(export_file_name("會議", ExportFormat::Txt), "會議.txt");
}

#[test]
fn file_result_formats_then_converts() {
    let segs = vec![seg("软件", 0, 1000)];
    assert_eq!(file_result_text(&segs, "srt", false, "zh-TW"), "1\n00:00:00,000 --> 00:00:01,000\n软件\n");
    assert_eq!(file_result_text(&segs, "srt", true, "zh-TW"), "1\n00:00:00,000 --> 00:00:01,000\n軟體\n");
    assert_eq!(file_result_text(&segs, "doc", true, "raw"), "软件");
}

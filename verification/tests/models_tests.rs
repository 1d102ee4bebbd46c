use std::path::PathBuf;

use whisper_typeless::models::downloader::{
    download_verdict, DownloadError, SourceOutcome,
    candidate_urls, checksum_matches, eq_ignore_ascii_case, hex_lower, sha1_hex, temp_file_name,
    verify_download,
};
use whisper_typeless::models::manager::{load_decision, LoadDecision};
use whisper_typeless::models::{model_file_name, ModelId, ModelInfo, ModelRegistry, ModelSize};

#[test]
fn model_ids_and_files() {
    assert_eq!(ModelId::Tiny.as_str(), "tiny");
    assert_eq!(ModelId::BaseEn.as_str(), "base.en");
    assert_eq!(ModelId::LargeV3Turbo.as_str(), "large-v3-turbo");
    assert_eq!(ModelId::LargeV3Turbo.filename(), "ggml-large-v3-turbo.bin");
    assert_eq!(ModelId::SmallEn.filename(), "ggml-small.en.bin");
    assert_eq!(model_file_name("medium"), "ggml-medium.bin");
}

#[test]
fn download_sources_skip_blank_mirrors() {
    let mirrors = vec!["  ".to_string(), "https://m1/x".to_string(), "".to_string(), "https://m2/x".to_string()];
    assert_eq!(
        candidate_urls("https://primary/x", &mirrors),
        vec!["https://primary/x", "https://m1/x", "https://m2/x"]
    );
    assert_eq!(candidate_urls(" ", &mirrors), vec!["https://m1/x", "https://m2/x"]);
    assert!(candidate_urls("", &[]).is_empty());
}

#[test]
fn temp_names() {
    assert_eq!(temp_file_name("ggml-base.bin"), "ggml-base.bin.tmp");
}

#[test]
fn checksums() {
    assert!(eq_ignore_ascii_case("AbC", "aBc"));
    assert!(!eq_ignore_ascii_case("abc", "abd"));
    assert!(!eq_ignore_ascii_case("abc", "ab"));
    assert!(checksum_matches("deadbeef", ""));
    assert!(checksum_matches("deadbeef", "DEADBEEF"));
    assert!(!checksum_matches("deadbeef", "deadbee0"));
    assert_eq!(hex_lower(&[0x00, 0x0f, 0xa0, 0xff]), "000fa0ff");
    assert_eq!(hex_lower(&[]), "");
}

#[test]
fn sha1_of_known_inputs() {
    assert_eq!(sha1_hex(b"abc"), "a9993e364706816aba3e25717850c26c9cd0d89d");
    assert_eq!(sha1_hex(b""), "da39a3ee5e6b4b0d3255bfef95601890afd80709");
    assert!(verify_download(b"abc", "A9993E364706816ABA3E25717850C26C9CD0D89D"));
    assert!(verify_download(b"abc", ""));
    assert!(!verify_download(b"abd", "a9993e364706816aba3e25717850c26c9cd0d89d"));
}

#[test]
fn model_load_decisions() {
    assert_eq!(load_decision(Some("base"), "base", false), LoadDecision::ReuseLoaded);
    assert_eq!(load_decision(Some("base"), "small", true), LoadDecision::LoadFromFile);
    assert_eq!(load_decision(None, "small", false), LoadDecision::NotDownloaded);
}

fn info(id: &str) -> ModelInfo {
    ModelInfo {
        id: id.to_string(),
        display_name: id.to_uppercase(),
        size: ModelSize { disk_mb: 75, vram_mb: 125 },
        speed_multiplier_milli: 32000,
        quality_stars: 1,
        is_english_only: false,
        sha1: String::new(),
        download_url: format!("https://example/{id}"),
        mirror_urls: vec![],
        local_path: None,
        is_downloaded: false,
    }
}

#[test]
fn catalog_choice() {
    assert_eq!(ModelRegistry::choose_catalog(vec![None, Some(2), Some(3)], Some(9)), Some(2));
    assert_eq!(ModelRegistry::choose_catalog(vec![None, None], Some(9)), Some(9));
    assert_eq!(ModelRegistry::choose_catalog::<u8>(vec![], None), None);
}

#[test]
fn catalog_marks_downloaded_models() {
    let mut models = vec![info("tiny"), info("base")];
    ModelRegistry::mark_downloaded(&mut models, vec![None, Some(PathBuf::from("/m/ggml-base.bin"))]);
    assert!(!models[0].is_downloaded);
    assert!(models[0].local_path.is_none());
    assert!(models[1].is_downloaded);
    assert_eq!(models[1].local_path.as_deref(), Some(std::path::Path::new("/m/ggml-base.bin")));
    assert_eq!(models[1].id, "base");
}

#[test]
fn download_falls_back_to_mirrors() {
    let fetched = |h: &str| SourceOutcome::Fetched { digest_hex: h.to_string() };
    assert_eq!(download_verdict(&[], "abc"), Err(DownloadError::NoSources));
    assert_eq!(
        download_verdict(&[SourceOutcome::FetchFailed, fetched("bad"), fetched("ABC")], "abc"),
        Ok(2)
    );
    assert_eq!(download_verdict(&[fetched("abc"), fetched("abc")], "abc"), Ok(0));
    assert_eq!(
        download_verdict(&[fetched("bad"), SourceOutcome::FetchFailed], "abc"),
        Err(DownloadError::FetchFailed)
    );
    assert_eq!(
        download_verdict(&[SourceOutcome::FetchFailed, fetched("bad")], "abc"),
        Err(DownloadError::ChecksumMismatch)
    );
    assert_eq!(download_verdict(&[fetched("anything")], ""), Ok(0));
}

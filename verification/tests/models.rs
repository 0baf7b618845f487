use oido::models::{is_vad_model_filename, whisper_fallback_filename, ModelEntry, ModelFamily};

fn entry(filename: &str, family: ModelFamily) -> ModelEntry {
    ModelEntry {
        filename: filename.into(),
        family,
        size_label: String::new(),
    }
}

fn catalog() -> Vec<ModelEntry> {
    vec![
        entry("ggml-large-v3.bin", ModelFamily::Large),
        entry("ggml-base.bin", ModelFamily::Base),
        entry("ggml-tiny.bin", ModelFamily::Tiny),
        entry("ggml-small.bin", ModelFamily::Small),
        entry("ggml-silero-v5.1.2.bin", ModelFamily::Vad),
    ]
}

fn files(names: &[&str]) -> Vec<String> {
    names.iter().map(|n| n.to_string()).collect()
}

#[test]
fn is_vad_rejects_silero_filename() {
    assert!(is_vad_model_filename("ggml-silero-v5.1.2.bin"));
    assert!(is_vad_model_filename("ggml-silero-v6.bin"));
}

#[test]
fn is_vad_accepts_whisper_filenames() {
    assert!(!is_vad_model_filename("ggml-base.bin"));
    assert!(!is_vad_model_filename("ggml-tiny.en.bin"));
    assert!(!is_vad_model_filename("ggml-large-v3-turbo.bin"));
}

#[test]
fn fallback_prefers_base_then_smallest() {
    let installed = files(&["ggml-tiny.bin", "ggml-silero-v5.1.2.bin"]);
    let pick = whisper_fallback_filename(&catalog(), &installed).unwrap();
    assert_eq!(pick, "ggml-tiny.bin", "debe preferir Tiny si no hay base");
}

#[test]
fn fallback_prefers_base_when_both_present() {
    let installed = files(&["ggml-base.bin", "ggml-tiny.bin"]);
    let pick = whisper_fallback_filename(&catalog(), &installed).unwrap();
    assert_eq!(pick, "ggml-base.bin", "default histórico: base");
}

#[test]
fn fallback_returns_none_when_no_whisper_only_vad() {
    let installed = files(&["ggml-silero-v5.1.2.bin"]);
    assert!(whisper_fallback_filename(&catalog(), &installed).is_none());
}

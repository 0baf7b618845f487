use std::sync::Arc;

use oido::config::TtsEngineKind;
use oido::tray::dialog::Desktop;
use oido::tts::engine::{Engine, SessionFault, TtsError};
use oido::tts::piper::config::{
    ConfigSource, PiperVoiceConfig, RawAudio, RawEspeak, RawInference, RawPiperVoiceConfig,
};
use oido::tts::piper::engine::PiperEngine;
use oido::tts::piper::g2p::{phonemize_with_cache, Language, PhonemizerCache};
use oido::tts::piper::onnx::{config_path_for, PiperSession};
use oido::tts::piper::phoneme::{
    encode, EncodeReport, PhonemeIdMap, SpecialIds, MAX_PHONEMES,
};
use oido::tts::voices::{known_voice_ids, piper_default_voice};

const MINIMAL_JSON: &str = r#"{
    "audio": { "sample_rate": 22050 },
    "espeak": { "voice": "es" },
    "phoneme_type": "espeak",
    "phoneme_id_map": { "^": [1], "_": [0], "$": [2], "a": [10] },
    "num_symbols": 256,
    "num_speakers": 1
}"#;

/// Reads a configuration file the way the program does.
fn parse(json: &str) -> ConfigSource {
    let value: serde_json::Value = match serde_json::from_str(json) {
        Ok(value) => value,
        Err(e) => return ConfigSource::Malformed(e.to_string()),
    };
    let bits = |v: &serde_json::Value| v.as_f64().map(|f| (f as f32).to_bits());
    ConfigSource::Parsed(RawPiperVoiceConfig {
        audio: value.get("audio").map(|a| RawAudio {
            sample_rate: a["sample_rate"].as_u64().unwrap() as u32,
        }),
        espeak: value.get("espeak").map(|e| RawEspeak {
            voice: e["voice"].as_str().map(str::to_string),
        }),
        inference: value.get("inference").map(|i| RawInference {
            noise_scale: bits(&i["noise_scale"]),
            length_scale: bits(&i["length_scale"]),
            noise_w: bits(&i["noise_w"]),
        }),
        phoneme_id_map: value.get("phoneme_id_map").map(|m| {
            let mut map = PhonemeIdMap::new();
            for (k, ids) in m.as_object().unwrap() {
                let ids = ids.as_array().unwrap();
                map.insert(k.clone(), ids.iter().map(|i| i.as_i64().unwrap()).collect());
            }
            map
        }),
        num_symbols: value["num_symbols"].as_u64().map(|n| n as u16),
        num_speakers: value["num_speakers"].as_u64().map(|n| n as u8),
    })
}

fn load(json: &str) -> Result<PiperVoiceConfig, TtsError> {
    PiperVoiceConfig::load("/tmp/voice.onnx.json", parse(json))
}

fn load_err(json: &str) -> TtsError {
    match load(json) {
        Ok(_) => panic!("esperaba un error"),
        Err(e) => e,
    }
}

fn float(bits: u32) -> f32 {
    f32::from_bits(bits)
}

#[test]
fn load_minimal_valid_json() {
    let cfg = match load(MINIMAL_JSON) {
        Ok(cfg) => cfg,
        Err(e) => panic!("load ok: {e:?}"),
    };
    assert_eq!(cfg.audio_sample_rate, 22_050);
    assert_eq!(cfg.espeak_voice, "es");
    assert!((float(cfg.length_scale) - 1.0).abs() < f32::EPSILON);
    assert!((float(cfg.noise_scale) - 0.667).abs() < f32::EPSILON);
    assert!((float(cfg.noise_w) - 0.8).abs() < f32::EPSILON);
    assert_eq!(cfg.num_symbols, 256);
    assert_eq!(cfg.num_speakers, 1);
    assert_eq!(cfg.phoneme_id_map.get("^"), Some(&vec![1]));
    assert_eq!(cfg.phoneme_id_map.get("_"), Some(&vec![0]));
    assert_eq!(cfg.phoneme_id_map.get("$"), Some(&vec![2]));
    assert_eq!(cfg.phoneme_id_map.get("a"), Some(&vec![10]));
}

#[test]
fn load_with_explicit_inference_overrides_defaults() {
    let json = r#"{
        "audio": { "sample_rate": 16000 },
        "inference": {
            "noise_scale": 0.5, "length_scale": 1.5, "noise_w": 1.0
        },
        "phoneme_id_map": {}
    }"#;
    let cfg = match load(json) {
        Ok(cfg) => cfg,
        Err(e) => panic!("load ok: {e:?}"),
    };
    assert_eq!(cfg.audio_sample_rate, 16_000);
    assert!((float(cfg.length_scale) - 1.5).abs() < f32::EPSILON);
    assert!((float(cfg.noise_scale) - 0.5).abs() < f32::EPSILON);
    assert!((float(cfg.noise_w) - 1.0).abs() < f32::EPSILON);
}

#[test]
fn load_missing_audio_returns_error() {
    match load_err(r#"{ "phoneme_id_map": {} }"#) {
        TtsError::InvalidVoiceConfig(msg) => {
            assert!(
                msg.contains("audio"),
                "mensaje debería mencionar 'audio', obtuve: {msg}"
            );
        }
        other => panic!("esperaba InvalidVoiceConfig, obtuve: {other:?}"),
    }
}

#[test]
fn load_missing_phoneme_id_map_returns_error() {
    match load_err(r#"{ "audio": { "sample_rate": 22050 } }"#) {
        TtsError::InvalidVoiceConfig(msg) => {
            assert!(
                msg.contains("phoneme_id_map"),
                "mensaje debería mencionar 'phoneme_id_map', obtuve: {msg}"
            );
        }
        other => panic!("esperaba InvalidVoiceConfig, obtuve: {other:?}"),
    }
}

#[test]
fn load_malformed_json_returns_error() {
    match load_err("{ esto no es JSON valido ") {
        TtsError::InvalidVoiceConfig(_) => (),
        other => panic!("esperaba InvalidVoiceConfig, obtuve: {other:?}"),
    }
}

#[test]
fn load_missing_file_returns_error() {
    let source = ConfigSource::Unreadable("No such file or directory (os error 2)".into());
    match PiperVoiceConfig::load("/nonexistent.json", source) {
        Err(TtsError::InvalidVoiceConfig(_)) => (),
        Err(other) => panic!("esperaba InvalidVoiceConfig, obtuve: {other:?}"),
        Ok(_) => panic!("esperaba un error"),
    }
}

#[test]
fn load_zero_sample_rate_returns_error() {
    let json = r#"{
        "audio": { "sample_rate": 0 },
        "phoneme_id_map": {}
    }"#;
    match load_err(json) {
        TtsError::InvalidVoiceConfig(msg) => {
            assert!(
                msg.contains("sample_rate"),
                "mensaje debería mencionar 'sample_rate', obtuve: {msg}"
            );
        }
        other => panic!("esperaba InvalidVoiceConfig, obtuve: {other:?}"),
    }
}

#[test]
fn language_from_code_accepts_short_and_extended() {
    assert_eq!(Language::from_code("es"), Some(Language::Es));
    assert_eq!(Language::from_code("es-ES"), Some(Language::Es));
    assert_eq!(Language::from_code("es-MX"), Some(Language::Es));
    assert_eq!(Language::from_code("es-419"), Some(Language::Es));
    assert_eq!(Language::from_code("EN"), Some(Language::En));
    assert_eq!(Language::from_code("en_us"), Some(Language::En));
    assert_eq!(Language::from_code("pt"), Some(Language::Pt));
    assert_eq!(Language::from_code("pt-BR"), Some(Language::Pt));
    assert_eq!(Language::from_code("fr"), Some(Language::Fr));
    assert_eq!(Language::from_code("fr-FR"), Some(Language::Fr));
}

#[test]
fn language_from_code_rejects_unsupported() {
    assert_eq!(Language::from_code("de"), None);
    assert_eq!(Language::from_code("it"), None);
    assert_eq!(Language::from_code("ja"), None);
    assert_eq!(Language::from_code("zh"), None);
    assert_eq!(Language::from_code(""), None);
    assert_eq!(Language::from_code("xxxx"), None);
}

#[test]
fn language_bcp47_roundtrip() {
    for lang in [Language::Es, Language::En, Language::Pt, Language::Fr] {
        let code = lang.bcp47();
        assert_eq!(Language::from_code(code), Some(lang));
    }
}

#[test]
fn phonemize_cache_returns_same_arc_on_second_call() {
    let mut cache = PhonemizerCache::new();
    let a = match cache.get_or_init(Language::Es) {
        Ok(a) => a,
        Err(e) => panic!("init ES: {e:?}"),
    };
    let b = match cache.get_or_init(Language::Es) {
        Ok(b) => b,
        Err(e) => panic!("init ES 2: {e:?}"),
    };
    assert!(
        Arc::ptr_eq(&a, &b),
        "segunda llamada debe devolver el mismo Arc (cache hit)"
    );
}

#[test]
fn phonemize_spanish_simple_text() {
    let mut cache = PhonemizerCache::new();
    let tokens = phonemize_with_cache(&mut cache, Language::Es, "hola").expect("phonemize hola");
    assert!(
        !tokens.is_empty(),
        "phonemize('hola') no debe devolver lista vacía"
    );
}

#[test]
fn piper_audio_sample_rate_defaults_to_22050_in_default_voices() {
    let engine = PiperEngine::new("es_ES-davefx-medium");
    assert_eq!(engine.sample_rate_hz(), 22_050);
    let voices = engine.voices();
    assert!(
        voices.iter().any(|v| v.language == "es-ES"),
        "catálogo Piper debe incluir al menos una voz es-ES"
    );
    assert!(
        voices.iter().any(|v| v.language == "en-US"),
        "catálogo Piper debe incluir al menos una voz en-US"
    );
    for v in &voices {
        assert_eq!(v.engine, TtsEngineKind::Piper);
    }
}

#[test]
fn piper_synthesize_on_unloaded_returns_backend_error() {
    let mut engine = PiperEngine::new("es_ES-davefx-medium");
    match engine.synthesize("hola") {
        Err(TtsError::Backend(msg)) => {
            assert!(
                msg.contains("no cargado"),
                "mensaje debería mencionar 'no cargado', obtuve: {msg}"
            );
        }
        Err(other) => {
            panic!("esperaba TtsError::Backend(\"modelo no cargado\"), obtuve: {other:?}")
        }
        Ok(_) => panic!("synthesize sin modelo cargado NO debe devolver Ok"),
    }
}

#[test]
fn piper_synthesize_empty_text_returns_text_too_short() {
    let mut engine = PiperEngine::new("es_ES-davefx-medium");
    let result = engine.synthesize("");
    assert!(
        matches!(
            result,
            Err(TtsError::TextTooShort) | Err(TtsError::Backend(_))
        ),
        "synthesize(\"\") debe ser Err, obtuve: {result:?}"
    );
}

#[test]
fn piper_voice_id_maps_to_g2p_language() {
    let cases = [
        ("es_ES-davefx-medium", Some(Language::Es)),
        ("es_MX-ald-medium", Some(Language::Es)),
        ("en_US-lessac-medium", Some(Language::En)),
        ("zzzz", None),
    ];
    for (voice_id, expected) in cases {
        let lang = PiperEngine::infer_lang_from_voice_id(voice_id);
        assert_eq!(
            lang, expected,
            "voice_id={voice_id:?} esperaba {expected:?}, obtuve {lang:?}"
        );
    }
}

#[test]
fn piper_load_failure_does_not_corrupt_state() {
    let mut engine = PiperEngine::new("es_ES-davefx-medium");
    assert!(!engine.is_loaded(), "recién construido: is_loaded = false");

    let source = ConfigSource::Unreadable("No such file or directory (os error 2)".into());
    let err = engine
        .load(
            Desktop::OtherUnix,
            "/nonexistent/piper-voice.onnx",
            source,
            Err(SessionFault::Missing),
        )
        .unwrap_err();
    match err {
        TtsError::ModelNotFound(_) => (),
        other => panic!("esperaba ModelNotFound, obtuve: {other:?}"),
    }

    assert!(
        !engine.is_loaded(),
        "tras load fallido, is_loaded debe seguir en false"
    );
}

#[test]
fn piper_warm_up_without_model_is_ok() {
    let mut engine = PiperEngine::new("es_ES-davefx-medium");
    assert!(engine.warm_up().is_ok());
}

#[test]
fn piper_set_voice_updates_lang() {
    let mut engine = PiperEngine::new("es_ES-davefx-medium");
    assert_eq!(engine.g2p_lang, Some(Language::Es));
    engine.set_voice("en_US-lessac-medium");
    assert_eq!(engine.voice_id, "en_US-lessac-medium");
    assert_eq!(engine.g2p_lang, Some(Language::En));
}

#[test]
fn config_path_for_appends_onnx_json_suffix() {
    let json = config_path_for(Desktop::OtherUnix, "/models/es/davefx-medium.onnx");
    assert_eq!(json, "/models/es/davefx-medium.onnx.json");
}

#[test]
fn config_path_for_handles_extension_alone() {
    let json = config_path_for(Desktop::OtherUnix, "model.onnx");
    assert_eq!(json, "model.onnx.json");
}

#[test]
fn is_loaded_initially_false() {
    let source = ConfigSource::Unreadable("No such file or directory (os error 2)".into());
    match PiperSession::load(
        Desktop::OtherUnix,
        "/nonexistent/path/model.onnx",
        source,
        Err(SessionFault::Missing),
    ) {
        Err(TtsError::ModelNotFound(_)) => (),
        Err(other) => {
            panic!("esperaba ModelNotFound para .onnx inexistente, obtuve: {other:?}")
        }
        Ok(_) => panic!("esperaba un error"),
    }
}

fn fixture_map() -> PhonemeIdMap {
    let mut m = PhonemeIdMap::new();
    m.insert("^".into(), vec![1]);
    m.insert("_".into(), vec![0]);
    m.insert("$".into(), vec![2]);
    m.insert("a".into(), vec![10]);
    m.insert("k".into(), vec![30]);
    m.insert(" ".into(), vec![3]);
    m
}

#[test]
fn special_ids_extracted_from_map() {
    let m = fixture_map();
    let s = SpecialIds::from_map(&m).expect("specials");
    assert_eq!(s.bos, 1);
    assert_eq!(s.pad, 0);
    assert_eq!(s.eos, 2);
}

#[test]
fn special_ids_missing_bos_returns_error() {
    let mut m = fixture_map();
    m.remove("^");
    let err = SpecialIds::from_map(&m).unwrap_err();
    match err {
        TtsError::InvalidVoiceConfig(msg) => {
            assert!(
                msg.contains("BOS") || msg.contains("^"),
                "mensaje debería mencionar BOS/'^', obtuve: {msg}"
            );
        }
        other => panic!("esperaba InvalidVoiceConfig, obtuve: {other:?}"),
    }
}

#[test]
fn special_ids_missing_pad_defaults_to_zero() {
    let mut m = fixture_map();
    m.remove("_");
    let s = SpecialIds::from_map(&m).expect("specials");
    assert_eq!(s.pad, 0, "PAD sin '_' en el mapa debe ser 0");
}

#[test]
fn encode_produces_bos_at_start_and_eos_at_end() {
    let m = fixture_map();
    let specials = SpecialIds::from_map(&m).unwrap();
    let tokens = vec!["a".to_string()];
    let (ids, _) = encode(&tokens, &m, specials);
    assert_eq!(ids[0], specials.bos, "primer ID debe ser BOS");
    assert_eq!(*ids.last().unwrap(), specials.eos, "último ID debe ser EOS");
}

#[test]
fn encode_inserts_pad_between_phonemes() {
    let m = fixture_map();
    let specials = SpecialIds::from_map(&m).unwrap();
    let tokens = vec!["a".to_string(), "k".to_string()];
    let (ids, _) = encode(&tokens, &m, specials);
    assert_eq!(
        ids,
        vec![
            specials.bos,
            specials.pad,
            10,
            specials.pad,
            30,
            specials.pad,
            specials.eos
        ]
    );
}

#[test]
fn encode_skips_unknown_phonemes_with_warning() {
    let m = fixture_map();
    let specials = SpecialIds::from_map(&m).unwrap();
    let tokens = vec!["a".to_string(), "Z".to_string(), "k".to_string()];
    let (ids, report) = encode(&tokens, &m, specials);
    assert_eq!(report.skipped, 1);
    assert!(!ids.contains(&99), "el token desconocido 'Z' no debe colarse como 99");
    assert!(ids.contains(&10));
    assert!(ids.contains(&30));
}

#[test]
fn encode_handles_multi_id_phoneme() {
    let mut m = fixture_map();
    m.insert("ã".into(), vec![40, 41]);
    let specials = SpecialIds::from_map(&m).unwrap();
    let tokens = vec!["a".to_string(), "ã".to_string()];
    let (ids, _) = encode(&tokens, &m, specials);
    let pos40 = ids.iter().position(|&x| x == 40).unwrap();
    let pos41 = ids.iter().position(|&x| x == 41).unwrap();
    assert!(pos40 < pos41, "los IDs de un multi-id deben ir en orden");
}

#[test]
fn encode_truncates_to_max_phonemes() {
    let m = fixture_map();
    let specials = SpecialIds::from_map(&m).unwrap();
    let tokens: Vec<String> = (0..300).map(|_| "a".into()).collect();
    let (ids, report) = encode(&tokens, &m, specials);
    assert!(report.truncated, "truncated flag debe estar activo");
    assert!(
        ids.len() <= MAX_PHONEMES,
        "ids.len()={} debe ser <= MAX_PHONEMES={}",
        ids.len(),
        MAX_PHONEMES
    );
    assert_eq!(*ids.last().unwrap(), specials.eos);
}

#[test]
fn encode_empty_tokens_still_emits_bos_and_eos() {
    let m = fixture_map();
    let specials = SpecialIds::from_map(&m).unwrap();
    let (ids, report) = encode(&[], &m, specials);
    assert_eq!(ids, vec![specials.bos, specials.pad, specials.eos]);
    assert_eq!(report, EncodeReport::default());
}

#[test]
fn known_voice_ids_non_empty_and_unique() {
    let v = known_voice_ids();
    assert!(!v.is_empty());
    let mut seen = std::collections::HashSet::new();
    for id in v {
        assert!(seen.insert(id), "voice duplicado en catálogo maestro: {id}");
    }
}

#[test]
fn known_ids_include_config_defaults() {
    let v = known_voice_ids();
    assert!(
        v.contains(&piper_default_voice()),
        "Piper default {} debe estar en catálogo maestro",
        piper_default_voice()
    );
}

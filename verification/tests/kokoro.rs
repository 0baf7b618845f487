use std::collections::HashSet;

use oido::config::TtsEngineKind;
use oido::tts::engine::{Engine, TtsError};
use oido::tts::kokoro::engine::KokoroEngine;
use oido::tts::kokoro::g2p::{
    lookup_phoneme, phonemize, phonemize_debug, vocab_map, KokoroLang,
};
use oido::tts::kokoro::npy::{header_field_str, parse_npy_float32_2d, parse_shape_tuple};
use oido::tts::kokoro::onnx::SAMPLE_RATE_HZ;

fn known_ids() -> HashSet<i64> {
    (0u32..0x1_0000)
        .filter_map(char::from_u32)
        .filter_map(lookup_phoneme)
        .collect()
}

#[test]
fn vocab_contains_all_expected_phonemes() {
    let map = vocab_map();
    for k in [
        ";", ":", ",", ".", " ", "a", "e", "i", "o", "u", "ɑ", "ɔ", "ə", "ɛ", "ɪ", "ʊ", "ʌ", "ˈ",
        "ˌ", "ː", "n", "t", "s", "r", "l", "m", "k", "p", "d", "ɡ", "ŋ", "θ", "ð", "ʃ", "ʒ", "ʤ",
        "ʧ", "ɹ", "ʔ",
    ] {
        assert!(map.contains_key(k), "vocab Kokoro falta fonema '{k}'");
    }
    assert!(
        !map.contains_key("g"),
        "el vocab Kokoro usa 'ɡ' (U+0261) en lugar de 'g' ASCII; \
         si este assert rompe, alguien añadió una entrada duplicada"
    );
}

#[test]
fn phonemize_hello_returns_phoneme_ids() {
    let (ids, phon_str) = phonemize_debug("hello").expect("phonemize");
    assert!(!ids.is_empty(), "hello debe tener >= 1 fonema");
    assert!(
        phon_str.chars().any(|c| c as u32 > 127),
        "esperaba fonemas IPA (no ASCII) en '{phon_str}'"
    );
}

#[test]
fn phonemize_empty_returns_text_too_short() {
    assert!(matches!(
        phonemize("", "af_heart"),
        Err(TtsError::TextTooShort)
    ));
    assert!(matches!(
        phonemize("   ", "af_heart"),
        Err(TtsError::TextTooShort)
    ));
    assert!(matches!(
        phonemize("\n\t", "af_heart"),
        Err(TtsError::TextTooShort)
    ));
}

#[test]
fn kokoro_lang_from_voice_routes_by_prefix() {
    assert_eq!(KokoroLang::from_voice("ef_dora"), KokoroLang::Es);
    assert_eq!(KokoroLang::from_voice("em_alex"), KokoroLang::Es);
    assert_eq!(KokoroLang::from_voice("em_santa"), KokoroLang::Es);
    assert_eq!(
        KokoroLang::from_voice("es_ES-davefx-medium"),
        KokoroLang::Es
    );
    assert_eq!(KokoroLang::from_voice("es_MX-ald-medium"), KokoroLang::Es);
    assert_eq!(KokoroLang::from_voice("af_heart"), KokoroLang::En);
    assert_eq!(KokoroLang::from_voice("am_michael"), KokoroLang::En);
    assert_eq!(KokoroLang::from_voice("bf_emma"), KokoroLang::En);
    assert_eq!(KokoroLang::from_voice("bm_george"), KokoroLang::En);
    assert_eq!(
        KokoroLang::from_voice("en_US-lessac-medium"),
        KokoroLang::En
    );
    assert_eq!(KokoroLang::from_voice("EF_DORA"), KokoroLang::Es);
    assert_eq!(
        KokoroLang::from_voice("ES_ES-davefx-medium"),
        KokoroLang::Es
    );
    assert_eq!(KokoroLang::from_voice("zz_unknown"), KokoroLang::En);
}

#[test]
fn phonemize_spanish_text_with_spanish_voice_returns_valid_ids() {
    let res = phonemize("El polémico congresista del Pacto Histórico", "em_alex");
    assert!(
        res.is_ok(),
        "español con tildes + voz em_alex debería fonemizarse: {res:?}"
    );
    let res = phonemize("Simulacion Medica de Codigo Completo", "em_alex");
    assert!(
        res.is_ok(),
        "español ASCII sin tildes + voz em_alex debería fonemizarse: {res:?}"
    );
    let ids = res.unwrap();
    assert!(!ids.is_empty(), "debe emitir IDs de token");
    let known = known_ids();
    for id in &ids {
        assert!(
            known.contains(id) || *id == 0,
            "ID {id} no está en vocab Kokoro"
        );
    }
}

#[test]
fn phonemize_spanish_text_with_english_voice_still_emits_ids() {
    let res = phonemize("hola mundo", "af_heart");
    match res {
        Ok(ids) => assert!(!ids.is_empty(), "debe emitir IDs si Ok"),
        Err(TtsError::Phonemization(_)) => {}
        Err(other) => panic!("error inesperado: {other:?}"),
    }
}

#[test]
fn phonemize_only_emits_vocab_ids() {
    let (ids, _) = phonemize_debug("the quick brown fox").expect("phonemize");
    let known = known_ids();
    for id in &ids {
        assert!(
            known.contains(id) || *id == 0,
            "ID {id} no está en vocab Kokoro"
        );
    }
}

#[test]
fn kokoro_sample_rate_is_24000() {
    let engine = KokoroEngine::new("af_heart");
    assert_eq!(engine.sample_rate_hz(), 24_000);
    assert_eq!(SAMPLE_RATE_HZ, 24_000);
}

#[test]
fn kokoro_engine_kind_is_kokoro() {
    let engine = KokoroEngine::new("af_heart");
    assert_eq!(engine.engine_kind(), TtsEngineKind::Kokoro);
}

#[test]
fn kokoro_voices_catalog_has_all_entries() {
    let engine = KokoroEngine::new("af_heart");
    let voices = engine.voices();
    assert_eq!(voices.len(), 31, "catálogo Kokoro debe tener 31 voces");
    for v in &voices {
        assert_eq!(v.engine, TtsEngineKind::Kokoro);
        assert!(!v.id.is_empty());
        assert!(!v.display_name.is_empty());
        assert!(!v.language.is_empty());
    }
    assert!(
        voices.iter().any(|v| v.id == "af_heart"),
        "af_heart debe estar en el catálogo"
    );
    assert!(
        voices.iter().any(|v| v.id == "am_michael"),
        "am_michael debe estar en el catálogo"
    );
    assert!(
        voices.iter().any(|v| v.id == "bf_emma"),
        "bf_emma debe estar en el catálogo"
    );
}

#[test]
fn kokoro_synthesize_on_unloaded_returns_backend_error() {
    let mut engine = KokoroEngine::new("af_heart");
    match engine.synthesize("hello world") {
        Err(TtsError::Backend(msg)) => {
            assert!(
                msg.contains("no cargado"),
                "mensaje debería mencionar 'no cargado', obtuve: {msg}"
            );
        }
        Err(other) => {
            panic!("esperaba TtsError::Backend(\"modelo no cargado\"), obtuve: {other:?}")
        }
        Ok(_) => panic!("synthesize sin modelo cargado NO debe devolver Ok"),
    }
}

#[test]
fn kokoro_synthesize_empty_text_returns_guard_error() {
    let mut engine = KokoroEngine::new("af_heart");
    let result = engine.synthesize("");
    assert!(
        matches!(
            result,
            Err(TtsError::TextTooShort) | Err(TtsError::Backend(_))
        ),
        "synthesize(\"\") debe ser Err, obtuve: {result:?}"
    );
}

#[test]
fn kokoro_set_speed_milli_zero_saturates_to_one() {
    let mut engine = KokoroEngine::new("af_heart");
    engine.set_speed_milli(0);
    assert_eq!(engine.speed_milli, 1);
    let speed = f32::from(engine.speed_milli) / 1000.0;
    assert!((speed - 0.001).abs() < f32::EPSILON);
}

#[test]
fn kokoro_set_speed_milli_scales_correctly() {
    let mut engine = KokoroEngine::new("af_heart");
    engine.set_speed_milli(1500);
    let speed = f32::from(engine.speed_milli) / 1000.0;
    assert!((speed - 1.5).abs() < f32::EPSILON);
}

#[test]
fn kokoro_set_voice_updates_voice_id() {
    let mut engine = KokoroEngine::new("af_heart");
    assert_eq!(engine.voice_id(), "af_heart");
    engine.set_voice("am_michael");
    assert_eq!(engine.voice_id(), "am_michael");
    engine.set_voice("bf_emma");
    assert_eq!(engine.voice_id(), "bf_emma");
}

#[test]
fn kokoro_is_loaded_false_before_load() {
    let engine = KokoroEngine::new("af_heart");
    assert!(!engine.is_loaded());
}

#[test]
fn parse_shape_tuple_handles_typical_kokoro_shape() {
    let dims = parse_shape_tuple("(511, 256)").expect("tuple");
    assert_eq!(dims, vec![511, 256]);
}

#[test]
fn parse_shape_tuple_handles_spaces_and_single_dim() {
    assert_eq!(parse_shape_tuple("( 3 , 2 )").unwrap(), vec![3, 2]);
    assert_eq!(parse_shape_tuple("512,").unwrap(), vec![512]);
}

#[test]
fn parse_shape_tuple_rejects_non_integer() {
    assert!(parse_shape_tuple("(abc, 256)").is_err());
}

#[test]
fn header_field_str_extracts_descr() {
    let h = "{'descr': '<f4', 'fortran_order': False, 'shape': (511, 256), }";
    assert_eq!(header_field_str(h, "descr").as_deref(), Some("<f4"));
    assert_eq!(
        header_field_str(h, "fortran_order").as_deref(),
        Some("False")
    );
    assert_eq!(header_field_str(h, "shape").as_deref(), Some("(511, 256)"));
    assert_eq!(header_field_str(h, "missing"), None);
}

/// The start of an array file: the magic bytes, the version and the header,
/// filled up to a multiple of 64 bytes.
fn npy_header(header_dict: &str) -> Vec<u8> {
    let mut header_bytes = header_dict.as_bytes().to_vec();
    while (header_bytes.len() + 10 + 1) % 64 != 0 {
        header_bytes.push(b' ');
    }
    header_bytes.push(b'\n');
    let header_len = header_bytes.len() as u16;
    let mut buf: Vec<u8> = Vec::new();
    buf.extend_from_slice(b"\x93NUMPY");
    buf.push(1);
    buf.push(0);
    buf.extend_from_slice(&header_len.to_le_bytes());
    buf.extend_from_slice(&header_bytes);
    buf
}

fn floats(row: &[u32]) -> Vec<f32> {
    row.iter().map(|bits| f32::from_bits(*bits)).collect()
}

#[test]
fn parse_npy_float32_2d_round_trips_synthetic_buffer() {
    let mut buf = npy_header("{'descr': '<f4', 'fortran_order': False, 'shape': (3, 2), }");
    for v in [0.0_f32, 1.0, 2.0, 3.0, 4.0, 5.0] {
        buf.extend_from_slice(&v.to_le_bytes());
    }
    let rows = parse_npy_float32_2d(&buf, 2).expect("parse");
    assert_eq!(rows.len(), 3);
    assert_eq!(floats(&rows[0]), vec![0.0, 1.0]);
    assert_eq!(floats(&rows[1]), vec![2.0, 3.0]);
    assert_eq!(floats(&rows[2]), vec![4.0, 5.0]);
}

#[test]
fn parse_npy_float32_2d_rejects_wrong_dtype() {
    let mut buf = npy_header("{'descr': '<f8', 'fortran_order': False, 'shape': (2, 4), }");
    buf.extend_from_slice(&[0u8; 64]);
    let res = parse_npy_float32_2d(&buf, 4);
    assert!(matches!(res, Err(TtsError::Backend(_))));
}

#[test]
fn parse_npy_float32_2d_rejects_wrong_style_dim() {
    let mut buf = npy_header("{'descr': '<f4', 'fortran_order': False, 'shape': (2, 128), }");
    buf.extend_from_slice(&[0u8; 2 * 128 * 4]);
    let res = parse_npy_float32_2d(&buf, 256);
    assert!(matches!(res, Err(TtsError::InvalidVoiceConfig(_))));
}

#[test]
fn parse_npy_float32_2d_supports_3d_singleton_shape() {
    let mut buf = npy_header("{'descr': '<f4', 'fortran_order': False, 'shape': (3, 1, 2), }");
    for v in [0.0_f32, 1.0, 2.0, 3.0, 4.0, 5.0] {
        buf.extend_from_slice(&v.to_le_bytes());
    }
    let rows = parse_npy_float32_2d(&buf, 2).expect("parse 3D singleton");
    assert_eq!(rows.len(), 3);
    assert_eq!(floats(&rows[0]), vec![0.0, 1.0]);
    assert_eq!(floats(&rows[1]), vec![2.0, 3.0]);
    assert_eq!(floats(&rows[2]), vec![4.0, 5.0]);
}

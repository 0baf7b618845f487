use std::io::Write;

use oido::config::TtsEngineKind;
use oido::tray::dialog::Desktop;
use oido::tts::engine::{finish_synthesis, AudioChunk, Engine, SessionFault, TtsError};
use oido::tts::kokoro::engine::{read_phonemes, KokoroEngine};
use oido::tts::kokoro::g2p::{
    can_read, can_read_english, english_ids, lookup_phoneme, phonemize, phonemize_debug,
    phonemize_with, spanish_ids, EnglishG2p,
};
use oido::tts::kokoro::npy::{header_field_str, parse_npy_float32_2d, parse_shape_tuple};
use oido::tts::kokoro::onnx::{write_thousandths, KokoroSession, MAX_TOKENS, STYLE_DIM};
use oido::tts::kokoro::voices::VoiceBank;
use oido::tts::piper::config::{
    ConfigSource, PiperVoiceConfig, RawAudio, RawPiperVoiceConfig, DEFAULT_LENGTH_SCALE,
    DEFAULT_NOISE_SCALE, DEFAULT_NOISE_W,
};
use oido::tts::piper::engine::{read_tokens, PiperEngine};
use oido::tts::piper::g2p::{
    phonemize_with_cache, G2p, Language, PhonemizerCache,
};
use oido::tts::piper::onnx::{config_path_for, PiperSession};
use oido::tts::piper::phoneme::{
    encode, EncodeReport, PhonemeIdMap, SpecialIds, MAX_PHONEMES,
};
use oido::tts::piper::spanish::can_read_spanish;

fn npy_of(version: u8, header: &[u8], data: &[u8]) -> Vec<u8> {
    let mut buf = b"\x93NUMPY".to_vec();
    buf.push(version);
    buf.push(0);
    if version == 1 {
        buf.extend_from_slice(&(header.len() as u16).to_le_bytes());
    } else {
        buf.extend_from_slice(&(header.len() as u32).to_le_bytes());
    }
    buf.extend_from_slice(header);
    buf.extend_from_slice(data);
    buf
}

fn npy(header: &str) -> Result<Vec<Vec<u32>>, TtsError> {
    parse_npy_float32_2d(&npy_of(1, header.as_bytes(), &[]), 2)
}

fn backend(message: &str) -> TtsError {
    TtsError::Backend(message.to_string())
}

/// A table of styles whose row `r` holds the number `first + r` throughout.
fn style_table(rows: usize, first: u32) -> Vec<u8> {
    let header =
        format!("{{'descr': '<f4', 'fortran_order': False, 'shape': ({rows}, 1, 256), }}\n");
    let mut data: Vec<u8> = Vec::new();
    for r in 0..rows {
        for _ in 0..STYLE_DIM {
            data.extend_from_slice(&(first + r as u32).to_le_bytes());
        }
    }
    npy_of(1, header.as_bytes(), &data)
}

fn archive(entries: &[(&str, Vec<u8>)]) -> Vec<u8> {
    let mut writer = zip::ZipWriter::new(std::io::Cursor::new(Vec::new()));
    for (name, data) in entries {
        let options = zip::write::SimpleFileOptions::default()
            .compression_method(zip::CompressionMethod::Deflated);
        writer.start_file(*name, options).unwrap();
        writer.write_all(data).unwrap();
    }
    writer.finish().unwrap().into_inner()
}

fn bank() -> Vec<u8> {
    archive(&[
        ("b.npy", style_table(3, 20)),
        ("readme.txt", b"nada".to_vec()),
        ("a.1.npy", style_table(1, 90)),
        (".npy", style_table(1, 91)),
        ("a.npy", style_table(2, 10)),
    ])
}

// Array files.

#[test]
fn every_version_of_an_array_file_is_read() {
    let header = b"{'descr': '<f4', 'fortran_order': False, 'shape': (1, 2), }";
    let data = [1u8, 0, 0, 0, 0, 0, 0x80, 0x3f, 9, 9];
    for version in 1..=3 {
        assert_eq!(
            parse_npy_float32_2d(&npy_of(version, header, &data), 2),
            Ok(vec![vec![1, 0x3f80_0000]])
        );
    }
    assert_eq!(
        parse_npy_float32_2d(&npy_of(4, header, &data), 2),
        Err(backend("NPY: versión no soportada 4.0"))
    );
}

#[test]
fn each_fault_of_an_array_file_is_told_apart() {
    assert_eq!(parse_npy_float32_2d(b"", 2), Err(backend("NPY: magic header ausente")));
    assert_eq!(
        parse_npy_float32_2d(b"\x93NUMPX\x01\x00\x00\x00", 2),
        Err(backend("NPY: magic header ausente"))
    );
    assert_eq!(
        parse_npy_float32_2d(b"\x93NUMPY\x02\x00\x00\x00", 2),
        Err(backend("NPY: header_len excede el archivo"))
    );
    assert_eq!(
        parse_npy_float32_2d(b"\x93NUMPY\x01\x00\x05\x00", 2),
        Err(backend("NPY: header_len excede el archivo"))
    );
    match parse_npy_float32_2d(&npy_of(1, &[0xff, 0xfe], &[]), 2) {
        Err(TtsError::Backend(e)) => assert_eq!(
            e,
            "NPY: header no UTF-8: invalid utf-8 sequence of 1 bytes from index 0"
        ),
        other => panic!("{other:?}"),
    }
    assert_eq!(npy("{}"), Err(backend("NPY: falta 'descr'")));
    assert_eq!(
        npy("{'descr': '>f8', }"),
        Err(backend("NPY: dtype '>f8' no soportado (esperaba '<f4')"))
    );
    assert_eq!(npy("{'descr': '<f4', }"), Err(backend("NPY: falta 'fortran_order'")));
    assert_eq!(
        npy("{'descr': '<f4', 'fortran_order': True, }"),
        Err(backend("NPY: fortran_order=True no soportado"))
    );
    assert_eq!(
        npy("{'descr': '<f4', 'fortran_order': False, }"),
        Err(backend("NPY: falta 'shape'"))
    );
    assert_eq!(
        npy("{'descr': '<f4', 'fortran_order': False, 'shape': (2, 3, 4), }"),
        Err(backend("NPY: shape debe ser 2D o 3D con dimensión singleton, obtuve [2, 3, 4]"))
    );
    assert_eq!(
        npy("{'descr': '<f4', 'fortran_order': False, 'shape': (2, 3), }"),
        Err(TtsError::InvalidVoiceConfig(
            "NPY: dimensión de estilo 3 != 2 — ¿archivo de otra versión de Kokoro?".to_string()
        ))
    );
    assert_eq!(
        npy("{'descr': '<f4', 'fortran_order': False, 'shape': (18446744073709551615, 2), }"),
        Err(backend("NPY: tamaño overflow"))
    );
    assert_eq!(
        npy("{'descr': '<f4', 'fortran_order': False, 'shape': (3, 2), }"),
        Err(backend("NPY: data corta (0 bytes, esperaba 24)"))
    );
}

#[test]
fn a_header_may_use_either_quote() {
    assert_eq!(
        header_field_str("{\"descr\": \"<f4\"}", "descr"),
        Some("<f4".to_string())
    );
    assert_eq!(
        header_field_str("{'shape': (1, 2), 'x': 1}", "shape"),
        Some("(1, 2)".to_string())
    );
    assert_eq!(header_field_str("{'x': 1}", "y"), None);
    assert_eq!(parse_shape_tuple("( 3 , )"), Ok(vec![3]));
    assert_eq!(parse_shape_tuple("()"), Ok(vec![]));
}

// The bank of voices.

#[test]
fn a_bank_is_read_from_its_archive() {
    let bank = VoiceBank::load("v.bin", Ok(bank())).unwrap();
    assert_eq!(bank.voice_ids(), ["a", "b"]);
    assert_eq!(bank.voice_slice("a", 0), Ok(vec![10; STYLE_DIM]));
    assert_eq!(bank.voice_slice("a", 1), Ok(vec![11; STYLE_DIM]));
    assert_eq!(bank.voice_slice("a", 999), Ok(vec![11; STYLE_DIM]));
    assert_eq!(bank.voice_slice("b", 2), Ok(vec![22; STYLE_DIM]));
    // An unknown voice takes the first of the bank.
    assert_eq!(bank.voice_slice("zz", 0), Ok(vec![10; STYLE_DIM]));
}

#[test]
fn an_unknown_voice_has_its_stand_ins() {
    let with_heart = archive(&[("a.npy", style_table(1, 1)), ("af_heart.npy", style_table(1, 2))]);
    let heart = VoiceBank::load("v", Ok(with_heart)).unwrap();
    assert_eq!(heart.voice_slice("zz", 0), Ok(vec![2; STYLE_DIM]));
    let with_dora = archive(&[
        ("af_heart.npy", style_table(1, 2)),
        ("ef_dora.npy", style_table(1, 3)),
    ]);
    let dora = VoiceBank::load("v", Ok(with_dora)).unwrap();
    assert_eq!(dora.voice_slice("zz", 0), Ok(vec![3; STYLE_DIM]));
    assert_eq!(
        VoiceBank::new().voice_slice("zz", 0),
        Err(TtsError::UnknownVoice("zz".to_string()))
    );
    let empty = archive(&[("a.npy", style_table(0, 0))]);
    assert_eq!(
        VoiceBank::load("v", Ok(empty)).unwrap().voice_slice("a", 0),
        Err(TtsError::InvalidVoiceConfig("voz 'a' tiene tabla de estilos vacía".to_string()))
    );
}

#[test]
fn each_fault_of_a_bank_is_told_apart() {
    let load = |file: Result<Vec<u8>, String>| VoiceBank::load("v.bin", file).unwrap_err();
    assert_eq!(
        load(Err("gone".to_string())),
        backend("abrir voices-v1.0.bin (v.bin): gone")
    );
    match load(Ok(b"no zip".to_vec())) {
        TtsError::Backend(e) => assert!(e.starts_with("parse NPZ (v.bin): "), "{e}"),
        other => panic!("{other:?}"),
    }
    assert_eq!(
        load(Ok(archive(&[("readme.txt", b"nada".to_vec())]))),
        TtsError::InvalidVoiceConfig(
            "voices-v1.0.bin no contiene entradas .npy válidas (v.bin)".to_string()
        )
    );
    assert_eq!(
        load(Ok(archive(&[("a.npy", b"nada".to_vec())]))),
        backend("NPY: magic header ausente")
    );
    let mut bank = VoiceBank::new();
    assert_eq!(
        bank.add_entry("a".to_string(), "a.npy", Err("crc".to_string())),
        Err(backend("leer entry a.npy: crc"))
    );
    assert!(bank.voice_ids().is_empty());
}

#[test]
fn the_later_of_two_tables_counts() {
    let mut bank = VoiceBank::new();
    for first in [5, 6] {
        bank.add_entry("a".to_string(), "a.npy", Ok(style_table(1, first))).unwrap();
    }
    assert_eq!(bank.voice_ids(), ["a"]);
    assert_eq!(bank.voice_slice("a", 0), Ok(vec![6; STYLE_DIM]));
}

// Kokoro.

fn session() -> KokoroSession {
    let mut session = KokoroSession::empty();
    session.load("k.onnx", Ok(())).unwrap();
    session.load_voices("v.bin", Ok(bank())).unwrap();
    session
}

#[test]
fn a_run_is_padded_and_bounded() {
    let s = session();
    assert!(s.is_loaded());
    let job = s.infer(&[7], "b", 1500).unwrap();
    assert_eq!(job.input_ids, [0, 7, 0]);
    assert_eq!(job.style, vec![21; STYLE_DIM]);
    assert_eq!(job.speed_milli, 1500);
    let long: Vec<i64> = (1..=600).collect();
    let job = s.infer(&long, "a", 1000).unwrap();
    assert_eq!(job.input_ids.len(), MAX_TOKENS + 2);
    assert_eq!(job.input_ids[MAX_TOKENS], MAX_TOKENS as i64);
    assert_eq!(job.input_ids[MAX_TOKENS + 1], 0);
}

#[test]
fn each_fault_of_a_run_is_told_apart() {
    let s = session();
    assert_eq!(
        s.infer(&[], "a", 1000),
        Err(backend("KokoroSession::infer con phoneme_ids vacío"))
    );
    assert_eq!(s.infer(&[1], "a", 499), Err(backend("speed 0.499 fuera de rango [0.5, 2.0]")));
    assert_eq!(s.infer(&[1], "a", 2500), Err(backend("speed 2.5 fuera de rango [0.5, 2.0]")));
    assert!(s.infer(&[1], "a", 500).is_ok());
    assert!(s.infer(&[1], "a", 2000).is_ok());
    let empty = KokoroSession::empty();
    assert_eq!(empty.infer(&[1], "a", 1000), Err(backend("banco de voces no cargado")));
    let mut voices_only = KokoroSession::empty();
    voices_only.load_voices("v.bin", Ok(bank())).unwrap();
    assert_eq!(
        voices_only.infer(&[1], "a", 1000),
        Err(backend("KokoroSession::infer con sesión no cargada"))
    );
    let rowless = archive(&[("a.npy", style_table(0, 0))]);
    voices_only.load_voices("v.bin", Ok(rowless)).unwrap();
    assert_eq!(
        voices_only.infer(&[1], "a", 1000),
        Err(backend("KokoroSession::infer con sesión no cargada"))
    );
    voices_only.load("k.onnx", Ok(())).unwrap();
    assert!(matches!(
        voices_only.infer(&[1], "a", 1000),
        Err(TtsError::InvalidVoiceConfig(_))
    ));
}

#[test]
fn speeds_are_written_as_decimal_numbers() {
    for (n, expected) in
        [(0, "0"), (1, "0.001"), (50, "0.05"), (500, "0.5"), (1000, "1"), (1050, "1.05"), (65535, "65.535")]
    {
        assert_eq!(write_thousandths(n), expected);
        assert_eq!(write_thousandths(n), format!("{}", f32::from(n) / 1000.0));
    }
}

#[test]
fn a_loaded_engine_reads() {
    let mut engine = KokoroEngine::new("em_alex");
    assert_eq!(engine.warm_up(), Ok(None));
    let voices = archive(&[("em_alex.npy", style_table(600, 1))]);
    engine.load("k.onnx", Ok(()), Some(("v.bin".to_string(), Ok(voices)))).unwrap();
    assert!(engine.is_loaded());
    assert_eq!(engine.model_path(), Some("k.onnx"));
    let ids = phonemize("hola", "em_alex").unwrap();
    let job = engine.synthesize(" hola ").unwrap();
    assert_eq!(job.input_ids[1..job.input_ids.len() - 1], ids);
    assert_eq!(job.style, vec![1 + ids.len() as u32; STYLE_DIM]);
    assert!(engine.warm_up().unwrap().is_some());

    assert_eq!(
        engine.load("gone.onnx", Err(SessionFault::Missing), None),
        Err(TtsError::ModelNotFound("gone.onnx".to_string()))
    );
    assert_eq!(
        engine.load("bad.onnx", Err(SessionFault::Commit("x".to_string())), None),
        Err(backend("commit_from_file: x"))
    );
    assert_eq!(
        engine.load("bad.onnx", Err(SessionFault::Builder("x".to_string())), None),
        Err(backend("ort SessionBuilder: x"))
    );
    assert!(engine.is_loaded());
    assert_eq!(engine.model_path(), Some("k.onnx"));
}

#[test]
fn a_model_that_cannot_be_opened_leaves_an_empty_session() {
    let mut engine = KokoroEngine::default();
    assert!(engine.load("gone.onnx", Err(SessionFault::Missing), None).is_err());
    assert_eq!(engine.synthesize("hi"), Err(backend("modelo no cargado")));
    assert!(engine.load("bad.onnx", Err(SessionFault::Commit("x".to_string())), None).is_err());
    assert_eq!(engine.synthesize("hi"), Err(backend("modelo o banco de voces no cargado")));
    assert_eq!(engine.model_path(), None);
}

#[test]
fn a_model_without_voices_cannot_read() {
    let mut engine = KokoroEngine::default();
    assert_eq!(engine.voice_id(), "af_heart");
    engine.load("k.onnx", Ok(()), Some(("v.bin".to_string(), Ok(Vec::new())))).unwrap();
    assert!(!engine.is_loaded());
    assert_eq!(engine.synthesize("hi"), Err(backend("modelo o banco de voces no cargado")));
    assert!(engine.load_voices("v.bin", Err("gone".to_string())).is_err());
    engine.load_voices("v.bin", Ok(bank())).unwrap();
    assert!(engine.is_loaded());
    assert_eq!(engine.synthesize("  "), Err(TtsError::TextTooShort));
}

#[test]
fn phonemes_decide_what_is_read() {
    let s = session();
    assert_eq!(
        read_phonemes(&s, "a", 1000, " x ", Ok(Vec::new())),
        Err(TtsError::Phonemization("G2P no produjo fonemas para 'x'".to_string()))
    );
    assert_eq!(
        read_phonemes(&s, "a", 1000, "x", Err(TtsError::TextTooShort)),
        Err(TtsError::TextTooShort)
    );
    assert_eq!(
        read_phonemes(&s, "a", 1000, "x", Ok(vec![3])).unwrap().input_ids,
        [0, 3, 0]
    );
}

#[test]
fn unknown_phonemes_are_left_out() {
    let a = lookup_phoneme('a').unwrap();
    let n = lookup_phoneme('n').unwrap();
    assert_eq!(english_ids("a\u{1F600}n", "x"), Ok(vec![a, n]));
    assert_eq!(
        english_ids("\u{1F600}", "x"),
        Err(TtsError::Phonemization("ningún fonema reconocible para 'x'".to_string()))
    );
    let tokens = vec!["á".to_string(), "¿".to_string(), "ñ".to_string()];
    assert_eq!(
        spanish_ids(&tokens, "x"),
        Ok(vec![a, lookup_phoneme('?').unwrap(), lookup_phoneme('ɲ').unwrap()])
    );
}

#[test]
fn an_english_text_is_spoken_word_by_word() {
    let g2p = EnglishG2p::new();
    for blank in ["", " ", "\n\t", "\u{3000}"] {
        assert_eq!(g2p.phonemes(blank), Ok(String::new()));
    }
    for text in ["hello", " hello world ", "xyzqwop", "42", "--", "caf\u{e9}", "\u{1F600}", "?"] {
        let phonemes = g2p.phonemes(text).unwrap();
        assert!(phonemes.ends_with(' '), "{text:?}: {phonemes:?}");
        assert_ne!(phonemes.trim(), text.trim());
    }
}

#[test]
fn white_space_and_the_voice_do_not_change_a_conversion() {
    assert_eq!(phonemize(" hola\n", "ef_dora"), phonemize("hola", "em_alex"));
    assert!(phonemize("hola", "ef_dora").is_ok());
    let mut english = None;
    let plain = phonemize_with(&mut english, "hello", "af_heart");
    assert!(plain.is_ok());
    assert_eq!(phonemize_with(&mut english, "\thello ", "am_adam"), plain);
    assert_eq!(
        phonemize_with(&mut english, " \n", "af_heart"),
        Err(TtsError::TextTooShort)
    );
}

#[test]
fn the_phonemes_of_a_text_come_with_their_numbers() {
    let (ids, phonemes) = phonemize_debug(" hello ").unwrap();
    assert!(phonemes.ends_with(' '));
    assert_eq!(english_ids(&phonemes, "hello"), Ok(ids));
    assert_eq!(phonemize_debug("\t"), Err(TtsError::TextTooShort));
}

#[test]
fn a_shape_needs_no_parentheses() {
    for s in ["511, 256", " 3 ,2 ", "7", "", " , 4", "+5,,6"] {
        assert_eq!(parse_shape_tuple(&format!("({s})")), parse_shape_tuple(s));
        assert_eq!(parse_shape_tuple(&format!("{s},")), parse_shape_tuple(s));
    }
    assert_eq!(parse_shape_tuple("+5,,6"), Ok(vec![5, 6]));
    assert_eq!(parse_shape_tuple(" , 4"), Ok(vec![4]));
    assert_eq!(
        parse_shape_tuple("1, x ,2"),
        Err(backend("NPY: shape no entero 'x': invalid digit found in string"))
    );
}

#[test]
fn texts_that_cannot_be_read_are_noticed() {
    for text in ["singing", "ñing", "éingham", "ñañing's", "\u{212A}ing", "'ñing", "ñ ing"] {
        assert!(can_read_english(text), "{text}");
    }
    for text in ["ñañing", "ÑAÑING.", "o'ñing", "日ing", "ñañing'"] {
        assert!(!can_read_english(text), "{text}");
    }
    let g2p = EnglishG2p::new();
    assert!(g2p.phonemes("ñing éingham ñañing's \u{212A}ing 'ñing ñ ing").is_ok());
    assert!(can_read_spanish("queso"));
    for text in ["qqa", "qqan", "qqato", "qqat", "QQ\u{301}", "qqq qá", "q qa", "qqqápa", "qqiá"] {
        assert!(can_read_spanish(text), "{text}");
        assert!(phonemize(text, "ef_dora").is_ok() || !text.contains('a'), "{text}");
    }
    for text in ["qqá", "qqqat", "qqah", "QQA\u{301}", "hola qqé", "qqapá"] {
        assert!(!can_read_spanish(text), "{text}");
    }
    assert!(can_read("qqa", "af_heart"));
    assert!(!can_read("qqá", "ef_dora"));
}

// Piper.

fn piper_map() -> PhonemeIdMap {
    let mut map = PhonemeIdMap::new();
    for (phoneme, id) in [("^", 1), ("_", 0), ("$", 2), ("a", 10), ("o", 11)] {
        map.insert(phoneme.to_string(), vec![id]);
    }
    map
}

fn piper_source(map: Option<PhonemeIdMap>) -> ConfigSource {
    ConfigSource::Parsed(RawPiperVoiceConfig {
        audio: Some(RawAudio { sample_rate: 16_000 }),
        espeak: None,
        inference: None,
        phoneme_id_map: map,
        num_symbols: None,
        num_speakers: None,
    })
}

#[test]
fn tokens_become_a_run() {
    let session = match PiperSession::load(
        Desktop::OtherUnix,
        "v.onnx",
        piper_source(Some(piper_map())),
        Ok(()),
    ) {
        Ok(session) => session,
        Err(e) => panic!("{e:?}"),
    };
    assert!(session.is_loaded());
    assert_eq!(session.sample_rate_hz(), 16_000);
    let tokens = vec!["a".to_string(), "?".to_string(), "o".to_string()];
    let job = read_tokens(&session, 2000, "x", Ok(tokens)).unwrap();
    assert_eq!(job.input[0], 1);
    assert_eq!(*job.input.last().unwrap(), 2);
    assert!(job.input.contains(&10) && job.input.contains(&11));
    assert_eq!(
        (job.noise_scale, job.length_scale, job.noise_w),
        (DEFAULT_NOISE_SCALE, DEFAULT_LENGTH_SCALE, DEFAULT_NOISE_W)
    );
    assert_eq!((job.speed_milli, job.sample_rate_hz), (2000, 16_000));
    assert_eq!(
        read_tokens(&session, 1000, " x ", Ok(Vec::new())),
        Err(TtsError::Phonemization("G2P no produjo fonemas para 'x'".to_string()))
    );
    assert!(session.infer(Vec::new(), 1000).is_err());
}

#[test]
fn the_defaults_are_the_documented_numbers() {
    assert_eq!(DEFAULT_NOISE_SCALE, 0.667f32.to_bits());
    assert_eq!(DEFAULT_LENGTH_SCALE, 1.0f32.to_bits());
    assert_eq!(DEFAULT_NOISE_W, 0.8f32.to_bits());
}

#[test]
fn each_fault_of_a_configuration_is_told_apart() {
    let load = |source: ConfigSource| match PiperVoiceConfig::load("v.json", source) {
        Ok(_) => panic!("esperaba un error"),
        Err(e) => e.message(),
    };
    assert_eq!(
        load(ConfigSource::Unreadable("x".to_string())),
        "configuración de voz inválida: no se pudo leer 'v.json': x"
    );
    assert_eq!(
        load(ConfigSource::Malformed("x".to_string())),
        "configuración de voz inválida: JSON inválido en 'v.json': x"
    );
    assert!(load(piper_source(None))
        .starts_with("configuración de voz inválida: config 'v.json' inválida: "));
}

#[test]
fn a_piper_engine_reads_in_the_language_of_its_voice() {
    let mut engine = PiperEngine::new("es_ES-davefx-medium");
    engine
        .load(Desktop::OtherUnix, "v.onnx", piper_source(Some(piper_map())), Ok(()))
        .unwrap();
    assert!(engine.is_loaded());
    assert_eq!(engine.sample_rate_hz(), 16_000);
    assert_eq!(engine.engine_kind(), TtsEngineKind::Piper);
    let job = engine.synthesize("hola").unwrap();
    assert_eq!(job.input[0], 1);
    assert!(job.input.contains(&10));
    assert_eq!(engine.synthesize(" "), Err(TtsError::TextTooShort));
    engine.set_voice("zz");
    assert_eq!(
        engine.synthesize("hola"),
        Err(TtsError::Phonemization(
            "voz 'zz' sin idioma inferible (BCP-47 ausente)".to_string()
        ))
    );
}

#[test]
fn the_phonemizers_convert() {
    for (language, text) in
        [(Language::Es, "hola"), (Language::Pt, "olá"), (Language::Fr, "bonjour")]
    {
        let g2p = match G2p::new(language, &Err("x".to_string())) {
            Ok(g2p) => g2p,
            Err(e) => panic!("{e:?}"),
        };
        assert_eq!(g2p.language(), language);
        let tokens = g2p.phonemize(text).unwrap();
        assert!(!tokens.is_empty());
        assert_ne!(tokens.concat(), text);
        let mut cache = PhonemizerCache::new();
        assert_eq!(phonemize_with_cache(&mut cache, language, text), Ok(tokens));
    }
}

#[test]
fn the_configuration_stands_beside_the_model() {
    let unix = Desktop::OtherUnix;
    assert_eq!(config_path_for(unix, "/m/v.onnx"), "/m/v.onnx.json");
    for (path, expected) in [
        ("/m/", "/m.onnx.json"),
        ("/m/.", "/m.onnx.json"),
        ("m//./", "m.onnx.json"),
        (".voz", ".voz.onnx.json"),
        ("a.b/voz", "a.b/voz.onnx.json"),
        ("voz.", "voz.onnx.json"),
        ("..", ".."),
        ("a/..", "a/.."),
        (".", "."),
        ("/", "/"),
        ("", ""),
    ] {
        assert_eq!(config_path_for(unix, path), expected);
        let mut std_path = std::path::PathBuf::from(path);
        std_path.set_extension("onnx.json");
        assert_eq!(std_path, std::path::PathBuf::from(expected));
    }
    assert_eq!(config_path_for(Desktop::Windows, "C:"), "C:");
    assert_eq!(config_path_for(Desktop::Windows, "C:.onnx"), "C:.onnx.onnx.json");
}

#[test]
fn a_path_without_a_file_name_is_answered() {
    let mut engine = PiperEngine::new("es_ES-davefx-medium");
    assert_eq!(
        engine.load(
            Desktop::OtherUnix,
            "..",
            ConfigSource::Unreadable("x".to_string()),
            Err(SessionFault::Missing),
        ),
        Err(TtsError::ModelNotFound("..".to_string()))
    );
    assert!(matches!(
        engine.load(
            Desktop::OtherUnix,
            "..",
            ConfigSource::Unreadable("x".to_string()),
            Ok(()),
        ),
        Err(TtsError::InvalidVoiceConfig(_))
    ));
    assert!(!engine.is_loaded());
}

#[test]
fn a_backslash_parts_directories_on_windows_alone() {
    for (desktop, path) in [
        (Desktop::OtherUnix, "a.onnx.json"),
        (Desktop::MacOs, "a.onnx.json"),
        (Desktop::Windows, "a.b\\c.onnx.json"),
    ] {
        assert_eq!(config_path_for(desktop, "a.b\\c"), path);
    }
    assert_eq!(config_path_for(Desktop::OtherUnix, "m\\"), "m\\.onnx.json");
    assert_eq!(config_path_for(Desktop::Windows, "m\\"), "m.onnx.json");
}

const DICTIONARY: &str = r#"{"hello": "HH AH0 L OW1", "a": 7, "b": null}"#;

fn dictionary() -> Result<Vec<u8>, String> {
    Ok(DICTIONARY.as_bytes().to_vec())
}

#[test]
fn english_is_read_with_its_dictionary() {
    let g2p = match G2p::new(Language::En, &dictionary()) {
        Ok(g2p) => g2p,
        Err(e) => panic!("{e:?}"),
    };
    assert_eq!(g2p.language(), Language::En);
    assert_eq!(g2p.phonemize("Hello").unwrap(), ["h", "ə", "l", "ˈ", "o", "ʊ"]);
    let mut cache = PhonemizerCache::new();
    cache.set_dictionary(dictionary());
    assert_eq!(
        phonemize_with_cache(&mut cache, Language::En, "hello"),
        g2p.phonemize("hello")
    );
    assert!(cache.has(Language::En));
    cache.set_dictionary(Err("x".to_string()));
    assert_eq!(
        phonemize_with_cache(&mut cache, Language::En, "hello"),
        g2p.phonemize("hello")
    );
}

#[test]
fn english_needs_its_dictionary() {
    let head = "no se pudo inicializar EnglishPhonemizer (¿falta CMUDict?): ";
    match G2p::new(Language::En, &Err("x".to_string())) {
        Ok(_) => panic!("esperaba un error"),
        Err(e) => assert_eq!(e, TtsError::Phonemization(format!("{head}x"))),
    }
    for bytes in ["", "[]", "{"] {
        match G2p::new(Language::En, &Ok(bytes.as_bytes().to_vec())) {
            Ok(_) => panic!("esperaba un error"),
            Err(TtsError::Phonemization(m)) => {
                assert!(m.starts_with(&format!("{head}dictionary load error: ")))
            }
            Err(e) => panic!("{e:?}"),
        }
    }
    let mut cache = PhonemizerCache::new();
    assert!(phonemize_with_cache(&mut cache, Language::Es, "hola").is_ok());
    assert!(phonemize_with_cache(&mut cache, Language::En, "hello").is_err());
    assert!(cache.has(Language::Es));
}

#[test]
fn an_english_engine_asks_for_its_dictionary() {
    let mut engine = PiperEngine::new("en_US-lessac-medium");
    let mut map = piper_map();
    map.insert("l".to_string(), vec![12]);
    assert!(engine.needs_dictionary());
    engine.load(Desktop::OtherUnix, "v.onnx", piper_source(Some(map)), Ok(())).unwrap();
    assert_eq!(
        engine.synthesize("hello"),
        Err(TtsError::Phonemization(
            "no se pudo inicializar EnglishPhonemizer (¿falta CMUDict?): dictionary load error: \
             cmudict_data.json not found. Set CMUDICT_PATH env var or place dictionary at \
             ./cmudict_data.json"
                .to_string()
        ))
    );
    assert!(engine.needs_dictionary());
    engine.set_dictionary(dictionary());
    assert_eq!(engine.synthesize("hello").unwrap().input, [1, 0, 12, 0, 11, 0, 2]);
    assert!(!engine.needs_dictionary());
    assert_eq!(engine.warm_up().unwrap().unwrap().input, [1, 0, 12, 0, 11, 0, 2]);
    engine.set_voice("es_ES-davefx-medium");
    assert!(!engine.needs_dictionary());
}

#[test]
fn only_a_long_encoding_is_cut() {
    let mut map = PhonemeIdMap::new();
    for (phoneme, id) in [("^", 1), ("_", 0), ("$", 2), ("a", 10)] {
        map.insert(phoneme.to_string(), vec![id]);
    }
    map.insert("b".to_string(), vec![20, 21]);
    let special = SpecialIds::from_map(&map).unwrap();
    let mut tokens = vec!["a".to_string(); 126];
    let (ids, report) = encode(&tokens, &map, special);
    assert_eq!(report, EncodeReport { truncated: false, skipped: 0 });
    assert_eq!(ids.len(), 255);
    tokens.push("?".to_string());
    let (ids, report) = encode(&tokens, &map, special);
    assert_eq!(report, EncodeReport { truncated: false, skipped: 1 });
    assert_eq!(ids.len(), 255);
    tokens.push("a".to_string());
    let (ids, report) = encode(&tokens, &map, special);
    assert_eq!(report, EncodeReport { truncated: true, skipped: 1 });
    assert_eq!(ids.len(), 255);
    let mut full = vec!["a".to_string(); 125];
    full.push("b".to_string());
    let (ids, report) = encode(&full, &map, special);
    assert_eq!(report, EncodeReport { truncated: false, skipped: 0 });
    assert_eq!(ids.len(), MAX_PHONEMES);
}

// What both engines share.

#[test]
fn audio_is_checked_and_errors_have_texts() {
    assert_eq!(
        finish_synthesis(Vec::new(), 24_000),
        Err(backend("ort devolvió tensor de audio vacío"))
    );
    assert_eq!(
        finish_synthesis(vec![1], 24_000),
        Ok(AudioChunk { samples: vec![1], sample_rate_hz: 24_000 })
    );
    assert_eq!(AudioChunk::silence(10, 22_050).samples, vec![0; 220]);
    assert_eq!(
        TtsError::ModelNotFound("m".to_string()).message(),
        "modelo no encontrado: m"
    );
}

//! The configuration file that comes with a Piper voice.
use vstd::prelude::*;
use vstd::string::*;

use crate::tts::engine::{TtsError, TtsFault};
use crate::tts::piper::phoneme::PhonemeIdMap;

verus! {

/// The `audio` object of a configuration file.
#[derive(Debug)]
pub struct RawAudio {
    pub sample_rate: u32,
}

/// The `espeak` object of a configuration file.
#[derive(Debug)]
pub struct RawEspeak {
    pub voice: Option<String>,
}

/// The `inference` object of a configuration file. The numbers are the bit
/// patterns of 32-bit floats.
#[derive(Debug)]
pub struct RawInference {
    pub noise_scale: Option<u32>,
    pub length_scale: Option<u32>,
    pub noise_w: Option<u32>,
}

/// A configuration file as it stands: every part may be missing.
pub struct RawPiperVoiceConfig {
    pub audio: Option<RawAudio>,
    pub espeak: Option<RawEspeak>,
    pub inference: Option<RawInference>,
    pub phoneme_id_map: Option<PhonemeIdMap>,
    pub num_symbols: Option<u16>,
    pub num_speakers: Option<u8>,
}

/// What reading and parsing a configuration file gave.
pub enum ConfigSource {
    /// The file could not be read, for this reason.
    Unreadable(String),
    /// The file is no JSON of the expected shape, for this reason.
    Malformed(String),
    Parsed(RawPiperVoiceConfig),
}

/// The configuration of a voice. The scales are the bit patterns of 32-bit
/// floats.
pub struct PiperVoiceConfig {
    pub audio_sample_rate: u32,
    /// The language code of the voice; empty where the file has none.
    pub espeak_voice: String,
    /// How long the phonemes are held.
    pub length_scale: u32,
    pub noise_scale: u32,
    pub noise_w: u32,
    pub num_symbols: u16,
    pub num_speakers: u8,
    pub phoneme_id_map: PhonemeIdMap,
}

/// The sample rate of a voice that is not loaded.
pub const DEFAULT_SAMPLE_RATE_HZ: u32 = 22_050;

/// The bit pattern of 0.667.
pub const DEFAULT_NOISE_SCALE: u32 = 0x3F2A_C083;

/// The bit pattern of 1.0.
pub const DEFAULT_LENGTH_SCALE: u32 = 0x3F80_0000;

/// The bit pattern of 0.8.
pub const DEFAULT_NOISE_W: u32 = 0x3F4C_CCCD;

pub const DEFAULT_NUM_SYMBOLS: u16 = 256;

/// A value, or what stands for it where it is missing.
pub open spec fn or_default<T>(value: Option<T>, default: T) -> T {
    match value {
        Some(value) => value,
        None => default,
    }
}

/// What is wrong with a configuration, if anything.
pub open spec fn config_fault(raw: RawPiperVoiceConfig) -> Option<Seq<char>> {
    match raw.audio {
        None => Some("campo obligatorio 'audio' ausente"@),
        Some(audio) => if audio.sample_rate == 0 {
            Some("audio.sample_rate debe ser > 0"@)
        } else if raw.phoneme_id_map is None {
            Some("campo obligatorio 'phoneme_id_map' ausente"@)
        } else {
            None
        },
    }
}

/// Whether `config` is what `raw` configures, with the defaults for what is
/// missing.
pub open spec fn configures(raw: RawPiperVoiceConfig, config: PiperVoiceConfig) -> bool {
    let inference = or_default(
        raw.inference,
        RawInference { noise_scale: None, length_scale: None, noise_w: None },
    );
    &&& raw.audio matches Some(audio) && config.audio_sample_rate == audio.sample_rate
    &&& raw.phoneme_id_map matches Some(map) && config.phoneme_id_map@ == map@
    &&& config.espeak_voice@ == (match raw.espeak {
        Some(espeak) => match espeak.voice {
            Some(voice) => voice@,
            None => Seq::empty(),
        },
        None => Seq::empty(),
    })
    &&& config.noise_scale == or_default(inference.noise_scale, DEFAULT_NOISE_SCALE)
    &&& config.length_scale == or_default(inference.length_scale, DEFAULT_LENGTH_SCALE)
    &&& config.noise_w == or_default(inference.noise_w, DEFAULT_NOISE_W)
    &&& config.num_symbols == or_default(raw.num_symbols, DEFAULT_NUM_SYMBOLS)
    &&& config.num_speakers == or_default(raw.num_speakers, 1)
}

/// Why the configuration at `path` is of no use, if it is not.
pub open spec fn source_fault(path: Seq<char>, source: ConfigSource) -> Option<TtsFault> {
    match source {
        ConfigSource::Unreadable(e) => Some(
            TtsFault::InvalidVoiceConfig("no se pudo leer '"@ + path + "': "@ + e@),
        ),
        ConfigSource::Malformed(e) => Some(
            TtsFault::InvalidVoiceConfig("JSON inválido en '"@ + path + "': "@ + e@),
        ),
        ConfigSource::Parsed(raw) => match config_fault(raw) {
            Some(fault) => Some(
                TtsFault::InvalidVoiceConfig("config '"@ + path + "' inválida: "@ + fault),
            ),
            None => None,
        },
    }
}

fn about(before: &str, path: &str, between: &str, reason: &str) -> (r: TtsError)
    ensures
        r@ == TtsFault::InvalidVoiceConfig(before@ + path@ + between@ + reason@),
{
    let mut message = before.to_owned();
    message.append(path);
    message.append(between);
    message.append(reason);
    TtsError::InvalidVoiceConfig(message)
}

fn given_or(value: Option<u32>, default: u32) -> (r: u32)
    ensures
        r == or_default(value, default),
{
    match value {
        Some(value) => value,
        None => default,
    }
}

impl PiperVoiceConfig {
    /// Fills in what a configuration file leaves out.
    pub fn from_raw(raw: RawPiperVoiceConfig) -> (r: Result<Self, String>)
        ensures
            match r {
                Ok(config) => config_fault(raw) is None && configures(raw, config),
                Err(e) => config_fault(raw) == Some(e@),
            },
    {
        let audio_sample_rate: u32 = match raw.audio {
            Some(audio) => audio.sample_rate,
            None => {
                return Err("campo obligatorio 'audio' ausente".to_owned());
            },
        };
        if audio_sample_rate == 0 {
            return Err("audio.sample_rate debe ser > 0".to_owned());
        }
        let phoneme_id_map = match raw.phoneme_id_map {
            Some(map) => map,
            None => {
                return Err("campo obligatorio 'phoneme_id_map' ausente".to_owned());
            },
        };
        let inference = match raw.inference {
            Some(inference) => inference,
            None => RawInference { noise_scale: None, length_scale: None, noise_w: None },
        };
        let espeak_voice = match raw.espeak {
            Some(RawEspeak { voice: Some(voice) }) => voice,
            _ => String::new(),
        };
        let num_symbols: u16 = match raw.num_symbols {
            Some(n) => n,
            None => DEFAULT_NUM_SYMBOLS,
        };
        let num_speakers: u8 = match raw.num_speakers {
            Some(n) => n,
            None => 1,
        };
        assert(raw.espeak is None || raw.espeak->Some_0.voice is None ==> espeak_voice@
            =~= Seq::<char>::empty());
        Ok(
            PiperVoiceConfig {
                audio_sample_rate,
                espeak_voice,
                length_scale: given_or(inference.length_scale, DEFAULT_LENGTH_SCALE),
                noise_scale: given_or(inference.noise_scale, DEFAULT_NOISE_SCALE),
                noise_w: given_or(inference.noise_w, DEFAULT_NOISE_W),
                num_symbols,
                num_speakers,
                phoneme_id_map,
            },
        )
    }

    /// The configuration of a voice, given what reading and parsing the file
    /// at `path` gave.
    pub fn load(path: &str, source: ConfigSource) -> (r: Result<Self, TtsError>)
        ensures
            match r {
                Ok(config) => source_fault(path@, source) is None && (source matches
                    ConfigSource::Parsed(raw) && configures(raw, config)),
                Err(e) => source_fault(path@, source) == Some(e@),
            },
    {
        match source {
            ConfigSource::Unreadable(e) => Err(about("no se pudo leer '", path, "': ", e.as_str())),
            ConfigSource::Malformed(e) => Err(about("JSON inválido en '", path, "': ", e.as_str())),
            ConfigSource::Parsed(raw) => match PiperVoiceConfig::from_raw(raw) {
                Ok(config) => Ok(config),
                Err(e) => Err(about("config '", path, "' inválida: ", e.as_str())),
            },
        }
    }
}

/// A voice that is accepted has a sample rate.
pub proof fn an_accepted_voice_has_a_sample_rate(
    path: Seq<char>,
    raw: RawPiperVoiceConfig,
    config: PiperVoiceConfig,
)
    requires
        configures(raw, config),
    ensures
        source_fault(path, ConfigSource::Parsed(raw)) is None ==> config.audio_sample_rate > 0,
{
}

/// What a configuration file gives is kept, each value in its own place.
pub proof fn given_values_are_kept(raw: RawPiperVoiceConfig, config: PiperVoiceConfig)
    requires
        configures(raw, config),
    ensures
        raw.audio matches Some(audio) ==> config.audio_sample_rate == audio.sample_rate,
        raw.inference matches Some(inference) ==> {
            &&& inference.noise_scale matches Some(x) ==> config.noise_scale == x
            &&& inference.length_scale matches Some(x) ==> config.length_scale == x
            &&& inference.noise_w matches Some(x) ==> config.noise_w == x
        },
        raw.num_symbols matches Some(n) ==> config.num_symbols == n,
        raw.num_speakers matches Some(n) ==> config.num_speakers == n,
        raw.espeak matches Some(espeak) ==> (espeak.voice matches Some(voice)
            ==> config.espeak_voice@ == voice@),
        raw.phoneme_id_map matches Some(map) ==> config.phoneme_id_map@ == map@,
{
}

/// What a configuration file leaves out has the values that Piper gives it:
/// 0.667, 1.0 and 0.8 for the scales as floats, 256 symbols, one speaker and no
/// language.
pub proof fn missing_values_have_defaults(raw: RawPiperVoiceConfig, config: PiperVoiceConfig)
    requires
        configures(raw, config),
    ensures
        raw.inference is None || raw.inference->0.noise_scale is None ==> config.noise_scale
            == 0x3F2A_C083,
        raw.inference is None || raw.inference->0.length_scale is None ==> config.length_scale
            == 0x3F80_0000,
        raw.inference is None || raw.inference->0.noise_w is None ==> config.noise_w == 0x3F4C_CCCD,
        raw.num_symbols is None ==> config.num_symbols == 256,
        raw.num_speakers is None ==> config.num_speakers == 1,
        raw.espeak is None || raw.espeak->0.voice is None ==> config.espeak_voice@.len() == 0,
{
}

/// A configuration is of use exactly where it has a sample rate that is not
/// nought and the numbers of the phonemes. Whatever else is missing does not
/// matter, and what is missing is named in that order.
pub proof fn a_configuration_needs_rate_and_phonemes(raw: RawPiperVoiceConfig)
    ensures
        config_fault(raw) is None <==> (raw.audio matches Some(audio) && audio.sample_rate > 0)
            && raw.phoneme_id_map is Some,
        raw.audio is None ==> config_fault(raw) == Some("campo obligatorio 'audio' ausente"@),
        raw.audio matches Some(audio) ==> (audio.sample_rate == 0 ==> config_fault(raw) == Some(
            "audio.sample_rate debe ser > 0"@,
        )),
        (raw.audio matches Some(audio) && audio.sample_rate > 0) && raw.phoneme_id_map is None
            ==> config_fault(raw) == Some("campo obligatorio 'phoneme_id_map' ausente"@),
{
}

/// A configuration that is of no use is refused with the path of its file and
/// the reason.
pub proof fn a_refusal_names_file_and_reason(path: Seq<char>, source: ConfigSource)
    ensures
        match source {
            ConfigSource::Unreadable(e) => source_fault(path, source) == Some(
                TtsFault::InvalidVoiceConfig("no se pudo leer '"@ + path + "': "@ + e@),
            ),
            ConfigSource::Malformed(e) => source_fault(path, source) == Some(
                TtsFault::InvalidVoiceConfig("JSON inválido en '"@ + path + "': "@ + e@),
            ),
            ConfigSource::Parsed(raw) => match config_fault(raw) {
                Some(fault) => source_fault(path, source) == Some(
                    TtsFault::InvalidVoiceConfig("config '"@ + path + "' inválida: "@ + fault),
                ),
                None => source_fault(path, source) is None,
            },
        },
{
}

} // verus!

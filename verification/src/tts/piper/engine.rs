//! The Piper engine: one model for each voice.
use vstd::prelude::*;
use vstd::string::*;

use crate::config::TtsEngineKind;
use crate::text::{
    a_segment_ends_at_the_first_dash, first_segment, segment_of, texts, trim_text, trimmed,
};
use crate::tray::dialog::Desktop;
use crate::tts::engine::{
    describe, usable_speed, voice_views, Engine, SessionFault, TtsError, TtsFault, VoiceDescriptor,
    VoiceView,
};
use crate::tts::piper::config::{configures, ConfigSource, DEFAULT_SAMPLE_RATE_HZ};
use crate::tts::piper::g2p::{
    language_of, no_dictionary, phonemize_with_cache, two_letters_name_a_language, Language,
    PhonemizerCache,
};
use crate::tts::piper::onnx::{
    load_fault, piper_job_view, PiperJob, PiperJobView, PiperSession,
};
use crate::tts::piper::phoneme::{
    encode, encode_first, encoding_is_delimited, special_ids_of, SpecialIds,
};
use crate::tts::piper::spanish::{a_text_without_q_can_be_read, spanish_readable};
use crate::tts::voices::{piper_default_voice, piper_default_voices};

verus! {

/// The value of a voice of this engine.
pub open spec fn piper_voice_view(id: &str, display_name: &str, language: &str) -> VoiceView {
    VoiceView {
        id: id@,
        display_name: display_name@,
        language: language@,
        engine: TtsEngineKind::Piper,
    }
}

/// The voices on offer.
pub open spec fn piper_voices() -> Seq<VoiceView> {
    seq![
        piper_voice_view("es_ES-davefx-medium", "Davefx (es-ES, medium)", "es-ES"),
        piper_voice_view("es_MX-ald-medium", "Ald (es-MX, medium)", "es-MX"),
        piper_voice_view("en_US-lessac-medium", "Lessac (en-US, medium)", "en-US"),
    ]
}

/// The language that the name of a voice tells.
pub open spec fn voice_lang(voice_id: Seq<char>) -> Option<Language> {
    match language_of(voice_id) {
        Some(language) => Some(language),
        None => language_of(first_segment(voice_id)),
    }
}

/// The language after a model was loaded: the one that its configuration
/// names, or else the one from before.
pub open spec fn lang_after(before: Option<Language>, espeak_voice: Seq<char>) -> Option<Language> {
    if espeak_voice.len() == 0 {
        before
    } else {
        match language_of(espeak_voice) {
            Some(language) => Some(language),
            None => before,
        }
    }
}

/// The value of a list of phonemes.
pub open spec fn tokens_view(r: Result<Vec<String>, TtsError>) -> Result<
    Seq<Seq<char>>,
    TtsFault,
> {
    match r {
        Ok(tokens) => Ok(texts(tokens@)),
        Err(e) => Err(e@),
    }
}

/// The run that reads a text, given what its conversion to phonemes gave.
pub open spec fn piper_reading_of(
    session: PiperSession,
    speed_milli: u16,
    text: Seq<char>,
    tokens: Result<Seq<Seq<char>>, TtsFault>,
) -> Result<PiperJobView, TtsFault> {
    match tokens {
        Err(fault) => Err(fault),
        Ok(tokens) => if tokens.len() == 0 {
            Err(
                TtsFault::Phonemization("G2P no produjo fonemas para '"@ + trimmed(text) + "'"@),
            )
        } else {
            let map = session.config.phoneme_id_map@;
            match special_ids_of(map) {
                Err(fault) => Err(fault),
                Ok(special) => if !session.model_loaded {
                    Err(TtsFault::Backend("PiperSession::infer con sesión no cargada"@))
                } else {
                    Ok(
                        PiperJobView {
                            input: encode_first(
                                tokens,
                                map,
                                special,
                                tokens.len() as int,
                            ).ids.push(special.eos),
                            noise_scale: session.config.noise_scale,
                            length_scale: session.config.length_scale,
                            noise_w: session.config.noise_w,
                            speed_milli,
                            sample_rate_hz: session.config.audio_sample_rate,
                        },
                    )
                },
            }
        },
    }
}

/// Prepares the run that reads `text`, given what its conversion to phonemes
/// gave.
pub fn read_tokens(
    session: &PiperSession,
    speed_milli: u16,
    text: &str,
    tokens: Result<Vec<String>, TtsError>,
) -> (r: Result<PiperJob, TtsError>)
    ensures
        piper_job_view(r) == piper_reading_of(*session, speed_milli, text@, tokens_view(tokens)),
{
    let tokens = match tokens {
        Ok(tokens) => tokens,
        Err(e) => {
            return Err(e);
        },
    };
    assert(texts(tokens@).len() == tokens@.len());
    if tokens.len() == 0 {
        let mut message = "G2P no produjo fonemas para '".to_owned();
        message.append(trim_text(text).as_str());
        message.append("'");
        return Err(TtsError::Phonemization(message));
    }
    let map = &session.config().phoneme_id_map;
    let special = match SpecialIds::from_map(map) {
        Ok(special) => special,
        Err(e) => {
            return Err(e);
        },
    };
    let (ids, _) = encode(tokens.as_slice(), map, special);
    session.infer(ids, speed_milli)
}

/// The Piper engine.
pub struct PiperEngine {
    /// The voice that reads.
    pub voice_id: String,
    /// The language of the voice, where it is known.
    pub g2p_lang: Option<Language>,
    /// The model, once it is loaded.
    pub session: Option<PiperSession>,
    /// The file of the model, once it is loaded.
    pub model_path: Option<String>,
    /// The speed in thousandths.
    pub speed_milli: u16,
    /// The phonemizer that was last needed.
    pub g2p_cache: PhonemizerCache,
}

impl PiperEngine {
    /// Whether a model is there.
    pub open spec fn loaded(&self) -> bool {
        self.session matches Some(session) && session.model_loaded
    }

    /// Whether `r` may come of reading `text`: the guards decide, and then the
    /// conversion to phonemes.
    pub open spec fn may_read(&self, text: Seq<char>, r: Result<PiperJobView, TtsFault>) -> bool {
        match self.session {
            None => r == Err::<PiperJobView, TtsFault>(TtsFault::Backend("modelo no cargado"@)),
            Some(session) => if trimmed(text).len() == 0 {
                r == Err::<PiperJobView, TtsFault>(TtsFault::TextTooShort)
            } else {
                match self.g2p_lang {
                    None => r == Err::<PiperJobView, TtsFault>(
                        TtsFault::Phonemization(
                            "voz '"@ + self.voice_id@
                                + "' sin idioma inferible (BCP-47 ausente)"@,
                        ),
                    ),
                    Some(language) => exists|tokens: Result<Vec<String>, TtsError>| #[trigger]
                        self.g2p_cache.gives(tokens, language, trimmed(text)) && r
                            == piper_reading_of(
                            session,
                            self.speed_milli,
                            text,
                            tokens_view(tokens),
                        ),
                }
            },
        }
    }

    /// The voice where the configuration names none.
    pub fn default_voice_id() -> (r: &'static str)
        ensures
            r == "es_ES-davefx-medium",
    {
        piper_default_voice()
    }

    /// An engine with nothing loaded.
    pub fn new(voice: &str) -> (r: Self)
        ensures
            r.wf(),
            r.voice_id@ == voice@,
            r.g2p_lang == voice_lang(voice@),
            r.session is None,
            r.model_path is None,
            r.speed_milli == 1000,
            r.g2p_cache.inner is None,
            r.g2p_cache.dictionary matches Err(reason) && reason@ == no_dictionary(),
    {
        PiperEngine {
            voice_id: voice.to_owned(),
            g2p_lang: PiperEngine::infer_lang_from_voice_id(voice),
            session: None,
            model_path: None,
            speed_milli: 1000,
            g2p_cache: PhonemizerCache::new(),
        }
    }

    /// The language that the name of a voice tells.
    pub fn infer_lang_from_voice_id(voice_id: &str) -> (r: Option<Language>)
        ensures
            r == voice_lang(voice_id@),
    {
        match Language::from_code(voice_id) {
            Some(language) => Some(language),
            None => Language::from_code(segment_of(voice_id).as_str()),
        }
    }

    /// Sets the speed, in thousandths. A speed of nought becomes one
    /// thousandth.
    pub fn set_speed_milli(&mut self, speed_milli: u16)
        requires
            old(self).wf(),
        ensures
            final(self).wf(),
            final(self).speed_milli == if speed_milli == 0 {
                1
            } else {
                speed_milli as int
            },
            final(self).speed_milli == usable_speed(speed_milli),
            final(self).voice_id == old(self).voice_id,
            final(self).g2p_lang == old(self).g2p_lang,
            final(self).session == old(self).session,
            final(self).model_path == old(self).model_path,
            final(self).g2p_cache == old(self).g2p_cache,
    {
        self.speed_milli = if speed_milli == 0 {
            1
        } else {
            speed_milli
        };
    }

    /// Whether the English dictionary is looked for before the next text.
    pub fn needs_dictionary(&self) -> (r: bool)
        ensures
            r == (self.g2p_lang == Some(Language::En) && !self.g2p_cache.keeps(Language::En)),
    {
        match self.g2p_lang {
            Some(Language::En) => !self.g2p_cache.has(Language::En),
            _ => false,
        }
    }

    /// Takes what reading the English dictionary gave.
    pub fn set_dictionary(&mut self, dictionary: Result<Vec<u8>, String>)
        requires
            old(self).wf(),
        ensures
            final(self).wf(),
            final(self).g2p_cache.dictionary == dictionary,
            final(self).g2p_cache.inner == old(self).g2p_cache.inner,
            final(self).voice_id == old(self).voice_id,
            final(self).g2p_lang == old(self).g2p_lang,
            final(self).session == old(self).session,
            final(self).model_path == old(self).model_path,
            final(self).speed_milli == old(self).speed_milli,
    {
        self.g2p_cache.set_dictionary(dictionary);
    }

    /// Takes over a model, given what reading its configuration gave and how
    /// opening it in the runtime went. A model that cannot be loaded changes
    /// nothing.
    pub fn load(
        &mut self,
        desktop: Desktop,
        model_path: &str,
        source: ConfigSource,
        opened: Result<(), SessionFault>,
    ) -> (r: Result<(), TtsError>)
        requires
            old(self).wf(),
        ensures
            final(self).wf(),
            final(self).voice_id == old(self).voice_id,
            final(self).speed_milli == old(self).speed_milli,
            final(self).g2p_cache == old(self).g2p_cache,
            match load_fault(desktop, model_path@, source, opened) {
                Some(fault) => (r matches Err(e) && e@ == fault) && *final(self) == *old(self),
                None => {
                    &&& r is Ok
                    &&& final(self).model_path matches Some(path) && path@ == model_path@
                    &&& final(self).session matches Some(session) && {
                        &&& session.model_loaded
                        &&& session.model_path@ == model_path@
                        &&& source matches ConfigSource::Parsed(raw) && configures(
                            raw,
                            session.config,
                        )
                        &&& final(self).g2p_lang == lang_after(
                            old(self).g2p_lang,
                            session.config.espeak_voice@,
                        )
                    }
                },
            },
    {
        let session = match PiperSession::load(desktop, model_path, source, opened) {
            Ok(session) => session,
            Err(e) => {
                return Err(e);
            },
        };
        if !session.config.espeak_voice.as_str().is_empty() {
            if let Some(language) = Language::from_code(session.config.espeak_voice.as_str()) {
                self.g2p_lang = Some(language);
            }
        }
        self.model_path = Some(model_path.to_owned());
        self.session = Some(session);
        Ok(())
    }

    /// Prepares a short run that warms the runtime up, where a model is loaded.
    pub fn warm_up(&mut self) -> (r: Result<Option<PiperJob>, TtsError>)
        requires
            old(self).wf(),
        ensures
            final(self).wf(),
            final(self).session == old(self).session,
            final(self).voice_id == old(self).voice_id,
            final(self).g2p_lang == old(self).g2p_lang,
            final(self).model_path == old(self).model_path,
            final(self).speed_milli == old(self).speed_milli,
            final(self).g2p_cache.dictionary == old(self).g2p_cache.dictionary,
            if !old(self).loaded() {
                r matches Ok(None)
            } else {
                match r {
                    Ok(Some(job)) => old(self).may_read("hello"@, Ok(job@)),
                    Ok(None) => false,
                    Err(e) => old(self).may_read("hello"@, Err(e@)),
                }
            },
    {
        if !self.is_loaded() {
            return Ok(None);
        }
        proof {
            lemma_hello_is_spanish();
        }
        match self.synthesize("hello") {
            Ok(job) => Ok(Some(job)),
            Err(e) => Err(e),
        }
    }
}

/// The text of a warm-up can be read in every language.
pub proof fn lemma_hello_is_spanish()
    ensures
        trimmed("hello"@) == "hello"@,
        spanish_readable("hello"@),
{
    reveal_strlit("hello");
    let s = "hello"@;
    assert(trimmed(s) =~= s);
    assert forall|i: int| 0 <= i < s.len() implies s[i] != 'q' && s[i] != 'Q' by {}
    a_text_without_q_can_be_read(s);
}

impl Engine for PiperEngine {
    type Job = PiperJob;

    open spec fn wf(&self) -> bool {
        self.g2p_cache.wf()
    }

    open spec fn can_read(&self, text: Seq<char>) -> bool {
        self.session is Some && self.g2p_lang == Some(Language::Es) ==> spanish_readable(
            trimmed(text),
        )
    }

    /// Prepares the reading of `text`.
    fn synthesize(&mut self, text: &str) -> (r: Result<PiperJob, TtsError>)
        ensures
            old(self).may_read(text@, piper_job_view(r)),
            final(self).session == old(self).session,
            final(self).voice_id == old(self).voice_id,
            final(self).g2p_lang == old(self).g2p_lang,
            final(self).model_path == old(self).model_path,
            final(self).speed_milli == old(self).speed_milli,
            final(self).g2p_cache.dictionary == old(self).g2p_cache.dictionary,
    {
        if self.session.is_none() {
            return Err(TtsError::Backend("modelo no cargado".to_owned()));
        }
        let trimmed_text = trim_text(text);
        if trimmed_text.as_str().is_empty() {
            return Err(TtsError::TextTooShort);
        }
        let language = match self.g2p_lang {
            Some(language) => language,
            None => {
                let mut message = "voz '".to_owned();
                message.append(self.voice_id.as_str());
                message.append("' sin idioma inferible (BCP-47 ausente)");
                return Err(TtsError::Phonemization(message));
            },
        };
        let tokens = phonemize_with_cache(&mut self.g2p_cache, language, trimmed_text.as_str());
        match &self.session {
            None => Err(TtsError::Backend("modelo no cargado".to_owned())),
            Some(session) => read_tokens(session, self.speed_milli, text, tokens),
        }
    }

    fn is_loaded(&self) -> (r: bool)
        ensures
            r == self.loaded(),
    {
        match &self.session {
            Some(session) => session.is_loaded(),
            None => false,
        }
    }

    fn sample_rate_hz(&self) -> (r: u32)
        ensures
            r == (match self.session {
                Some(session) => session.config.audio_sample_rate,
                None => DEFAULT_SAMPLE_RATE_HZ,
            }),
    {
        match &self.session {
            Some(session) => session.sample_rate_hz(),
            None => DEFAULT_SAMPLE_RATE_HZ,
        }
    }

    fn voices(&self) -> (r: Vec<VoiceDescriptor>)
        ensures
            voice_views(r@) == piper_voices(),
    {
        let mut out: Vec<VoiceDescriptor> = Vec::new();
        out.push(
            describe(
                "es_ES-davefx-medium",
                "Davefx (es-ES, medium)",
                "es-ES",
                TtsEngineKind::Piper,
            ),
        );
        out.push(
            describe("es_MX-ald-medium", "Ald (es-MX, medium)", "es-MX", TtsEngineKind::Piper),
        );
        out.push(
            describe(
                "en_US-lessac-medium",
                "Lessac (en-US, medium)",
                "en-US",
                TtsEngineKind::Piper,
            ),
        );
        assert(voice_views(out@) =~= piper_voices());
        out
    }

    fn engine_kind(&self) -> (r: TtsEngineKind)
        ensures
            r == TtsEngineKind::Piper,
    {
        TtsEngineKind::Piper
    }

    fn set_voice(&mut self, voice: &str)
        ensures
            final(self).voice_id@ == voice@,
            final(self).g2p_lang == voice_lang(voice@),
            final(self).session == old(self).session,
            final(self).model_path == old(self).model_path,
            final(self).speed_milli == old(self).speed_milli,
            final(self).g2p_cache == old(self).g2p_cache,
    {
        self.voice_id = voice.to_owned();
        self.g2p_lang = PiperEngine::infer_lang_from_voice_id(voice);
    }
}

// ---------------------------------------------------------------------------
// Laws
// ---------------------------------------------------------------------------

/// Each voice on offer speaks the language that its name tells, and is one of
/// this engine.
#[verifier::rlimit(40)]
pub proof fn the_voices_speak_their_language(k: int)
    requires
        0 <= k < piper_voices().len(),
    ensures
        voice_lang(piper_voices()[k].id) is Some,
        voice_lang(piper_voices()[k].id) == language_of(piper_voices()[k].language),
        piper_voices()[k].engine == TtsEngineKind::Piper,
        piper_voices()[k].id == piper_default_voices()[k]@,
        piper_voices().len() == piper_default_voices().len(),
{
    reveal_strlit("es_ES-davefx-medium");
    reveal_strlit("es_MX-ald-medium");
    reveal_strlit("en_US-lessac-medium");
    reveal_strlit("es-ES");
    reveal_strlit("es-MX");
    reveal_strlit("en-US");
    two_letters_name_a_language("es_ES-davefx-medium"@);
    two_letters_name_a_language("es_MX-ald-medium"@);
    two_letters_name_a_language("en_US-lessac-medium"@);
    two_letters_name_a_language("es-ES"@);
    two_letters_name_a_language("es-MX"@);
    two_letters_name_a_language("en-US"@);
}

/// A voice is read in the language of the first two letters of its name.
pub proof fn a_voice_is_read_in_the_language_of_its_name(voice_id: Seq<char>)
    requires
        voice_id.len() >= 3,
        voice_id[0] != '-' && voice_id[0] != '_' && voice_id[1] != '-' && voice_id[1] != '_',
        voice_id[2] == '-' || voice_id[2] == '_',
    ensures
        voice_lang(voice_id) == language_of(voice_id),
        voice_lang(voice_id) == Some(Language::Es) <==> (voice_id[0] == 'e' || voice_id[0] == 'E')
            && (voice_id[1] == 's' || voice_id[1] == 'S'),
        voice_lang(voice_id) == Some(Language::En) <==> (voice_id[0] == 'e' || voice_id[0] == 'E')
            && (voice_id[1] == 'n' || voice_id[1] == 'N'),
{
    two_letters_name_a_language(voice_id);
    let head = seq![voice_id[0], voice_id[1]];
    a_segment_ends_at_the_first_dash(head, voice_id[2], voice_id.skip(3));
    assert(voice_id =~= head.push(voice_id[2]) + voice_id.skip(3));
    assert(first_segment(first_segment(voice_id)) == first_segment(voice_id));
}

/// The language of the configuration goes before the one of the name, where it
/// is one that can be read.
pub proof fn the_configuration_decides_the_language(
    before: Option<Language>,
    espeak_voice: Seq<char>,
)
    ensures
        language_of(espeak_voice) is Some && espeak_voice.len() > 0 ==> lang_after(
            before,
            espeak_voice,
        ) == language_of(espeak_voice),
        language_of(espeak_voice) is None || espeak_voice.len() == 0 ==> lang_after(
            before,
            espeak_voice,
        ) == before,
{
}

/// A run reads the phonemes of the text with the voice as it is configured, at
/// the speed asked for.
pub proof fn a_run_is_of_the_voice(
    session: PiperSession,
    speed_milli: u16,
    text: Seq<char>,
    tokens: Seq<Seq<char>>,
)
    ensures
        piper_reading_of(session, speed_milli, text, Ok(tokens)) matches Ok(job) ==> {
            &&& tokens.len() > 0 && session.model_loaded
            &&& job.speed_milli == speed_milli
            &&& job.sample_rate_hz == session.config.audio_sample_rate
            &&& job.noise_scale == session.config.noise_scale
            &&& job.length_scale == session.config.length_scale
            &&& job.noise_w == session.config.noise_w
            &&& special_ids_of(session.config.phoneme_id_map@) matches Ok(special)
                && job.input.first() == special.bos && job.input.last() == special.eos
                && job.input.len() <= 256
        },
{
    let map = session.config.phoneme_id_map@;
    if let Ok(special) = special_ids_of(map) {
        encoding_is_delimited(tokens, map, special);
    }
}

/// A text is read wherever it has phonemes and the voice its delimiters, and is
/// refused for what is wanting; what the conversion complains of is passed on.
pub proof fn a_text_with_phonemes_is_read(
    session: PiperSession,
    speed_milli: u16,
    text: Seq<char>,
    tokens: Result<Seq<Seq<char>>, TtsFault>,
)
    requires
        session.model_loaded,
    ensures
        ({
            let r = piper_reading_of(session, speed_milli, text, tokens);
            let special = special_ids_of(session.config.phoneme_id_map@);
            match tokens {
                Err(fault) => r == Err::<PiperJobView, TtsFault>(fault),
                Ok(tokens) => if tokens.len() == 0 {
                    r == Err::<PiperJobView, TtsFault>(
                        TtsFault::Phonemization(
                            "G2P no produjo fonemas para '"@ + trimmed(text) + "'"@,
                        ),
                    )
                } else {
                    &&& special is Ok <==> r is Ok
                    &&& special matches Err(fault) ==> r == Err::<PiperJobView, TtsFault>(fault)
                },
            }
        }),
{
}

/// Without a model nothing is read, a blank text is too short, and a voice whose
/// language is not known is named.
pub proof fn an_engine_refuses_what_it_cannot_read(
    engine: PiperEngine,
    text: Seq<char>,
    r: Result<PiperJobView, TtsFault>,
)
    requires
        engine.may_read(text, r),
    ensures
        engine.session is None ==> r == Err::<PiperJobView, TtsFault>(
            TtsFault::Backend("modelo no cargado"@),
        ),
        engine.session is Some && trimmed(text).len() == 0 ==> r == Err::<PiperJobView, TtsFault>(
            TtsFault::TextTooShort,
        ),
        engine.session is Some && trimmed(text).len() > 0 && engine.g2p_lang is None ==> r == Err::<
            PiperJobView,
            TtsFault,
        >(
            TtsFault::Phonemization(
                "voz '"@ + engine.voice_id@ + "' sin idioma inferible (BCP-47 ausente)"@,
            ),
        ),
        r matches Ok(job) ==> engine.loaded() && job.speed_milli == engine.speed_milli,
{
}

} // verus!

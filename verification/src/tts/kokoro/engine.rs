//! The Kokoro engine: English and Spanish voices from one model.
use vstd::prelude::*;
use vstd::string::*;

use crate::config::TtsEngineKind;
use crate::text::{ascii_lower, result_bytes, trim_text, trimmed};
use crate::tts::engine::{
    describe, session_fault, usable_speed, voice_views, Engine, SessionFault, TtsError, TtsFault,
    VoiceDescriptor, VoiceView,
};
use crate::tts::kokoro::g2p::{
    ids_view, is_conversion_for, phonemize_with, readable_by, two_letters_decide_the_language,
    voice_language, EnglishG2p, KokoroLang,
};
use crate::tts::kokoro::onnx::{
    bank_map, job_of, job_view, JobView, KokoroJob, KokoroSession, SAMPLE_RATE_HZ,
};
use crate::tts::kokoro::voices::loaded_voices;
use crate::tts::piper::engine::lemma_hello_is_spanish;

verus! {

/// The value of a voice of this engine.
pub open spec fn voice_view(id: &str, display_name: &str, language: &str) -> VoiceView {
    VoiceView {
        id: id@,
        display_name: display_name@,
        language: language@,
        engine: TtsEngineKind::Kokoro,
    }
}

/// The voices of the model.
pub open spec fn kokoro_voices() -> Seq<VoiceView> {
    seq![
        voice_view("af_heart", "Heart (en-US, female)", "en-US"),
        voice_view("af_alloy", "Alloy (en-US, female)", "en-US"),
        voice_view("af_aoede", "Aoede (en-US, female)", "en-US"),
        voice_view("af_bella", "Bella (en-US, female)", "en-US"),
        voice_view("af_jessica", "Jessica (en-US, female)", "en-US"),
        voice_view("af_kore", "Kore (en-US, female)", "en-US"),
        voice_view("af_nicole", "Nicole (en-US, female)", "en-US"),
        voice_view("af_nova", "Nova (en-US, female)", "en-US"),
        voice_view("af_river", "River (en-US, female)", "en-US"),
        voice_view("af_sarah", "Sarah (en-US, female)", "en-US"),
        voice_view("af_sky", "Sky (en-US, female)", "en-US"),
        voice_view("am_adam", "Adam (en-US, male)", "en-US"),
        voice_view("am_echo", "Echo (en-US, male)", "en-US"),
        voice_view("am_eric", "Eric (en-US, male)", "en-US"),
        voice_view("am_fenrir", "Fenrir (en-US, male)", "en-US"),
        voice_view("am_liam", "Liam (en-US, male)", "en-US"),
        voice_view("am_michael", "Michael (en-US, male)", "en-US"),
        voice_view("am_onyx", "Onyx (en-US, male)", "en-US"),
        voice_view("am_puck", "Puck (en-US, male)", "en-US"),
        voice_view("am_santa", "Santa (en-US, male)", "en-US"),
        voice_view("bf_alice", "Alice (en-GB, female)", "en-GB"),
        voice_view("bf_emma", "Emma (en-GB, female)", "en-GB"),
        voice_view("bf_isabella", "Isabella (en-GB, female)", "en-GB"),
        voice_view("bf_lily", "Lily (en-GB, female)", "en-GB"),
        voice_view("bm_daniel", "Daniel (en-GB, male)", "en-GB"),
        voice_view("bm_fable", "Fable (en-GB, male)", "en-GB"),
        voice_view("bm_george", "George (en-GB, male)", "en-GB"),
        voice_view("bm_lewis", "Lewis (en-GB, male)", "en-GB"),
        voice_view("ef_dora", "Dora (es, female)", "es"),
        voice_view("em_alex", "Alex (es, male)", "es"),
        voice_view("em_santa", "Santa (es, male)", "es"),
    ]
}

/// The Kokoro engine.
pub struct KokoroEngine {
    /// The voice that reads.
    pub voice_id: String,
    /// The model and the voices, once something is loaded.
    pub session: Option<KokoroSession>,
    /// The file of the model, once it is loaded.
    pub model_path: Option<String>,
    /// The speed in thousandths.
    pub speed_milli: u16,
    /// The English converter, once it was needed.
    pub english: Option<EnglishG2p>,
}

/// The run that reads a text, given what its conversion to phonemes gave.
pub open spec fn reading_of(
    session: KokoroSession,
    voice_id: Seq<char>,
    speed_milli: u16,
    text: Seq<char>,
    phoneme_ids: Result<Seq<i64>, TtsFault>,
) -> Result<JobView, TtsFault> {
    match phoneme_ids {
        Err(fault) => Err(fault),
        Ok(ids) => if ids.len() == 0 {
            Err(
                TtsFault::Phonemization("G2P no produjo fonemas para '"@ + trimmed(text) + "'"@),
            )
        } else {
            job_of(
                session.model_loaded,
                bank_map(session.voices),
                ids,
                voice_id,
                speed_milli,
            )
        },
    }
}

/// Prepares the run that reads `text`, given what its conversion to phonemes
/// gave.
pub fn read_phonemes(
    session: &KokoroSession,
    voice_id: &str,
    speed_milli: u16,
    text: &str,
    phoneme_ids: Result<Vec<i64>, TtsError>,
) -> (r: Result<KokoroJob, TtsError>)
    requires
        session.wf(),
    ensures
        job_view(r) == reading_of(
            *session,
            voice_id@,
            speed_milli,
            text@,
            ids_view(phoneme_ids),
        ),
{
    match phoneme_ids {
        Err(e) => Err(e),
        Ok(ids) => {
            if ids.len() == 0 {
                let mut message = "G2P no produjo fonemas para '".to_owned();
                message.append(trim_text(text).as_str());
                message.append("'");
                return Err(TtsError::Phonemization(message));
            }
            session.infer(ids.as_slice(), voice_id, speed_milli)
        },
    }
}

impl KokoroEngine {
    /// Whether the model and the voices are there.
    pub open spec fn loaded(&self) -> bool {
        self.session matches Some(session) && session.loaded()
    }

    /// Whether `r` may come of reading `text`: the guards decide, and then the
    /// conversion to phonemes.
    pub open spec fn may_read(&self, text: Seq<char>, r: Result<JobView, TtsFault>) -> bool {
        match self.session {
            None => r == Err::<JobView, TtsFault>(TtsFault::Backend("modelo no cargado"@)),
            Some(session) => if !session.loaded() {
                r == Err::<JobView, TtsFault>(
                    TtsFault::Backend("modelo o banco de voces no cargado"@),
                )
            } else if trimmed(text).len() == 0 {
                r == Err::<JobView, TtsFault>(TtsFault::TextTooShort)
            } else {
                exists|conversion: Result<Vec<i64>, TtsError>| #[trigger]
                    is_conversion_for(conversion, text, self.voice_id@) && r == reading_of(
                        session,
                        self.voice_id@,
                        self.speed_milli,
                        text,
                        ids_view(conversion),
                    )
            },
        }
    }

    /// An engine with nothing loaded.
    pub fn new(voice: &str) -> (r: Self)
        ensures
            r.wf(),
            r.voice_id@ == voice@,
            r.session is None,
            r.model_path is None,
            r.speed_milli == 1000,
    {
        KokoroEngine {
            voice_id: voice.to_owned(),
            session: None,
            model_path: None,
            speed_milli: 1000,
            english: None,
        }
    }

    /// Sets the speed, in thousandths. A speed of nought becomes one
    /// thousandth.
    pub fn set_speed_milli(&mut self, speed_milli: u16)
        ensures
            final(self).speed_milli == if speed_milli == 0 {
                1
            } else {
                speed_milli as int
            },
            final(self).speed_milli == usable_speed(speed_milli),
            final(self).voice_id == old(self).voice_id,
            final(self).session == old(self).session,
            final(self).model_path == old(self).model_path,
    {
        self.speed_milli = if speed_milli == 0 {
            1
        } else {
            speed_milli
        };
    }

    /// Takes over the voices, given what reading their file gave. Where that
    /// failed, those that were there stay.
    pub fn load_voices(&mut self, voices_path: &str, file: Result<Vec<u8>, String>) -> (r: Result<
        (),
        TtsError,
    >)
        requires
            old(self).wf(),
        ensures
            final(self).wf(),
            final(self).voice_id == old(self).voice_id,
            final(self).model_path == old(self).model_path,
            final(self).speed_milli == old(self).speed_milli,
            final(self).session matches Some(session) && {
                &&& session.model_loaded == (old(self).session matches Some(s) && s.model_loaded)
                &&& match old(self).session {
                    Some(s) => session.model_path == s.model_path,
                    None => session.model_path@.len() == 0,
                }
                &&& match loaded_voices(voices_path@, result_bytes(file)) {
                    Ok(voices) => r is Ok && bank_map(session.voices) == Some(voices),
                    Err(fault) => (r matches Err(e) && e@ == fault) && session.voices == (match old(
                        self).session {
                        Some(s) => s.voices,
                        None => None,
                    }),
                }
            },
    {
        let mut session = match self.session.take() {
            Some(session) => session,
            None => KokoroSession::empty(),
        };
        let r = session.load_voices(voices_path, file);
        self.session = Some(session);
        r
    }

    /// The file of the model.
    pub fn model_path(&self) -> (r: Option<&str>)
        ensures
            match self.model_path {
                Some(path) => r matches Some(p) && p@ == path@,
                None => r is None,
            },
    {
        match &self.model_path {
            Some(path) => Some(path.as_str()),
            None => None,
        }
    }

    /// The voice that reads.
    pub fn voice_id(&self) -> (r: &str)
        ensures
            r@ == self.voice_id@,
    {
        self.voice_id.as_str()
    }

    /// Takes over a model, given how opening it in the runtime went, and the
    /// voices beside it, given the path and the contents of their file where
    /// there is one. Voices that cannot be read leave those that were there.
    pub fn load(
        &mut self,
        model_path: &str,
        opened: Result<(), SessionFault>,
        voices: Option<(String, Result<Vec<u8>, String>)>,
    ) -> (r: Result<(), TtsError>)
        requires
            old(self).wf(),
        ensures
            final(self).wf(),
            final(self).voice_id == old(self).voice_id,
            final(self).speed_milli == old(self).speed_milli,
            match opened {
                Ok(_) => {
                    &&& r is Ok
                    &&& final(self).model_path matches Some(path) && path@ == model_path@
                    &&& final(self).session matches Some(session) && session.model_loaded
                        && session.model_path@ == model_path@ && bank_map(session.voices) == bank_after(
                        match old(self).session {
                            Some(s) => bank_map(s.voices),
                            None => None,
                        },
                        voices_file(voices),
                    )
                },
                Err(fault) => {
                    &&& r matches Err(e) && e@ == session_fault(fault@, model_path@)
                    &&& final(self).model_path == old(self).model_path
                    &&& old(self).session is Some || fault is Missing ==> final(self).session
                        == old(self).session
                    &&& old(self).session is None && !(fault is Missing) ==> (final(self).session
                        matches Some(s) && !s.model_loaded && s.model_path@.len() == 0 && s.voices is None)
                    &&& final(self).loaded() == old(self).loaded()
                },
            },
    {
        if let Err(SessionFault::Missing) = opened {
            return Err(TtsError::ModelNotFound(model_path.to_owned()));
        }
        let mut session = match self.session.take() {
            Some(session) => session,
            None => KokoroSession::empty(),
        };
        let r = session.load(model_path, opened);
        if r.is_ok() {
            self.model_path = Some(model_path.to_owned());
            if let Some((path, file)) = voices {
                let _ = session.load_voices(path.as_str(), file);
            }
        }
        self.session = Some(session);
        r
    }

    /// Prepares a short run that warms the runtime up, where a model is loaded.
    pub fn warm_up(&mut self) -> (r: Result<Option<KokoroJob>, TtsError>)
        requires
            old(self).wf(),
        ensures
            final(self).wf(),
            final(self).session == old(self).session,
            final(self).voice_id == old(self).voice_id,
            final(self).model_path == old(self).model_path,
            final(self).speed_milli == old(self).speed_milli,
            if !old(self).loaded() {
                r matches Ok(None)
            } else {
                match r {
                    Ok(Some(job)) => old(self).may_read("hello"@, Ok(job@)),
                    Ok(None) => false,
                    Err(e) => old(self).may_read("hello"@, Err(e@)),
                }
            },
    {
        if !self.is_loaded() {
            return Ok(None);
        }
        proof {
            lemma_hello_is_readable(self.voice_id@);
        }
        match self.synthesize("hello") {
            Ok(job) => Ok(Some(job)),
            Err(e) => Err(e),
        }
    }
}

/// The path and the contents of a file of voices.
pub open spec fn voices_file(voices: Option<(String, Result<Vec<u8>, String>)>) -> Option<
    (Seq<char>, Result<Seq<u8>, Seq<char>>),
> {
    match voices {
        Some((path, file)) => Some((path@, result_bytes(file))),
        None => None,
    }
}

/// The voices after a model was loaded: those of the file beside it, or else
/// those that were there.
pub open spec fn bank_after(
    before: Option<Map<Seq<char>, Seq<Seq<u32>>>>,
    voices: Option<(Seq<char>, Result<Seq<u8>, Seq<char>>)>,
) -> Option<Map<Seq<char>, Seq<Seq<u32>>>> {
    match voices {
        Some((path, file)) => match loaded_voices(path, file) {
            Ok(found) => Some(found),
            Err(_) => before,
        },
        None => before,
    }
}

proof fn lemma_hello_is_readable(voice_id: Seq<char>)
    ensures
        readable_by(trimmed("hello"@), voice_id),
{
    lemma_hello_is_spanish();
    reveal_strlit("hello");
}

impl Default for KokoroEngine {
    fn default() -> (r: Self)
        ensures
            r.wf(),
            r.voice_id@ == "af_heart"@,
            r.session is None,
            r.model_path is None,
            r.speed_milli == 1000,
    {
        KokoroEngine::new("af_heart")
    }
}

impl Engine for KokoroEngine {
    type Job = KokoroJob;

    open spec fn wf(&self) -> bool {
        self.session matches Some(session) ==> session.wf()
    }

    open spec fn can_read(&self, text: Seq<char>) -> bool {
        self.loaded() ==> readable_by(trimmed(text), self.voice_id@)
    }

    /// Prepares the reading of `text`.
    fn synthesize(&mut self, text: &str) -> (r: Result<KokoroJob, TtsError>)
        ensures
            old(self).may_read(text@, job_view(r)),
            final(self).session == old(self).session,
            final(self).voice_id == old(self).voice_id,
            final(self).model_path == old(self).model_path,
            final(self).speed_milli == old(self).speed_milli,
    {
        match &self.session {
            None => {
                return Err(TtsError::Backend("modelo no cargado".to_owned()));
            },
            Some(session) => {
                if !session.is_loaded() {
                    return Err(
                        TtsError::Backend("modelo o banco de voces no cargado".to_owned()),
                    );
                }
            },
        }
        if trim_text(text).as_str().is_empty() {
            return Err(TtsError::TextTooShort);
        }
        let phoneme_ids = phonemize_with(&mut self.english, text, self.voice_id.as_str());
        match &self.session {
            None => Err(TtsError::Backend("modelo no cargado".to_owned())),
            Some(session) => read_phonemes(
                session,
                self.voice_id.as_str(),
                self.speed_milli,
                text,
                phoneme_ids,
            ),
        }
    }

    fn is_loaded(&self) -> (r: bool)
        ensures
            r == self.loaded(),
    {
        match &self.session {
            Some(session) => session.is_loaded(),
            None => false,
        }
    }

    fn sample_rate_hz(&self) -> (r: u32)
        ensures
            r == SAMPLE_RATE_HZ,
    {
        SAMPLE_RATE_HZ
    }

    fn voices(&self) -> (r: Vec<VoiceDescriptor>)
        ensures
            voice_views(r@) == kokoro_voices(),
    {
        let mut out: Vec<VoiceDescriptor> = Vec::new();
        out.push(describe("af_heart", "Heart (en-US, female)", "en-US", TtsEngineKind::Kokoro));
        out.push(describe("af_alloy", "Alloy (en-US, female)", "en-US", TtsEngineKind::Kokoro));
        out.push(describe("af_aoede", "Aoede (en-US, female)", "en-US", TtsEngineKind::Kokoro));
        out.push(describe("af_bella", "Bella (en-US, female)", "en-US", TtsEngineKind::Kokoro));
        out.push(describe("af_jessica", "Jessica (en-US, female)", "en-US", TtsEngineKind::Kokoro));
        out.push(describe("af_kore", "Kore (en-US, female)", "en-US", TtsEngineKind::Kokoro));
        out.push(describe("af_nicole", "Nicole (en-US, female)", "en-US", TtsEngineKind::Kokoro));
        out.push(describe("af_nova", "Nova (en-US, female)", "en-US", TtsEngineKind::Kokoro));
        out.push(describe("af_river", "River (en-US, female)", "en-US", TtsEngineKind::Kokoro));
        out.push(describe("af_sarah", "Sarah (en-US, female)", "en-US", TtsEngineKind::Kokoro));
        out.push(describe("af_sky", "Sky (en-US, female)", "en-US", TtsEngineKind::Kokoro));
        out.push(describe("am_adam", "Adam (en-US, male)", "en-US", TtsEngineKind::Kokoro));
        out.push(describe("am_echo", "Echo (en-US, male)", "en-US", TtsEngineKind::Kokoro));
        out.push(describe("am_eric", "Eric (en-US, male)", "en-US", TtsEngineKind::Kokoro));
        out.push(describe("am_fenrir", "Fenrir (en-US, male)", "en-US", TtsEngineKind::Kokoro));
        out.push(describe("am_liam", "Liam (en-US, male)", "en-US", TtsEngineKind::Kokoro));
        out.push(describe("am_michael", "Michael (en-US, male)", "en-US", TtsEngineKind::Kokoro));
        out.push(describe("am_onyx", "Onyx (en-US, male)", "en-US", TtsEngineKind::Kokoro));
        out.push(describe("am_puck", "Puck (en-US, male)", "en-US", TtsEngineKind::Kokoro));
        out.push(describe("am_santa", "Santa (en-US, male)", "en-US", TtsEngineKind::Kokoro));
        out.push(describe("bf_alice", "Alice (en-GB, female)", "en-GB", TtsEngineKind::Kokoro));
        out.push(describe("bf_emma", "Emma (en-GB, female)", "en-GB", TtsEngineKind::Kokoro));
        out.push(describe("bf_isabella", "Isabella (en-GB, female)", "en-GB", TtsEngineKind::Kokoro));
        out.push(describe("bf_lily", "Lily (en-GB, female)", "en-GB", TtsEngineKind::Kokoro));
        out.push(describe("bm_daniel", "Daniel (en-GB, male)", "en-GB", TtsEngineKind::Kokoro));
        out.push(describe("bm_fable", "Fable (en-GB, male)", "en-GB", TtsEngineKind::Kokoro));
        out.push(describe("bm_george", "George (en-GB, male)", "en-GB", TtsEngineKind::Kokoro));
        out.push(describe("bm_lewis", "Lewis (en-GB, male)", "en-GB", TtsEngineKind::Kokoro));
        out.push(describe("ef_dora", "Dora (es, female)", "es", TtsEngineKind::Kokoro));
        out.push(describe("em_alex", "Alex (es, male)", "es", TtsEngineKind::Kokoro));
        out.push(describe("em_santa", "Santa (es, male)", "es", TtsEngineKind::Kokoro));
        assert(voice_views(out@) =~= kokoro_voices());
        out
    }

    fn engine_kind(&self) -> (r: TtsEngineKind)
        ensures
            r == TtsEngineKind::Kokoro,
    {
        TtsEngineKind::Kokoro
    }

    fn set_voice(&mut self, voice: &str)
        ensures
            final(self).voice_id@ == voice@,
            final(self).session == old(self).session,
            final(self).model_path == old(self).model_path,
            final(self).speed_milli == old(self).speed_milli,
    {
        self.voice_id = voice.to_owned();
    }
}

// ---------------------------------------------------------------------------
// Laws
// ---------------------------------------------------------------------------

/// Whether a voice is named by the scheme of the model: the first letter of the
/// identifier tells the country, the second whether the voice is female, and
/// the label says both behind the name.
pub open spec fn is_named_by_scheme(voice: VoiceView) -> bool {
    let female = voice.id[1] == 'f';
    let language = if voice.id[0] == 'a' {
        seq!['e', 'n', '-', 'U', 'S']
    } else if voice.id[0] == 'b' {
        seq!['e', 'n', '-', 'G', 'B']
    } else {
        seq!['e', 's']
    };
    let behind = seq![' ', '('] + language + seq![',', ' '] + (if female {
        seq!['f', 'e', 'm', 'a', 'l', 'e']
    } else {
        seq!['m', 'a', 'l', 'e']
    }) + seq![')'];
    &&& voice.id.len() > 3 && voice.id[2] == '_'
    &&& voice.id[0] == 'a' || voice.id[0] == 'b' || voice.id[0] == 'e'
    &&& voice.id[1] == 'f' || voice.id[1] == 'm'
    &&& voice.language == language
    &&& behind.is_suffix_of(voice.display_name)
    &&& voice.display_name.len() == behind.len() + voice.id.len() - 3
    &&& ascii_lower(voice.display_name.take(voice.id.len() - 3)) == voice.id.skip(3)
}

proof fn lemma_af_heart_is_named()
    ensures
        is_named_by_scheme(voice_view("af_heart", "Heart (en-US, female)", "en-US")),
{
    reveal_strlit("af_heart");
    reveal_strlit("Heart (en-US, female)");
    reveal_strlit("en-US");
    let name = "Heart (en-US, female)"@;
    assert("en-US"@ =~= seq!['e', 'n', '-', 'U', 'S']);
    assert(name.subrange(5, 21) =~= seq![' ', '('] + seq!['e', 'n', '-', 'U', 'S'] + seq![',', ' ']
        + seq!['f', 'e', 'm', 'a', 'l', 'e'] + seq![')']);
    assert(ascii_lower(name.take(5)) =~= "af_heart"@.skip(3));
}

proof fn lemma_af_alloy_is_named()
    ensures
        is_named_by_scheme(voice_view("af_alloy", "Alloy (en-US, female)", "en-US")),
{
    reveal_strlit("af_alloy");
    reveal_strlit("Alloy (en-US, female)");
    reveal_strlit("en-US");
    let name = "Alloy (en-US, female)"@;
    assert("en-US"@ =~= seq!['e', 'n', '-', 'U', 'S']);
    assert(name.subrange(5, 21) =~= seq![' ', '('] + seq!['e', 'n', '-', 'U', 'S'] + seq![',', ' ']
        + seq!['f', 'e', 'm', 'a', 'l', 'e'] + seq![')']);
    assert(ascii_lower(name.take(5)) =~= "af_alloy"@.skip(3));
}

proof fn lemma_af_aoede_is_named()
    ensures
        is_named_by_scheme(voice_view("af_aoede", "Aoede (en-US, female)", "en-US")),
{
    reveal_strlit("af_aoede");
    reveal_strlit("Aoede (en-US, female)");
    reveal_strlit("en-US");
    let name = "Aoede (en-US, female)"@;
    assert("en-US"@ =~= seq!['e', 'n', '-', 'U', 'S']);
    assert(name.subrange(5, 21) =~= seq![' ', '('] + seq!['e', 'n', '-', 'U', 'S'] + seq![',', ' ']
        + seq!['f', 'e', 'm', 'a', 'l', 'e'] + seq![')']);
    assert(ascii_lower(name.take(5)) =~= "af_aoede"@.skip(3));
}

proof fn lemma_af_bella_is_named()
    ensures
        is_named_by_scheme(voice_view("af_bella", "Bella (en-US, female)", "en-US")),
{
    reveal_strlit("af_bella");
    reveal_strlit("Bella (en-US, female)");
    reveal_strlit("en-US");
    let name = "Bella (en-US, female)"@;
    assert("en-US"@ =~= seq!['e', 'n', '-', 'U', 'S']);
    assert(name.subrange(5, 21) =~= seq![' ', '('] + seq!['e', 'n', '-', 'U', 'S'] + seq![',', ' ']
        + seq!['f', 'e', 'm', 'a', 'l', 'e'] + seq![')']);
    assert(ascii_lower(name.take(5)) =~= "af_bella"@.skip(3));
}

proof fn lemma_af_jessica_is_named()
    ensures
        is_named_by_scheme(voice_view("af_jessica", "Jessica (en-US, female)", "en-US")),
{
    reveal_strlit("af_jessica");
    reveal_strlit("Jessica (en-US, female)");
    reveal_strlit("en-US");
    let name = "Jessica (en-US, female)"@;
    assert("en-US"@ =~= seq!['e', 'n', '-', 'U', 'S']);
    assert(name.subrange(7, 23) =~= seq![' ', '('] + seq!['e', 'n', '-', 'U', 'S'] + seq![',', ' ']
        + seq!['f', 'e', 'm', 'a', 'l', 'e'] + seq![')']);
    assert(ascii_lower(name.take(7)) =~= "af_jessica"@.skip(3));
}

proof fn lemma_af_kore_is_named()
    ensures
        is_named_by_scheme(voice_view("af_kore", "Kore (en-US, female)", "en-US")),
{
    reveal_strlit("af_kore");
    reveal_strlit("Kore (en-US, female)");
    reveal_strlit("en-US");
    let name = "Kore (en-US, female)"@;
    assert("en-US"@ =~= seq!['e', 'n', '-', 'U', 'S']);
    assert(name.subrange(4, 20) =~= seq![' ', '('] + seq!['e', 'n', '-', 'U', 'S'] + seq![',', ' ']
        + seq!['f', 'e', 'm', 'a', 'l', 'e'] + seq![')']);
    assert(ascii_lower(name.take(4)) =~= "af_kore"@.skip(3));
}

proof fn lemma_af_nicole_is_named()
    ensures
        is_named_by_scheme(voice_view("af_nicole", "Nicole (en-US, female)", "en-US")),
{
    reveal_strlit("af_nicole");
    reveal_strlit("Nicole (en-US, female)");
    reveal_strlit("en-US");
    let name = "Nicole (en-US, female)"@;
    assert("en-US"@ =~= seq!['e', 'n', '-', 'U', 'S']);
    assert(name.subrange(6, 22) =~= seq![' ', '('] + seq!['e', 'n', '-', 'U', 'S'] + seq![',', ' ']
        + seq!['f', 'e', 'm', 'a', 'l', 'e'] + seq![')']);
    assert(ascii_lower(name.take(6)) =~= "af_nicole"@.skip(3));
}

proof fn lemma_af_nova_is_named()
    ensures
        is_named_by_scheme(voice_view("af_nova", "Nova (en-US, female)", "en-US")),
{
    reveal_strlit("af_nova");
    reveal_strlit("Nova (en-US, female)");
    reveal_strlit("en-US");
    let name = "Nova (en-US, female)"@;
    assert("en-US"@ =~= seq!['e', 'n', '-', 'U', 'S']);
    assert(name.subrange(4, 20) =~= seq![' ', '('] + seq!['e', 'n', '-', 'U', 'S'] + seq![',', ' ']
        + seq!['f', 'e', 'm', 'a', 'l', 'e'] + seq![')']);
    assert(ascii_lower(name.take(4)) =~= "af_nova"@.skip(3));
}

proof fn lemma_af_river_is_named()
    ensures
        is_named_by_scheme(voice_view("af_river", "River (en-US, female)", "en-US")),
{
    reveal_strlit("af_river");
    reveal_strlit("River (en-US, female)");
    reveal_strlit("en-US");
    let name = "River (en-US, female)"@;
    assert("en-US"@ =~= seq!['e', 'n', '-', 'U', 'S']);
    assert(name.subrange(5, 21) =~= seq![' ', '('] + seq!['e', 'n', '-', 'U', 'S'] + seq![',', ' ']
        + seq!['f', 'e', 'm', 'a', 'l', 'e'] + seq![')']);
    assert(ascii_lower(name.take(5)) =~= "af_river"@.skip(3));
}

proof fn lemma_af_sarah_is_named()
    ensures
        is_named_by_scheme(voice_view("af_sarah", "Sarah (en-US, female)", "en-US")),
{
    reveal_strlit("af_sarah");
    reveal_strlit("Sarah (en-US, female)");
    reveal_strlit("en-US");
    let name = "Sarah (en-US, female)"@;
    assert("en-US"@ =~= seq!['e', 'n', '-', 'U', 'S']);
    assert(name.subrange(5, 21) =~= seq![' ', '('] + seq!['e', 'n', '-', 'U', 'S'] + seq![',', ' ']
        + seq!['f', 'e', 'm', 'a', 'l', 'e'] + seq![')']);
    assert(ascii_lower(name.take(5)) =~= "af_sarah"@.skip(3));
}

proof fn lemma_af_sky_is_named()
    ensures
        is_named_by_scheme(voice_view("af_sky", "Sky (en-US, female)", "en-US")),
{
    reveal_strlit("af_sky");
    reveal_strlit("Sky (en-US, female)");
    reveal_strlit("en-US");
    let name = "Sky (en-US, female)"@;
    assert("en-US"@ =~= seq!['e', 'n', '-', 'U', 'S']);
    assert(name.subrange(3, 19) =~= seq![' ', '('] + seq!['e', 'n', '-', 'U', 'S'] + seq![',', ' ']
        + seq!['f', 'e', 'm', 'a', 'l', 'e'] + seq![')']);
    assert(ascii_lower(name.take(3)) =~= "af_sky"@.skip(3));
}

proof fn lemma_am_adam_is_named()
    ensures
        is_named_by_scheme(voice_view("am_adam", "Adam (en-US, male)", "en-US")),
{
    reveal_strlit("am_adam");
    reveal_strlit("Adam (en-US, male)");
    reveal_strlit("en-US");
    let name = "Adam (en-US, male)"@;
    assert("en-US"@ =~= seq!['e', 'n', '-', 'U', 'S']);
    assert(name.subrange(4, 18) =~= seq![' ', '('] + seq!['e', 'n', '-', 'U', 'S'] + seq![',', ' ']
        + seq!['m', 'a', 'l', 'e'] + seq![')']);
    assert(ascii_lower(name.take(4)) =~= "am_adam"@.skip(3));
}

proof fn lemma_am_echo_is_named()
    ensures
        is_named_by_scheme(voice_view("am_echo", "Echo (en-US, male)", "en-US")),
{
    reveal_strlit("am_echo");
    reveal_strlit("Echo (en-US, male)");
    reveal_strlit("en-US");
    let name = "Echo (en-US, male)"@;
    assert("en-US"@ =~= seq!['e', 'n', '-', 'U', 'S']);
    assert(name.subrange(4, 18) =~= seq![' ', '('] + seq!['e', 'n', '-', 'U', 'S'] + seq![',', ' ']
        + seq!['m', 'a', 'l', 'e'] + seq![')']);
    assert(ascii_lower(name.take(4)) =~= "am_echo"@.skip(3));
}

proof fn lemma_am_eric_is_named()
    ensures
        is_named_by_scheme(voice_view("am_eric", "Eric (en-US, male)", "en-US")),
{
    reveal_strlit("am_eric");
    reveal_strlit("Eric (en-US, male)");
    reveal_strlit("en-US");
    let name = "Eric (en-US, male)"@;
    assert("en-US"@ =~= seq!['e', 'n', '-', 'U', 'S']);
    assert(name.subrange(4, 18) =~= seq![' ', '('] + seq!['e', 'n', '-', 'U', 'S'] + seq![',', ' ']
        + seq!['m', 'a', 'l', 'e'] + seq![')']);
    assert(ascii_lower(name.take(4)) =~= "am_eric"@.skip(3));
}

proof fn lemma_am_fenrir_is_named()
    ensures
        is_named_by_scheme(voice_view("am_fenrir", "Fenrir (en-US, male)", "en-US")),
{
    reveal_strlit("am_fenrir");
    reveal_strlit("Fenrir (en-US, male)");
    reveal_strlit("en-US");
    let name = "Fenrir (en-US, male)"@;
    assert("en-US"@ =~= seq!['e', 'n', '-', 'U', 'S']);
    assert(name.subrange(6, 20) =~= seq![' ', '('] + seq!['e', 'n', '-', 'U', 'S'] + seq![',', ' ']
        + seq!['m', 'a', 'l', 'e'] + seq![')']);
    assert(ascii_lower(name.take(6)) =~= "am_fenrir"@.skip(3));
}

proof fn lemma_am_liam_is_named()
    ensures
        is_named_by_scheme(voice_view("am_liam", "Liam (en-US, male)", "en-US")),
{
    reveal_strlit("am_liam");
    reveal_strlit("Liam (en-US, male)");
    reveal_strlit("en-US");
    let name = "Liam (en-US, male)"@;
    assert("en-US"@ =~= seq!['e', 'n', '-', 'U', 'S']);
    assert(name.subrange(4, 18) =~= seq![' ', '('] + seq!['e', 'n', '-', 'U', 'S'] + seq![',', ' ']
        + seq!['m', 'a', 'l', 'e'] + seq![')']);
    assert(ascii_lower(name.take(4)) =~= "am_liam"@.skip(3));
}

proof fn lemma_am_michael_is_named()
    ensures
        is_named_by_scheme(voice_view("am_michael", "Michael (en-US, male)", "en-US")),
{
    reveal_strlit("am_michael");
    reveal_strlit("Michael (en-US, male)");
    reveal_strlit("en-US");
    let name = "Michael (en-US, male)"@;
    assert("en-US"@ =~= seq!['e', 'n', '-', 'U', 'S']);
    assert(name.subrange(7, 21) =~= seq![' ', '('] + seq!['e', 'n', '-', 'U', 'S'] + seq![',', ' ']
        + seq!['m', 'a', 'l', 'e'] + seq![')']);
    assert(ascii_lower(name.take(7)) =~= "am_michael"@.skip(3));
}

proof fn lemma_am_onyx_is_named()
    ensures
        is_named_by_scheme(voice_view("am_onyx", "Onyx (en-US, male)", "en-US")),
{
    reveal_strlit("am_onyx");
    reveal_strlit("Onyx (en-US, male)");
    reveal_strlit("en-US");
    let name = "Onyx (en-US, male)"@;
    assert("en-US"@ =~= seq!['e', 'n', '-', 'U', 'S']);
    assert(name.subrange(4, 18) =~= seq![' ', '('] + seq!['e', 'n', '-', 'U', 'S'] + seq![',', ' ']
        + seq!['m', 'a', 'l', 'e'] + seq![')']);
    assert(ascii_lower(name.take(4)) =~= "am_onyx"@.skip(3));
}

proof fn lemma_am_puck_is_named()
    ensures
        is_named_by_scheme(voice_view("am_puck", "Puck (en-US, male)", "en-US")),
{
    reveal_strlit("am_puck");
    reveal_strlit("Puck (en-US, male)");
    reveal_strlit("en-US");
    let name = "Puck (en-US, male)"@;
    assert("en-US"@ =~= seq!['e', 'n', '-', 'U', 'S']);
    assert(name.subrange(4, 18) =~= seq![' ', '('] + seq!['e', 'n', '-', 'U', 'S'] + seq![',', ' ']
        + seq!['m', 'a', 'l', 'e'] + seq![')']);
    assert(ascii_lower(name.take(4)) =~= "am_puck"@.skip(3));
}

proof fn lemma_am_santa_is_named()
    ensures
        is_named_by_scheme(voice_view("am_santa", "Santa (en-US, male)", "en-US")),
{
    reveal_strlit("am_santa");
    reveal_strlit("Santa (en-US, male)");
    reveal_strlit("en-US");
    let name = "Santa (en-US, male)"@;
    assert("en-US"@ =~= seq!['e', 'n', '-', 'U', 'S']);
    assert(name.subrange(5, 19) =~= seq![' ', '('] + seq!['e', 'n', '-', 'U', 'S'] + seq![',', ' ']
        + seq!['m', 'a', 'l', 'e'] + seq![')']);
    assert(ascii_lower(name.take(5)) =~= "am_santa"@.skip(3));
}

proof fn lemma_bf_alice_is_named()
    ensures
        is_named_by_scheme(voice_view("bf_alice", "Alice (en-GB, female)", "en-GB")),
{
    reveal_strlit("bf_alice");
    reveal_strlit("Alice (en-GB, female)");
    reveal_strlit("en-GB");
    let name = "Alice (en-GB, female)"@;
    assert("en-GB"@ =~= seq!['e', 'n', '-', 'G', 'B']);
    assert(name.subrange(5, 21) =~= seq![' ', '('] + seq!['e', 'n', '-', 'G', 'B'] + seq![',', ' ']
        + seq!['f', 'e', 'm', 'a', 'l', 'e'] + seq![')']);
    assert(ascii_lower(name.take(5)) =~= "bf_alice"@.skip(3));
}

proof fn lemma_bf_emma_is_named()
    ensures
        is_named_by_scheme(voice_view("bf_emma", "Emma (en-GB, female)", "en-GB")),
{
    reveal_strlit("bf_emma");
    reveal_strlit("Emma (en-GB, female)");
    reveal_strlit("en-GB");
    let name = "Emma (en-GB, female)"@;
    assert("en-GB"@ =~= seq!['e', 'n', '-', 'G', 'B']);
    assert(name.subrange(4, 20) =~= seq![' ', '('] + seq!['e', 'n', '-', 'G', 'B'] + seq![',', ' ']
        + seq!['f', 'e', 'm', 'a', 'l', 'e'] + seq![')']);
    assert(ascii_lower(name.take(4)) =~= "bf_emma"@.skip(3));
}

proof fn lemma_bf_isabella_is_named()
    ensures
        is_named_by_scheme(voice_view("bf_isabella", "Isabella (en-GB, female)", "en-GB")),
{
    reveal_strlit("bf_isabella");
    reveal_strlit("Isabella (en-GB, female)");
    reveal_strlit("en-GB");
    let name = "Isabella (en-GB, female)"@;
    assert("en-GB"@ =~= seq!['e', 'n', '-', 'G', 'B']);
    assert(name.subrange(8, 24) =~= seq![' ', '('] + seq!['e', 'n', '-', 'G', 'B'] + seq![',', ' ']
        + seq!['f', 'e', 'm', 'a', 'l', 'e'] + seq![')']);
    assert(ascii_lower(name.take(8)) =~= "bf_isabella"@.skip(3));
}

proof fn lemma_bf_lily_is_named()
    ensures
        is_named_by_scheme(voice_view("bf_lily", "Lily (en-GB, female)", "en-GB")),
{
    reveal_strlit("bf_lily");
    reveal_strlit("Lily (en-GB, female)");
    reveal_strlit("en-GB");
    let name = "Lily (en-GB, female)"@;
    assert("en-GB"@ =~= seq!['e', 'n', '-', 'G', 'B']);
    assert(name.subrange(4, 20) =~= seq![' ', '('] + seq!['e', 'n', '-', 'G', 'B'] + seq![',', ' ']
        + seq!['f', 'e', 'm', 'a', 'l', 'e'] + seq![')']);
    assert(ascii_lower(name.take(4)) =~= "bf_lily"@.skip(3));
}

proof fn lemma_bm_daniel_is_named()
    ensures
        is_named_by_scheme(voice_view("bm_daniel", "Daniel (en-GB, male)", "en-GB")),
{
    reveal_strlit("bm_daniel");
    reveal_strlit("Daniel (en-GB, male)");
    reveal_strlit("en-GB");
    let name = "Daniel (en-GB, male)"@;
    assert("en-GB"@ =~= seq!['e', 'n', '-', 'G', 'B']);
    assert(name.subrange(6, 20) =~= seq![' ', '('] + seq!['e', 'n', '-', 'G', 'B'] + seq![',', ' ']
        + seq!['m', 'a', 'l', 'e'] + seq![')']);
    assert(ascii_lower(name.take(6)) =~= "bm_daniel"@.skip(3));
}

proof fn lemma_bm_fable_is_named()
    ensures
        is_named_by_scheme(voice_view("bm_fable", "Fable (en-GB, male)", "en-GB")),
{
    reveal_strlit("bm_fable");
    reveal_strlit("Fable (en-GB, male)");
    reveal_strlit("en-GB");
    let name = "Fable (en-GB, male)"@;
    assert("en-GB"@ =~= seq!['e', 'n', '-', 'G', 'B']);
    assert(name.subrange(5, 19) =~= seq![' ', '('] + seq!['e', 'n', '-', 'G', 'B'] + seq![',', ' ']
        + seq!['m', 'a', 'l', 'e'] + seq![')']);
    assert(ascii_lower(name.take(5)) =~= "bm_fable"@.skip(3));
}

proof fn lemma_bm_george_is_named()
    ensures
        is_named_by_scheme(voice_view("bm_george", "George (en-GB, male)", "en-GB")),
{
    reveal_strlit("bm_george");
    reveal_strlit("George (en-GB, male)");
    reveal_strlit("en-GB");
    let name = "George (en-GB, male)"@;
    assert("en-GB"@ =~= seq!['e', 'n', '-', 'G', 'B']);
    assert(name.subrange(6, 20) =~= seq![' ', '('] + seq!['e', 'n', '-', 'G', 'B'] + seq![',', ' ']
        + seq!['m', 'a', 'l', 'e'] + seq![')']);
    assert(ascii_lower(name.take(6)) =~= "bm_george"@.skip(3));
}

proof fn lemma_bm_lewis_is_named()
    ensures
        is_named_by_scheme(voice_view("bm_lewis", "Lewis (en-GB, male)", "en-GB")),
{
    reveal_strlit("bm_lewis");
    reveal_strlit("Lewis (en-GB, male)");
    reveal_strlit("en-GB");
    let name = "Lewis (en-GB, male)"@;
    assert("en-GB"@ =~= seq!['e', 'n', '-', 'G', 'B']);
    assert(name.subrange(5, 19) =~= seq![' ', '('] + seq!['e', 'n', '-', 'G', 'B'] + seq![',', ' ']
        + seq!['m', 'a', 'l', 'e'] + seq![')']);
    assert(ascii_lower(name.take(5)) =~= "bm_lewis"@.skip(3));
}

proof fn lemma_ef_dora_is_named()
    ensures
        is_named_by_scheme(voice_view("ef_dora", "Dora (es, female)", "es")),
{
    reveal_strlit("ef_dora");
    reveal_strlit("Dora (es, female)");
    reveal_strlit("es");
    let name = "Dora (es, female)"@;
    assert("es"@ =~= seq!['e', 's']);
    assert(name.subrange(4, 17) =~= seq![' ', '('] + seq!['e', 's'] + seq![',', ' ']
        + seq!['f', 'e', 'm', 'a', 'l', 'e'] + seq![')']);
    assert(ascii_lower(name.take(4)) =~= "ef_dora"@.skip(3));
}

proof fn lemma_em_alex_is_named()
    ensures
        is_named_by_scheme(voice_view("em_alex", "Alex (es, male)", "es")),
{
    reveal_strlit("em_alex");
    reveal_strlit("Alex (es, male)");
    reveal_strlit("es");
    let name = "Alex (es, male)"@;
    assert("es"@ =~= seq!['e', 's']);
    assert(name.subrange(4, 15) =~= seq![' ', '('] + seq!['e', 's'] + seq![',', ' ']
        + seq!['m', 'a', 'l', 'e'] + seq![')']);
    assert(ascii_lower(name.take(4)) =~= "em_alex"@.skip(3));
}

proof fn lemma_em_santa_is_named()
    ensures
        is_named_by_scheme(voice_view("em_santa", "Santa (es, male)", "es")),
{
    reveal_strlit("em_santa");
    reveal_strlit("Santa (es, male)");
    reveal_strlit("es");
    let name = "Santa (es, male)"@;
    assert("es"@ =~= seq!['e', 's']);
    assert(name.subrange(5, 16) =~= seq![' ', '('] + seq!['e', 's'] + seq![',', ' ']
        + seq!['m', 'a', 'l', 'e'] + seq![')']);
    assert(ascii_lower(name.take(5)) =~= "em_santa"@.skip(3));
}

/// Every voice on offer is named by the scheme of the model, and is one of this
/// engine.
#[verifier::rlimit(40)]
pub proof fn every_voice_is_named_by_the_scheme(k: int)
    requires
        0 <= k < kokoro_voices().len(),
    ensures
        is_named_by_scheme(kokoro_voices()[k]),
        kokoro_voices()[k].engine == TtsEngineKind::Kokoro,
        kokoro_voices().len() == 31,
{
    lemma_af_heart_is_named();
    lemma_af_alloy_is_named();
    lemma_af_aoede_is_named();
    lemma_af_bella_is_named();
    lemma_af_jessica_is_named();
    lemma_af_kore_is_named();
    lemma_af_nicole_is_named();
    lemma_af_nova_is_named();
    lemma_af_river_is_named();
    lemma_af_sarah_is_named();
    lemma_af_sky_is_named();
    lemma_am_adam_is_named();
    lemma_am_echo_is_named();
    lemma_am_eric_is_named();
    lemma_am_fenrir_is_named();
    lemma_am_liam_is_named();
    lemma_am_michael_is_named();
    lemma_am_onyx_is_named();
    lemma_am_puck_is_named();
    lemma_am_santa_is_named();
    lemma_bf_alice_is_named();
    lemma_bf_emma_is_named();
    lemma_bf_isabella_is_named();
    lemma_bf_lily_is_named();
    lemma_bm_daniel_is_named();
    lemma_bm_fable_is_named();
    lemma_bm_george_is_named();
    lemma_bm_lewis_is_named();
    lemma_ef_dora_is_named();
    lemma_em_alex_is_named();
    lemma_em_santa_is_named();
}

/// The language that a voice is read in is the one that it is on offer for.
pub proof fn a_voice_is_read_in_its_language(k: int)
    requires
        0 <= k < kokoro_voices().len(),
    ensures
        voice_language(kokoro_voices()[k].id) == KokoroLang::Es <==> kokoro_voices()[k].language
            == seq!['e', 's'],
{
    every_voice_is_named_by_the_scheme(k);
    let id = kokoro_voices()[k].id;
    two_letters_decide_the_language(id[0], id[1], '_', id.skip(3));
    assert(id =~= seq![id[0], id[1], '_'] + id.skip(3));
    assert(seq!['e', 'n', '-', 'U', 'S'].len() == 5 && seq!['e', 's'].len() == 2);
    assert(seq!['e', 'n', '-', 'G', 'B'].len() == 5);
}

/// A text that can be converted is read as a run on its phonemes, and what the
/// conversion complains of is passed on.
pub proof fn a_conversion_is_read(
    session: KokoroSession,
    voice_id: Seq<char>,
    speed_milli: u16,
    text: Seq<char>,
    phoneme_ids: Result<Seq<i64>, TtsFault>,
)
    ensures
        ({
            let r = reading_of(session, voice_id, speed_milli, text, phoneme_ids);
            match phoneme_ids {
                Err(fault) => r == Err::<JobView, TtsFault>(fault),
                Ok(ids) => if ids.len() == 0 {
                    r == Err::<JobView, TtsFault>(
                        TtsFault::Phonemization(
                            "G2P no produjo fonemas para '"@ + trimmed(text) + "'"@,
                        ),
                    )
                } else {
                    r matches Ok(job) ==> job.speed_milli == speed_milli && job.input_ids[1]
                        == ids[0] && session.loaded()
                },
            }
        }),
{
}

/// Voices that can be read take the place of those that were there, and no
/// others do.
pub proof fn voices_that_fail_leave_those_that_were_there(
    before: Option<Map<Seq<char>, Seq<Seq<u32>>>>,
    path: Seq<char>,
    file: Result<Seq<u8>, Seq<char>>,
)
    ensures
        bank_after(before, None) == before,
        loaded_voices(path, file) is Err ==> bank_after(before, Some((path, file))) == before,
        loaded_voices(path, file) matches Ok(found) ==> bank_after(before, Some((path, file)))
            == Some(found),
        before is Some ==> bank_after(before, Some((path, file))) is Some,
{
}

/// Without a model or without voices nothing is read, and a blank text is too
/// short. What is read is read at the speed of the engine.
pub proof fn an_engine_refuses_what_it_cannot_read(
    engine: KokoroEngine,
    text: Seq<char>,
    r: Result<JobView, TtsFault>,
)
    requires
        engine.may_read(text, r),
    ensures
        engine.session is None ==> r == Err::<JobView, TtsFault>(
            TtsFault::Backend("modelo no cargado"@),
        ),
        engine.session is Some && !engine.loaded() ==> r == Err::<JobView, TtsFault>(
            TtsFault::Backend("modelo o banco de voces no cargado"@),
        ),
        engine.loaded() && trimmed(text).len() == 0 ==> r == Err::<JobView, TtsFault>(
            TtsFault::TextTooShort,
        ),
        r matches Ok(job) ==> engine.loaded() && job.speed_milli == engine.speed_milli
            && job.input_ids.len() > 2,
{
}

} // verus!

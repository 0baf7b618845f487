//! What every speech engine offers.
use vstd::prelude::*;
use vstd::string::*;

use crate::config::TtsEngineKind;

verus! {

/// What can go wrong in speech synthesis.
#[derive(Debug, PartialEq, Eq)]
pub enum TtsError {
    /// The model file does not exist.
    ModelNotFound(String),
    InvalidVoiceConfig(String),
    /// There is no text to read.
    TextTooShort,
    Backend(String),
    Phonemization(String),
    UnknownVoice(String),
}

/// The value of a [`TtsError`].
pub enum TtsFault {
    ModelNotFound(Seq<char>),
    InvalidVoiceConfig(Seq<char>),
    TextTooShort,
    Backend(Seq<char>),
    Phonemization(Seq<char>),
    UnknownVoice(Seq<char>),
}

impl View for TtsError {
    type V = TtsFault;

    open spec fn view(&self) -> TtsFault {
        match self {
            TtsError::ModelNotFound(p) => TtsFault::ModelNotFound(p@),
            TtsError::InvalidVoiceConfig(m) => TtsFault::InvalidVoiceConfig(m@),
            TtsError::TextTooShort => TtsFault::TextTooShort,
            TtsError::Backend(m) => TtsFault::Backend(m@),
            TtsError::Phonemization(m) => TtsFault::Phonemization(m@),
            TtsError::UnknownVoice(v) => TtsFault::UnknownVoice(v@),
        }
    }
}

/// The text of an error, as shown to the user.
pub open spec fn fault_message(fault: TtsFault) -> Seq<char> {
    match fault {
        TtsFault::ModelNotFound(p) => "modelo no encontrado: "@ + p,
        TtsFault::InvalidVoiceConfig(m) => "configuración de voz inválida: "@ + m,
        TtsFault::TextTooShort => "texto de entrada demasiado corto: 0 caracteres"@,
        TtsFault::Backend(m) => "backend devolvió error: "@ + m,
        TtsFault::Phonemization(m) => "phonemization falló: "@ + m,
        TtsFault::UnknownVoice(v) => "voz '"@ + v + "' no existe en el engine actual"@,
    }
}

impl TtsError {
    /// The text of the error, as shown to the user.
    pub fn message(&self) -> (r: String)
        ensures
            r@ == fault_message(self@),
    {
        match self {
            TtsError::ModelNotFound(p) => "modelo no encontrado: ".to_owned().concat(p.as_str()),
            TtsError::InvalidVoiceConfig(m) => "configuración de voz inválida: ".to_owned().concat(
                m.as_str(),
            ),
            TtsError::TextTooShort => "texto de entrada demasiado corto: 0 caracteres".to_owned(),
            TtsError::Backend(m) => "backend devolvió error: ".to_owned().concat(m.as_str()),
            TtsError::Phonemization(m) => "phonemization falló: ".to_owned().concat(m.as_str()),
            TtsError::UnknownVoice(v) => "voz '".to_owned().concat(v.as_str()).concat(
                "' no existe en el engine actual",
            ),
        }
    }
}

/// Why the runtime did not open a model.
#[derive(Debug, PartialEq, Eq)]
pub enum SessionFault {
    /// The file does not exist.
    Missing,
    /// The runtime could not be set up.
    Builder(String),
    /// The runtime refused the file.
    Commit(String),
}

/// The value of a [`SessionFault`].
pub enum SessionFaultView {
    Missing,
    Builder(Seq<char>),
    Commit(Seq<char>),
}

impl View for SessionFault {
    type V = SessionFaultView;

    open spec fn view(&self) -> SessionFaultView {
        match self {
            SessionFault::Missing => SessionFaultView::Missing,
            SessionFault::Builder(e) => SessionFaultView::Builder(e@),
            SessionFault::Commit(e) => SessionFaultView::Commit(e@),
        }
    }
}

/// The error for a model that the runtime did not open.
pub open spec fn session_fault(fault: SessionFaultView, model_path: Seq<char>) -> TtsFault {
    match fault {
        SessionFaultView::Missing => TtsFault::ModelNotFound(model_path),
        SessionFaultView::Builder(e) => TtsFault::Backend("ort SessionBuilder: "@ + e),
        SessionFaultView::Commit(e) => TtsFault::Backend("commit_from_file: "@ + e),
    }
}

impl SessionFault {
    /// The error for a model that the runtime did not open.
    pub fn into_error(self, model_path: &str) -> (r: TtsError)
        ensures
            r@ == session_fault(self@, model_path@),
    {
        match self {
            SessionFault::Missing => TtsError::ModelNotFound(model_path.to_owned()),
            SessionFault::Builder(e) => TtsError::Backend(
                "ort SessionBuilder: ".to_owned().concat(e.as_str()),
            ),
            SessionFault::Commit(e) => TtsError::Backend(
                "commit_from_file: ".to_owned().concat(e.as_str()),
            ),
        }
    }
}

/// Mono audio. A sample is the bit pattern of a 32-bit float.
#[derive(Debug, PartialEq, Eq)]
pub struct AudioChunk {
    pub samples: Vec<u32>,
    pub sample_rate_hz: u32,
}

impl AudioChunk {
    /// Silence of the given length.
    pub fn silence(duration_ms: u32, sample_rate_hz: u32) -> (r: Self)
        requires
            sample_rate_hz * duration_ms <= usize::MAX,
        ensures
            r.sample_rate_hz == sample_rate_hz,
            r.samples@.len() == sample_rate_hz * duration_ms / 1000,
            r.samples@.len() == silence_len(duration_ms as int, sample_rate_hz as int),
            forall|i: int| 0 <= i < r.samples@.len() ==> r.samples@[i] == 0,
    {
        let n: usize = (sample_rate_hz as usize * duration_ms as usize) / 1000;
        let mut samples: Vec<u32> = Vec::new();
        let mut i: usize = 0;
        while i < n
            invariant
                i <= n,
                samples@.len() == i,
                forall|j: int| 0 <= j < i ==> samples@[j] == 0,
            decreases n - i,
        {
            samples.push(0);
            i += 1;
        }
        AudioChunk { samples, sample_rate_hz }
    }
}

/// A voice that an engine offers.
#[derive(Debug, PartialEq, Eq)]
pub struct VoiceDescriptor {
    /// The identifier kept in the configuration.
    pub id: String,
    /// The label in the menu.
    pub display_name: String,
    /// The BCP-47 code of its language.
    pub language: String,
    pub engine: TtsEngineKind,
}

/// The value of a [`VoiceDescriptor`].
pub struct VoiceView {
    pub id: Seq<char>,
    pub display_name: Seq<char>,
    pub language: Seq<char>,
    pub engine: TtsEngineKind,
}

impl View for VoiceDescriptor {
    type V = VoiceView;

    open spec fn view(&self) -> VoiceView {
        VoiceView {
            id: self.id@,
            display_name: self.display_name@,
            language: self.language@,
            engine: self.engine,
        }
    }
}

/// The values of a list of voices.
pub open spec fn voice_views(voices: Seq<VoiceDescriptor>) -> Seq<VoiceView> {
    voices.map_values(|v: VoiceDescriptor| v@)
}

/// Describes a voice.
pub fn describe(id: &str, display_name: &str, language: &str, engine: TtsEngineKind) -> (r:
    VoiceDescriptor)
    ensures
        r@ == (VoiceView {
            id: id@,
            display_name: display_name@,
            language: language@,
            engine,
        }),
{
    VoiceDescriptor {
        id: id.to_owned(),
        display_name: display_name.to_owned(),
        language: language.to_owned(),
        engine,
    }
}

/// A speech engine. Reading a text is a job for the inference runtime, which
/// runs outside: the engine prepares the job and takes the samples back.
pub trait Engine {
    /// What the inference runtime needs to read a text.
    type Job;

    /// What holds of every engine between two calls.
    spec fn wf(&self) -> bool;

    /// Prepares the reading of `text`.
    fn synthesize(&mut self, text: &str) -> (r: Result<Self::Job, TtsError>)
        requires
            old(self).wf(),
            old(self).can_read(text@),
        ensures
            final(self).wf(),
    ;

    /// Whether the grapheme-to-phoneme step of the engine accepts `text`.
    spec fn can_read(&self, text: Seq<char>) -> bool;

    /// Whether a model is loaded.
    fn is_loaded(&self) -> bool;

    /// The sample rate of the audio.
    fn sample_rate_hz(&self) -> u32;

    /// The voices on offer.
    fn voices(&self) -> Vec<VoiceDescriptor>;

    fn engine_kind(&self) -> TtsEngineKind;

    /// Changes the voice without loading a model.
    fn set_voice(&mut self, voice: &str)
        requires
            old(self).wf(),
        ensures
            final(self).wf(),
    ;
}

/// Takes the samples that the inference runtime returned. No audio at all is
/// an error of the runtime.
pub fn finish_synthesis(samples: Vec<u32>, sample_rate_hz: u32) -> (r: Result<AudioChunk, TtsError>)
    ensures
        match r {
            Ok(chunk) => samples@.len() > 0 && chunk.samples == samples && chunk.sample_rate_hz
                == sample_rate_hz,
            Err(e) => samples@.len() == 0 && e@ == TtsFault::Backend(
                "ort devolvió tensor de audio vacío"@,
            ),
        },
{
    if samples.len() == 0 {
        return Err(TtsError::Backend("ort devolvió tensor de audio vacío".to_owned()));
    }
    Ok(AudioChunk { samples, sample_rate_hz })
}

/// What is wrong is told with what it is about: the file that is missing, the
/// voice that is not there, and the words of the part that failed.
pub proof fn a_message_tells_what_it_is_about(fault: TtsFault)
    ensures
        match fault {
            TtsFault::ModelNotFound(p) => fault_message(fault) == "modelo no encontrado: "@ + p,
            TtsFault::InvalidVoiceConfig(m) => fault_message(fault)
                == "configuración de voz inválida: "@ + m,
            TtsFault::TextTooShort => fault_message(fault)
                == "texto de entrada demasiado corto: 0 caracteres"@,
            TtsFault::Backend(m) => fault_message(fault) == "backend devolvió error: "@ + m,
            TtsFault::Phonemization(m) => fault_message(fault) == "phonemization falló: "@ + m,
            TtsFault::UnknownVoice(v) => fault_message(fault) == "voz '"@ + v
                + "' no existe en el engine actual"@,
        },
{
}

/// A file that is missing is told by its path, and what the runtime refuses in
/// its own words.
pub proof fn a_refused_model_is_told(fault: SessionFaultView, model_path: Seq<char>)
    ensures
        fault is Missing <==> session_fault(fault, model_path) == TtsFault::ModelNotFound(
            model_path,
        ),
        fault matches SessionFaultView::Builder(e) ==> session_fault(fault, model_path)
            == TtsFault::Backend("ort SessionBuilder: "@ + e),
        fault matches SessionFaultView::Commit(e) ==> session_fault(fault, model_path)
            == TtsFault::Backend("commit_from_file: "@ + e),
{
}

/// The speed that an engine takes for one that is asked for, in thousandths.
pub open spec fn usable_speed(speed_milli: u16) -> u16 {
    if speed_milli == 0 {
        1
    } else {
        speed_milli
    }
}

/// A speed is never nought, which would leave nothing to divide by, and every
/// other is taken as it is.
pub proof fn a_speed_is_never_nought(speed_milli: u16)
    ensures
        usable_speed(speed_milli) > 0,
        speed_milli > 0 ==> usable_speed(speed_milli) == speed_milli,
        usable_speed(0) == 1,
{
}

/// How many samples a silence of the given length has.
pub open spec fn silence_len(duration_ms: int, sample_rate_hz: int) -> int {
    sample_rate_hz * duration_ms / 1000
}

/// A second of silence has as many samples as the rate says, a longer silence
/// never fewer than a shorter one, and no sample more than its time.
pub proof fn silence_is_as_long_as_it_says(duration_ms: int, longer_ms: int, sample_rate_hz: int)
    requires
        0 <= duration_ms <= longer_ms,
        0 <= sample_rate_hz,
    ensures
        silence_len(1000, sample_rate_hz) == sample_rate_hz,
        silence_len(0, sample_rate_hz) == 0,
        silence_len(duration_ms, sample_rate_hz) <= silence_len(longer_ms, sample_rate_hz),
        silence_len(duration_ms, sample_rate_hz) * 1000 <= sample_rate_hz * duration_ms < (
        silence_len(duration_ms, sample_rate_hz) + 1) * 1000,
{
    assert(sample_rate_hz * duration_ms <= sample_rate_hz * longer_ms) by (nonlinear_arith)
        requires
            0 <= duration_ms <= longer_ms,
            0 <= sample_rate_hz,
    ;
    assert(sample_rate_hz * 0 == 0);
}

} // verus!

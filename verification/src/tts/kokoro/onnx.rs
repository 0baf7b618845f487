//! What the Kokoro graph is run on.
use vstd::prelude::*;
use vstd::string::*;

use crate::text::{decimal, decimal_text, result_bytes};
use crate::tts::engine::{session_fault, SessionFault, TtsError, TtsFault};
use crate::tts::kokoro::voices::{loaded_voices, style_of, VoiceBank};

verus! {

/// The most phonemes that the model reads at once.
pub const MAX_TOKENS: usize = 510;

/// The sample rate of the audio.
pub const SAMPLE_RATE_HZ: u32 = 24_000;

/// The number of values in a style vector.
pub const STYLE_DIM: usize = 256;

/// The inputs of one run of the graph. The speed is in thousandths, and the
/// style holds the bit patterns of floats.
#[derive(Debug, PartialEq, Eq)]
pub struct KokoroJob {
    pub input_ids: Vec<i64>,
    pub style: Vec<u32>,
    pub speed_milli: u16,
}

/// The value of a [`KokoroJob`].
pub struct JobView {
    pub input_ids: Seq<i64>,
    pub style: Seq<u32>,
    pub speed_milli: u16,
}

impl View for KokoroJob {
    type V = JobView;

    open spec fn view(&self) -> JobView {
        JobView {
            input_ids: self.input_ids@,
            style: self.style@,
            speed_milli: self.speed_milli,
        }
    }
}

/// The value of what preparing a run gives.
pub open spec fn job_view(r: Result<KokoroJob, TtsError>) -> Result<JobView, TtsFault> {
    match r {
        Ok(job) => Ok(job@),
        Err(e) => Err(e@),
    }
}

/// The model and the voices, as far as they are loaded. The runtime keeps the
/// graph itself.
#[derive(Debug)]
pub struct KokoroSession {
    /// Whether the runtime has the graph.
    pub model_loaded: bool,
    /// The file of the graph.
    pub model_path: String,
    /// The voices, once they are loaded.
    pub voices: Option<VoiceBank>,
}

/// The voices of a bank that may not be there.
pub open spec fn bank_map(bank: Option<VoiceBank>) -> Option<Map<Seq<char>, Seq<Seq<u32>>>> {
    match bank {
        Some(bank) => Some(bank@),
        None => None,
    }
}

/// The three digits behind the point, without the noughts at their end.
pub open spec fn fraction_text(thousandths: nat) -> Seq<char> {
    if thousandths % 100 == 0 {
        decimal(thousandths / 100)
    } else if thousandths % 10 == 0 {
        decimal(thousandths / 100) + decimal(thousandths / 10 % 10)
    } else {
        decimal(thousandths / 100) + decimal(thousandths / 10 % 10) + decimal(thousandths % 10)
    }
}

/// A number of thousandths as a decimal number: `2.5` for 2500.
pub open spec fn thousandths_text(n: nat) -> Seq<char> {
    if n % 1000 == 0 {
        decimal(n / 1000)
    } else {
        decimal(n / 1000) + "."@ + fraction_text(n % 1000)
    }
}

/// Writes a number of thousandths as a decimal number.
pub fn write_thousandths(n: u16) -> (r: String)
    ensures
        r@ == thousandths_text(n as nat),
{
    let mut out = decimal_text((n / 1000) as u64);
    let rest: u16 = n % 1000;
    if rest != 0 {
        out.append(".");
        out.append(decimal_text((rest / 100) as u64).as_str());
        if rest % 100 != 0 {
            out.append(decimal_text((rest / 10 % 10) as u64).as_str());
            if rest % 10 != 0 {
                out.append(decimal_text((rest % 10) as u64).as_str());
            }
        }
    }
    assert(out@ =~= thousandths_text(n as nat));
    out
}

/// The first phonemes, as many as the model reads, between two pads.
pub open spec fn padded(ids: Seq<i64>) -> Seq<i64> {
    let kept = if ids.len() <= MAX_TOKENS {
        ids
    } else {
        ids.take(MAX_TOKENS as int)
    };
    seq![0i64] + kept + seq![0i64]
}

/// How many phonemes the model reads of `n`.
pub open spec fn kept_count(n: nat) -> nat {
    if n <= MAX_TOKENS {
        n
    } else {
        MAX_TOKENS as nat
    }
}

/// The run that reads the phonemes `ids` in a voice, or why there is none. The
/// model and the voices must be there before the style is looked for, which
/// goes by the number of phonemes that are kept.
pub open spec fn job_of(
    model_loaded: bool,
    bank: Option<Map<Seq<char>, Seq<Seq<u32>>>>,
    ids: Seq<i64>,
    voice_id: Seq<char>,
    speed_milli: u16,
) -> Result<JobView, TtsFault> {
    if ids.len() == 0 {
        Err(TtsFault::Backend("KokoroSession::infer con phoneme_ids vacío"@))
    } else if !(500 <= speed_milli <= 2000) {
        Err(
            TtsFault::Backend(
                "speed "@ + thousandths_text(speed_milli as nat) + " fuera de rango [0.5, 2.0]"@,
            ),
        )
    } else {
        match bank {
            None => Err(TtsFault::Backend("banco de voces no cargado"@)),
            Some(voices) => if !model_loaded {
                Err(TtsFault::Backend("KokoroSession::infer con sesión no cargada"@))
            } else {
                match style_of(voices, voice_id, kept_count(ids.len())) {
                    Err(fault) => Err(fault),
                    Ok(style) => Ok(JobView { input_ids: padded(ids), style, speed_milli }),
                }
            },
        }
    }
}

fn pad(ids: &[i64]) -> (r: Vec<i64>)
    ensures
        r@ == padded(ids@),
{
    let n: usize = if ids.len() <= MAX_TOKENS {
        ids.len()
    } else {
        MAX_TOKENS
    };
    let mut out: Vec<i64> = Vec::new();
    out.push(0);
    let mut i: usize = 0;
    while i < n
        invariant
            i <= n <= ids@.len(),
            out@ == seq![0i64] + ids@.take(i as int),
        decreases n - i,
    {
        out.push(ids[i]);
        i += 1;
        assert(out@ =~= seq![0i64] + ids@.take(i as int));
    }
    out.push(0);
    assert(out@ =~= padded(ids@));
    out
}

impl KokoroSession {
    /// Whether the voices stand in order.
    pub open spec fn wf(&self) -> bool {
        self.voices matches Some(bank) ==> bank.wf()
    }

    /// Whether the model and the voices are there.
    pub open spec fn loaded(&self) -> bool {
        self.model_loaded && self.voices is Some
    }

    /// A session with nothing loaded.
    pub fn empty() -> (r: Self)
        ensures
            r.wf(),
            !r.model_loaded,
            r.model_path@.len() == 0,
            r.voices is None,
    {
        KokoroSession { model_loaded: false, model_path: String::new(), voices: None }
    }

    /// Takes over a model, given how opening it in the runtime went. The voices
    /// stay.
    pub fn load(&mut self, model_path: &str, opened: Result<(), SessionFault>) -> (r: Result<
        (),
        TtsError,
    >)
        ensures
            final(self).voices == old(self).voices,
            match opened {
                Ok(_) => r is Ok && final(self).model_loaded && final(self).model_path@
                    == model_path@,
                Err(fault) => (r matches Err(e) && e@ == session_fault(fault@, model_path@)) 
                    && *final(self) == *old(self),
            },
    {
        match opened {
            Ok(_) => {
                self.model_loaded = true;
                self.model_path = model_path.to_owned();
                Ok(())
            },
            Err(fault) => Err(fault.into_error(model_path)),
        }
    }

    /// Takes over the voices, given what reading their file gave. Where that
    /// failed, those that were there stay.
    pub fn load_voices(&mut self, voices_path: &str, file: Result<Vec<u8>, String>) -> (r: Result<
        (),
        TtsError,
    >)
        requires
            old(self).wf(),
        ensures
            final(self).wf(),
            final(self).model_loaded == old(self).model_loaded,
            final(self).model_path == old(self).model_path,
            match loaded_voices(voices_path@, result_bytes(file)) {
                Ok(voices) => r is Ok && bank_map(final(self).voices) == Some(voices),
                Err(fault) => (r matches Err(e) && e@ == fault) && final(self).voices 
                    == old(self).voices,
            },
    {
        match VoiceBank::load(voices_path, file) {
            Ok(bank) => {
                self.voices = Some(bank);
                Ok(())
            },
            Err(e) => Err(e),
        }
    }

    /// Whether the model and the voices are there.
    pub fn is_loaded(&self) -> (r: bool)
        ensures
            r == self.loaded(),
    {
        self.model_loaded && self.voices.is_some()
    }

    /// Prepares the run that reads the phonemes `phoneme_ids`.
    pub fn infer(&self, phoneme_ids: &[i64], voice_id: &str, speed_milli: u16) -> (r: Result<
        KokoroJob,
        TtsError,
    >)
        requires
            self.wf(),
        ensures
            job_view(r) == job_of(
                self.model_loaded,
                bank_map(self.voices),
                phoneme_ids@,
                voice_id@,
                speed_milli,
            ),
            !self.loaded() ==> (r matches Err(e) && e is Backend),
    {
        if phoneme_ids.len() == 0 {
            return Err(
                TtsError::Backend("KokoroSession::infer con phoneme_ids vacío".to_owned()),
            );
        }
        if speed_milli < 500 || speed_milli > 2000 {
            let mut message = "speed ".to_owned();
            message.append(write_thousandths(speed_milli).as_str());
            message.append(" fuera de rango [0.5, 2.0]");
            return Err(TtsError::Backend(message));
        }
        let n_keep: usize = if phoneme_ids.len() <= MAX_TOKENS {
            phoneme_ids.len()
        } else {
            MAX_TOKENS
        };
        let bank = match &self.voices {
            None => {
                return Err(TtsError::Backend("banco de voces no cargado".to_owned()));
            },
            Some(bank) => bank,
        };
        if !self.model_loaded {
            return Err(
                TtsError::Backend("KokoroSession::infer con sesión no cargada".to_owned()),
            );
        }
        match bank.voice_slice(voice_id, n_keep) {
            Ok(style) => Ok(KokoroJob { input_ids: pad(phoneme_ids), style, speed_milli }),
            Err(e) => Err(e),
        }
    }
}

/// What goes to the graph begins and ends with a pad, holds no more phonemes
/// than the model reads, and keeps them in their order.
pub proof fn a_run_is_padded_and_bounded(
    model_loaded: bool,
    bank: Option<Map<Seq<char>, Seq<Seq<u32>>>>,
    ids: Seq<i64>,
    voice_id: Seq<char>,
    speed_milli: u16,
)
    ensures
        job_of(model_loaded, bank, ids, voice_id, speed_milli) matches Ok(job) ==> {
            let inner = job.input_ids.subrange(1, job.input_ids.len() - 1);
            &&& job.input_ids.first() == 0 && job.input_ids.last() == 0
            &&& inner.len() <= MAX_TOKENS
            &&& inner.is_prefix_of(ids)
        },
{
    let p = padded(ids);
    let kept = ids.take(kept_count(ids.len()) as int);
    assert(p =~= seq![0i64] + kept + seq![0i64]);
    assert(p.subrange(1, p.len() - 1) =~= kept);
}

/// How many noughts there are at the end does not show: whole numbers have no
/// point, and behind the point stand as many digits as are needed.
#[verifier::rlimit(40)]
pub proof fn thousandths_are_written_as_decimals(whole: nat, a: nat, b: nat, c: nat)
    requires
        a < 10,
        b < 10,
        c < 10,
    ensures
        thousandths_text(whole * 1000) == decimal(whole),
        0 < a ==> thousandths_text(whole * 1000 + a * 100) == decimal(whole) + "."@ + decimal(a),
        0 < b ==> thousandths_text(whole * 1000 + a * 100 + b * 10) == decimal(whole) + "."@
            + decimal(a) + decimal(b),
        0 < c ==> thousandths_text(whole * 1000 + a * 100 + b * 10 + c) == decimal(whole) + "."@
            + decimal(a) + decimal(b) + decimal(c),
{
    let n1 = whole * 1000 + a * 100;
    let n2 = n1 + b * 10;
    let n3 = n2 + c;
    assert(n1 / 1000 == whole && n2 / 1000 == whole && n3 / 1000 == whole);
    assert(n1 % 1000 == a * 100 && n2 % 1000 == a * 100 + b * 10);
    assert(n3 % 1000 == a * 100 + b * 10 + c);
    assert((a * 100) / 100 == a && (a * 100 + b * 10) / 100 == a);
    assert((a * 100 + b * 10 + c) / 100 == a);
    assert((a * 100 + b * 10) / 10 % 10 == b && (a * 100 + b * 10 + c) / 10 % 10 == b);
    assert((a * 100 + b * 10 + c) % 10 == c);
    assert(thousandths_text(n2) =~= if b > 0 {
        decimal(whole) + "."@ + decimal(a) + decimal(b)
    } else {
        thousandths_text(n1)
    });
    assert(c > 0 ==> thousandths_text(n3) =~= decimal(whole) + "."@ + decimal(a) + decimal(b)
        + decimal(c));
}

/// A text is read at the speed asked for, which lies between a half and twice
/// the usual one. Every other speed is refused, and named.
pub proof fn the_speed_is_kept_in_range(
    model_loaded: bool,
    bank: Option<Map<Seq<char>, Seq<Seq<u32>>>>,
    ids: Seq<i64>,
    voice_id: Seq<char>,
    speed_milli: u16,
)
    requires
        ids.len() > 0,
    ensures
        job_of(model_loaded, bank, ids, voice_id, speed_milli) matches Ok(job) ==> 500
            <= job.speed_milli <= 2000 && job.speed_milli == speed_milli,
        !(500 <= speed_milli <= 2000) ==> job_of(model_loaded, bank, ids, voice_id, speed_milli)
            == Err::<JobView, TtsFault>(
            TtsFault::Backend(
                "speed "@ + thousandths_text(speed_milli as nat) + " fuera de rango [0.5, 2.0]"@,
            ),
        ),
{
}

/// A text of up to 510 phonemes is read whole, a longer one up to there, and the
/// style goes by how many are read. So two texts that begin with the same 510
/// phonemes are read alike.
pub proof fn up_to_510_phonemes_are_read(
    voices: Map<Seq<char>, Seq<Seq<u32>>>,
    ids: Seq<i64>,
    other: Seq<i64>,
    voice_id: Seq<char>,
    speed_milli: u16,
)
    ensures
        ids.len() <= 510 ==> padded(ids) == seq![0i64] + ids + seq![0i64],
        ids.len() > 510 ==> padded(ids) == padded(ids.take(510)),
        ids.len() >= 510 && other.len() >= 510 && ids.take(510) == other.take(510) ==> job_of(
            true,
            Some(voices),
            ids,
            voice_id,
            speed_milli,
        ) == job_of(true, Some(voices), other, voice_id, speed_milli),
        job_of(true, Some(voices), ids, voice_id, speed_milli) matches Ok(job) ==> style_of(
            voices,
            voice_id,
            (job.input_ids.len() - 2) as nat,
        ) == Ok::<Seq<u32>, TtsFault>(job.style),
{
    if ids.len() >= 510 {
        assert(ids.take(510).take(510) =~= ids.take(510));
        if ids.len() == 510 {
            assert(ids.take(510) =~= ids);
        }
    }
    if other.len() == 510 {
        assert(other.take(510) =~= other);
    }
}

/// A run needs phonemes, a speed within range, the voices and the model, and is
/// refused for the first of these that is wanting.
pub proof fn a_run_needs_all_its_parts(
    model_loaded: bool,
    bank: Option<Map<Seq<char>, Seq<Seq<u32>>>>,
    ids: Seq<i64>,
    voice_id: Seq<char>,
    speed_milli: u16,
)
    ensures
        ({
            let r = job_of(model_loaded, bank, ids, voice_id, speed_milli);
            &&& r is Ok ==> ids.len() > 0 && bank is Some && model_loaded
            &&& ids.len() == 0 ==> r == Err::<JobView, TtsFault>(
                TtsFault::Backend("KokoroSession::infer con phoneme_ids vacío"@),
            )
            &&& ids.len() > 0 && 500 <= speed_milli <= 2000 && bank is None ==> r == Err::<
                JobView,
                TtsFault,
            >(TtsFault::Backend("banco de voces no cargado"@))
            &&& ids.len() > 0 && 500 <= speed_milli <= 2000 && bank is Some && !model_loaded ==> r
                == Err::<JobView, TtsFault>(
                TtsFault::Backend("KokoroSession::infer con sesión no cargada"@),
            )
        }),
{
}

} // verus!

//! What the Piper graph is run on.
use vstd::prelude::*;
use vstd::string::*;

use crate::text::{chars_of, text_of};
use crate::tray::dialog::Desktop;
use crate::tts::engine::{session_fault, SessionFault, TtsError, TtsFault};
use crate::tts::piper::config::{configures, source_fault, ConfigSource, PiperVoiceConfig};

verus! {

/// The inputs of one run of the graph. The scales are the bit patterns of
/// 32-bit floats; the runtime divides `length_scale` by the speed, which is in
/// thousandths.
#[derive(Debug, PartialEq, Eq)]
pub struct PiperJob {
    pub input: Vec<i64>,
    pub noise_scale: u32,
    pub length_scale: u32,
    pub noise_w: u32,
    pub speed_milli: u16,
    pub sample_rate_hz: u32,
}

/// The value of a [`PiperJob`].
pub struct PiperJobView {
    pub input: Seq<i64>,
    pub noise_scale: u32,
    pub length_scale: u32,
    pub noise_w: u32,
    pub speed_milli: u16,
    pub sample_rate_hz: u32,
}

impl View for PiperJob {
    type V = PiperJobView;

    open spec fn view(&self) -> PiperJobView {
        PiperJobView {
            input: self.input@,
            noise_scale: self.noise_scale,
            length_scale: self.length_scale,
            noise_w: self.noise_w,
            speed_milli: self.speed_milli,
            sample_rate_hz: self.sample_rate_hz,
        }
    }
}

/// The value of what preparing a run gives.
pub open spec fn piper_job_view(r: Result<PiperJob, TtsError>) -> Result<PiperJobView, TtsFault> {
    match r {
        Ok(job) => Ok(job@),
        Err(e) => Err(e@),
    }
}

/// Whether a character parts the directories of a path. The backslash does so
/// on Windows alone.
pub open spec fn is_separator(desktop: Desktop, c: char) -> bool {
    c == '/' || (c == '\\' && desktop == Desktop::Windows)
}

/// Where the drive letter of a path ends, which only Windows knows.
pub open spec fn drive_end(desktop: Desktop, path: Seq<char>) -> int {
    if desktop == Desktop::Windows && path.len() >= 2 && path[1] == ':' && ('a' <= path[0] <= 'z'
        || 'A' <= path[0] <= 'Z') {
        2
    } else {
        0
    }
}

/// Where the last name in the first `n` characters of a path ends: separators
/// at the end do not count, nor does a point that stands for the directory.
pub open spec fn name_end(desktop: Desktop, path: Seq<char>, n: int) -> int
    decreases n,
{
    if n > 0 && is_separator(desktop, path[n - 1]) {
        name_end(desktop, path, n - 1)
    } else if n > 1 && path[n - 1] == '.' && is_separator(desktop, path[n - 2]) {
        name_end(desktop, path, n - 1)
    } else {
        n
    }
}

/// Where the name that ends at position `n` of a path begins: behind the last
/// separator or the drive letter.
pub open spec fn name_start(desktop: Desktop, path: Seq<char>, n: int) -> int
    decreases n,
{
    if n <= drive_end(desktop, path) || is_separator(desktop, path[n - 1]) {
        n
    } else {
        name_start(desktop, path, n - 1)
    }
}

/// Whether a name is that of a file, and not empty or one that stands for a
/// directory.
pub open spec fn is_file_name(name: Seq<char>) -> bool {
    name.len() > 0 && name != seq!['.'] && name != seq!['.', '.']
}

/// Where the name between `start` and `end` ends without its extension: at its
/// last point, or at its end where it has no point but perhaps at its start.
pub open spec fn stem_end(path: Seq<char>, start: int, end: int, i: int) -> int
    decreases i - start,
{
    if i <= start + 1 {
        end
    } else if path[i - 1] == '.' {
        i - 1
    } else {
        stem_end(path, start, end, i - 1)
    }
}

/// `path` with the extension of a configuration file in place of its own. A
/// path that does not end in a file name stays as it is.
pub open spec fn config_path_of(desktop: Desktop, path: Seq<char>) -> Seq<char> {
    let end = name_end(desktop, path, path.len() as int);
    let start = name_start(desktop, path, end);
    if is_file_name(path.subrange(start, end)) {
        path.take(stem_end(path, start, end, end)) + ".onnx.json"@
    } else {
        path
    }
}

fn separates(desktop: Desktop, c: char) -> (r: bool)
    ensures
        r == is_separator(desktop, c),
{
    c == '/' || (c == '\\' && matches!(desktop, Desktop::Windows))
}

fn find_drive_end(desktop: Desktop, v: &Vec<char>) -> (r: usize)
    ensures
        r == drive_end(desktop, v@),
        r <= v@.len(),
{
    if matches!(desktop, Desktop::Windows) && v.len() >= 2 && v[1] == ':' && (('a' <= v[0] && v[0]
        <= 'z') || ('A' <= v[0] && v[0] <= 'Z')) {
        2
    } else {
        0
    }
}

fn find_name(desktop: Desktop, v: &Vec<char>) -> (r: (usize, usize))
    ensures
        r.1 == name_end(desktop, v@, v@.len() as int),
        r.0 == name_start(desktop, v@, r.1 as int),
        r.0 <= r.1 <= v@.len(),
{
    let n: usize = v.len();
    let mut end: usize = n;
    while end > 0 && (separates(desktop, v[end - 1]) || (end > 1 && v[end - 1] == '.' && separates(
        desktop,
        v[end - 2],
    )))
        invariant
            end <= n,
            n == v@.len(),
            name_end(desktop, v@, end as int) == name_end(desktop, v@, n as int),
        decreases end,
    {
        end -= 1;
    }
    let drive: usize = find_drive_end(desktop, v);
    let mut start: usize = end;
    while start > drive && !separates(desktop, v[start - 1])
        invariant
            start <= end <= n,
            n == v@.len(),
            drive == drive_end(desktop, v@),
            name_start(desktop, v@, start as int) == name_start(desktop, v@, end as int),
        decreases start,
    {
        start -= 1;
    }
    (start, end)
}

/// The path of the configuration file that comes with a model file.
pub fn config_path_for(desktop: Desktop, onnx_path: &str) -> (r: String)
    ensures
        r@ == config_path_of(desktop, onnx_path@),
{
    let v = chars_of(onnx_path);
    let (start, end): (usize, usize) = find_name(desktop, &v);
    let length: usize = end - start;
    let ghost name = onnx_path@.subrange(start as int, end as int);
    proof {
        assert(length == 1 && v@[start as int] == '.' ==> name =~= seq!['.']);
        assert(length == 2 && v@[start as int] == '.' && v@[start + 1] == '.' ==> name =~= seq![
            '.',
            '.',
        ]);
        assert(name == seq!['.'] ==> name.len() == 1 && name[0] == '.');
        assert(name == seq!['.', '.'] ==> name.len() == 2 && name[0] == '.' && name[1] == '.');
    }
    if length == 0 || (length == 1 && v[start] == '.') || (length == 2 && v[start] == '.' && v[start
        + 1] == '.') {
        return onnx_path.to_owned();
    }
    let mut i: usize = end;
    while i > start + 1 && v[i - 1] != '.'
        invariant
            start < i <= end <= v@.len(),
            v@ == onnx_path@,
            stem_end(v@, start as int, end as int, end as int) == stem_end(
                v@,
                start as int,
                end as int,
                i as int,
            ),
        decreases i,
    {
        i -= 1;
    }
    let cut: usize = if i > start + 1 {
        i - 1
    } else {
        end
    };
    let stem = text_of(&v, 0, cut);
    assert(stem@ =~= onnx_path@.take(cut as int));
    stem.concat(".onnx.json")
}

/// The model and its configuration. The runtime keeps the graph itself.
pub struct PiperSession {
    /// Whether the runtime has the graph.
    pub model_loaded: bool,
    /// The file of the graph.
    pub model_path: String,
    pub config: PiperVoiceConfig,
}

/// Why a model cannot be loaded, if it cannot: its file is missing, its
/// configuration is of no use, or the runtime refused it.
pub open spec fn load_fault(
    desktop: Desktop,
    model_path: Seq<char>,
    source: ConfigSource,
    opened: Result<(), SessionFault>,
) -> Option<TtsFault> {
    match opened {
        Err(SessionFault::Missing) => Some(TtsFault::ModelNotFound(model_path)),
        _ => match source_fault(config_path_of(desktop, model_path), source) {
            Some(fault) => Some(fault),
            None => match opened {
                Ok(_) => None,
                Err(fault) => Some(session_fault(fault@, model_path)),
            },
        },
    }
}

impl PiperSession {
    /// Takes over a model, given what reading its configuration gave and how
    /// opening it in the runtime went.
    pub fn load(
        desktop: Desktop,
        model_path: &str,
        source: ConfigSource,
        opened: Result<(), SessionFault>,
    ) -> (r: Result<Self, TtsError>)
        ensures
            match r {
                Ok(session) => {
                    &&& load_fault(desktop, model_path@, source, opened) is None
                    &&& session.model_loaded
                    &&& session.model_path@ == model_path@
                    &&& source matches ConfigSource::Parsed(raw) && configures(raw, session.config)
                },
                Err(e) => load_fault(desktop, model_path@, source, opened) == Some(e@),
            },
    {
        if let Err(SessionFault::Missing) = opened {
            return Err(TtsError::ModelNotFound(model_path.to_owned()));
        }
        let config_path = config_path_for(desktop, model_path);
        let config = match PiperVoiceConfig::load(config_path.as_str(), source) {
            Ok(config) => config,
            Err(e) => {
                return Err(e);
            },
        };
        match opened {
            Ok(_) => Ok(
                PiperSession { model_loaded: true, model_path: model_path.to_owned(), config },
            ),
            Err(fault) => Err(fault.into_error(model_path)),
        }
    }

    /// The sample rate of the voice.
    pub fn sample_rate_hz(&self) -> (r: u32)
        ensures
            r == self.config.audio_sample_rate,
    {
        self.config.audio_sample_rate
    }

    /// The configuration of the voice.
    pub fn config(&self) -> (r: &PiperVoiceConfig)
        ensures
            *r == self.config,
    {
        &self.config
    }

    /// Prepares the run on `phoneme_ids` at a speed in thousandths.
    pub fn infer(&self, phoneme_ids: Vec<i64>, speed_milli: u16) -> (r: Result<PiperJob, TtsError>)
        ensures
            match r {
                Ok(job) => phoneme_ids@.len() > 0 && self.model_loaded && job@ == (PiperJobView {
                    input: phoneme_ids@,
                    noise_scale: self.config.noise_scale,
                    length_scale: self.config.length_scale,
                    noise_w: self.config.noise_w,
                    speed_milli,
                    sample_rate_hz: self.config.audio_sample_rate,
                }),
                Err(e) => if phoneme_ids@.len() == 0 {
                    e@ == TtsFault::Backend("PiperSession::infer con phoneme_ids vacío"@)
                } else {
                    !self.model_loaded && e@ == TtsFault::Backend(
                        "PiperSession::infer con sesión no cargada"@,
                    )
                },
            },
    {
        if phoneme_ids.len() == 0 {
            return Err(
                TtsError::Backend("PiperSession::infer con phoneme_ids vacío".to_owned()),
            );
        }
        if !self.model_loaded {
            return Err(
                TtsError::Backend("PiperSession::infer con sesión no cargada".to_owned()),
            );
        }
        Ok(
            PiperJob {
                input: phoneme_ids,
                noise_scale: self.config.noise_scale,
                length_scale: self.config.length_scale,
                noise_w: self.config.noise_w,
                speed_milli,
                sample_rate_hz: self.config.audio_sample_rate,
            },
        )
    }

    /// Whether the runtime has the graph.
    pub fn is_loaded(&self) -> (r: bool)
        ensures
            r == self.model_loaded,
    {
        self.model_loaded
    }
}

/// The configuration file of a model `name.onnx` is `name.onnx.json`.
pub proof fn the_configuration_stands_beside_the_model(desktop: Desktop, stem: Seq<char>)
    requires
        name_start(desktop, stem, stem.len() as int) < stem.len(),
    ensures
        config_path_of(desktop, stem + ".onnx"@) == stem + ".onnx.json"@,
{
    reveal_strlit(".onnx");
    let path = stem + ".onnx"@;
    let n = stem.len() as int;
    assert(path[n] == '.' && path[n + 1] == 'o' && path[n + 2] == 'n');
    assert(path[n + 3] == 'n' && path[n + 4] == 'x');
    let start = name_start(desktop, stem, n);
    lemma_name_start_of_longer(desktop, stem, path, n);
    assert(drive_end(desktop, path) <= n);
    reveal_with_fuel(name_start, 6);
    reveal_with_fuel(stem_end, 6);
    lemma_name_start_bounds(desktop, stem, n);
    assert(name_end(desktop, path, n + 5) == n + 5);
    assert(name_start(desktop, path, n + 5) == start);
    assert(path.subrange(start, n + 5).len() > 5);
    assert(path.take(n) =~= stem);
}

proof fn lemma_name_start_bounds(desktop: Desktop, path: Seq<char>, n: int)
    requires
        0 <= n <= path.len(),
    ensures
        0 <= name_start(desktop, path, n) <= n,
    decreases n,
{
    if n > drive_end(desktop, path) && !is_separator(desktop, path[n - 1]) {
        lemma_name_start_bounds(desktop, path, n - 1);
    }
}

proof fn lemma_name_start_of_longer(
    desktop: Desktop,
    stem: Seq<char>,
    path: Seq<char>,
    n: int,
)
    requires
        0 <= n <= stem.len() <= path.len(),
        drive_end(desktop, stem) == drive_end(desktop, path),
        forall|j: int| 0 <= j < stem.len() ==> path[j] == stem[j],
    ensures
        name_start(desktop, path, n) == name_start(desktop, stem, n),
    decreases n,
{
    if n > 0 {
        lemma_name_start_of_longer(desktop, stem, path, n - 1);
    }
}

/// A model that is missing is reported as missing whatever its configuration. A
/// configuration that is of no use goes before what the runtime says, and both
/// must be in order.
pub proof fn a_model_needs_file_and_configuration(
    desktop: Desktop,
    model_path: Seq<char>,
    source: ConfigSource,
    opened: Result<(), SessionFault>,
)
    ensures
        ({
            let fault = load_fault(desktop, model_path, source, opened);
            let bad = source_fault(config_path_of(desktop, model_path), source);
            &&& fault is None <==> opened is Ok && bad is None
            &&& (opened matches Err(e) && e is Missing) ==> fault == Some(
                TtsFault::ModelNotFound(model_path),
            )
            &&& !(opened matches Err(e) && e is Missing) && bad is Some ==> fault == bad
            &&& opened matches Err(SessionFault::Commit(e)) ==> (bad is None ==> fault == Some(
                TtsFault::Backend("commit_from_file: "@ + e@),
            ))
            &&& opened matches Err(SessionFault::Builder(e)) ==> (bad is None ==> fault == Some(
                TtsFault::Backend("ort SessionBuilder: "@ + e@),
            ))
        }),
{
}

/// The configuration of a file without an extension stands beside it too.
pub proof fn a_file_without_extension_gets_one(desktop: Desktop, dir: Seq<char>, name: Seq<char>)
    requires
        name.len() > 0,
        dir.len() > 0 && dir.last() == '/',
        drive_end(desktop, dir + name) <= dir.len(),
        forall|j: int|
            0 <= j < name.len() ==> #[trigger] name[j] != '.' && !is_separator(desktop, name[j]),
    ensures
        config_path_of(desktop, dir + name) == dir + name + ".onnx.json"@,
{
    let path = dir + name;
    let start = dir.len() as int;
    let end = path.len() as int;
    assert(path[end - 1] == name[name.len() - 1]);
    assert(name_end(desktop, path, end) == end);
    lemma_name_goes_back(desktop, path, start, end);
    assert(path[start - 1] == '/');
    assert(name_start(desktop, path, start) == start);
    let file = path.subrange(start, end);
    assert(file =~= name);
    assert(name[0] != '.');
    assert(name != seq!['.'] && name != seq!['.', '.']);
    lemma_no_point(path, start, end, end);
    assert(path.take(end) =~= path);
}

proof fn lemma_name_goes_back(desktop: Desktop, path: Seq<char>, start: int, n: int)
    requires
        0 <= start <= n <= path.len(),
        drive_end(desktop, path) <= start,
        forall|j: int| start <= j < n ==> !is_separator(desktop, #[trigger] path[j]),
    ensures
        name_start(desktop, path, n) == name_start(desktop, path, start),
    decreases n - start,
{
    if start < n {
        assert(!is_separator(desktop, path[n - 1]));
        lemma_name_goes_back(desktop, path, start, n - 1);
    }
}

proof fn lemma_no_point(path: Seq<char>, start: int, end: int, i: int)
    requires
        0 <= start <= i <= end <= path.len(),
        forall|j: int| start <= j < end ==> #[trigger] path[j] != '.',
    ensures
        stem_end(path, start, end, i) == end,
    decreases i - start,
{
    if i > start + 1 {
        assert(path[i - 1] != '.');
        lemma_no_point(path, start, end, i - 1);
    }
}

/// Only Windows parts directories with a backslash too, and has drive letters.
pub proof fn separators_go_by_the_system(desktop: Desktop, c: char)
    ensures
        is_separator(desktop, '/'),
        is_separator(desktop, '\\') <==> desktop == Desktop::Windows,
        c != '/' && c != '\\' ==> !is_separator(desktop, c),
        desktop != Desktop::Windows ==> drive_end(desktop, seq![c, ':']) == 0,
        drive_end(Desktop::Windows, seq![c, ':']) == 2 <==> 'a' <= c <= 'z' || 'A' <= c <= 'Z',
{
}

} // verus!

//! The bank of voices: for each voice, one style vector per length of text.
use std::io::Read;

use vstd::prelude::*;
use vstd::string::*;

use crate::text::{
    chars_of, decimal, decimal_text, ends_with, is_before, order_is_total, order_is_transitive,
    result_bytes, result_text, text_before, text_eq, text_of, texts,
};
use crate::tts::engine::{TtsError, TtsFault};
use crate::tts::kokoro::npy::{npy_rows, parse_npy_float32_2d, rows_have_the_expected_width, table};

verus! {

/// The number of values in a style vector.
pub const EXPECTED_STYLE_DIM: usize = 256;

// ---------------------------------------------------------------------------
// Reading archives
// ---------------------------------------------------------------------------

/// How many entries the archive in `bytes` has, or why it is no archive.
pub uninterp spec fn archive_count(bytes: Seq<u8>) -> Result<nat, Seq<char>>;

/// The name of entry `i` of the archive in `bytes`, or why it cannot be had.
pub uninterp spec fn archive_entry_name(bytes: Seq<u8>, i: nat) -> Result<Seq<char>, Seq<char>>;

/// What entry `i` of the archive in `bytes` holds, or why it cannot be read.
pub uninterp spec fn archive_entry_data(bytes: Seq<u8>, i: nat) -> Result<Seq<u8>, Seq<char>>;

/// The value of a count or of the text of an error.
pub open spec fn count_view(r: Result<usize, String>) -> Result<nat, Seq<char>> {
    match r {
        Ok(n) => Ok(n as nat),
        Err(e) => Err(e@),
    }
}

/// `zip::ZipArchive::new` on bytes in memory, and `len` of what it gives. Both
/// depend on the bytes alone; the error comes as its text.
#[verifier::external_body]
fn count_entries(bytes: &Vec<u8>) -> (r: Result<usize, String>)
    ensures
        count_view(r) == archive_count(bytes@),
{
    match zip::ZipArchive::new(std::io::Cursor::new(bytes.as_slice())) {
        Ok(archive) => Ok(archive.len()),
        Err(e) => Err(e.to_string()),
    }
}

/// `zip::ZipArchive::by_index` on bytes in memory, and the entry's `name`. Both
/// depend on the bytes and the number alone; the error comes as its text.
#[verifier::external_body]
fn entry_name(bytes: &Vec<u8>, i: usize) -> (r: Result<String, String>)
    ensures
        result_text(r) == archive_entry_name(bytes@, i as nat),
{
    let mut archive = match zip::ZipArchive::new(std::io::Cursor::new(bytes.as_slice())) {
        Ok(archive) => archive,
        Err(e) => return Err(e.to_string()),
    };
    let r = match archive.by_index(i) {
        Ok(entry) => Ok(entry.name().to_owned()),
        Err(e) => Err(e.to_string()),
    };
    r
}

/// `zip::ZipArchive::by_index` on bytes in memory, and what `read_to_end` gives
/// of the entry. Both depend on the bytes and the number alone; the error comes
/// as its text.
#[verifier::external_body]
fn entry_data(bytes: &Vec<u8>, i: usize) -> (r: Result<Vec<u8>, String>)
    ensures
        result_bytes(r) == archive_entry_data(bytes@, i as nat),
{
    let mut archive = match zip::ZipArchive::new(std::io::Cursor::new(bytes.as_slice())) {
        Ok(archive) => archive,
        Err(e) => return Err(e.to_string()),
    };
    let mut entry = match archive.by_index(i) {
        Ok(entry) => entry,
        Err(e) => return Err(e.to_string()),
    };
    let mut data = Vec::new();
    match entry.read_to_end(&mut data) {
        Ok(_) => Ok(data),
        Err(e) => Err(e.to_string()),
    }
}

// ---------------------------------------------------------------------------
// The bank
// ---------------------------------------------------------------------------

/// One voice and its table of styles. The values are the bit patterns of
/// floats.
#[derive(Debug)]
pub struct VoiceTable {
    pub id: String,
    pub rows: Vec<Vec<u32>>,
}

/// The voices of a model, in alphabetical order.
#[derive(Debug)]
pub struct VoiceBank {
    pub voices: Vec<VoiceTable>,
}

/// The names of the voices.
pub open spec fn ids_of(voices: Seq<VoiceTable>) -> Seq<Seq<char>> {
    voices.map_values(|voice: VoiceTable| voice.id@)
}

/// Whether the names stand in alphabetical order, none twice.
pub open spec fn in_order(ids: Seq<Seq<char>>) -> bool {
    forall|i: int, j: int| 0 <= i < j < ids.len() ==> text_before(#[trigger] ids[i], #[trigger] ids[j])
}

impl View for VoiceBank {
    type V = Map<Seq<char>, Seq<Seq<u32>>>;

    open spec fn view(&self) -> Map<Seq<char>, Seq<Seq<u32>>> {
        let ids = ids_of(self.voices@);
        Map::new(
            |id: Seq<char>| ids.contains(id),
            |id: Seq<char>| table(self.voices@[ids.index_of(id)].rows@),
        )
    }
}

/// Whether every row of every table has the width of a style.
pub open spec fn has_style_rows(m: Map<Seq<char>, Seq<Seq<u32>>>) -> bool {
    forall|id: Seq<char>, i: int|
        m.contains_key(id) && 0 <= i < m[id].len() ==> (#[trigger] m[id][i]).len()
            == EXPECTED_STYLE_DIM
}

/// The voice that an entry of the archive is for: its name ends in `.npy`, and
/// what stands before that is not empty and has no point.
pub open spec fn voice_of_entry(name: Seq<char>) -> Option<Seq<char>> {
    let suffix = ".npy"@;
    if suffix.is_suffix_of(name) {
        let id = name.take(name.len() - suffix.len());
        if id.len() == 0 || id.contains('.') {
            None
        } else {
            Some(id)
        }
    } else {
        None
    }
}

/// The voices of the first `n` entries of an archive. Of two entries for one
/// voice the later counts.
pub open spec fn voices_first(bytes: Seq<u8>, n: nat) -> Result<
    Map<Seq<char>, Seq<Seq<u32>>>,
    TtsFault,
>
    decreases n,
{
    if n == 0 {
        Ok(Map::empty())
    } else {
        let i = (n - 1) as nat;
        match voices_first(bytes, i) {
            Err(fault) => Err(fault),
            Ok(voices) => match archive_entry_name(bytes, i) {
                Err(e) => Err(TtsFault::Backend("npz entry #"@ + decimal(i) + ": "@ + e)),
                Ok(name) => match voice_of_entry(name) {
                    None => Ok(voices),
                    Some(id) => with_entry(voices, id, name, archive_entry_data(bytes, i)),
                },
            },
        }
    }
}

/// The voices that the archive in `bytes` holds, or why it is of no use.
pub open spec fn voices_in(path: Seq<char>, bytes: Seq<u8>) -> Result<
    Map<Seq<char>, Seq<Seq<u32>>>,
    TtsFault,
> {
    match archive_count(bytes) {
        Err(e) => Err(TtsFault::Backend("parse NPZ ("@ + path + "): "@ + e)),
        Ok(n) => match voices_first(bytes, n) {
            Err(fault) => Err(fault),
            Ok(voices) => finished(path, voices),
        },
    }
}

/// The voices of the file at `path`, given what reading it gave.
pub open spec fn loaded_voices(path: Seq<char>, file: Result<Seq<u8>, Seq<char>>) -> Result<
    Map<Seq<char>, Seq<Seq<u32>>>,
    TtsFault,
> {
    match file {
        Err(e) => Err(TtsFault::Backend("abrir voices-v1.0.bin ("@ + path + "): "@ + e)),
        Ok(bytes) => voices_in(path, bytes),
    }
}

/// Whether `id` is the first of the voices in alphabetical order.
pub open spec fn is_first_voice(m: Map<Seq<char>, Seq<Seq<u32>>>, id: Seq<char>) -> bool {
    m.contains_key(id) && forall|other: Seq<char>| #[trigger]
        m.contains_key(other) ==> !text_before(other, id)
}

/// The voice that stands in for `id`: itself, or else `ef_dora`, `af_heart` or
/// the first of the bank.
pub open spec fn voice_or_fallback(m: Map<Seq<char>, Seq<Seq<u32>>>, id: Seq<char>) -> Option<
    Seq<char>,
> {
    if m.contains_key(id) {
        Some(id)
    } else if m.contains_key("ef_dora"@) {
        Some("ef_dora"@)
    } else if m.contains_key("af_heart"@) {
        Some("af_heart"@)
    } else if m =~= Map::empty() {
        None
    } else {
        Some(choose|first: Seq<char>| is_first_voice(m, first))
    }
}

/// The style of the voice `id` for a text of `token_count` phonemes: the row of
/// that number, or the last where there are fewer.
pub open spec fn style_of(
    m: Map<Seq<char>, Seq<Seq<u32>>>,
    id: Seq<char>,
    token_count: nat,
) -> Result<Seq<u32>, TtsFault> {
    match voice_or_fallback(m, id) {
        None => Err(TtsFault::UnknownVoice(id)),
        Some(voice) => {
            let rows = m[voice];
            if rows.len() == 0 {
                Err(
                    TtsFault::InvalidVoiceConfig(
                        "voz '"@ + id + "' tiene tabla de estilos vacía"@,
                    ),
                )
            } else if token_count < rows.len() {
                Ok(rows[token_count as int])
            } else {
                Ok(rows.last())
            }
        },
    }
}

proof fn lemma_index(voices: Seq<VoiceTable>, i: int)
    requires
        in_order(ids_of(voices)),
        0 <= i < voices.len(),
    ensures
        ids_of(voices).contains(voices[i].id@),
        ids_of(voices).index_of(voices[i].id@) == i,
{
    let ids = ids_of(voices);
    assert(ids[i] == voices[i].id@);
    let j = ids.index_of(ids[i]);
    assert(ids.contains(ids[i]));
    assert(0 <= j < ids.len() && ids[j] == ids[i]);
    order_is_total(ids[i], ids[j]);
}

impl VoiceBank {
    /// Whether the voices stand in order, none twice.
    pub open spec fn wf(&self) -> bool {
        in_order(ids_of(self.voices@))
    }

    proof fn lemma_voice(&self, i: int)
        requires
            self.wf(),
            0 <= i < self.voices@.len(),
        ensures
            self@.contains_key(self.voices@[i].id@),
            self@[self.voices@[i].id@] == table(self.voices@[i].rows@),
    {
        lemma_index(self.voices@, i);
    }

    proof fn lemma_known(&self, id: Seq<char>) -> (i: int)
        requires
            self.wf(),
            self@.contains_key(id),
        ensures
            0 <= i < self.voices@.len(),
            self.voices@[i].id@ == id,
            self@[id] == table(self.voices@[i].rows@),
    {
        let ids = ids_of(self.voices@);
        let i = ids.index_of(id);
        assert(ids.contains(id));
        assert(ids[i] == id);
        i
    }

    /// A bank without voices.
    pub fn new() -> (r: Self)
        ensures
            r.wf(),
            r@ == Map::<Seq<char>, Seq<Seq<u32>>>::empty(),
    {
        let r = VoiceBank { voices: Vec::new() };
        assert(r@ =~= Map::<Seq<char>, Seq<Seq<u32>>>::empty());
        r
    }

    /// The position of the first voice that does not stand before `id`.
    fn position(&self, id: &str) -> (r: usize)
        requires
            self.wf(),
        ensures
            r <= self.voices@.len(),
            forall|j: int| 0 <= j < r ==> text_before(#[trigger] ids_of(self.voices@)[j], id@),
            forall|j: int|
                r <= j < self.voices@.len() ==> !text_before(
                    #[trigger] ids_of(self.voices@)[j],
                    id@,
                ),
    {
        let ghost ids = ids_of(self.voices@);
        let mut i: usize = 0;
        while i < self.voices.len()
            invariant
                self.wf(),
                ids == ids_of(self.voices@),
                i <= self.voices@.len(),
                forall|j: int| 0 <= j < i ==> text_before(#[trigger] ids[j], id@),
            decreases self.voices@.len() - i,
        {
            assert(ids[i as int] == self.voices@[i as int].id@);
            if !is_before(self.voices[i].id.as_str(), id) {
                proof {
                    assert forall|j: int| i <= j < ids.len() implies !text_before(
                        #[trigger] ids[j],
                        id@,
                    ) by {
                        if i < j && text_before(ids[j], id@) {
                            order_is_transitive(ids[i as int], ids[j], id@);
                        }
                    }
                }
                return i;
            }
            i += 1;
        }
        i
    }

    /// Where the voice `id` stands, if the bank has it.
    fn find(&self, id: &str) -> (r: Option<usize>)
        requires
            self.wf(),
        ensures
            match r {
                Some(i) => i < self.voices@.len() && self.voices@[i as int].id@ == id@
                    && self@.contains_key(id@) && self@[id@] == table(
                    self.voices@[i as int].rows@,
                ),
                None => !self@.contains_key(id@),
            },
    {
        let mut i: usize = 0;
        while i < self.voices.len()
            invariant
                self.wf(),
                i <= self.voices@.len(),
                forall|j: int| 0 <= j < i ==> (#[trigger] self.voices@[j]).id@ != id@,
            decreases self.voices@.len() - i,
        {
            if text_eq(self.voices[i].id.as_str(), id) {
                proof {
                    self.lemma_voice(i as int);
                }
                return Some(i);
            }
            i += 1;
        }
        proof {
            if self@.contains_key(id@) {
                let j = self.lemma_known(id@);
            }
        }
        None
    }

    /// Puts a voice into the bank, in place of one of that name.
    fn insert(&mut self, id: String, rows: Vec<Vec<u32>>)
        requires
            old(self).wf(),
        ensures
            final(self).wf(),
            final(self)@ == old(self)@.insert(id@, table(rows@)),
    {
        let at: usize = self.position(id.as_str());
        let ghost key = id@;
        let ghost value = table(rows@);
        let ghost before = *self;
        let ghost old_ids = ids_of(before.voices@);
        let known = at < self.voices.len() && text_eq(self.voices[at].id.as_str(), id.as_str());
        let voice = VoiceTable { id, rows };
        if known {
            self.voices.set(at, voice);
            proof {
                let new_ids = ids_of(self.voices@);
                assert(new_ids =~= old_ids);
                assert forall|k: Seq<char>| #[trigger] self@.contains_key(k) implies self@[k]
                    == before@.insert(key, value)[k] by {
                    let i = self.lemma_known(k);
                    lemma_index(before.voices@, i);
                    lemma_index(before.voices@, at as int);
                }
                before.lemma_voice(at as int);
                assert(self@ =~= before@.insert(key, value));
            }
        } else {
            self.voices.insert(at, voice);
            proof {
                let new_ids = ids_of(self.voices@);
                assert(new_ids =~= old_ids.insert(at as int, key));
                assert forall|i: int, j: int| 0 <= i < j < new_ids.len() implies text_before(
                    #[trigger] new_ids[i],
                    #[trigger] new_ids[j],
                ) by {
                    let a = if i < at { i } else { i - 1 };
                    let b = if j < at { j } else { j - 1 };
                    if i == at {
                        order_is_total(old_ids[b], key);
                        if old_ids[b] == key {
                            order_is_total(old_ids[at as int], key);
                            assert(before.voices@[at as int].id@ == old_ids[at as int]);
                            if b > at {
                                assert(text_before(old_ids[at as int], old_ids[b]));
                            }
                        }
                    } else if j == at {
                        assert(text_before(old_ids[a], key));
                    } else {
                        assert(text_before(old_ids[a], old_ids[b]));
                    }
                }
                assert forall|k: Seq<char>| #[trigger] self@.contains_key(k) implies before@.insert(
                    key,
                    value,
                ).contains_key(k) && self@[k] == before@.insert(key, value)[k] by {
                    let i = self.lemma_known(k);
                    if i != at {
                        let a = if i < at { i } else { i - 1 };
                        before.lemma_voice(a);
                        self.lemma_voice(at as int);
                        if k == key {
                            lemma_index(self.voices@, i);
                            lemma_index(self.voices@, at as int);
                        }
                    }
                }
                assert forall|k: Seq<char>| #[trigger] before@.insert(key, value).contains_key(k)
                    implies self@.contains_key(k) by {
                    if k == key {
                        self.lemma_voice(at as int);
                    } else {
                        let a = before.lemma_known(k);
                        let i = if a < at { a } else { a + 1 };
                        self.lemma_voice(i);
                    }
                }
                assert(self@ =~= before@.insert(key, value));
            }
        }
    }
}

/// The voice that an entry of the archive is for, if it is for one.
pub fn entry_voice(name: &str) -> (r: Option<String>)
    ensures
        match r {
            Some(id) => voice_of_entry(name@) == Some(id@),
            None => voice_of_entry(name@) is None,
        },
{
    proof {
        reveal_strlit(".npy");
    }
    if !ends_with(name, ".npy") {
        return None;
    }
    let v = chars_of(name);
    let n: usize = v.len() - 4;
    let ghost id = name@.take(n as int);
    let mut i: usize = 0;
    while i < n
        invariant
            i <= n,
            n == v@.len() - 4,
            v@ == name@,
            id == name@.take(n as int),
            ".npy"@.len() == 4,
            ".npy"@.is_suffix_of(name@),
            forall|j: int| 0 <= j < i ==> v@[j] != '.',
        decreases n - i,
    {
        if v[i] == '.' {
            assert(id[i as int] == '.');
            return None;
        }
        i += 1;
    }
    assert(!id.contains('.'));
    if n == 0 {
        None
    } else {
        let text = text_of(&v, 0, n);
        assert(text@ =~= id);
        Some(text)
    }
}

proof fn lemma_fail_early(bytes: Seq<u8>, i: nat, n: nat)
    requires
        i <= n,
        voices_first(bytes, i) is Err,
    ensures
        voices_first(bytes, n) == voices_first(bytes, i),
    decreases n,
{
    if i < n {
        lemma_fail_early(bytes, i, (n - 1) as nat);
    }
}

/// The value of what loading a bank gives.
pub open spec fn bank_view(r: Result<VoiceBank, TtsError>) -> Result<
    Map<Seq<char>, Seq<Seq<u32>>>,
    TtsFault,
> {
    match r {
        Ok(bank) => Ok(bank@),
        Err(e) => Err(e@),
    }
}

/// The value of a style.
pub open spec fn style_view(r: Result<Vec<u32>, TtsError>) -> Result<Seq<u32>, TtsFault> {
    match r {
        Ok(style) => Ok(style@),
        Err(e) => Err(e@),
    }
}

/// The bank with the voice `id` of the entry `name`, given what reading the
/// entry gave.
pub open spec fn with_entry(
    voices: Map<Seq<char>, Seq<Seq<u32>>>,
    id: Seq<char>,
    name: Seq<char>,
    data: Result<Seq<u8>, Seq<char>>,
) -> Result<Map<Seq<char>, Seq<Seq<u32>>>, TtsFault> {
    match data {
        Err(e) => Err(TtsFault::Backend("leer entry "@ + name + ": "@ + e)),
        Ok(data) => match npy_rows(data, EXPECTED_STYLE_DIM as nat) {
            Err(fault) => Err(fault),
            Ok(rows) => Ok(voices.insert(id, rows)),
        },
    }
}

/// The bank once every entry was read; one without voices is of no use.
pub open spec fn finished(path: Seq<char>, voices: Map<Seq<char>, Seq<Seq<u32>>>) -> Result<
    Map<Seq<char>, Seq<Seq<u32>>>,
    TtsFault,
> {
    if voices =~= Map::empty() {
        Err(
            TtsFault::InvalidVoiceConfig(
                "voices-v1.0.bin no contiene entradas .npy válidas ("@ + path + ")"@,
            ),
        )
    } else {
        Ok(voices)
    }
}

impl VoiceBank {
    /// Adds the voice `id` of the entry `name`, given what reading the entry
    /// gave. Where that fails, the bank stays as it is.
    pub fn add_entry(&mut self, id: String, name: &str, data: Result<Vec<u8>, String>) -> (r:
        Result<(), TtsError>)
        requires
            old(self).wf(),
        ensures
            final(self).wf(),
            match with_entry(old(self)@, id@, name@, result_bytes(data)) {
                Ok(voices) => r is Ok && final(self)@ == voices,
                Err(fault) => (r matches Err(e) && e@ == fault) && *final(self) == *old(self),
            },
    {
        let data = match data {
            Ok(data) => data,
            Err(e) => {
                let mut message = "leer entry ".to_owned();
                message.append(name);
                message.append(": ");
                message.append(e.as_str());
                return Err(TtsError::Backend(message));
            },
        };
        match parse_npy_float32_2d(data.as_slice(), EXPECTED_STYLE_DIM) {
            Ok(rows) => {
                self.insert(id, rows);
                Ok(())
            },
            Err(e) => Err(e),
        }
    }

    /// The bank once every entry of the file at `path` was read.
    pub fn finish(self, path: &str) -> (r: Result<Self, TtsError>)
        requires
            self.wf(),
        ensures
            bank_view(r) == finished(path@, self@),
            r matches Ok(bank) ==> bank.wf(),
    {
        if self.voices.len() == 0 {
            assert(self@ =~= Map::empty());
            let mut message = "voices-v1.0.bin no contiene entradas .npy válidas (".to_owned();
            message.append(path);
            message.append(")");
            return Err(TtsError::InvalidVoiceConfig(message));
        }
        proof {
            self.lemma_voice(0);
        }
        Ok(self)
    }

    /// Reads the bank from the bytes of the file at `path`.
    fn from_archive(path: &str, bytes: &Vec<u8>) -> (r: Result<Self, TtsError>)
        ensures
            bank_view(r) == voices_in(path@, bytes@),
            r matches Ok(bank) ==> bank.wf(),
    {
        let n: usize = match count_entries(bytes) {
            Ok(n) => n,
            Err(e) => {
                let mut message = "parse NPZ (".to_owned();
                message.append(path);
                message.append("): ");
                message.append(e.as_str());
                return Err(TtsError::Backend(message));
            },
        };
        let mut bank = VoiceBank::new();
        let mut i: usize = 0;
        while i < n
            invariant
                i <= n,
                archive_count(bytes@) == Ok::<nat, Seq<char>>(n as nat),
                bank.wf(),
                voices_first(bytes@, i as nat) == Ok::<Map<Seq<char>, Seq<Seq<u32>>>, TtsFault>(
                    bank@,
                ),
            decreases n - i,
        {
            let name = match entry_name(bytes, i) {
                Ok(name) => name,
                Err(e) => {
                    let mut message = "npz entry #".to_owned();
                    message.append(decimal_text(i as u64).as_str());
                    message.append(": ");
                    message.append(e.as_str());
                    proof {
                        lemma_fail_early(bytes@, (i + 1) as nat, n as nat);
                    }
                    return Err(TtsError::Backend(message));
                },
            };
            if let Some(id) = entry_voice(name.as_str()) {
                let data = entry_data(bytes, i);
                if let Err(e) = bank.add_entry(id, name.as_str(), data) {
                    proof {
                        lemma_fail_early(bytes@, (i + 1) as nat, n as nat);
                    }
                    return Err(e);
                }
            }
            i += 1;
        }
        bank.finish(path)
    }

    /// Reads the bank, given what reading the file at `path` gave.
    pub fn load(path: &str, file: Result<Vec<u8>, String>) -> (r: Result<Self, TtsError>)
        ensures
            bank_view(r) == loaded_voices(path@, result_bytes(file)),
            r matches Ok(bank) ==> bank.wf(),
    {
        match file {
            Ok(bytes) => VoiceBank::from_archive(path, &bytes),
            Err(e) => {
                let mut message = "abrir voices-v1.0.bin (".to_owned();
                message.append(path);
                message.append("): ");
                message.append(e.as_str());
                Err(TtsError::Backend(message))
            },
        }
    }

    /// The names of the voices, in alphabetical order.
    pub fn voice_ids(&self) -> (r: Vec<String>)
        requires
            self.wf(),
        ensures
            in_order(texts(r@)),
            forall|id: Seq<char>| texts(r@).contains(id) <==> #[trigger] self@.contains_key(id),
    {
        let mut out: Vec<String> = Vec::new();
        let mut i: usize = 0;
        while i < self.voices.len()
            invariant
                i <= self.voices@.len(),
                texts(out@) == ids_of(self.voices@).take(i as int),
            decreases self.voices@.len() - i,
        {
            let id = self.voices[i].id.clone();
            let ghost before = out@;
            out.push(id);
            assert(texts(out@) =~= texts(before).push(id@));
            assert(ids_of(self.voices@).take(i + 1) =~= ids_of(self.voices@).take(i as int).push(
                id@,
            ));
            i += 1;
        }
        assert(texts(out@) =~= ids_of(self.voices@));
        out
    }

    /// Where the rows stand that serve for the voice `id`.
    fn rows_for(&self, id: &str) -> (r: Option<usize>)
        requires
            self.wf(),
        ensures
            match r {
                Some(i) => i < self.voices@.len() && voice_or_fallback(self@, id@) == Some(
                    self.voices@[i as int].id@,
                ) && self@[self.voices@[i as int].id@] == table(self.voices@[i as int].rows@),
                None => voice_or_fallback(self@, id@) is None,
            },
    {
        if let Some(i) = self.find(id) {
            return Some(i);
        }
        if let Some(i) = self.find("ef_dora") {
            return Some(i);
        }
        if let Some(i) = self.find("af_heart") {
            return Some(i);
        }
        if self.voices.len() == 0 {
            assert(self@ =~= Map::empty());
            return None;
        }
        proof {
            let ids = ids_of(self.voices@);
            let first = ids[0];
            self.lemma_voice(0);
            assert forall|other: Seq<char>| #[trigger] self@.contains_key(other) implies !text_before(
                other,
                first,
            ) by {
                let i = self.lemma_known(other);
                assert(ids[i] == other);
                order_is_total(first, other);
            }
            assert(is_first_voice(self@, first));
            let chosen = choose|first: Seq<char>| is_first_voice(self@, first);
            order_is_total(first, chosen);
        }
        Some(0)
    }

    /// The style of the voice `id` for a text of `token_count` phonemes.
    pub fn voice_slice(&self, id: &str, token_count: usize) -> (r: Result<Vec<u32>, TtsError>)
        requires
            self.wf(),
        ensures
            style_view(r) == style_of(self@, id@, token_count as nat),
    {
        let at: usize = match self.rows_for(id) {
            Some(at) => at,
            None => {
                return Err(TtsError::UnknownVoice(id.to_owned()));
            },
        };
        let rows = &self.voices[at].rows;
        let n: usize = rows.len();
        assert(table(rows@).len() == n);
        if n == 0 {
            let mut message = "voz '".to_owned();
            message.append(id);
            message.append("' tiene tabla de estilos vacía");
            return Err(TtsError::InvalidVoiceConfig(message));
        }
        let i: usize = if token_count < n {
            token_count
        } else {
            n - 1
        };
        let style = rows[i].clone();
        assert(style@ =~= table(rows@)[i as int]);
        Ok(style)
    }
}

// ---------------------------------------------------------------------------
// Laws
// ---------------------------------------------------------------------------

proof fn lemma_styles_are_wide(bytes: Seq<u8>, n: nat)
    ensures
        voices_first(bytes, n) matches Ok(voices) ==> has_style_rows(voices),
    decreases n,
{
    if n > 0 {
        let i = (n - 1) as nat;
        lemma_styles_are_wide(bytes, i);
        if let Ok(data) = archive_entry_data(bytes, i) {
            rows_have_the_expected_width(data, EXPECTED_STYLE_DIM as nat);
        }
    }
}

/// Every row of every voice that is loaded is as wide as a style.
pub proof fn loaded_styles_have_the_style_width(path: Seq<char>, file: Result<Seq<u8>, Seq<char>>)
    ensures
        loaded_voices(path, file) matches Ok(voices) ==> has_style_rows(voices),
{
    if let Ok(bytes) = file {
        if let Ok(n) = archive_count(bytes) {
            lemma_styles_are_wide(bytes, n);
        }
    }
}

/// A bank that was loaded has a voice, so that no voice asked of it is
/// unknown.
pub proof fn a_loaded_bank_knows_every_voice(
    path: Seq<char>,
    file: Result<Seq<u8>, Seq<char>>,
    id: Seq<char>,
    token_count: nat,
)
    ensures
        loaded_voices(path, file) matches Ok(voices) ==> style_of(voices, id, token_count) != Err::<
            Seq<u32>,
            TtsFault,
        >(TtsFault::UnknownVoice(id)),
{
}

proof fn lemma_some_voice_is_first(bytes: Seq<u8>, n: nat)
    ensures
        voices_first(bytes, n) matches Ok(voices) ==> voices =~= Map::empty()
            || exists|first: Seq<char>| is_first_voice(voices, first),
    decreases n,
{
    if n > 0 {
        let i = (n - 1) as nat;
        lemma_some_voice_is_first(bytes, i);
        if voices_first(bytes, n) is Ok && voices_first(bytes, n) != voices_first(bytes, i) {
            let before = voices_first(bytes, i)->Ok_0;
            let voices = voices_first(bytes, n)->Ok_0;
            let id = voice_of_entry(archive_entry_name(bytes, i)->Ok_0)->Some_0;
            order_is_total(id, id);
            if before =~= Map::empty() {
                assert(is_first_voice(voices, id));
            } else {
                let first = choose|first: Seq<char>| is_first_voice(before, first);
                if text_before(id, first) {
                    assert forall|other: Seq<char>| #[trigger]
                        voices.contains_key(other) implies !text_before(other, id) by {
                        if text_before(other, id) {
                            order_is_transitive(other, id, first);
                            assert(before.contains_key(other));
                        }
                    }
                    assert(is_first_voice(voices, id));
                } else {
                    assert(is_first_voice(voices, first));
                }
            }
        }
    }
}

/// A style that a loaded bank gives has the style width.
pub proof fn a_style_has_the_style_width(
    path: Seq<char>,
    file: Result<Seq<u8>, Seq<char>>,
    id: Seq<char>,
    token_count: nat,
)
    ensures
        loaded_voices(path, file) matches Ok(voices) ==> (style_of(
            voices,
            id,
            token_count,
        ) matches Ok(style) ==> style.len() == EXPECTED_STYLE_DIM),
{
    loaded_styles_have_the_style_width(path, file);
    if loaded_voices(path, file) is Ok {
        let bytes = file->Ok_0;
        lemma_some_voice_is_first(bytes, archive_count(bytes)->Ok_0);
    }
}

/// A voice that is there reads with its own table: a text of `n` phonemes with
/// row `n`, or the last where there are fewer rows.
pub proof fn a_known_voice_reads_with_its_own_style(
    m: Map<Seq<char>, Seq<Seq<u32>>>,
    id: Seq<char>,
    token_count: nat,
)
    requires
        m.contains_key(id),
        m[id].len() > 0,
    ensures
        token_count < m[id].len() ==> style_of(m, id, token_count) == Ok::<Seq<u32>, TtsFault>(
            m[id][token_count as int],
        ),
        token_count >= m[id].len() ==> style_of(m, id, token_count) == style_of(
            m,
            id,
            (m[id].len() - 1) as nat,
        ),
{
}

/// A voice that is not there is read by `ef_dora`, without that one by
/// `af_heart`, and without either by the first voice of the alphabet. Which
/// voice was asked for does not matter then.
pub proof fn an_unknown_voice_is_stood_in_for(
    m: Map<Seq<char>, Seq<Seq<u32>>>,
    id: Seq<char>,
    other: Seq<char>,
    token_count: nat,
)
    requires
        !m.contains_key(id),
        !m.contains_key(other),
    ensures
        voice_or_fallback(m, id) == voice_or_fallback(m, other),
        m.contains_key("ef_dora"@) ==> voice_or_fallback(m, id) == Some("ef_dora"@),
        !m.contains_key("ef_dora"@) && m.contains_key("af_heart"@) ==> voice_or_fallback(m, id)
            == Some("af_heart"@),
        !m.contains_key("ef_dora"@) && !m.contains_key("af_heart"@) ==> (voice_or_fallback(
            m,
            id,
        ) matches Some(first) ==> forall|v: Seq<char>|
            is_first_voice(m, v) ==> #[trigger] is_first_voice(m, first) && v == first),
        style_of(m, id, token_count) is Ok ==> style_of(m, id, token_count) == style_of(
            m,
            other,
            token_count,
        ),
        m.contains_key("ef_dora"@) && m["ef_dora"@].len() > 0 ==> style_of(m, id, token_count)
            == style_of(m, "ef_dora"@, token_count),
{
    if !m.contains_key("ef_dora"@) && !m.contains_key("af_heart"@) {
        if let Some(first) = voice_or_fallback(m, id) {
            assert forall|v: Seq<char>| is_first_voice(m, v) implies #[trigger] is_first_voice(
                m,
                first,
            ) && v == first by {
                assert(is_first_voice(m, v));
                order_is_total(v, first);
            }
        }
    }
}

/// A voice without any style is refused by its name, and only an empty bank
/// knows none at all.
pub proof fn a_voice_without_styles_is_refused(
    m: Map<Seq<char>, Seq<Seq<u32>>>,
    id: Seq<char>,
    token_count: nat,
)
    ensures
        m.contains_key(id) && m[id].len() == 0 ==> style_of(m, id, token_count) == Err::<
            Seq<u32>,
            TtsFault,
        >(
            TtsFault::InvalidVoiceConfig("voz '"@ + id + "' tiene tabla de estilos vacía"@),
        ),
        m =~= Map::empty() <==> style_of(m, id, token_count) == Err::<Seq<u32>, TtsFault>(
            TtsFault::UnknownVoice(id),
        ),
{
    if m =~= Map::empty() {
        assert(!m.contains_key(id));
        assert(!m.contains_key("ef_dora"@));
        assert(!m.contains_key("af_heart"@));
    }
}

/// An entry is for the voice that it is named after, without `.npy`. A name with
/// another point, with nothing before the ending, or without the ending is for
/// none.
pub proof fn an_entry_is_named_after_its_voice(id: Seq<char>, name: Seq<char>)
    ensures
        id.len() > 0 && !id.contains('.') ==> voice_of_entry(id + ".npy"@) == Some(id),
        id.len() == 0 || id.contains('.') ==> voice_of_entry(id + ".npy"@) is None,
        voice_of_entry(name) matches Some(voice) ==> name == voice + ".npy"@,
{
    reveal_strlit(".npy");
    let full = id + ".npy"@;
    assert(full.subrange(full.len() - 4, full.len() as int) =~= ".npy"@);
    assert(full.take(full.len() - 4) =~= id);
    if ".npy"@.is_suffix_of(name) {
        assert(name.subrange(name.len() - 4, name.len() as int) == ".npy"@);
        assert(name =~= name.take(name.len() - 4) + ".npy"@);
    }
}

/// An entry that is read adds its voice to those that are there, in place of one
/// of its name, and touches no other.
pub proof fn an_entry_touches_its_voice_alone(
    voices: Map<Seq<char>, Seq<Seq<u32>>>,
    id: Seq<char>,
    name: Seq<char>,
    data: Result<Seq<u8>, Seq<char>>,
    other: Seq<char>,
)
    ensures
        with_entry(voices, id, name, data) matches Ok(after) ==> {
            &&& after.contains_key(id)
            &&& data matches Ok(bytes) && npy_rows(bytes, 256) == Ok::<Seq<Seq<u32>>, TtsFault>(
                after[id],
            )
            &&& other != id ==> after.contains_key(other) == voices.contains_key(other) && (
            voices.contains_key(other) ==> after[other] == voices[other])
        },
        data matches Err(e) ==> with_entry(voices, id, name, data) == Err::<
            Map<Seq<char>, Seq<Seq<u32>>>,
            TtsFault,
        >(TtsFault::Backend("leer entry "@ + name + ": "@ + e)),
{
}

/// A bank that is of no use is told with the file it comes from: one that cannot
/// be opened, one that is no archive, and one without any voice.
pub proof fn a_bad_bank_is_told(
    path: Seq<char>,
    reason: Seq<char>,
    bytes: Seq<u8>,
    voices: Map<Seq<char>, Seq<Seq<u32>>>,
)
    ensures
        loaded_voices(path, Err(reason)) == Err::<Map<Seq<char>, Seq<Seq<u32>>>, TtsFault>(
            TtsFault::Backend("abrir voices-v1.0.bin ("@ + path + "): "@ + reason),
        ),
        archive_count(bytes) matches Err(e) ==> loaded_voices(path, Ok(bytes)) == Err::<
            Map<Seq<char>, Seq<Seq<u32>>>,
            TtsFault,
        >(TtsFault::Backend("parse NPZ ("@ + path + "): "@ + e)),
        finished(path, Map::empty()) == Err::<Map<Seq<char>, Seq<Seq<u32>>>, TtsFault>(
            TtsFault::InvalidVoiceConfig(
                "voices-v1.0.bin no contiene entradas .npy válidas ("@ + path + ")"@,
            ),
        ),
        !(voices =~= Map::empty()) ==> finished(path, voices) == Ok::<
            Map<Seq<char>, Seq<Seq<u32>>>,
            TtsFault,
        >(voices),
{
}

/// An entry of the archive that has no name is told by its number, and nothing
/// behind it is read.
pub proof fn an_entry_without_name_is_told(bytes: Seq<u8>, i: nat, e: Seq<char>)
    requires
        voices_first(bytes, i) is Ok,
        archive_entry_name(bytes, i) == Err::<Seq<char>, Seq<char>>(e),
    ensures
        voices_first(bytes, i + 1) == Err::<Map<Seq<char>, Seq<Seq<u32>>>, TtsFault>(
            TtsFault::Backend("npz entry #"@ + decimal(i) + ": "@ + e),
        ),
{
}

/// An entry that is for no voice is passed over.
pub proof fn an_entry_for_no_voice_is_passed_over(bytes: Seq<u8>, i: nat, name: Seq<char>)
    requires
        archive_entry_name(bytes, i) == Ok::<Seq<char>, Seq<char>>(name),
        voice_of_entry(name) is None,
    ensures
        voices_first(bytes, i + 1) == voices_first(bytes, i),
{
}

} // verus!

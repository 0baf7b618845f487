//! From phonemes to the numbers that a Piper model reads.
use vstd::hash_map::StringHashMap;
use vstd::prelude::*;
use vstd::string::*;

use crate::text::texts;
use crate::tts::engine::{TtsError, TtsFault};

verus! {

/// Most numbers that are sent to a model.
pub const MAX_PHONEMES: usize = 256;

/// The numbers of each phoneme of a voice.
pub struct PhonemeIdMap {
    map: StringHashMap<Vec<i64>>,
}

impl View for PhonemeIdMap {
    type V = Map<Seq<char>, Vec<i64>>;

    closed spec fn view(&self) -> Map<Seq<char>, Vec<i64>> {
        self.map@
    }
}

impl PhonemeIdMap {
    pub fn new() -> (r: Self)
        ensures
            r@ == Map::<Seq<char>, Vec<i64>>::empty(),
    {
        PhonemeIdMap { map: StringHashMap::new() }
    }

    pub fn insert(&mut self, phoneme: String, ids: Vec<i64>)
        ensures
            final(self)@ == old(self)@.insert(phoneme@, ids),
    {
        self.map.insert(phoneme, ids);
    }

    pub fn remove(&mut self, phoneme: &str)
        ensures
            final(self)@ == old(self)@.remove(phoneme@),
    {
        self.map.remove(phoneme);
    }

    pub fn get<'a>(&'a self, phoneme: &str) -> (r: Option<&'a Vec<i64>>)
        ensures
            match r {
                Some(ids) => self@.contains_key(phoneme@) && *ids == self@[phoneme@],
                None => !self@.contains_key(phoneme@),
            },
    {
        self.map.get(phoneme)
    }
}

/// The numbers of the tokens that delimit a sequence.
#[derive(Debug, Clone, Copy, PartialEq, Eq, Structural)]
pub struct SpecialIds {
    /// Beginning of the sequence.
    pub bos: i64,
    /// Between phonemes.
    pub pad: i64,
    /// End of the sequence.
    pub eos: i64,
}

/// The first number of a phoneme, if it has any.
pub open spec fn first_id_of(map: Map<Seq<char>, Vec<i64>>, key: Seq<char>) -> Option<i64> {
    if map.contains_key(key) && map[key]@.len() > 0 {
        Some(map[key]@[0])
    } else {
        None
    }
}

/// The first number of the phoneme `key`, if it has any.
pub fn first_id(map: &PhonemeIdMap, key: &str) -> (r: Option<i64>)
    ensures
        r == first_id_of(map@, key@),
{
    match map.get(key) {
        Some(ids) => if ids.len() > 0 {
            Some(ids[0])
        } else {
            None
        },
        None => None,
    }
}

/// The delimiters that the map of a voice names: `^` and `$` must be there, and
/// `_` counts as zero where it is missing.
pub open spec fn special_ids_of(map: Map<Seq<char>, Vec<i64>>) -> Result<SpecialIds, TtsFault> {
    match (first_id_of(map, "^"@), first_id_of(map, "$"@)) {
        (None, _) => Err(TtsFault::InvalidVoiceConfig("phoneme_id_map no contiene '^' (BOS)"@)),
        (Some(_), None) => Err(
            TtsFault::InvalidVoiceConfig("phoneme_id_map no contiene '$' (EOS)"@),
        ),
        (Some(bos), Some(eos)) => Ok(
            SpecialIds {
                bos,
                pad: match first_id_of(map, "_"@) {
                    Some(pad) => pad,
                    None => 0,
                },
                eos,
            },
        ),
    }
}

impl SpecialIds {
    /// Takes the delimiters from the map of a voice.
    pub fn from_map(map: &PhonemeIdMap) -> (r: Result<Self, TtsError>)
        ensures
            match r {
                Ok(special) => special_ids_of(map@) == Ok::<SpecialIds, TtsFault>(special),
                Err(e) => special_ids_of(map@) == Err::<SpecialIds, TtsFault>(e@),
            },
    {
        let bos: i64 = match first_id(map, "^") {
            Some(id) => id,
            None => {
                return Err(
                    TtsError::InvalidVoiceConfig("phoneme_id_map no contiene '^' (BOS)".to_owned()),
                );
            },
        };
        let eos: i64 = match first_id(map, "$") {
            Some(id) => id,
            None => {
                return Err(
                    TtsError::InvalidVoiceConfig("phoneme_id_map no contiene '$' (EOS)".to_owned()),
                );
            },
        };
        let pad: i64 = match first_id(map, "_") {
            Some(id) => id,
            None => 0,
        };
        Ok(SpecialIds { bos, pad, eos })
    }
}

/// What the encoding left out.
#[derive(Debug, Clone, Copy, PartialEq, Eq, Structural)]
pub struct EncodeReport {
    /// Whether the sequence was cut to fit the model.
    pub truncated: bool,
    /// How many phonemes the voice does not know, up to the largest number
    /// that fits.
    pub skipped: u32,
}

impl Default for EncodeReport {
    fn default() -> (r: Self)
        ensures
            r == (EncodeReport { truncated: false, skipped: 0 }),
    {
        EncodeReport { truncated: false, skipped: 0 }
    }
}

/// Whether the voice knows the phoneme.
pub open spec fn is_known(map: Map<Seq<char>, Vec<i64>>, token: Seq<char>) -> bool {
    map.contains_key(token) && map[token]@.len() > 0
}

/// The encoding so far: the numbers, whether it was cut, and how many
/// phonemes were left out.
pub struct Encoding {
    pub ids: Seq<i64>,
    pub truncated: bool,
    pub skipped: nat,
}

/// The smaller of two numbers.
pub open spec fn at_most(n: nat, limit: nat) -> nat {
    if n <= limit {
        n
    } else {
        limit
    }
}

/// The encoding of the first `n` phonemes. Each known phoneme adds its
/// numbers and a pad; the first one that does not fit, with its pad and the
/// end token, ends the encoding.
pub open spec fn encode_first(
    tokens: Seq<Seq<char>>,
    map: Map<Seq<char>, Vec<i64>>,
    special: SpecialIds,
    n: int,
) -> Encoding
    decreases n,
{
    if n <= 0 {
        Encoding { ids: seq![special.bos, special.pad], truncated: false, skipped: 0 }
    } else {
        let before = encode_first(tokens, map, special, n - 1);
        let token = tokens[n - 1];
        if before.truncated {
            before
        } else if !is_known(map, token) {
            Encoding { skipped: before.skipped + 1, ..before }
        } else if before.ids.len() + map[token]@.len() + 2 > MAX_PHONEMES {
            Encoding { truncated: true, ..before }
        } else {
            Encoding { ids: (before.ids + map[token]@).push(special.pad), ..before }
        }
    }
}

proof fn lemma_encoding_stays_cut(
    tokens: Seq<Seq<char>>,
    map: Map<Seq<char>, Vec<i64>>,
    special: SpecialIds,
    i: int,
    n: int,
)
    requires
        0 <= i <= n,
        encode_first(tokens, map, special, i).truncated,
    ensures
        encode_first(tokens, map, special, n) == encode_first(tokens, map, special, i),
    decreases n,
{
    if i < n {
        lemma_encoding_stays_cut(tokens, map, special, i, n - 1);
    }
}

proof fn lemma_encoding_bounds(
    tokens: Seq<Seq<char>>,
    map: Map<Seq<char>, Vec<i64>>,
    special: SpecialIds,
    n: int,
)
    requires
        0 <= n,
    ensures
        2 <= encode_first(tokens, map, special, n).ids.len() < MAX_PHONEMES,
        encode_first(tokens, map, special, n).ids[0] == special.bos,
        encode_first(tokens, map, special, n).ids[1] == special.pad,
        encode_first(tokens, map, special, n).skipped <= n,
    decreases n,
{
    if n > 0 {
        lemma_encoding_bounds(tokens, map, special, n - 1);
    }
}

/// Encodes phonemes for a model: the beginning token and a pad, then each
/// phoneme that the voice knows followed by a pad, then the end token.
pub fn encode(tokens: &[String], map: &PhonemeIdMap, special: SpecialIds) -> (r: (
    Vec<i64>,
    EncodeReport,
))
    ensures
        ({
            let all = encode_first(texts(tokens@), map@, special, tokens@.len() as int);
            &&& r.0@ == all.ids.push(special.eos)
            &&& r.1.truncated == all.truncated
            &&& r.1.skipped == at_most(all.skipped, u32::MAX as nat)
        }),
{
    let mut report = EncodeReport { truncated: false, skipped: 0 };
    let mut ids: Vec<i64> = Vec::new();
    ids.push(special.bos);
    ids.push(special.pad);
    assert(ids@ =~= seq![special.bos, special.pad]);
    let n: usize = tokens.len();
    let ghost all = texts(tokens@);
    let mut i: usize = 0;
    while i < n && !report.truncated
        invariant
            i <= n,
            n == tokens@.len(),
            all == texts(tokens@),
            ids@ == encode_first(all, map@, special, i as int).ids,
            report.truncated == encode_first(all, map@, special, i as int).truncated,
            report.skipped == at_most(
                encode_first(all, map@, special, i as int).skipped,
                u32::MAX as nat,
            ),
        decreases n - i,
    {
        proof {
            lemma_encoding_bounds(all, map@, special, i as int);
        }
        match map.get(tokens[i].as_str()) {
            Some(list) if list.len() > 0 => {
                if list.len() >= MAX_PHONEMES - 1 - ids.len() {
                    report.truncated = true;
                } else {
                    let ghost before = ids@;
                    let mut j: usize = 0;
                    while j < list.len()
                        invariant
                            j <= list@.len(),
                            ids@ == before + list@.take(j as int),
                        decreases list@.len() - j,
                    {
                        ids.push(list[j]);
                        j += 1;
                        assert(ids@ =~= before + list@.take(j as int));
                    }
                    assert(list@.take(j as int) =~= list@);
                    ids.push(special.pad);
                }
            },
            _ => {
                if report.skipped < u32::MAX {
                    report.skipped += 1;
                }
            },
        }
        i += 1;
    }
    proof {
        if report.truncated {
            lemma_encoding_stays_cut(all, map@, special, i as int, n as int);
        }
    }
    ids.push(special.eos);
    (ids, report)
}

/// The encoding of the first `n` phonemes with no limit on its length.
pub open spec fn encode_whole(
    tokens: Seq<Seq<char>>,
    map: Map<Seq<char>, Vec<i64>>,
    special: SpecialIds,
    n: int,
) -> Seq<i64>
    decreases n,
{
    if n <= 0 {
        seq![special.bos, special.pad]
    } else {
        let before = encode_whole(tokens, map, special, n - 1);
        let token = tokens[n - 1];
        if is_known(map, token) {
            (before + map[token]@).push(special.pad)
        } else {
            before
        }
    }
}

proof fn lemma_cut_where_too_long(
    tokens: Seq<Seq<char>>,
    map: Map<Seq<char>, Vec<i64>>,
    special: SpecialIds,
    n: int,
)
    requires
        0 <= n,
    ensures
        ({
            let cut = encode_first(tokens, map, special, n);
            let whole = encode_whole(tokens, map, special, n);
            &&& cut.truncated <==> whole.len() + 1 > MAX_PHONEMES
            &&& !cut.truncated ==> cut.ids == whole
            &&& cut.ids.is_prefix_of(whole)
        }),
    decreases n,
{
    if n > 0 {
        lemma_cut_where_too_long(tokens, map, special, n - 1);
        let before = encode_whole(tokens, map, special, n - 1);
        let cut = encode_first(tokens, map, special, n);
        let whole = encode_whole(tokens, map, special, n);
        assert(before.is_prefix_of(whole));
        assert(cut.ids.is_prefix_of(whole));
    }
}

/// Phonemes are cut exactly where their whole encoding, with its end token, is
/// longer than the model takes; what is kept is then the beginning of it.
pub proof fn only_a_long_encoding_is_cut(
    tokens: Seq<Seq<char>>,
    map: Map<Seq<char>, Vec<i64>>,
    special: SpecialIds,
)
    ensures
        ({
            let cut = encode_first(tokens, map, special, tokens.len() as int);
            let whole = encode_whole(tokens, map, special, tokens.len() as int);
            &&& cut.truncated <==> whole.push(special.eos).len() > MAX_PHONEMES
            &&& !cut.truncated ==> cut.ids == whole
            &&& cut.ids.is_prefix_of(whole)
        }),
{
    lemma_cut_where_too_long(tokens, map, special, tokens.len() as int);
}

/// Whatever the phonemes, what is sent to the model begins with the beginning
/// token and a pad, ends with the end token and fits the model.
pub proof fn encoding_is_delimited(
    tokens: Seq<Seq<char>>,
    map: Map<Seq<char>, Vec<i64>>,
    special: SpecialIds,
)
    ensures
        ({
            let ids = encode_first(tokens, map, special, tokens.len() as int).ids.push(special.eos);
            &&& ids[0] == special.bos
            &&& ids[1] == special.pad
            &&& ids.last() == special.eos
            &&& ids.len() <= MAX_PHONEMES
        }),
{
    lemma_encoding_bounds(tokens, map, special, tokens.len() as int);
}

/// The delimiters are the first numbers of `^`, `_` and `$`, each in its place.
/// Without a `^` or without a `$` a voice is refused, and the one that is
/// missing is named; without a `_` the pad is nought.
pub proof fn the_delimiters_are_those_of_the_voice(map: Map<Seq<char>, Vec<i64>>)
    ensures
        special_ids_of(map) is Ok <==> is_known(map, "^"@) && is_known(map, "$"@),
        special_ids_of(map) matches Ok(special) ==> {
            &&& special.bos == map["^"@]@[0]
            &&& special.eos == map["$"@]@[0]
            &&& is_known(map, "_"@) ==> special.pad == map["_"@]@[0]
            &&& !is_known(map, "_"@) ==> special.pad == 0
        },
        !is_known(map, "^"@) ==> special_ids_of(map) == Err::<SpecialIds, TtsFault>(
            TtsFault::InvalidVoiceConfig("phoneme_id_map no contiene '^' (BOS)"@),
        ),
        is_known(map, "^"@) && !is_known(map, "$"@) ==> special_ids_of(map) == Err::<
            SpecialIds,
            TtsFault,
        >(TtsFault::InvalidVoiceConfig("phoneme_id_map no contiene '$' (EOS)"@)),
{
}

proof fn lemma_encodes_beginning(
    tokens: Seq<Seq<char>>,
    more: Seq<Seq<char>>,
    map: Map<Seq<char>, Vec<i64>>,
    special: SpecialIds,
    n: int,
)
    requires
        n <= tokens.len() <= more.len(),
        forall|i: int| 0 <= i < tokens.len() ==> tokens[i] == more[i],
    ensures
        encode_first(tokens, map, special, n) == encode_first(more, map, special, n),
        encode_whole(tokens, map, special, n) == encode_whole(more, map, special, n),
    decreases n,
{
    if n > 0 {
        lemma_encodes_beginning(tokens, more, map, special, n - 1);
    }
}

/// Without a limit each phoneme that the voice knows adds its numbers and a pad
/// to what stands before it, and one that it does not know adds nothing.
pub proof fn a_phoneme_adds_its_numbers(
    tokens: Seq<Seq<char>>,
    token: Seq<char>,
    map: Map<Seq<char>, Vec<i64>>,
    special: SpecialIds,
)
    ensures
        ({
            let n = tokens.len() as int;
            let before = encode_whole(tokens, map, special, n);
            let after = encode_whole(tokens.push(token), map, special, n + 1);
            &&& encode_whole(Seq::empty(), map, special, 0) == seq![special.bos, special.pad]
            &&& map.contains_key(token) && map[token]@.len() > 0 ==> after == before
                + map[token]@ + seq![special.pad]
            &&& !(map.contains_key(token) && map[token]@.len() > 0) ==> after == before
        }),
{
    let n = tokens.len() as int;
    lemma_encodes_beginning(tokens, tokens.push(token), map, special, n);
    let before = encode_whole(tokens, map, special, n);
    if is_known(map, token) {
        assert((before + map[token]@).push(special.pad) =~= before + map[token]@ + seq![
            special.pad,
        ]);
    }
}

/// What a model is sent has at most 256 numbers. Until that is reached a phoneme
/// that the voice does not know is counted and changes nothing else; from there
/// on nothing is added or counted.
pub proof fn unknown_phonemes_are_counted(
    tokens: Seq<Seq<char>>,
    token: Seq<char>,
    map: Map<Seq<char>, Vec<i64>>,
    special: SpecialIds,
)
    ensures
        ({
            let n = tokens.len() as int;
            let before = encode_first(tokens, map, special, n);
            let after = encode_first(tokens.push(token), map, special, n + 1);
            &&& before.ids.len() + 1 <= 256
            &&& before.truncated ==> after == before
            &&& !before.truncated && !(map.contains_key(token) && map[token]@.len() > 0)
                ==> after.ids == before.ids && after.skipped == before.skipped + 1
                && !after.truncated
            &&& !before.truncated && map.contains_key(token) && map[token]@.len() > 0
                ==> after.skipped == before.skipped && (after.truncated <==> before.ids.len()
                + map[token]@.len() + 2 > 256)
        }),
{
    let n = tokens.len() as int;
    lemma_encodes_beginning(tokens, tokens.push(token), map, special, n);
    lemma_encoding_bounds(tokens, map, special, n);
}

} // verus!

//! Grapheme-to-phoneme conversion for the languages that Piper reads.
use std::sync::Arc;

use piper_plus_g2p::phonemizer::Phonemizer;
use vstd::prelude::*;
use vstd::string::*;

use crate::text::{
    a_segment_ends_at_the_first_dash, ascii_lower, first_segment, option_text, segment_of, text_eq,
    texts, to_ascii_lower,
};
use crate::tts::engine::{TtsError, TtsFault};
use crate::tts::piper::spanish::spanish_readable;

verus! {

// ---------------------------------------------------------------------------
// The phonemizers of `piper-plus-g2p`
// ---------------------------------------------------------------------------

/// The rule-based phonemizer for Spanish.
#[verifier::external_type_specification]
#[verifier::external_body]
pub struct ExSpanishPhonemizer(piper_plus_g2p::spanish::SpanishPhonemizer);

/// The dictionary-based phonemizer for English.
#[verifier::external_type_specification]
#[verifier::external_body]
pub struct ExEnglishPhonemizer(piper_plus_g2p::english::EnglishPhonemizer);

/// The rule-based phonemizer for Portuguese.
#[verifier::external_type_specification]
#[verifier::external_body]
pub struct ExPortuguesePhonemizer(piper_plus_g2p::portuguese::PortuguesePhonemizer);

/// The rule-based phonemizer for French.
#[verifier::external_type_specification]
#[verifier::external_body]
pub struct ExFrenchPhonemizer(piper_plus_g2p::french::FrenchPhonemizer);

/// The error of a phonemizer.
#[verifier::external_type_specification]
#[verifier::external_body]
pub struct ExG2pError(piper_plus_g2p::G2pError);

/// `SpanishPhonemizer::new` builds the phonemizer, which holds no state.
pub assume_specification[ piper_plus_g2p::spanish::SpanishPhonemizer::new ]() -> piper_plus_g2p::spanish::SpanishPhonemizer
;

/// `PortuguesePhonemizer::new` builds the phonemizer, which holds no state.
pub assume_specification[ piper_plus_g2p::portuguese::PortuguesePhonemizer::new ]() -> piper_plus_g2p::portuguese::PortuguesePhonemizer
;

/// `FrenchPhonemizer::new` builds the phonemizer, which holds no state.
pub assume_specification[ piper_plus_g2p::french::FrenchPhonemizer::new ]() -> piper_plus_g2p::french::FrenchPhonemizer
;

/// The entries of the dictionary that a phonemizer reads with: the
/// pronunciation of each word.
pub uninterp spec fn entries_of(
    phonemizer: piper_plus_g2p::english::EnglishPhonemizer,
) -> Map<Seq<char>, Seq<char>>;

/// The members of a JSON object in the order in which its parser keeps them,
/// each with its text or with none where its value is no text; the words of the
/// parser where the bytes are no JSON object.
pub uninterp spec fn json_members(json: Seq<u8>) -> Result<
    Seq<(Seq<char>, Option<Seq<char>>)>,
    Seq<char>,
>;

/// The values of the members of a JSON object.
pub open spec fn members_view(members: Seq<(String, Option<String>)>) -> Seq<
    (Seq<char>, Option<Seq<char>>),
> {
    members.map_values(|member: (String, Option<String>)| (member.0@, option_text(member.1)))
}

/// `serde_json::from_slice` parses a JSON object, and its error displays why the
/// bytes are none.
#[verifier::external_body]
fn parse_members(json: &[u8]) -> (r: Result<Vec<(String, Option<String>)>, String>)
    ensures
        match json_members(json@) {
            Ok(members) => r matches Ok(found) && members_view(found@) == members,
            Err(reason) => r matches Err(e) && e@ == reason,
        },
{
    match serde_json::from_slice::<serde_json::Map<String, serde_json::Value>>(json) {
        Ok(members) => Ok(members.into_iter().map(|(word, value)| match value {
            serde_json::Value::String(text) => (word, Some(text)),
            _ => (word, None),
        }).collect()),
        Err(e) => Err(e.to_string()),
    }
}

/// The entries that a list of words with their pronunciations makes. A later
/// one of the same word takes the place of an earlier one.
pub open spec fn entry_map(entries: Seq<(String, String)>) -> Map<Seq<char>, Seq<char>>
    decreases entries.len(),
{
    if entries.len() == 0 {
        Map::empty()
    } else {
        entry_map(entries.drop_last()).insert(entries.last().0@, entries.last().1@)
    }
}

/// `EnglishPhonemizer::new_with_hashmap` keeps the entries of a map, into which
/// the list is turned.
#[verifier::external_body]
fn english_with(entries: Vec<(String, String)>) -> (r: piper_plus_g2p::english::EnglishPhonemizer)
    ensures
        entries_of(r) == entry_map(entries@),
{
    piper_plus_g2p::english::EnglishPhonemizer::new_with_hashmap(entries.into_iter().collect())
}

/// The phonemes of a Spanish text.
pub uninterp spec fn spanish_phonemes(text: Seq<char>) -> Seq<Seq<char>>;

/// The phonemes of a Portuguese text.
pub uninterp spec fn portuguese_phonemes(text: Seq<char>) -> Seq<Seq<char>>;

/// The phonemes of a French text.
pub uninterp spec fn french_phonemes(text: Seq<char>) -> Seq<Seq<char>>;

/// The phonemes of an English text, read with the entries of a dictionary.
pub uninterp spec fn dictionary_phonemes(
    entries: Map<Seq<char>, Seq<char>>,
    text: Seq<char>,
) -> Seq<Seq<char>>;

/// `SpanishPhonemizer::phonemize_with_prosody` converts a text by fixed rules
/// and never fails. It panics exactly where the mark of the stress would stand
/// behind the phonemes of its word, so such words are left out.
#[verifier::external_body]
fn spanish_tokens(phonemizer: &piper_plus_g2p::spanish::SpanishPhonemizer, text: &str) -> (r: Result<
    Vec<String>,
    piper_plus_g2p::G2pError,
>)
    requires
        spanish_readable(text@),
    ensures
        r is Ok,
        texts(r->Ok_0@) == spanish_phonemes(text@),
{
    phonemizer.phonemize_with_prosody(text).map(|found| found.0)
}

/// `PortuguesePhonemizer::phonemize_with_prosody` converts a text by fixed
/// rules and never fails.
#[verifier::external_body]
fn portuguese_tokens(
    phonemizer: &piper_plus_g2p::portuguese::PortuguesePhonemizer,
    text: &str,
) -> (r: Result<Vec<String>, piper_plus_g2p::G2pError>)
    ensures
        r is Ok,
        texts(r->Ok_0@) == portuguese_phonemes(text@),
{
    phonemizer.phonemize_with_prosody(text).map(|found| found.0)
}

/// `FrenchPhonemizer::phonemize_with_prosody` converts a text by fixed rules
/// and never fails.
#[verifier::external_body]
fn french_tokens(phonemizer: &piper_plus_g2p::french::FrenchPhonemizer, text: &str) -> (r: Result<
    Vec<String>,
    piper_plus_g2p::G2pError,
>)
    ensures
        r is Ok,
        texts(r->Ok_0@) == french_phonemes(text@),
{
    phonemizer.phonemize_with_prosody(text).map(|found| found.0)
}

/// `EnglishPhonemizer::phonemize_with_prosody` looks the words of a text up in
/// the entries of the dictionary, converts them by fixed rules and never fails.
#[verifier::external_body]
fn english_tokens(phonemizer: &piper_plus_g2p::english::EnglishPhonemizer, text: &str) -> (r: Result<
    Vec<String>,
    piper_plus_g2p::G2pError,
>)
    ensures
        r is Ok,
        texts(r->Ok_0@) == dictionary_phonemes(entries_of(*phonemizer), text@),
{
    phonemizer.phonemize_with_prosody(text).map(|found| found.0)
}

/// The text that `G2pError` displays; nothing is said of it.
#[verifier::external_body]
fn error_text(error: &piper_plus_g2p::G2pError) -> (r: String) {
    error.to_string()
}

// ---------------------------------------------------------------------------
// Languages
// ---------------------------------------------------------------------------

/// The languages that Piper reads.
#[derive(Debug, Clone, Copy, PartialEq, Eq, Hash, Structural)]
pub enum Language {
    Es,
    En,
    Pt,
    Fr,
}

/// The short BCP-47 code of a language.
pub open spec fn language_code(language: Language) -> Seq<char> {
    match language {
        Language::Es => "es"@,
        Language::En => "en"@,
        Language::Pt => "pt"@,
        Language::Fr => "fr"@,
    }
}

/// The language that a code such as `es`, `es-MX` or `en_us` names: its first
/// segment decides, in any case.
pub open spec fn language_of(code: Seq<char>) -> Option<Language> {
    let prefix = ascii_lower(first_segment(code));
    if prefix == "es"@ {
        Some(Language::Es)
    } else if prefix == "en"@ {
        Some(Language::En)
    } else if prefix == "pt"@ {
        Some(Language::Pt)
    } else if prefix == "fr"@ {
        Some(Language::Fr)
    } else {
        None
    }
}

impl Language {
    /// The short BCP-47 code.
    pub fn bcp47(self) -> (r: &'static str)
        ensures
            r@ == language_code(self),
    {
        match self {
            Language::Es => "es",
            Language::En => "en",
            Language::Pt => "pt",
            Language::Fr => "fr",
        }
    }

    /// The language that `code` names; `None` where Piper does not read it.
    pub fn from_code(code: &str) -> (r: Option<Self>)
        ensures
            r == language_of(code@),
    {
        let prefix = to_ascii_lower(segment_of(code).as_str());
        if text_eq(prefix.as_str(), "es") {
            Some(Language::Es)
        } else if text_eq(prefix.as_str(), "en") {
            Some(Language::En)
        } else if text_eq(prefix.as_str(), "pt") {
            Some(Language::Pt)
        } else if text_eq(prefix.as_str(), "fr") {
            Some(Language::Fr)
        } else {
            None
        }
    }
}

/// Every language is named by its own code.
pub proof fn codes_name_their_language(language: Language)
    ensures
        language_of(language_code(language)) == Some(language),
{
    reveal_strlit("es");
    reveal_strlit("en");
    reveal_strlit("pt");
    reveal_strlit("fr");
    let code = language_code(language);
    assert(code.len() == 2);
    crate::text::lemma_first_index(code, |c: char| c == '-' || c == '_', 2);
    assert(first_segment(code) =~= code);
    assert(ascii_lower(code) =~= code);
    assert("es"@[0] == 'e' && "es"@[1] == 's');
    assert("en"@[0] == 'e' && "en"@[1] == 'n');
    assert("pt"@[0] == 'p' && "fr"@[0] == 'f');
}

// ---------------------------------------------------------------------------
// The phonemizer of a language
// ---------------------------------------------------------------------------

/// The fault that English cannot be read.
pub open spec fn no_english_fault(reason: Seq<char>) -> TtsFault {
    TtsFault::Phonemization(
        "no se pudo inicializar EnglishPhonemizer (¿falta CMUDict?): "@ + reason,
    )
}

fn no_english(reason: &str) -> (r: TtsError)
    ensures
        r@ == no_english_fault(reason@),
{
    TtsError::Phonemization(
        "no se pudo inicializar EnglishPhonemizer (¿falta CMUDict?): ".to_owned().concat(reason),
    )
}

/// The members of a dictionary that are texts. The others are left out.
pub open spec fn text_members(members: Seq<(Seq<char>, Option<Seq<char>>)>) -> Map<
    Seq<char>,
    Seq<char>,
>
    decreases members.len(),
{
    if members.len() == 0 {
        Map::empty()
    } else {
        let before = text_members(members.drop_last());
        match members.last().1 {
            Some(text) => before.insert(members.last().0, text),
            None => before,
        }
    }
}

fn keep_texts(members: Vec<(String, Option<String>)>) -> (r: Vec<(String, String)>)
    ensures
        entry_map(r@) == text_members(members_view(members@)),
{
    let mut out: Vec<(String, String)> = Vec::new();
    let mut i: usize = 0;
    assert(members_view(members@.take(0)) =~= Seq::empty());
    while i < members.len()
        invariant
            i <= members@.len(),
            entry_map(out@) == text_members(members_view(members@.take(i as int))),
        decreases members@.len() - i,
    {
        let ghost before = out@;
        let (word, text): &(String, Option<String>) = &members[i];
        if let Some(text) = text {
            out.push((word.clone(), text.clone()));
            assert(out@.drop_last() =~= before);
        }
        proof {
            let longer = members_view(members@.take(i + 1));
            assert(longer.drop_last() =~= members_view(members@.take(i as int)));
            assert(longer.last() == (word@, option_text(members@[i as int].1)));
        }
        i += 1;
    }
    assert(members@.take(i as int) =~= members@);
    out
}

/// The entries of a dictionary, given what reading its file gave, or why there
/// are none.
pub open spec fn english_entries(dictionary: Result<Vec<u8>, String>) -> Result<
    Map<Seq<char>, Seq<char>>,
    Seq<char>,
> {
    match dictionary {
        Err(reason) => Err(reason@),
        Ok(json) => match json_members(json@) {
            Ok(members) => Ok(text_members(members)),
            Err(reason) => Err("dictionary load error: "@ + reason),
        },
    }
}

/// The phonemizer of one language.
pub enum G2p {
    Spanish(Arc<piper_plus_g2p::spanish::SpanishPhonemizer>),
    English(Arc<piper_plus_g2p::english::EnglishPhonemizer>),
    Portuguese(Arc<piper_plus_g2p::portuguese::PortuguesePhonemizer>),
    French(Arc<piper_plus_g2p::french::FrenchPhonemizer>),
}

impl G2p {
    /// The language of the phonemizer.
    pub open spec fn speaks(self) -> Language {
        match self {
            G2p::Spanish(_) => Language::Es,
            G2p::English(_) => Language::En,
            G2p::Portuguese(_) => Language::Pt,
            G2p::French(_) => Language::Fr,
        }
    }

    /// The phonemizer of `language`. Only English can fail: it needs a
    /// dictionary, given as what reading its file gave.
    pub fn new(language: Language, dictionary: &Result<Vec<u8>, String>) -> (r: Result<
        Self,
        TtsError,
    >)
        ensures
            language != Language::En ==> (r matches Ok(g2p) && g2p.speaks() == language),
            language == Language::En ==> match english_entries(*dictionary) {
                Ok(entries) => r matches Ok(G2p::English(phonemizer)) && entries_of(*phonemizer)
                    == entries,
                Err(reason) => r matches Err(e) && e@ == no_english_fault(reason),
            },
    {
        match language {
            Language::Es => Ok(
                G2p::Spanish(Arc::new(piper_plus_g2p::spanish::SpanishPhonemizer::new())),
            ),
            Language::Pt => Ok(
                G2p::Portuguese(Arc::new(piper_plus_g2p::portuguese::PortuguesePhonemizer::new())),
            ),
            Language::Fr => Ok(
                G2p::French(Arc::new(piper_plus_g2p::french::FrenchPhonemizer::new())),
            ),
            Language::En => match dictionary {
                Ok(json) => match parse_members(json.as_slice()) {
                    Ok(members) => Ok(G2p::English(Arc::new(english_with(keep_texts(members))))),
                    Err(reason) => Err(
                        no_english(
                            "dictionary load error: ".to_owned().concat(reason.as_str()).as_str(),
                        ),
                    ),
                },
                Err(reason) => Err(no_english(reason.as_str())),
            },
        }
    }

    /// Whether the phonemizer can read a text.
    pub open spec fn can_read(self, text: Seq<char>) -> bool {
        self is Spanish ==> spanish_readable(text)
    }

    /// The phonemes of `text`.
    pub fn phonemize(&self, text: &str) -> (r: Result<Vec<String>, TtsError>)
        requires
            self.can_read(text@),
        ensures
            r matches Ok(tokens) && match self {
                G2p::Spanish(_) => texts(tokens@) == spanish_phonemes(text@),
                G2p::Portuguese(_) => texts(tokens@) == portuguese_phonemes(text@),
                G2p::French(_) => texts(tokens@) == french_phonemes(text@),
                G2p::English(p) => texts(tokens@) == dictionary_phonemes(entries_of(**p), text@),
            },
    {
        let result = match self {
            G2p::Spanish(p) => spanish_tokens(p, text),
            G2p::English(p) => english_tokens(p, text),
            G2p::Portuguese(p) => portuguese_tokens(p, text),
            G2p::French(p) => french_tokens(p, text),
        };
        match result {
            Ok(tokens) => Ok(tokens),
            Err(e) => Err(TtsError::Phonemization(error_text(&e))),
        }
    }

    /// The language of the phonemizer.
    pub fn language(&self) -> (r: Language)
        ensures
            r == self.speaks(),
    {
        match self {
            G2p::Spanish(_) => Language::Es,
            G2p::English(_) => Language::En,
            G2p::Portuguese(_) => Language::Pt,
            G2p::French(_) => Language::Fr,
        }
    }
}

// ---------------------------------------------------------------------------
// Keeping a phonemizer
// ---------------------------------------------------------------------------

/// `Arc::clone` returns another handle to the same value.
#[verifier::external_body]
fn share(handle: &Arc<G2p>) -> (r: Arc<G2p>)
    ensures
        r == *handle,
{
    Arc::clone(handle)
}

/// Why there is no dictionary before one was looked for.
pub open spec fn no_dictionary() -> Seq<char> {
    "dictionary load error: cmudict_data.json not found. Set CMUDICT_PATH env var or place dictionary at ./cmudict_data.json"@
}

/// Keeps the phonemizer of the language that was last asked for, since the
/// English one is slow to build.
pub struct PhonemizerCache {
    pub inner: Option<(Language, Arc<G2p>)>,
    /// What reading the English dictionary gave.
    pub dictionary: Result<Vec<u8>, String>,
}

impl Default for PhonemizerCache {
    fn default() -> (r: Self)
        ensures
            r.inner is None,
            r.dictionary matches Err(reason) && reason@ == no_dictionary(),
            r.wf(),
    {
        PhonemizerCache::new()
    }
}

impl PhonemizerCache {
    /// Keeps nothing, and has no dictionary.
    pub fn new() -> (r: Self)
        ensures
            r.inner is None,
            r.dictionary matches Err(reason) && reason@ == no_dictionary(),
            r.wf(),
    {
        PhonemizerCache {
            inner: None,
            dictionary: Err(
                "dictionary load error: cmudict_data.json not found. Set CMUDICT_PATH env var or place dictionary at ./cmudict_data.json".to_owned(),
            ),
        }
    }

    /// What is kept is filed under its own language.
    pub open spec fn wf(self) -> bool {
        self.inner matches Some(kept) ==> kept.1.speaks() == kept.0
    }

    /// Whether the phonemizer of `language` is kept.
    pub open spec fn keeps(self, language: Language) -> bool {
        self.inner matches Some(kept) && kept.0 == language
    }

    /// The entries that English is read with: those of the phonemizer that is
    /// kept, or else those of the dictionary.
    pub open spec fn entries(self) -> Result<Map<Seq<char>, Seq<char>>, Seq<char>> {
        match self.inner {
            Some((_, g2p)) => match *g2p {
                G2p::English(phonemizer) => Ok(entries_of(*phonemizer)),
                _ => english_entries(self.dictionary),
            },
            None => english_entries(self.dictionary),
        }
    }

    /// Whether the phonemizer of `language` is kept.
    pub fn has(&self, language: Language) -> (r: bool)
        ensures
            r == self.keeps(language),
    {
        match &self.inner {
            Some((kept, _)) => *kept == language,
            None => false,
        }
    }

    /// Takes what reading the English dictionary gave. A phonemizer that is
    /// kept stays as it is.
    pub fn set_dictionary(&mut self, dictionary: Result<Vec<u8>, String>)
        ensures
            final(self).dictionary == dictionary,
            final(self).inner == old(self).inner,
    {
        self.dictionary = dictionary;
    }

    /// The phonemizer of `language`: the one that is kept, or a new one that
    /// takes its place. Where none can be built, what is kept stays.
    pub fn get_or_init(&mut self, language: Language) -> (r: Result<Arc<G2p>, TtsError>)
        requires
            old(self).wf(),
        ensures
            final(self).wf(),
            final(self).dictionary == old(self).dictionary,
            language != Language::En ==> r is Ok,
            language == Language::En ==> (r is Ok <==> old(self).entries() is Ok),
            match r {
                Ok(g2p) => {
                    &&& final(self).inner == Some((language, g2p))
                    &&& g2p.speaks() == language
                    &&& *g2p matches G2p::English(phonemizer) ==> old(self).entries() == Ok::<
                        _,
                        Seq<char>,
                    >(entries_of(*phonemizer))
                },
                Err(e) => {
                    &&& old(self).entries() matches Err(reason) && e@ == no_english_fault(reason)
                    &&& *final(self) == *old(self)
                },
            },
            old(self).keeps(language) ==> r is Ok && *final(self) == *old(self),
    {
        if let Some((kept, g2p)) = &self.inner {
            if *kept == language {
                return Ok(share(g2p));
            }
        }
        match G2p::new(language, &self.dictionary) {
            Ok(g2p) => {
                let handle = Arc::new(g2p);
                self.inner = Some((language, share(&handle)));
                Ok(handle)
            },
            Err(e) => Err(e),
        }
    }

    /// Whether `r` comes of converting `text` in `language`.
    pub open spec fn gives(
        self,
        r: Result<Vec<String>, TtsError>,
        language: Language,
        text: Seq<char>,
    ) -> bool {
        match language {
            Language::Es => r matches Ok(tokens) && texts(tokens@) == spanish_phonemes(text),
            Language::Pt => r matches Ok(tokens) && texts(tokens@) == portuguese_phonemes(text),
            Language::Fr => r matches Ok(tokens) && texts(tokens@) == french_phonemes(text),
            Language::En => match self.entries() {
                Ok(entries) => r matches Ok(tokens) && texts(tokens@) == dictionary_phonemes(
                    entries,
                    text,
                ),
                Err(reason) => r matches Err(e) && e@ == no_english_fault(reason),
            },
        }
    }
}

/// The phonemes of `text` in `language`.
pub fn phonemize_with_cache(cache: &mut PhonemizerCache, language: Language, text: &str) -> (r: Result<
    Vec<String>,
    TtsError,
>)
    requires
        old(cache).wf(),
        language == Language::Es ==> spanish_readable(text@),
    ensures
        final(cache).wf(),
        final(cache).dictionary == old(cache).dictionary,
        old(cache).gives(r, language, text@),
        old(cache).keeps(language) ==> r is Ok && *final(cache) == *old(cache),
        r is Ok ==> final(cache).keeps(language),
        r is Err ==> *final(cache) == *old(cache),
{
    match cache.get_or_init(language) {
        Ok(g2p) => g2p.phonemize(text),
        Err(e) => Err(e),
    }
}

/// A text that was read once in a language is read again in the same way, for
/// as long as the phonemizer is kept.
pub proof fn a_kept_phonemizer_reads_alike(
    before: PhonemizerCache,
    after: PhonemizerCache,
    r: Result<Vec<String>, TtsError>,
    language: Language,
    text: Seq<char>,
)
    requires
        before.wf(),
        before.keeps(language),
        after.inner == before.inner,
    ensures
        before.gives(r, language, text) <==> after.gives(r, language, text),
        before.gives(r, language, text) ==> r is Ok,
{
}

/// A code of two letters names a language by them, in any case, and so does a
/// longer one with a dash or an underscore behind them.
pub proof fn two_letters_name_a_language(code: Seq<char>)
    requires
        code.len() >= 2,
        code[0] != '-' && code[0] != '_' && code[1] != '-' && code[1] != '_',
        code.len() == 2 || code[2] == '-' || code[2] == '_',
    ensures
        ({
            let a = code[0];
            let b = code[1];
            &&& language_of(code) == Some(Language::Es) <==> (a == 'e' || a == 'E') && (b == 's'
                || b == 'S')
            &&& language_of(code) == Some(Language::En) <==> (a == 'e' || a == 'E') && (b == 'n'
                || b == 'N')
            &&& language_of(code) == Some(Language::Pt) <==> (a == 'p' || a == 'P') && (b == 't'
                || b == 'T')
            &&& language_of(code) == Some(Language::Fr) <==> (a == 'f' || a == 'F') && (b == 'r'
                || b == 'R')
        }),
{
    reveal_strlit("es");
    reveal_strlit("en");
    reveal_strlit("pt");
    reveal_strlit("fr");
    let head = seq![code[0], code[1]];
    if code.len() > 2 {
        a_segment_ends_at_the_first_dash(head, code[2], code.skip(3));
        assert(code =~= head.push(code[2]) + code.skip(3));
    } else {
        a_segment_ends_at_the_first_dash(head, '-', Seq::empty());
        assert(code =~= head);
    }
    let low = ascii_lower(head);
    assert(low.len() == 2);
    assert(low[0] == 'e' <==> code[0] == 'e' || code[0] == 'E');
    assert(low[0] == 'p' <==> code[0] == 'p' || code[0] == 'P');
    assert(low[0] == 'f' <==> code[0] == 'f' || code[0] == 'F');
    assert(low[1] == 's' <==> code[1] == 's' || code[1] == 'S');
    assert(low[1] == 'n' <==> code[1] == 'n' || code[1] == 'N');
    assert(low[1] == 't' <==> code[1] == 't' || code[1] == 'T');
    assert(low[1] == 'r' <==> code[1] == 'r' || code[1] == 'R');
    assert(low =~= "es"@ <==> low[0] == 'e' && low[1] == 's');
    assert(low =~= "en"@ <==> low[0] == 'e' && low[1] == 'n');
    assert(low =~= "pt"@ <==> low[0] == 'p' && low[1] == 't');
    assert(low =~= "fr"@ <==> low[0] == 'f' && low[1] == 'r');
}

/// A word of a dictionary has the last text that is given for it. Members that
/// are no texts do not count.
pub proof fn the_last_text_of_a_word_counts(members: Seq<(Seq<char>, Option<Seq<char>>)>, i: int)
    requires
        0 <= i < members.len(),
        members[i].1 is Some,
        forall|j: int|
            i < j < members.len() && (#[trigger] members[j]).0 == members[i].0 ==> members[j].1
                is None,
    ensures
        text_members(members).contains_key(members[i].0),
        Some(text_members(members)[members[i].0]) == members[i].1,
    decreases members.len(),
{
    let rest = members.drop_last();
    if i < rest.len() {
        assert(rest[i] == members[i]);
        assert forall|j: int|
            i < j < rest.len() && (#[trigger] rest[j]).0 == rest[i].0 implies rest[j].1 is None by {
            assert(rest[j] == members[j]);
        }
        the_last_text_of_a_word_counts(rest, i);
        assert(members.last() == members[members.len() - 1]);
    }
}

/// A word without any text is not in the dictionary.
pub proof fn a_word_without_text_is_left_out(
    members: Seq<(Seq<char>, Option<Seq<char>>)>,
    word: Seq<char>,
)
    requires
        forall|j: int|
            0 <= j < members.len() && (#[trigger] members[j]).0 == word ==> members[j].1 is None,
    ensures
        !text_members(members).contains_key(word),
    decreases members.len(),
{
    if members.len() > 0 {
        let rest = members.drop_last();
        assert forall|j: int|
            0 <= j < rest.len() && (#[trigger] rest[j]).0 == word implies rest[j].1 is None by {
            assert(rest[j] == members[j]);
        }
        a_word_without_text_is_left_out(rest, word);
        assert(members.last() == members[members.len() - 1]);
    }
}

/// Only English needs a dictionary, and without one it is refused with the
/// reason.
pub proof fn english_needs_its_dictionary(
    cache: PhonemizerCache,
    r: Result<Vec<String>, TtsError>,
    language: Language,
    text: Seq<char>,
    reason: String,
)
    requires
        cache.inner is None,
        cache.dictionary == Err::<Vec<u8>, String>(reason),
        cache.gives(r, language, text),
    ensures
        r is Err <==> language == Language::En,
        r matches Err(e) ==> e@ == TtsFault::Phonemization(
            "no se pudo inicializar EnglishPhonemizer (¿falta CMUDict?): "@ + reason@,
        ),
{
}

/// A dictionary that cannot be read keeps the reason, and one that is no JSON is
/// told as a dictionary that cannot be loaded. One that is has its texts.
pub proof fn a_bad_dictionary_is_told(dictionary: Result<Vec<u8>, String>)
    ensures
        match dictionary {
            Err(reason) => english_entries(dictionary) == Err::<Map<Seq<char>, Seq<char>>, Seq<char>>(
                reason@,
            ),
            Ok(json) => match json_members(json@) {
                Err(reason) => english_entries(dictionary) == Err::<
                    Map<Seq<char>, Seq<char>>,
                    Seq<char>,
                >("dictionary load error: "@ + reason),
                Ok(members) => english_entries(dictionary) == Ok::<
                    Map<Seq<char>, Seq<char>>,
                    Seq<char>,
                >(text_members(members)),
            },
        },
        no_dictionary()
            == "dictionary load error: cmudict_data.json not found. Set CMUDICT_PATH env var or place dictionary at ./cmudict_data.json"@,
{
}

} // verus!

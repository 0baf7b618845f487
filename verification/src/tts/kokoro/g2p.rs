//! From text to the numbers that the Kokoro model reads.
use std::sync::Arc;

use vstd::prelude::*;
use vstd::string::*;

use crate::text::{
    a_trimmed_text_stays, ascii_lower, chars_of, first_segment, lemma_first_index, segment_of,
    text_eq, texts, to_ascii_lower, trim_text, trimmed,
};
use crate::tts::engine::{TtsError, TtsFault};
use crate::tts::piper::g2p::{spanish_phonemes, G2p};
use crate::tts::piper::spanish::{can_read_spanish, spanish_readable};

verus! {

// ---------------------------------------------------------------------------
// Vocabulary
// ---------------------------------------------------------------------------

/// The number of a phoneme; `None` where the model does not know it. The pad,
/// zero, is no phoneme.
pub open spec fn vocab_id(c: char) -> Option<i64> {
    match c {
        ';' => Some(1i64),
        ':' => Some(2i64),
        ',' => Some(3i64),
        '.' => Some(4i64),
        '!' => Some(5i64),
        '?' => Some(6i64),
        '—' => Some(9i64),
        '…' => Some(10i64),
        '"' => Some(11i64),
        '(' => Some(12i64),
        ')' => Some(13i64),
        '“' => Some(14i64),
        '”' => Some(15i64),
        ' ' => Some(16i64),
        '\u{0303}' => Some(17i64),
        'ʣ' => Some(18i64),
        'ʥ' => Some(19i64),
        'ʦ' => Some(20i64),
        'ʨ' => Some(21i64),
        'ᵝ' => Some(22i64),
        '\u{AB67}' => Some(23i64),
        'A' => Some(24i64),
        'I' => Some(25i64),
        'O' => Some(31i64),
        'Q' => Some(33i64),
        'S' => Some(35i64),
        'T' => Some(36i64),
        'W' => Some(39i64),
        'Y' => Some(41i64),
        'ᵊ' => Some(42i64),
        'a' => Some(43i64),
        'b' => Some(44i64),
        'c' => Some(45i64),
        'd' => Some(46i64),
        'e' => Some(47i64),
        'f' => Some(48i64),
        'h' => Some(50i64),
        'i' => Some(51i64),
        'j' => Some(52i64),
        'k' => Some(53i64),
        'l' => Some(54i64),
        'm' => Some(55i64),
        'n' => Some(56i64),
        'o' => Some(57i64),
        'p' => Some(58i64),
        'q' => Some(59i64),
        'r' => Some(60i64),
        's' => Some(61i64),
        't' => Some(62i64),
        'u' => Some(63i64),
        'v' => Some(64i64),
        'w' => Some(65i64),
        'x' => Some(66i64),
        'y' => Some(67i64),
        'z' => Some(68i64),
        'ɑ' => Some(69i64),
        'ɐ' => Some(70i64),
        'ɒ' => Some(71i64),
        'æ' => Some(72i64),
        'β' => Some(75i64),
        'ɔ' => Some(76i64),
        'ɕ' => Some(77i64),
        'ç' => Some(78i64),
        'ɖ' => Some(80i64),
        'ð' => Some(81i64),
        'ʤ' => Some(82i64),
        'ə' => Some(83i64),
        'ɚ' => Some(85i64),
        'ɛ' => Some(86i64),
        'ɜ' => Some(87i64),
        'ɟ' => Some(90i64),
        'ɡ' => Some(92i64),
        'ɥ' => Some(99i64),
        'ɨ' => Some(101i64),
        'ɪ' => Some(102i64),
        'ʝ' => Some(103i64),
        'ɯ' => Some(110i64),
        'ɰ' => Some(111i64),
        'ŋ' => Some(112i64),
        'ɳ' => Some(113i64),
        'ɲ' => Some(114i64),
        'ɴ' => Some(115i64),
        'ø' => Some(116i64),
        'ɸ' => Some(118i64),
        'θ' => Some(119i64),
        'œ' => Some(120i64),
        'ɹ' => Some(123i64),
        'ɾ' => Some(125i64),
        'ɻ' => Some(126i64),
        'ʁ' => Some(128i64),
        'ɽ' => Some(129i64),
        'ʂ' => Some(130i64),
        'ʃ' => Some(131i64),
        'ʈ' => Some(132i64),
        'ʧ' => Some(133i64),
        'ʊ' => Some(135i64),
        'ʋ' => Some(136i64),
        'ʌ' => Some(138i64),
        'ɣ' => Some(139i64),
        'ɤ' => Some(140i64),
        'χ' => Some(142i64),
        'ʎ' => Some(143i64),
        'ʒ' => Some(147i64),
        'ʔ' => Some(148i64),
        'ˈ' => Some(156i64),
        'ˌ' => Some(157i64),
        'ː' => Some(158i64),
        'ʰ' => Some(162i64),
        'ʲ' => Some(164i64),
        '↓' => Some(169i64),
        '→' => Some(171i64),
        '↗' => Some(172i64),
        '↘' => Some(173i64),
        'ᵻ' => Some(177i64),
        _ => None,
    }
}

/// The number of a phoneme; `None` where the model does not know it.
pub fn lookup_phoneme(c: char) -> (r: Option<i64>)
    ensures
        r == vocab_id(c),
{
    match c {
        ';' => Some(1),
        ':' => Some(2),
        ',' => Some(3),
        '.' => Some(4),
        '!' => Some(5),
        '?' => Some(6),
        '—' => Some(9),
        '…' => Some(10),
        '"' => Some(11),
        '(' => Some(12),
        ')' => Some(13),
        '“' => Some(14),
        '”' => Some(15),
        ' ' => Some(16),
        '\u{0303}' => Some(17),
        'ʣ' => Some(18),
        'ʥ' => Some(19),
        'ʦ' => Some(20),
        'ʨ' => Some(21),
        'ᵝ' => Some(22),
        '\u{AB67}' => Some(23),
        'A' => Some(24),
        'I' => Some(25),
        'O' => Some(31),
        'Q' => Some(33),
        'S' => Some(35),
        'T' => Some(36),
        'W' => Some(39),
        'Y' => Some(41),
        'ᵊ' => Some(42),
        'a' => Some(43),
        'b' => Some(44),
        'c' => Some(45),
        'd' => Some(46),
        'e' => Some(47),
        'f' => Some(48),
        'h' => Some(50),
        'i' => Some(51),
        'j' => Some(52),
        'k' => Some(53),
        'l' => Some(54),
        'm' => Some(55),
        'n' => Some(56),
        'o' => Some(57),
        'p' => Some(58),
        'q' => Some(59),
        'r' => Some(60),
        's' => Some(61),
        't' => Some(62),
        'u' => Some(63),
        'v' => Some(64),
        'w' => Some(65),
        'x' => Some(66),
        'y' => Some(67),
        'z' => Some(68),
        'ɑ' => Some(69),
        'ɐ' => Some(70),
        'ɒ' => Some(71),
        'æ' => Some(72),
        'β' => Some(75),
        'ɔ' => Some(76),
        'ɕ' => Some(77),
        'ç' => Some(78),
        'ɖ' => Some(80),
        'ð' => Some(81),
        'ʤ' => Some(82),
        'ə' => Some(83),
        'ɚ' => Some(85),
        'ɛ' => Some(86),
        'ɜ' => Some(87),
        'ɟ' => Some(90),
        'ɡ' => Some(92),
        'ɥ' => Some(99),
        'ɨ' => Some(101),
        'ɪ' => Some(102),
        'ʝ' => Some(103),
        'ɯ' => Some(110),
        'ɰ' => Some(111),
        'ŋ' => Some(112),
        'ɳ' => Some(113),
        'ɲ' => Some(114),
        'ɴ' => Some(115),
        'ø' => Some(116),
        'ɸ' => Some(118),
        'θ' => Some(119),
        'œ' => Some(120),
        'ɹ' => Some(123),
        'ɾ' => Some(125),
        'ɻ' => Some(126),
        'ʁ' => Some(128),
        'ɽ' => Some(129),
        'ʂ' => Some(130),
        'ʃ' => Some(131),
        'ʈ' => Some(132),
        'ʧ' => Some(133),
        'ʊ' => Some(135),
        'ʋ' => Some(136),
        'ʌ' => Some(138),
        'ɣ' => Some(139),
        'ɤ' => Some(140),
        'χ' => Some(142),
        'ʎ' => Some(143),
        'ʒ' => Some(147),
        'ʔ' => Some(148),
        'ˈ' => Some(156),
        'ˌ' => Some(157),
        'ː' => Some(158),
        'ʰ' => Some(162),
        'ʲ' => Some(164),
        '↓' => Some(169),
        '→' => Some(171),
        '↗' => Some(172),
        '↘' => Some(173),
        'ᵻ' => Some(177),
        _ => None,
    }
}

/// The vocabulary of the model.
#[derive(Debug, Clone, Copy)]
pub struct Vocabulary;

/// The vocabulary of the model.
pub fn vocab_map() -> (r: Vocabulary)
    ensures
        r == Vocabulary,
{
    Vocabulary
}

impl Vocabulary {
    /// The number of a phoneme, which is a single character.
    pub fn get(&self, phoneme: &str) -> (r: Option<i64>)
        ensures
            r == if phoneme@.len() == 1 {
                vocab_id(phoneme@[0])
            } else {
                None
            },
    {
        let v = chars_of(phoneme);
        if v.len() == 1 {
            lookup_phoneme(v[0])
        } else {
            None
        }
    }

    /// Whether the model knows the phoneme.
    pub fn contains_key(&self, phoneme: &str) -> (r: bool)
        ensures
            r == (phoneme@.len() == 1 && vocab_id(phoneme@[0]) is Some),
    {
        self.get(phoneme).is_some()
    }
}

/// No phoneme has the number of the pad, and all numbers fit the model.
pub proof fn vocabulary_leaves_out_the_pad(c: char)
    ensures
        vocab_id(c) matches Some(id) ==> 1 <= id <= 177,
{
}

/// Whether a number stands for a phoneme.
pub open spec fn is_vocab_id(id: i64) -> bool {
    exists|c: char| #[trigger] vocab_id(c) == Some(id)
}

/// The numbers of the characters that the model knows, in order.
pub open spec fn vocab_ids(s: Seq<char>) -> Seq<i64>
    decreases s.len(),
{
    if s.len() == 0 {
        Seq::empty()
    } else {
        match vocab_id(s.last()) {
            Some(id) => vocab_ids(s.drop_last()).push(id),
            None => vocab_ids(s.drop_last()),
        }
    }
}

proof fn lemma_vocab_ids_are_known(s: Seq<char>)
    ensures
        forall|i: int| 0 <= i < vocab_ids(s).len() ==> is_vocab_id(#[trigger] vocab_ids(s)[i]),
    decreases s.len(),
{
    if s.len() > 0 {
        let rest = vocab_ids(s.drop_last());
        lemma_vocab_ids_are_known(s.drop_last());
        assert forall|i: int| 0 <= i < vocab_ids(s).len() implies is_vocab_id(
            #[trigger] vocab_ids(s)[i],
        ) by {
            if i < rest.len() {
                assert(is_vocab_id(rest[i]));
                assert(vocab_ids(s)[i] == rest[i]);
            } else {
                assert(vocab_id(s.last()) == Some(vocab_ids(s)[i]));
            }
        }
    }
}

proof fn lemma_vocab_ids_concat(a: Seq<char>, b: Seq<char>)
    ensures
        vocab_ids(a + b) == vocab_ids(a) + vocab_ids(b),
    decreases b.len(),
{
    if b.len() == 0 {
        assert(a + b =~= a);
    } else {
        assert((a + b).drop_last() =~= a + b.drop_last());
        lemma_vocab_ids_concat(a, b.drop_last());
        assert(vocab_ids(a + b) =~= vocab_ids(a) + vocab_ids(b));
    }
}

/// Appends the numbers of the characters of `text` that the model knows.
fn push_vocab_ids(ids: &mut Vec<i64>, text: &Vec<char>)
    ensures
        final(ids)@ == old(ids)@ + vocab_ids(text@),
{
    let ghost start = ids@;
    let mut i: usize = 0;
    assert(text@.take(0) =~= Seq::empty());
    assert(start + vocab_ids(text@.take(0)) =~= start);
    while i < text.len()
        invariant
            i <= text@.len(),
            ids@ == start + vocab_ids(text@.take(i as int)),
        decreases text@.len() - i,
    {
        assert(text@.take(i + 1).drop_last() =~= text@.take(i as int));
        if let Some(id) = lookup_phoneme(text[i]) {
            ids.push(id);
        }
        assert(ids@ =~= start + vocab_ids(text@.take(i + 1)));
        i += 1;
    }
    assert(text@.take(i as int) =~= text@);
}

// ---------------------------------------------------------------------------
// The language of a voice
// ---------------------------------------------------------------------------

/// The languages that the model reads.
#[derive(Debug, Clone, Copy, PartialEq, Eq, Structural)]
pub enum KokoroLang {
    En,
    Es,
}

/// The language of a voice: the first segment of its identifier decides, in
/// any case. `ef` and `em` are Spanish voices of Kokoro, `es` those of Piper.
pub open spec fn voice_language(voice_id: Seq<char>) -> KokoroLang {
    let first = first_segment(ascii_lower(voice_id));
    if first == "ef"@ || first == "em"@ || first == "es"@ {
        KokoroLang::Es
    } else {
        KokoroLang::En
    }
}

impl KokoroLang {
    /// The language of a voice. The voice decides and not the text, since
    /// Spanish without accents looks like English.
    pub fn from_voice(voice_id: &str) -> (r: Self)
        ensures
            r == voice_language(voice_id@),
    {
        let lower = to_ascii_lower(voice_id);
        let first = segment_of(lower.as_str());
        if text_eq(first.as_str(), "ef") || text_eq(first.as_str(), "em") || text_eq(
            first.as_str(),
            "es",
        ) {
            KokoroLang::Es
        } else {
            KokoroLang::En
        }
    }
}

// ---------------------------------------------------------------------------
// English
// ---------------------------------------------------------------------------

/// The English grapheme-to-phoneme converter of `misaki-rs`.
#[verifier::external_type_specification]
#[verifier::external_body]
pub struct ExMisakiG2p(misaki_rs::G2P);

/// The error of the converter.
#[verifier::external_type_specification]
#[verifier::external_body]
pub struct ExMisakiError(misaki_rs::g2p::G2PError);

/// Whether a character outside ASCII may be a letter: it is neither a Latin-1
/// symbol nor a combining mark nor general punctuation.
pub open spec fn may_be_foreign_letter(c: char) -> bool {
    let n = c as u32;
    &&& n >= 0x80
    &&& !(n <= 0xBF && n != 0xAA && n != 0xB5 && n != 0xBA)
    &&& n != 0xD7
    &&& n != 0xF7
    &&& !(0x300 <= n <= 0x36F)
    &&& !(0x2000 <= n <= 0x206F)
}

/// Whether a character is a letter of ASCII.
pub open spec fn is_ascii_letter(c: char) -> bool {
    'a' <= c <= 'z' || 'A' <= c <= 'Z'
}

/// Whether a character is a letter of the Latin script.
pub open spec fn is_latin_letter(c: char) -> bool {
    is_ascii_letter(c) || (may_be_foreign_letter(c) && c as u32 <= 0x24F)
}

/// Whether a character may be a letter.
pub open spec fn may_be_letter(c: char) -> bool {
    is_ascii_letter(c) || may_be_foreign_letter(c)
}

/// Whether `ing` stands at position `i`, in any case.
pub open spec fn ing_at(s: Seq<char>, i: int) -> bool {
    &&& i + 3 <= s.len()
    &&& (s[i] == 'i' || s[i] == 'I')
    &&& (s[i + 1] == 'n' || s[i + 1] == 'N')
    &&& (s[i + 2] == 'g' || s[i + 2] == 'G')
}

/// Whether a word goes on at position `i`, with a letter or with an apostrophe
/// and a letter.
pub open spec fn goes_on(s: Seq<char>, i: int) -> bool {
    i < s.len() && (is_latin_letter(s[i]) || (s[i] == '\'' && i + 1 < s.len() && is_latin_letter(
        s[i + 1],
    )))
}

/// Whether a word may have begun before position `i`, with a letter or with a
/// letter and an apostrophe.
pub open spec fn may_have_begun(s: Seq<char>, i: int) -> bool {
    i > 0 && (may_be_letter(s[i - 1]) || (s[i - 1] == '\'' && i > 1 && may_be_letter(s[i - 2])))
}

/// Whether a letter takes two bytes in lower case: most of those that take two
/// themselves do, and a few longer capitals.
pub open spec fn is_two_bytes(c: char) -> bool {
    ||| (c as u32 <= 0x7FF && c != '\u{130}' && c != '\u{23A}' && c != '\u{23E}')
    ||| c == '\u{1E9E}' || c == '\u{2126}' || c == '\u{212B}'
}

/// Whether the converter cuts a word inside the letter at position `i`: the
/// letter takes more than one byte in lower case, which the Kelvin sign does
/// not, `ing` follows it and ends the word, and the word is longer than five
/// bytes.
pub open spec fn is_cut_inside(s: Seq<char>, i: int) -> bool {
    &&& may_be_foreign_letter(s[i])
    &&& s[i] != '\u{212A}'
    &&& ing_at(s, i + 1)
    &&& !goes_on(s, i + 4)
    &&& may_have_begun(s, i) || !is_two_bytes(s[i])
}

/// Whether the English converter can read a text: it cuts no word inside a
/// letter.
pub open spec fn english_readable(s: Seq<char>) -> bool {
    forall|i: int| 0 <= i < s.len() ==> !#[trigger] is_cut_inside(s, i)
}

fn foreign_letter(c: char) -> (r: bool)
    ensures
        r == may_be_foreign_letter(c),
{
    let n: u32 = c as u32;
    n >= 0x80 && !(n <= 0xBF && n != 0xAA && n != 0xB5 && n != 0xBA) && n != 0xD7 && n != 0xF7 && !(
    0x300 <= n && n <= 0x36F) && !(0x2000 <= n && n <= 0x206F)
}

fn ascii_letter(c: char) -> (r: bool)
    ensures
        r == is_ascii_letter(c),
{
    ('a' <= c && c <= 'z') || ('A' <= c && c <= 'Z')
}

fn latin_letter(c: char) -> (r: bool)
    ensures
        r == is_latin_letter(c),
{
    ascii_letter(c) || (foreign_letter(c) && c as u32 <= 0x24F)
}

fn cut_inside(v: &Vec<char>, i: usize) -> (r: bool)
    requires
        i < v.len(),
    ensures
        r == is_cut_inside(v@, i as int),
{
    let c = v[i];
    let n: usize = v.len();
    if !foreign_letter(c) || c == '\u{212A}' || n - i < 4 {
        return false;
    }
    if !((v[i + 1] == 'i' || v[i + 1] == 'I') && (v[i + 2] == 'n' || v[i + 2] == 'N') && (v[i + 3]
        == 'g' || v[i + 3] == 'G')) {
        return false;
    }
    if n - i > 4 && (latin_letter(v[i + 4]) || (v[i + 4] == '\'' && n - i > 5 && latin_letter(
        v[i + 5],
    ))) {
        return false;
    }
    let begun = i > 0 && (ascii_letter(v[i - 1]) || foreign_letter(v[i - 1]) || (v[i - 1] == '\''
        && i > 1 && (ascii_letter(v[i - 2]) || foreign_letter(v[i - 2]))));
    let two_bytes = (c as u32 <= 0x7FF && c != '\u{130}' && c != '\u{23A}' && c != '\u{23E}') || c
        == '\u{1E9E}' || c == '\u{2126}' || c == '\u{212B}';
    begun || !two_bytes
}

/// Whether the English converter can read `text`.
pub fn can_read_english(text: &str) -> (r: bool)
    ensures
        r == english_readable(text@),
{
    let v = chars_of(text);
    let mut i: usize = 0;
    while i < v.len()
        invariant
            i <= v@.len(),
            v@ == text@,
            forall|j: int| 0 <= j < i ==> !#[trigger] is_cut_inside(v@, j),
        decreases v@.len() - i,
    {
        if cut_inside(&v, i) {
            assert(is_cut_inside(v@, i as int));
            return false;
        }
        i += 1;
    }
    true
}

/// `misaki_rs::G2P::new` builds the converter for American English from the
/// dictionaries that are compiled into the crate.
#[verifier::external_body]
fn new_converter() -> (r: misaki_rs::G2P) {
    misaki_rs::G2P::new(misaki_rs::Language::EnglishUS)
}

/// The phonemes of an English text. The seed stands for the order in which the
/// hash maps of the converter are walked, which each process picks anew.
pub uninterp spec fn english_phonemes(seed: nat, text: Seq<char>) -> Seq<char>;

/// Whether `phonemes` has the shape of a conversion of `text`: a blank text has
/// none, and every other text ends with the space behind its last word.
pub open spec fn is_spoken(phonemes: Seq<char>, text: Seq<char>) -> bool {
    if trimmed(text).len() == 0 {
        phonemes.len() == 0
    } else {
        phonemes.len() > 0 && phonemes.last() == ' '
    }
}

/// `misaki_rs::G2P::g2p` converts a text to phonemes. Only the fallback for
/// unknown words can fail, and the crate has none without its feature `espeak`,
/// which is off here. The phonemes of each word are written with a space behind
/// them, and a text without any word gives nothing. Its tagger adds weights in
/// the order in which a hash map is walked, so the phonemes of one text may
/// differ from run to run: they are those of some order, and which one is left
/// open. A word is a run of letters, or several with apostrophes between them.
/// One that ends in `ing`, is longer than five bytes and is in no dictionary,
/// as none with a letter outside ASCII is, is cut four bytes from its end, which
/// panics inside a longer letter. Such words are left out, and where it takes
/// tables of other scripts to tell a letter, the words that may be such.
#[verifier::external_body]
fn convert_english(converter: &misaki_rs::G2P, text: &str) -> (r: Result<
    String,
    misaki_rs::g2p::G2PError,
>)
    requires
        english_readable(text@),
    ensures
        r is Ok,
        is_spoken(r->Ok_0@, text@),
        exists|seed: nat| r->Ok_0@ == #[trigger] english_phonemes(seed, text@),
{
    converter.g2p(text).map(|found| found.0)
}

/// The text that `misaki_rs::g2p::G2PError` displays; nothing is said of it.
#[verifier::external_body]
fn converter_error_text(error: &misaki_rs::g2p::G2PError) -> (r: String) {
    error.to_string()
}

/// An English converter, which is slow to build.
pub struct EnglishG2p {
    converter: misaki_rs::G2P,
}

impl EnglishG2p {
    pub fn new() -> Self {
        EnglishG2p { converter: new_converter() }
    }

    /// The phonemes of `text`.
    pub fn phonemes(&self, text: &str) -> (r: Result<String, TtsError>)
        requires
            english_readable(text@),
        ensures
            r matches Ok(phonemes) && is_spoken(phonemes@, text@) && exists|seed: nat|
                phonemes@ == #[trigger] english_phonemes(seed, text@),
    {
        converted(convert_english(&self.converter, text))
    }
}

/// What comes of a conversion, given what the converter said.
pub fn converted(found: Result<String, misaki_rs::g2p::G2PError>) -> (r: Result<String, TtsError>)
    ensures
        match found {
            Ok(phonemes) => r == Ok::<String, TtsError>(phonemes),
            Err(_) => r matches Err(TtsError::Phonemization(m))
                && "misaki-rs g2p: "@.is_prefix_of(m@),
        },
{
    match found {
        Ok(phonemes) => Ok(phonemes),
        Err(e) => {
            let mut message = "misaki-rs g2p: ".to_owned();
            let ghost head = message@;
            message.append(converter_error_text(&e).as_str());
            assert(message@.subrange(0, head.len() as int) =~= head);
            Err(TtsError::Phonemization(message))
        },
    }
}

/// The complaint about a text without any phoneme that the model knows.
pub open spec fn no_phonemes(text: Seq<char>) -> TtsFault {
    TtsFault::Phonemization("ningún fonema reconocible para '"@ + text + "'"@)
}

/// The numbers, or the complaint where there are none.
pub open spec fn ids_or_fault(ids: Seq<i64>, text: Seq<char>) -> Result<Seq<i64>, TtsFault> {
    if ids.len() == 0 {
        Err(no_phonemes(text))
    } else {
        Ok(ids)
    }
}

/// The value of a result of a conversion.
pub open spec fn ids_view(r: Result<Vec<i64>, TtsError>) -> Result<Seq<i64>, TtsFault> {
    match r {
        Ok(ids) => Ok(ids@),
        Err(e) => Err(e@),
    }
}

fn checked_ids(ids: Vec<i64>, text: &str) -> (r: Result<Vec<i64>, TtsError>)
    ensures
        ids_view(r) == ids_or_fault(ids@, text@),
{
    if ids.len() == 0 {
        let message = "ningún fonema reconocible para '".to_owned().concat(text).concat("'");
        return Err(TtsError::Phonemization(message));
    }
    Ok(ids)
}

/// The numbers of the phonemes of the English `text`. Phonemes that the model
/// does not know are left out.
pub fn english_ids(phonemes: &str, text: &str) -> (r: Result<Vec<i64>, TtsError>)
    ensures
        ids_view(r) == ids_or_fault(vocab_ids(phonemes@), text@),
{
    let mut ids: Vec<i64> = Vec::new();
    let v = chars_of(phonemes);
    push_vocab_ids(&mut ids, &v);
    assert(ids@ =~= vocab_ids(phonemes@));
    checked_ids(ids, text)
}

/// Whether a conversion gave numbers of the vocabulary and at least one, or
/// failed to find phonemes.
pub open spec fn is_conversion(r: Result<Vec<i64>, TtsError>) -> bool {
    match r {
        Ok(ids) => ids@.len() > 0 && forall|i: int|
            0 <= i < ids@.len() ==> is_vocab_id(#[trigger] ids@[i]),
        Err(e) => e is Phonemization,
    }
}

/// Whether `r` holds the numbers of `phonemes`, which are those of the English
/// `text`.
pub open spec fn is_english_conversion(
    r: Result<Vec<i64>, TtsError>,
    phonemes: Seq<char>,
    text: Seq<char>,
) -> bool {
    is_spoken(phonemes, text) && ids_view(r) == ids_or_fault(vocab_ids(phonemes), text)
}

proof fn lemma_english_conversion(
    r: Result<Vec<i64>, TtsError>,
    phonemes: Seq<char>,
    text: Seq<char>,
)
    requires
        is_english_conversion(r, phonemes, text),
    ensures
        is_conversion(r),
        r is Ok <==> trimmed(text).len() > 0,
{
    lemma_vocab_ids_are_known(phonemes);
    if trimmed(text).len() > 0 {
        assert(vocab_id(' ') is Some);
    }
}

/// Converts an English text with a converter that is there already. Only a
/// blank text has no phonemes.
pub fn phonemize_english_with(g2p: &EnglishG2p, text: &str) -> (r: Result<Vec<i64>, TtsError>)
    requires
        english_readable(text@),
    ensures
        exists|seed: nat|
            is_english_conversion(r, #[trigger] english_phonemes(seed, text@), text@),
        is_conversion(r),
        r is Ok <==> trimmed(text@).len() > 0,
{
    match g2p.phonemes(text) {
        Ok(phonemes) => {
            let r = english_ids(phonemes.as_str(), text);
            proof {
                lemma_english_conversion(r, phonemes@, text@);
                let seed = choose|seed: nat| phonemes@ == #[trigger] english_phonemes(seed, text@);
                assert(is_english_conversion(r, english_phonemes(seed, text@), text@));
            }
            r
        },
        Err(e) => Err(e),
    }
}

/// Converts an English text. Only a blank text has no phonemes.
pub fn phonemize_english(text: &str) -> (r: Result<Vec<i64>, TtsError>)
    requires
        english_readable(text@),
    ensures
        exists|seed: nat|
            is_english_conversion(r, #[trigger] english_phonemes(seed, text@), text@),
        is_conversion(r),
        r is Ok <==> trimmed(text@).len() > 0,
{
    let g2p = EnglishG2p::new();
    phonemize_english_with(&g2p, text)
}

/// Converts an English text, and gives the phonemes with their numbers. Only a
/// text of white space alone is refused.
pub fn phonemize_debug(text: &str) -> (r: Result<(Vec<i64>, String), TtsError>)
    requires
        english_readable(trimmed(text@)),
    ensures
        match r {
            Ok((ids, phonemes)) => {
                &&& trimmed(text@).len() > 0
                &&& ids@ == vocab_ids(phonemes@)
                &&& is_spoken(phonemes@, trimmed(text@))
                &&& exists|seed: nat|
                    phonemes@ == #[trigger] english_phonemes(seed, trimmed(text@))
            },
            Err(e) => trimmed(text@).len() == 0 && e == TtsError::TextTooShort,
        },
{
    let trimmed_text = trim_text(text);
    if trimmed_text.as_str().is_empty() {
        return Err(TtsError::TextTooShort);
    }
    match EnglishG2p::new().phonemes(trimmed_text.as_str()) {
        Ok(phonemes) => {
            let mut ids: Vec<i64> = Vec::new();
            let v = chars_of(phonemes.as_str());
            push_vocab_ids(&mut ids, &v);
            assert(ids@ =~= vocab_ids(phonemes@));
            Ok((ids, phonemes))
        },
        Err(e) => Err(e),
    }
}

// ---------------------------------------------------------------------------
// Spanish
// ---------------------------------------------------------------------------

/// A phoneme of the Spanish converter in the spelling of the model: without
/// accents, and with the opening marks turned into the closing ones.
pub open spec fn spanish_spelling(c: char) -> char {
    match c {
        'á' | 'Á' => 'a',
        'é' | 'É' => 'e',
        'í' | 'Í' => 'i',
        'ó' | 'Ó' => 'o',
        'ú' | 'Ú' | 'ü' | 'Ü' => 'u',
        'ñ' | 'Ñ' => 'ɲ',
        '¿' => '?',
        '¡' => '!',
        _ => c,
    }
}

fn spell_spanish(c: char) -> (r: char)
    ensures
        r == spanish_spelling(c),
{
    match c {
        'á' | 'Á' => 'a',
        'é' | 'É' => 'e',
        'í' | 'Í' => 'i',
        'ó' | 'Ó' => 'o',
        'ú' | 'Ú' | 'ü' | 'Ü' => 'u',
        'ñ' | 'Ñ' => 'ɲ',
        '¿' => '?',
        '¡' => '!',
        _ => c,
    }
}

/// The phonemes one behind the other, in the spelling of the model.
pub open spec fn spelled(phonemes: Seq<Seq<char>>) -> Seq<char>
    decreases phonemes.len(),
{
    if phonemes.len() == 0 {
        Seq::empty()
    } else {
        spelled(phonemes.drop_last()) + phonemes.last().map_values(|c: char| spanish_spelling(c))
    }
}

/// The numbers of the phonemes of the Spanish `text`. Phonemes that the model
/// does not know are left out.
pub fn spanish_ids(phonemes: &Vec<String>, text: &str) -> (r: Result<Vec<i64>, TtsError>)
    ensures
        ids_view(r) == ids_or_fault(vocab_ids(spelled(texts(phonemes@))), text@),
{
    let mut ids: Vec<i64> = Vec::new();
    let mut i: usize = 0;
    assert(texts(phonemes@.take(0)) =~= Seq::empty());
    while i < phonemes.len()
        invariant
            i <= phonemes@.len(),
            ids@ == vocab_ids(spelled(texts(phonemes@.take(i as int)))),
        decreases phonemes@.len() - i,
    {
        let v = chars_of(phonemes[i].as_str());
        let ghost spell = |c: char| spanish_spelling(c);
        let mut w: Vec<char> = Vec::new();
        let mut j: usize = 0;
        while j < v.len()
            invariant
                j <= v@.len(),
                spell == (|c: char| spanish_spelling(c)),
                w@ == v@.take(j as int).map_values(spell),
            decreases v@.len() - j,
        {
            w.push(spell_spanish(v[j]));
            j += 1;
            assert(w@ =~= v@.take(j as int).map_values(spell));
        }
        assert(v@.take(j as int) =~= v@);
        push_vocab_ids(&mut ids, &w);
        proof {
            let longer = texts(phonemes@.take(i + 1));
            assert(longer.drop_last() =~= texts(phonemes@.take(i as int)));
            assert(longer.last() == v@);
            lemma_vocab_ids_concat(spelled(longer.drop_last()), w@);
        }
        i += 1;
    }
    assert(phonemes@.take(i as int) =~= phonemes@);
    checked_ids(ids, text)
}

/// The numbers of a Spanish text.
pub open spec fn spanish_conversion(text: Seq<char>) -> Result<Seq<i64>, TtsFault> {
    ids_or_fault(vocab_ids(spelled(spanish_phonemes(text))), text)
}

/// Converts a Spanish text.
pub fn phonemize_spanish(text: &str) -> (r: Result<Vec<i64>, TtsError>)
    requires
        spanish_readable(text@),
    ensures
        ids_view(r) == spanish_conversion(text@),
        is_conversion(r),
{
    let g2p = G2p::Spanish(Arc::new(piper_plus_g2p::spanish::SpanishPhonemizer::new()));
    match g2p.phonemize(text) {
        Ok(phonemes) => {
            proof {
                lemma_vocab_ids_are_known(spelled(texts(phonemes@)));
            }
            spanish_ids(&phonemes, text)
        },
        Err(e) => Err(e),
    }
}

// ---------------------------------------------------------------------------
// Any voice
// ---------------------------------------------------------------------------

/// Whether the converter of the voice can read a text.
pub open spec fn readable_by(text: Seq<char>, voice_id: Seq<char>) -> bool {
    match voice_language(voice_id) {
        KokoroLang::Es => spanish_readable(text),
        KokoroLang::En => english_readable(text),
    }
}

/// Whether the converter of the voice can read what is left of `text` without
/// the white space around it.
pub fn can_read(text: &str, voice_id: &str) -> (r: bool)
    ensures
        r == readable_by(trimmed(text@), voice_id@),
{
    let trimmed_text = trim_text(text);
    match KokoroLang::from_voice(voice_id) {
        KokoroLang::Es => can_read_spanish(trimmed_text.as_str()),
        KokoroLang::En => can_read_english(trimmed_text.as_str()),
    }
}

/// Whether `r` comes of converting `text` for `voice_id`. In English the
/// phonemes are those of some order in which the converter walks its maps.
pub open spec fn is_conversion_for(
    r: Result<Vec<i64>, TtsError>,
    text: Seq<char>,
    voice_id: Seq<char>,
) -> bool {
    if trimmed(text).len() == 0 {
        r == Err::<Vec<i64>, TtsError>(TtsError::TextTooShort)
    } else {
        match voice_language(voice_id) {
            KokoroLang::Es => ids_view(r) == spanish_conversion(trimmed(text)),
            KokoroLang::En => exists|seed: nat|
                is_english_conversion(
                    r,
                    #[trigger] english_phonemes(seed, trimmed(text)),
                    trimmed(text),
                ),
        }
    }
}

/// Converts `text` to the numbers that the model reads, in the language of the
/// voice. A text of white space alone is too short.
pub fn phonemize(text: &str, voice_id: &str) -> (r: Result<Vec<i64>, TtsError>)
    requires
        readable_by(trimmed(text@), voice_id@),
    ensures
        is_conversion_for(r, text@, voice_id@),
        trimmed(text@).len() > 0 ==> is_conversion(r),
{
    let trimmed_text = trim_text(text);
    if trimmed_text.as_str().is_empty() {
        return Err(TtsError::TextTooShort);
    }
    match KokoroLang::from_voice(voice_id) {
        KokoroLang::Es => phonemize_spanish(trimmed_text.as_str()),
        KokoroLang::En => phonemize_english(trimmed_text.as_str()),
    }
}

/// As [`phonemize`], with an English converter that is kept from one text to
/// the next.
pub fn phonemize_with(english: &mut Option<EnglishG2p>, text: &str, voice_id: &str) -> (r: Result<
    Vec<i64>,
    TtsError,
>)
    requires
        readable_by(trimmed(text@), voice_id@),
    ensures
        is_conversion_for(r, text@, voice_id@),
        trimmed(text@).len() > 0 ==> is_conversion(r),
        *old(english) is Some ==> *final(english) == *old(english),
{
    let trimmed_text = trim_text(text);
    if trimmed_text.as_str().is_empty() {
        return Err(TtsError::TextTooShort);
    }
    match KokoroLang::from_voice(voice_id) {
        KokoroLang::Es => phonemize_spanish(trimmed_text.as_str()),
        KokoroLang::En => {
            if english.is_none() {
                *english = Some(EnglishG2p::new());
            }
            match english {
                Some(g2p) => phonemize_english_with(g2p, trimmed_text.as_str()),
                None => phonemize_english(trimmed_text.as_str()),
            }
        },
    }
}

// ---------------------------------------------------------------------------
// Laws
// ---------------------------------------------------------------------------

/// The white space around a text does not matter, and of the voice only its
/// language does.
pub proof fn conversion_ignores_white_space_and_voice(
    r: Result<Vec<i64>, TtsError>,
    text: Seq<char>,
    voice_id: Seq<char>,
    other_text: Seq<char>,
    other_voice: Seq<char>,
)
    requires
        trimmed(text) == trimmed(other_text),
        voice_language(voice_id) == voice_language(other_voice),
    ensures
        is_conversion_for(r, text, voice_id) <==> is_conversion_for(r, other_text, other_voice),
        readable_by(trimmed(text), voice_id) <==> readable_by(trimmed(other_text), other_voice),
{
}

/// What the model reads are numbers of its vocabulary, at least one of them,
/// and an English text that is not blank is always converted.
pub proof fn a_conversion_is_of_the_vocabulary(
    r: Result<Vec<i64>, TtsError>,
    text: Seq<char>,
    voice_id: Seq<char>,
)
    requires
        trimmed(text).len() > 0,
        is_conversion_for(r, text, voice_id),
    ensures
        is_conversion(r),
        voice_language(voice_id) == KokoroLang::En ==> r is Ok,
{
    match voice_language(voice_id) {
        KokoroLang::Es => {
            lemma_vocab_ids_are_known(spelled(spanish_phonemes(trimmed(text))));
        },
        KokoroLang::En => {
            let seed = choose|seed: nat|
                is_english_conversion(
                    r,
                    #[trigger] english_phonemes(seed, trimmed(text)),
                    trimmed(text),
                );
            a_trimmed_text_stays(text);
            lemma_english_conversion(r, english_phonemes(seed, trimmed(text)), trimmed(text));
        },
    }
}

/// The symbol behind a number of the model: the small letters from 43 on, but
/// for the `g`, and the others each on its own.
pub open spec fn symbol_of(id: i64) -> Option<char> {
    if 43 <= id <= 68 && id != 49 {
        Some((id - 43 + 'a' as int) as char)
    } else {
        match id {
            1 => Some(';'),
            2 => Some(':'),
            3 => Some(','),
            4 => Some('.'),
            5 => Some('!'),
            6 => Some('?'),
            9 => Some('—'),
            10 => Some('…'),
            11 => Some('"'),
            12 => Some('('),
            13 => Some(')'),
            14 => Some('“'),
            15 => Some('”'),
            16 => Some(' '),
            17 => Some('\u{0303}'),
            18 => Some('ʣ'),
            19 => Some('ʥ'),
            20 => Some('ʦ'),
            21 => Some('ʨ'),
            22 => Some('ᵝ'),
            23 => Some('\u{AB67}'),
            24 => Some('A'),
            25 => Some('I'),
            31 => Some('O'),
            33 => Some('Q'),
            35 => Some('S'),
            36 => Some('T'),
            39 => Some('W'),
            41 => Some('Y'),
            42 => Some('ᵊ'),
            69 => Some('ɑ'),
            70 => Some('ɐ'),
            71 => Some('ɒ'),
            72 => Some('æ'),
            75 => Some('β'),
            76 => Some('ɔ'),
            77 => Some('ɕ'),
            78 => Some('ç'),
            80 => Some('ɖ'),
            81 => Some('ð'),
            82 => Some('ʤ'),
            83 => Some('ə'),
            85 => Some('ɚ'),
            86 => Some('ɛ'),
            87 => Some('ɜ'),
            90 => Some('ɟ'),
            92 => Some('ɡ'),
            99 => Some('ɥ'),
            101 => Some('ɨ'),
            102 => Some('ɪ'),
            103 => Some('ʝ'),
            110 => Some('ɯ'),
            111 => Some('ɰ'),
            112 => Some('ŋ'),
            113 => Some('ɳ'),
            114 => Some('ɲ'),
            115 => Some('ɴ'),
            116 => Some('ø'),
            118 => Some('ɸ'),
            119 => Some('θ'),
            120 => Some('œ'),
            123 => Some('ɹ'),
            125 => Some('ɾ'),
            126 => Some('ɻ'),
            128 => Some('ʁ'),
            129 => Some('ɽ'),
            130 => Some('ʂ'),
            131 => Some('ʃ'),
            132 => Some('ʈ'),
            133 => Some('ʧ'),
            135 => Some('ʊ'),
            136 => Some('ʋ'),
            138 => Some('ʌ'),
            139 => Some('ɣ'),
            140 => Some('ɤ'),
            142 => Some('χ'),
            143 => Some('ʎ'),
            147 => Some('ʒ'),
            148 => Some('ʔ'),
            156 => Some('ˈ'),
            157 => Some('ˌ'),
            158 => Some('ː'),
            162 => Some('ʰ'),
            164 => Some('ʲ'),
            169 => Some('↓'),
            171 => Some('→'),
            172 => Some('↗'),
            173 => Some('↘'),
            177 => Some('ᵻ'),
            _ => None,
        }
    }
}

/// A phoneme has a number exactly where the number stands for it: no two share
/// one, and no number is given that the model does not have.
#[verifier::rlimit(60)]
pub proof fn a_number_stands_for_its_phoneme(c: char, id: i64)
    ensures
        vocab_id(c) == Some(id) <==> symbol_of(id) == Some(c),
{
}

/// The small letters of ASCII are numbered in alphabetical order from 43 on,
/// and only the `g` has no number, since the model writes it as `ɡ`.
pub proof fn small_letters_are_numbered_in_order(c: char)
    requires
        'a' <= c <= 'z',
    ensures
        vocab_id(c) is None <==> c == 'g',
        vocab_id(c) matches Some(id) ==> id - 43 == c as int - 'a' as int,
        vocab_id('ɡ') == Some(92i64),
{
}

/// Of the capitals the model knows eight, which stand for diphthongs and the
/// like. But for the `A` their numbers follow the alphabet from 17 on.
pub proof fn capitals_are_numbered_in_order(c: char)
    requires
        'A' <= c <= 'Z',
    ensures
        vocab_id(c) is Some <==> c == 'A' || c == 'I' || c == 'O' || c == 'Q' || c == 'S' || c
            == 'T' || c == 'W' || c == 'Y',
        vocab_id(c) matches Some(id) ==> if c == 'A' {
            id == 24
        } else {
            id - 17 == c as int - 'A' as int
        },
{
}

/// No two phonemes have the same number.
pub proof fn no_number_is_shared(a: char, b: char)
    requires
        vocab_id(a) is Some,
        vocab_id(a) == vocab_id(b),
    ensures
        a == b,
{
    a_number_stands_for_its_phoneme(a, vocab_id(a)->Some_0);
    a_number_stands_for_its_phoneme(b, vocab_id(a)->Some_0);
}

/// The numbers of a text are those of its characters, in order: the numbers of
/// two texts one behind the other stand one behind the other, and a single
/// character gives its number or, where it has none, nothing.
pub proof fn numbers_follow_the_text(a: Seq<char>, b: Seq<char>, c: char)
    ensures
        vocab_ids(a + b) == vocab_ids(a) + vocab_ids(b),
        vocab_ids(seq![c]) == (match vocab_id(c) {
            Some(id) => seq![id],
            None => Seq::empty(),
        }),
        vocab_ids(a).len() <= a.len(),
    decreases a.len(),
{
    lemma_vocab_ids_concat(a, b);
    assert(seq![c].drop_last() =~= Seq::empty());
    assert(vocab_ids(seq![c].drop_last()) =~= Seq::<i64>::empty());
    if a.len() > 0 {
        numbers_follow_the_text(a.drop_last(), b, c);
    }
}

/// A text whose characters all have numbers gives as many numbers, each at the
/// place of its character.
pub proof fn a_known_text_keeps_its_places(s: Seq<char>, i: int)
    requires
        forall|j: int| 0 <= j < s.len() ==> vocab_id(#[trigger] s[j]) is Some,
        0 <= i < s.len(),
    ensures
        vocab_ids(s).len() == s.len(),
        Some(vocab_ids(s)[i]) == vocab_id(s[i]),
    decreases s.len(),
{
    reveal_with_fuel(vocab_ids, 2);
    let rest = s.drop_last();
    assert forall|j: int| 0 <= j < rest.len() implies vocab_id(#[trigger] rest[j]) is Some by {
        assert(rest[j] == s[j]);
    }
    assert(vocab_id(s.last()) is Some) by {
        assert(s.last() == s[s.len() - 1]);
    }
    if i < rest.len() {
        a_known_text_keeps_its_places(rest, i);
    } else if rest.len() > 0 {
        a_known_text_keeps_its_places(rest, 0);
    }
}

proof fn lemma_numbers_need_a_phoneme(s: Seq<char>)
    ensures
        vocab_ids(s).len() > 0 <==> exists|i: int|
            0 <= i < s.len() && vocab_id(#[trigger] s[i]) is Some,
    decreases s.len(),
{
    if s.len() > 0 {
        let rest = s.drop_last();
        lemma_numbers_need_a_phoneme(rest);
        if exists|i: int| 0 <= i < rest.len() && vocab_id(#[trigger] rest[i]) is Some {
            let i = choose|i: int| 0 <= i < rest.len() && vocab_id(#[trigger] rest[i]) is Some;
            assert(vocab_id(s[i]) is Some);
        }
        if vocab_id(s.last()) is Some {
            assert(vocab_id(s[s.len() - 1]) is Some);
        }
        if exists|i: int| 0 <= i < s.len() && vocab_id(#[trigger] s[i]) is Some {
            let i = choose|i: int| 0 <= i < s.len() && vocab_id(#[trigger] s[i]) is Some;
            if i < rest.len() {
                assert(vocab_id(rest[i]) is Some);
            }
        }
    }
}

/// A conversion fails exactly where the model knows no phoneme of it, and the
/// complaint quotes the text.
pub proof fn only_unknown_phonemes_are_refused(phonemes: Seq<char>, text: Seq<char>)
    ensures
        match ids_or_fault(vocab_ids(phonemes), text) {
            Ok(ids) => ids == vocab_ids(phonemes) && exists|i: int|
                0 <= i < phonemes.len() && vocab_id(#[trigger] phonemes[i]) is Some,
            Err(fault) => fault == TtsFault::Phonemization(
                "ningún fonema reconocible para '"@ + text + "'"@,
            ) && forall|i: int|
                0 <= i < phonemes.len() ==> vocab_id(#[trigger] phonemes[i]) is None,
        },
{
    lemma_numbers_need_a_phoneme(phonemes);
}

/// The letters and marks of Spanish that the model spells otherwise.
pub open spec fn respelled() -> Seq<(char, char)> {
    seq![
        ('á', 'a'),
        ('Á', 'a'),
        ('é', 'e'),
        ('É', 'e'),
        ('í', 'i'),
        ('Í', 'i'),
        ('ó', 'o'),
        ('Ó', 'o'),
        ('ú', 'u'),
        ('Ú', 'u'),
        ('ü', 'u'),
        ('Ü', 'u'),
        ('ñ', 'ɲ'),
        ('Ñ', 'ɲ'),
        ('¿', '?'),
        ('¡', '!'),
    ]
}

/// Each letter with an accent, each `ñ` and each opening mark gets the spelling
/// of the model, which is in its vocabulary and stays as it is. Everything else
/// is left alone.
pub proof fn spanish_is_spelled_for_the_model(c: char, k: int)
    ensures
        0 <= k < respelled().len() ==> spanish_spelling(respelled()[k].0) == respelled()[k].1
            && vocab_id(respelled()[k].1) is Some,
        (forall|j: int| 0 <= j < respelled().len() ==> (#[trigger] respelled()[j]).0 != c)
            ==> spanish_spelling(c) == c,
        spanish_spelling(spanish_spelling(c)) == spanish_spelling(c),
{
    let list = respelled();
    if forall|j: int| 0 <= j < list.len() ==> (#[trigger] list[j]).0 != c {
        assert(list[0].0 != c && list[1].0 != c && list[2].0 != c && list[3].0 != c);
        assert(list[4].0 != c && list[5].0 != c && list[6].0 != c && list[7].0 != c);
        assert(list[8].0 != c && list[9].0 != c && list[10].0 != c && list[11].0 != c);
        assert(list[12].0 != c && list[13].0 != c && list[14].0 != c && list[15].0 != c);
    }
}

/// The phonemes of two lists one behind the other are spelled one behind the
/// other, and a single one character by character.
pub proof fn phonemes_are_spelled_in_order(
    a: Seq<Seq<char>>,
    b: Seq<Seq<char>>,
    phoneme: Seq<char>,
)
    ensures
        spelled(a + b) == spelled(a) + spelled(b),
        spelled(seq![phoneme]).len() == phoneme.len(),
        forall|i: int|
            0 <= i < phoneme.len() ==> #[trigger] spelled(seq![phoneme])[i] == spanish_spelling(
                phoneme[i],
            ),
    decreases b.len(),
{
    assert(seq![phoneme].drop_last() =~= Seq::empty());
    assert(spelled(seq![phoneme].drop_last()) =~= Seq::<char>::empty());
    if b.len() == 0 {
        assert(a + b =~= a);
        assert(spelled(a) + spelled(b) =~= spelled(a));
    } else {
        assert((a + b).drop_last() =~= a + b.drop_last());
        phonemes_are_spelled_in_order(a, b.drop_last(), phoneme);
        assert(spelled(a + b) =~= spelled(a) + spelled(b));
    }
}

/// The two letters before the first dash or underscore decide the language of
/// a voice, in any case: an `e` and one of `f`, `m` and `s` make it Spanish.
pub proof fn two_letters_decide_the_language(a: char, b: char, dash: char, rest: Seq<char>)
    requires
        a != '-' && a != '_' && b != '-' && b != '_',
        dash == '-' || dash == '_',
    ensures
        voice_language(seq![a, b, dash] + rest) == KokoroLang::Es <==> (a == 'e' || a == 'E') && (b
            == 'f' || b == 'F' || b == 'm' || b == 'M' || b == 's' || b == 'S'),
        voice_language(seq![a, b]) == voice_language(seq![a, b, dash] + rest),
{
    reveal_strlit("ef");
    reveal_strlit("em");
    reveal_strlit("es");
    let p = |c: char| c == '-' || c == '_';
    let long = ascii_lower(seq![a, b, dash] + rest);
    let short = ascii_lower(seq![a, b]);
    lemma_first_index(long, p, 2);
    lemma_first_index(short, p, 2);
    assert(first_segment(long) =~= short);
    assert(first_segment(short) =~= short);
    assert(short[0] == 'e' <==> a == 'e' || a == 'E');
    assert(short[1] == 'f' <==> b == 'f' || b == 'F');
    assert(short[1] == 'm' <==> b == 'm' || b == 'M');
    assert(short[1] == 's' <==> b == 's' || b == 'S');
    assert(short =~= "ef"@ <==> short[0] == 'e' && short[1] == 'f');
    assert(short =~= "em"@ <==> short[0] == 'e' && short[1] == 'm');
    assert(short =~= "es"@ <==> short[0] == 'e' && short[1] == 's');
}

/// A voice whose name has more or fewer letters before the first dash or
/// underscore is English.
pub proof fn other_names_are_english(head: Seq<char>, dash: char, rest: Seq<char>)
    requires
        forall|i: int| 0 <= i < head.len() ==> #[trigger] head[i] != '-' && head[i] != '_',
        dash == '-' || dash == '_',
        head.len() != 2,
    ensures
        voice_language(head.push(dash) + rest) == KokoroLang::En,
{
    reveal_strlit("ef");
    reveal_strlit("em");
    reveal_strlit("es");
    let p = |c: char| c == '-' || c == '_';
    let lower = ascii_lower(head.push(dash) + rest);
    assert forall|j: int| 0 <= j < head.len() implies !p(#[trigger] lower[j]) by {
        assert(head[j] != '-' && head[j] != '_');
    }
    assert(lower[head.len() as int] == dash);
    lemma_first_index(lower, p, head.len());
    assert(first_segment(lower).len() == head.len());
}

/// A text of ASCII alone can always be read in English, and so can one without
/// an `ing`.
pub proof fn plain_english_is_readable(s: Seq<char>)
    requires
        (forall|i: int| 0 <= i < s.len() ==> (#[trigger] s[i] as u32) < 0x80) || (forall|i: int|
            0 <= i < s.len() ==> !#[trigger] ing_at(s, i)),
    ensures
        english_readable(s),
{
    assert forall|i: int| 0 <= i < s.len() implies !#[trigger] is_cut_inside(s, i) by {
        assert(may_be_foreign_letter(s[i]) ==> s[i] as u32 >= 0x80);
        if i + 4 <= s.len() {
            assert(ing_at(s, i + 1) ==> i + 1 < s.len());
        }
    }
}

/// A word of two letters or more before a final `ing` is not read in English
/// where the last of them takes more than a byte.
pub proof fn a_word_cut_inside_a_letter_is_not_read(before: Seq<char>, letter: char)
    requires
        before.len() > 0,
        is_ascii_letter(before.last()),
        0xC0 <= letter as int <= 0x24F,
        letter != '\u{D7}' && letter != '\u{F7}',
    ensures
        !english_readable(before + seq![letter, 'i', 'n', 'g']),
{
    let s = before + seq![letter, 'i', 'n', 'g'];
    let i = before.len() as int;
    assert(s[i] == letter && s[i - 1] == before.last());
    assert(s[i + 1] == 'i' && s[i + 2] == 'n' && s[i + 3] == 'g' && s.len() == i + 4);
    assert(is_cut_inside(s, i));
}

/// The voice picks the converter: the one for Spanish reads what a Spanish voice
/// says, and the one for English everything else.
pub proof fn the_voice_picks_the_converter(
    r: Result<Vec<i64>, TtsError>,
    text: Seq<char>,
    rest: Seq<char>,
)
    requires
        trimmed(text).len() > 0,
    ensures
        readable_by(text, seq!['e', 'f', '_'] + rest) == spanish_readable(text),
        readable_by(text, seq!['e', 'm', '_'] + rest) == spanish_readable(text),
        readable_by(text, seq!['a', 'f', '_'] + rest) == english_readable(text),
        readable_by(text, seq!['b', 'm', '_'] + rest) == english_readable(text),
        is_conversion_for(r, text, seq!['e', 'f', '_'] + rest) <==> ids_view(r)
            == spanish_conversion(trimmed(text)),
        is_conversion_for(r, text, seq!['a', 'f', '_'] + rest) <==> exists|seed: nat|
            is_english_conversion(
                r,
                #[trigger] english_phonemes(seed, trimmed(text)),
                trimmed(text),
            ),
{
    two_letters_decide_the_language('e', 'f', '_', rest);
    two_letters_decide_the_language('e', 'm', '_', rest);
    two_letters_decide_the_language('a', 'f', '_', rest);
    two_letters_decide_the_language('b', 'm', '_', rest);
}

/// A text of white space alone is too short in every voice.
pub proof fn a_blank_text_is_too_short(
    r: Result<Vec<i64>, TtsError>,
    text: Seq<char>,
    voice_id: Seq<char>,
)
    requires
        trimmed(text).len() == 0,
    ensures
        is_conversion_for(r, text, voice_id) <==> r == Err::<Vec<i64>, TtsError>(
            TtsError::TextTooShort,
        ),
{
}

/// The phonemes of a text that is not blank end with a space, and a blank one
/// has none.
pub proof fn spoken_words_end_with_a_space(phonemes: Seq<char>, text: Seq<char>)
    requires
        is_spoken(phonemes, text),
    ensures
        trimmed(text).len() == 0 <==> phonemes.len() == 0,
        phonemes.len() > 0 ==> phonemes.last() == ' ' && vocab_ids(phonemes).len() > 0
            && vocab_ids(phonemes).last() == 16,
{
}

} // verus!

//! Which texts the Spanish phonemizer can read.
//!
//! The phonemizer marks the stressed vowel of a word by counting the phonemes
//! before it. It counts one for a `q` without an `u`, which gives none, so in a
//! word with several of them the mark can fall behind the end of the phonemes.
use vstd::prelude::*;
use vstd::string::*;

use crate::text::{ascii_lower_char, chars_of, lower_char};

verus! {

// ---------------------------------------------------------------------------
// Letters
// ---------------------------------------------------------------------------

/// A letter in lower case.
pub open spec fn lower_letter(c: char) -> char {
    match c {
        'Á' => 'á',
        'É' => 'é',
        'Í' => 'í',
        'Ó' => 'ó',
        'Ú' => 'ú',
        'Ü' => 'ü',
        'Ñ' => 'ñ',
        _ => ascii_lower_char(c),
    }
}

/// The letter that a letter and a combining mark make, if they make one.
pub open spec fn joined_mark(letter: char, mark: char) -> Option<char> {
    match (letter, mark) {
        ('a', '\u{301}') => Some('á'),
        ('e', '\u{301}') => Some('é'),
        ('i', '\u{301}') => Some('í'),
        ('o', '\u{301}') => Some('ó'),
        ('u', '\u{301}') => Some('ú'),
        ('u', '\u{308}') => Some('ü'),
        ('n', '\u{303}') => Some('ñ'),
        _ => None,
    }
}

/// `s` with each letter and its combining mark made one.
pub open spec fn composed(s: Seq<char>) -> Seq<char>
    decreases s.len(),
{
    if s.len() == 0 {
        Seq::empty()
    } else if s.len() > 1 && joined_mark(s[0], s[1]) is Some {
        seq![joined_mark(s[0], s[1])->0] + composed(s.skip(2))
    } else {
        seq![s[0]] + composed(s.skip(1))
    }
}

/// `s` in lower case and with its combining marks resolved.
pub open spec fn normalized(s: Seq<char>) -> Seq<char> {
    composed(s.map_values(|c: char| lower_letter(c)))
}

/// A vowel without its accent.
pub open spec fn base_letter(c: char) -> char {
    match c {
        'á' => 'a',
        'é' => 'e',
        'í' => 'i',
        'ó' => 'o',
        'ú' | 'ü' => 'u',
        _ => c,
    }
}

/// Whether a letter has an accent.
pub open spec fn is_accented(c: char) -> bool {
    c == 'á' || c == 'é' || c == 'í' || c == 'ó' || c == 'ú'
}

/// Whether a character is a letter of Spanish, in lower case.
pub open spec fn is_letter(c: char) -> bool {
    'a' <= c <= 'z' || is_accented(c) || c == 'ü' || c == 'ñ'
}

/// Whether a letter is `a`, `e` or `o`.
pub open spec fn is_strong(c: char) -> bool {
    let b = base_letter(c);
    b == 'a' || b == 'e' || b == 'o'
}

/// Whether a letter is `e` or `i`.
pub open spec fn is_front(c: char) -> bool {
    let b = base_letter(c);
    b == 'e' || b == 'i'
}

/// Whether a letter is a vowel.
pub open spec fn is_vowel_letter(c: char) -> bool {
    let b = base_letter(c);
    is_strong(c) || b == 'i' || b == 'u'
}

// ---------------------------------------------------------------------------
// Sounds
// ---------------------------------------------------------------------------

/// Whether a front vowel stands at position `i`.
pub open spec fn front_at(t: Seq<char>, i: int) -> bool {
    0 <= i < t.len() && is_front(t[i])
}

/// Whether an `u` stands at position `i`.
pub open spec fn u_at(t: Seq<char>, i: int) -> bool {
    0 <= i < t.len() && base_letter(t[i]) == 'u'
}

/// Whether the `u` at position `i` belongs to the consonant before it, as in
/// `que` and `gue`.
pub open spec fn is_swallowed(t: Seq<char>, i: int) -> bool {
    u_at(t, i) && i > 0 && (t[i - 1] == 'q' || (t[i - 1] == 'g' && front_at(t, i + 1)))
}

/// Whether the letter at position `i` is a vowel of its own.
pub open spec fn is_vowel_at(t: Seq<char>, i: int) -> bool {
    0 <= i < t.len() && is_vowel_letter(t[i]) && !is_swallowed(t, i)
}

/// Whether the letter at position `i` is the second of a pair of equal ones.
pub open spec fn is_second(t: Seq<char>, i: int) -> bool
    decreases i,
{
    i > 0 && t[i] == t[i - 1] && !is_second(t, i - 1)
}

/// Whether a `q` without an `u` stands at position `i`.
pub open spec fn is_lone_q(t: Seq<char>, i: int) -> bool {
    t[i] == 'q' && !u_at(t, i + 1)
}

/// How many phonemes the letter at position `i` gives.
pub open spec fn phonemes_at(t: Seq<char>, i: int) -> nat {
    let c = t[i];
    if c == 'h' || is_lone_q(t, i) {
        0
    } else if is_swallowed(t, i) {
        // The diaeresis makes the vowel of `güe` heard.
        if c == 'ü' && t[i - 1] == 'g' {
            1
        } else {
            0
        }
    } else if (c == 'l' || c == 'r') && is_second(t, i) {
        0
    } else if c == 'c' && i > 0 && (t[i - 1] == 's' || t[i - 1] == 'x') && front_at(t, i + 1) {
        0
    } else if c == 'x' {
        2
    } else {
        1
    }
}

/// How many phonemes a word gives from position `n` on.
pub open spec fn phonemes_from(t: Seq<char>, n: int) -> nat
    decreases t.len() - n,
{
    if n < 0 || n >= t.len() || !is_letter(t[n]) {
        0
    } else {
        phonemes_at(t, n) + phonemes_from(t, n + 1)
    }
}

/// How many `q` without an `u` a word has before position `n`.
pub open spec fn lone_qs_before(t: Seq<char>, n: int) -> nat
    decreases n,
{
    if n <= 0 || !is_letter(t[n - 1]) {
        0
    } else if is_lone_q(t, n - 1) {
        lone_qs_before(t, n - 1) + 1
    } else {
        lone_qs_before(t, n - 1)
    }
}

// ---------------------------------------------------------------------------
// Stress
// ---------------------------------------------------------------------------

/// The position of the last letter before `i` that is no silent `h`.
pub open spec fn sound_before(t: Seq<char>, i: int) -> int
    decreases i,
{
    if i > 0 && t[i - 1] == 'h' && !(i > 1 && t[i - 2] == 'c') {
        sound_before(t, i - 1)
    } else {
        i - 1
    }
}

/// The position of the first letter from `i` on that is no `h`.
pub open spec fn sound_from(t: Seq<char>, i: int) -> int
    decreases t.len() - i,
{
    if 0 <= i < t.len() && t[i] == 'h' {
        sound_from(t, i + 1)
    } else {
        i
    }
}

/// Whether two vowels in a row are of one syllable: not two strong ones, nor
/// one with an accented `í` or `ú`.
pub open spec fn is_diphthong(a: char, b: char) -> bool {
    !(is_strong(a) && is_strong(b)) && a != 'í' && a != 'ú' && b != 'í' && b != 'ú'
}

/// Whether the vowel of a syllable begins at position `i`.
pub open spec fn starts_vowel(t: Seq<char>, i: int) -> bool {
    is_vowel_at(t, i) && !({
        let before = sound_before(t, i);
        is_vowel_at(t, before) && is_diphthong(t[before], t[i])
    })
}

/// Whether the vowel of a syllable begins in the rest of the word from `i` on.
pub open spec fn vowel_follows(t: Seq<char>, i: int) -> bool
    decreases t.len() - i,
{
    0 <= i < t.len() && is_letter(t[i]) && (starts_vowel(t, i) || vowel_follows(t, i + 1))
}

/// Where the word around position `n` begins.
pub open spec fn word_start(t: Seq<char>, n: int) -> int
    decreases n,
{
    if n <= 0 || !is_letter(t[n - 1]) {
        n
    } else {
        word_start(t, n - 1)
    }
}

/// Where the word around position `n` ends.
pub open spec fn word_end(t: Seq<char>, n: int) -> int
    decreases t.len() - n,
{
    if n < 0 || n >= t.len() || !is_letter(t[n]) {
        n
    } else {
        word_end(t, n + 1)
    }
}

/// The position of the first accent in the rest of the word from `i` on.
pub open spec fn accent_from(t: Seq<char>, i: int) -> Option<int>
    decreases t.len() - i,
{
    if i < 0 || i >= t.len() || !is_letter(t[i]) {
        None
    } else if is_accented(t[i]) {
        Some(i)
    } else {
        accent_from(t, i + 1)
    }
}

/// Whether the stress falls no earlier than on the vowel at position `n`. It
/// falls on the first accent, or else on the last syllable but one of a word
/// that ends in a vowel, `n` or `s`, and on the last of any other.
pub open spec fn stress_reaches(t: Seq<char>, n: int) -> bool {
    match accent_from(t, word_start(t, n)) {
        Some(a) => n <= a || (is_swallowed(t, a) && n <= sound_from(t, a + 1) && is_vowel_at(
            t,
            sound_from(t, a + 1),
        )),
        None => {
            let last = t[word_end(t, n) - 1];
            is_vowel_letter(last) || last == 'n' || last == 's' ==> vowel_follows(t, n + 1)
        },
    }
}

/// Whether the mark of the stress falls behind the end of the phonemes where
/// the vowel at position `n` has it.
pub open spec fn is_out_of_reach(t: Seq<char>, n: int) -> bool {
    starts_vowel(t, n) && lone_qs_before(t, n) > phonemes_from(t, n) && stress_reaches(t, n)
}

/// Whether the Spanish phonemizer can read a text: in no word does the mark of
/// the stress fall behind the end of the phonemes.
pub open spec fn spanish_readable(s: Seq<char>) -> bool {
    forall|n: int| 0 <= n < normalized(s).len() ==> !#[trigger] is_out_of_reach(normalized(s), n)
}

// ---------------------------------------------------------------------------
// The test
// ---------------------------------------------------------------------------

fn lower(c: char) -> (r: char)
    ensures
        r == lower_letter(c),
{
    match c {
        'Á' => 'á',
        'É' => 'é',
        'Í' => 'í',
        'Ó' => 'ó',
        'Ú' => 'ú',
        'Ü' => 'ü',
        'Ñ' => 'ñ',
        _ => lower_char(c),
    }
}

fn join_mark(letter: char, mark: char) -> (r: Option<char>)
    ensures
        r == joined_mark(letter, mark),
{
    match (letter, mark) {
        ('a', '\u{301}') => Some('á'),
        ('e', '\u{301}') => Some('é'),
        ('i', '\u{301}') => Some('í'),
        ('o', '\u{301}') => Some('ó'),
        ('u', '\u{301}') => Some('ú'),
        ('u', '\u{308}') => Some('ü'),
        ('n', '\u{303}') => Some('ñ'),
        _ => None,
    }
}

fn normalize(text: &str) -> (r: Vec<char>)
    ensures
        r@ == normalized(text@),
{
    let v = chars_of(text);
    let ghost small = text@.map_values(|c: char| lower_letter(c));
    let mut out: Vec<char> = Vec::new();
    let mut i: usize = 0;
    assert(small.skip(0) =~= small);
    assert(out@ + composed(small.skip(0)) =~= composed(small));
    while i < v.len()
        invariant
            i <= v@.len(),
            v@ == text@,
            small == text@.map_values(|c: char| lower_letter(c)),
            out@ + composed(small.skip(i as int)) == composed(small),
        decreases v@.len() - i,
    {
        let ghost before = out@;
        let ghost rest = small.skip(i as int);
        let letter = lower(v[i]);
        assert(rest[0] == letter);
        let joined = if v.len() - i > 1 {
            join_mark(letter, lower(v[i + 1]))
        } else {
            None
        };
        match joined {
            Some(c) => {
                assert(rest[1] == lower_letter(v@[i + 1]));
                out.push(c);
                i += 2;
                assert(rest.skip(2) =~= small.skip(i as int));
            },
            None => {
                out.push(letter);
                i += 1;
                assert(rest.skip(1) =~= small.skip(i as int));
            },
        }
        assert(out@ + composed(small.skip(i as int)) =~= before + composed(rest));
    }
    assert(small.skip(i as int) =~= Seq::empty());
    assert(out@ =~= composed(small));
    out
}

fn base(c: char) -> (r: char)
    ensures
        r == base_letter(c),
{
    match c {
        'á' => 'a',
        'é' => 'e',
        'í' => 'i',
        'ó' => 'o',
        'ú' | 'ü' => 'u',
        _ => c,
    }
}

fn accented(c: char) -> (r: bool)
    ensures
        r == is_accented(c),
{
    c == 'á' || c == 'é' || c == 'í' || c == 'ó' || c == 'ú'
}

fn letter(c: char) -> (r: bool)
    ensures
        r == is_letter(c),
{
    ('a' <= c && c <= 'z') || accented(c) || c == 'ü' || c == 'ñ'
}

fn strong(c: char) -> (r: bool)
    ensures
        r == is_strong(c),
{
    let b = base(c);
    b == 'a' || b == 'e' || b == 'o'
}

fn vowel_letter(c: char) -> (r: bool)
    ensures
        r == is_vowel_letter(c),
{
    let b = base(c);
    strong(c) || b == 'i' || b == 'u'
}

fn front(v: &Vec<char>, i: usize) -> (r: bool)
    ensures
        r == front_at(v@, i as int),
{
    if i >= v.len() {
        return false;
    }
    let b = base(v[i]);
    b == 'e' || b == 'i'
}

fn swallowed(v: &Vec<char>, i: usize) -> (r: bool)
    requires
        i < v.len(),
    ensures
        r == is_swallowed(v@, i as int),
{
    base(v[i]) == 'u' && i > 0 && (v[i - 1] == 'q' || (v[i - 1] == 'g' && front(v, i + 1)))
}

fn vowel(v: &Vec<char>, i: usize) -> (r: bool)
    ensures
        r == is_vowel_at(v@, i as int),
{
    i < v.len() && vowel_letter(v[i]) && !swallowed(v, i)
}

fn second(v: &Vec<char>, i: usize) -> (r: bool)
    requires
        i < v.len(),
    ensures
        r == is_second(v@, i as int),
{
    let mut odd = false;
    let mut j: usize = i;
    while j > 0 && v[j] == v[j - 1]
        invariant
            j <= i < v.len(),
            is_second(v@, i as int) == (odd != is_second(v@, j as int)),
        decreases j,
    {
        odd = !odd;
        j -= 1;
    }
    odd
}

fn lone_q(v: &Vec<char>, i: usize) -> (r: bool)
    requires
        i < v.len(),
    ensures
        r == is_lone_q(v@, i as int),
{
    v[i] == 'q' && !(i + 1 < v.len() && base(v[i + 1]) == 'u')
}

fn count_at(v: &Vec<char>, i: usize) -> (r: u8)
    requires
        i < v.len(),
    ensures
        r == phonemes_at(v@, i as int),
        r <= 2,
{
    let c = v[i];
    if c == 'h' || lone_q(v, i) {
        0
    } else if swallowed(v, i) {
        if c == 'ü' && v[i - 1] == 'g' {
            1
        } else {
            0
        }
    } else if (c == 'l' || c == 'r') && second(v, i) {
        0
    } else if c == 'c' && i > 0 && (v[i - 1] == 's' || v[i - 1] == 'x') && front(v, i + 1) {
        0
    } else if c == 'x' {
        2
    } else {
        1
    }
}

fn count_from(v: &Vec<char>, n: usize) -> (r: u128)
    requires
        n < v@.len(),
    ensures
        r == phonemes_from(v@, n as int),
{
    let mut count: u128 = 0;
    let mut i: usize = n;
    while i < v.len() && letter(v[i])
        invariant
            n <= i <= v@.len(),
            count <= 2 * (i - n),
            count + phonemes_from(v@, i as int) == phonemes_from(v@, n as int),
        decreases v@.len() - i,
    {
        count += count_at(v, i) as u128;
        i += 1;
    }
    count
}

fn find_sound_before(v: &Vec<char>, i: usize) -> (r: Option<usize>)
    requires
        i < v.len(),
    ensures
        match r {
            Some(j) => j == sound_before(v@, i as int) && j < i,
            None => sound_before(v@, i as int) < 0,
        },
{
    let mut j: usize = i;
    while j > 0 && v[j - 1] == 'h' && !(j > 1 && v[j - 2] == 'c')
        invariant
            j <= i < v@.len(),
            sound_before(v@, j as int) == sound_before(v@, i as int),
        decreases j,
    {
        j -= 1;
    }
    if j > 0 {
        Some(j - 1)
    } else {
        None
    }
}

fn find_sound_from(v: &Vec<char>, i: usize) -> (r: usize)
    requires
        i <= v@.len(),
    ensures
        r == sound_from(v@, i as int),
        i <= r <= v@.len(),
{
    let mut j: usize = i;
    while j < v.len() && v[j] == 'h'
        invariant
            i <= j <= v@.len(),
            sound_from(v@, j as int) == sound_from(v@, i as int),
        decreases v@.len() - j,
    {
        j += 1;
    }
    j
}

fn diphthong(a: char, b: char) -> (r: bool)
    ensures
        r == is_diphthong(a, b),
{
    !(strong(a) && strong(b)) && a != 'í' && a != 'ú' && b != 'í' && b != 'ú'
}

fn begins_vowel(v: &Vec<char>, i: usize) -> (r: bool)
    requires
        i < v.len(),
    ensures
        r == starts_vowel(v@, i as int),
{
    if !vowel(v, i) {
        return false;
    }
    match find_sound_before(v, i) {
        Some(j) => !(vowel(v, j) && diphthong(v[j], v[i])),
        None => true,
    }
}

fn finds_vowel(v: &Vec<char>, n: usize) -> (r: bool)
    requires
        n <= v@.len(),
    ensures
        r == vowel_follows(v@, n as int),
{
    let mut i: usize = n;
    while i < v.len() && letter(v[i])
        invariant
            n <= i <= v@.len(),
            vowel_follows(v@, i as int) == vowel_follows(v@, n as int),
        decreases v@.len() - i,
    {
        if begins_vowel(v, i) {
            return true;
        }
        i += 1;
    }
    false
}

fn find_word(v: &Vec<char>, n: usize) -> (r: (usize, usize))
    requires
        n < v.len(),
        is_letter(v@[n as int]),
    ensures
        r.0 == word_start(v@, n as int),
        r.1 == word_end(v@, n as int),
        r.0 <= n < r.1 <= v@.len(),
{
    let mut start: usize = n;
    while start > 0 && letter(v[start - 1])
        invariant
            start <= n < v@.len(),
            word_start(v@, start as int) == word_start(v@, n as int),
        decreases start,
    {
        start -= 1;
    }
    let mut end: usize = n + 1;
    while end < v.len() && letter(v[end])
        invariant
            n < end <= v@.len(),
            word_end(v@, end as int) == word_end(v@, n as int),
        decreases v@.len() - end,
    {
        end += 1;
    }
    (start, end)
}

fn find_accent(v: &Vec<char>, n: usize) -> (r: Option<usize>)
    requires
        n <= v@.len(),
    ensures
        match r {
            Some(a) => accent_from(v@, n as int) == Some(a as int) && a < v.len(),
            None => accent_from(v@, n as int) is None,
        },
{
    let mut i: usize = n;
    while i < v.len() && letter(v[i])
        invariant
            n <= i <= v@.len(),
            accent_from(v@, i as int) == accent_from(v@, n as int),
        decreases v@.len() - i,
    {
        if accented(v[i]) {
            return Some(i);
        }
        i += 1;
    }
    None
}

fn reached(v: &Vec<char>, n: usize) -> (r: bool)
    requires
        n < v.len(),
        is_letter(v@[n as int]),
    ensures
        r == stress_reaches(v@, n as int),
{
    let (start, end): (usize, usize) = find_word(v, n);
    match find_accent(v, start) {
        Some(a) => {
            let next: usize = find_sound_from(v, a + 1);
            n <= a || (swallowed(v, a) && n <= next && vowel(v, next))
        },
        None => {
            let last = v[end - 1];
            if vowel_letter(last) || last == 'n' || last == 's' {
                finds_vowel(v, n + 1)
            } else {
                true
            }
        },
    }
}

/// Whether the Spanish phonemizer can read `text`.
pub fn can_read_spanish(text: &str) -> (r: bool)
    ensures
        r == spanish_readable(text@),
{
    let v = normalize(text);
    let mut qs: usize = 0;
    let mut n: usize = 0;
    while n < v.len()
        invariant
            n <= v@.len(),
            v@ == normalized(text@),
            qs <= n,
            qs == lone_qs_before(v@, n as int),
            forall|k: int| 0 <= k < n ==> !#[trigger] is_out_of_reach(v@, k),
        decreases v@.len() - n,
    {
        if qs > 1 && begins_vowel(&v, n) && qs as u128 > count_from(&v, n) && reached(&v, n) {
            assert(is_out_of_reach(v@, n as int));
            return false;
        }
        if !letter(v[n]) {
            qs = 0;
        } else if lone_q(&v, n) {
            qs += 1;
        }
        n += 1;
    }
    true
}

// ---------------------------------------------------------------------------
// Laws
// ---------------------------------------------------------------------------

proof fn lemma_composed_without_q(s: Seq<char>)
    requires
        forall|i: int| 0 <= i < s.len() ==> s[i] != 'q',
    ensures
        forall|i: int| 0 <= i < composed(s).len() ==> composed(s)[i] != 'q',
    decreases s.len(),
{
    if s.len() > 1 && joined_mark(s[0], s[1]) is Some {
        lemma_composed_without_q(s.skip(2));
        assert(composed(s) == seq![joined_mark(s[0], s[1])->0] + composed(s.skip(2)));
    } else if s.len() > 0 {
        lemma_composed_without_q(s.skip(1));
        assert(composed(s) == seq![s[0]] + composed(s.skip(1)));
    }
}

proof fn lemma_no_lone_q(t: Seq<char>, n: int)
    requires
        forall|i: int| 0 <= i < t.len() ==> t[i] != 'q',
        n <= t.len(),
    ensures
        lone_qs_before(t, n) == 0,
    decreases n,
{
    if n > 0 {
        lemma_no_lone_q(t, n - 1);
    }
}

/// Every text without a `q` can be read.
pub proof fn a_text_without_q_can_be_read(s: Seq<char>)
    requires
        forall|i: int| 0 <= i < s.len() ==> s[i] != 'q' && s[i] != 'Q',
    ensures
        spanish_readable(s),
{
    let small = s.map_values(|c: char| lower_letter(c));
    assert forall|i: int| 0 <= i < small.len() implies small[i] != 'q' by {
        assert(s[i] != 'q' && s[i] != 'Q');
    }
    lemma_composed_without_q(small);
    let t = normalized(s);
    assert forall|n: int| 0 <= n < t.len() implies !#[trigger] is_out_of_reach(t, n) by {
        lemma_no_lone_q(t, n);
    }
}

/// Capitals are read as the small letters, accents on them too, and a letter in
/// lower case stays.
pub proof fn capitals_are_read_as_small_letters(c: char)
    ensures
        lower_letter(lower_letter(c)) == lower_letter(c),
        'A' <= c <= 'Z' ==> lower_letter(c) as int == c as int + 32,
        c == 'Á' || c == 'É' || c == 'Í' || c == 'Ó' || c == 'Ú' || c == 'Ü' || c == 'Ñ'
            ==> lower_letter(c) as int == c as int + 32,
        is_letter(c) ==> lower_letter(c) == c,
{
}

/// A combining mark makes a letter of the one before it: the acute accent of
/// each vowel, the diaeresis of `u` and the tilde of `n`. The letter keeps its
/// base, and nothing else is joined.
pub proof fn marks_are_joined_to_their_letter(letter: char, mark: char)
    ensures
        joined_mark(letter, mark) is Some <==> (mark == '\u{301}' && (letter == 'a' || letter == 'e'
            || letter == 'i' || letter == 'o' || letter == 'u')) || (mark == '\u{308}' && letter
            == 'u') || (mark == '\u{303}' && letter == 'n'),
        joined_mark(letter, mark) matches Some(c) ==> is_letter(c) && (is_accented(c) <==> mark
            == '\u{301}') && (letter != 'n' ==> base_letter(c) == letter) && (letter == 'n' ==> c
            == 'ñ'),
{
}

/// The vowels are `a`, `e`, `i`, `o` and `u`, with or without their accents. Of
/// these `a`, `e` and `o` are strong, and `e` and `i` are front vowels.
pub proof fn vowels_are_sorted(c: char)
    ensures
        is_vowel_letter(c) <==> c == 'a' || c == 'e' || c == 'i' || c == 'o' || c == 'u' || c == 'á'
            || c == 'é' || c == 'í' || c == 'ó' || c == 'ú' || c == 'ü',
        is_strong(c) <==> c == 'a' || c == 'e' || c == 'o' || c == 'á' || c == 'é' || c == 'ó',
        is_front(c) <==> c == 'e' || c == 'i' || c == 'é' || c == 'í',
        is_vowel_letter(c) ==> is_vowel_letter(base_letter(c)) && base_letter(base_letter(c))
            == base_letter(c),
{
}

/// Two vowels are of one syllable in either order or in none, two strong ones
/// never are, and an accent on a weak one parts them.
pub proof fn diphthongs_go_both_ways(a: char, b: char)
    ensures
        is_diphthong(a, b) == is_diphthong(b, a),
        is_strong(a) && is_strong(b) ==> !is_diphthong(a, b),
        a == 'í' || a == 'ú' ==> !is_diphthong(a, b),
        is_vowel_letter(a) && is_vowel_letter(b) && !is_strong(a) && !is_accented(a)
            && !is_accented(b) ==> is_diphthong(a, b),
{
}

/// A text that differs in its capitals alone is read alike.
pub proof fn capitals_do_not_matter(s: Seq<char>)
    ensures
        spanish_readable(s.map_values(|c: char| lower_letter(c))) == spanish_readable(s),
{
    let low = s.map_values(|c: char| lower_letter(c));
    assert(low.map_values(|c: char| lower_letter(c)) =~= low) by {
        assert forall|i: int| 0 <= i < low.len() implies lower_letter(low[i]) == low[i] by {
            capitals_are_read_as_small_letters(s[i]);
        }
    }
    assert(normalized(low) == normalized(s));
}

proof fn lemma_all_lone(t: Seq<char>, n: int)
    requires
        0 <= n < t.len(),
        forall|j: int| 0 <= j < n ==> t[j] == 'q',
        t[n] == 'a' || t[n] == 'q',
    ensures
        lone_qs_before(t, n) == n,
        word_start(t, n) == 0,
    decreases n,
{
    if n > 0 {
        assert(t[n - 1] == 'q');
        lemma_all_lone(t, n - 1);
    }
}

/// In a word of three or more `q` and `al` the mark of the stress falls behind
/// the end of the phonemes.
pub proof fn many_lone_qs_are_out_of_reach(k: nat)
    requires
        k >= 3,
    ensures
        is_out_of_reach(Seq::new(k, |i: int| 'q') + seq!['a', 'l'], k as int),
{
    let t = Seq::new(k, |i: int| 'q') + seq!['a', 'l'];
    let n = k as int;
    assert(t.len() == n + 2 && t[n] == 'a' && t[n + 1] == 'l');
    lemma_all_lone(t, n);
    reveal_with_fuel(phonemes_from, 4);
    reveal_with_fuel(word_end, 4);
    assert(phonemes_from(t, n) <= 2);
    assert(t[n - 1] == 'q');
    lemma_no_accent(t, 0);
    assert(word_end(t, n) == n + 2);
    assert(sound_before(t, n) == n - 1);
    assert(!is_vowel_at(t, n - 1));
    assert(starts_vowel(t, n));
}

proof fn lemma_no_accent(t: Seq<char>, i: int)
    requires
        0 <= i <= t.len(),
        forall|j: int| 0 <= j < t.len() ==> !is_accented(#[trigger] t[j]),
    ensures
        accent_from(t, i) is None,
    decreases t.len() - i,
{
    if i < t.len() {
        assert(!is_accented(t[i]));
        lemma_no_accent(t, i + 1);
    }
}

} // verus!

//! Text primitives over `Seq<char>`: trimming, splitting, case folding and
//! decimal numerals, each with an exact contract.
use vstd::prelude::*;
use vstd::string::*;

verus! {

// ---------------------------------------------------------------------------
// Strings and character vectors
// ---------------------------------------------------------------------------

/// `String::push` appends the character `ch` to the end of the string.
pub assume_specification[ String::push ](s: &mut String, ch: char)
    ensures
        final(s)@ == old(s)@.push(ch),
;

/// The contents of a list of strings.
pub open spec fn texts(v: Seq<String>) -> Seq<Seq<char>> {
    v.map_values(|s: String| s@)
}

/// The value of an optional text.
pub open spec fn option_text(text: Option<String>) -> Option<Seq<char>> {
    match text {
        Some(text) => Some(text@),
        None => None,
    }
}

/// The value of a text, or of the reason why there is none.
pub open spec fn result_text(r: Result<String, String>) -> Result<Seq<char>, Seq<char>> {
    match r {
        Ok(text) => Ok(text@),
        Err(e) => Err(e@),
    }
}

/// The value of bytes, or of the reason why there are none.
pub open spec fn result_bytes(r: Result<Vec<u8>, String>) -> Result<Seq<u8>, Seq<char>> {
    match r {
        Ok(bytes) => Ok(bytes@),
        Err(e) => Err(e@),
    }
}

/// The characters of `s`, in order.
pub fn chars_of(s: &str) -> (r: Vec<char>)
    ensures
        r@ == s@,
{
    let mut v: Vec<char> = Vec::new();
    for c in it: s.chars()
        invariant
            it.seq() == s@,
            v@ == s@.subrange(0, it.index() as int),
    {
        v.push(c);
    }
    assert(s@.subrange(0, s@.len() as int) == s@);
    v
}

/// The string made of `v[from..to]`.
pub fn text_of(v: &Vec<char>, from: usize, to: usize) -> (r: String)
    requires
        from <= to <= v@.len(),
    ensures
        r@ == v@.subrange(from as int, to as int),
{
    let mut out = String::new();
    let mut i: usize = from;
    while i < to
        invariant
            from <= i <= to <= v@.len(),
            out@ == v@.subrange(from as int, i as int),
        decreases to - i,
    {
        out.push(v[i]);
        i += 1;
    }
    out
}

/// Whether the two texts hold the same characters.
pub fn text_eq(a: &str, b: &str) -> (r: bool)
    ensures
        r == (a@ == b@),
{
    let x = chars_of(a);
    let y = chars_of(b);
    if x.len() != y.len() {
        return false;
    }
    let mut i: usize = 0;
    while i < x.len()
        invariant
            i <= x@.len(),
            x@.len() == y@.len(),
            x@ == a@,
            y@ == b@,
            forall|j: int| 0 <= j < i ==> x@[j] == y@[j],
        decreases x@.len() - i,
    {
        if x[i] != y[i] {
            return false;
        }
        i += 1;
    }
    assert(x@ =~= y@);
    true
}

// ---------------------------------------------------------------------------
// White space and trimming
// ---------------------------------------------------------------------------

/// The characters with the Unicode property `White_Space`.
pub open spec fn is_white_space(c: char) -> bool {
    let n = c as u32;
    ||| 0x09 <= n <= 0x0D
    ||| n == 0x20
    ||| n == 0x85
    ||| n == 0xA0
    ||| n == 0x1680
    ||| 0x2000 <= n <= 0x200A
    ||| n == 0x2028
    ||| n == 0x2029
    ||| n == 0x202F
    ||| n == 0x205F
    ||| n == 0x3000
}

/// Whether `c` has the Unicode property `White_Space`.
pub fn white_space(c: char) -> (r: bool)
    ensures
        r == is_white_space(c),
{
    let n: u32 = c as u32;
    (0x09 <= n && n <= 0x0D) || n == 0x20 || n == 0x85 || n == 0xA0 || n == 0x1680 || (0x2000 <= n
        && n <= 0x200A) || n == 0x2028 || n == 0x2029 || n == 0x202F || n == 0x205F || n == 0x3000
}

/// The number of characters before the first one that satisfies `p`.
pub open spec fn first_index(s: Seq<char>, p: spec_fn(char) -> bool) -> nat
    decreases s.len(),
{
    if s.len() == 0 || p(s[0]) {
        0
    } else {
        1 + first_index(s.drop_first(), p)
    }
}

/// `first_index` is the one position that satisfies `p` with none before it,
/// or the length where there is none.
pub proof fn lemma_first_index(s: Seq<char>, p: spec_fn(char) -> bool, i: nat)
    requires
        i <= s.len(),
        forall|j: int| 0 <= j < i ==> !p(#[trigger] s[j]),
        i == s.len() || p(s[i as int]),
    ensures
        first_index(s, p) == i,
    decreases s.len(),
{
    if i > 0 {
        assert(!p(s[0]));
        let rest = s.drop_first();
        assert forall|j: int| 0 <= j < i - 1 implies !p(#[trigger] rest[j]) by {
            assert(rest[j] == s[j + 1]);
        }
        lemma_first_index(rest, p, (i - 1) as nat);
    }
}

pub open spec fn trim_start_of(s: Seq<char>) -> Seq<char>
    decreases s.len(),
{
    if s.len() > 0 && is_white_space(s.first()) {
        trim_start_of(s.drop_first())
    } else {
        s
    }
}

pub open spec fn trim_end_of(s: Seq<char>) -> Seq<char>
    decreases s.len(),
{
    if s.len() > 0 && is_white_space(s.last()) {
        trim_end_of(s.drop_last())
    } else {
        s
    }
}

/// `s` without its leading and trailing white space.
pub open spec fn trimmed(s: Seq<char>) -> Seq<char> {
    trim_end_of(trim_start_of(s))
}

/// `s` without its leading white space.
pub fn trim_start_text(s: &str) -> (r: String)
    ensures
        r@ == trim_start_of(s@),
{
    let v = chars_of(s);
    let n: usize = v.len();
    assert(v@.subrange(0, n as int) =~= v@);
    let mut i: usize = 0;
    while i < n && white_space(v[i])
        invariant
            i <= n,
            n == v@.len(),
            trim_start_of(v@.subrange(i as int, n as int)) == trim_start_of(v@),
        ensures
            i <= n,
            i < n ==> !is_white_space(v@[i as int]),
            trim_start_of(v@.subrange(i as int, n as int)) == trim_start_of(v@),
        decreases n - i,
    {
        assert(v@.subrange(i as int, n as int).drop_first() =~= v@.subrange(i + 1, n as int));
        i += 1;
    }
    text_of(&v, i, n)
}

/// `s` without its trailing white space.
pub fn trim_end_text(s: &str) -> (r: String)
    ensures
        r@ == trim_end_of(s@),
{
    let v = chars_of(s);
    let mut j: usize = v.len();
    assert(v@.subrange(0, j as int) =~= v@);
    while 0 < j && white_space(v[j - 1])
        invariant
            j <= v@.len(),
            trim_end_of(v@.subrange(0, j as int)) == trim_end_of(v@),
        ensures
            j <= v@.len(),
            0 < j ==> !is_white_space(v@[j - 1]),
            trim_end_of(v@.subrange(0, j as int)) == trim_end_of(v@),
        decreases j,
    {
        assert(v@.subrange(0, j as int).drop_last() =~= v@.subrange(0, j - 1));
        j -= 1;
    }
    text_of(&v, 0, j)
}

/// `s` without its leading and trailing white space.
pub fn trim_text(s: &str) -> (r: String)
    ensures
        r@ == trimmed(s@),
{
    trim_end_text(trim_start_text(s).as_str())
}

proof fn lemma_trim_start(s: Seq<char>)
    ensures
        trim_start_of(s).len() > 0 ==> !is_white_space(trim_start_of(s).first()),
    decreases s.len(),
{
    if s.len() > 0 && is_white_space(s.first()) {
        lemma_trim_start(s.drop_first());
    }
}

proof fn lemma_trim_end(s: Seq<char>)
    ensures
        trim_end_of(s).is_prefix_of(s),
        trim_end_of(s).len() > 0 ==> !is_white_space(trim_end_of(s).last()),
    decreases s.len(),
{
    if s.len() > 0 && is_white_space(s.last()) {
        lemma_trim_end(s.drop_last());
        assert(trim_end_of(s).is_prefix_of(s));
    }
}

proof fn lemma_trim_start_is_suffix(s: Seq<char>)
    ensures
        trim_start_of(s).is_suffix_of(s),
    decreases s.len(),
{
    if s.len() > 0 && is_white_space(s.first()) {
        lemma_trim_start_is_suffix(s.drop_first());
        assert(trim_start_of(s).is_suffix_of(s));
    }
}

/// Every character of a trimmed text comes from the text.
pub proof fn lemma_trimmed_is_part(s: Seq<char>)
    ensures
        forall|i: int| 0 <= i < trimmed(s).len() ==> s.contains(#[trigger] trimmed(s)[i]),
{
    let start = trim_start_of(s);
    lemma_trim_start_is_suffix(s);
    lemma_trim_end(start);
    let skipped = s.len() - start.len();
    assert forall|i: int| 0 <= i < trimmed(s).len() implies s.contains(
        #[trigger] trimmed(s)[i],
    ) by {
        assert(trimmed(s)[i] == start[i]);
        assert(start[i] == s[skipped + i]);
    }
}

/// A text that was trimmed has no white space left to trim.
pub proof fn a_trimmed_text_stays(s: Seq<char>)
    ensures
        trimmed(trimmed(s)) == trimmed(s),
{
    let start = trim_start_of(s);
    lemma_trim_start(s);
    lemma_trim_end(start);
    let t = trimmed(s);
    if t.len() > 0 {
        assert(t.first() == start.first());
    }
}

// ---------------------------------------------------------------------------
// Prefixes, suffixes, searching
// ---------------------------------------------------------------------------

/// Whether `part` stands in `s` at position `at`.
pub open spec fn stands_at(s: Seq<char>, part: Seq<char>, at: int) -> bool {
    0 <= at && at + part.len() <= s.len() && s.subrange(at, at + part.len()) == part
}

/// Whether `part` stands in `v` at position `at`.
pub fn char_match_at(v: &Vec<char>, part: &Vec<char>, at: usize) -> (r: bool)
    ensures
        r == stands_at(v@, part@, at as int),
{
    if at > v.len() || v.len() - at < part.len() {
        return false;
    }
    let mut i: usize = 0;
    while i < part.len()
        invariant
            i <= part@.len(),
            at + part.len() <= v.len(),
            forall|j: int| 0 <= j < i ==> v@[at + j] == part@[j],
        decreases part@.len() - i,
    {
        if v[at + i] != part[i] {
            proof {
                let sub = v@.subrange(at as int, at + part@.len());
                assert(sub[i as int] == v@[at + i]);
            }
            return false;
        }
        i += 1;
    }
    assert(v@.subrange(at as int, at + part@.len()) =~= part@);
    true
}

/// Whether `s` begins with `prefix`.
pub fn starts_with(s: &str, prefix: &str) -> (r: bool)
    ensures
        r == prefix@.is_prefix_of(s@),
{
    let v = chars_of(s);
    let p = chars_of(prefix);
    char_match_at(&v, &p, 0)
}

/// Whether `s` ends with `suffix`.
pub fn ends_with(s: &str, suffix: &str) -> (r: bool)
    ensures
        r == suffix@.is_suffix_of(s@),
{
    let v = chars_of(s);
    let p = chars_of(suffix);
    if p.len() > v.len() {
        return false;
    }
    char_match_at(&v, &p, v.len() - p.len())
}

/// What follows `prefix` in `s`, where `s` begins with it.
pub fn strip_prefix(s: &str, prefix: &str) -> (r: Option<String>)
    ensures
        r is Some <==> prefix@.is_prefix_of(s@),
        r matches Some(rest) ==> rest@ == s@.skip(prefix@.len() as int),
{
    let v = chars_of(s);
    let p = chars_of(prefix);
    if char_match_at(&v, &p, 0) {
        Some(text_of(&v, p.len(), v.len()))
    } else {
        None
    }
}

/// The first position at or after `from` where `part` stands in `s`.
pub open spec fn find_from(s: Seq<char>, part: Seq<char>, from: int) -> Option<int>
    decreases s.len() + 1 - from,
{
    if from < 0 || from > s.len() {
        None
    } else if stands_at(s, part, from) {
        Some(from)
    } else {
        find_from(s, part, from + 1)
    }
}

/// What `find_from` finds is the first occurrence, and `None` means that
/// there is none.
pub proof fn lemma_find_from(s: Seq<char>, part: Seq<char>, from: int)
    requires
        0 <= from,
    ensures
        match find_from(s, part, from) {
            Some(i) => from <= i && stands_at(s, part, i) && forall|j: int|
                from <= j < i ==> !stands_at(s, part, j),
            None => forall|j: int| from <= j ==> !stands_at(s, part, j),
        },
    decreases s.len() + 1 - from,
{
    if from <= s.len() && !stands_at(s, part, from) {
        lemma_find_from(s, part, from + 1);
    }
}

/// The first position at or after `from` where `part` stands in `v`.
pub fn find_chars(v: &Vec<char>, part: &Vec<char>, from: usize) -> (r: Option<usize>)
    ensures
        match r {
            Some(i) => find_from(v@, part@, from as int) == Some(i as int),
            None => find_from(v@, part@, from as int) is None,
        },
        r matches Some(i) ==> from <= i && i + part@.len() <= v@.len(),
{
    proof {
        lemma_find_from(v@, part@, from as int);
    }
    if from > v.len() {
        return None;
    }
    let mut i: usize = from;
    while i < v.len()
        invariant
            from <= i <= v@.len(),
            find_from(v@, part@, i as int) == find_from(v@, part@, from as int),
        decreases v@.len() - i,
    {
        if char_match_at(v, part, i) {
            return Some(i);
        }
        i += 1;
    }
    if char_match_at(v, part, i) {
        return Some(i);
    }
    assert(find_from(v@, part@, i + 1) is None);
    None
}

/// Whether `part` stands anywhere in `s`.
pub open spec fn contains_text(s: Seq<char>, part: Seq<char>) -> bool {
    exists|i: int| stands_at(s, part, i)
}

/// Whether `part` stands anywhere in `s`.
pub fn contains(s: &str, part: &str) -> (r: bool)
    ensures
        r == contains_text(s@, part@),
{
    let v = chars_of(s);
    let p = chars_of(part);
    proof {
        lemma_find_from(v@, p@, 0);
    }
    match find_chars(&v, &p, 0) {
        Some(_) => true,
        None => false,
    }
}

// ---------------------------------------------------------------------------
// Case folding and segments
// ---------------------------------------------------------------------------

/// `c` in lower case where it is one of `A..=Z`, else `c`.
pub open spec fn ascii_lower_char(c: char) -> char {
    if 'A' <= c <= 'Z' {
        ((c as u8) + 32) as char
    } else {
        c
    }
}

/// `s` with the letters `A..=Z` in lower case.
pub open spec fn ascii_lower(s: Seq<char>) -> Seq<char> {
    s.map_values(|c: char| ascii_lower_char(c))
}

/// `c` in lower case where it is one of `A..=Z`, else `c`.
pub fn lower_char(c: char) -> (r: char)
    ensures
        r == ascii_lower_char(c),
{
    if 'A' <= c && c <= 'Z' {
        let n: u8 = c as u8;
        (n + 32) as char
    } else {
        c
    }
}

/// `s` with the letters `A..=Z` in lower case.
pub fn to_ascii_lower(s: &str) -> (r: String)
    ensures
        r@ == ascii_lower(s@),
{
    let v = chars_of(s);
    let mut out = String::new();
    let mut i: usize = 0;
    while i < v.len()
        invariant
            i <= v@.len(),
            v@ == s@,
            out@ == ascii_lower(s@).subrange(0, i as int),
        decreases v@.len() - i,
    {
        out.push(lower_char(v[i]));
        i += 1;
        assert(out@ =~= ascii_lower(s@).subrange(0, i as int));
    }
    assert(ascii_lower(s@).subrange(0, i as int) =~= ascii_lower(s@));
    out
}

/// The part of `s` before its first `-` or `_`.
pub open spec fn first_segment(s: Seq<char>) -> Seq<char> {
    s.take(first_index(s, |c: char| c == '-' || c == '_') as int)
}

/// The part of `s` before its first `-` or `_`.
pub fn segment_of(s: &str) -> (r: String)
    ensures
        r@ == first_segment(s@),
{
    let v = chars_of(s);
    let mut i: usize = 0;
    while i < v.len() && v[i] != '-' && v[i] != '_'
        invariant
            i <= v@.len(),
            forall|j: int| 0 <= j < i ==> v@[j] != '-' && v@[j] != '_',
        ensures
            i <= v@.len(),
            forall|j: int| 0 <= j < i ==> v@[j] != '-' && v@[j] != '_',
            i < v@.len() ==> v@[i as int] == '-' || v@[i as int] == '_',
        decreases v@.len() - i,
    {
        i += 1;
    }
    proof {
        lemma_first_index(v@, |c: char| c == '-' || c == '_', i as nat);
    }
    text_of(&v, 0, i)
}

// ---------------------------------------------------------------------------
// Decimal numerals
// ---------------------------------------------------------------------------

/// The decimal digit `d`, for `d` below ten.
pub open spec fn digit_char(d: nat) -> char {
    (48 + d) as char
}

/// The decimal numeral of `n`, without leading zeros.
pub open spec fn decimal(n: nat) -> Seq<char>
    decreases n,
{
    if n < 10 {
        seq![digit_char(n)]
    } else {
        decimal(n / 10).push(digit_char(n % 10))
    }
}

/// The decimal digit `d`.
pub fn digit_of(d: u64) -> (r: char)
    requires
        d < 10,
    ensures
        r == digit_char(d as nat),
{
    (48 + d as u8) as char
}

/// The decimal numeral of `n`.
pub fn decimal_text(n: u64) -> (r: String)
    ensures
        r@ == decimal(n as nat),
    decreases n,
{
    if n < 10 {
        let mut out = String::new();
        out.push(digit_of(n));
        assert(out@ =~= decimal(n as nat));
        out
    } else {
        let mut out = decimal_text(n / 10);
        out.push(digit_of(n % 10));
        out
    }
}

// ---------------------------------------------------------------------------
// Joining
// ---------------------------------------------------------------------------

/// The texts of `parts` with `sep` between each two.
pub open spec fn joined(parts: Seq<Seq<char>>, sep: Seq<char>) -> Seq<char>
    decreases parts.len(),
{
    if parts.len() == 0 {
        Seq::empty()
    } else if parts.len() == 1 {
        parts[0]
    } else {
        joined(parts.drop_last(), sep) + sep + parts.last()
    }
}

/// The strings of `parts` with `sep` between each two.
pub fn join(parts: &Vec<String>, sep: &str) -> (r: String)
    ensures
        r@ == joined(texts(parts@), sep@),
{
    let mut out = String::new();
    let mut i: usize = 0;
    while i < parts.len()
        invariant
            i <= parts@.len(),
            out@ == joined(texts(parts@.take(i as int)), sep@),
        decreases parts@.len() - i,
    {
        if i > 0 {
            out.append(sep);
        }
        out.append(parts[i].as_str());
        proof {
            let now = texts(parts@.take(i + 1));
            let before = texts(parts@.take(i as int));
            assert(now.drop_last() =~= before);
            assert(now.last() == parts@[i as int]@);
            if i == 0 {
                assert(out@ =~= parts@[0]@);
            }
        }
        i += 1;
    }
    assert(parts@.take(i as int) =~= parts@);
    out
}

// ---------------------------------------------------------------------------
// Splitting
// ---------------------------------------------------------------------------

/// The parts of `s` between its commas; one part where there is none.
pub open spec fn split_commas(s: Seq<char>) -> Seq<Seq<char>>
    decreases s.len(),
{
    let i = first_index(s, |c: char| c == ',');
    if i >= s.len() {
        seq![s]
    } else {
        seq![s.take(i as int)] + split_commas(s.skip(i as int + 1))
    }
}

/// The parts of `s` between its commas, each without the white space around it.
pub open spec fn comma_pieces(s: Seq<char>) -> Seq<Seq<char>> {
    split_commas(s).map_values(|part: Seq<char>| trimmed(part))
}

proof fn lemma_first_index_bounds(s: Seq<char>, p: spec_fn(char) -> bool)
    ensures
        first_index(s, p) <= s.len(),
        first_index(s, p) < s.len() ==> p(s[first_index(s, p) as int]),
        forall|j: int| 0 <= j < first_index(s, p) ==> !p(#[trigger] s[j]),
    decreases s.len(),
{
    if s.len() > 0 && !p(s.first()) {
        let rest = s.drop_first();
        lemma_first_index_bounds(rest, p);
        assert forall|j: int| 0 <= j < first_index(s, p) implies !p(#[trigger] s[j]) by {
            if j > 0 {
                assert(!p(rest[j - 1]));
            }
        }
    }
}

proof fn lemma_split_at(s: Seq<char>, i: int)
    requires
        0 <= i < s.len(),
        s[i] == ',',
        forall|j: int| 0 <= j < i ==> s[j] != ',',
    ensures
        split_commas(s) == seq![s.take(i)] + split_commas(s.skip(i + 1)),
{
    lemma_first_index(s, |c: char| c == ',', i as nat);
}

proof fn lemma_split_none(s: Seq<char>)
    requires
        forall|j: int| 0 <= j < s.len() ==> s[j] != ',',
    ensures
        split_commas(s) == seq![s],
{
    lemma_first_index(s, |c: char| c == ',', s.len());
}

proof fn lemma_trimmed_drop_last(s: Seq<char>)
    requires
        s.len() > 0,
        is_white_space(s.last()),
    ensures
        trimmed(s.drop_last()) == trimmed(s),
    decreases s.len(),
{
    if is_white_space(s.first()) && s.len() > 1 {
        let rest = s.drop_first();
        lemma_trimmed_drop_last(rest);
        assert(s.drop_last().drop_first() =~= rest.drop_last());
    } else if s.len() == 1 {
        assert(s.drop_last() =~= s.drop_first());
    }
}

proof fn lemma_pieces_drop_first(s: Seq<char>)
    requires
        s.len() > 0,
        is_white_space(s.first()),
    ensures
        comma_pieces(s.drop_first()) == comma_pieces(s),
{
    let rest = s.drop_first();
    let comma = |c: char| c == ',';
    lemma_first_index_bounds(s, comma);
    let i = first_index(s, comma) as int;
    if i < s.len() {
        assert(s[i] == ',');
        assert forall|j: int| 0 <= j < i implies s[j] != ',' by {
            assert(!comma(s[j]));
        }
        lemma_split_at(s, i);
        lemma_split_at(rest, i - 1);
        assert(s.take(i).drop_first() =~= rest.take(i - 1));
        assert(s.skip(i + 1) =~= rest.skip(i));
    } else {
        assert forall|j: int| 0 <= j < s.len() implies s[j] != ',' by {
            assert(!comma(s[j]));
        }
        lemma_split_none(s);
        lemma_split_none(rest);
    }
    assert(comma_pieces(rest) =~= comma_pieces(s));
}

proof fn lemma_pieces_drop_last(s: Seq<char>)
    requires
        s.len() > 0,
        is_white_space(s.last()),
    ensures
        comma_pieces(s.drop_last()) == comma_pieces(s),
    decreases s.len(),
{
    let rest = s.drop_last();
    let comma = |c: char| c == ',';
    lemma_first_index_bounds(s, comma);
    let i = first_index(s, comma) as int;
    if i < s.len() {
        assert(s[i] == ',');
        assert forall|j: int| 0 <= j < i implies s[j] != ',' by {
            assert(!comma(s[j]));
        }
        lemma_split_at(s, i);
        lemma_split_at(rest, i);
        let tail = s.skip(i + 1);
        assert(rest.take(i) =~= s.take(i));
        assert(rest.skip(i + 1) =~= tail.drop_last());
        lemma_pieces_drop_last(tail);
        let head = seq![s.take(i)];
        let trim = |part: Seq<char>| trimmed(part);
        assert((head + split_commas(tail)).map_values(trim) =~= head.map_values(trim)
            + comma_pieces(tail));
        assert((head + split_commas(tail.drop_last())).map_values(trim) =~= head.map_values(trim)
            + comma_pieces(tail.drop_last()));
    } else {
        assert forall|j: int| 0 <= j < s.len() implies s[j] != ',' by {
            assert(!comma(s[j]));
        }
        lemma_split_none(s);
        lemma_split_none(rest);
        lemma_trimmed_drop_last(s);
        assert(comma_pieces(rest) =~= comma_pieces(s));
    }
}

proof fn lemma_pieces_trim_start(s: Seq<char>)
    ensures
        comma_pieces(trim_start_of(s)) == comma_pieces(s),
    decreases s.len(),
{
    if s.len() > 0 && is_white_space(s.first()) {
        lemma_pieces_trim_start(s.drop_first());
        lemma_pieces_drop_first(s);
    }
}

proof fn lemma_pieces_trim_end(s: Seq<char>)
    ensures
        comma_pieces(trim_end_of(s)) == comma_pieces(s),
    decreases s.len(),
{
    if s.len() > 0 && is_white_space(s.last()) {
        lemma_pieces_trim_end(s.drop_last());
        lemma_pieces_drop_last(s);
    }
}

/// The white space around a list does not change its pieces.
pub proof fn pieces_ignore_white_space(s: Seq<char>)
    ensures
        comma_pieces(trimmed(s)) == comma_pieces(s),
{
    lemma_pieces_trim_start(s);
    lemma_pieces_trim_end(trim_start_of(s));
}

/// A comma at the end adds an empty piece.
pub proof fn a_last_comma_adds_an_empty_piece(s: Seq<char>)
    ensures
        comma_pieces(s.push(',')) == comma_pieces(s).push(Seq::empty()),
    decreases s.len(),
{
    let longer = s.push(',');
    let comma = |c: char| c == ',';
    let trim = |part: Seq<char>| trimmed(part);
    lemma_first_index_bounds(s, comma);
    let i = first_index(s, comma) as int;
    assert forall|j: int| 0 <= j < i implies s[j] != ',' by {
        assert(!comma(s[j]));
    }
    lemma_split_at(longer, i);
    if i < s.len() {
        lemma_split_at(s, i);
        let tail = s.skip(i + 1);
        assert(longer.take(i) =~= s.take(i));
        assert(longer.skip(i + 1) =~= tail.push(','));
        a_last_comma_adds_an_empty_piece(tail);
        let head = seq![s.take(i)];
        assert((head + split_commas(tail)).map_values(trim) =~= head.map_values(trim)
            + comma_pieces(tail));
        assert((head + split_commas(tail.push(','))).map_values(trim) =~= head.map_values(trim)
            + comma_pieces(tail.push(',')));
        assert(comma_pieces(longer) =~= comma_pieces(s).push(Seq::empty()));
    } else {
        lemma_split_none(s);
        let nothing = Seq::<char>::empty();
        lemma_split_none(nothing);
        assert(longer.take(i) =~= s);
        assert(longer.skip(i + 1) =~= nothing);
        assert(trimmed(nothing) =~= nothing);
        assert(comma_pieces(longer) =~= comma_pieces(s).push(nothing));
    }
}

/// The parts of `s` between its commas.
pub fn split_at_commas(s: &str) -> (r: Vec<String>)
    ensures
        texts(r@) == split_commas(s@),
{
    let v = chars_of(s);
    let n: usize = v.len();
    let ghost comma = |c: char| c == ',';
    let mut out: Vec<String> = Vec::new();
    let mut start: usize = 0;
    let mut i: usize = 0;
    assert(v@.skip(0) =~= v@);
    assert(texts(out@) + split_commas(v@.skip(0)) =~= split_commas(v@));
    while i < n
        invariant
            start <= i <= n,
            n == v@.len(),
            comma == (|c: char| c == ','),
            forall|j: int| start <= j < i ==> v@[j] != ',',
            texts(out@) + split_commas(v@.skip(start as int)) == split_commas(v@),
        decreases n - i,
    {
        if v[i] == ',' {
            let part = text_of(&v, start, i);
            proof {
                let rest = v@.skip(start as int);
                assert forall|j: int| 0 <= j < i - start implies !comma(#[trigger] rest[j]) by {
                    assert(rest[j] == v@[start + j]);
                }
                lemma_first_index(rest, comma, (i - start) as nat);
                assert(rest.take(i - start) =~= part@);
                assert(rest.skip(i - start + 1) =~= v@.skip(i + 1));
                assert(split_commas(rest) =~= seq![part@] + split_commas(v@.skip(i + 1)));
                assert(texts(out@.push(part)) =~= texts(out@).push(part@));
                assert(texts(out@).push(part@) + split_commas(v@.skip(i + 1)) =~= texts(out@)
                    + split_commas(rest));
            }
            out.push(part);
            start = i + 1;
        }
        i += 1;
    }
    let part = text_of(&v, start, n);
    proof {
        let rest = v@.skip(start as int);
        assert forall|j: int| 0 <= j < n - start implies !comma(#[trigger] rest[j]) by {
            assert(rest[j] == v@[start + j]);
        }
        lemma_first_index(rest, comma, (n - start) as nat);
        assert(rest =~= part@);
        assert(texts(out@.push(part)) =~= texts(out@).push(part@));
        assert(texts(out@).push(part@) =~= texts(out@) + split_commas(rest));
    }
    out.push(part);
    out
}

// ---------------------------------------------------------------------------
// Reading numbers
// ---------------------------------------------------------------------------

/// Why a text is not a number.
#[derive(Debug, Clone, Copy, PartialEq, Eq, Structural)]
pub enum NumberFault {
    InvalidDigit,
    TooLarge,
}

/// The number that `acc` becomes with the digits of `s` from position `i` on.
pub open spec fn number_from(s: Seq<char>, i: int, acc: nat) -> Result<nat, NumberFault>
    decreases s.len() - i,
{
    if i >= s.len() {
        Ok(acc)
    } else if !('0' <= s[i] <= '9') {
        Err(NumberFault::InvalidDigit)
    } else {
        let next = acc * 10 + (s[i] as nat - 48) as nat;
        if next > usize::MAX {
            Err(NumberFault::TooLarge)
        } else {
            number_from(s, i + 1, next)
        }
    }
}

/// The number that a non-empty text of digits names; a plus sign may lead.
pub open spec fn number_of(s: Seq<char>) -> Result<nat, NumberFault> {
    if s.len() > 1 && s[0] == '+' {
        number_from(s, 1, 0)
    } else {
        number_from(s, 0, 0)
    }
}

/// The number that `s` names.
pub fn parse_number(s: &str) -> (r: Result<usize, NumberFault>)
    ensures
        match r {
            Ok(n) => number_of(s@) == Ok::<nat, NumberFault>(n as nat),
            Err(e) => number_of(s@) == Err::<nat, NumberFault>(e),
        },
{
    let v = chars_of(s);
    let mut i: usize = if v.len() > 1 && v[0] == '+' {
        1
    } else {
        0
    };
    let mut acc: usize = 0;
    while i < v.len()
        invariant
            i <= v@.len(),
            v@ == s@,
            number_from(v@, i as int, acc as nat) == number_of(s@),
        decreases v@.len() - i,
    {
        let c = v[i];
        if !('0' <= c && c <= '9') {
            return Err(NumberFault::InvalidDigit);
        }
        let d: usize = c as usize - 48;
        if acc > usize::MAX / 10 || acc * 10 > usize::MAX - d {
            return Err(NumberFault::TooLarge);
        }
        acc = acc * 10 + d;
        i += 1;
    }
    Ok(acc)
}

// ---------------------------------------------------------------------------
// Alphabetical order
// ---------------------------------------------------------------------------

/// Whether `a` stands before `b` in the order of code points.
pub open spec fn text_before(a: Seq<char>, b: Seq<char>) -> bool
    decreases a.len(),
{
    if b.len() == 0 {
        false
    } else if a.len() == 0 {
        true
    } else if a[0] == b[0] {
        text_before(a.skip(1), b.skip(1))
    } else {
        a[0] < b[0]
    }
}

/// Of two different texts exactly one stands before the other.
pub proof fn order_is_total(a: Seq<char>, b: Seq<char>)
    ensures
        a == b <==> !text_before(a, b) && !text_before(b, a),
        !(text_before(a, b) && text_before(b, a)),
    decreases a.len(),
{
    if a.len() > 0 && b.len() > 0 {
        order_is_total(a.skip(1), b.skip(1));
        if a[0] == b[0] && a.skip(1) == b.skip(1) {
            assert(a =~= seq![a[0]] + a.skip(1));
            assert(b =~= seq![b[0]] + b.skip(1));
        }
    } else if a.len() == b.len() {
        assert(a =~= b);
    }
}

/// The alphabetical order is transitive.
pub proof fn order_is_transitive(a: Seq<char>, b: Seq<char>, c: Seq<char>)
    requires
        text_before(a, b),
        text_before(b, c),
    ensures
        text_before(a, c),
    decreases a.len(),
{
    if a.len() > 0 && a[0] == b[0] && b[0] == c[0] {
        order_is_transitive(a.skip(1), b.skip(1), c.skip(1));
    }
}

/// Whether `a` stands before `b` in the order of code points.
pub fn is_before(a: &str, b: &str) -> (r: bool)
    ensures
        r == text_before(a@, b@),
{
    let x = chars_of(a);
    let y = chars_of(b);
    let mut i: usize = 0;
    assert(x@.skip(0) =~= x@ && y@.skip(0) =~= y@);
    while i < x.len() && i < y.len()
        invariant
            i <= x@.len(),
            i <= y@.len(),
            x@ == a@,
            y@ == b@,
            text_before(x@, y@) == text_before(x@.skip(i as int), y@.skip(i as int)),
        decreases x@.len() - i,
    {
        let c = x[i];
        let d = y[i];
        assert(x@.skip(i as int)[0] == c && y@.skip(i as int)[0] == d);
        if c != d {
            return c < d;
        }
        assert(x@.skip(i as int).skip(1) =~= x@.skip(i + 1));
        assert(y@.skip(i as int).skip(1) =~= y@.skip(i + 1));
        i += 1;
    }
    i < y.len()
}

// ---------------------------------------------------------------------------
// Laws
// ---------------------------------------------------------------------------

proof fn lemma_number_of_longer(s: Seq<char>, i: int, acc: nat, digit: nat)
    requires
        0 <= i <= s.len(),
        digit < 10,
        number_from(s, i, acc) matches Ok(n) && n * 10 + digit <= usize::MAX,
    ensures
        number_from(s.push(digit_char(digit)), i, acc) == Ok::<nat, NumberFault>(
            number_from(s, i, acc)->Ok_0 * 10 + digit,
        ),
    decreases s.len() - i,
{
    let longer = s.push(digit_char(digit));
    if i < s.len() {
        assert(longer[i] == s[i]);
        let next = acc * 10 + (s[i] as nat - 48) as nat;
        lemma_number_of_longer(s, i + 1, next, digit);
    } else {
        assert(longer[i] == digit_char(digit));
        assert('0' <= digit_char(digit) <= '9');
        assert(digit_char(digit) as nat - 48 == digit);
        assert(number_from(longer, i + 1, acc * 10 + digit) == Ok::<nat, NumberFault>(
            acc * 10 + digit,
        ));
    }
}

proof fn lemma_numeral_is_read_back(n: nat)
    requires
        n <= usize::MAX,
    ensures
        number_from(decimal(n), 0, 0) == Ok::<nat, NumberFault>(n),
        decimal(n).len() > 0,
        decimal(n)[0] != '+',
    decreases n,
{
    reveal_with_fuel(number_from, 3);
    if n < 10 {
        assert(decimal(n) =~= seq![digit_char(n)]);
        assert('0' <= digit_char(n) <= '9');
        assert(digit_char(n) as nat - 48 == n);
    } else {
        lemma_numeral_is_read_back(n / 10);
        lemma_number_of_longer(decimal(n / 10), 0, 0, n % 10);
        assert(decimal(n)[0] == decimal(n / 10)[0]);
    }
}

/// A number that is written can be read back, also with a plus sign before it.
pub proof fn a_numeral_is_read_back(n: nat)
    requires
        n <= usize::MAX,
    ensures
        number_of(decimal(n)) == Ok::<nat, NumberFault>(n),
        number_of(seq!['+'] + decimal(n)) == Ok::<nat, NumberFault>(n),
{
    lemma_numeral_is_read_back(n);
    let signed = seq!['+'] + decimal(n);
    lemma_number_behind_a_sign(decimal(n), 0, 0);
}

proof fn lemma_number_behind_a_sign(s: Seq<char>, i: int, acc: nat)
    requires
        0 <= i <= s.len(),
    ensures
        number_from(seq!['+'] + s, i + 1, acc) == number_from(s, i, acc),
    decreases s.len() - i,
{
    let signed = seq!['+'] + s;
    if i < s.len() {
        assert(signed[i + 1] == s[i]);
        if '0' <= s[i] <= '9' {
            lemma_number_behind_a_sign(s, i + 1, acc * 10 + (s[i] as nat - 48) as nat);
        }
    }
}

/// A numeral is made of digits, and begins with a nought only where it is one.
pub proof fn a_numeral_has_no_leading_nought(n: nat, i: int)
    ensures
        decimal(n).len() > 0,
        0 <= i < decimal(n).len() ==> '0' <= decimal(n)[i] <= '9',
        decimal(n)[0] == '0' <==> n == 0,
        decimal(n).last() as int - '0' as int == n % 10,
    decreases n,
{
    if n >= 10 {
        a_numeral_has_no_leading_nought(n / 10, i);
        assert(decimal(n)[0] == decimal(n / 10)[0]);
    }
}

/// A text with anything but digits, and a plus sign before them, is no number,
/// and noughts before a number do not change it.
pub proof fn a_number_is_made_of_digits(s: Seq<char>, i: int)
    requires
        s.len() > 0,
    ensures
        number_of(s) is Ok && 0 < i < s.len() ==> '0' <= s[i] <= '9',
        number_of(s) is Ok ==> '0' <= s[0] <= '9' || (s[0] == '+' && s.len() > 1),
        s[0] != '+' ==> number_of(seq!['0'] + s) == number_of(s),
{
    if number_of(s) is Ok {
        if s.len() > 1 && s[0] == '+' {
            if 0 < i < s.len() {
                lemma_digits(s, 1, 0, i);
            }
        } else {
            lemma_digits(s, 0, 0, 0);
            if 0 < i < s.len() {
                lemma_digits(s, 0, 0, i);
            }
        }
    }
    let longer = seq!['0'] + s;
    assert(longer[0] == '0');
    lemma_number_behind_a_nought(s, 0, 0);
    assert(number_from(longer, 0, 0) == number_from(longer, 1, 0));
}

proof fn lemma_digits(s: Seq<char>, from: int, acc: nat, i: int)
    requires
        number_from(s, from, acc) is Ok,
        0 <= from <= i < s.len(),
    ensures
        '0' <= s[i] <= '9',
    decreases s.len() - from,
{
    if from < i {
        lemma_digits(s, from + 1, acc * 10 + (s[from] as nat - 48) as nat, i);
    }
}

proof fn lemma_number_behind_a_nought(s: Seq<char>, i: int, acc: nat)
    requires
        0 <= i <= s.len(),
    ensures
        number_from(seq!['0'] + s, i + 1, acc) == number_from(s, i, acc),
    decreases s.len() - i,
{
    let longer = seq!['0'] + s;
    if i < s.len() {
        assert(longer[i + 1] == s[i]);
        if '0' <= s[i] <= '9' {
            lemma_number_behind_a_nought(s, i + 1, acc * 10 + (s[i] as nat - 48) as nat);
        }
    }
}

/// The capitals of ASCII become the small letters 32 places on, nothing else
/// changes, and lower case stays lower case.
pub proof fn lower_case_is_32_places_on(c: char)
    ensures
        'A' <= c <= 'Z' ==> ascii_lower_char(c) as int == c as int + 32,
        !('A' <= c <= 'Z') ==> ascii_lower_char(c) == c,
        ascii_lower_char(ascii_lower_char(c)) == ascii_lower_char(c),
{
}

/// Every blank of ASCII counts as white space, and of the other characters the
/// seventeen spaces of Unicode and its two separators of lines and paragraphs.
pub proof fn white_space_is_what_unicode_says(c: char)
    ensures
        (c == ' ' || c == '\t' || c == '\n' || c == '\r' || c == '\u{B}' || c == '\u{C}')
            ==> is_white_space(c),
        (c as u32) < 0x80 && is_white_space(c) ==> c == ' ' || c == '\t' || c == '\n' || c == '\r'
            || c == '\u{B}' || c == '\u{C}',
        c == '\u{85}' || c == '\u{A0}' || c == '\u{1680}' || c == '\u{2028}' || c == '\u{2029}' || c
            == '\u{202F}' || c == '\u{205F}' || c == '\u{3000}' ==> is_white_space(c),
        '\u{2000}' <= c <= '\u{200A}' ==> is_white_space(c),
        is_white_space(c) && (c as u32) >= 0x80 ==> c == '\u{85}' || c == '\u{A0}' || c == '\u{1680}'
            || '\u{2000}' <= c <= '\u{200A}' || c == '\u{2028}' || c == '\u{2029}' || c == '\u{202F}'
            || c == '\u{205F}' || c == '\u{3000}',
{
}

/// The first segment is what stands before the first dash or underscore, and
/// the whole where there is none.
pub proof fn a_segment_ends_at_the_first_dash(head: Seq<char>, dash: char, rest: Seq<char>)
    requires
        forall|i: int| 0 <= i < head.len() ==> #[trigger] head[i] != '-' && head[i] != '_',
        dash == '-' || dash == '_',
    ensures
        first_segment(head.push(dash) + rest) == head,
        first_segment(head) == head,
{
    let p = |c: char| c == '-' || c == '_';
    let all = head.push(dash) + rest;
    assert forall|j: int| 0 <= j < head.len() implies !p(#[trigger] all[j]) by {
        assert(all[j] == head[j]);
    }
    assert(all[head.len() as int] == dash);
    lemma_first_index(all, p, head.len());
    lemma_first_index(head, p, head.len());
    assert(all.take(head.len() as int) =~= head);
    assert(head.take(head.len() as int) =~= head);
}

/// Lists that are put together are joined where they meet, and nowhere else.
pub proof fn lists_are_joined_where_they_meet(
    a: Seq<Seq<char>>,
    b: Seq<Seq<char>>,
    sep: Seq<char>,
    part: Seq<char>,
)
    requires
        a.len() > 0,
        b.len() > 0,
    ensures
        joined(a + b, sep) == joined(a, sep) + sep + joined(b, sep),
        joined(seq![part], sep) == part,
    decreases b.len(),
{
    let all = a + b;
    if b.len() == 1 {
        assert(all.drop_last() =~= a);
        assert(all.last() == b[0]);
    } else {
        assert(all.drop_last() =~= a + b.drop_last());
        lists_are_joined_where_they_meet(a, b.drop_last(), sep, part);
        assert(joined(all, sep) =~= joined(a, sep) + sep + joined(b, sep));
    }
}

/// The parts between the commas hold no comma, and with the commas between them
/// they are the text again.
#[verifier::rlimit(40)]
pub proof fn parts_make_up_the_text(s: Seq<char>, i: int)
    ensures
        joined(split_commas(s), seq![',']) == s,
        split_commas(s).len() > 0,
        0 <= i < split_commas(s).len() ==> !split_commas(s)[i].contains(','),
    decreases s.len(),
{
    let p = |c: char| c == ',';
    lemma_first_index_bounds(s, p);
    lemma_none_before(s, p);
    let k = first_index(s, p) as int;
    if k >= s.len() {
        assert(split_commas(s) =~= seq![s]);
        if s.contains(',') {
            let j = choose|j: int| 0 <= j < s.len() && s[j] == ',';
            assert(p(s[j]));
        }
    } else {
        let head = s.take(k);
        let tail = s.skip(k + 1);
        parts_make_up_the_text(tail, i - 1);
        let rest = split_commas(tail);
        assert(split_commas(s) =~= seq![head] + rest);
        lists_are_joined_where_they_meet(seq![head], rest, seq![','], head);
        assert(s =~= head + seq![','] + tail);
        if head.contains(',') {
            let j = choose|j: int| 0 <= j < head.len() && head[j] == ',';
            assert(p(s[j]));
        }
    }
}

proof fn lemma_none_before(s: Seq<char>, p: spec_fn(char) -> bool)
    ensures
        forall|j: int| 0 <= j < first_index(s, p) && j < s.len() ==> !p(#[trigger] s[j]),
    decreases s.len(),
{
    if s.len() > 0 && !p(s[0]) {
        let rest = s.drop_first();
        lemma_none_before(rest, p);
        assert forall|j: int| 0 <= j < first_index(s, p) && j < s.len() implies !p(
            #[trigger] s[j],
        ) by {
            if j > 0 {
                assert(s[j] == rest[j - 1]);
            }
        }
    }
}

/// The first character in which two texts differ decides their order, and a
/// text stands before every longer one that begins with it.
pub proof fn the_first_difference_decides(
    common: Seq<char>,
    a: char,
    b: char,
    x: Seq<char>,
    y: Seq<char>,
)
    ensures
        a != b ==> (text_before(common.push(a) + x, common.push(b) + y) <==> a < b),
        text_before(common, common.push(a) + x),
        !text_before(common.push(a) + x, common),
    decreases common.len(),
{
    let s = common.push(a) + x;
    let t = common.push(b) + y;
    if common.len() == 0 {
        assert(s[0] == a && t[0] == b);
    } else {
        let less = common.skip(1);
        the_first_difference_decides(less, a, b, x, y);
        assert(s[0] == common[0] && t[0] == common[0]);
        assert(s.skip(1) =~= less.push(a) + x);
        assert(t.skip(1) =~= less.push(b) + y);
    }
}

} // verus!

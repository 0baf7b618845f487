//! Checking a downloaded file against its checksum and its signature.
use sha2::Digest;

use vstd::prelude::*;
use vstd::string::*;

use crate::text::{
    ascii_lower, chars_of, first_index, is_white_space, lemma_first_index, option_text,
    result_bytes, result_text, text_eq, text_of, trim_start_of, trim_start_text, trim_text, trimmed,
    white_space,
};
use crate::updater::error::{UpdateError, UpdateFault};

verus! {

// ---------------------------------------------------------------------------
// Checksums
// ---------------------------------------------------------------------------

/// The SHA-256 digest of `data`.
pub uninterp spec fn sha256_digest(data: Seq<u8>) -> Seq<u8>;

/// `s` in lower case.
pub uninterp spec fn lower_case(s: Seq<char>) -> Seq<char>;

/// `sha2::Sha256::digest` computes the digest of the data, which has 32 bytes.
#[verifier::external_body]
fn sha256(data: &[u8]) -> (r: Vec<u8>)
    ensures
        r@ == sha256_digest(data@),
        r@.len() == 32,
{
    sha2::Sha256::digest(data).to_vec()
}

/// The lower-case hexadecimal digit for a number below 16.
pub open spec fn hex_digit(n: int) -> char {
    if n < 10 {
        (n + '0' as int) as char
    } else {
        (n - 10 + 'a' as int) as char
    }
}

/// Bytes in hexadecimal: two digits for each.
pub open spec fn hex_text(bytes: Seq<u8>) -> Seq<char> {
    Seq::new(
        2 * bytes.len(),
        |i: int|
            hex_digit(
                if i % 2 == 0 {
                    bytes[i / 2] as int / 16
                } else {
                    bytes[i / 2] as int % 16
                },
            ),
    )
}

/// `hex::encode` writes each byte as two lower-case hexadecimal digits, the
/// high one first.
#[verifier::external_body]
fn hex_encode(bytes: &Vec<u8>) -> (r: String)
    ensures
        r@ == hex_text(bytes@),
{
    hex::encode(bytes)
}

/// `str::to_lowercase` maps each character to lower case by the tables of
/// Unicode. On a text of ASCII alone it maps the letters `A` to `Z`.
#[verifier::external_body]
fn to_lower_case(s: &str) -> (r: String)
    ensures
        r@ == lower_case(s@),
        (forall|i: int| 0 <= i < s@.len() ==> (s@[i] as int) < 128) ==> r@ == ascii_lower(s@),
{
    s.to_lowercase()
}

/// The first word of a text: what stands between white space.
pub open spec fn first_word(s: Seq<char>) -> Option<Seq<char>> {
    let rest = trim_start_of(s);
    if rest.len() == 0 {
        None
    } else {
        Some(rest.take(first_index(rest, |c: char| is_white_space(c)) as int))
    }
}

/// The first word of a text.
pub fn word_of(s: &str) -> (r: Option<String>)
    ensures
        match r {
            Some(word) => first_word(s@) == Some(word@),
            None => first_word(s@) is None,
        },
{
    let v = chars_of(trim_start_text(s).as_str());
    let n: usize = v.len();
    if n == 0 {
        return None;
    }
    let ghost blank = |c: char| is_white_space(c);
    let mut i: usize = 0;
    while i < n && !white_space(v[i])
        invariant
            i <= n,
            n == v@.len(),
            blank == (|c: char| is_white_space(c)),
            forall|j: int| 0 <= j < i ==> !is_white_space(#[trigger] v@[j]),
        decreases n - i,
    {
        i += 1;
    }
    proof {
        lemma_first_index(v@, blank, i as nat);
    }
    let word = text_of(&v, 0, i);
    assert(word@ =~= v@.take(i as int));
    Some(word)
}

/// Whether `c` is a hexadecimal digit.
pub open spec fn is_hex_digit(c: char) -> bool {
    '0' <= c <= '9' || 'a' <= c <= 'f' || 'A' <= c <= 'F'
}

/// Whether `s` has the form of a SHA-256 digest: 64 hexadecimal digits.
pub open spec fn is_sha256_text(s: Seq<char>) -> bool {
    s.len() == 64 && forall|i: int| 0 <= i < s.len() ==> is_hex_digit(#[trigger] s[i])
}

/// Whether `s` has the form of a SHA-256 digest.
pub fn looks_like_sha256(s: &str) -> (r: bool)
    ensures
        r == is_sha256_text(s@),
{
    let v = chars_of(s);
    if v.len() != 64 {
        return false;
    }
    let mut i: usize = 0;
    while i < v.len()
        invariant
            i <= v@.len(),
            v@ == s@,
            v@.len() == 64,
            forall|j: int| 0 <= j < i ==> is_hex_digit(#[trigger] s@[j]),
        decreases v@.len() - i,
    {
        let c = v[i];
        let hex = ('0' <= c && c <= '9') || ('a' <= c && c <= 'f') || ('A' <= c && c <= 'F');
        if !hex {
            assert(!is_hex_digit(s@[i as int]));
            return false;
        }
        i += 1;
    }
    true
}

/// What is wrong with a sidecar whose first word is no digest.
pub open spec fn no_digest(word: Seq<char>) -> UpdateFault {
    UpdateFault::Other("SHA-256 con formato inválido en sidecar: '"@ + word + "'"@)
}

/// What is wrong with a file, given the digest that its sidecar promises.
pub open spec fn digest_fault(expected: Seq<char>, actual: Seq<char>) -> Option<UpdateFault> {
    if !is_sha256_text(expected) {
        Some(no_digest(expected))
    } else if expected != actual {
        Some(UpdateFault::ChecksumMismatch { expected, actual })
    } else {
        None
    }
}

/// What is wrong with a file, given what reading its sidecar and the file
/// itself gave. The sidecar begins with the digest.
pub open spec fn checksum_fault(
    sha_path: Seq<char>,
    sidecar: Result<Seq<char>, Seq<char>>,
    asset: Result<Seq<u8>, Seq<char>>,
) -> Option<UpdateFault> {
    match sidecar {
        Err(e) => Some(UpdateFault::Io(e)),
        Ok(text) => match first_word(text) {
            None => Some(
                UpdateFault::Other("sidecar SHA-256 vacío o malformado: "@ + sha_path),
            ),
            Some(word) => match asset {
                Err(e) => if is_sha256_text(lower_case(word)) {
                    Some(UpdateFault::Io(e))
                } else {
                    Some(no_digest(lower_case(word)))
                },
                Ok(data) => digest_fault(lower_case(word), hex_text(sha256_digest(data))),
            },
        },
    }
}

/// Whether a verification found exactly the fault `fault`.
pub open spec fn found(r: Result<(), UpdateError>, fault: Option<UpdateFault>) -> bool {
    match r {
        Ok(_) => fault is None,
        Err(e) => fault == Some(e@),
    }
}

fn malformed_digest(expected: &str) -> (r: Result<(), UpdateError>)
    ensures
        r matches Err(e) && e@ == no_digest(expected@),
{
    let mut message = "SHA-256 con formato inválido en sidecar: '".to_owned();
    message.append(expected);
    message.append("'");
    Err(UpdateError::Other(message))
}

/// Compares the digest that a sidecar promises with the one that was computed.
pub fn compare_digests(expected: String, actual: String) -> (r: Result<(), UpdateError>)
    ensures
        found(r, digest_fault(expected@, actual@)),
{
    if !looks_like_sha256(expected.as_str()) {
        return malformed_digest(expected.as_str());
    }
    if !text_eq(expected.as_str(), actual.as_str()) {
        return Err(UpdateError::ChecksumMismatch { expected, actual });
    }
    Ok(())
}

/// The digest of a file as a sidecar holds it.
pub fn digest_text(data: &[u8]) -> (r: String)
    ensures
        r@ == hex_text(sha256_digest(data@)),
        is_sha256_text(r@),
{
    let digest = sha256(data);
    proof {
        a_written_digest_is_well_formed(digest@);
    }
    hex_encode(&digest)
}

/// Checks a file against the digest in its sidecar, given what reading the two
/// gave. A file passes with its own digest.
pub fn verify_sha256(
    sha_path: &str,
    sidecar: Result<String, String>,
    asset: Result<Vec<u8>, String>,
) -> (r: Result<(), UpdateError>)
    ensures
        found(r, checksum_fault(sha_path@, result_text(sidecar), result_bytes(asset))),
        sidecar matches Ok(text) && asset matches Ok(data) && first_word(text@) matches Some(word)
            && lower_case(word) == hex_text(sha256_digest(data@)) ==> r is Ok,
{
    let text = match sidecar {
        Ok(text) => text,
        Err(e) => {
            return Err(UpdateError::Io(e));
        },
    };
    let expected = match word_of(text.as_str()) {
        Some(word) => to_lower_case(word.as_str()),
        None => {
            return Err(
                UpdateError::Other(
                    "sidecar SHA-256 vacío o malformado: ".to_owned().concat(sha_path),
                ),
            );
        },
    };
    match asset {
        Ok(data) => compare_digests(expected, digest_text(data.as_slice())),
        Err(e) => {
            if looks_like_sha256(expected.as_str()) {
                Err(UpdateError::Io(e))
            } else {
                malformed_digest(expected.as_str())
            }
        },
    }
}

// ---------------------------------------------------------------------------
// Signatures
// ---------------------------------------------------------------------------

/// Why `key` is no public key, if it is none.
pub uninterp spec fn key_fault(key: Seq<char>) -> Option<Seq<char>>;

/// Why `signature` is no signature, if it is none.
pub uninterp spec fn signature_fault(signature: Seq<char>) -> Option<Seq<char>>;

/// Why `signature` is not the one of `data` under `key`, if it is not.
pub uninterp spec fn verification_fault(
    key: Seq<char>,
    signature: Seq<char>,
    data: Seq<u8>,
) -> Option<Seq<char>>;

/// `minisign_verify::PublicKey::decode` reads a public key; the error comes as
/// its text.
#[verifier::external_body]
fn check_key(key: &str) -> (r: Option<String>)
    ensures
        option_text(r) == key_fault(key@),
{
    minisign_verify::PublicKey::decode(key).err().map(|e| e.to_string())
}

/// `minisign_verify::Signature::decode` reads a signature; the error comes as
/// its text.
#[verifier::external_body]
fn check_signature(signature: &str) -> (r: Option<String>)
    ensures
        option_text(r) == signature_fault(signature@),
{
    minisign_verify::Signature::decode(signature).err().map(|e| e.to_string())
}

/// `minisign_verify::PublicKey::verify` checks the signature of some data,
/// without the old form of signatures. An error, also of reading the key or the
/// signature, comes as its text.
#[verifier::external_body]
fn check_data(key: &str, signature: &str, data: &[u8]) -> (r: Option<String>)
    ensures
        option_text(r) == verification_fault(key@, signature@, data@),
{
    let key = minisign_verify::PublicKey::decode(key);
    let signature = minisign_verify::Signature::decode(signature);
    match (key, signature) {
        (Ok(key), Ok(signature)) => {
            key.verify(data, &signature, false).err().map(|e| e.to_string())
        },
        (Err(e), _) => Some(e.to_string()),
        (_, Err(e)) => Some(e.to_string()),
    }
}

/// What is wrong with the signature of a file, given the key, what reading the
/// sidecar and the file gave, and what the outside checks say.
pub open spec fn minisign_fault(
    public_key: Seq<char>,
    sig_path: Seq<char>,
    sidecar: Option<Seq<char>>,
    asset: Result<Seq<u8>, Seq<char>>,
) -> Option<UpdateFault> {
    let key = trimmed(public_key);
    match key_fault(key) {
        Some(e) => Some(UpdateFault::Other("PUBLIC_KEY embebida malformada: "@ + e)),
        None => match sidecar {
            None => Some(
                UpdateFault::SignatureInvalid {
                    detail: "sidecar .minisig ausente: "@ + sig_path,
                },
            ),
            Some(signature) => match signature_fault(signature) {
                Some(e) => Some(
                    UpdateFault::SignatureInvalid {
                        detail: "sidecar .minisig malformado: "@ + e,
                    },
                ),
                None => match asset {
                    Err(e) => Some(
                        UpdateFault::SignatureInvalid {
                            detail: "no se pudo leer asset para verificar: "@ + e,
                        },
                    ),
                    Ok(data) => match verification_fault(key, signature, data) {
                        Some(e) => Some(
                            UpdateFault::SignatureInvalid {
                                detail: "verificación Ed25519 falló: "@ + e,
                            },
                        ),
                        None => None,
                    },
                },
            },
        },
    }
}

/// What comes of the check of the public key, given its complaint.
pub fn judge_key(complaint: Option<String>) -> (r: Result<(), UpdateError>)
    ensures
        found(
            r,
            match option_text(complaint) {
                Some(e) => Some(UpdateFault::Other("PUBLIC_KEY embebida malformada: "@ + e)),
                None => None,
            },
        ),
{
    match complaint {
        Some(e) => Err(
            UpdateError::Other("PUBLIC_KEY embebida malformada: ".to_owned().concat(e.as_str())),
        ),
        None => Ok(()),
    }
}

/// What comes of a check of the signature, given its complaint and what the
/// check was about.
pub fn judge_signature(about: &str, complaint: Option<String>) -> (r: Result<(), UpdateError>)
    ensures
        found(
            r,
            match option_text(complaint) {
                Some(e) => Some(UpdateFault::SignatureInvalid { detail: about@ + e }),
                None => None,
            },
        ),
{
    match complaint {
        Some(e) => invalid(about, e.as_str()),
        None => Ok(()),
    }
}

fn invalid(before: &str, reason: &str) -> (r: Result<(), UpdateError>)
    ensures
        r matches Err(e) && e@ == (UpdateFault::SignatureInvalid { detail: before@ + reason@ }),
{
    Err(UpdateError::SignatureInvalid { detail: before.to_owned().concat(reason) })
}

/// Checks the signature of a file, given the public key and what reading the
/// sidecar and the file gave.
pub fn verify_minisign(
    public_key: &str,
    sig_path: &str,
    sidecar: Option<String>,
    asset: Result<Vec<u8>, String>,
) -> (r: Result<(), UpdateError>)
    ensures
        found(
            r,
            minisign_fault(public_key@, sig_path@, option_text(sidecar), result_bytes(asset)),
        ),
{
    let key = trim_text(public_key);
    if let Err(e) = judge_key(check_key(key.as_str())) {
        return Err(e);
    }
    let signature = match sidecar {
        Some(signature) => signature,
        None => {
            return invalid("sidecar .minisig ausente: ", sig_path);
        },
    };
    let readable = judge_signature(
        "sidecar .minisig malformado: ",
        check_signature(signature.as_str()),
    );
    if let Err(e) = readable {
        return Err(e);
    }
    let data = match asset {
        Ok(data) => data,
        Err(e) => {
            return invalid("no se pudo leer asset para verificar: ", e.as_str());
        },
    };
    judge_signature(
        "verificación Ed25519 falló: ",
        check_data(key.as_str(), signature.as_str(), data.as_slice()),
    )
}

// ---------------------------------------------------------------------------
// Laws
// ---------------------------------------------------------------------------

/// A digest that is written out has the form that a sidecar must have.
pub proof fn a_written_digest_is_well_formed(digest: Seq<u8>)
    requires
        digest.len() == 32,
    ensures
        is_sha256_text(hex_text(digest)),
{
    let s = hex_text(digest);
    assert forall|i: int| 0 <= i < s.len() implies is_hex_digit(#[trigger] s[i]) by {
        let n = if i % 2 == 0 {
            digest[i / 2] as int / 16
        } else {
            digest[i / 2] as int % 16
        };
        assert(0 <= n < 16);
        assert(s[i] == hex_digit(n));
    }
}

/// A file passes exactly if its digest is the one that its sidecar promises.
pub proof fn a_file_passes_with_its_own_digest(
    sha_path: Seq<char>,
    text: Seq<char>,
    data: Seq<u8>,
)
    ensures
        checksum_fault(sha_path, Ok(text), Ok(data)) is None ==> (first_word(text) matches Some(
            word,
        ) && lower_case(word) == hex_text(sha256_digest(data))),
        sha256_digest(data).len() == 32 && (first_word(text) matches Some(word) && lower_case(word)
            == hex_text(sha256_digest(data))) ==> checksum_fault(sha_path, Ok(text), Ok(data)) is None,
{
    if sha256_digest(data).len() == 32 {
        a_written_digest_is_well_formed(sha256_digest(data));
    }
}

/// Of two files with different digests at most one passes with a sidecar.
pub proof fn a_changed_file_is_refused(
    sha_path: Seq<char>,
    text: Seq<char>,
    data: Seq<u8>,
    other: Seq<u8>,
)
    requires
        checksum_fault(sha_path, Ok(text), Ok(data)) is None,
        hex_text(sha256_digest(data)) != hex_text(sha256_digest(other)),
    ensures
        checksum_fault(sha_path, Ok(text), Ok(other)) matches Some(fault)
            && fault is ChecksumMismatch,
{
}

/// The value of a hexadecimal digit in lower case.
pub open spec fn hex_value(c: char) -> Option<int> {
    if '0' <= c <= '9' {
        Some(c as int - '0' as int)
    } else if 'a' <= c <= 'f' {
        Some(c as int - 'a' as int + 10)
    } else {
        None
    }
}

/// The bytes can be read back from what is written of them: the two digits of a
/// byte stand at its place, the high one first.
pub proof fn a_written_digest_can_be_read_back(bytes: Seq<u8>, i: int)
    requires
        0 <= i < bytes.len(),
    ensures
        hex_text(bytes).len() == 2 * bytes.len(),
        hex_value(hex_text(bytes)[2 * i]) matches Some(high) && hex_value(
            hex_text(bytes)[2 * i + 1],
        ) matches Some(low) && high * 16 + low == bytes[i],
{
    let s = hex_text(bytes);
    assert((2 * i) / 2 == i && (2 * i) % 2 == 0);
    assert((2 * i + 1) / 2 == i && (2 * i + 1) % 2 == 1);
    assert(s[2 * i] == hex_digit(bytes[i] as int / 16));
    assert(s[2 * i + 1] == hex_digit(bytes[i] as int % 16));
    lemma_hex_digit(bytes[i] as int / 16);
    lemma_hex_digit(bytes[i] as int % 16);
}

proof fn lemma_hex_digit(n: int)
    requires
        0 <= n < 16,
    ensures
        hex_value(hex_digit(n)) == Some(n),
{
}

/// Two digests that are written alike are the same.
pub proof fn digests_are_told_apart(a: Seq<u8>, b: Seq<u8>)
    requires
        hex_text(a) == hex_text(b),
    ensures
        a == b,
{
    assert(hex_text(a).len() == 2 * a.len() && hex_text(b).len() == 2 * b.len());
    assert forall|i: int| 0 <= i < a.len() implies a[i] == b[i] by {
        a_written_digest_can_be_read_back(a, i);
        a_written_digest_can_be_read_back(b, i);
    }
    assert(a =~= b);
}

/// A digest has 64 hexadecimal digits, in small or large letters.
pub proof fn a_digest_is_of_hexadecimal_digits(s: Seq<char>, i: int)
    requires
        is_sha256_text(s),
        0 <= i < s.len(),
    ensures
        s.len() == 64,
        hex_value(ascii_lower(s)[i]) is Some,
        is_sha256_text(ascii_lower(s)),
{
    assert(is_hex_digit(s[i]));
    let lower = ascii_lower(s);
    assert forall|j: int| 0 <= j < lower.len() implies is_hex_digit(#[trigger] lower[j]) by {
        assert(is_hex_digit(s[j]));
    }
}

/// The first word is found behind the white space before it and ends at the
/// white space behind it, whatever follows.
#[verifier::rlimit(40)]
pub proof fn the_first_word_stands_alone(
    blank: Seq<char>,
    word: Seq<char>,
    gap: char,
    rest: Seq<char>,
)
    requires
        word.len() > 0,
        is_white_space(gap),
        forall|i: int| 0 <= i < blank.len() ==> is_white_space(#[trigger] blank[i]),
        forall|i: int| 0 <= i < word.len() ==> !is_white_space(#[trigger] word[i]),
    ensures
        first_word(blank + word) == Some(word),
        first_word(blank + word.push(gap) + rest) == Some(word),
        first_word(blank) is None,
{
    let p = |c: char| is_white_space(c);
    lemma_skip_blank(blank, Seq::empty());
    assert(blank + Seq::<char>::empty() =~= blank);
    lemma_skip_blank(blank, word);
    lemma_first_index(word, p, word.len());
    assert(word.take(word.len() as int) =~= word);
    let tail = word.push(gap) + rest;
    assert(blank + word.push(gap) + rest =~= blank + tail);
    assert(tail[0] == word[0]);
    lemma_skip_blank(blank, tail);
    assert forall|j: int| 0 <= j < word.len() implies !p(#[trigger] tail[j]) by {
        assert(tail[j] == word[j]);
    }
    assert(tail[word.len() as int] == gap);
    lemma_first_index(tail, p, word.len());
    assert(tail.take(word.len() as int) =~= word);
}

proof fn lemma_skip_blank(blank: Seq<char>, rest: Seq<char>)
    requires
        forall|i: int| 0 <= i < blank.len() ==> is_white_space(#[trigger] blank[i]),
        rest.len() == 0 || !is_white_space(rest[0]),
    ensures
        trim_start_of(blank + rest) == rest,
    decreases blank.len(),
{
    if blank.len() == 0 {
        assert(blank + rest =~= rest);
    } else {
        let less = blank.drop_first();
        assert forall|i: int| 0 <= i < less.len() implies is_white_space(#[trigger] less[i]) by {
            assert(less[i] == blank[i + 1]);
        }
        lemma_skip_blank(less, rest);
        assert((blank + rest)[0] == blank[0]);
        assert((blank + rest).drop_first() =~= less + rest);
        assert((blank + rest).skip(1) =~= less + rest);
        assert((blank + rest).subrange(1, (blank + rest).len() as int) =~= less + rest);
    }
}

/// A sidecar is refused for what is wrong with it before its digest is compared
/// with that of the file: that it cannot be read, that it is blank, and that it
/// begins with no digest. Only then the file counts.
pub proof fn a_bad_sidecar_is_refused_first(
    sha_path: Seq<char>,
    reason: Seq<char>,
    text: Seq<char>,
    asset: Result<Seq<u8>, Seq<char>>,
)
    ensures
        checksum_fault(sha_path, Err(reason), asset) == Some(UpdateFault::Io(reason)),
        first_word(text) is None ==> checksum_fault(sha_path, Ok(text), asset) == Some(
            UpdateFault::Other("sidecar SHA-256 vacío o malformado: "@ + sha_path),
        ),
        first_word(text) matches Some(word) ==> (!is_sha256_text(lower_case(word))
            ==> checksum_fault(sha_path, Ok(text), asset) == Some(
            UpdateFault::Other(
                "SHA-256 con formato inválido en sidecar: '"@ + lower_case(word) + "'"@,
            ),
        )),
        first_word(text) matches Some(word) ==> (is_sha256_text(lower_case(word)) ==> (
        asset matches Err(e) ==> checksum_fault(sha_path, Ok(text), asset) == Some(
            UpdateFault::Io(e),
        ))),
{
}

/// A mismatch names the digest that was promised and the one that was computed,
/// each in its place.
pub proof fn a_mismatch_names_both_digests(expected: Seq<char>, actual: Seq<char>)
    requires
        is_sha256_text(expected),
    ensures
        digest_fault(expected, actual) is None <==> expected == actual,
        digest_fault(expected, actual) matches Some(fault) ==> fault
            == (UpdateFault::ChecksumMismatch { expected, actual }),
{
}

/// A file passes with its signature exactly where the key, the sidecar, the
/// file and the signature are all in order, and what is wrong is named in that
/// order.
pub proof fn a_signature_must_hold(
    public_key: Seq<char>,
    sig_path: Seq<char>,
    sidecar: Option<Seq<char>>,
    asset: Result<Seq<u8>, Seq<char>>,
)
    ensures
        ({
            let key = trimmed(public_key);
            let fault = minisign_fault(public_key, sig_path, sidecar, asset);
            &&& fault is None <==> key_fault(key) is None && (sidecar matches Some(signature)
                && signature_fault(signature) is None && (asset matches Ok(data)
                && verification_fault(key, signature, data) is None))
            &&& key_fault(key) matches Some(e) ==> fault == Some(
                UpdateFault::Other("PUBLIC_KEY embebida malformada: "@ + e),
            )
            &&& key_fault(key) is None && fault is Some ==> fault->Some_0 is SignatureInvalid
            &&& key_fault(key) is None && sidecar is None ==> fault == Some(
                UpdateFault::SignatureInvalid { detail: "sidecar .minisig ausente: "@ + sig_path },
            )
        }),
{
}

/// White space around the public key does not matter.
pub proof fn white_space_around_the_key_does_not_matter(
    public_key: Seq<char>,
    other: Seq<char>,
    sig_path: Seq<char>,
    sidecar: Option<Seq<char>>,
    asset: Result<Seq<u8>, Seq<char>>,
)
    requires
        trimmed(public_key) == trimmed(other),
    ensures
        minisign_fault(public_key, sig_path, sidecar, asset) == minisign_fault(
            other,
            sig_path,
            sidecar,
            asset,
        ),
{
}

/// What is wrong with a signature is told: a sidecar that is none, a file that
/// cannot be read, and a signature that is not the one of the file, each in the
/// words of the check that failed.
pub proof fn a_bad_signature_is_told(
    public_key: Seq<char>,
    sig_path: Seq<char>,
    signature: Seq<char>,
    asset: Result<Seq<u8>, Seq<char>>,
)
    requires
        key_fault(trimmed(public_key)) is None,
    ensures
        ({
            let fault = minisign_fault(public_key, sig_path, Some(signature), asset);
            &&& signature_fault(signature) matches Some(e) ==> fault == Some(
                UpdateFault::SignatureInvalid { detail: "sidecar .minisig malformado: "@ + e },
            )
            &&& signature_fault(signature) is None ==> (asset matches Err(e) ==> fault == Some(
                UpdateFault::SignatureInvalid {
                    detail: "no se pudo leer asset para verificar: "@ + e,
                },
            ))
            &&& signature_fault(signature) is None ==> (asset matches Ok(data) ==> (
            verification_fault(trimmed(public_key), signature, data) matches Some(e) ==> fault
                == Some(
                UpdateFault::SignatureInvalid { detail: "verificación Ed25519 falló: "@ + e },
            )))
        }),
{
}

} // verus!

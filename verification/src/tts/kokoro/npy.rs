//! Reading two-dimensional arrays of 32-bit floats in NumPy's NPY format.
use vstd::prelude::*;
use vstd::slice::slice_subrange;
use vstd::string::*;
use vstd::utf8::{decode_utf8, valid_utf8};

use crate::text::{
    a_last_comma_adds_an_empty_piece, chars_of, comma_pieces, decimal, decimal_text, find_chars,
    find_from, join, joined, lemma_find_from, lemma_trimmed_is_part, number_of, parse_number,
    pieces_ignore_white_space, split_at_commas, split_commas, stands_at, text_eq, text_of, texts,
    trim_start_of, trim_start_text, trim_text, trimmed, NumberFault,
};
use crate::tts::engine::{TtsError, TtsFault};

verus! {

// ---------------------------------------------------------------------------
// Shapes
// ---------------------------------------------------------------------------

/// `s` without the parentheses around it, where it has both.
pub open spec fn without_parens(s: Seq<char>) -> Seq<char> {
    if s.len() >= 2 && s.first() == '(' && s.last() == ')' {
        s.subrange(1, s.len() - 1)
    } else {
        s
    }
}

/// The words for a text that is not a number.
pub open spec fn number_fault_text(fault: NumberFault) -> Seq<char> {
    match fault {
        NumberFault::InvalidDigit => "invalid digit found in string"@,
        NumberFault::TooLarge => "number too large to fit in target type"@,
    }
}

/// The numbers of the first `n` parts of a shape. Empty parts do not count.
pub open spec fn dims_first(parts: Seq<Seq<char>>, n: int) -> Result<Seq<nat>, TtsFault>
    decreases n,
{
    if n <= 0 {
        Ok(Seq::empty())
    } else {
        let part = trimmed(parts[n - 1]);
        match dims_first(parts, n - 1) {
            Err(fault) => Err(fault),
            Ok(dims) => if part.len() == 0 {
                Ok(dims)
            } else {
                match number_of(part) {
                    Ok(dim) => Ok(dims.push(dim)),
                    Err(fault) => Err(
                        TtsFault::Backend(
                            "NPY: shape no entero '"@ + part + "': "@ + number_fault_text(fault),
                        ),
                    ),
                }
            },
        }
    }
}

/// The dimensions that a shape such as `(511, 256)` lists.
pub open spec fn shape_dims(s: Seq<char>) -> Result<Seq<nat>, TtsFault> {
    let parts = split_commas(without_parens(trimmed(s)));
    dims_first(parts, parts.len() as int)
}

/// The numbers of a list of machine integers.
pub open spec fn nats(v: Seq<usize>) -> Seq<nat> {
    v.map_values(|n: usize| n as nat)
}

/// The value of a list of dimensions.
pub open spec fn dims_view(r: Result<Vec<usize>, TtsError>) -> Result<Seq<nat>, TtsFault> {
    match r {
        Ok(dims) => Ok(nats(dims@)),
        Err(e) => Err(e@),
    }
}

proof fn lemma_dims_fail_early(parts: Seq<Seq<char>>, i: int, n: int)
    requires
        0 <= i <= n,
        dims_first(parts, i) is Err,
    ensures
        dims_first(parts, n) == dims_first(parts, i),
    decreases n,
{
    if i < n {
        lemma_dims_fail_early(parts, i, n - 1);
    }
}

/// Reads a shape such as `(511, 256)`.
pub fn parse_shape_tuple(s: &str) -> (r: Result<Vec<usize>, TtsError>)
    ensures
        dims_view(r) == shape_dims(s@),
{
    let whole = trim_text(s);
    let v = chars_of(whole.as_str());
    let n: usize = v.len();
    let inner = if n >= 2 && v[0] == '(' && v[n - 1] == ')' {
        text_of(&v, 1, n - 1)
    } else {
        whole
    };
    let parts = split_at_commas(inner.as_str());
    let ghost all = split_commas(without_parens(trimmed(s@)));
    assert(texts(parts@) == all);
    let mut out: Vec<usize> = Vec::new();
    assert(nats(out@) =~= Seq::empty());
    let mut i: usize = 0;
    while i < parts.len()
        invariant
            i <= parts@.len(),
            texts(parts@) == all,
            all == split_commas(without_parens(trimmed(s@))),
            dims_first(all, i as int) == Ok::<Seq<nat>, TtsFault>(nats(out@)),
        decreases parts@.len() - i,
    {
        let part = trim_text(parts[i].as_str());
        assert(part@ == trimmed(all[i as int]));
        if !part.as_str().is_empty() {
            match parse_number(part.as_str()) {
                Ok(dim) => {
                    let ghost before = out@;
                    out.push(dim);
                    assert(nats(out@) =~= nats(before).push(dim as nat));
                },
                Err(fault) => {
                    let mut message = "NPY: shape no entero '".to_owned();
                    message.append(part.as_str());
                    message.append("': ");
                    message.append(
                        match fault {
                            NumberFault::InvalidDigit => "invalid digit found in string",
                            NumberFault::TooLarge => "number too large to fit in target type",
                        },
                    );
                    proof {
                        lemma_dims_fail_early(all, i + 1, all.len() as int);
                    }
                    return Err(TtsError::Backend(message));
                },
            }
        }
        i += 1;
    }
    Ok(out)
}

// ---------------------------------------------------------------------------
// Fields of the header
// ---------------------------------------------------------------------------

/// Where the value ends that begins at position `i`, `depth` brackets deep: at
/// the comma or closing bracket that does not belong to it.
pub open spec fn value_end(s: Seq<char>, i: int, depth: int) -> int
    decreases s.len() - i,
{
    if i >= s.len() {
        s.len() as int
    } else {
        let c = s[i];
        if c == '(' || c == '[' || c == '{' {
            value_end(s, i + 1, depth + 1)
        } else if c == ')' || c == ']' || c == '}' {
            if depth <= 0 {
                i
            } else {
                value_end(s, i + 1, depth - 1)
            }
        } else if c == ',' && depth == 0 {
            i
        } else {
            value_end(s, i + 1, depth)
        }
    }
}

/// `s` without the quotes around it, where it has both.
pub open spec fn unquoted(s: Seq<char>) -> Seq<char> {
    if s.len() >= 2 && ((s.first() == '\'' && s.last() == '\'') || (s.first() == '"' && s.last()
        == '"')) {
        s.subrange(1, s.len() - 1)
    } else {
        s
    }
}

/// Where the value of `key` begins: behind the key in single quotes, or else
/// in double quotes, and its colon.
pub open spec fn value_start(header: Seq<char>, key: Seq<char>) -> Option<int> {
    let single = "'"@ + key + "':"@;
    let double = "\""@ + key + "\":"@;
    match find_from(header, single, 0) {
        Some(i) => Some(i + single.len()),
        None => match find_from(header, double, 0) {
            Some(i) => Some(i + double.len()),
            None => None,
        },
    }
}

/// The value that begins at the start of `rest`.
pub open spec fn value_at(rest: Seq<char>) -> Seq<char> {
    let s = trim_start_of(rest);
    unquoted(trimmed(s.take(value_end(s, 0, 0))))
}

/// The value of `key` in a header such as
/// `{'descr': '<f4', 'fortran_order': False, 'shape': (511, 256), }`.
pub open spec fn header_field(header: Seq<char>, key: Seq<char>) -> Option<Seq<char>> {
    match value_start(header, key) {
        Some(i) => Some(value_at(header.skip(i))),
        None => None,
    }
}

fn find_value_end(v: &Vec<char>) -> (r: usize)
    ensures
        r == value_end(v@, 0, 0),
        r <= v@.len(),
{
    let mut i: usize = 0;
    let mut depth: usize = 0;
    while i < v.len()
        invariant
            i <= v@.len(),
            depth <= i,
            value_end(v@, i as int, depth as int) == value_end(v@, 0, 0),
        decreases v@.len() - i,
    {
        let c = v[i];
        if c == '(' || c == '[' || c == '{' {
            depth += 1;
        } else if c == ')' || c == ']' || c == '}' {
            if depth == 0 {
                return i;
            }
            depth -= 1;
        } else if c == ',' && depth == 0 {
            return i;
        }
        i += 1;
    }
    i
}

fn unquote(s: String) -> (r: String)
    ensures
        r@ == unquoted(s@),
{
    let v = chars_of(s.as_str());
    let n: usize = v.len();
    if n >= 2 && ((v[0] == '\'' && v[n - 1] == '\'') || (v[0] == '"' && v[n - 1] == '"')) {
        text_of(&v, 1, n - 1)
    } else {
        s
    }
}

fn quoted_key(quote: &str, key: &str) -> (r: Vec<char>)
    ensures
        r@ == quote@ + key@ + (quote@ + ":"@),
{
    let mut needle = quote.to_owned();
    needle.append(key);
    needle.append(quote);
    needle.append(":");
    assert(needle@ =~= quote@ + key@ + (quote@ + ":"@));
    chars_of(needle.as_str())
}

/// The value of `key` in the header of an array.
pub fn header_field_str(header: &str, key: &str) -> (r: Option<String>)
    ensures
        match r {
            Some(value) => header_field(header@, key@) == Some(value@),
            None => header_field(header@, key@) is None,
        },
{
    let v = chars_of(header);
    let n: usize = v.len();
    let single = quoted_key("'", key);
    let double = quoted_key("\"", key);
    proof {
        reveal_strlit("'");
        reveal_strlit("':");
        reveal_strlit("\"");
        reveal_strlit("\":");
        reveal_strlit(":");
        assert("'"@ + ":"@ =~= "':"@);
        assert("\""@ + ":"@ =~= "\":"@);
    }
    let start: usize = match find_chars(&v, &single, 0) {
        Some(i) => i + single.len(),
        None => match find_chars(&v, &double, 0) {
            Some(i) => i + double.len(),
            None => {
                return None;
            },
        },
    };
    let rest = text_of(&v, start, n);
    assert(rest@ =~= header@.skip(start as int));
    let value = chars_of(trim_start_text(rest.as_str()).as_str());
    let end: usize = find_value_end(&value);
    let cut = text_of(&value, 0, end);
    assert(cut@ =~= value@.take(end as int));
    Some(unquote(trim_text(cut.as_str())))
}

// ---------------------------------------------------------------------------
// Arrays
// ---------------------------------------------------------------------------

/// The words of `std` for bytes that are not UTF-8.
pub uninterp spec fn utf8_fault(bytes: Seq<u8>) -> Seq<char>;

/// `std::str::from_utf8` accepts exactly the valid UTF-8 and decodes it; its
/// error displays where and how the bytes fail.
#[verifier::external_body]
fn text_from_utf8(bytes: &[u8]) -> (r: Result<String, String>)
    ensures
        r is Ok <==> valid_utf8(bytes@),
        r is Ok ==> r->Ok_0@ == decode_utf8(bytes@),
        r is Err ==> r->Err_0@ == utf8_fault(bytes@),
{
    match std::str::from_utf8(bytes) {
        Ok(text) => Ok(text.to_owned()),
        Err(e) => Err(e.to_string()),
    }
}

/// The 16-bit number at position `i`, low byte first.
pub open spec fn le_u16(b: Seq<u8>, i: int) -> int {
    b[i] + b[i + 1] * 0x100
}

/// The 32-bit number at position `i`, low byte first.
pub open spec fn le_u32(b: Seq<u8>, i: int) -> int {
    b[i] + b[i + 1] * 0x100 + b[i + 2] * 0x1_0000 + b[i + 3] * 0x100_0000
}

/// Whether the bytes begin as an array file does.
pub open spec fn has_magic(buf: Seq<u8>) -> bool {
    buf.len() >= 10 && buf.subrange(0, 6) == seq![0x93u8, 0x4E, 0x55, 0x4D, 0x50, 0x59]
}

/// Where the header begins and ends.
pub open spec fn header_span(buf: Seq<u8>) -> Result<(int, int), TtsFault> {
    if !has_magic(buf) {
        Err(TtsFault::Backend("NPY: magic header ausente"@))
    } else {
        let major = buf[6];
        if !(1 <= major <= 3) {
            Err(
                TtsFault::Backend(
                    "NPY: versión no soportada "@ + decimal(major as nat) + "."@ + decimal(
                        buf[7] as nat,
                    ),
                ),
            )
        } else if major > 1 && buf.len() < 12 {
            Err(TtsFault::Backend("NPY: header_len excede el archivo"@))
        } else {
            let start = if major == 1 {
                10int
            } else {
                12int
            };
            let end = start + if major == 1 {
                le_u16(buf, 8)
            } else {
                le_u32(buf, 8)
            };
            if end > usize::MAX {
                Err(TtsFault::Backend("NPY: header_len overflow"@))
            } else if end > buf.len() {
                Err(TtsFault::Backend("NPY: header_len excede el archivo"@))
            } else {
                Ok((start, end))
            }
        }
    }
}

/// The text of a list of dimensions, in brackets.
pub open spec fn dims_text(dims: Seq<nat>) -> Seq<char> {
    "["@ + joined(dims.map_values(|d: nat| decimal(d)), ", "@) + "]"@
}

/// The rows and columns of an array of two dimensions, or of three of which
/// the middle or the first is one.
pub open spec fn rows_and_cols(dims: Seq<nat>) -> Result<(nat, nat), TtsFault> {
    if dims.len() == 2 {
        Ok((dims[0], dims[1]))
    } else if dims.len() == 3 && dims[1] == 1 {
        Ok((dims[0], dims[2]))
    } else if dims.len() == 3 && dims[0] == 1 {
        Ok((dims[1], dims[2]))
    } else {
        Err(
            TtsFault::Backend(
                "NPY: shape debe ser 2D o 3D con dimensión singleton, obtuve "@ + dims_text(dims),
            ),
        )
    }
}

/// The rows and columns that a header declares: the values must be
/// little-endian floats in row order.
pub open spec fn declared_shape(header: Seq<char>) -> Result<(nat, nat), TtsFault> {
    match header_field(header, "descr"@) {
        None => Err(TtsFault::Backend("NPY: falta 'descr'"@)),
        Some(descr) => if descr != "<f4"@ {
            Err(
                TtsFault::Backend(
                    "NPY: dtype '"@ + descr + "' no soportado (esperaba '<f4')"@,
                ),
            )
        } else {
            match header_field(header, "fortran_order"@) {
                None => Err(TtsFault::Backend("NPY: falta 'fortran_order'"@)),
                Some(order) => if order != "False"@ {
                    Err(TtsFault::Backend("NPY: fortran_order="@ + order + " no soportado"@))
                } else {
                    match header_field(header, "shape"@) {
                        None => Err(TtsFault::Backend("NPY: falta 'shape'"@)),
                        Some(shape) => match shape_dims(shape) {
                            Err(fault) => Err(fault),
                            Ok(dims) => rows_and_cols(dims),
                        },
                    }
                },
            }
        },
    }
}

/// Row `r` of an array whose values begin at position `at`: the bit patterns
/// of its floats.
pub open spec fn array_row(buf: Seq<u8>, at: int, cols: nat, r: int) -> Seq<u32> {
    Seq::new(cols, |c: int| le_u32(buf, at + 4 * (r * cols + c)) as u32)
}

/// The rows of an array.
pub open spec fn array_rows(buf: Seq<u8>, at: int, rows: nat, cols: nat) -> Seq<Seq<u32>> {
    Seq::new(rows, |r: int| array_row(buf, at, cols, r))
}

/// The values behind the header, once the shape is known.
pub open spec fn array_values(buf: Seq<u8>, at: int, rows: nat, cols: nat, expected_cols: nat) -> Result<
    Seq<Seq<u32>>,
    TtsFault,
> {
    if cols != expected_cols {
        Err(
            TtsFault::InvalidVoiceConfig(
                "NPY: dimensión de estilo "@ + decimal(cols) + " != "@ + decimal(expected_cols)
                    + " — ¿archivo de otra versión de Kokoro?"@,
            ),
        )
    } else if rows * cols > usize::MAX || rows * cols * 4 > usize::MAX {
        Err(TtsFault::Backend("NPY: tamaño overflow"@))
    } else if buf.len() - at < rows * cols * 4 {
        Err(
            TtsFault::Backend(
                "NPY: data corta ("@ + decimal((buf.len() - at) as nat) + " bytes, esperaba "@
                    + decimal(rows * cols * 4) + ")"@,
            ),
        )
    } else {
        Ok(array_rows(buf, at, rows, cols))
    }
}

/// What an array file holds: its rows, each of `expected_cols` values.
pub open spec fn npy_rows(buf: Seq<u8>, expected_cols: nat) -> Result<Seq<Seq<u32>>, TtsFault> {
    match header_span(buf) {
        Err(fault) => Err(fault),
        Ok((start, end)) => {
            let bytes = buf.subrange(start, end);
            if !valid_utf8(bytes) {
                Err(TtsFault::Backend("NPY: header no UTF-8: "@ + utf8_fault(bytes)))
            } else {
                match declared_shape(decode_utf8(bytes)) {
                    Err(fault) => Err(fault),
                    Ok((rows, cols)) => array_values(buf, end, rows, cols, expected_cols),
                }
            }
        },
    }
}

/// Every row of an array that is read has the width asked for.
pub proof fn rows_have_the_expected_width(buf: Seq<u8>, expected_cols: nat)
    ensures
        npy_rows(buf, expected_cols) matches Ok(rows) ==> forall|i: int|
            0 <= i < rows.len() ==> (#[trigger] rows[i]).len() == expected_cols,
{
}

fn backend(message: &str) -> (r: TtsError)
    ensures
        r@ == TtsFault::Backend(message@),
{
    TtsError::Backend(message.to_owned())
}

fn read_u32(buf: &[u8], i: usize) -> (r: u32)
    requires
        i + 4 <= buf@.len(),
    ensures
        r == le_u32(buf@, i as int),
{
    buf[i] as u32 + buf[i + 1] as u32 * 0x100 + buf[i + 2] as u32 * 0x1_0000 + buf[i + 3] as u32
        * 0x100_0000
}

fn find_header(buf: &[u8]) -> (r: Result<(usize, usize), TtsError>)
    ensures
        match r {
            Ok((start, end)) => header_span(buf@) == Ok::<(int, int), TtsFault>(
                (start as int, end as int),
            ) && start <= end <= buf@.len(),
            Err(e) => header_span(buf@) == Err::<(int, int), TtsFault>(e@),
        },
{
    if buf.len() < 10 {
        return Err(backend("NPY: magic header ausente"));
    }
    let ghost magic = seq![0x93u8, 0x4E, 0x55, 0x4D, 0x50, 0x59];
    if !(buf[0] == 0x93 && buf[1] == 0x4E && buf[2] == 0x55 && buf[3] == 0x4D && buf[4] == 0x50
        && buf[5] == 0x59) {
        proof {
            let head = buf@.subrange(0, 6);
            assert(head[0] == buf@[0] && head[1] == buf@[1] && head[2] == buf@[2]);
            assert(head[3] == buf@[3] && head[4] == buf@[4] && head[5] == buf@[5]);
            assert(head != magic) by {
                if head == magic {
                    assert(head[0] == 0x93 && head[1] == 0x4E && head[2] == 0x55);
                    assert(head[3] == 0x4D && head[4] == 0x50 && head[5] == 0x59);
                }
            }
        }
        return Err(backend("NPY: magic header ausente"));
    }
    assert(buf@.subrange(0, 6) =~= magic);
    let major: u8 = buf[6];
    let minor: u8 = buf[7];
    if major < 1 || major > 3 {
        let mut message = "NPY: versión no soportada ".to_owned();
        message.append(decimal_text(major as u64).as_str());
        message.append(".");
        message.append(decimal_text(minor as u64).as_str());
        return Err(TtsError::Backend(message));
    }
    let (start, len): (usize, usize) = if major == 1 {
        (10, buf[8] as usize + buf[9] as usize * 0x100)
    } else {
        if buf.len() < 12 {
            return Err(backend("NPY: header_len excede el archivo"));
        }
        (12, read_u32(buf, 8) as usize)
    };
    if len > usize::MAX - start {
        return Err(backend("NPY: header_len overflow"));
    }
    if start + len > buf.len() {
        return Err(backend("NPY: header_len excede el archivo"));
    }
    Ok((start, start + len))
}

fn list_dims(dims: &Vec<usize>) -> (r: String)
    ensures
        r@ == dims_text(nats(dims@)),
{
    let mut parts: Vec<String> = Vec::new();
    let ghost numeral = |d: nat| decimal(d);
    let mut i: usize = 0;
    while i < dims.len()
        invariant
            i <= dims@.len(),
            numeral == (|d: nat| decimal(d)),
            texts(parts@) == nats(dims@).take(i as int).map_values(numeral),
        decreases dims@.len() - i,
    {
        let part = decimal_text(dims[i] as u64);
        let ghost before = parts@;
        parts.push(part);
        assert(texts(parts@) =~= texts(before).push(part@));
        assert(nats(dims@).take(i + 1).map_values(numeral) =~= nats(dims@).take(
            i as int,
        ).map_values(numeral).push(part@));
        i += 1;
    }
    assert(nats(dims@).take(i as int) =~= nats(dims@));
    "[".to_owned().concat(join(&parts, ", ").as_str()).concat("]")
}

fn read_shape(header: &str) -> (r: Result<(usize, usize), TtsError>)
    ensures
        match r {
            Ok((rows, cols)) => declared_shape(header@) == Ok::<(nat, nat), TtsFault>(
                (rows as nat, cols as nat),
            ),
            Err(e) => declared_shape(header@) == Err::<(nat, nat), TtsFault>(e@),
        },
{
    let descr = match header_field_str(header, "descr") {
        Some(descr) => descr,
        None => {
            return Err(backend("NPY: falta 'descr'"));
        },
    };
    if !text_eq(descr.as_str(), "<f4") {
        let message = "NPY: dtype '".to_owned().concat(descr.as_str()).concat(
            "' no soportado (esperaba '<f4')",
        );
        return Err(TtsError::Backend(message));
    }
    let order = match header_field_str(header, "fortran_order") {
        Some(order) => order,
        None => {
            return Err(backend("NPY: falta 'fortran_order'"));
        },
    };
    if !text_eq(order.as_str(), "False") {
        let message = "NPY: fortran_order=".to_owned().concat(order.as_str()).concat(
            " no soportado",
        );
        return Err(TtsError::Backend(message));
    }
    let shape = match header_field_str(header, "shape") {
        Some(shape) => shape,
        None => {
            return Err(backend("NPY: falta 'shape'"));
        },
    };
    let dims = match parse_shape_tuple(shape.as_str()) {
        Ok(dims) => dims,
        Err(e) => {
            return Err(e);
        },
    };
    assert(nats(dims@).len() == dims@.len());
    if dims.len() == 2 {
        Ok((dims[0], dims[1]))
    } else if dims.len() == 3 && dims[1] == 1 {
        Ok((dims[0], dims[2]))
    } else if dims.len() == 3 && dims[0] == 1 {
        Ok((dims[1], dims[2]))
    } else {
        let message =
            "NPY: shape debe ser 2D o 3D con dimensión singleton, obtuve ".to_owned().concat(
            list_dims(&dims).as_str(),
        );
        Err(TtsError::Backend(message))
    }
}

/// Reads row `r` of an array whose values begin at position `at`.
fn read_row(buf: &[u8], at: usize, rows: usize, cols: usize, r: usize) -> (out: Vec<u32>)
    requires
        r < rows,
        at + 4 * (rows * cols) <= buf@.len(),
    ensures
        out@ == array_row(buf@, at as int, cols as nat, r as int),
{
    let n: usize = buf.len();
    let mut out: Vec<u32> = Vec::new();
    assert(r * cols + cols <= rows * cols) by (nonlinear_arith)
        requires
            r < rows,
            0 <= cols,
    ;
    assert(0 <= r * cols) by (nonlinear_arith)
        requires
            0 <= r,
            0 <= cols,
    ;
    let start: usize = at + 4 * (r * cols);
    let mut c: usize = 0;
    while c < cols
        invariant
            c <= cols,
            n == buf@.len(),
            start == at + 4 * (r * cols),
            start + 4 * cols <= n,
            out@ == array_row(buf@, at as int, cols as nat, r as int).take(c as int),
        decreases cols - c,
    {
        out.push(read_u32(buf, start + 4 * c));
        assert(out@ =~= array_row(buf@, at as int, cols as nat, r as int).take(c + 1));
        c += 1;
    }
    assert(out@ =~= array_row(buf@, at as int, cols as nat, r as int));
    out
}

/// The contents of a table of rows.
pub open spec fn table(rows: Seq<Vec<u32>>) -> Seq<Seq<u32>> {
    rows.map_values(|row: Vec<u32>| row@)
}

/// The value of what reading an array gives.
pub open spec fn table_view(r: Result<Vec<Vec<u32>>, TtsError>) -> Result<
    Seq<Seq<u32>>,
    TtsFault,
> {
    match r {
        Ok(rows) => Ok(table(rows@)),
        Err(e) => Err(e@),
    }
}

fn read_values(buf: &[u8], at: usize, rows: usize, cols: usize, expected_cols: usize) -> (r: Result<
    Vec<Vec<u32>>,
    TtsError,
>)
    requires
        at <= buf@.len(),
    ensures
        table_view(r) == array_values(
            buf@,
            at as int,
            rows as nat,
            cols as nat,
            expected_cols as nat,
        ),
{
    if cols != expected_cols {
        let mut message = "NPY: dimensión de estilo ".to_owned();
        message.append(decimal_text(cols as u64).as_str());
        message.append(" != ");
        message.append(decimal_text(expected_cols as u64).as_str());
        message.append(" — ¿archivo de otra versión de Kokoro?");
        return Err(TtsError::InvalidVoiceConfig(message));
    }
    let bytes: usize = match rows.checked_mul(cols) {
        Some(count) => match count.checked_mul(4) {
            Some(bytes) => bytes,
            None => {
                return Err(backend("NPY: tamaño overflow"));
            },
        },
        None => {
            return Err(backend("NPY: tamaño overflow"));
        },
    };
    let available: usize = buf.len() - at;
    if available < bytes {
        let mut message = "NPY: data corta (".to_owned();
        message.append(decimal_text(available as u64).as_str());
        message.append(" bytes, esperaba ");
        message.append(decimal_text(bytes as u64).as_str());
        message.append(")");
        return Err(TtsError::Backend(message));
    }
    let ghost all = array_rows(buf@, at as int, rows as nat, cols as nat);
    let mut out: Vec<Vec<u32>> = Vec::new();
    assert(table(out@) =~= all.take(0));
    let mut i: usize = 0;
    while i < rows
        invariant
            i <= rows,
            at + 4 * (rows * cols) <= buf@.len(),
            all == array_rows(buf@, at as int, rows as nat, cols as nat),
            table(out@) == all.take(i as int),
        decreases rows - i,
    {
        let row = read_row(buf, at, rows, cols, i);
        let ghost before = out@;
        out.push(row);
        assert(table(out@) =~= table(before).push(row@));
        assert(all.take(i + 1) =~= all.take(i as int).push(all[i as int]));
        i += 1;
    }
    assert(all.take(i as int) =~= all);
    Ok(out)
}

/// Reads an array of 32-bit floats whose rows have `expected_cols` values. The
/// values come as the bit patterns of the floats.
pub fn parse_npy_float32_2d(buf: &[u8], expected_cols: usize) -> (r: Result<
    Vec<Vec<u32>>,
    TtsError,
>)
    ensures
        table_view(r) == npy_rows(buf@, expected_cols as nat),
{
    let (start, end): (usize, usize) = match find_header(buf) {
        Ok(span) => span,
        Err(e) => {
            return Err(e);
        },
    };
    let header = match text_from_utf8(slice_subrange(buf, start, end)) {
        Ok(header) => header,
        Err(e) => {
            return Err(
                TtsError::Backend("NPY: header no UTF-8: ".to_owned().concat(e.as_str())),
            );
        },
    };
    match read_shape(header.as_str()) {
        Ok((rows, cols)) => read_values(buf, end, rows, cols, expected_cols),
        Err(e) => Err(e),
    }
}

// ---------------------------------------------------------------------------
// Laws
// ---------------------------------------------------------------------------

/// Whether a piece of a shape is there and is no number.
pub open spec fn is_no_dimension(piece: Seq<char>) -> bool {
    piece.len() > 0 && number_of(piece) is Err
}

/// The numbers of the pieces that are not empty, in order.
pub open spec fn dimensions(pieces: Seq<Seq<char>>) -> Seq<nat> {
    pieces.filter(|piece: Seq<char>| piece.len() > 0).map_values(
        |piece: Seq<char>| number_of(piece)->Ok_0,
    )
}

proof fn lemma_dims_of_pieces(parts: Seq<Seq<char>>, n: int)
    requires
        0 <= n <= parts.len(),
    ensures
        ({
            let pieces = parts.map_values(|part: Seq<char>| trimmed(part)).take(n);
            match dims_first(parts, n) {
                Ok(dims) => dims == dimensions(pieces) && forall|i: int|
                    0 <= i < n ==> !is_no_dimension(#[trigger] pieces[i]),
                Err(fault) => fault is Backend && exists|i: int|
                    0 <= i < n && is_no_dimension(#[trigger] pieces[i]),
            }
        }),
    decreases n,
{
    reveal(Seq::filter);
    let all = parts.map_values(|part: Seq<char>| trimmed(part));
    let pieces = all.take(n);
    if n == 0 {
        assert(dimensions(pieces) =~= Seq::empty());
    } else {
        lemma_dims_of_pieces(parts, n - 1);
        let before = all.take(n - 1);
        assert(pieces.drop_last() =~= before);
        assert(pieces.last() == trimmed(parts[n - 1]));
        assert(forall|i: int| 0 <= i < n - 1 ==> pieces[i] == #[trigger] before[i]);
        if dims_first(parts, n - 1) is Err {
            let i = choose|i: int| 0 <= i < n - 1 && is_no_dimension(#[trigger] before[i]);
            assert(is_no_dimension(pieces[i]));
        } else {
            assert forall|i: int| 0 <= i < n - 1 implies !is_no_dimension(
                #[trigger] pieces[i],
            ) by {
                assert(!is_no_dimension(before[i]));
            }
            if dims_first(parts, n) is Ok {
                assert(dims_first(parts, n)->Ok_0 =~= dimensions(pieces));
            } else {
                assert(is_no_dimension(pieces[n - 1]));
            }
        }
    }
}

proof fn lemma_shape_of_pieces(s: Seq<char>)
    ensures
        ({
            let pieces = comma_pieces(without_parens(trimmed(s)));
            match shape_dims(s) {
                Ok(dims) => dims == dimensions(pieces) && forall|i: int|
                    0 <= i < pieces.len() ==> !is_no_dimension(#[trigger] pieces[i]),
                Err(fault) => fault is Backend && exists|i: int|
                    0 <= i < pieces.len() && is_no_dimension(#[trigger] pieces[i]),
            }
        }),
{
    let parts = split_commas(without_parens(trimmed(s)));
    let pieces = comma_pieces(without_parens(trimmed(s)));
    lemma_dims_of_pieces(parts, parts.len() as int);
    assert(pieces.take(parts.len() as int) =~= pieces);
}

/// A shape is refused exactly where one of its pieces between commas, without
/// the white space around it, is neither empty nor a number. Else it lists the
/// numbers of the pieces that are not empty, in order.
pub proof fn a_shape_lists_its_numbers(s: Seq<char>)
    ensures
        ({
            let pieces = comma_pieces(without_parens(trimmed(s)));
            let refused = exists|i: int|
                0 <= i < pieces.len() && is_no_dimension(#[trigger] pieces[i]);
            &&& refused <==> shape_dims(s) is Err
            &&& refused ==> shape_dims(s)->Err_0 is Backend
            &&& !refused ==> shape_dims(s) == Ok::<Seq<nat>, TtsFault>(dimensions(pieces))
        }),
{
    lemma_shape_of_pieces(s);
}

proof fn lemma_same_pieces(p: Seq<Seq<char>>, q: Seq<Seq<char>>, n: int)
    requires
        0 <= n <= p.len(),
        n <= q.len(),
        forall|i: int| 0 <= i < n ==> trimmed(#[trigger] p[i]) == trimmed(q[i]),
    ensures
        dims_first(p, n) == dims_first(q, n),
    decreases n,
{
    if n > 0 {
        lemma_same_pieces(p, q, n - 1);
        assert(trimmed(p[n - 1]) == trimmed(q[n - 1]));
    }
}

proof fn lemma_dims_by_pieces(s: Seq<char>, t: Seq<char>)
    requires
        comma_pieces(s) == comma_pieces(t),
    ensures
        dims_first(split_commas(s), split_commas(s).len() as int) == dims_first(
            split_commas(t),
            split_commas(t).len() as int,
        ),
{
    let p = split_commas(s);
    let q = split_commas(t);
    assert(comma_pieces(s).len() == p.len());
    assert(comma_pieces(t).len() == q.len());
    assert forall|i: int| 0 <= i < p.len() implies trimmed(#[trigger] p[i]) == trimmed(q[i]) by {
        assert(comma_pieces(s)[i] == trimmed(p[i]));
        assert(comma_pieces(t)[i] == trimmed(q[i]));
    }
    lemma_same_pieces(p, q, p.len() as int);
}

/// A shape is the same with and without the parentheses around it, and with
/// and without a comma at its end.
pub proof fn parentheses_and_a_last_comma_do_not_matter(s: Seq<char>)
    requires
        forall|i: int| 0 <= i < s.len() ==> s[i] != '(' && s[i] != ')',
    ensures
        shape_dims(seq!['('] + s + seq![')']) == shape_dims(s),
        shape_dims(s.push(',')) == shape_dims(s),
{
    // Without parentheses the pieces are those of the text itself.
    lemma_trimmed_is_part(s);
    let bare = trimmed(s);
    assert(without_parens(bare) == bare);
    pieces_ignore_white_space(s);
    lemma_dims_by_pieces(bare, s);
    // With parentheses nothing is trimmed, and the text stands between them.
    let wrapped = seq!['('] + s + seq![')'];
    assert(wrapped.first() == '(' && wrapped.last() == ')');
    assert(trimmed(wrapped) == wrapped);
    assert(without_parens(wrapped) =~= s);
    // The comma adds a piece that does not count.
    let longer = s.push(',');
    lemma_trimmed_is_part(longer);
    assert(without_parens(trimmed(longer)) == trimmed(longer));
    pieces_ignore_white_space(longer);
    lemma_dims_by_pieces(trimmed(longer), longer);
    a_last_comma_adds_an_empty_piece(s);
    let p = split_commas(s);
    let q = split_commas(longer);
    let n = p.len() as int;
    assert(comma_pieces(s).len() == n);
    assert(comma_pieces(longer).len() == q.len());
    assert forall|i: int| 0 <= i < n implies trimmed(#[trigger] p[i]) == trimmed(q[i]) by {
        assert(comma_pieces(s)[i] == trimmed(p[i]));
        assert(comma_pieces(longer)[i] == trimmed(q[i]));
    }
    lemma_same_pieces(p, q, n);
    assert(trimmed(q[n]) == comma_pieces(longer)[n]);
}

/// The bytes of a number can be read back from it, the low one first.
pub proof fn the_low_byte_comes_first(b: Seq<u8>, i: int)
    ensures
        le_u16(b, i) % 0x100 == b[i] && le_u16(b, i) / 0x100 == b[i + 1],
        le_u32(b, i) % 0x100 == b[i] && le_u32(b, i) / 0x100 % 0x100 == b[i + 1] && le_u32(b, i)
            / 0x1_0000 % 0x100 == b[i + 2] && le_u32(b, i) / 0x100_0000 == b[i + 3],
{
}

/// The header begins behind its length, which takes two bytes in the first
/// version of the format and four in the others, and is as long as that says.
pub proof fn the_header_is_as_long_as_it_says(buf: Seq<u8>)
    ensures
        header_span(buf) matches Ok((start, end)) ==> {
            &&& buf.take(6) == seq![0x93u8, 78, 85, 77, 80, 89]
            &&& 1 <= buf[6] <= 3
            &&& buf[6] == 1 ==> start == 10 && end - start == buf[8] + 256 * buf[9]
            &&& buf[6] != 1 ==> start == 12 && end - start == le_u32(buf, 8)
            &&& end <= buf.len()
        },
        buf.len() >= 10 && buf.take(6) != seq![0x93u8, 78, 85, 77, 80, 89] ==> header_span(buf)
            is Err,
{
    if buf.len() >= 10 {
        assert(buf.take(6) =~= buf.subrange(0, 6));
    }
}

/// Whatever the shape, the last dimension is the width, no value is lost, and a
/// shape is refused that is neither a table nor one with a dimension of one in
/// its first two.
pub proof fn a_table_keeps_its_values(dims: Seq<nat>)
    ensures
        match rows_and_cols(dims) {
            Ok((rows, cols)) => cols == dims.last() && (dims.len() == 2 ==> rows == dims[0]) && (
            dims.len() == 3 ==> rows == dims[0] * dims[1]) && (dims.len() == 2 || dims.len() == 3),
            Err(_) => dims.len() != 2 && (dims.len() == 3 ==> dims[0] != 1 && dims[1] != 1),
        },
{
    if dims.len() == 3 {
        assert(dims[0] * 1 == dims[0]) by (nonlinear_arith);
        assert(1 * dims[1] == dims[1]) by (nonlinear_arith);
    }
}

/// The rows stand one behind the other, each as its floats stand: row `r` of an
/// array is the first row of what begins `r` rows further on.
pub proof fn rows_stand_one_behind_the_other(buf: Seq<u8>, at: int, cols: nat, r: int, c: int)
    requires
        0 <= c < cols,
    ensures
        array_row(buf, at, cols, r) == array_row(buf, at + 4 * (r * cols), cols, 0),
        array_row(buf, at, cols, 0)[c] == le_u32(buf, at + 4 * c) as u32,
        array_row(buf, at, cols, r).len() == cols,
{
    assert(0 * cols == 0);
    assert(array_row(buf, at, cols, r) =~= array_row(buf, at + 4 * (r * cols), cols, 0));
}

/// An array is read only where its header is UTF-8 and declares a table of the
/// width asked for, and the file holds all its values; it then has as many rows
/// as declared.
pub proof fn an_array_holds_what_it_declares(buf: Seq<u8>, expected_cols: nat)
    ensures
        npy_rows(buf, expected_cols) matches Ok(rows) ==> (header_span(buf) matches Ok((
            start,
            end,
        )) && declared_shape(decode_utf8(buf.subrange(start, end))) == Ok::<(nat, nat), TtsFault>(
            (rows.len(), expected_cols),
        ) && valid_utf8(buf.subrange(start, end)) && end + 4 * (rows.len() * expected_cols)
            <= buf.len()),
{
    if let Ok(rows) = npy_rows(buf, expected_cols) {
        let (start, end) = header_span(buf)->Ok_0;
        let (n, cols) = declared_shape(decode_utf8(buf.subrange(start, end)))->Ok_0;
        assert(rows.len() == n);
        assert(n * cols * 4 == 4 * (n * cols));
    }
}

/// Only little-endian floats in row order are read: the header must say so in
/// its fields.
pub proof fn only_floats_in_row_order_are_read(header: Seq<char>)
    ensures
        declared_shape(header) is Ok ==> header_field(header, "descr"@) == Some(seq!['<', 'f', '4'])
            && header_field(header, "fortran_order"@) == Some(seq!['F', 'a', 'l', 's', 'e'])
            && header_field(header, "shape"@) is Some,
{
    reveal_strlit("<f4");
    reveal_strlit("False");
    assert("<f4"@ =~= seq!['<', 'f', '4']);
    assert("False"@ =~= seq!['F', 'a', 'l', 's', 'e']);
}

/// Whether a character is neither a bracket nor a comma.
pub open spec fn is_plain(c: char) -> bool {
    c != '(' && c != '[' && c != '{' && c != ')' && c != ']' && c != '}' && c != ','
}

proof fn lemma_plain_goes_on(s: Seq<char>, i: int, end: int, depth: int)
    requires
        0 <= i <= end <= s.len(),
        0 <= depth,
        forall|j: int| i <= j < end ==> is_plain(#[trigger] s[j]) || (depth > 0 && s[j] == ','),
    ensures
        value_end(s, i, depth) == value_end(s, end, depth),
    decreases end - i,
{
    if i < end {
        assert(is_plain(s[i]) || (depth > 0 && s[i] == ','));
        lemma_plain_goes_on(s, i + 1, end, depth);
    }
}

/// A value ends at the comma behind it or at the bracket that closes the header,
/// and commas between its own brackets are part of it.
#[verifier::rlimit(40)]
pub proof fn a_value_ends_at_its_comma(value: Seq<char>, stop: char, rest: Seq<char>)
    requires
        stop == ',' || stop == '}',
        forall|j: int| 0 <= j < value.len() ==> is_plain(#[trigger] value[j]) || value[j] == ',',
    ensures
        (forall|j: int| 0 <= j < value.len() ==> #[trigger] value[j] != ',') ==> value_end(
            value.push(stop) + rest,
            0,
            0,
        ) == value.len(),
        value_end(seq!['('] + value + seq![')', stop] + rest, 0, 0) == value.len() + 2,
{
    let n = value.len() as int;
    if forall|j: int| 0 <= j < value.len() ==> #[trigger] value[j] != ',' {
        let s = value.push(stop) + rest;
        assert forall|j: int| 0 <= j < n implies is_plain(#[trigger] s[j]) by {
            assert(s[j] == value[j]);
        }
        lemma_plain_goes_on(s, 0, n, 0);
        assert(s[n] == stop);
    }
    let t = seq!['('] + value + seq![')', stop] + rest;
    assert(t[0] == '(' && t[n + 1] == ')' && t[n + 2] == stop);
    assert forall|j: int| 1 <= j < n + 1 implies is_plain(#[trigger] t[j]) || t[j] == ',' by {
        assert(t[j] == value[j - 1]);
    }
    lemma_plain_goes_on(t, 1, n + 1, 1);
    reveal_with_fuel(value_end, 2);
}

/// Quotes of either kind are taken off a value that stands between two of them,
/// and what has none stays.
pub proof fn quotes_are_taken_off(inner: Seq<char>)
    ensures
        unquoted(seq!['\''] + inner + seq!['\'']) == inner,
        unquoted(seq!['"'] + inner + seq!['"']) == inner,
        inner.len() > 0 && inner[0] != '\'' && inner[0] != '"' ==> unquoted(inner) == inner,
{
    assert((seq!['\''] + inner + seq!['\'']).subrange(1, inner.len() + 1int) =~= inner);
    assert((seq!['"'] + inner + seq!['"']).subrange(1, inner.len() + 1int) =~= inner);
}

/// A key between two quotes, with the colon behind it.
pub open spec fn key_in(quote: char, key: Seq<char>) -> Seq<char> {
    seq![quote] + key + seq![quote, ':']
}

proof fn lemma_first_place(before: Seq<char>, part: Seq<char>, rest: Seq<char>)
    requires
        forall|j: int|
            0 <= j < before.len() ==> !#[trigger] stands_at(before + part + rest, part, j),
    ensures
        find_from(before + part + rest, part, 0) == Some(before.len() as int),
        (before + part + rest).skip(before.len() as int + part.len()) == rest,
{
    let all = before + part + rest;
    let at = before.len() as int;
    assert(all.subrange(at, at + part.len()) =~= part);
    assert(stands_at(all, part, at));
    lemma_find_from(all, part, 0);
    assert(all.skip(at + part.len()) =~= rest);
}

/// The value of a key stands behind the key in single quotes and a colon, at its
/// first place.
pub proof fn a_value_stands_behind_its_key(before: Seq<char>, key: Seq<char>, rest: Seq<char>)
    requires
        forall|j: int|
            0 <= j < before.len() ==> !#[trigger] stands_at(
                before + key_in('\'', key) + rest,
                key_in('\'', key),
                j,
            ),
    ensures
        header_field(before + key_in('\'', key) + rest, key) == Some(
            value_at(rest),
        ),
{
    reveal_strlit("'");
    reveal_strlit("':");
    let quoted = key_in('\'', key);
    assert("'"@ + key + "':"@ =~= quoted);
    lemma_first_place(before, quoted, rest);
}

/// Where the key stands nowhere in single quotes, its value stands behind the
/// key in double quotes and a colon.
pub proof fn a_value_stands_behind_double_quotes(
    before: Seq<char>,
    key: Seq<char>,
    rest: Seq<char>,
)
    requires
        forall|j: int|
            0 <= j < before.len() ==> !#[trigger] stands_at(
                before + key_in('"', key) + rest,
                key_in('"', key),
                j,
            ),
        forall|j: int|
            !#[trigger] stands_at(
                before + key_in('"', key) + rest,
                key_in('\'', key),
                j,
            ),
    ensures
        header_field(before + key_in('"', key) + rest, key) == Some(
            value_at(rest),
        ),
{
    reveal_strlit("'");
    reveal_strlit("':");
    reveal_strlit("\"");
    reveal_strlit("\":");
    let single = key_in('\'', key);
    let quoted = key_in('"', key);
    assert("'"@ + key + "':"@ =~= single);
    assert("\""@ + key + "\":"@ =~= quoted);
    lemma_first_place(before, quoted, rest);
    lemma_find_from(before + quoted + rest, single, 0);
}

/// A dimension that is no number is told by the words for what is wrong with it.
pub proof fn a_bad_dimension_is_told(fault: NumberFault)
    ensures
        fault == NumberFault::InvalidDigit <==> number_fault_text(fault)
            == "invalid digit found in string"@,
        fault == NumberFault::TooLarge <==> number_fault_text(fault)
            == "number too large to fit in target type"@,
{
    reveal_strlit("invalid digit found in string");
    reveal_strlit("number too large to fit in target type");
    assert("invalid digit found in string"@[0] == 'i');
    assert("number too large to fit in target type"@[0] == 'n');
}

/// What is wrong with a header is told: a field that is missing by its name, and
/// values that are of another type or in another order by what they are.
pub proof fn a_bad_header_is_told(header: Seq<char>)
    ensures
        ({
            let descr = header_field(header, "descr"@);
            let order = header_field(header, "fortran_order"@);
            let shape = header_field(header, "shape"@);
            let r = declared_shape(header);
            &&& descr is None ==> r == Err::<(nat, nat), TtsFault>(
                TtsFault::Backend("NPY: falta 'descr'"@),
            )
            &&& descr matches Some(x) ==> (x != "<f4"@ ==> r == Err::<(nat, nat), TtsFault>(
                TtsFault::Backend("NPY: dtype '"@ + x + "' no soportado (esperaba '<f4')"@),
            ))
            &&& descr == Some("<f4"@) && order is None ==> r == Err::<(nat, nat), TtsFault>(
                TtsFault::Backend("NPY: falta 'fortran_order'"@),
            )
            &&& descr == Some("<f4"@) && order is Some && order != Some("False"@) ==> r == Err::<
                (nat, nat),
                TtsFault,
            >(TtsFault::Backend("NPY: fortran_order="@ + order->0 + " no soportado"@))
            &&& descr == Some("<f4"@) && order == Some("False"@) && shape is None ==> r == Err::<
                (nat, nat),
                TtsFault,
            >(TtsFault::Backend("NPY: falta 'shape'"@))
        }),
{
}

/// What is wrong with the beginning of a file is told: that it is no array, of
/// another version, or cut off inside its header.
pub proof fn a_bad_beginning_is_told(buf: Seq<u8>)
    ensures
        buf.len() < 10 || buf.subrange(0, 6) != seq![0x93u8, 78, 85, 77, 80, 89] ==> header_span(buf)
            == Err::<(int, int), TtsFault>(TtsFault::Backend("NPY: magic header ausente"@)),
        has_magic(buf) && !(1 <= buf[6] <= 3) ==> header_span(buf) == Err::<(int, int), TtsFault>(
            TtsFault::Backend(
                "NPY: versión no soportada "@ + decimal(buf[6] as nat) + "."@ + decimal(
                    buf[7] as nat,
                ),
            ),
        ),
        has_magic(buf) && buf[6] == 1 && 10 + le_u16(buf, 8) > buf.len() && 10 + le_u16(buf, 8)
            <= usize::MAX ==> header_span(buf) == Err::<(int, int), TtsFault>(
            TtsFault::Backend("NPY: header_len excede el archivo"@),
        ),
        has_magic(buf) && buf[6] == 1 && 10 + le_u16(buf, 8) <= buf.len() <= usize::MAX
            ==> header_span(buf) is Ok,
{
}

/// What is wrong with the values is told: another width than that of a style, or
/// a file that ends before they do.
pub proof fn bad_values_are_told(
    buf: Seq<u8>,
    at: int,
    rows: nat,
    cols: nat,
    expected_cols: nat,
)
    ensures
        ({
            let r = array_values(buf, at, rows, cols, expected_cols);
            &&& cols != expected_cols ==> r == Err::<Seq<Seq<u32>>, TtsFault>(
                TtsFault::InvalidVoiceConfig(
                    "NPY: dimensión de estilo "@ + decimal(cols) + " != "@ + decimal(expected_cols)
                        + " — ¿archivo de otra versión de Kokoro?"@,
                ),
            )
            &&& cols == expected_cols && rows * cols * 4 <= usize::MAX && rows * cols <= usize::MAX
                ==> (r is Ok <==> at + rows * cols * 4 <= buf.len())
            &&& r is Err && cols == expected_cols && rows * cols * 4 <= usize::MAX && rows * cols
                <= usize::MAX ==> r == Err::<Seq<Seq<u32>>, TtsFault>(
                TtsFault::Backend(
                    "NPY: data corta ("@ + decimal((buf.len() - at) as nat) + " bytes, esperaba "@
                        + decimal(rows * cols * 4) + ")"@,
                ),
            )
        }),
{
}

/// A shape that is no table is told by its dimensions in brackets.
pub proof fn a_bad_shape_is_told(dims: Seq<nat>)
    ensures
        rows_and_cols(dims) matches Err(fault) ==> fault == TtsFault::Backend(
            "NPY: shape debe ser 2D o 3D con dimensión singleton, obtuve "@ + "["@ + joined(
                dims.map_values(|d: nat| decimal(d)),
                ", "@,
            ) + "]"@,
        ),
{
    let head = "NPY: shape debe ser 2D o 3D con dimensión singleton, obtuve "@;
    let inner = joined(dims.map_values(|d: nat| decimal(d)), ", "@);
    assert(head + dims_text(dims) =~= head + "["@ + inner + "]"@);
}

} // verus!

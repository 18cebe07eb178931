//! A generic structured value and its parser.
//!
//! The metadata blocks of a manifest and the body of a license response are
//! JSON; the pipeline decodes them into the value type below. The parser is
//! written twice: once as a specification over byte sequences, once as
//! executable code proved equal to it, so parsing is a mathematical function
//! of the input bytes.
//!
//! The grammar is the JSON object grammar over raw bytes, with two deliberate
//! restrictions of this defensive subset: numbers are kept as their lexemes
//! (never converted, so no floating point enters the library), and the only
//! string escapes accepted are the eight single-character ones (a `\u` escape
//! is rejected as malformed input). Objects keep their members in order,
//! duplicates included; every lookup takes the first occurrence of a key.

use vstd::prelude::*;

verus! {

pub const QUOTE: u8 = 34;
pub const BACKSLASH: u8 = 92;
pub const SLASH: u8 = 47;
pub const LBRACE: u8 = 123;
pub const RBRACE: u8 = 125;
pub const LBRACKET: u8 = 91;
pub const RBRACKET: u8 = 93;
pub const COLON: u8 = 58;
pub const COMMA: u8 = 44;
pub const MINUS: u8 = 45;
pub const PLUS: u8 = 43;
pub const DOT: u8 = 46;
pub const DIGIT_ZERO: u8 = 48;
pub const DIGIT_NINE: u8 = 57;
pub const LOWER_E: u8 = 101;
pub const UPPER_E: u8 = 69;

/// A parsed JSON value. Strings and object keys are raw byte sequences;
/// numbers keep their lexeme.
pub enum JsonValue {
    Null,
    Bool(bool),
    Number(Vec<u8>),
    Str(Vec<u8>),
    Array(Vec<JsonValue>),
    Object(Vec<(Vec<u8>, JsonValue)>),
}

/// The mathematical shape of a parsed JSON value.
pub enum SpecJson {
    Null,
    Bool(bool),
    Number(Seq<u8>),
    Str(Seq<u8>),
    Array(Seq<SpecJson>),
    Object(Seq<(Seq<u8>, SpecJson)>),
}

/// The shape of a value.
pub open spec fn jv_view(v: JsonValue) -> SpecJson
    decreases v,
{
    match v {
        JsonValue::Null => SpecJson::Null,
        JsonValue::Bool(b) => SpecJson::Bool(b),
        JsonValue::Number(n) => SpecJson::Number(n@),
        JsonValue::Str(s) => SpecJson::Str(s@),
        JsonValue::Array(items) => SpecJson::Array(jv_views(items@)),
        JsonValue::Object(fields) => SpecJson::Object(jm_views(fields@)),
    }
}

/// The shapes of a sequence of values.
pub open spec fn jv_views(s: Seq<JsonValue>) -> Seq<SpecJson>
    decreases s,
{
    if s.len() == 0 {
        Seq::<SpecJson>::empty()
    } else {
        seq![jv_view(s[0])] + jv_views(s.skip(1))
    }
}

/// The shapes of a sequence of object members.
pub open spec fn jm_views(s: Seq<(Vec<u8>, JsonValue)>) -> Seq<(Seq<u8>, SpecJson)>
    decreases s,
{
    if s.len() == 0 {
        Seq::<(Seq<u8>, SpecJson)>::empty()
    } else {
        seq![(s[0].0@, jv_view(s[0].1))] + jm_views(s.skip(1))
    }
}

impl View for JsonValue {
    type V = SpecJson;

    open spec fn view(&self) -> SpecJson {
        jv_view(*self)
    }
}

pub open spec fn is_ws(b: u8) -> bool {
    b == 32 || b == 9 || b == 10 || b == 13
}

pub open spec fn is_digit(b: u8) -> bool {
    DIGIT_ZERO <= b <= DIGIT_NINE
}

/// First position at or after `i` that does not hold whitespace.
pub open spec fn sp_ws(s: Seq<u8>, i: int) -> int
    decreases s.len() - i,
{
    if 0 <= i < s.len() && is_ws(s[i]) {
        sp_ws(s, i + 1)
    } else {
        i
    }
}

/// First position at or after `i` that does not hold a digit.
pub open spec fn sp_digits(s: Seq<u8>, i: int) -> int
    decreases s.len() - i,
{
    if 0 <= i < s.len() && is_digit(s[i]) {
        sp_digits(s, i + 1)
    } else {
        i
    }
}

/// The byte a single-character escape stands for, if the escape is accepted.
pub open spec fn sp_escape(e: u8) -> Option<u8> {
    if e == QUOTE {
        Some(QUOTE)
    } else if e == BACKSLASH {
        Some(BACKSLASH)
    } else if e == SLASH {
        Some(SLASH)
    } else if e == 98 {
        Some(8)
    } else if e == 102 {
        Some(12)
    } else if e == 110 {
        Some(10)
    } else if e == 114 {
        Some(13)
    } else if e == 116 {
        Some(9)
    } else {
        None
    }
}

/// String body from `i` (after the opening quote): the content bytes and the
/// position after the closing quote.
pub open spec fn sp_string_rest(s: Seq<u8>, i: int) -> Option<(Seq<u8>, int)>
    decreases s.len() - i,
{
    if i < 0 || i >= s.len() {
        None
    } else if s[i] == QUOTE {
        Some((Seq::<u8>::empty(), i + 1))
    } else if s[i] == BACKSLASH {
        if i + 1 >= s.len() {
            None
        } else {
            match sp_escape(s[i + 1]) {
                Some(b) => match sp_string_rest(s, i + 2) {
                    Some((r, j)) => Some((seq![b] + r, j)),
                    None => None,
                },
                None => None,
            }
        }
    } else if s[i] < 0x20 {
        None
    } else {
        match sp_string_rest(s, i + 1) {
            Some((r, j)) => Some((seq![s[i]] + r, j)),
            None => None,
        }
    }
}

/// Number lexeme from `i`: sign, integer part, optional fraction, optional
/// exponent, kept verbatim.
pub open spec fn sp_number(s: Seq<u8>, i: int) -> Option<(Seq<u8>, int)> {
    if i < 0 || i >= s.len() {
        None
    } else {
        let p = if s[i] == MINUS {
            i + 1
        } else {
            i
        };
        if p >= s.len() || !is_digit(s[p]) {
            None
        } else {
            let ip = if s[p] == DIGIT_ZERO {
                p + 1
            } else {
                sp_digits(s, p)
            };
            let fp = if ip < s.len() && s[ip] == DOT {
                if sp_digits(s, ip + 1) == ip + 1 {
                    -1
                } else {
                    sp_digits(s, ip + 1)
                }
            } else {
                ip
            };
            if fp < 0 {
                None
            } else {
                let ep = if fp < s.len() && (s[fp] == LOWER_E || s[fp] == UPPER_E) {
                    let q = if fp + 1 < s.len() && (s[fp + 1] == PLUS || s[fp + 1] == MINUS) {
                        fp + 2
                    } else {
                        fp + 1
                    };
                    if sp_digits(s, q) == q {
                        -1
                    } else {
                        sp_digits(s, q)
                    }
                } else {
                    fp
                };
                if ep < 0 {
                    None
                } else {
                    Some((s.subrange(i, ep), ep))
                }
            }
        }
    }
}

/// Value at `i`, after optional whitespace: the value and the position after it.
pub open spec fn sp_value(s: Seq<u8>, i: int) -> Option<(SpecJson, int)>
    decreases s.len() - i, 0int,
{
    let j = sp_ws(s, i);
    if j < i || j >= s.len() {
        None
    } else if s[j] == LBRACE {
        match sp_object_body(s, j + 1) {
            Some((fields, k)) => Some((SpecJson::Object(fields), k)),
            None => None,
        }
    } else if s[j] == LBRACKET {
        match sp_array_body(s, j + 1) {
            Some((items, k)) => Some((SpecJson::Array(items), k)),
            None => None,
        }
    } else if s[j] == QUOTE {
        match sp_string_rest(s, j + 1) {
            Some((r, k)) => Some((SpecJson::Str(r), k)),
            None => None,
        }
    } else if s[j] == 116 {
        if j + 4 <= s.len() && s[j + 1] == 114 && s[j + 2] == 117 && s[j + 3] == 101 {
            Some((SpecJson::Bool(true), j + 4))
        } else {
            None
        }
    } else if s[j] == 102 {
        if j + 5 <= s.len() && s[j + 1] == 97 && s[j + 2] == 108 && s[j + 3] == 115 && s[j + 4]
            == 101 {
            Some((SpecJson::Bool(false), j + 5))
        } else {
            None
        }
    } else if s[j] == 110 {
        if j + 4 <= s.len() && s[j + 1] == 117 && s[j + 2] == 108 && s[j + 3] == 108 {
            Some((SpecJson::Null, j + 4))
        } else {
            None
        }
    } else if s[j] == MINUS || is_digit(s[j]) {
        match sp_number(s, j) {
            Some((r, k)) => Some((SpecJson::Number(r), k)),
            None => None,
        }
    } else {
        None
    }
}

/// Array body after the opening bracket.
pub open spec fn sp_array_body(s: Seq<u8>, i: int) -> Option<(Seq<SpecJson>, int)>
    decreases s.len() - i, 2int,
{
    let j = sp_ws(s, i);
    if j < i || j >= s.len() {
        None
    } else if s[j] == RBRACKET {
        Some((Seq::<SpecJson>::empty(), j + 1))
    } else {
        sp_array_items(s, j)
    }
}

/// One or more comma-separated array items from `i`.
pub open spec fn sp_array_items(s: Seq<u8>, i: int) -> Option<(Seq<SpecJson>, int)>
    decreases s.len() - i, 1int,
{
    if i < 0 {
        None
    } else {
        match sp_value(s, i) {
            Some((v, j)) => if j <= i {
                None
            } else {
                let k = sp_ws(s, j);
                if k < j || k >= s.len() {
                    None
                } else if s[k] == RBRACKET {
                    Some((seq![v], k + 1))
                } else if s[k] == COMMA {
                    match sp_array_items(s, k + 1) {
                        Some((rest, m)) => Some((seq![v] + rest, m)),
                        None => None,
                    }
                } else {
                    None
                }
            },
            None => None,
        }
    }
}

/// Object body after the opening brace.
pub open spec fn sp_object_body(s: Seq<u8>, i: int) -> Option<(Seq<(Seq<u8>, SpecJson)>, int)>
    decreases s.len() - i, 2int,
{
    let j = sp_ws(s, i);
    if j < i || j >= s.len() {
        None
    } else if s[j] == RBRACE {
        Some((Seq::<(Seq<u8>, SpecJson)>::empty(), j + 1))
    } else {
        sp_object_members(s, j)
    }
}

/// One or more comma-separated `"key": value` members from `i`.
pub open spec fn sp_object_members(s: Seq<u8>, i: int) -> Option<(Seq<(Seq<u8>, SpecJson)>, int)>
    decreases s.len() - i, 1int,
{
    let j0 = sp_ws(s, i);
    if j0 < i || j0 >= s.len() || s[j0] != QUOTE {
        None
    } else {
        match sp_string_rest(s, j0 + 1) {
            Some((key, j)) => if j <= i {
                None
            } else {
                let k = sp_ws(s, j);
                if k < j || k >= s.len() || s[k] != COLON {
                    None
                } else {
                    match sp_value(s, k + 1) {
                        Some((v, m)) => if m <= k {
                            None
                        } else {
                            let p = sp_ws(s, m);
                            if p < m || p >= s.len() {
                                None
                            } else if s[p] == RBRACE {
                                Some((seq![(key, v)], p + 1))
                            } else if s[p] == COMMA {
                                match sp_object_members(s, p + 1) {
                                    Some((rest, q)) => Some((seq![(key, v)] + rest, q)),
                                    None => None,
                                }
                            } else {
                                None
                            }
                        },
                        None => None,
                    }
                }
            },
            None => None,
        }
    }
}

/// A whole document: one value with nothing but whitespace around it.
pub open spec fn sp_json(s: Seq<u8>) -> Option<SpecJson> {
    match sp_value(s, 0) {
        Some((v, j)) => if sp_ws(s, j) == s.len() {
            Some(v)
        } else {
            None
        },
        None => None,
    }
}


/// View of a value sequence, pointwise.
pub proof fn lemma_jv_views_len(s: Seq<JsonValue>)
    ensures
        jv_views(s).len() == s.len(),
    decreases s.len(),
{
    if s.len() > 0 {
        lemma_jv_views_len(s.skip(1));
    }
}

/// View of a value sequence, pointwise.
pub proof fn lemma_jv_views_index(s: Seq<JsonValue>, i: int)
    requires
        0 <= i < s.len(),
    ensures
        jv_views(s).len() == s.len(),
        jv_views(s)[i] == jv_view(s[i]),
    decreases i,
{
    lemma_jv_views_len(s);
    if i > 0 {
        lemma_jv_views_index(s.skip(1), i - 1);
    }
}

/// View of a member sequence, pointwise.
pub proof fn lemma_jm_views_len(s: Seq<(Vec<u8>, JsonValue)>)
    ensures
        jm_views(s).len() == s.len(),
    decreases s.len(),
{
    if s.len() > 0 {
        lemma_jm_views_len(s.skip(1));
    }
}

/// View of a member sequence, pointwise.
pub proof fn lemma_jm_views_index(s: Seq<(Vec<u8>, JsonValue)>, i: int)
    requires
        0 <= i < s.len(),
    ensures
        jm_views(s).len() == s.len(),
        jm_views(s)[i] == (s[i].0@, jv_view(s[i].1)),
    decreases i,
{
    lemma_jm_views_len(s);
    if i > 0 {
        lemma_jm_views_index(s.skip(1), i - 1);
    }
}

/// The value under the first occurrence of `key` among object members.
pub open spec fn sp_obj_get(fields: Seq<(Seq<u8>, SpecJson)>, key: Seq<u8>) -> Option<SpecJson>
    decreases fields.len(),
{
    if fields.len() == 0 {
        None
    } else if fields[0].0 == key {
        Some(fields[0].1)
    } else {
        sp_obj_get(fields.skip(1), key)
    }
}

/// The lookup finds the first member whose key matches.
pub proof fn lemma_sp_obj_get_at(fields: Seq<(Seq<u8>, SpecJson)>, key: Seq<u8>, i: int)
    requires
        0 <= i < fields.len(),
        fields[i].0 == key,
        forall|j: int| 0 <= j < i ==> fields[j].0 != key,
    ensures
        sp_obj_get(fields, key) == Some(fields[i].1),
    decreases i,
{
    if i > 0 {
        lemma_sp_obj_get_at(fields.skip(1), key, i - 1);
    }
}

/// The lookup misses exactly when no member key matches.
pub proof fn lemma_sp_obj_get_none(fields: Seq<(Seq<u8>, SpecJson)>, key: Seq<u8>)
    requires
        forall|j: int| 0 <= j < fields.len() ==> fields[j].0 != key,
    ensures
        sp_obj_get(fields, key) is None,
    decreases fields.len(),
{
    if fields.len() > 0 {
        lemma_sp_obj_get_none(fields.skip(1), key);
    }
}

/// Lookup of `key` among an object's members, first occurrence.
pub fn obj_get<'a>(fields: &'a Vec<(Vec<u8>, JsonValue)>, key: &[u8]) -> (r: Option<
    &'a JsonValue,
>)
    ensures
        match r {
            Some(v) => sp_obj_get(jm_views(fields@), key@) == Some(v@),
            None => sp_obj_get(jm_views(fields@), key@) is None,
        },
{
    let mut i: usize = 0;
    while i < fields.len()
        invariant
            i <= fields@.len(),
            forall|j: int| 0 <= j < i ==> #[trigger] fields@[j].0@ != key@,
        decreases fields@.len() - i,
    {
        if crate::byteseq::bytes_eq(fields[i].0.as_slice(), key) {
            proof {
                assert forall|j: int| 0 <= j < i implies #[trigger] jm_views(fields@)[j].0
                    != key@ by {
                    lemma_jm_views_index(fields@, j);
                }
                lemma_jm_views_index(fields@, i as int);
                lemma_sp_obj_get_at(jm_views(fields@), key@, i as int);
            }
            return Some(&fields[i].1);
        }
        i += 1;
    }
    proof {
        assert forall|j: int| 0 <= j < jm_views(fields@).len() implies #[trigger] jm_views(
            fields@,
        )[j].0 != key@ by {
            lemma_jm_views_len(fields@);
            lemma_jm_views_index(fields@, j);
        }
        lemma_sp_obj_get_none(jm_views(fields@), key@);
    }
    None
}

/// Whitespace skipper.
fn skip_ws(s: &[u8], i: usize) -> (r: usize)
    requires
        i <= s@.len(),
    ensures
        r == sp_ws(s@, i as int),
        i <= r <= s@.len(),
{
    let mut k: usize = i;
    while k < s.len() && (s[k] == 32 || s[k] == 9 || s[k] == 10 || s[k] == 13)
        invariant
            i <= k <= s@.len(),
            sp_ws(s@, i as int) == sp_ws(s@, k as int),
        decreases s@.len() - k,
    {
        k += 1;
    }
    k
}

/// Digit-run skipper.
fn digits_end(s: &[u8], i: usize) -> (r: usize)
    requires
        i <= s@.len(),
    ensures
        r == sp_digits(s@, i as int),
        i <= r <= s@.len(),
{
    let mut k: usize = i;
    while k < s.len() && DIGIT_ZERO <= s[k] && s[k] <= DIGIT_NINE
        invariant
            i <= k <= s@.len(),
            sp_digits(s@, i as int) == sp_digits(s@, k as int),
        decreases s@.len() - k,
    {
        k += 1;
    }
    k
}

/// Escape decoder.
fn escape_byte(e: u8) -> (r: Option<u8>)
    ensures
        r == sp_escape(e),
{
    if e == QUOTE {
        Some(QUOTE)
    } else if e == BACKSLASH {
        Some(BACKSLASH)
    } else if e == SLASH {
        Some(SLASH)
    } else if e == 98 {
        Some(8)
    } else if e == 102 {
        Some(12)
    } else if e == 110 {
        Some(10)
    } else if e == 114 {
        Some(13)
    } else if e == 116 {
        Some(9)
    } else {
        None
    }
}

/// String body parser, equal to its specification.
fn parse_string_rest(s: &[u8], i: usize) -> (r: Option<(Vec<u8>, usize)>)
    requires
        i <= s@.len(),
    ensures
        match r {
            Some(p) => sp_string_rest(s@, i as int) == Some((p.0@, p.1 as int)) && i < p.1
                <= s@.len(),
            None => sp_string_rest(s@, i as int) is None,
        },
    decreases s@.len() - i,
{
    if i >= s.len() {
        return None;
    }
    let b = s[i];
    if b == QUOTE {
        let empty: Vec<u8> = Vec::new();
        return Some((empty, i + 1));
    }
    if b == BACKSLASH {
        if i + 1 >= s.len() {
            return None;
        }
        match escape_byte(s[i + 1]) {
            Some(x) => match parse_string_rest(s, i + 2) {
                Some((rest, j)) => {
                    let mut out = rest;
                    out.insert(0, x);
                    proof {
                        assert(out@ =~= seq![x] + out@.skip(1));
                    }
                    Some((out, j))
                },
                None => None,
            },
            None => None,
        }
    } else if b < 0x20 {
        None
    } else {
        match parse_string_rest(s, i + 1) {
            Some((rest, j)) => {
                let mut out = rest;
                out.insert(0, b);
                proof {
                    assert(out@ =~= seq![b] + out@.skip(1));
                }
                Some((out, j))
            },
            None => None,
        }
    }
}

/// The digit scan never moves backwards.
proof fn lemma_sp_digits_lb(s: Seq<u8>, i: int)
    ensures
        sp_digits(s, i) >= i,
    decreases s.len() - i,
{
    if 0 <= i < s.len() && is_digit(s[i]) {
        lemma_sp_digits_lb(s, i + 1);
    }
}

/// Number lexeme parser, equal to its specification.
fn parse_number(s: &[u8], i: usize) -> (r: Option<(Vec<u8>, usize)>)
    requires
        i <= s@.len(),
    ensures
        match r {
            Some(p) => sp_number(s@, i as int) == Some((p.0@, p.1 as int)) && i < p.1 <= s@.len(),
            None => sp_number(s@, i as int) is None,
        },
{
    if i >= s.len() {
        return None;
    }
    let p: usize = if s[i] == MINUS {
        i + 1
    } else {
        i
    };
    if p >= s.len() {
        return None;
    }
    if !(DIGIT_ZERO <= s[p] && s[p] <= DIGIT_NINE) {
        return None;
    }
    let ip: usize = if s[p] == DIGIT_ZERO {
        p + 1
    } else {
        digits_end(s, p)
    };
    proof {
        lemma_sp_digits_lb(s@, p + 1);
        assert(ip >= p + 1);
    }
    let fp: usize = if ip < s.len() && s[ip] == DOT {
        let d = digits_end(s, ip + 1);
        if d == ip + 1 {
            return None;
        }
        d
    } else {
        ip
    };
    let ep: usize = if fp < s.len() && (s[fp] == LOWER_E || s[fp] == UPPER_E) {
        let q: usize = if fp + 1 < s.len() && (s[fp + 1] == PLUS || s[fp + 1] == MINUS) {
            fp + 2
        } else {
            fp + 1
        };
        let d = digits_end(s, q);
        if d == q {
            return None;
        }
        d
    } else {
        fp
    };
    let lexeme = crate::byteseq::subvec(s, i, ep);
    Some((lexeme, ep))
}

/// Value parser, equal to its specification.
pub fn parse_value(s: &[u8], i: usize) -> (r: Option<(JsonValue, usize)>)
    requires
        i <= s@.len(),
    ensures
        match r {
            Some(p) => sp_value(s@, i as int) == Some((p.0@, p.1 as int)) && i <= p.1 <= s@.len(),
            None => sp_value(s@, i as int) is None,
        },
    decreases s@.len() - i, 0int,
{
    let j = skip_ws(s, i);
    if j >= s.len() {
        return None;
    }
    let b = s[j];
    if b == LBRACE {
        match parse_object_body(s, j + 1) {
            Some((fields, k)) => Some((JsonValue::Object(fields), k)),
            None => None,
        }
    } else if b == LBRACKET {
        match parse_array_body(s, j + 1) {
            Some((items, k)) => Some((JsonValue::Array(items), k)),
            None => None,
        }
    } else if b == QUOTE {
        match parse_string_rest(s, j + 1) {
            Some((content, k)) => Some((JsonValue::Str(content), k)),
            None => None,
        }
    } else if b == 116 {
        if s.len() - j >= 4 && s[j + 1] == 114 && s[j + 2] == 117 && s[j + 3] == 101 {
            Some((JsonValue::Bool(true), j + 4))
        } else {
            None
        }
    } else if b == 102 {
        if s.len() - j >= 5 && s[j + 1] == 97 && s[j + 2] == 108 && s[j + 3] == 115 && s[j + 4]
            == 101 {
            Some((JsonValue::Bool(false), j + 5))
        } else {
            None
        }
    } else if b == 110 {
        if s.len() - j >= 4 && s[j + 1] == 117 && s[j + 2] == 108 && s[j + 3] == 108 {
            Some((JsonValue::Null, j + 4))
        } else {
            None
        }
    } else if b == MINUS || (DIGIT_ZERO <= b && b <= DIGIT_NINE) {
        match parse_number(s, j) {
            Some((lexeme, k)) => Some((JsonValue::Number(lexeme), k)),
            None => None,
        }
    } else {
        None
    }
}

/// Array body parser, equal to its specification.
fn parse_array_body(s: &[u8], i: usize) -> (r: Option<(Vec<JsonValue>, usize)>)
    requires
        i <= s@.len(),
    ensures
        match r {
            Some(p) => sp_array_body(s@, i as int) == Some((jv_views(p.0@), p.1 as int)) && i
                <= p.1 <= s@.len(),
            None => sp_array_body(s@, i as int) is None,
        },
    decreases s@.len() - i, 2int,
{
    let j = skip_ws(s, i);
    if j >= s.len() {
        return None;
    }
    if s[j] == RBRACKET {
        let empty: Vec<JsonValue> = Vec::new();
        proof {
            assert(jv_views(empty@) =~= Seq::<SpecJson>::empty());
        }
        Some((empty, j + 1))
    } else {
        parse_array_items(s, j)
    }
}

/// Array items parser, equal to its specification.
fn parse_array_items(s: &[u8], i: usize) -> (r: Option<(Vec<JsonValue>, usize)>)
    requires
        i <= s@.len(),
    ensures
        match r {
            Some(p) => sp_array_items(s@, i as int) == Some((jv_views(p.0@), p.1 as int)) && i
                <= p.1 <= s@.len(),
            None => sp_array_items(s@, i as int) is None,
        },
    decreases s@.len() - i, 1int,
{
    match parse_value(s, i) {
        None => None,
        Some((v, j)) => {
            if j <= i {
                return None;
            }
            let k = skip_ws(s, j);
            if k >= s.len() {
                return None;
            }
            if s[k] == RBRACKET {
                let mut items: Vec<JsonValue> = Vec::new();
                items.push(v);
                proof {
                    assert(items@.len() == 1);
                    assert(items@[0] == v);
                    assert(items@.skip(1) =~= Seq::<JsonValue>::empty());
                    assert(jv_views(items@.skip(1)) =~= Seq::<SpecJson>::empty());
                    assert(jv_views(items@) =~= seq![jv_view(v)]);
                }
                Some((items, k + 1))
            } else if s[k] == COMMA {
                match parse_array_items(s, k + 1) {
                    Some((rest, m)) => {
                        let ghost rest0 = rest@;
                        let mut out = rest;
                        out.insert(0, v);
                        proof {
                            assert(out@.skip(1) =~= rest0);
                            assert(jv_views(out@) =~= seq![jv_view(v)] + jv_views(rest0));
                        }
                        Some((out, m))
                    },
                    None => None,
                }
            } else {
                None
            }
        },
    }
}

/// Object body parser, equal to its specification.
fn parse_object_body(s: &[u8], i: usize) -> (r: Option<(Vec<(Vec<u8>, JsonValue)>, usize)>)
    requires
        i <= s@.len(),
    ensures
        match r {
            Some(p) => sp_object_body(s@, i as int) == Some((jm_views(p.0@), p.1 as int)) && i
                <= p.1 <= s@.len(),
            None => sp_object_body(s@, i as int) is None,
        },
    decreases s@.len() - i, 2int,
{
    let j = skip_ws(s, i);
    if j >= s.len() {
        return None;
    }
    if s[j] == RBRACE {
        let empty: Vec<(Vec<u8>, JsonValue)> = Vec::new();
        proof {
            assert(jm_views(empty@) =~= Seq::<(Seq<u8>, SpecJson)>::empty());
        }
        Some((empty, j + 1))
    } else {
        parse_object_members(s, j)
    }
}

/// Object members parser, equal to its specification.
fn parse_object_members(s: &[u8], i: usize) -> (r: Option<(Vec<(Vec<u8>, JsonValue)>, usize)>)
    requires
        i <= s@.len(),
    ensures
        match r {
            Some(p) => sp_object_members(s@, i as int) == Some((jm_views(p.0@), p.1 as int)) && i
                <= p.1 <= s@.len(),
            None => sp_object_members(s@, i as int) is None,
        },
    decreases s@.len() - i, 1int,
{
    let j0 = skip_ws(s, i);
    if j0 >= s.len() {
        return None;
    }
    if s[j0] != QUOTE {
        return None;
    }
    match parse_string_rest(s, j0 + 1) {
        None => None,
        Some((key, j)) => {
            if j <= i {
                return None;
            }
            let k = skip_ws(s, j);
            if k >= s.len() {
                return None;
            }
            if s[k] != COLON {
                return None;
            }
            match parse_value(s, k + 1) {
                None => None,
                Some((v, m)) => {
                    if m <= k {
                        return None;
                    }
                    let p = skip_ws(s, m);
                    if p >= s.len() {
                        return None;
                    }
                    if s[p] == RBRACE {
                        let mut fields: Vec<(Vec<u8>, JsonValue)> = Vec::new();
                        fields.push((key, v));
                        proof {
                            assert(fields@.len() == 1);
                            assert(fields@.skip(1) =~= Seq::<(Vec<u8>, JsonValue)>::empty());
                            assert(jm_views(fields@.skip(1)) =~= Seq::<(Seq<u8>, SpecJson)>::empty());
                            assert(jm_views(fields@) =~= seq![(fields@[0].0@, jv_view(
                                fields@[0].1,
                            ))]);
                        }
                        Some((fields, p + 1))
                    } else if s[p] == COMMA {
                        match parse_object_members(s, p + 1) {
                            Some((rest, q)) => {
                                let ghost rest0 = rest@;
                                let mut out = rest;
                                out.insert(0, (key, v));
                                proof {
                                    assert(out@.skip(1) =~= rest0);
                                    assert(jm_views(out@) =~= seq![(out@[0].0@, jv_view(
                                        out@[0].1,
                                    ))] + jm_views(rest0));
                                }
                                Some((out, q))
                            },
                            None => None,
                        }
                    } else {
                        None
                    }
                },
            }
        },
    }
}

/// Parse a whole document: one value with nothing but whitespace around it.
/// Equal to `sp_json` on the input bytes, so parsing is deterministic.
pub fn parse_json(s: &[u8]) -> (r: Option<JsonValue>)
    ensures
        match r {
            Some(v) => sp_json(s@) == Some(v@),
            None => sp_json(s@) is None,
        },
{
    match parse_value(s, 0) {
        Some((v, j)) => {
            let k = skip_ws(s, j);
            if k == s.len() {
                Some(v)
            } else {
                None
            }
        },
        None => None,
    }
}

} // verus!

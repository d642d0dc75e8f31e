use vstd::prelude::*;

verus! {

/// Mathematical model of a JSON document.
///
/// A parsed document is a tree: an object is modeled as a map from key
/// strings to subtrees, an array as a sequence of subtrees.  A number
/// that the text writes as a plain integer and that a machine integer can
/// span is carried exactly; any other number (one with a fraction or an
/// exponent, or beyond that range) is `Float`, whose value this library
/// never reads.
pub enum JVal {
    Null,
    Bool(bool),
    Int(int),
    Float,
    Str(Seq<char>),
    Arr(Seq<JVal>),
    Obj(Map<Seq<char>, JVal>),
}

#[verifier::external_type_specification]
#[verifier::external_body]
pub struct ExValue(serde_json::Value);

/// The document tree that parsing a text yields, or `None` where the text
/// is not well-formed JSON.  Parsing is a function of the text alone.
pub uninterp spec fn json_of(s: Seq<char>) -> Option<JVal>;

/// The model of a parsed `serde_json::Value` tree.
pub uninterp spec fn jval_of(v: serde_json::Value) -> JVal;

/// Relies on `serde_json::from_str::<serde_json::Value>`: parses a JSON
/// text into a document tree; the tree depends on the text alone.
#[verifier::external_body]
pub(crate) fn parse_json(s: &str) -> (r: Option<serde_json::Value>)
    ensures
        r is Some <==> json_of(s@) is Some,
        r matches Some(v) ==> json_of(s@) == Some(jval_of(v)),
{
    serde_json::from_str::<serde_json::Value>(s).ok()
}

/// True when `j` is an object that has the key `k`.
pub open spec fn obj_has_key(j: JVal, k: Seq<char>) -> bool {
    j matches JVal::Obj(m) && m.dom().contains(k)
}

/// The subtree under key `k` of the object `j`.
pub open spec fn obj_key(j: JVal, k: Seq<char>) -> JVal
    recommends
        obj_has_key(j, k),
{
    j->Obj_0[k]
}

/// Relies on `serde_json::Value::get` with a string key: looks the key up
/// when the value is a JSON object and returns `None` otherwise.
#[verifier::external_body]
pub(crate) fn get_field<'a>(v: &'a serde_json::Value, key: &str) -> (r: Option<
    &'a serde_json::Value,
>)
    ensures
        r is Some <==> obj_has_key(jval_of(*v), key@),
        r matches Some(f) ==> jval_of(*f) == obj_key(jval_of(*v), key@),
{
    v.get(key)
}

/// Relies on `serde_json::Value::as_str`: the borrowed text when the value
/// is a JSON string.
#[verifier::external_body]
pub(crate) fn as_str_opt<'a>(v: &'a serde_json::Value) -> (r: Option<&'a str>)
    ensures
        r is Some <==> jval_of(*v) is Str,
        r matches Some(s) ==> jval_of(*v) == JVal::Str(s@),
{
    v.as_str()
}

/// Relies on `serde_json::Value::as_bool`: the boolean when the value is a
/// JSON boolean.
#[verifier::external_body]
pub(crate) fn as_bool_opt(v: &serde_json::Value) -> (r: Option<bool>)
    ensures
        r is Some <==> jval_of(*v) is Bool,
        r matches Some(b) ==> jval_of(*v) == JVal::Bool(b),
{
    v.as_bool()
}

/// Relies on `serde_json::Value::is_null`: true exactly for JSON null.
#[verifier::external_body]
pub(crate) fn is_null(v: &serde_json::Value) -> (r: bool)
    ensures
        r == (jval_of(*v) is Null),
{
    v.is_null()
}

/// Relies on `serde_json::Value::as_i64`: the value of an integer number
/// when it lies within the range of `i64`.
#[verifier::external_body]
pub(crate) fn as_i64_opt(v: &serde_json::Value) -> (r: Option<i64>)
    ensures
        r is Some <==> (jval_of(*v) matches JVal::Int(n) && i64::MIN <= n <= i64::MAX),
        r matches Some(x) ==> jval_of(*v) == JVal::Int(x as int),
{
    v.as_i64()
}

/// Relies on `serde_json::Value::as_u64`: the value of an integer number
/// when it is not negative.
#[verifier::external_body]
pub(crate) fn as_u64_opt(v: &serde_json::Value) -> (r: Option<u64>)
    ensures
        r is Some <==> (jval_of(*v) matches JVal::Int(n) && 0 <= n <= u64::MAX),
        r matches Some(x) ==> jval_of(*v) == JVal::Int(x as int),
{
    v.as_u64()
}

/// Relies on `serde_json::Value::as_array`: the borrowed elements when the
/// value is a JSON array.
#[verifier::external_body]
pub(crate) fn as_array_opt<'a>(v: &'a serde_json::Value) -> (r: Option<
    &'a Vec<serde_json::Value>,
>)
    ensures
        r is Some <==> jval_of(*v) is Arr,
        r matches Some(a) ==> {
            &&& jval_of(*v) matches JVal::Arr(s)
            &&& a@.len() == s.len()
            &&& forall|i: int| 0 <= i < s.len() ==> jval_of(#[trigger] a@[i]) == s[i]
        },
{
    v.as_array()
}

/// Relies on `serde_json::Value::as_object` and the iterator of
/// `serde_json::Map`: all entries of a JSON object, each key once, every
/// key of the object present.  No order among the entries is relied on.
#[verifier::external_body]
pub(crate) fn obj_entries(v: &serde_json::Value) -> (r: Option<Vec<(String, serde_json::Value)>>)
    ensures
        r is Some <==> jval_of(*v) is Obj,
        r matches Some(es) ==> {
            &&& jval_of(*v) matches JVal::Obj(m)
            &&& forall|i: int|
                0 <= i < es@.len() ==> m.dom().contains(#[trigger] es@[i].0@) && jval_of(
                    es@[i].1,
                ) == m[es@[i].0@]
            &&& forall|i: int, k: int| 0 <= i < k < es@.len() ==> es@[i].0@ != es@[k].0@
            &&& forall|key: Seq<char>|
                m.dom().contains(key) ==> exists|i: int|
                    0 <= i < es@.len() && (#[trigger] es@[i].0@) == key
        },
{
    v.as_object().map(|m| m.iter().map(|(k, x)| (k.clone(), x.clone())).collect())
}

/// Strict structural decoding out of a parsed JSON tree.
///
/// `json_ok` says which trees decode at all; `json_rel` relates a tree
/// that decodes to the decoded value.  `from_json` returns a decoded value
/// exactly on the trees that `json_ok` admits: unknown keys of an object
/// are ignored, a missing required key or a key of the wrong shape makes
/// the whole decode fail.
pub trait FromJson: Sized {
    /// Which document trees decode to a `Self`.
    spec fn json_ok(j: JVal) -> bool;

    /// How a tree that decodes relates to the decoded value.
    spec fn json_rel(j: JVal, t: Self) -> bool;

    /// Decode a parsed value, `None` exactly where the tree does not
    /// match the shape of `Self`.
    fn from_json(v: &serde_json::Value) -> (r: Option<Self>)
        ensures
            r is Some <==> Self::json_ok(jval_of(*v)),
            r matches Some(t) ==> Self::json_rel(jval_of(*v), t),
    ;
}

/// True when `j` is an object whose key `k` is a string.
pub open spec fn str_field_ok(j: JVal, k: Seq<char>) -> bool {
    obj_has_key(j, k) && obj_key(j, k) is Str
}

/// The string under key `k`.
pub open spec fn str_field(j: JVal, k: Seq<char>) -> Seq<char>
    recommends
        str_field_ok(j, k),
{
    obj_key(j, k)->Str_0
}

/// An optional string field: it may be absent or null, but where it is
/// present it must be a string.
pub open spec fn opt_str_field_ok(j: JVal, k: Seq<char>) -> bool {
    j is Obj && (obj_has_key(j, k) ==> (obj_key(j, k) is Str || obj_key(j, k) is Null))
}

/// The value of an optional string field, `None` where absent or null.
pub open spec fn opt_str_field(j: JVal, k: Seq<char>) -> Option<Seq<char>> {
    if obj_has_key(j, k) && obj_key(j, k) is Str {
        Some(obj_key(j, k)->Str_0)
    } else {
        None
    }
}

/// True when `j` is an object whose key `k` is a boolean.
pub open spec fn bool_field_ok(j: JVal, k: Seq<char>) -> bool {
    obj_has_key(j, k) && obj_key(j, k) is Bool
}

/// The boolean under key `k`.
pub open spec fn bool_field(j: JVal, k: Seq<char>) -> bool
    recommends
        bool_field_ok(j, k),
{
    obj_key(j, k)->Bool_0
}

/// An optional boolean field.
pub open spec fn opt_bool_field_ok(j: JVal, k: Seq<char>) -> bool {
    j is Obj && (obj_has_key(j, k) ==> (obj_key(j, k) is Bool || obj_key(j, k) is Null))
}

/// The value of an optional boolean field, `None` where absent or null.
pub open spec fn opt_bool_field(j: JVal, k: Seq<char>) -> Option<bool> {
    if obj_has_key(j, k) && obj_key(j, k) is Bool {
        Some(obj_key(j, k)->Bool_0)
    } else {
        None
    }
}

/// True when `j` is an object whose key `k` is an integer in `[lo, hi]`.
pub open spec fn int_field_ok(j: JVal, k: Seq<char>, lo: int, hi: int) -> bool {
    &&& obj_has_key(j, k)
    &&& obj_key(j, k) matches JVal::Int(n) && lo <= n <= hi
}

/// The integer under key `k`.
pub open spec fn int_field(j: JVal, k: Seq<char>) -> int
    recommends
        obj_key(j, k) is Int,
{
    obj_key(j, k)->Int_0
}

/// An optional integer field bounded by `[lo, hi]`.
pub open spec fn opt_int_field_ok(j: JVal, k: Seq<char>, lo: int, hi: int) -> bool {
    &&& j is Obj
    &&& obj_has_key(j, k) ==> ((obj_key(j, k) matches JVal::Int(n) && lo <= n <= hi) || obj_key(
        j,
        k,
    ) is Null)
}

/// The value of an optional integer field, `None` where absent or null.
pub open spec fn opt_int_field(j: JVal, k: Seq<char>) -> Option<int> {
    if obj_has_key(j, k) && obj_key(j, k) is Int {
        Some(obj_key(j, k)->Int_0)
    } else {
        None
    }
}

/// The required string under key `key`, `None` where the shape is wrong.
pub fn get_str_field(v: &serde_json::Value, key: &str) -> (r: Option<String>)
    ensures
        r is Some <==> str_field_ok(jval_of(*v), key@),
        r matches Some(s) ==> s@ == str_field(jval_of(*v), key@),
{
    match get_field(v, key) {
        Some(f) => match as_str_opt(f) {
            Some(s) => Some(s.to_owned()),
            None => None,
        },
        None => None,
    }
}

/// The optional string under `key`: absent or null count as `None`, and a
/// present field of any other shape than a string fails the decode.
pub fn get_opt_str_field(v: &serde_json::Value, key: &str) -> (r: Option<Option<String>>)
    requires
        jval_of(*v) is Obj,
    ensures
        r is Some <==> opt_str_field_ok(jval_of(*v), key@),
        r matches Some(o) ==> {
            &&& o is Some <==> opt_str_field(jval_of(*v), key@) is Some
            &&& o matches Some(s) ==> Some(s@) == opt_str_field(jval_of(*v), key@)
        },
{
    match get_field(v, key) {
        Some(f) => {
            if is_null(f) {
                Some(None)
            } else {
                match as_str_opt(f) {
                    Some(s) => Some(Some(s.to_owned())),
                    None => None,
                }
            }
        },
        None => Some(None),
    }
}

/// The required integer under `key`, within the range of `i32`.
pub fn get_i32_field(v: &serde_json::Value, key: &str) -> (r: Option<i32>)
    ensures
        r is Some <==> int_field_ok(jval_of(*v), key@, i32::MIN as int, i32::MAX as int),
        r matches Some(x) ==> x as int == int_field(jval_of(*v), key@),
{
    match get_field(v, key) {
        Some(f) => match as_i64_opt(f) {
            Some(n) => {
                if i32::MIN as i64 <= n && n <= i32::MAX as i64 {
                    Some(n as i32)
                } else {
                    None
                }
            },
            None => None,
        },
        None => None,
    }
}

/// The required integer under `key`, within the range of `u16`.
pub fn get_u16_field(v: &serde_json::Value, key: &str) -> (r: Option<u16>)
    ensures
        r is Some <==> int_field_ok(jval_of(*v), key@, 0, u16::MAX as int),
        r matches Some(x) ==> x as int == int_field(jval_of(*v), key@),
{
    match get_field(v, key) {
        Some(f) => match as_u64_opt(f) {
            Some(n) => {
                if n <= u16::MAX as u64 {
                    Some(n as u16)
                } else {
                    None
                }
            },
            None => None,
        },
        None => None,
    }
}

/// The required integer under `key`, within the range of `u32`.
pub fn get_u32_field(v: &serde_json::Value, key: &str) -> (r: Option<u32>)
    ensures
        r is Some <==> int_field_ok(jval_of(*v), key@, 0, u32::MAX as int),
        r matches Some(x) ==> x as int == int_field(jval_of(*v), key@),
{
    match get_field(v, key) {
        Some(f) => match as_u64_opt(f) {
            Some(n) => {
                if n <= u32::MAX as u64 {
                    Some(n as u32)
                } else {
                    None
                }
            },
            None => None,
        },
        None => None,
    }
}

/// The required integer under `key`, within the range of `u8`.
pub fn get_u8_field(v: &serde_json::Value, key: &str) -> (r: Option<u8>)
    ensures
        r is Some <==> int_field_ok(jval_of(*v), key@, 0, u8::MAX as int),
        r matches Some(x) ==> x as int == int_field(jval_of(*v), key@),
{
    match get_field(v, key) {
        Some(f) => match as_u64_opt(f) {
            Some(n) => {
                if n <= u8::MAX as u64 {
                    Some(n as u8)
                } else {
                    None
                }
            },
            None => None,
        },
        None => None,
    }
}

/// The optional integer under `key`, within the range of `i32`.
pub fn get_opt_i32_field(v: &serde_json::Value, key: &str) -> (r: Option<Option<i32>>)
    requires
        jval_of(*v) is Obj,
    ensures
        r is Some <==> opt_int_field_ok(jval_of(*v), key@, i32::MIN as int, i32::MAX as int),
        r matches Some(o) ==> {
            &&& o is Some <==> opt_int_field(jval_of(*v), key@) is Some
            &&& o matches Some(x) ==> Some(x as int) == opt_int_field(jval_of(*v), key@)
        },
{
    match get_field(v, key) {
        Some(f) => {
            if is_null(f) {
                Some(None)
            } else {
                match as_i64_opt(f) {
                    Some(n) => {
                        if i32::MIN as i64 <= n && n <= i32::MAX as i64 {
                            Some(Some(n as i32))
                        } else {
                            None
                        }
                    },
                    None => None,
                }
            }
        },
        None => Some(None),
    }
}

/// The optional integer under `key`, within the range of `i8`.
pub fn get_opt_i8_field(v: &serde_json::Value, key: &str) -> (r: Option<Option<i8>>)
    requires
        jval_of(*v) is Obj,
    ensures
        r is Some <==> opt_int_field_ok(jval_of(*v), key@, i8::MIN as int, i8::MAX as int),
        r matches Some(o) ==> {
            &&& o is Some <==> opt_int_field(jval_of(*v), key@) is Some
            &&& o matches Some(x) ==> Some(x as int) == opt_int_field(jval_of(*v), key@)
        },
{
    match get_field(v, key) {
        Some(f) => {
            if is_null(f) {
                Some(None)
            } else {
                match as_i64_opt(f) {
                    Some(n) => {
                        if i8::MIN as i64 <= n && n <= i8::MAX as i64 {
                            Some(Some(n as i8))
                        } else {
                            None
                        }
                    },
                    None => None,
                }
            }
        },
        None => Some(None),
    }
}

/// The required boolean under `key`.
pub fn get_bool_field(v: &serde_json::Value, key: &str) -> (r: Option<bool>)
    ensures
        r is Some <==> bool_field_ok(jval_of(*v), key@),
        r matches Some(b) ==> b == bool_field(jval_of(*v), key@),
{
    match get_field(v, key) {
        Some(f) => as_bool_opt(f),
        None => None,
    }
}

/// The optional boolean under `key`: absent or null count as `None`.
pub fn get_opt_bool_field(v: &serde_json::Value, key: &str) -> (r: Option<Option<bool>>)
    requires
        jval_of(*v) is Obj,
    ensures
        r is Some <==> opt_bool_field_ok(jval_of(*v), key@),
        r matches Some(o) ==> o == opt_bool_field(jval_of(*v), key@),
{
    match get_field(v, key) {
        Some(f) => {
            if is_null(f) {
                Some(None)
            } else {
                match as_bool_opt(f) {
                    Some(b) => Some(Some(b)),
                    None => None,
                }
            }
        },
        None => Some(None),
    }
}

/// True when `j` is an object whose key `k` decodes as a `T`.
pub open spec fn struct_field_ok<T: FromJson>(j: JVal, k: Seq<char>) -> bool {
    obj_has_key(j, k) && T::json_ok(obj_key(j, k))
}

/// The required field under `key`, itself decoded as a `T`.
pub fn get_struct_field<T: FromJson>(v: &serde_json::Value, key: &str) -> (r: Option<T>)
    ensures
        r is Some <==> struct_field_ok::<T>(jval_of(*v), key@),
        r matches Some(t) ==> T::json_rel(obj_key(jval_of(*v), key@), t),
{
    match get_field(v, key) {
        Some(f) => T::from_json(f),
        None => None,
    }
}

/// True when `j` is an array whose every element decodes as a `T`.
pub open spec fn arr_ok<T: FromJson>(j: JVal) -> bool {
    &&& j is Arr
    &&& forall|i: int| 0 <= i < j->Arr_0.len() ==> T::json_ok(#[trigger] j->Arr_0[i])
}

/// Relates an array tree to the sequence of its decoded elements.
pub open spec fn arr_rel<T: FromJson>(j: JVal, s: Seq<T>) -> bool {
    &&& j is Arr
    &&& s.len() == j->Arr_0.len()
    &&& forall|i: int| 0 <= i < s.len() ==> T::json_rel(#[trigger] j->Arr_0[i], s[i])
}

/// Decode a JSON array element by element, `None` as soon as one element
/// does not match.
pub fn decode_array<T: FromJson>(v: &serde_json::Value) -> (r: Option<Vec<T>>)
    ensures
        r is Some <==> arr_ok::<T>(jval_of(*v)),
        r matches Some(ts) ==> arr_rel::<T>(jval_of(*v), ts@),
{
    match as_array_opt(v) {
        Some(a) => {
            let mut out: Vec<T> = Vec::new();
            let n: usize = a.len();
            let mut i: usize = 0;
            while i < n
                invariant
                    i <= n,
                    n == a.len(),
                    jval_of(*v) is Arr,
                    a@.len() == jval_of(*v)->Arr_0.len(),
                    forall|k: int|
                        0 <= k < a@.len() ==> jval_of(#[trigger] a@[k]) == jval_of(*v)->Arr_0[k],
                    out@.len() == i,
                    forall|k: int|
                        0 <= k < i ==> T::json_ok(#[trigger] jval_of(*v)->Arr_0[k]) && T::json_rel(
                            jval_of(*v)->Arr_0[k],
                            out@[k],
                        ),
                decreases n - i,
            {
                match T::from_json(&a[i]) {
                    Some(t) => out.push(t),
                    None => {
                        return None;
                    },
                }
                i += 1;
            }
            Some(out)
        },
        None => None,
    }
}

/// True when `j` is an object whose key `k` is an array of `T`s.
pub open spec fn arr_field_ok<T: FromJson>(j: JVal, k: Seq<char>) -> bool {
    obj_has_key(j, k) && arr_ok::<T>(obj_key(j, k))
}

/// The required array under `key`, each element decoded as a `T`.
pub fn get_arr_field<T: FromJson>(v: &serde_json::Value, key: &str) -> (r: Option<Vec<T>>)
    ensures
        r is Some <==> arr_field_ok::<T>(jval_of(*v), key@),
        r matches Some(ts) ==> arr_rel::<T>(obj_key(jval_of(*v), key@), ts@),
{
    match get_field(v, key) {
        Some(f) => decode_array(f),
        None => None,
    }
}

/// Whether two texts hold the same characters.
pub fn str_is(s: &str, t: &str) -> (b: bool)
    ensures
        b == (s@ == t@),
{
    let left = s.to_owned();
    let right = t.to_owned();
    left == right
}

/// Relies on `String::push`: appends one character at the end.
#[verifier::external_body]
pub(crate) fn push_char(s: &mut String, c: char)
    ensures
        final(s)@ == old(s)@.push(c),
{
    s.push(c);
}

/// The character that writes the hex digit `d`.
pub open spec fn hex_digit(d: int) -> char {
    if d == 0 {
        '0'
    } else if d == 1 {
        '1'
    } else if d == 2 {
        '2'
    } else if d == 3 {
        '3'
    } else if d == 4 {
        '4'
    } else if d == 5 {
        '5'
    } else if d == 6 {
        '6'
    } else if d == 7 {
        '7'
    } else if d == 8 {
        '8'
    } else if d == 9 {
        '9'
    } else if d == 10 {
        'a'
    } else if d == 11 {
        'b'
    } else if d == 12 {
        'c'
    } else if d == 13 {
        'd'
    } else if d == 14 {
        'e'
    } else {
        'f'
    }
}

/// How one character is written inside a JSON string literal: the double
/// quote, the backslash and the control characters are escaped, the named
/// control characters with their short escapes, the rest of the controls
/// in the `\u00XX` form, and every other character stands as itself.
pub open spec fn escaped_char(c: char) -> Seq<char> {
    if c == '"' {
        seq!['\\', '"']
    } else if c == '\\' {
        seq!['\\', '\\']
    } else if c == '\u{8}' {
        seq!['\\', 'b']
    } else if c == '\t' {
        seq!['\\', 't']
    } else if c == '\n' {
        seq!['\\', 'n']
    } else if c == '\u{c}' {
        seq!['\\', 'f']
    } else if c == '\r' {
        seq!['\\', 'r']
    } else if (c as u32) < 0x20 {
        seq!['\\', 'u', '0', '0', hex_digit(c as u32 as int / 16), hex_digit(c as u32 as int % 16)]
    } else {
        seq![c]
    }
}

/// A text written inside a JSON string literal, character by character.
pub open spec fn escaped(s: Seq<char>) -> Seq<char>
    decreases s.len(),
{
    if s.len() == 0 {
        Seq::<char>::empty()
    } else {
        escaped_char(s[0]) + escaped(s.skip(1))
    }
}

/// Escaping a text one character longer appends that character's escape.
proof fn lemma_escaped_push(s: Seq<char>, c: char)
    ensures
        escaped(s.push(c)) == escaped(s) + escaped_char(c),
    decreases s.len(),
{
    reveal_with_fuel(escaped, 3);
    if s.len() == 0 {
        assert(s.push(c).skip(1) =~= Seq::<char>::empty());
        assert(s.push(c)[0] == c);
        assert(escaped(s.push(c)) =~= escaped(s) + escaped_char(c));
    } else {
        lemma_escaped_push(s.skip(1), c);
        assert(s.push(c).skip(1) =~= s.skip(1).push(c));
        assert(s.push(c)[0] == s[0]);
        assert(escaped(s.push(c)) == escaped_char(s[0]) + escaped(s.skip(1).push(c)));
        assert(escaped(s.push(c)) == escaped_char(s[0]) + (escaped(s.skip(1)) + escaped_char(c)));
        assert(escaped_char(s[0]) + (escaped(s.skip(1)) + escaped_char(c)) =~= (escaped_char(s[0])
            + escaped(s.skip(1))) + escaped_char(c));
        assert(escaped(s.push(c)) =~= escaped(s) + escaped_char(c));
    }
}

/// The hex digit character for `d`, which is below 16.
fn hex_digit_char(d: u8) -> (c: char)
    requires
        d < 16,
    ensures
        c == hex_digit(d as int),
{
    match d {
        0 => '0',
        1 => '1',
        2 => '2',
        3 => '3',
        4 => '4',
        5 => '5',
        6 => '6',
        7 => '7',
        8 => '8',
        9 => '9',
        10 => 'a',
        11 => 'b',
        12 => 'c',
        13 => 'd',
        14 => 'e',
        _ => 'f',
    }
}

/// The escape of one character, as text.
fn escaped_char_string(c: char) -> (r: String)
    ensures
        r@ == escaped_char(c),
{
    if c == '"' {
        proof {
            reveal_strlit("\\\"");
        }
        let r = "\\\"".to_owned();
        proof {
            assert(r@ =~= escaped_char(c));
        }
        r
    } else if c == '\\' {
        proof {
            reveal_strlit("\\\\");
        }
        let r = "\\\\".to_owned();
        proof {
            assert(r@ =~= escaped_char(c));
        }
        r
    } else if c == '\u{8}' {
        proof {
            reveal_strlit("\\b");
        }
        let r = "\\b".to_owned();
        proof {
            assert(r@ =~= escaped_char(c));
        }
        r
    } else if c == '\t' {
        proof {
            reveal_strlit("\\t");
        }
        let r = "\\t".to_owned();
        proof {
            assert(r@ =~= escaped_char(c));
        }
        r
    } else if c == '\n' {
        proof {
            reveal_strlit("\\n");
        }
        let r = "\\n".to_owned();
        proof {
            assert(r@ =~= escaped_char(c));
        }
        r
    } else if c == '\u{c}' {
        proof {
            reveal_strlit("\\f");
        }
        let r = "\\f".to_owned();
        proof {
            assert(r@ =~= escaped_char(c));
        }
        r
    } else if c == '\r' {
        proof {
            reveal_strlit("\\r");
        }
        let r = "\\r".to_owned();
        proof {
            assert(r@ =~= escaped_char(c));
        }
        r
    } else if (c as u32) < 0x20 {
        proof {
            reveal_strlit("\\u00");
        }
        let mut r = "\\u00".to_owned();
        let code = c as u32 as u8;
        push_char(&mut r, hex_digit_char(code / 16));
        push_char(&mut r, hex_digit_char(code % 16));
        proof {
            assert(r@ =~= escaped_char(c));
        }
        r
    } else {
        let mut r = String::new();
        push_char(&mut r, c);
        proof {
            assert(r@ =~= escaped_char(c));
        }
        r
    }
}

/// Write a text as it stands inside a JSON string literal.
pub fn escape_json(s: &str) -> (r: String)
    ensures
        r@ == escaped(s@),
{
    let n: usize = s.unicode_len();
    let mut out = String::new();
    let mut i: usize = 0;
    while i < n
        invariant
            i <= n,
            n == s@.len(),
            out@ == escaped(s@.take(i as int)),
        decreases n - i,
    {
        let c = s.get_char(i);
        let e = escaped_char_string(c);
        out.append(e.as_str());
        proof {
            lemma_escaped_push(s@.take(i as int), s@[i as int]);
            assert(s@.take(i as int).push(s@[i as int]) =~= s@.take(i as int + 1));
            assert(out@ =~= escaped(s@.take(i as int + 1)));
        }
        i += 1;
    }
    proof {
        assert(s@.take(n as int) =~= s@);
    }
    out
}

/// A text as a whole JSON string literal, quotes around the escaped body.
pub open spec fn json_str_lit(s: Seq<char>) -> Seq<char> {
    seq!['"'] + escaped(s) + seq!['"']
}

/// Append a JSON string literal holding the text `s`.
pub fn append_json_str(out: &mut String, s: &str)
    ensures
        final(out)@ == old(out)@ + json_str_lit(s@),
{
    push_char(out, '"');
    let e = escape_json(s);
    out.append(e.as_str());
    push_char(out, '"');
    proof {
        assert(out@ =~= old(out)@ + json_str_lit(s@));
    }
}

} // verus!

//! A small JSON layer for the flat objects the platform exchanges: typed
//! field values, key lookup, string escaping, object emission, and a trusted
//! parser that hands a document's top-level fields over as plain values.

use serde_json::Value;
use vstd::prelude::*;
use vstd::string::StrSliceExecFns;
use vstd::string::StringExecFns;

verus! {

/// A top-level field value of a JSON object, reduced to what the wire
/// schemas use. Nested arrays and objects, and numbers outside `i64`,
/// are carried as `Other`: no schema of the platform reads into them.
#[derive(Debug)]
pub enum JsonVal {
    Null,
    Bool(bool),
    Int(i64),
    Str(String),
    Other,
}

/// `p` is a prefix of `s`.
pub open spec fn has_prefix(s: Seq<char>, p: Seq<char>) -> bool {
    p.len() <= s.len() && s.subrange(0, p.len() as int) == p
}

/// Character-for-character string equality.
pub fn str_eq(a: &str, b: &str) -> (r: bool)
    ensures
        r == (a@ == b@),
{
    let alen = a.unicode_len();
    let blen = b.unicode_len();
    if alen != blen {
        return false;
    }
    let mut i: usize = 0;
    while i < alen
        invariant
            alen == a@.len(),
            blen == b@.len(),
            alen == blen,
            i <= alen,
            forall|j: int| 0 <= j < i ==> a@[j] == b@[j],
        decreases alen - i,
    {
        if a.get_char(i) != b.get_char(i) {
            return false;
        }
        i += 1;
    }
    proof {
        assert(a@ =~= b@);
    }
    true
}

/// Whether `s` starts with `p`, character for character.
pub fn str_starts_with(s: &str, p: &str) -> (r: bool)
    ensures
        r == has_prefix(s@, p@),
{
    let slen = s.unicode_len();
    let plen = p.unicode_len();
    if plen > slen {
        return false;
    }
    let mut i: usize = 0;
    while i < plen
        invariant
            slen == s@.len(),
            plen == p@.len(),
            plen <= slen,
            i <= plen,
            forall|j: int| 0 <= j < i ==> s@[j] == p@[j],
        decreases plen - i,
    {
        if s.get_char(i) != p.get_char(i) {
            proof {
                assert(s@.subrange(0, p@.len() as int)[i as int] == s@[i as int]);
            }
            return false;
        }
        i += 1;
    }
    proof {
        assert(s@.subrange(0, p@.len() as int) =~= p@);
    }
    true
}

/// The value of the first field named `key`, if any.
pub open spec fn lookup(fs: Seq<(String, JsonVal)>, key: Seq<char>) -> Option<JsonVal>
    decreases fs.len(),
{
    if fs.len() == 0 {
        None
    } else if fs[0].0@ == key {
        Some(fs[0].1)
    } else {
        lookup(fs.drop_first(), key)
    }
}

/// The index of the first field named `key`, if any.
fn find_field(fields: &Vec<(String, JsonVal)>, key: &str) -> (r: Option<usize>)
    ensures
        match r {
            Some(i) => i < fields@.len() && lookup(fields@, key@) == Some(fields@[i as int].1),
            None => lookup(fields@, key@) is None,
        },
{
    let mut i: usize = 0;
    proof {
        assert(fields@.skip(0) =~= fields@);
    }
    while i < fields.len()
        invariant
            i <= fields@.len(),
            lookup(fields@, key@) == lookup(fields@.skip(i as int), key@),
        decreases fields@.len() - i,
    {
        if str_eq(fields[i].0.as_str(), key) {
            proof {
                assert(fields@.skip(i as int)[0] == fields@[i as int]);
            }
            return Some(i);
        }
        proof {
            assert(fields@.skip(i as int)[0] == fields@[i as int]);
            assert(fields@.skip(i as int).drop_first() =~= fields@.skip(i as int + 1));
        }
        i += 1;
    }
    proof {
        assert(fields@.skip(fields@.len() as int) =~= Seq::<(String, JsonVal)>::empty());
    }
    None
}

/// The string field named `key`, when it is present and is a string.
pub open spec fn str_field(fs: Seq<(String, JsonVal)>, key: Seq<char>) -> Option<String> {
    match lookup(fs, key) {
        Some(JsonVal::Str(s)) => Some(s),
        _ => None,
    }
}

/// The integer field named `key`, when it is present and is an integer.
pub open spec fn int_field(fs: Seq<(String, JsonVal)>, key: Seq<char>) -> Option<i64> {
    match lookup(fs, key) {
        Some(JsonVal::Int(i)) => Some(i),
        _ => None,
    }
}

/// The boolean field named `key`, when it is present and is a boolean.
pub open spec fn bool_field(fs: Seq<(String, JsonVal)>, key: Seq<char>) -> Option<bool> {
    match lookup(fs, key) {
        Some(JsonVal::Bool(b)) => Some(b),
        _ => None,
    }
}

/// An optional string field: absent or `null` is a valid `None`; any value
/// of another type makes the whole read fail.
pub open spec fn opt_str_field(fs: Seq<(String, JsonVal)>, key: Seq<char>) -> Option<
    Option<String>,
> {
    match lookup(fs, key) {
        None => Some(None),
        Some(JsonVal::Null) => Some(None),
        Some(JsonVal::Str(s)) => Some(Some(s)),
        Some(_) => None,
    }
}

/// An optional integer field, read as `opt_str_field` reads strings.
pub open spec fn opt_int_field(fs: Seq<(String, JsonVal)>, key: Seq<char>) -> Option<
    Option<i64>,
> {
    match lookup(fs, key) {
        None => Some(None),
        Some(JsonVal::Null) => Some(None),
        Some(JsonVal::Int(i)) => Some(Some(i)),
        Some(_) => None,
    }
}

pub fn get_str_field(fields: &Vec<(String, JsonVal)>, key: &str) -> (r: Option<String>)
    ensures
        r == str_field(fields@, key@),
{
    match find_field(fields, key) {
        Some(i) => match &fields[i].1 {
            JsonVal::Str(s) => Some(s.clone()),
            _ => None,
        },
        None => None,
    }
}

pub fn get_int_field(fields: &Vec<(String, JsonVal)>, key: &str) -> (r: Option<i64>)
    ensures
        r == int_field(fields@, key@),
{
    match find_field(fields, key) {
        Some(i) => match &fields[i].1 {
            JsonVal::Int(v) => Some(*v),
            _ => None,
        },
        None => None,
    }
}

pub fn get_bool_field(fields: &Vec<(String, JsonVal)>, key: &str) -> (r: Option<bool>)
    ensures
        r == bool_field(fields@, key@),
{
    match find_field(fields, key) {
        Some(i) => match &fields[i].1 {
            JsonVal::Bool(v) => Some(*v),
            _ => None,
        },
        None => None,
    }
}

pub fn get_opt_str_field(fields: &Vec<(String, JsonVal)>, key: &str) -> (r: Option<
    Option<String>,
>)
    ensures
        r == opt_str_field(fields@, key@),
{
    match find_field(fields, key) {
        Some(i) => match &fields[i].1 {
            JsonVal::Str(s) => Some(Some(s.clone())),
            JsonVal::Null => Some(None),
            _ => None,
        },
        None => Some(None),
    }
}

pub fn get_opt_int_field(fields: &Vec<(String, JsonVal)>, key: &str) -> (r: Option<Option<i64>>)
    ensures
        r == opt_int_field(fields@, key@),
{
    match find_field(fields, key) {
        Some(i) => match &fields[i].1 {
            JsonVal::Int(v) => Some(Some(*v)),
            JsonVal::Null => Some(None),
            _ => None,
        },
        None => Some(None),
    }
}

/// The lower-case hex digit for a nibble.
pub open spec fn hex_digit(n: int) -> char {
    if n == 0 {
        '0'
    } else if n == 1 {
        '1'
    } else if n == 2 {
        '2'
    } else if n == 3 {
        '3'
    } else if n == 4 {
        '4'
    } else if n == 5 {
        '5'
    } else if n == 6 {
        '6'
    } else if n == 7 {
        '7'
    } else if n == 8 {
        '8'
    } else if n == 9 {
        '9'
    } else if n == 10 {
        'a'
    } else if n == 11 {
        'b'
    } else if n == 12 {
        'c'
    } else if n == 13 {
        'd'
    } else if n == 14 {
        'e'
    } else {
        'f'
    }
}

/// How one character appears inside a JSON string literal: quote, backslash
/// and the common control characters get their two-character escapes, the
/// remaining control characters a `\u00XX` escape, everything else itself.
pub open spec fn escaped_char(c: char) -> Seq<char> {
    if c == '"' {
        seq!['\\', '"']
    } else if c == '\\' {
        seq!['\\', '\\']
    } else if c == '\n' {
        seq!['\\', 'n']
    } else if c == '\r' {
        seq!['\\', 'r']
    } else if c == '\t' {
        seq!['\\', 't']
    } else if (c as u32) < 32 {
        seq!['\\', 'u', '0', '0', hex_digit(c as u32 as int / 16), hex_digit(c as u32 as int % 16)]
    } else {
        seq![c]
    }
}

/// A whole string as it appears inside a JSON string literal.
pub open spec fn escaped(s: Seq<char>) -> Seq<char>
    decreases s.len(),
{
    if s.len() == 0 {
        Seq::empty()
    } else {
        escaped(s.drop_last()) + escaped_char(s.last())
    }
}

/// The lower-case hex digit for a nibble, as a one-character string slice.
fn hex_str(n: u8) -> (r: &'static str)
    requires
        n < 16,
    ensures
        r@ == seq![hex_digit(n as int)],
{
    proof {
        reveal_strlit("0");
        reveal_strlit("1");
        reveal_strlit("2");
        reveal_strlit("3");
        reveal_strlit("4");
        reveal_strlit("5");
        reveal_strlit("6");
        reveal_strlit("7");
        reveal_strlit("8");
        reveal_strlit("9");
        reveal_strlit("a");
        reveal_strlit("b");
        reveal_strlit("c");
        reveal_strlit("d");
        reveal_strlit("e");
        reveal_strlit("f");
    }
    let r: &'static str = if n == 0 {
        "0"
    } else if n == 1 {
        "1"
    } else if n == 2 {
        "2"
    } else if n == 3 {
        "3"
    } else if n == 4 {
        "4"
    } else if n == 5 {
        "5"
    } else if n == 6 {
        "6"
    } else if n == 7 {
        "7"
    } else if n == 8 {
        "8"
    } else if n == 9 {
        "9"
    } else if n == 10 {
        "a"
    } else if n == 11 {
        "b"
    } else if n == 12 {
        "c"
    } else if n == 13 {
        "d"
    } else if n == 14 {
        "e"
    } else {
        "f"
    };
    proof {
        assert(r@ =~= seq![hex_digit(n as int)]);
    }
    r
}

/// The decimal digits of a number, most significant first.
pub open spec fn dec_str(n: int) -> Seq<char>
    decreases n,
{
    if n < 10 {
        seq![hex_digit(n)]
    } else {
        dec_str(n / 10) + seq![hex_digit(n % 10)]
    }
}

/// Writes a number in decimal.
pub fn u16_to_string(n: u16) -> (r: String)
    ensures
        r@ == dec_str(n as int),
    decreases n,
{
    if n < 10 {
        String::from_str(hex_str(n as u8))
    } else {
        let mut r = u16_to_string(n / 10);
        r.append(hex_str((n % 10) as u8));
        r
    }
}

/// Escapes a string for inclusion in a JSON string literal.
pub fn escape_json(s: &str) -> (r: String)
    ensures
        r@ == escaped(s@),
{
    let len = s.unicode_len();
    let mut out = String::new();
    let mut i: usize = 0;
    proof {
        assert(s@.take(0) =~= Seq::<char>::empty());
    }
    while i < len
        invariant
            len == s@.len(),
            i <= len,
            out@ == escaped(s@.take(i as int)),
        decreases len - i,
    {
        let c = s.get_char(i);
        if c == '"' {
            out.append("\\\"");
            proof {
                reveal_strlit("\\\"");
                assert(("\\\"")@ =~= escaped_char(c));
            }
        } else if c == '\\' {
            out.append("\\\\");
            proof {
                reveal_strlit("\\\\");
                assert(("\\\\")@ =~= escaped_char(c));
            }
        } else if c == '\n' {
            out.append("\\n");
            proof {
                reveal_strlit("\\n");
                assert(("\\n")@ =~= escaped_char(c));
            }
        } else if c == '\r' {
            out.append("\\r");
            proof {
                reveal_strlit("\\r");
                assert(("\\r")@ =~= escaped_char(c));
            }
        } else if c == '\t' {
            out.append("\\t");
            proof {
                reveal_strlit("\\t");
                assert(("\\t")@ =~= escaped_char(c));
            }
        } else if (c as u32) < 32 {
            let hi: u8 = ((c as u32) / 16) as u8;
            let lo: u8 = ((c as u32) % 16) as u8;
            out.append("\\u00");
            out.append(hex_str(hi));
            out.append(hex_str(lo));
            proof {
                reveal_strlit("\\u00");
                assert(("\\u00")@ + seq![hex_digit(hi as int)] + seq![hex_digit(lo as int)]
                    =~= escaped_char(c));
            }
        } else {
            let piece = s.substring_char(i, i + 1);
            out.append(piece);
            proof {
                assert(piece@ =~= seq![c]);
                assert(seq![c] =~= escaped_char(c));
            }
        }
        proof {
            assert(s@.take(i as int + 1).drop_last() =~= s@.take(i as int));
            assert(s@.take(i as int + 1).last() == s@[i as int]);
        }
        i += 1;
    }
    proof {
        assert(s@.take(len as int) =~= s@);
    }
    out
}

/// One `"key":"value"` entry of an emitted object, key and value escaped.
pub open spec fn entry_seq(k: Seq<char>, v: Seq<char>) -> Seq<char> {
    seq!['"'] + escaped(k) + seq!['"', ':', '"'] + escaped(v) + seq!['"']
}

/// The comma-separated entries of an emitted object.
pub open spec fn fields_seq(fs: Seq<(Seq<char>, Seq<char>)>) -> Seq<char>
    decreases fs.len(),
{
    if fs.len() == 0 {
        Seq::empty()
    } else if fs.len() == 1 {
        entry_seq(fs[0].0, fs[0].1)
    } else {
        fields_seq(fs.drop_last()) + seq![','] + entry_seq(fs.last().0, fs.last().1)
    }
}

/// The full text of an emitted object.
pub open spec fn object_seq(fs: Seq<(Seq<char>, Seq<char>)>) -> Seq<char> {
    seq!['{'] + fields_seq(fs) + seq!['}']
}

/// The views of a list of key/value pairs.
pub open spec fn kv_views(fs: Seq<(String, String)>) -> Seq<(Seq<char>, Seq<char>)> {
    fs.map_values(|p: (String, String)| (p.0@, p.1@))
}

/// Emits a JSON object with string values, fields in the given order,
/// keys and values escaped. Optional fields a request leaves unset are
/// simply not in `fields`, so they are absent from the text, not `null`.
pub fn json_object(fields: &Vec<(String, String)>) -> (r: String)
    ensures
        r@ == object_seq(kv_views(fields@)),
{
    let mut out = String::from_str("{");
    let mut i: usize = 0;
    proof {
        reveal_strlit("{");
        assert(("{")@ =~= seq!['{']);
        assert(kv_views(fields@).take(0) =~= Seq::<(Seq<char>, Seq<char>)>::empty());
        assert(out@ =~= seq!['{'] + fields_seq(kv_views(fields@).take(0)));
    }
    while i < fields.len()
        invariant
            i <= fields@.len(),
            kv_views(fields@).len() == fields@.len(),
            out@ == seq!['{'] + fields_seq(kv_views(fields@).take(i as int)),
        decreases fields@.len() - i,
    {
        if i > 0 {
            out.append(",");
        }
        out.append("\"");
        let ek = escape_json(fields[i].0.as_str());
        out.append(ek.as_str());
        out.append("\":\"");
        let ev = escape_json(fields[i].1.as_str());
        out.append(ev.as_str());
        out.append("\"");
        proof {
            reveal_strlit(",");
            reveal_strlit("\"");
            reveal_strlit("\":\"");
            let kv = kv_views(fields@);
            assert(kv[i as int] == (fields@[i as int].0@, fields@[i as int].1@));
            assert(kv.take(i as int + 1).drop_last() =~= kv.take(i as int));
            assert(kv.take(i as int + 1).last() == kv[i as int]);
            assert(("\"")@ + escaped(fields@[i as int].0@) + ("\":\"")@ + escaped(
                fields@[i as int].1@,
            ) + ("\"")@ =~= entry_seq(kv[i as int].0, kv[i as int].1));
            assert(out@ =~= seq!['{'] + fields_seq(kv.take(i as int + 1)));
        }
        i += 1;
    }
    out.append("}");
    proof {
        reveal_strlit("}");
        assert(kv_views(fields@).take(fields@.len() as int) =~= kv_views(fields@));
        assert(out@ =~= object_seq(kv_views(fields@)));
    }
    out
}

/// What the trusted parser returns for a document: `Some` of the top-level
/// fields when the text is one JSON object, `None` otherwise.
pub uninterp spec fn json_fields(s: Seq<char>) -> Option<Seq<(String, JsonVal)>>;

/// Relies on serde_json::from_str and serde_json::Value: parses the text
/// and, when the document is a single JSON object, hands the top-level
/// fields over one for one (duplicate keys already resolved, last one
/// winning, keys in sorted order). The result depends on the text alone.
#[verifier::external_body]
pub(crate) fn parse_object(s: &str) -> (r: Option<Vec<(String, JsonVal)>>)
    ensures
        match r {
            Some(v) => json_fields(s@) == Some(v@),
            None => json_fields(s@) is None,
        },
{
    let Ok(v) = serde_json::from_str::<Value>(s) else { return None };
    let Value::Object(obj) = v else { return None };
    let mut out = Vec::new();
    for (k, x) in obj {
        out.push((k, match x {
            Value::Null => JsonVal::Null,
            Value::Bool(b) => JsonVal::Bool(b),
            Value::Number(n) => n.as_i64().map_or(JsonVal::Other, JsonVal::Int),
            Value::String(t) => JsonVal::Str(t),
            Value::Array(_) | Value::Object(_) => JsonVal::Other,
        }));
    }
    Some(out)
}

} // verus!

//! An in-memory JSON document model.
//!
//! The lock-file schema is decoded from and encoded to this model by
//! verified functions; only the step between JSON text and this model is
//! delegated to an outside crate.

use vstd::prelude::*;

verus! {

broadcast use {vstd::std_specs::vec::group_vec_axioms, vstd::string::group_string_axioms};

/// The mathematical shape of a JSON document: text is abstracted to
/// sequences of characters, arrays and objects to sequences.
#[verifier::ext_equal]
pub enum JsonSpec {
    Null,
    Bool(bool),
    Number(Seq<char>),
    Str(Seq<char>),
    Arr(Seq<JsonSpec>),
    Obj(Seq<(Seq<char>, JsonSpec)>),
}

/// A JSON document as held in memory.
///
/// A number keeps its literal text, so any numeric value can be carried
/// through without loss; object entries keep their order.
#[derive(Debug, PartialEq, Eq)]
pub enum JsonValue {
    Null,
    Bool(bool),
    Number(String),
    Str(String),
    Array(Vec<JsonValue>),
    Object(Vec<(String, JsonValue)>),
}

pub open spec fn json_view(j: JsonValue) -> JsonSpec
    decreases j,
{
    match j {
        JsonValue::Null => JsonSpec::Null,
        JsonValue::Bool(b) => JsonSpec::Bool(b),
        JsonValue::Number(s) => JsonSpec::Number(s@),
        JsonValue::Str(s) => JsonSpec::Str(s@),
        JsonValue::Array(items) => JsonSpec::Arr(
            Seq::new(
                items.len() as nat,
                |i: int|
                    if 0 <= i < items.len() {
                        json_view(items[i])
                    } else {
                        JsonSpec::Null
                    },
            ),
        ),
        JsonValue::Object(entries) => JsonSpec::Obj(
            Seq::new(
                entries.len() as nat,
                |i: int|
                    if 0 <= i < entries.len() {
                        (entries[i].0@, json_view(entries[i].1))
                    } else {
                        (Seq::empty(), JsonSpec::Null)
                    },
            ),
        ),
    }
}

impl View for JsonValue {
    type V = JsonSpec;

    open spec fn view(&self) -> JsonSpec {
        json_view(*self)
    }
}

/// Why a JSON document was rejected by the schema decoder.
#[derive(Debug, Clone, PartialEq, Eq)]
pub enum DecodeError {
    /// The text was not JSON at all; carries the parser's message.
    Syntax(String),
    /// An object held a key that the schema does not know.
    UnknownField(String),
    /// A required key was absent.
    MissingField(String),
    /// A value did not have the shape the named field requires.
    WrongType(String),
    /// A number was not a canonical non-negative integer in range.
    InvalidNumber(String),
    /// Two packages of one sequence carried the same name.
    DuplicateName(String),
    /// A package name was empty.
    EmptyName,
}

/// Character-wise string equality, so that contracts can speak of views.
pub fn str_eq(a: &str, b: &str) -> (r: bool)
    ensures
        r == (a@ == b@),
{
    let alen = a.unicode_len();
    let blen = b.unicode_len();
    if alen != blen {
        return false;
    }
    let mut i: usize = 0;
    while i < alen
        invariant
            alen == a@.len(),
            blen == b@.len(),
            alen == blen,
            i <= alen,
            forall|k: int| 0 <= k < i ==> a@[k] == b@[k],
        decreases alen - i,
    {
        if a.get_char(i) != b.get_char(i) {
            return false;
        }
        i += 1;
    }
    proof {
        assert(a@ =~= b@);
    }
    true
}

/// The character for one decimal digit.
pub open spec fn digit_char(d: nat) -> char {
    if d == 0 {
        '0'
    } else if d == 1 {
        '1'
    } else if d == 2 {
        '2'
    } else if d == 3 {
        '3'
    } else if d == 4 {
        '4'
    } else if d == 5 {
        '5'
    } else if d == 6 {
        '6'
    } else if d == 7 {
        '7'
    } else if d == 8 {
        '8'
    } else {
        '9'
    }
}

/// The canonical decimal text of a non-negative integer: no sign, no
/// leading zero.
pub open spec fn dec_digits(v: nat) -> Seq<char>
    decreases v,
{
    if v < 10 {
        seq![digit_char(v)]
    } else {
        dec_digits(v / 10).push(digit_char(v % 10))
    }
}

fn digit_str(d: u8) -> (r: &'static str)
    requires
        d < 10,
    ensures
        r@ == seq![digit_char(d as nat)],
{
    proof {
        reveal_strlit("0");
        reveal_strlit("1");
        reveal_strlit("2");
        reveal_strlit("3");
        reveal_strlit("4");
        reveal_strlit("5");
        reveal_strlit("6");
        reveal_strlit("7");
        reveal_strlit("8");
        reveal_strlit("9");
    }
    let r = match d {
        0 => "0",
        1 => "1",
        2 => "2",
        3 => "3",
        4 => "4",
        5 => "5",
        6 => "6",
        7 => "7",
        8 => "8",
        _ => "9",
    };
    proof {
        assert(r@ =~= seq![digit_char(d as nat)]);
    }
    r
}

/// Renders a byte as canonical decimal text.
pub fn u8_to_dec(v: u8) -> (r: String)
    ensures
        r@ == dec_digits(v as nat),
    decreases v,
{
    if v < 10 {
        digit_str(v).to_owned()
    } else {
        let mut s = u8_to_dec(v / 10);
        s.append(digit_str(v % 10));
        proof {
            assert(s@ =~= dec_digits(v as nat));
        }
        s
    }
}

/// Reads a byte back from canonical decimal text; rejects every other
/// text, a sign or a leading zero included.
pub fn u8_from_dec(s: &str) -> (r: Option<u8>)
    ensures
        match r {
            Some(v) => s@ == dec_digits(v as nat),
            None => forall|v: u8| s@ != dec_digits(v as nat),
        },
{
    let mut v: u16 = 0;
    while v < 256
        invariant
            v <= 256,
            forall|w: u8| w < v ==> s@ != dec_digits(w as nat),
        decreases 256 - v,
    {
        let rendered = u8_to_dec(v as u8);
        if str_eq(s, rendered.as_str()) {
            return Some(v as u8);
        }
        v = v + 1;
    }
    None
}

/// Copies a list of object entries; the copy reads the same.
pub fn clone_entries(entries: &Vec<(String, JsonValue)>) -> (r: Vec<(String, JsonValue)>)
    ensures
        r@.len() == entries@.len(),
        forall|k: int|
            0 <= k < entries@.len() ==> (#[trigger] r@[k]).0@ == entries@[k].0@ && r@[k].1@
                == entries@[k].1@,
    decreases entries,
{
    let mut out: Vec<(String, JsonValue)> = Vec::new();
    let mut i: usize = 0;
    while i < entries.len()
        invariant
            i <= entries@.len(),
            out@.len() == i,
            forall|k: int|
                0 <= k < i ==> (#[trigger] out@[k]).0@ == entries@[k].0@ && out@[k].1@
                    == entries@[k].1@,
        decreases entries@.len() - i,
    {
        let k = entries[i].0.clone();
        let v = clone_json(&entries[i].1);
        out.push((k, v));
        i += 1;
    }
    out
}

/// Copies a document; the copy reads the same.
#[verifier::loop_isolation(false)]
pub fn clone_json(v: &JsonValue) -> (r: JsonValue)
    ensures
        r@ == v@,
    decreases v,
{
    match v {
        JsonValue::Null => JsonValue::Null,
        JsonValue::Bool(b) => JsonValue::Bool(*b),
        JsonValue::Number(s) => JsonValue::Number(s.clone()),
        JsonValue::Str(s) => JsonValue::Str(s.clone()),
        JsonValue::Array(items) => {
            let mut out: Vec<JsonValue> = Vec::new();
            let mut i: usize = 0;
            while i < items.len()
                invariant
                    i <= items@.len(),
                    out@.len() == i,
                    forall|k: int| 0 <= k < i ==> (#[trigger] out@[k])@ == items@[k]@,
                decreases items@.len() - i,
            {
                proof {
                    assert(decreases_to!(*v => *items));
                    assert(decreases_to!(*items => items@[i as int]));
                }
                out.push(clone_json(&items[i]));
                i += 1;
            }
            let r = JsonValue::Array(out);
            proof {
                assert(r@->Arr_0 =~= v@->Arr_0);
                assert(r@ =~= v@);
            }
            r
        },
        JsonValue::Object(entries) => {
            let out = clone_entries(entries);
            let r = JsonValue::Object(out);
            proof {
                assert(r@->Obj_0 =~= v@->Obj_0);
                assert(r@ =~= v@);
            }
            r
        },
    }
}

/// Reads a string value; any other shape is a type error on `field`.
pub fn take_string(v: &JsonValue, field: &str) -> (r: Result<String, DecodeError>)
    ensures
        match r {
            Ok(s) => v@ == JsonSpec::Str(s@),
            Err(e) => !(v@ is Str) && (e matches DecodeError::WrongType(f) && f@ == field@),
        },
{
    match v {
        JsonValue::Str(s) => Ok(s.clone()),
        _ => Err(DecodeError::WrongType(field.to_owned())),
    }
}

/// Reads a boolean value; any other shape is a type error on `field`.
pub fn take_bool(v: &JsonValue, field: &str) -> (r: Result<bool, DecodeError>)
    ensures
        match r {
            Ok(b) => v@ == JsonSpec::Bool(b),
            Err(e) => !(v@ is Bool) && (e matches DecodeError::WrongType(f) && f@ == field@),
        },
{
    match v {
        JsonValue::Bool(b) => Ok(*b),
        _ => Err(DecodeError::WrongType(field.to_owned())),
    }
}

/// Reads a byte held as a canonical decimal JSON number.
pub fn take_u8(v: &JsonValue, field: &str) -> (r: Result<u8, DecodeError>)
    ensures
        match r {
            Ok(n) => v@ == JsonSpec::Number(dec_digits(n as nat)),
            Err(e) => !(exists|n: u8| v@ == JsonSpec::Number(dec_digits(n as nat))) && ((
            e matches DecodeError::WrongType(f) && f@ == field@) || (
            e matches DecodeError::InvalidNumber(f) && f@ == field@)),
        },
{
    match v {
        JsonValue::Number(s) => match u8_from_dec(s.as_str()) {
            Some(n) => Ok(n),
            None => Err(DecodeError::InvalidNumber(field.to_owned())),
        },
        _ => Err(DecodeError::WrongType(field.to_owned())),
    }
}

/// The shape of a JSON array whose items are all strings.
pub open spec fn spec_string_seq_json(vs: Seq<Seq<char>>) -> JsonSpec {
    JsonSpec::Arr(vs.map_values(|t: Seq<char>| JsonSpec::Str(t)))
}

/// Reads an array of strings.
pub fn take_string_vec(v: &JsonValue, field: &str) -> (r: Result<Vec<String>, DecodeError>)
    ensures
        match r {
            Ok(vs) => v@ == spec_string_seq_json(vs@.map_values(|s: String| s@)),
            Err(e) => !(exists|vs: Seq<Seq<char>>| v@ == spec_string_seq_json(vs)) && (
            e matches DecodeError::WrongType(f) && f@ == field@),
        },
{
    match v {
        JsonValue::Array(items) => {
            let mut out: Vec<String> = Vec::new();
            let mut i: usize = 0;
            while i < items.len()
                invariant
                    i <= items@.len(),
                    out@.len() == i,
                    (v@ matches JsonSpec::Arr(its) && its.len() == items@.len() && forall|k: int|
                        0 <= k < items@.len() ==> its[k] == json_view(#[trigger] items@[k])),
                    forall|k: int|
                        0 <= k < i ==> json_view(items@[k]) == JsonSpec::Str(
                            (#[trigger] out@[k])@,
                        ),
                decreases items@.len() - i,
            {
                match &items[i] {
                    JsonValue::Str(s) => out.push(s.clone()),
                    _ => {
                        proof {
                            let bad = i as int;
                            assert forall|vs: Seq<Seq<char>>|
                                v@ != spec_string_seq_json(vs) by {
                                if v@ == spec_string_seq_json(vs) {
                                    assert(v@->Arr_0[bad] == vs.map_values(
                                        |t: Seq<char>| JsonSpec::Str(t),
                                    )[bad]);
                                    assert(v@->Arr_0[bad] == json_view(items@[bad]));
                                }
                            }
                        }
                        return Err(DecodeError::WrongType(field.to_owned()));
                    },
                }
                i += 1;
            }
            proof {
                let vs = out@.map_values(|s: String| s@);
                assert(v@->Arr_0 =~= spec_string_seq_json(vs)->Arr_0);
                assert(v@ =~= spec_string_seq_json(vs));
            }
            Ok(out)
        },
        _ => Err(DecodeError::WrongType(field.to_owned())),
    }
}

/// Builds the JSON array of a string sequence.
pub fn strings_to_json(vs: &Vec<String>) -> (r: JsonValue)
    ensures
        r@ == spec_string_seq_json(vs@.map_values(|s: String| s@)),
{
    let mut items: Vec<JsonValue> = Vec::new();
    let mut i: usize = 0;
    while i < vs.len()
        invariant
            i <= vs@.len(),
            items@.len() == i,
            forall|k: int|
                0 <= k < i ==> json_view(#[trigger] items@[k]) == JsonSpec::Str(vs@[k]@),
        decreases vs@.len() - i,
    {
        items.push(JsonValue::Str(vs[i].clone()));
        i += 1;
    }
    let r = JsonValue::Array(items);
    proof {
        assert(r@->Arr_0 =~= spec_string_seq_json(vs@.map_values(|s: String| s@))->Arr_0);
        assert(r@ =~= spec_string_seq_json(vs@.map_values(|s: String| s@)));
    }
    r
}

/// The shape of a JSON object whose values are all strings.
pub open spec fn spec_string_pairs_json(ps: Seq<(Seq<char>, Seq<char>)>) -> JsonSpec {
    JsonSpec::Obj(ps.map_values(|p: (Seq<char>, Seq<char>)| (p.0, JsonSpec::Str(p.1))))
}

/// The view of a list of string pairs.
pub open spec fn string_pairs_view(ps: Seq<(String, String)>) -> Seq<(Seq<char>, Seq<char>)> {
    ps.map_values(|p: (String, String)| (p.0@, p.1@))
}

/// Reads an object whose values are all strings, keeping entry order.
pub fn take_string_pairs(v: &JsonValue, field: &str) -> (r: Result<
    Vec<(String, String)>,
    DecodeError,
>)
    ensures
        match r {
            Ok(ps) => v@ == spec_string_pairs_json(string_pairs_view(ps@)),
            Err(e) => !(exists|ps: Seq<(Seq<char>, Seq<char>)>|
                v@ == spec_string_pairs_json(ps)) && (e matches DecodeError::WrongType(f) && f@
                == field@),
        },
{
    match v {
        JsonValue::Object(entries) => {
            let mut out: Vec<(String, String)> = Vec::new();
            let mut i: usize = 0;
            while i < entries.len()
                invariant
                    i <= entries@.len(),
                    out@.len() == i,
                    (v@ matches JsonSpec::Obj(es) && es.len() == entries@.len() && forall|k: int|
                        0 <= k < entries@.len() ==> es[k] == ((#[trigger] entries@[k]).0@,
                        json_view(entries@[k].1))),
                    forall|k: int|
                        0 <= k < i ==> (#[trigger] out@[k]).0@ == entries@[k].0@ && json_view(
                            entries@[k].1,
                        ) == JsonSpec::Str(out@[k].1@),
                decreases entries@.len() - i,
            {
                match &entries[i].1 {
                    JsonValue::Str(s) => out.push((entries[i].0.clone(), s.clone())),
                    _ => {
                        proof {
                            let bad = i as int;
                            assert forall|ps: Seq<(Seq<char>, Seq<char>)>|
                                v@ != spec_string_pairs_json(ps) by {
                                if v@ == spec_string_pairs_json(ps) {
                                    assert(v@->Obj_0[bad] == ps.map_values(
                                        |p: (Seq<char>, Seq<char>)| (p.0, JsonSpec::Str(p.1)),
                                    )[bad]);
                                    assert(v@->Obj_0[bad] == (entries@[bad].0@, json_view(
                                        entries@[bad].1,
                                    )));
                                }
                            }
                        }
                        return Err(DecodeError::WrongType(field.to_owned()));
                    },
                }
                i += 1;
            }
            proof {
                assert(v@->Obj_0 =~= spec_string_pairs_json(string_pairs_view(out@))->Obj_0);
                assert(v@ =~= spec_string_pairs_json(string_pairs_view(out@)));
            }
            Ok(out)
        },
        _ => Err(DecodeError::WrongType(field.to_owned())),
    }
}

/// Builds the JSON object of a list of string pairs.
pub fn string_pairs_to_json(ps: &Vec<(String, String)>) -> (r: JsonValue)
    ensures
        r@ == spec_string_pairs_json(string_pairs_view(ps@)),
{
    let mut entries: Vec<(String, JsonValue)> = Vec::new();
    let mut i: usize = 0;
    while i < ps.len()
        invariant
            i <= ps@.len(),
            entries@.len() == i,
            forall|k: int|
                0 <= k < i ==> (#[trigger] entries@[k]).0@ == ps@[k].0@ && json_view(
                    entries@[k].1,
                ) == JsonSpec::Str(ps@[k].1@),
        decreases ps@.len() - i,
    {
        entries.push((ps[i].0.clone(), JsonValue::Str(ps[i].1.clone())));
        i += 1;
    }
    let r = JsonValue::Object(entries);
    proof {
        assert(r@->Obj_0 =~= spec_string_pairs_json(string_pairs_view(ps@))->Obj_0);
        assert(r@ =~= spec_string_pairs_json(string_pairs_view(ps@)));
    }
    r
}


/// The view of a list of object entries.
pub open spec fn obj_view(es: Seq<(String, JsonValue)>) -> Seq<(Seq<char>, JsonSpec)> {
    es.map_values(|p: (String, JsonValue)| (p.0@, json_view(p.1)))
}

/// The value of the first entry of `es` whose key is `key`, at the level
/// of views.
pub open spec fn spec_obj_lookup(es: Seq<(Seq<char>, JsonSpec)>, key: Seq<char>) -> Option<
    JsonSpec,
>
    decreases es.len(),
{
    if es.len() == 0 {
        None
    } else if es[0].0 == key {
        Some(es[0].1)
    } else {
        spec_obj_lookup(es.drop_first(), key)
    }
}

/// A view-level lookup finds the first entry whose key matches.
pub proof fn lemma_obj_lookup_at(es: Seq<(Seq<char>, JsonSpec)>, key: Seq<char>, i: int)
    requires
        0 <= i < es.len(),
        es[i].0 == key,
        forall|k: int| 0 <= k < i ==> es[k].0 != key,
    ensures
        spec_obj_lookup(es, key) == Some(es[i].1),
    decreases i,
{
    if i > 0 {
        lemma_obj_lookup_at(es.drop_first(), key, i - 1);
    }
}


/// The view of a field lookup's outcome.
pub open spec fn opt_json_view(l: Option<&JsonValue>) -> Option<JsonSpec> {
    match l {
        Option::Some(j) => Option::Some(j@),
        Option::None => Option::None,
    }
}

/// How an optional string field relates to what a lookup found: absent
/// and null both mean the field is not set.
pub open spec fn opt_string_matches(o: Option<String>, l: Option<JsonSpec>) -> bool {
    match o {
        Option::None => l is None || l == Option::Some(JsonSpec::Null),
        Option::Some(s) => l == Option::Some(JsonSpec::Str(s@)),
    }
}

/// How an optional list of strings relates to what a lookup found.
pub open spec fn opt_strings_matches(o: Option<Vec<String>>, l: Option<JsonSpec>) -> bool {
    match o {
        Option::None => l is None || l == Option::Some(JsonSpec::Null),
        Option::Some(vs) => l == Option::Some(
            spec_string_seq_json(vs@.map_values(|s: String| s@)),
        ),
    }
}

/// How an optional string-to-string mapping relates to what a lookup
/// found.
pub open spec fn opt_string_pairs_matches(
    o: Option<Vec<(String, String)>>,
    l: Option<JsonSpec>,
) -> bool {
    match o {
        Option::None => l is None || l == Option::Some(JsonSpec::Null),
        Option::Some(ps) => l == Option::Some(spec_string_pairs_json(string_pairs_view(ps@))),
    }
}

/// How an optional free-form object relates to what a lookup found.
pub open spec fn opt_obj_matches(o: Option<Vec<(String, JsonValue)>>, l: Option<JsonSpec>) -> bool {
    match o {
        Option::None => l is None || l == Option::Some(JsonSpec::Null),
        Option::Some(es) => l == Option::Some(JsonSpec::Obj(obj_view(es@))),
    }
}

/// Reads a required string field from a lookup's outcome.
pub fn field_string(l: Option<&JsonValue>, field: &str) -> (r: Result<String, DecodeError>)
    ensures
        match r {
            Ok(s) => opt_json_view(l) == Option::Some(JsonSpec::Str(s@)),
            Err(e) => !(exists|s: Seq<char>|
                opt_json_view(l) == Option::Some(JsonSpec::Str(s))),
        },
{
    match l {
        Option::Some(j) => take_string(j, field),
        Option::None => Err(DecodeError::MissingField(field.to_owned())),
    }
}

/// Reads a required boolean field from a lookup's outcome.
pub fn field_bool(l: Option<&JsonValue>, field: &str) -> (r: Result<bool, DecodeError>)
    ensures
        match r {
            Ok(b) => opt_json_view(l) == Option::Some(JsonSpec::Bool(b)),
            Err(e) => !(exists|b: bool| opt_json_view(l) == Option::Some(JsonSpec::Bool(b))),
        },
{
    match l {
        Option::Some(j) => take_bool(j, field),
        Option::None => Err(DecodeError::MissingField(field.to_owned())),
    }
}

/// Reads a required array-of-strings field from a lookup's outcome.
pub fn field_string_vec(l: Option<&JsonValue>, field: &str) -> (r: Result<
    Vec<String>,
    DecodeError,
>)
    ensures
        match r {
            Ok(vs) => opt_json_view(l) == Option::Some(
                spec_string_seq_json(vs@.map_values(|s: String| s@)),
            ),
            Err(e) => !(exists|vs: Seq<Seq<char>>|
                opt_json_view(l) == Option::Some(spec_string_seq_json(vs))),
        },
{
    match l {
        Option::Some(j) => take_string_vec(j, field),
        Option::None => Err(DecodeError::MissingField(field.to_owned())),
    }
}

/// Reads an optional string field: absent and null both read as unset.
pub fn field_opt_string(l: Option<&JsonValue>, field: &str) -> (r: Result<
    Option<String>,
    DecodeError,
>)
    ensures
        match r {
            Ok(os) => opt_string_matches(os, opt_json_view(l)),
            Err(e) => !(exists|os: Option<String>| opt_string_matches(os, opt_json_view(l))),
        },
{
    match l {
        Option::None => Ok(Option::None),
        Option::Some(j) => match j {
            JsonValue::Null => Ok(Option::None),
            JsonValue::Str(s) => Ok(Option::Some(s.clone())),
            _ => {
                proof {
                    assert forall|os: Option<String>|
                        !opt_string_matches(os, opt_json_view(l)) by {
                        if opt_string_matches(os, opt_json_view(l)) {
                            assert(j@ is Str || j@ is Null);
                        }
                    }
                }
                Err(DecodeError::WrongType(field.to_owned()))
            },
        },
    }
}

/// Reads an optional array-of-strings field.
pub fn field_opt_string_vec(l: Option<&JsonValue>, field: &str) -> (r: Result<
    Option<Vec<String>>,
    DecodeError,
>)
    ensures
        match r {
            Ok(os) => opt_strings_matches(os, opt_json_view(l)),
            Err(e) => !(exists|os: Option<Vec<String>>|
                opt_strings_matches(os, opt_json_view(l))),
        },
{
    match l {
        Option::None => Ok(Option::None),
        Option::Some(j) => match j {
            JsonValue::Null => Ok(Option::None),
            _ => {
                match take_string_vec(j, field) {
                    Ok(vs) => Ok(Option::Some(vs)),
                    Err(e) => {
                        proof {
                            assert forall|os: Option<Vec<String>>|
                                !opt_strings_matches(os, opt_json_view(l)) by {
                                if opt_strings_matches(os, opt_json_view(l)) {
                                    if os is Some {
                                        let vs = os->Some_0;
                                        assert(j@ == spec_string_seq_json(
                                            vs@.map_values(|s: String| s@),
                                        ));
                                    }
                                }
                            }
                        }
                        Err(e)
                    },
                }
            },
        },
    }
}

/// Reads an optional string-to-string mapping field.
pub fn field_opt_string_pairs(l: Option<&JsonValue>, field: &str) -> (r: Result<
    Option<Vec<(String, String)>>,
    DecodeError,
>)
    ensures
        match r {
            Ok(os) => opt_string_pairs_matches(os, opt_json_view(l)),
            Err(e) => !(exists|os: Option<Vec<(String, String)>>|
                opt_string_pairs_matches(os, opt_json_view(l))),
        },
{
    match l {
        Option::None => Ok(Option::None),
        Option::Some(j) => match j {
            JsonValue::Null => Ok(Option::None),
            _ => {
                match take_string_pairs(j, field) {
                    Ok(ps) => Ok(Option::Some(ps)),
                    Err(e) => {
                        proof {
                            assert forall|os: Option<Vec<(String, String)>>|
                                !opt_string_pairs_matches(os, opt_json_view(l)) by {
                                if opt_string_pairs_matches(os, opt_json_view(l)) {
                                    if os is Some {
                                        let ps = os->Some_0;
                                        assert(j@ == spec_string_pairs_json(
                                            string_pairs_view(ps@),
                                        ));
                                    }
                                }
                            }
                        }
                        Err(e)
                    },
                }
            },
        },
    }
}

/// Reads an optional free-form object field, keeping it as a document.
pub fn field_opt_obj(l: Option<&JsonValue>, field: &str) -> (r: Result<
    Option<Vec<(String, JsonValue)>>,
    DecodeError,
>)
    ensures
        match r {
            Ok(o) => opt_obj_matches(o, opt_json_view(l)),
            Err(e) => !(exists|o: Option<Vec<(String, JsonValue)>>|
                opt_obj_matches(o, opt_json_view(l))),
        },
{
    match l {
        Option::None => Ok(Option::None),
        Option::Some(j) => match j {
            JsonValue::Null => Ok(Option::None),
            JsonValue::Object(m) => {
                let c = clone_entries(m);
                proof {
                    assert(obj_view(c@) =~= j@->Obj_0);
                    assert(j@ == JsonSpec::Obj(obj_view(c@)));
                }
                Ok(Option::Some(c))
            },
            _ => {
                proof {
                    assert forall|o: Option<Vec<(String, JsonValue)>>|
                        !opt_obj_matches(o, opt_json_view(l)) by {
                        if opt_obj_matches(o, opt_json_view(l)) {
                            assert(j@ is Obj || j@ is Null);
                        }
                    }
                }
                Err(DecodeError::WrongType(field.to_owned()))
            },
        },
    }
}


/// A view-level lookup finds nothing when no key matches.
pub proof fn lemma_obj_lookup_none(es: Seq<(Seq<char>, JsonSpec)>, key: Seq<char>)
    requires
        forall|k: int| 0 <= k < es.len() ==> es[k].0 != key,
    ensures
        spec_obj_lookup(es, key) is None,
    decreases es.len(),
{
    if es.len() > 0 {
        lemma_obj_lookup_none(es.drop_first(), key);
    }
}

/// Finds the first entry named `key`.
pub fn lookup<'a>(entries: &'a Vec<(String, JsonValue)>, key: &str) -> (r: Option<
    &'a JsonValue,
>)
    ensures
        opt_json_view(r) == spec_obj_lookup(obj_view(entries@), key@),
{
    let mut i: usize = 0;
    while i < entries.len()
        invariant
            i <= entries@.len(),
            forall|k: int| 0 <= k < i ==> obj_view(entries@)[k].0 != key@,
        decreases entries@.len() - i,
    {
        if str_eq(entries[i].0.as_str(), key) {
            proof {
                lemma_obj_lookup_at(obj_view(entries@), key@, i as int);
            }
            return Some(&entries[i].1);
        }
        i += 1;
    }
    proof {
        lemma_obj_lookup_none(obj_view(entries@), key@);
    }
    None
}

/// The document an optional string encodes to: null when unset.
pub open spec fn spec_opt_string_json(o: Option<String>) -> JsonSpec {
    match o {
        Option::None => JsonSpec::Null,
        Option::Some(s) => JsonSpec::Str(s@),
    }
}

/// The document an optional list of strings encodes to.
pub open spec fn spec_opt_strings_json(o: Option<Vec<String>>) -> JsonSpec {
    match o {
        Option::None => JsonSpec::Null,
        Option::Some(vs) => spec_string_seq_json(vs@.map_values(|s: String| s@)),
    }
}

/// The document an optional string-to-string mapping encodes to.
pub open spec fn spec_opt_pairs_json(o: Option<Vec<(String, String)>>) -> JsonSpec {
    match o {
        Option::None => JsonSpec::Null,
        Option::Some(ps) => spec_string_pairs_json(string_pairs_view(ps@)),
    }
}

/// The document an optional free-form object encodes to.
pub open spec fn spec_opt_obj_json(o: Option<Vec<(String, JsonValue)>>) -> JsonSpec {
    match o {
        Option::None => JsonSpec::Null,
        Option::Some(es) => JsonSpec::Obj(obj_view(es@)),
    }
}

/// Encodes an optional string, null when unset.
pub fn opt_string_to_json(o: &Option<String>) -> (r: JsonValue)
    ensures
        r@ == spec_opt_string_json(*o),
{
    match o {
        Option::None => JsonValue::Null,
        Option::Some(s) => JsonValue::Str(s.clone()),
    }
}

/// Encodes an optional list of strings, null when unset.
pub fn opt_strings_to_json(o: &Option<Vec<String>>) -> (r: JsonValue)
    ensures
        r@ == spec_opt_strings_json(*o),
{
    match o {
        Option::None => JsonValue::Null,
        Option::Some(vs) => strings_to_json(vs),
    }
}

/// Encodes an optional string-to-string mapping, null when unset.
pub fn opt_pairs_to_json(o: &Option<Vec<(String, String)>>) -> (r: JsonValue)
    ensures
        r@ == spec_opt_pairs_json(*o),
{
    match o {
        Option::None => JsonValue::Null,
        Option::Some(ps) => string_pairs_to_json(ps),
    }
}

/// Encodes an optional free-form object, null when unset.
pub fn opt_obj_to_json(o: &Option<Vec<(String, JsonValue)>>) -> (r: JsonValue)
    ensures
        r@ == spec_opt_obj_json(*o),
{
    match o {
        Option::None => JsonValue::Null,
        Option::Some(es) => {
            let c = clone_entries(es);
            let r = JsonValue::Object(c);
            proof {
                assert(r@->Obj_0 =~= obj_view(es@));
                assert(r@ =~= spec_opt_obj_json(*o));
            }
            r
        },
    }
}

} // verus!

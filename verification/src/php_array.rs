//! The container for PHP's dynamically-typed arrays.
//!
//! A PHP array reaches JSON either as an array (when its keys are the
//! integers 0, 1, ...) or as an object (when they are strings), and an
//! empty one may arrive in either shape. The container keeps the shape it
//! was decoded from, and encodes back to exactly that shape.

use vstd::prelude::*;

use crate::json::dec_digits;
use crate::json::spec_string_pairs_json;
use crate::json::spec_string_seq_json;
use crate::json::string_pairs_view;
use crate::json::string_pairs_to_json;
use crate::json::strings_to_json;
use crate::json::take_string_pairs;
use crate::json::take_string_vec;
use crate::json::take_u8;
use crate::json::u8_to_dec;
use crate::json::DecodeError;
use crate::json::JsonSpec;
use crate::json::JsonValue;
use crate::json::json_view;
use crate::json::opt_json_view;

verus! {

broadcast use {vstd::std_specs::vec::group_vec_axioms, vstd::string::group_string_axioms};

/// A value that PHP would call an array: an ordered sequence, or a
/// mapping from string keys, whichever the source held.
#[derive(Debug, PartialEq, Eq)]
pub enum PhpArray<TItem> {
    Indexed(Vec<TItem>),
    Associative(Vec<(String, TItem)>),
}

/// The JSON shape a string-valued container encodes to.
pub open spec fn spec_php_string_json(a: PhpArray<String>) -> JsonSpec {
    match a {
        PhpArray::Indexed(vs) => spec_string_seq_json(vs@.map_values(|s: String| s@)),
        PhpArray::Associative(ps) => spec_string_pairs_json(string_pairs_view(ps@)),
    }
}

/// Whether a JSON document can decode as a string-valued container.
pub open spec fn php_string_decodable(j: JsonSpec) -> bool {
    (exists|vs: Seq<Seq<char>>| j == spec_string_seq_json(vs)) || (exists|
        ps: Seq<(Seq<char>, Seq<char>)>,
    | j == spec_string_pairs_json(ps))
}

impl PhpArray<String> {
    /// Decodes a JSON document into a string-valued container.
    ///
    /// An array of strings always becomes `Indexed` and an object of
    /// strings always becomes `Associative`; encoding what was decoded
    /// gives back the very document, the two empty shapes included.
    pub fn from_json(v: &JsonValue, field: &str) -> (r: Result<PhpArray<String>, DecodeError>)
        ensures
            match r {
                Ok(a) => spec_php_string_json(a) == v@ && (a is Indexed <==> v@ is Arr) && (
                a is Associative <==> v@ is Obj),
                Err(e) => !php_string_decodable(v@) && (e matches DecodeError::WrongType(f) && f@
                    == field@),
            },
            r is Ok <==> php_string_decodable(v@),
    {
        match v {
            JsonValue::Object(_) => {
                let ps = take_string_pairs(v, field)?;
                Ok(PhpArray::Associative(ps))
            },
            _ => {
                let vs = take_string_vec(v, field)?;
                Ok(PhpArray::Indexed(vs))
            },
        }
    }

    /// Encodes the container back to the JSON shape it holds.
    pub fn to_json(&self) -> (r: JsonValue)
        ensures
            r@ == spec_php_string_json(*self),
    {
        match self {
            PhpArray::Indexed(vs) => strings_to_json(vs),
            PhpArray::Associative(ps) => string_pairs_to_json(ps),
        }
    }
}

/// The JSON shape a byte-valued container encodes to.
pub open spec fn spec_php_u8_json(a: PhpArray<u8>) -> JsonSpec {
    match a {
        PhpArray::Indexed(vs) => JsonSpec::Arr(
            vs@.map_values(|n: u8| JsonSpec::Number(dec_digits(n as nat))),
        ),
        PhpArray::Associative(ps) => JsonSpec::Obj(
            ps@.map_values(|p: (String, u8)| (p.0@, JsonSpec::Number(dec_digits(p.1 as nat)))),
        ),
    }
}

/// Whether a JSON document can decode as a byte-valued container.
pub open spec fn php_u8_decodable(j: JsonSpec) -> bool {
    exists|a: PhpArray<u8>| j == spec_php_u8_json(a)
}

impl PhpArray<u8> {
    /// Decodes a JSON document into a byte-valued container; every number
    /// must be a canonical decimal byte.
    pub fn from_json(v: &JsonValue, field: &str) -> (r: Result<PhpArray<u8>, DecodeError>)
        ensures
            match r {
                Ok(a) => spec_php_u8_json(a) == v@ && (a is Indexed <==> v@ is Arr) && (
                a is Associative <==> v@ is Obj),
                Err(e) => !php_u8_decodable(v@) && (((e matches DecodeError::WrongType(f) && f@
                    == field@) || (e matches DecodeError::InvalidNumber(f) && f@ == field@))),
            },
            r is Ok <==> php_u8_decodable(v@),
    {
        match v {
            JsonValue::Array(items) => {
                let mut out: Vec<u8> = Vec::new();
                let mut i: usize = 0;
                while i < items.len()
                    invariant
                        i <= items@.len(),
                        out@.len() == i,
                        (v@ matches JsonSpec::Arr(its) && its.len() == items@.len() && forall|
                            k: int,
                        |
                            0 <= k < items@.len() ==> its[k] == json_view(#[trigger] items@[k])),
                        forall|k: int|
                            0 <= k < i ==> json_view(items@[k]) == JsonSpec::Number(
                                dec_digits((#[trigger] out@[k]) as nat),
                            ),
                    decreases items@.len() - i,
                {
                    match take_u8(&items[i], field) {
                        Ok(n) => out.push(n),
                        Err(e) => {
                            proof {
                                let bad = i as int;
                                assert forall|a: PhpArray<u8>| v@ != spec_php_u8_json(a) by {
                                    if v@ == spec_php_u8_json(a) {
                                        let vs = a->Indexed_0;
                                        assert(v@->Arr_0[bad] == vs@.map_values(
                                            |n: u8| JsonSpec::Number(dec_digits(n as nat)),
                                        )[bad]);
                                        assert(v@->Arr_0[bad] == json_view(items@[bad]));
                                    }
                                }
                            }
                            return Err(e);
                        },
                    }
                    i += 1;
                }
                let a = PhpArray::Indexed(out);
                proof {
                    assert(v@->Arr_0 =~= spec_php_u8_json(a)->Arr_0);
                    assert(v@ =~= spec_php_u8_json(a));
                }
                Ok(a)
            },
            JsonValue::Object(entries) => {
                let mut out: Vec<(String, u8)> = Vec::new();
                let mut i: usize = 0;
                while i < entries.len()
                    invariant
                        i <= entries@.len(),
                        out@.len() == i,
                        (v@ matches JsonSpec::Obj(es) && es.len() == entries@.len() && forall|
                            k: int,
                        |
                            0 <= k < entries@.len() ==> es[k] == ((#[trigger] entries@[k]).0@,
                            json_view(entries@[k].1))),
                        forall|k: int|
                            0 <= k < i ==> (#[trigger] out@[k]).0@ == entries@[k].0@ && json_view(
                                entries@[k].1,
                            ) == JsonSpec::Number(dec_digits(out@[k].1 as nat)),
                    decreases entries@.len() - i,
                {
                    match take_u8(&entries[i].1, field) {
                        Ok(n) => out.push((entries[i].0.clone(), n)),
                        Err(e) => {
                            proof {
                                let bad = i as int;
                                assert forall|a: PhpArray<u8>| v@ != spec_php_u8_json(a) by {
                                    if v@ == spec_php_u8_json(a) {
                                        let ps = a->Associative_0;
                                        assert(v@->Obj_0[bad] == ps@.map_values(
                                            |p: (String, u8)| (p.0@, JsonSpec::Number(
                                                dec_digits(p.1 as nat),
                                            )),
                                        )[bad]);
                                        assert(v@->Obj_0[bad] == (entries@[bad].0@, json_view(
                                            entries@[bad].1,
                                        )));
                                    }
                                }
                            }
                            return Err(e);
                        },
                    }
                    i += 1;
                }
                let a = PhpArray::Associative(out);
                proof {
                    assert(v@->Obj_0 =~= spec_php_u8_json(a)->Obj_0);
                    assert(v@ =~= spec_php_u8_json(a));
                }
                Ok(a)
            },
            _ => {
                proof {
                    assert forall|a: PhpArray<u8>| v@ != spec_php_u8_json(a) by {
                        if v@ == spec_php_u8_json(a) {
                            assert(spec_php_u8_json(a) is Arr || spec_php_u8_json(a) is Obj);
                        }
                    }
                }
                Err(DecodeError::WrongType(field.to_owned()))
            },
        }
    }

    /// Encodes the container back to the JSON shape it holds.
    pub fn to_json(&self) -> (r: JsonValue)
        ensures
            r@ == spec_php_u8_json(*self),
    {
        match self {
            PhpArray::Indexed(vs) => {
                let mut items: Vec<JsonValue> = Vec::new();
                let mut i: usize = 0;
                while i < vs.len()
                    invariant
                        i <= vs@.len(),
                        items@.len() == i,
                        forall|k: int|
                            0 <= k < i ==> json_view(#[trigger] items@[k]) == JsonSpec::Number(
                                dec_digits(vs@[k] as nat),
                            ),
                    decreases vs@.len() - i,
                {
                    items.push(JsonValue::Number(u8_to_dec(vs[i])));
                    i += 1;
                }
                let r = JsonValue::Array(items);
                proof {
                    assert(r@->Arr_0 =~= spec_php_u8_json(*self)->Arr_0);
                    assert(r@ =~= spec_php_u8_json(*self));
                }
                r
            },
            PhpArray::Associative(ps) => {
                let mut entries: Vec<(String, JsonValue)> = Vec::new();
                let mut i: usize = 0;
                while i < ps.len()
                    invariant
                        i <= ps@.len(),
                        entries@.len() == i,
                        forall|k: int|
                            0 <= k < i ==> (#[trigger] entries@[k]).0@ == ps@[k].0@ && json_view(
                                entries@[k].1,
                            ) == JsonSpec::Number(dec_digits(ps@[k].1 as nat)),
                    decreases ps@.len() - i,
                {
                    entries.push((ps[i].0.clone(), JsonValue::Number(u8_to_dec(ps[i].1))));
                    i += 1;
                }
                let r = JsonValue::Object(entries);
                proof {
                    assert(r@->Obj_0 =~= spec_php_u8_json(*self)->Obj_0);
                    assert(r@ =~= spec_php_u8_json(*self));
                }
                r
            },
        }
    }
}


/// How an optional string-valued container relates to what a lookup
/// found.
pub open spec fn opt_php_string_matches(o: Option<PhpArray<String>>, l: Option<JsonSpec>) -> bool {
    match o {
        Option::None => l is None || l == Option::Some(JsonSpec::Null),
        Option::Some(a) => l == Option::Some(spec_php_string_json(a)),
    }
}

/// Reads a required string-valued container field.
pub fn field_php_string(l: Option<&JsonValue>, field: &str) -> (r: Result<
    PhpArray<String>,
    DecodeError,
>)
    ensures
        match r {
            Ok(a) => opt_json_view(l) == Option::Some(spec_php_string_json(a)),
            Err(e) => !(exists|a: PhpArray<String>|
                opt_json_view(l) == Option::Some(spec_php_string_json(a))),
        },
{
    match l {
        Option::Some(j) => match PhpArray::<String>::from_json(j, field) {
            Ok(a) => Ok(a),
            Err(e) => {
                proof {
                    assert forall|a: PhpArray<String>|
                        opt_json_view(l) != Option::Some(spec_php_string_json(a)) by {
                        if opt_json_view(l) == Option::Some(spec_php_string_json(a)) {
                            match a {
                                PhpArray::Indexed(vs) => {
                                    assert(j@ == spec_string_seq_json(
                                        vs@.map_values(|s: String| s@),
                                    ));
                                },
                                PhpArray::Associative(ps) => {
                                    assert(j@ == spec_string_pairs_json(
                                        string_pairs_view(ps@),
                                    ));
                                },
                            }
                            assert(php_string_decodable(j@));
                        }
                    }
                }
                Err(e)
            },
        },
        Option::None => Err(DecodeError::MissingField(field.to_owned())),
    }
}

/// Reads an optional string-valued container field.
pub fn field_opt_php_string(l: Option<&JsonValue>, field: &str) -> (r: Result<
    Option<PhpArray<String>>,
    DecodeError,
>)
    ensures
        match r {
            Ok(o) => opt_php_string_matches(o, opt_json_view(l)),
            Err(e) => !(exists|o: Option<PhpArray<String>>|
                opt_php_string_matches(o, opt_json_view(l))),
        },
{
    match l {
        Option::None => Ok(Option::None),
        Option::Some(j) => match j {
            JsonValue::Null => Ok(Option::None),
            _ => {
                match field_php_string(l, field) {
                    Ok(a) => Ok(Option::Some(a)),
                    Err(e) => {
                        proof {
                            assert forall|o: Option<PhpArray<String>>|
                                !opt_php_string_matches(o, opt_json_view(l)) by {
                                if opt_php_string_matches(o, opt_json_view(l)) {
                                    if o is Some {
                                        let a = o->Some_0;
                                        assert(opt_json_view(l) == Option::Some(
                                            spec_php_string_json(a),
                                        ));
                                    }
                                }
                            }
                        }
                        Err(e)
                    },
                }
            },
        },
    }
}

/// Reads a required byte-valued container field.
pub fn field_php_u8(l: Option<&JsonValue>, field: &str) -> (r: Result<PhpArray<u8>, DecodeError>)
    ensures
        match r {
            Ok(a) => opt_json_view(l) == Option::Some(spec_php_u8_json(a)),
            Err(e) => !(exists|a: PhpArray<u8>|
                opt_json_view(l) == Option::Some(spec_php_u8_json(a))),
        },
{
    match l {
        Option::Some(j) => PhpArray::<u8>::from_json(j, field),
        Option::None => Err(DecodeError::MissingField(field.to_owned())),
    }
}


/// The document an optional string-valued container encodes to.
pub open spec fn spec_opt_php_string_json(o: Option<PhpArray<String>>) -> JsonSpec {
    match o {
        Option::None => JsonSpec::Null,
        Option::Some(a) => spec_php_string_json(a),
    }
}

/// Encodes an optional string-valued container, null when unset.
pub fn opt_php_string_to_json(o: &Option<PhpArray<String>>) -> (r: JsonValue)
    ensures
        r@ == spec_opt_php_string_json(*o),
{
    match o {
        Option::None => JsonValue::Null,
        Option::Some(a) => a.to_json(),
    }
}

} // verus!

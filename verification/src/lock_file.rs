//! The typed model of the dependency lock file.
//!
//! Every record decodes strictly: a key outside the schema is an error,
//! never silently dropped. Encoding writes each record's keys in one
//! fixed order, with `null` for an unset optional field, so that equal
//! values always encode to the same document.

use vstd::prelude::*;

use crate::json::field_bool;
use crate::json::field_opt_obj;
use crate::json::field_opt_string;
use crate::json::field_opt_string_pairs;
use crate::json::field_opt_string_vec;
use crate::json::field_string;
use crate::json::field_string_vec;
use crate::json::lemma_obj_lookup_at;
use crate::json::lookup;
use crate::json::obj_view;
use crate::json::opt_json_view;
use crate::json::opt_obj_matches;
use crate::json::opt_obj_to_json;
use crate::json::opt_pairs_to_json;
use crate::json::opt_string_matches;
use crate::json::opt_string_pairs_matches;
use crate::json::opt_string_to_json;
use crate::json::opt_strings_matches;
use crate::json::opt_strings_to_json;
use crate::json::spec_obj_lookup;
use crate::json::spec_opt_obj_json;
use crate::json::spec_opt_pairs_json;
use crate::json::spec_opt_string_json;
use crate::json::spec_opt_strings_json;
use crate::json::spec_string_seq_json;
use crate::json::str_eq;
use crate::json::strings_to_json;
use crate::json::take_string_vec;
use crate::json::DecodeError;
use crate::json::JsonSpec;
use crate::json::JsonValue;
use crate::json::json_view;
use crate::php_array::field_opt_php_string;
use crate::php_array::field_php_string;
use crate::php_array::field_php_u8;
use crate::php_array::opt_php_string_matches;
use crate::php_array::opt_php_string_to_json;
use crate::php_array::spec_opt_php_string_json;
use crate::php_array::spec_php_string_json;
use crate::php_array::spec_php_u8_json;
use crate::php_array::PhpArray;
use crate::text::json_text_of;
use crate::text::json_to_text;
use crate::text::parse_json_text;
use crate::text::parsed_json_of;

verus! {

broadcast use {vstd::std_specs::vec::group_vec_axioms, vstd::string::group_string_axioms};

/// A release-stability level.
#[derive(Debug, Clone, Copy, PartialEq, Eq)]
pub enum Stability {
    Dev,
    Alpha,
    Beta,
    RC,
    Stable,
}

/// The text a stability level reads and writes as.
pub open spec fn spec_stability_str(s: Stability) -> Seq<char> {
    match s {
        Stability::Dev => "dev"@,
        Stability::Alpha => "alpha"@,
        Stability::Beta => "beta"@,
        Stability::RC => "RC"@,
        Stability::Stable => "stable"@,
    }
}

impl Stability {
    /// The level's canonical text.
    pub fn as_text(&self) -> (r: &'static str)
        ensures
            r@ == spec_stability_str(*self),
    {
        match self {
            Stability::Dev => "dev",
            Stability::Alpha => "alpha",
            Stability::Beta => "beta",
            Stability::RC => "RC",
            Stability::Stable => "stable",
        }
    }

    /// Reads a level back from its text; any other text is no level.
    pub fn from_text(s: &str) -> (r: Option<Stability>)
        ensures
            match r {
                Some(st) => spec_stability_str(st) == s@,
                None => forall|st: Stability| spec_stability_str(st) != s@,
            },
    {
        if str_eq(s, "dev") {
            Some(Stability::Dev)
        } else if str_eq(s, "alpha") {
            Some(Stability::Alpha)
        } else if str_eq(s, "beta") {
            Some(Stability::Beta)
        } else if str_eq(s, "RC") {
            Some(Stability::RC)
        } else if str_eq(s, "stable") {
            Some(Stability::Stable)
        } else {
            None
        }
    }
}

/// One author of a package.
#[derive(Debug, PartialEq, Eq)]
pub struct Author {
    pub name: String,
    pub email: Option<String>,
    pub homepage: Option<String>,
    pub role: Option<String>,
}

/// The document an author encodes to.
pub open spec fn spec_author_json(a: Author) -> JsonSpec {
    JsonSpec::Obj(
        seq![
            ("name"@, JsonSpec::Str(a.name@)),
            ("email"@, spec_opt_string_json(a.email)),
            ("homepage"@, spec_opt_string_json(a.homepage)),
            ("role"@, spec_opt_string_json(a.role)),
        ],
    )
}

/// The keys an author record may hold.
pub open spec fn author_key(k: Seq<char>) -> bool {
    ||| k == "name"@
    ||| k == "email"@
    ||| k == "homepage"@
    ||| k == "role"@
}

/// How a decoded author relates to the document it was read from.
pub open spec fn author_json_matches(y: Author, j: JsonSpec) -> bool {
    &&& j matches JsonSpec::Obj(es)
    &&& forall|k: int| 0 <= k < es.len() ==> author_key((#[trigger] es[k]).0)
    &&& spec_obj_lookup(es, "name"@) == Some(JsonSpec::Str(y.name@))
    &&& opt_string_matches(y.email, spec_obj_lookup(es, "email"@))
    &&& opt_string_matches(y.homepage, spec_obj_lookup(es, "homepage"@))
    &&& opt_string_matches(y.role, spec_obj_lookup(es, "role"@))
}

impl Author {
    /// Decodes an author record, rejecting unknown keys.
    pub fn from_json(v: &JsonValue) -> (r: Result<Author, DecodeError>)
        ensures
            (r matches Ok(y) ==> author_json_matches(y, v@)),
            (r is Err ==> !(exists|y: Author| author_json_matches(y, v@))),
    {
        let entries = match v {
            JsonValue::Object(m) => m,
            _ => {
                proof {
                    assert(!(v@ is Obj));
                }
                return Err(DecodeError::WrongType("authors".to_owned()));
            },
        };
        proof {
            assert(v@->Obj_0 =~= obj_view(entries@));
        }
        let mut i: usize = 0;
        while i < entries.len()
            invariant
                i <= entries@.len(),
                v@ == JsonSpec::Obj(obj_view(entries@)),
                forall|k: int| 0 <= k < i ==> author_key((#[trigger] obj_view(entries@)[k]).0),
            decreases entries@.len() - i,
        {
            let ok = str_eq(entries[i].0.as_str(), "name") || str_eq(
                entries[i].0.as_str(),
                "email",
            ) || str_eq(entries[i].0.as_str(), "homepage") || str_eq(
                entries[i].0.as_str(),
                "role",
            );
            if !ok {
                proof {
                    let es = obj_view(entries@);
                    assert(es[i as int].0 == entries@[i as int].0@);
                    assert forall|y: Author| !author_json_matches(y, v@) by {
                        if author_json_matches(y, v@) {
                            assert(author_key(es[i as int].0));
                        }
                    }
                }
                return Err(DecodeError::UnknownField(entries[i].0.clone()));
            }
            i += 1;
        }
        let ghost es = obj_view(entries@);
        let name = match field_string(lookup(entries, "name"), "name") {
            Ok(s) => s,
            Err(e) => {
                proof {
                    assert forall|y: Author| !author_json_matches(y, v@) by {
                        if author_json_matches(y, v@) {
                            assert(spec_obj_lookup(es, "name"@) == Some(
                                JsonSpec::Str(y.name@),
                            ));
                        }
                    }
                }
                return Err(e);
            },
        };
        let email = match field_opt_string(lookup(entries, "email"), "email") {
            Ok(o) => o,
            Err(e) => {
                proof {
                    assert forall|y: Author| !author_json_matches(y, v@) by {
                        if author_json_matches(y, v@) {
                            assert(opt_string_matches(y.email, spec_obj_lookup(es, "email"@)));
                        }
                    }
                }
                return Err(e);
            },
        };
        let homepage = match field_opt_string(lookup(entries, "homepage"), "homepage") {
            Ok(o) => o,
            Err(e) => {
                proof {
                    assert forall|y: Author| !author_json_matches(y, v@) by {
                        if author_json_matches(y, v@) {
                            assert(opt_string_matches(
                                y.homepage,
                                spec_obj_lookup(es, "homepage"@),
                            ));
                        }
                    }
                }
                return Err(e);
            },
        };
        let role = match field_opt_string(lookup(entries, "role"), "role") {
            Ok(o) => o,
            Err(e) => {
                proof {
                    assert forall|y: Author| !author_json_matches(y, v@) by {
                        if author_json_matches(y, v@) {
                            assert(opt_string_matches(y.role, spec_obj_lookup(es, "role"@)));
                        }
                    }
                }
                return Err(e);
            },
        };
        let y = Author { name, email, homepage, role };
        proof {
            assert(author_json_matches(y, v@));
        }
        Ok(y)
    }

    /// Encodes the author with its keys in one fixed order.
    pub fn to_json(&self) -> (r: JsonValue)
        ensures
            r@ == spec_author_json(*self),
    {
        let mut entries: Vec<(String, JsonValue)> = Vec::new();
        entries.push(("name".to_owned(), JsonValue::Str(self.name.clone())));
        entries.push(("email".to_owned(), opt_string_to_json(&self.email)));
        entries.push(("homepage".to_owned(), opt_string_to_json(&self.homepage)));
        entries.push(("role".to_owned(), opt_string_to_json(&self.role)));
        let r = JsonValue::Object(entries);
        proof {
            let target = spec_author_json(*self)->Obj_0;
            assert(entries@.len() == 4);
            assert(r@->Obj_0.len() == 4);
            assert(target.len() == 4);
            assert(target[0] == ("name"@, JsonSpec::Str(self.name@)));
            assert(r@->Obj_0[0] == (entries@[0].0@, json_view(entries@[0].1)));
            assert(entries@[0].0@ == "name"@);
            assert(json_view(entries@[0].1) == JsonSpec::Str(self.name@));
            assert(r@->Obj_0[0] == target[0]);
            assert(r@->Obj_0[1] == target[1]);
            assert(r@->Obj_0[2] == target[2]);
            assert(r@->Obj_0[3] == target[3]);
            assert(r@->Obj_0 =~~= spec_author_json(*self)->Obj_0);
            assert(r@ =~= spec_author_json(*self));
        }
        r
    }
}

/// What an author encodes to decodes back to the same author.
pub proof fn lemma_author_matches_self(a: Author)
    ensures
        author_json_matches(a, spec_author_json(a)),
{
    reveal_strlit("name");
    reveal_strlit("email");
    reveal_strlit("homepage");
    reveal_strlit("role");
    let es = spec_author_json(a)->Obj_0;
    assert(es[0].0 == "name"@);
    assert(es[1].0 == "email"@);
    assert(es[2].0 == "homepage"@);
    assert(es[3].0 == "role"@);
    assert(("name"@)[0] == 'n');
    assert(("role"@)[0] == 'r');
    assert(("email"@)[0] == 'e');
    assert(("homepage"@)[0] == 'h');
    assert("name"@ != "email"@);
    assert("name"@ != "homepage"@);
    assert("name"@ != "role"@);
    assert("email"@ != "homepage"@);
    assert("email"@ != "role"@);
    assert("homepage"@ != "role"@);
    lemma_obj_lookup_at(es, "name"@, 0);
    lemma_obj_lookup_at(es, "email"@, 1);
    lemma_obj_lookup_at(es, "homepage"@, 2);
    lemma_obj_lookup_at(es, "role"@, 3);
}

/// A decode of an author's own encoding is unambiguous.
pub proof fn lemma_author_matches_det(y: Author, x: Author)
    requires
        author_json_matches(y, spec_author_json(x)),
    ensures
        spec_author_json(y) == spec_author_json(x),
{
    lemma_author_matches_self(x);
    assert(spec_author_json(y)->Obj_0 =~= spec_author_json(x)->Obj_0);
    assert(spec_author_json(y) =~= spec_author_json(x));
}


/// A way to fund a package's maintenance.
#[derive(Debug, PartialEq, Eq)]
pub struct Funding {
    pub url: String,
    pub funding_type: String,
}

/// The document a funding entry encodes to.
pub open spec fn spec_funding_json(f: Funding) -> JsonSpec {
    JsonSpec::Obj(
        seq![("url"@, JsonSpec::Str(f.url@)), ("type"@, JsonSpec::Str(f.funding_type@))],
    )
}

/// The keys a funding entry may hold.
pub open spec fn funding_key(k: Seq<char>) -> bool {
    ||| k == "url"@
    ||| k == "type"@
}

/// How a decoded funding entry relates to the document it was read from.
pub open spec fn funding_json_matches(y: Funding, j: JsonSpec) -> bool {
    &&& j matches JsonSpec::Obj(es)
    &&& forall|k: int| 0 <= k < es.len() ==> funding_key((#[trigger] es[k]).0)
    &&& spec_obj_lookup(es, "url"@) == Some(JsonSpec::Str(y.url@))
    &&& spec_obj_lookup(es, "type"@) == Some(JsonSpec::Str(y.funding_type@))
}

impl Funding {
    /// Decodes a funding entry, rejecting unknown keys.
    pub fn from_json(v: &JsonValue) -> (r: Result<Funding, DecodeError>)
        ensures
            (r matches Ok(y) ==> funding_json_matches(y, v@)),
            (r is Err ==> !(exists|y: Funding| funding_json_matches(y, v@))),
    {
        let entries = match v {
            JsonValue::Object(m) => m,
            _ => {
                proof {
                    assert(!(v@ is Obj));
                }
                return Err(DecodeError::WrongType("funding".to_owned()));
            },
        };
        proof {
            assert(v@->Obj_0 =~= obj_view(entries@));
        }
        let mut i: usize = 0;
        while i < entries.len()
            invariant
                i <= entries@.len(),
                v@ == JsonSpec::Obj(obj_view(entries@)),
                forall|k: int| 0 <= k < i ==> funding_key((#[trigger] obj_view(entries@)[k]).0),
            decreases entries@.len() - i,
        {
            let ok = str_eq(entries[i].0.as_str(), "url") || str_eq(
                entries[i].0.as_str(),
                "type",
            );
            if !ok {
                proof {
                    let es = obj_view(entries@);
                    assert(es[i as int].0 == entries@[i as int].0@);
                    assert forall|y: Funding| !funding_json_matches(y, v@) by {
                        if funding_json_matches(y, v@) {
                            assert(funding_key(es[i as int].0));
                        }
                    }
                }
                return Err(DecodeError::UnknownField(entries[i].0.clone()));
            }
            i += 1;
        }
        let ghost es = obj_view(entries@);
        let url = match field_string(lookup(entries, "url"), "url") {
            Ok(s) => s,
            Err(e) => {
                proof {
                    assert forall|y: Funding| !funding_json_matches(y, v@) by {
                        if funding_json_matches(y, v@) {
                            assert(spec_obj_lookup(es, "url"@) == Some(JsonSpec::Str(y.url@)));
                        }
                    }
                }
                return Err(e);
            },
        };
        let funding_type = match field_string(lookup(entries, "type"), "type") {
            Ok(s) => s,
            Err(e) => {
                proof {
                    assert forall|y: Funding| !funding_json_matches(y, v@) by {
                        if funding_json_matches(y, v@) {
                            assert(spec_obj_lookup(es, "type"@) == Some(
                                JsonSpec::Str(y.funding_type@),
                            ));
                        }
                    }
                }
                return Err(e);
            },
        };
        let y = Funding { url, funding_type };
        proof {
            assert(funding_json_matches(y, v@));
        }
        Ok(y)
    }

    /// Encodes the funding entry with its keys in one fixed order.
    pub fn to_json(&self) -> (r: JsonValue)
        ensures
            r@ == spec_funding_json(*self),
    {
        let mut entries: Vec<(String, JsonValue)> = Vec::new();
        entries.push(("url".to_owned(), JsonValue::Str(self.url.clone())));
        entries.push(("type".to_owned(), JsonValue::Str(self.funding_type.clone())));
        let r = JsonValue::Object(entries);
        proof {
            let target = spec_funding_json(*self)->Obj_0;
            assert(target[0] == ("url"@, JsonSpec::Str(self.url@)));
            assert(target[1] == ("type"@, JsonSpec::Str(self.funding_type@)));
            assert(entries@.len() == 2);
            assert(r@->Obj_0[0] == (entries@[0].0@, json_view(entries@[0].1)));
            assert(r@->Obj_0[1] == (entries@[1].0@, json_view(entries@[1].1)));
            assert(r@->Obj_0 =~~= target);
            assert(r@ =~= spec_funding_json(*self));
        }
        r
    }
}

/// What a funding entry encodes to decodes back to the same entry.
pub proof fn lemma_funding_matches_self(f: Funding)
    ensures
        funding_json_matches(f, spec_funding_json(f)),
{
    reveal_strlit("url");
    reveal_strlit("type");
    let es = spec_funding_json(f)->Obj_0;
    assert(es[0].0 == "url"@);
    assert(es[1].0 == "type"@);
    assert("url"@ != "type"@);
    lemma_obj_lookup_at(es, "url"@, 0);
    lemma_obj_lookup_at(es, "type"@, 1);
}

/// A decode of a funding entry's own encoding is unambiguous.
pub proof fn lemma_funding_matches_det(y: Funding, x: Funding)
    requires
        funding_json_matches(y, spec_funding_json(x)),
    ensures
        spec_funding_json(y) == spec_funding_json(x),
{
    lemma_funding_matches_self(x);
    assert(spec_funding_json(y)->Obj_0 =~~= spec_funding_json(x)->Obj_0);
    assert(spec_funding_json(y) =~= spec_funding_json(x));
}

/// Where a package's source repository lives.
#[derive(Debug, PartialEq, Eq)]
pub struct PackageSource {
    pub source_type: String,
    pub url: String,
    pub reference: String,
}

/// The document a source record encodes to.
pub open spec fn spec_source_json(s: PackageSource) -> JsonSpec {
    JsonSpec::Obj(
        seq![
            ("type"@, JsonSpec::Str(s.source_type@)),
            ("url"@, JsonSpec::Str(s.url@)),
            ("reference"@, JsonSpec::Str(s.reference@)),
        ],
    )
}

/// The keys a source record may hold.
pub open spec fn source_key(k: Seq<char>) -> bool {
    ||| k == "type"@
    ||| k == "url"@
    ||| k == "reference"@
}

/// How a decoded source record relates to the document it was read from.
pub open spec fn source_json_matches(y: PackageSource, j: JsonSpec) -> bool {
    &&& j matches JsonSpec::Obj(es)
    &&& forall|k: int| 0 <= k < es.len() ==> source_key((#[trigger] es[k]).0)
    &&& spec_obj_lookup(es, "type"@) == Some(JsonSpec::Str(y.source_type@))
    &&& spec_obj_lookup(es, "url"@) == Some(JsonSpec::Str(y.url@))
    &&& spec_obj_lookup(es, "reference"@) == Some(JsonSpec::Str(y.reference@))
}

impl PackageSource {
    /// Decodes a source record, rejecting unknown keys.
    pub fn from_json(v: &JsonValue) -> (r: Result<PackageSource, DecodeError>)
        ensures
            (r matches Ok(y) ==> source_json_matches(y, v@)),
            (r is Err ==> !(exists|y: PackageSource| source_json_matches(y, v@))),
    {
        let entries = match v {
            JsonValue::Object(m) => m,
            _ => {
                proof {
                    assert(!(v@ is Obj));
                }
                return Err(DecodeError::WrongType("source".to_owned()));
            },
        };
        proof {
            assert(v@->Obj_0 =~= obj_view(entries@));
        }
        let mut i: usize = 0;
        while i < entries.len()
            invariant
                i <= entries@.len(),
                v@ == JsonSpec::Obj(obj_view(entries@)),
                forall|k: int| 0 <= k < i ==> source_key((#[trigger] obj_view(entries@)[k]).0),
            decreases entries@.len() - i,
        {
            let ok = str_eq(entries[i].0.as_str(), "type") || str_eq(
                entries[i].0.as_str(),
                "url",
            ) || str_eq(entries[i].0.as_str(), "reference");
            if !ok {
                proof {
                    let es = obj_view(entries@);
                    assert(es[i as int].0 == entries@[i as int].0@);
                    assert forall|y: PackageSource| !source_json_matches(y, v@) by {
                        if source_json_matches(y, v@) {
                            assert(source_key(es[i as int].0));
                        }
                    }
                }
                return Err(DecodeError::UnknownField(entries[i].0.clone()));
            }
            i += 1;
        }
        let ghost es = obj_view(entries@);
        let source_type = match field_string(lookup(entries, "type"), "type") {
            Ok(s) => s,
            Err(e) => {
                proof {
                    assert forall|y: PackageSource| !source_json_matches(y, v@) by {
                        if source_json_matches(y, v@) {
                            assert(spec_obj_lookup(es, "type"@) == Some(
                                JsonSpec::Str(y.source_type@),
                            ));
                        }
                    }
                }
                return Err(e);
            },
        };
        let url = match field_string(lookup(entries, "url"), "url") {
            Ok(s) => s,
            Err(e) => {
                proof {
                    assert forall|y: PackageSource| !source_json_matches(y, v@) by {
                        if source_json_matches(y, v@) {
                            assert(spec_obj_lookup(es, "url"@) == Some(JsonSpec::Str(y.url@)));
                        }
                    }
                }
                return Err(e);
            },
        };
        let reference = match field_string(lookup(entries, "reference"), "reference") {
            Ok(s) => s,
            Err(e) => {
                proof {
                    assert forall|y: PackageSource| !source_json_matches(y, v@) by {
                        if source_json_matches(y, v@) {
                            assert(spec_obj_lookup(es, "reference"@) == Some(
                                JsonSpec::Str(y.reference@),
                            ));
                        }
                    }
                }
                return Err(e);
            },
        };
        let y = PackageSource { source_type, url, reference };
        proof {
            assert(source_json_matches(y, v@));
        }
        Ok(y)
    }

    /// Encodes the source record with its keys in one fixed order.
    pub fn to_json(&self) -> (r: JsonValue)
        ensures
            r@ == spec_source_json(*self),
    {
        let mut entries: Vec<(String, JsonValue)> = Vec::new();
        entries.push(("type".to_owned(), JsonValue::Str(self.source_type.clone())));
        entries.push(("url".to_owned(), JsonValue::Str(self.url.clone())));
        entries.push(("reference".to_owned(), JsonValue::Str(self.reference.clone())));
        let r = JsonValue::Object(entries);
        proof {
            let target = spec_source_json(*self)->Obj_0;
            assert(target[0] == ("type"@, JsonSpec::Str(self.source_type@)));
            assert(target[1] == ("url"@, JsonSpec::Str(self.url@)));
            assert(target[2] == ("reference"@, JsonSpec::Str(self.reference@)));
            assert(entries@.len() == 3);
            assert(r@->Obj_0[0] == (entries@[0].0@, json_view(entries@[0].1)));
            assert(r@->Obj_0[1] == (entries@[1].0@, json_view(entries@[1].1)));
            assert(r@->Obj_0[2] == (entries@[2].0@, json_view(entries@[2].1)));
            assert(r@->Obj_0 =~~= target);
            assert(r@ =~= spec_source_json(*self));
        }
        r
    }
}

/// What a source record encodes to decodes back to the same record.
pub proof fn lemma_source_matches_self(s: PackageSource)
    ensures
        source_json_matches(s, spec_source_json(s)),
{
    reveal_strlit("type");
    reveal_strlit("url");
    reveal_strlit("reference");
    let es = spec_source_json(s)->Obj_0;
    assert(es[0].0 == "type"@);
    assert(es[1].0 == "url"@);
    assert(es[2].0 == "reference"@);
    assert("type"@ != "url"@);
    assert("type"@ != "reference"@);
    assert("url"@ != "reference"@);
    lemma_obj_lookup_at(es, "type"@, 0);
    lemma_obj_lookup_at(es, "url"@, 1);
    lemma_obj_lookup_at(es, "reference"@, 2);
}

/// A decode of a source record's own encoding is unambiguous.
pub proof fn lemma_source_matches_det(y: PackageSource, x: PackageSource)
    requires
        source_json_matches(y, spec_source_json(x)),
    ensures
        spec_source_json(y) == spec_source_json(x),
{
    lemma_source_matches_self(x);
    assert(spec_source_json(y)->Obj_0 =~~= spec_source_json(x)->Obj_0);
    assert(spec_source_json(y) =~= spec_source_json(x));
}

/// Where a package's built distribution lives.
#[derive(Debug, PartialEq, Eq)]
pub struct PackageDist {
    pub dist_type: String,
    pub url: String,
    pub reference: String,
    pub shasum: String,
}

/// The document a distribution record encodes to.
pub open spec fn spec_dist_json(d: PackageDist) -> JsonSpec {
    JsonSpec::Obj(
        seq![
            ("type"@, JsonSpec::Str(d.dist_type@)),
            ("url"@, JsonSpec::Str(d.url@)),
            ("reference"@, JsonSpec::Str(d.reference@)),
            ("shasum"@, JsonSpec::Str(d.shasum@)),
        ],
    )
}

/// The keys a distribution record may hold.
pub open spec fn dist_key(k: Seq<char>) -> bool {
    ||| k == "type"@
    ||| k == "url"@
    ||| k == "reference"@
    ||| k == "shasum"@
}

/// How a decoded distribution record relates to the document it was
/// read from.
pub open spec fn dist_json_matches(y: PackageDist, j: JsonSpec) -> bool {
    &&& j matches JsonSpec::Obj(es)
    &&& forall|k: int| 0 <= k < es.len() ==> dist_key((#[trigger] es[k]).0)
    &&& spec_obj_lookup(es, "type"@) == Some(JsonSpec::Str(y.dist_type@))
    &&& spec_obj_lookup(es, "url"@) == Some(JsonSpec::Str(y.url@))
    &&& spec_obj_lookup(es, "reference"@) == Some(JsonSpec::Str(y.reference@))
    &&& spec_obj_lookup(es, "shasum"@) == Some(JsonSpec::Str(y.shasum@))
}

impl PackageDist {
    /// Decodes a distribution record, rejecting unknown keys.
    pub fn from_json(v: &JsonValue) -> (r: Result<PackageDist, DecodeError>)
        ensures
            (r matches Ok(y) ==> dist_json_matches(y, v@)),
            (r is Err ==> !(exists|y: PackageDist| dist_json_matches(y, v@))),
    {
        let entries = match v {
            JsonValue::Object(m) => m,
            _ => {
                proof {
                    assert(!(v@ is Obj));
                }
                return Err(DecodeError::WrongType("dist".to_owned()));
            },
        };
        proof {
            assert(v@->Obj_0 =~= obj_view(entries@));
        }
        let mut i: usize = 0;
        while i < entries.len()
            invariant
                i <= entries@.len(),
                v@ == JsonSpec::Obj(obj_view(entries@)),
                forall|k: int| 0 <= k < i ==> dist_key((#[trigger] obj_view(entries@)[k]).0),
            decreases entries@.len() - i,
        {
            let ok = str_eq(entries[i].0.as_str(), "type") || str_eq(
                entries[i].0.as_str(),
                "url",
            ) || str_eq(entries[i].0.as_str(), "reference") || str_eq(
                entries[i].0.as_str(),
                "shasum",
            );
            if !ok {
                proof {
                    let es = obj_view(entries@);
                    assert(es[i as int].0 == entries@[i as int].0@);
                    assert forall|y: PackageDist| !dist_json_matches(y, v@) by {
                        if dist_json_matches(y, v@) {
                            assert(dist_key(es[i as int].0));
                        }
                    }
                }
                return Err(DecodeError::UnknownField(entries[i].0.clone()));
            }
            i += 1;
        }
        let ghost es = obj_view(entries@);
        let dist_type = match field_string(lookup(entries, "type"), "type") {
            Ok(s) => s,
            Err(e) => {
                proof {
                    assert forall|y: PackageDist| !dist_json_matches(y, v@) by {
                        if dist_json_matches(y, v@) {
                            assert(spec_obj_lookup(es, "type"@) == Some(
                                JsonSpec::Str(y.dist_type@),
                            ));
                        }
                    }
                }
                return Err(e);
            },
        };
        let url = match field_string(lookup(entries, "url"), "url") {
            Ok(s) => s,
            Err(e) => {
                proof {
                    assert forall|y: PackageDist| !dist_json_matches(y, v@) by {
                        if dist_json_matches(y, v@) {
                            assert(spec_obj_lookup(es, "url"@) == Some(JsonSpec::Str(y.url@)));
                        }
                    }
                }
                return Err(e);
            },
        };
        let reference = match field_string(lookup(entries, "reference"), "reference") {
            Ok(s) => s,
            Err(e) => {
                proof {
                    assert forall|y: PackageDist| !dist_json_matches(y, v@) by {
                        if dist_json_matches(y, v@) {
                            assert(spec_obj_lookup(es, "reference"@) == Some(
                                JsonSpec::Str(y.reference@),
                            ));
                        }
                    }
                }
                return Err(e);
            },
        };
        let shasum = match field_string(lookup(entries, "shasum"), "shasum") {
            Ok(s) => s,
            Err(e) => {
                proof {
                    assert forall|y: PackageDist| !dist_json_matches(y, v@) by {
                        if dist_json_matches(y, v@) {
                            assert(spec_obj_lookup(es, "shasum"@) == Some(
                                JsonSpec::Str(y.shasum@),
                            ));
                        }
                    }
                }
                return Err(e);
            },
        };
        let y = PackageDist { dist_type, url, reference, shasum };
        proof {
            assert(dist_json_matches(y, v@));
        }
        Ok(y)
    }

    /// Encodes the distribution record with its keys in one fixed order.
    pub fn to_json(&self) -> (r: JsonValue)
        ensures
            r@ == spec_dist_json(*self),
    {
        let mut entries: Vec<(String, JsonValue)> = Vec::new();
        entries.push(("type".to_owned(), JsonValue::Str(self.dist_type.clone())));
        entries.push(("url".to_owned(), JsonValue::Str(self.url.clone())));
        entries.push(("reference".to_owned(), JsonValue::Str(self.reference.clone())));
        entries.push(("shasum".to_owned(), JsonValue::Str(self.shasum.clone())));
        let r = JsonValue::Object(entries);
        proof {
            let target = spec_dist_json(*self)->Obj_0;
            assert(target[0] == ("type"@, JsonSpec::Str(self.dist_type@)));
            assert(target[1] == ("url"@, JsonSpec::Str(self.url@)));
            assert(target[2] == ("reference"@, JsonSpec::Str(self.reference@)));
            assert(target[3] == ("shasum"@, JsonSpec::Str(self.shasum@)));
            assert(entries@.len() == 4);
            assert(r@->Obj_0[0] == (entries@[0].0@, json_view(entries@[0].1)));
            assert(r@->Obj_0[1] == (entries@[1].0@, json_view(entries@[1].1)));
            assert(r@->Obj_0[2] == (entries@[2].0@, json_view(entries@[2].1)));
            assert(r@->Obj_0[3] == (entries@[3].0@, json_view(entries@[3].1)));
            assert(r@->Obj_0 =~~= target);
            assert(r@ =~= spec_dist_json(*self));
        }
        r
    }
}

/// What a distribution record encodes to decodes back to the same
/// record.
pub proof fn lemma_dist_matches_self(d: PackageDist)
    ensures
        dist_json_matches(d, spec_dist_json(d)),
{
    reveal_strlit("type");
    reveal_strlit("url");
    reveal_strlit("reference");
    reveal_strlit("shasum");
    let es = spec_dist_json(d)->Obj_0;
    assert(es[0].0 == "type"@);
    assert(es[1].0 == "url"@);
    assert(es[2].0 == "reference"@);
    assert(es[3].0 == "shasum"@);
    assert("type"@ != "url"@);
    assert("type"@ != "reference"@);
    assert("type"@ != "shasum"@);
    assert("url"@ != "reference"@);
    assert("url"@ != "shasum"@);
    assert("reference"@ != "shasum"@);
    lemma_obj_lookup_at(es, "type"@, 0);
    lemma_obj_lookup_at(es, "url"@, 1);
    lemma_obj_lookup_at(es, "reference"@, 2);
    lemma_obj_lookup_at(es, "shasum"@, 3);
}

/// A decode of a distribution record's own encoding is unambiguous.
pub proof fn lemma_dist_matches_det(y: PackageDist, x: PackageDist)
    requires
        dist_json_matches(y, spec_dist_json(x)),
    ensures
        spec_dist_json(y) == spec_dist_json(x),
{
    lemma_dist_matches_self(x);
    assert(spec_dist_json(y)->Obj_0 =~~= spec_dist_json(x)->Obj_0);
    assert(spec_dist_json(y) =~= spec_dist_json(x));
}


/// One or several paths under a namespace prefix; the source format
/// allows either shape for a single value.
#[derive(Debug, PartialEq, Eq)]
pub enum AutoloadPath {
    Single(String),
    Multiple(Vec<String>),
}

/// The document a path value encodes to.
pub open spec fn spec_autoload_path_json(p: AutoloadPath) -> JsonSpec {
    match p {
        AutoloadPath::Single(s) => JsonSpec::Str(s@),
        AutoloadPath::Multiple(vs) => spec_string_seq_json(vs@.map_values(|s: String| s@)),
    }
}

impl AutoloadPath {
    /// Decodes a path value: a string stays single, an array of strings
    /// stays a list.
    pub fn from_json(v: &JsonValue, field: &str) -> (r: Result<AutoloadPath, DecodeError>)
        ensures
            (r matches Ok(p) ==> spec_autoload_path_json(p) == v@),
            (r is Err ==> !(exists|p: AutoloadPath| spec_autoload_path_json(p) == v@)),
    {
        match v {
            JsonValue::Str(s) => Ok(AutoloadPath::Single(s.clone())),
            _ => match take_string_vec(v, field) {
                Ok(vs) => Ok(AutoloadPath::Multiple(vs)),
                Err(e) => {
                    proof {
                        assert forall|p: AutoloadPath| spec_autoload_path_json(p) != v@ by {
                            if spec_autoload_path_json(p) == v@ {
                                match p {
                                    AutoloadPath::Single(s) => {
                                        assert(v@ is Str);
                                    },
                                    AutoloadPath::Multiple(vs) => {
                                        assert(v@ == spec_string_seq_json(
                                            vs@.map_values(|s: String| s@),
                                        ));
                                    },
                                }
                            }
                        }
                    }
                    Err(e)
                },
            },
        }
    }

    /// Encodes the path value back to the shape it holds.
    pub fn to_json(&self) -> (r: JsonValue)
        ensures
            r@ == spec_autoload_path_json(*self),
    {
        match self {
            AutoloadPath::Single(s) => JsonValue::Str(s.clone()),
            AutoloadPath::Multiple(vs) => strings_to_json(vs),
        }
    }
}

/// The view of a namespace-prefix-to-paths mapping.
pub open spec fn path_pairs_view(ps: Seq<(String, AutoloadPath)>) -> Seq<(Seq<char>, JsonSpec)> {
    ps.map_values(|p: (String, AutoloadPath)| (p.0@, spec_autoload_path_json(p.1)))
}

/// How an optional namespace mapping relates to what a lookup found.
pub open spec fn opt_path_pairs_matches(
    o: Option<Vec<(String, AutoloadPath)>>,
    l: Option<JsonSpec>,
) -> bool {
    match o {
        Option::None => l is None || l == Some(JsonSpec::Null),
        Option::Some(ps) => l == Some(JsonSpec::Obj(path_pairs_view(ps@))),
    }
}

/// The document an optional namespace mapping encodes to.
pub open spec fn spec_opt_path_pairs_json(o: Option<Vec<(String, AutoloadPath)>>) -> JsonSpec {
    match o {
        Option::None => JsonSpec::Null,
        Option::Some(ps) => JsonSpec::Obj(path_pairs_view(ps@)),
    }
}

/// Reads an optional namespace-prefix-to-paths mapping field.
fn field_opt_path_pairs(l: Option<&JsonValue>, field: &str) -> (r: Result<
    Option<Vec<(String, AutoloadPath)>>,
    DecodeError,
>)
    ensures
        match r {
            Ok(o) => opt_path_pairs_matches(o, opt_json_view(l)),
            Err(e) => !(exists|o: Option<Vec<(String, AutoloadPath)>>|
                opt_path_pairs_matches(o, opt_json_view(l))),
        },
{
    match l {
        Option::None => Ok(Option::None),
        Option::Some(j) => match j {
            JsonValue::Null => Ok(Option::None),
            JsonValue::Object(entries) => {
                let mut out: Vec<(String, AutoloadPath)> = Vec::new();
                let mut i: usize = 0;
                while i < entries.len()
                    invariant
                        i <= entries@.len(),
                        out@.len() == i,
                        opt_json_view(l) == Some(j@),
                        (j@ matches JsonSpec::Obj(es) && es.len() == entries@.len() && forall|
                            k: int,
                        |
                            0 <= k < entries@.len() ==> es[k] == ((#[trigger] entries@[k]).0@,
                            json_view(entries@[k].1))),
                        forall|k: int|
                            0 <= k < i ==> (#[trigger] out@[k]).0@ == entries@[k].0@
                                && spec_autoload_path_json(out@[k].1) == json_view(
                                entries@[k].1,
                            ),
                    decreases entries@.len() - i,
                {
                    match AutoloadPath::from_json(&entries[i].1, field) {
                        Ok(p) => out.push((entries[i].0.clone(), p)),
                        Err(e) => {
                            proof {
                                let bad = i as int;
                                assert forall|o: Option<Vec<(String, AutoloadPath)>>|
                                    !opt_path_pairs_matches(o, opt_json_view(l)) by {
                                    if opt_path_pairs_matches(o, opt_json_view(l)) {
                                        if o is Some {
                                            let ps = o->Some_0;
                                            assert(j@->Obj_0[bad] == path_pairs_view(ps@)[bad]);
                                            assert(j@->Obj_0[bad] == (entries@[bad].0@,
                                            json_view(entries@[bad].1)));
                                            assert(spec_autoload_path_json(ps@[bad].1)
                                                == json_view(entries@[bad].1));
                                        }
                                    }
                                }
                            }
                            return Err(e);
                        },
                    }
                    i += 1;
                }
                proof {
                    assert(j@->Obj_0 =~= path_pairs_view(out@));
                    assert(j@ == JsonSpec::Obj(path_pairs_view(out@)));
                }
                Ok(Option::Some(out))
            },
            _ => {
                proof {
                    assert forall|o: Option<Vec<(String, AutoloadPath)>>|
                        !opt_path_pairs_matches(o, opt_json_view(l)) by {
                        if opt_path_pairs_matches(o, opt_json_view(l)) {
                            assert(j@ is Obj || j@ is Null);
                        }
                    }
                }
                Err(DecodeError::WrongType(field.to_owned()))
            },
        },
    }
}

/// Encodes an optional namespace mapping, null when unset.
fn opt_path_pairs_to_json(o: &Option<Vec<(String, AutoloadPath)>>) -> (r: JsonValue)
    ensures
        r@ == spec_opt_path_pairs_json(*o),
{
    match o {
        Option::None => JsonValue::Null,
        Option::Some(ps) => {
            let mut entries: Vec<(String, JsonValue)> = Vec::new();
            let mut i: usize = 0;
            while i < ps.len()
                invariant
                    i <= ps@.len(),
                    entries@.len() == i,
                    forall|k: int|
                        0 <= k < i ==> (#[trigger] entries@[k]).0@ == ps@[k].0@ && json_view(
                            entries@[k].1,
                        ) == spec_autoload_path_json(ps@[k].1),
                decreases ps@.len() - i,
            {
                entries.push((ps[i].0.clone(), ps[i].1.to_json()));
                i += 1;
            }
            let r = JsonValue::Object(entries);
            proof {
                assert(r@->Obj_0 =~= path_pairs_view(ps@));
                assert(r@ =~= spec_opt_path_pairs_json(*o));
            }
            r
        },
    }
}

/// How a package's code is found at run time.
#[derive(Debug, PartialEq, Eq)]
pub struct AutoloadConfig {
    pub files: Option<Vec<String>>,
    pub classmap: Option<Vec<String>>,
    pub psr0: Option<Vec<(String, AutoloadPath)>>,
    pub psr4: Option<Vec<(String, AutoloadPath)>>,
    pub exclude_from_classmap: Option<Vec<String>>,
}

/// The document an autoload record encodes to.
pub open spec fn spec_autoload_json(a: AutoloadConfig) -> JsonSpec {
    JsonSpec::Obj(
        seq![
            ("files"@, spec_opt_strings_json(a.files)),
            ("classmap"@, spec_opt_strings_json(a.classmap)),
            ("psr-0"@, spec_opt_path_pairs_json(a.psr0)),
            ("psr-4"@, spec_opt_path_pairs_json(a.psr4)),
            ("exclude-from-classmap"@, spec_opt_strings_json(a.exclude_from_classmap)),
        ],
    )
}

/// The keys an autoload record may hold.
pub open spec fn autoload_key(k: Seq<char>) -> bool {
    ||| k == "files"@
    ||| k == "classmap"@
    ||| k == "psr-0"@
    ||| k == "psr-4"@
    ||| k == "exclude-from-classmap"@
}

/// How a decoded autoload record relates to the document it was read
/// from.
pub open spec fn autoload_json_matches(y: AutoloadConfig, j: JsonSpec) -> bool {
    &&& j matches JsonSpec::Obj(es)
    &&& forall|k: int| 0 <= k < es.len() ==> autoload_key((#[trigger] es[k]).0)
    &&& opt_strings_matches(y.files, spec_obj_lookup(es, "files"@))
    &&& opt_strings_matches(y.classmap, spec_obj_lookup(es, "classmap"@))
    &&& opt_path_pairs_matches(y.psr0, spec_obj_lookup(es, "psr-0"@))
    &&& opt_path_pairs_matches(y.psr4, spec_obj_lookup(es, "psr-4"@))
    &&& opt_strings_matches(y.exclude_from_classmap, spec_obj_lookup(es, "exclude-from-classmap"@))
}

impl AutoloadConfig {
    /// Decodes an autoload record, rejecting unknown keys.
    pub fn from_json(v: &JsonValue) -> (r: Result<AutoloadConfig, DecodeError>)
        ensures
            (r matches Ok(y) ==> autoload_json_matches(y, v@)),
            (r is Err ==> !(exists|y: AutoloadConfig| autoload_json_matches(y, v@))),
    {
        let entries = match v {
            JsonValue::Object(m) => m,
            _ => {
                proof {
                    assert(!(v@ is Obj));
                }
                return Err(DecodeError::WrongType("autoload".to_owned()));
            },
        };
        proof {
            assert(v@->Obj_0 =~= obj_view(entries@));
        }
        let mut i: usize = 0;
        while i < entries.len()
            invariant
                i <= entries@.len(),
                v@ == JsonSpec::Obj(obj_view(entries@)),
                forall|k: int| 0 <= k < i ==> autoload_key((#[trigger] obj_view(entries@)[k]).0),
            decreases entries@.len() - i,
        {
            let ok = str_eq(entries[i].0.as_str(), "files") || str_eq(
                entries[i].0.as_str(),
                "classmap",
            ) || str_eq(entries[i].0.as_str(), "psr-0") || str_eq(
                entries[i].0.as_str(),
                "psr-4",
            ) || str_eq(entries[i].0.as_str(), "exclude-from-classmap");
            if !ok {
                proof {
                    let es = obj_view(entries@);
                    assert(es[i as int].0 == entries@[i as int].0@);
                    assert forall|y: AutoloadConfig| !autoload_json_matches(y, v@) by {
                        if autoload_json_matches(y, v@) {
                            assert(autoload_key(es[i as int].0));
                        }
                    }
                }
                return Err(DecodeError::UnknownField(entries[i].0.clone()));
            }
            i += 1;
        }
        let ghost es = obj_view(entries@);
        let files = match field_opt_string_vec(lookup(entries, "files"), "files") {
            Ok(o) => o,
            Err(e) => {
                proof {
                    assert forall|y: AutoloadConfig| !autoload_json_matches(y, v@) by {
                        if autoload_json_matches(y, v@) {
                            assert(opt_strings_matches(y.files, spec_obj_lookup(es, "files"@)));
                        }
                    }
                }
                return Err(e);
            },
        };
        let classmap = match field_opt_string_vec(lookup(entries, "classmap"), "classmap") {
            Ok(o) => o,
            Err(e) => {
                proof {
                    assert forall|y: AutoloadConfig| !autoload_json_matches(y, v@) by {
                        if autoload_json_matches(y, v@) {
                            assert(opt_strings_matches(
                                y.classmap,
                                spec_obj_lookup(es, "classmap"@),
                            ));
                        }
                    }
                }
                return Err(e);
            },
        };
        let psr0 = match field_opt_path_pairs(lookup(entries, "psr-0"), "psr-0") {
            Ok(o) => o,
            Err(e) => {
                proof {
                    assert forall|y: AutoloadConfig| !autoload_json_matches(y, v@) by {
                        if autoload_json_matches(y, v@) {
                            assert(opt_path_pairs_matches(y.psr0, spec_obj_lookup(es, "psr-0"@)));
                        }
                    }
                }
                return Err(e);
            },
        };
        let psr4 = match field_opt_path_pairs(lookup(entries, "psr-4"), "psr-4") {
            Ok(o) => o,
            Err(e) => {
                proof {
                    assert forall|y: AutoloadConfig| !autoload_json_matches(y, v@) by {
                        if autoload_json_matches(y, v@) {
                            assert(opt_path_pairs_matches(y.psr4, spec_obj_lookup(es, "psr-4"@)));
                        }
                    }
                }
                return Err(e);
            },
        };
        let exclude_from_classmap = match field_opt_string_vec(
            lookup(entries, "exclude-from-classmap"),
            "exclude-from-classmap",
        ) {
            Ok(o) => o,
            Err(e) => {
                proof {
                    assert forall|y: AutoloadConfig| !autoload_json_matches(y, v@) by {
                        if autoload_json_matches(y, v@) {
                            assert(opt_strings_matches(
                                y.exclude_from_classmap,
                                spec_obj_lookup(es, "exclude-from-classmap"@),
                            ));
                        }
                    }
                }
                return Err(e);
            },
        };
        let y = AutoloadConfig { files, classmap, psr0, psr4, exclude_from_classmap };
        proof {
            assert(autoload_json_matches(y, v@));
        }
        Ok(y)
    }

    /// Encodes the autoload record with its keys in one fixed order.
    pub fn to_json(&self) -> (r: JsonValue)
        ensures
            r@ == spec_autoload_json(*self),
    {
        let mut entries: Vec<(String, JsonValue)> = Vec::new();
        entries.push(("files".to_owned(), opt_strings_to_json(&self.files)));
        entries.push(("classmap".to_owned(), opt_strings_to_json(&self.classmap)));
        entries.push(("psr-0".to_owned(), opt_path_pairs_to_json(&self.psr0)));
        entries.push(("psr-4".to_owned(), opt_path_pairs_to_json(&self.psr4)));
        entries.push((
            "exclude-from-classmap".to_owned(),
            opt_strings_to_json(&self.exclude_from_classmap),
        ));
        let r = JsonValue::Object(entries);
        proof {
            let target = spec_autoload_json(*self)->Obj_0;
            assert(target[0] == ("files"@, spec_opt_strings_json(self.files)));
            assert(target[1] == ("classmap"@, spec_opt_strings_json(self.classmap)));
            assert(target[2] == ("psr-0"@, spec_opt_path_pairs_json(self.psr0)));
            assert(target[3] == ("psr-4"@, spec_opt_path_pairs_json(self.psr4)));
            assert(target[4] == ("exclude-from-classmap"@, spec_opt_strings_json(
                self.exclude_from_classmap,
            )));
            assert(entries@.len() == 5);
            assert(r@->Obj_0[0] == (entries@[0].0@, json_view(entries@[0].1)));
            assert(r@->Obj_0[1] == (entries@[1].0@, json_view(entries@[1].1)));
            assert(r@->Obj_0[2] == (entries@[2].0@, json_view(entries@[2].1)));
            assert(r@->Obj_0[3] == (entries@[3].0@, json_view(entries@[3].1)));
            assert(r@->Obj_0[4] == (entries@[4].0@, json_view(entries@[4].1)));
            assert(r@->Obj_0 =~~= target);
            assert(r@ =~= spec_autoload_json(*self));
        }
        r
    }
}

/// What an autoload record encodes to decodes back to the same record.
pub proof fn lemma_autoload_matches_self(a: AutoloadConfig)
    ensures
        autoload_json_matches(a, spec_autoload_json(a)),
{
    reveal_strlit("files");
    reveal_strlit("classmap");
    reveal_strlit("psr-0");
    reveal_strlit("psr-4");
    reveal_strlit("exclude-from-classmap");
    let es = spec_autoload_json(a)->Obj_0;
    assert(es[0].0 == "files"@);
    assert(es[1].0 == "classmap"@);
    assert(es[2].0 == "psr-0"@);
    assert(es[3].0 == "psr-4"@);
    assert(es[4].0 == "exclude-from-classmap"@);
    assert(("files"@)[0] == 'f');
    assert(("psr-0"@)[0] == 'p');
    assert(("psr-0"@)[4] == '0');
    assert(("psr-4"@)[4] == '4');
    assert("files"@ != "classmap"@);
    assert("files"@ != "psr-0"@);
    assert("files"@ != "psr-4"@);
    assert("files"@ != "exclude-from-classmap"@);
    assert("classmap"@ != "psr-0"@);
    assert("classmap"@ != "psr-4"@);
    assert("classmap"@ != "exclude-from-classmap"@);
    assert("psr-0"@ != "psr-4"@);
    assert("psr-0"@ != "exclude-from-classmap"@);
    assert("psr-4"@ != "exclude-from-classmap"@);
    lemma_obj_lookup_at(es, "files"@, 0);
    lemma_obj_lookup_at(es, "classmap"@, 1);
    lemma_obj_lookup_at(es, "psr-0"@, 2);
    lemma_obj_lookup_at(es, "psr-4"@, 3);
    lemma_obj_lookup_at(es, "exclude-from-classmap"@, 4);
}

/// A decode of an autoload record's own encoding is unambiguous.
pub proof fn lemma_autoload_matches_det(y: AutoloadConfig, x: AutoloadConfig)
    requires
        autoload_json_matches(y, spec_autoload_json(x)),
    ensures
        spec_autoload_json(y) == spec_autoload_json(x),
{
    lemma_autoload_matches_self(x);
    assert(spec_autoload_json(y)->Obj_0 =~~= spec_autoload_json(x)->Obj_0);
    assert(spec_autoload_json(y) =~= spec_autoload_json(x));
}


/// How a required source record relates to what a lookup found.
pub open spec fn req_source_matches(y: PackageSource, l: Option<JsonSpec>) -> bool {
    l matches Some(js) && source_json_matches(y, js)
}

/// How a required distribution record relates to what a lookup found.
pub open spec fn req_dist_matches(y: PackageDist, l: Option<JsonSpec>) -> bool {
    l matches Some(js) && dist_json_matches(y, js)
}

/// How an optional autoload record relates to what a lookup found.
pub open spec fn opt_autoload_matches(o: Option<AutoloadConfig>, l: Option<JsonSpec>) -> bool {
    match o {
        Option::None => l is None || l == Some(JsonSpec::Null),
        Option::Some(a) => l matches Some(js) && autoload_json_matches(a, js),
    }
}

/// How an optional list of authors relates to what a lookup found.
pub open spec fn opt_authors_matches(o: Option<Vec<Author>>, l: Option<JsonSpec>) -> bool {
    match o {
        Option::None => l is None || l == Some(JsonSpec::Null),
        Option::Some(aus) => l matches Some(js) && js matches JsonSpec::Arr(its) && its.len()
            == aus@.len() && (forall|k: int|
            0 <= k < aus@.len() ==> author_json_matches(#[trigger] aus@[k], its[k])),
    }
}

/// How an optional list of funding entries relates to what a lookup
/// found.
pub open spec fn opt_funding_matches(o: Option<Vec<Funding>>, l: Option<JsonSpec>) -> bool {
    match o {
        Option::None => l is None || l == Some(JsonSpec::Null),
        Option::Some(fs) => l matches Some(js) && js matches JsonSpec::Arr(its) && its.len()
            == fs@.len() && (forall|k: int|
            0 <= k < fs@.len() ==> funding_json_matches(#[trigger] fs@[k], its[k])),
    }
}

/// Reads a required source record field.
fn field_source(l: Option<&JsonValue>, field: &str) -> (r: Result<PackageSource, DecodeError>)
    ensures
        match r {
            Ok(s) => req_source_matches(s, opt_json_view(l)),
            Err(e) => !(exists|s: PackageSource| req_source_matches(s, opt_json_view(l))),
        },
{
    match l {
        Option::Some(j) => PackageSource::from_json(j),
        Option::None => Err(DecodeError::MissingField(field.to_owned())),
    }
}

/// Reads a required distribution record field.
fn field_dist(l: Option<&JsonValue>, field: &str) -> (r: Result<PackageDist, DecodeError>)
    ensures
        match r {
            Ok(d) => req_dist_matches(d, opt_json_view(l)),
            Err(e) => !(exists|d: PackageDist| req_dist_matches(d, opt_json_view(l))),
        },
{
    match l {
        Option::Some(j) => PackageDist::from_json(j),
        Option::None => Err(DecodeError::MissingField(field.to_owned())),
    }
}

/// Reads an optional autoload record field.
fn field_opt_autoload(l: Option<&JsonValue>) -> (r: Result<Option<AutoloadConfig>, DecodeError>)
    ensures
        match r {
            Ok(o) => opt_autoload_matches(o, opt_json_view(l)),
            Err(e) => !(exists|o: Option<AutoloadConfig>|
                opt_autoload_matches(o, opt_json_view(l))),
        },
{
    match l {
        Option::None => Ok(Option::None),
        Option::Some(j) => match j {
            JsonValue::Null => Ok(Option::None),
            _ => match AutoloadConfig::from_json(j) {
                Ok(a) => Ok(Option::Some(a)),
                Err(e) => {
                    proof {
                        assert forall|o: Option<AutoloadConfig>|
                            !opt_autoload_matches(o, opt_json_view(l)) by {
                            if opt_autoload_matches(o, opt_json_view(l)) {
                                if o is Some {
                                    assert(autoload_json_matches(o->Some_0, j@));
                                }
                            }
                        }
                    }
                    Err(e)
                },
            },
        },
    }
}

/// Reads an optional list-of-authors field.
fn field_opt_authors(l: Option<&JsonValue>, field: &str) -> (r: Result<
    Option<Vec<Author>>,
    DecodeError,
>)
    ensures
        match r {
            Ok(o) => opt_authors_matches(o, opt_json_view(l)),
            Err(e) => !(exists|o: Option<Vec<Author>>|
                opt_authors_matches(o, opt_json_view(l))),
        },
{
    match l {
        Option::None => Ok(Option::None),
        Option::Some(j) => match j {
            JsonValue::Null => Ok(Option::None),
            JsonValue::Array(items) => {
                let mut out: Vec<Author> = Vec::new();
                let mut i: usize = 0;
                while i < items.len()
                    invariant
                        i <= items@.len(),
                        out@.len() == i,
                        opt_json_view(l) == Some(j@),
                        (j@ matches JsonSpec::Arr(its) && its.len() == items@.len() && forall|
                            k: int,
                        |
                            0 <= k < items@.len() ==> its[k] == json_view(#[trigger] items@[k])),
                        forall|k: int|
                            0 <= k < i ==> author_json_matches(
                                #[trigger] out@[k],
                                json_view(items@[k]),
                            ),
                    decreases items@.len() - i,
                {
                    match Author::from_json(&items[i]) {
                        Ok(a) => out.push(a),
                        Err(e) => {
                            proof {
                                let bad = i as int;
                                assert forall|o: Option<Vec<Author>>|
                                    !opt_authors_matches(o, opt_json_view(l)) by {
                                    if opt_authors_matches(o, opt_json_view(l)) {
                                        if o is Some {
                                            let aus = o->Some_0;
                                            assert(author_json_matches(
                                                aus@[bad],
                                                json_view(items@[bad]),
                                            ));
                                        }
                                    }
                                }
                            }
                            return Err(e);
                        },
                    }
                    i += 1;
                }
                Ok(Option::Some(out))
            },
            _ => {
                proof {
                    assert forall|o: Option<Vec<Author>>|
                        !opt_authors_matches(o, opt_json_view(l)) by {
                        if opt_authors_matches(o, opt_json_view(l)) {
                            assert(j@ is Arr || j@ is Null);
                        }
                    }
                }
                Err(DecodeError::WrongType(field.to_owned()))
            },
        },
    }
}

/// Reads an optional list-of-funding field.
fn field_opt_funding(l: Option<&JsonValue>, field: &str) -> (r: Result<
    Option<Vec<Funding>>,
    DecodeError,
>)
    ensures
        match r {
            Ok(o) => opt_funding_matches(o, opt_json_view(l)),
            Err(e) => !(exists|o: Option<Vec<Funding>>|
                opt_funding_matches(o, opt_json_view(l))),
        },
{
    match l {
        Option::None => Ok(Option::None),
        Option::Some(j) => match j {
            JsonValue::Null => Ok(Option::None),
            JsonValue::Array(items) => {
                let mut out: Vec<Funding> = Vec::new();
                let mut i: usize = 0;
                while i < items.len()
                    invariant
                        i <= items@.len(),
                        out@.len() == i,
                        opt_json_view(l) == Some(j@),
                        (j@ matches JsonSpec::Arr(its) && its.len() == items@.len() && forall|
                            k: int,
                        |
                            0 <= k < items@.len() ==> its[k] == json_view(#[trigger] items@[k])),
                        forall|k: int|
                            0 <= k < i ==> funding_json_matches(
                                #[trigger] out@[k],
                                json_view(items@[k]),
                            ),
                    decreases items@.len() - i,
                {
                    match Funding::from_json(&items[i]) {
                        Ok(f) => out.push(f),
                        Err(e) => {
                            proof {
                                let bad = i as int;
                                assert forall|o: Option<Vec<Funding>>|
                                    !opt_funding_matches(o, opt_json_view(l)) by {
                                    if opt_funding_matches(o, opt_json_view(l)) {
                                        if o is Some {
                                            let fs = o->Some_0;
                                            assert(funding_json_matches(
                                                fs@[bad],
                                                json_view(items@[bad]),
                                            ));
                                        }
                                    }
                                }
                            }
                            return Err(e);
                        },
                    }
                    i += 1;
                }
                Ok(Option::Some(out))
            },
            _ => {
                proof {
                    assert forall|o: Option<Vec<Funding>>|
                        !opt_funding_matches(o, opt_json_view(l)) by {
                        if opt_funding_matches(o, opt_json_view(l)) {
                            assert(j@ is Arr || j@ is Null);
                        }
                    }
                }
                Err(DecodeError::WrongType(field.to_owned()))
            },
        },
    }
}

/// The document an optional autoload record encodes to.
pub open spec fn spec_opt_autoload_json(o: Option<AutoloadConfig>) -> JsonSpec {
    match o {
        Option::None => JsonSpec::Null,
        Option::Some(a) => spec_autoload_json(a),
    }
}

/// Encodes an optional autoload record, null when unset.
fn opt_autoload_to_json(o: &Option<AutoloadConfig>) -> (r: JsonValue)
    ensures
        r@ == spec_opt_autoload_json(*o),
{
    match o {
        Option::None => JsonValue::Null,
        Option::Some(a) => a.to_json(),
    }
}

/// The document an optional list of authors encodes to.
pub open spec fn spec_opt_authors_json(o: Option<Vec<Author>>) -> JsonSpec {
    match o {
        Option::None => JsonSpec::Null,
        Option::Some(aus) => JsonSpec::Arr(aus@.map_values(|a: Author| spec_author_json(a))),
    }
}

/// Encodes an optional list of authors, null when unset.
fn opt_authors_to_json(o: &Option<Vec<Author>>) -> (r: JsonValue)
    ensures
        r@ == spec_opt_authors_json(*o),
{
    match o {
        Option::None => JsonValue::Null,
        Option::Some(aus) => {
            let mut items: Vec<JsonValue> = Vec::new();
            let mut i: usize = 0;
            while i < aus.len()
                invariant
                    i <= aus@.len(),
                    items@.len() == i,
                    forall|k: int|
                        0 <= k < i ==> json_view(#[trigger] items@[k]) == spec_author_json(
                            aus@[k],
                        ),
                decreases aus@.len() - i,
            {
                items.push(aus[i].to_json());
                i += 1;
            }
            let r = JsonValue::Array(items);
            proof {
                assert(r@->Arr_0 =~= spec_opt_authors_json(*o)->Arr_0);
                assert(r@ =~= spec_opt_authors_json(*o));
            }
            r
        },
    }
}

/// The document an optional list of funding entries encodes to.
pub open spec fn spec_opt_funding_json(o: Option<Vec<Funding>>) -> JsonSpec {
    match o {
        Option::None => JsonSpec::Null,
        Option::Some(fs) => JsonSpec::Arr(fs@.map_values(|f: Funding| spec_funding_json(f))),
    }
}

/// Encodes an optional list of funding entries, null when unset.
fn opt_funding_to_json(o: &Option<Vec<Funding>>) -> (r: JsonValue)
    ensures
        r@ == spec_opt_funding_json(*o),
{
    match o {
        Option::None => JsonValue::Null,
        Option::Some(fs) => {
            let mut items: Vec<JsonValue> = Vec::new();
            let mut i: usize = 0;
            while i < fs.len()
                invariant
                    i <= fs@.len(),
                    items@.len() == i,
                    forall|k: int|
                        0 <= k < i ==> json_view(#[trigger] items@[k]) == spec_funding_json(
                            fs@[k],
                        ),
                decreases fs@.len() - i,
            {
                items.push(fs[i].to_json());
                i += 1;
            }
            let r = JsonValue::Array(items);
            proof {
                assert(r@->Arr_0 =~= spec_opt_funding_json(*o)->Arr_0);
                assert(r@ =~= spec_opt_funding_json(*o));
            }
            r
        },
    }
}

/// One resolved dependency.
#[derive(Debug, PartialEq, Eq)]
pub struct Package {
    pub name: String,
    pub version: String,
    pub source: PackageSource,
    pub dist: PackageDist,
    pub require: PhpArray<String>,
    pub suggest: Option<Vec<(String, String)>>,
    pub conflict: Option<PhpArray<String>>,
    pub require_dev: Option<PhpArray<String>>,
    pub package_type: String,
    pub extra: Option<Vec<(String, JsonValue)>>,
    pub autoload: Option<AutoloadConfig>,
    pub autoload_dev: Option<AutoloadConfig>,
    pub notification_url: String,
    pub license: Vec<String>,
    pub authors: Option<Vec<Author>>,
    pub description: String,
    pub homepage: Option<String>,
    pub keywords: Option<Vec<String>>,
    pub support: Option<Vec<(String, String)>>,
    pub funding: Option<Vec<Funding>>,
    pub time: String,
}

/// The document a package record encodes to.
pub open spec fn spec_package_json(p: Package) -> JsonSpec {
    JsonSpec::Obj(
        seq![
            ("name"@, JsonSpec::Str(p.name@)),
            ("version"@, JsonSpec::Str(p.version@)),
            ("source"@, spec_source_json(p.source)),
            ("dist"@, spec_dist_json(p.dist)),
            ("require"@, spec_php_string_json(p.require)),
            ("suggest"@, spec_opt_pairs_json(p.suggest)),
            ("conflict"@, spec_opt_php_string_json(p.conflict)),
            ("require-dev"@, spec_opt_php_string_json(p.require_dev)),
            ("type"@, JsonSpec::Str(p.package_type@)),
            ("extra"@, spec_opt_obj_json(p.extra)),
            ("autoload"@, spec_opt_autoload_json(p.autoload)),
            ("autoload-dev"@, spec_opt_autoload_json(p.autoload_dev)),
            ("notification-url"@, JsonSpec::Str(p.notification_url@)),
            ("license"@, spec_string_seq_json(p.license@.map_values(|s: String| s@))),
            ("authors"@, spec_opt_authors_json(p.authors)),
            ("description"@, JsonSpec::Str(p.description@)),
            ("homepage"@, spec_opt_string_json(p.homepage)),
            ("keywords"@, spec_opt_strings_json(p.keywords)),
            ("support"@, spec_opt_pairs_json(p.support)),
            ("funding"@, spec_opt_funding_json(p.funding)),
            ("time"@, JsonSpec::Str(p.time@)),
        ],
    )
}

/// The keys a package record may hold.
pub open spec fn package_key(k: Seq<char>) -> bool {
    ||| k == "name"@
    ||| k == "version"@
    ||| k == "source"@
    ||| k == "dist"@
    ||| k == "require"@
    ||| k == "suggest"@
    ||| k == "conflict"@
    ||| k == "require-dev"@
    ||| k == "type"@
    ||| k == "extra"@
    ||| k == "autoload"@
    ||| k == "autoload-dev"@
    ||| k == "notification-url"@
    ||| k == "license"@
    ||| k == "authors"@
    ||| k == "description"@
    ||| k == "homepage"@
    ||| k == "keywords"@
    ||| k == "support"@
    ||| k == "funding"@
    ||| k == "time"@
}

/// How a decoded package relates to the document it was read from.
pub open spec fn package_json_matches(y: Package, j: JsonSpec) -> bool {
    &&& j matches JsonSpec::Obj(es)
    &&& forall|k: int| 0 <= k < es.len() ==> package_key((#[trigger] es[k]).0)
    &&& y.name@.len() > 0
    &&& spec_obj_lookup(es, "name"@) == Some(JsonSpec::Str(y.name@))
    &&& spec_obj_lookup(es, "version"@) == Some(JsonSpec::Str(y.version@))
    &&& req_source_matches(y.source, spec_obj_lookup(es, "source"@))
    &&& req_dist_matches(y.dist, spec_obj_lookup(es, "dist"@))
    &&& spec_obj_lookup(es, "require"@) == Some(spec_php_string_json(y.require))
    &&& opt_string_pairs_matches(y.suggest, spec_obj_lookup(es, "suggest"@))
    &&& opt_php_string_matches(y.conflict, spec_obj_lookup(es, "conflict"@))
    &&& opt_php_string_matches(y.require_dev, spec_obj_lookup(es, "require-dev"@))
    &&& spec_obj_lookup(es, "type"@) == Some(JsonSpec::Str(y.package_type@))
    &&& opt_obj_matches(y.extra, spec_obj_lookup(es, "extra"@))
    &&& opt_autoload_matches(y.autoload, spec_obj_lookup(es, "autoload"@))
    &&& opt_autoload_matches(y.autoload_dev, spec_obj_lookup(es, "autoload-dev"@))
    &&& spec_obj_lookup(es, "notification-url"@) == Some(JsonSpec::Str(y.notification_url@))
    &&& spec_obj_lookup(es, "license"@) == Some(spec_string_seq_json(y.license@.map_values(|s: String| s@)))
    &&& opt_authors_matches(y.authors, spec_obj_lookup(es, "authors"@))
    &&& spec_obj_lookup(es, "description"@) == Some(JsonSpec::Str(y.description@))
    &&& opt_string_matches(y.homepage, spec_obj_lookup(es, "homepage"@))
    &&& opt_strings_matches(y.keywords, spec_obj_lookup(es, "keywords"@))
    &&& opt_string_pairs_matches(y.support, spec_obj_lookup(es, "support"@))
    &&& opt_funding_matches(y.funding, spec_obj_lookup(es, "funding"@))
    &&& spec_obj_lookup(es, "time"@) == Some(JsonSpec::Str(y.time@))
}

impl Package {
    /// Decodes a package record, rejecting unknown keys, an empty name
    /// included.
    #[verifier::rlimit(100)]
    pub fn from_json(v: &JsonValue) -> (r: Result<Package, DecodeError>)
        ensures
            (r matches Ok(y) ==> package_json_matches(y, v@)),
            (r is Err ==> !(exists|y: Package| package_json_matches(y, v@))),
    {
        let entries = match v {
            JsonValue::Object(m) => m,
            _ => {
                proof {
                    assert(!(v@ is Obj));
                }
                return Err(DecodeError::WrongType("package".to_owned()));
            },
        };
        proof {
            assert(v@->Obj_0 =~= obj_view(entries@));
        }
        let mut i: usize = 0;
        while i < entries.len()
            invariant
                i <= entries@.len(),
                v@ == JsonSpec::Obj(obj_view(entries@)),
                forall|k: int| 0 <= k < i ==> package_key((#[trigger] obj_view(entries@)[k]).0),
            decreases entries@.len() - i,
        {
            let ok = str_eq(entries[i].0.as_str(), "name") || str_eq(entries[i].0.as_str(), "version") || str_eq(entries[i].0.as_str(), "source") || str_eq(entries[i].0.as_str(), "dist") || str_eq(entries[i].0.as_str(), "require") || str_eq(entries[i].0.as_str(), "suggest") || str_eq(entries[i].0.as_str(), "conflict") || str_eq(entries[i].0.as_str(), "require-dev") || str_eq(entries[i].0.as_str(), "type") || str_eq(entries[i].0.as_str(), "extra") || str_eq(entries[i].0.as_str(), "autoload") || str_eq(entries[i].0.as_str(), "autoload-dev") || str_eq(entries[i].0.as_str(), "notification-url") || str_eq(entries[i].0.as_str(), "license") || str_eq(entries[i].0.as_str(), "authors") || str_eq(entries[i].0.as_str(), "description") || str_eq(entries[i].0.as_str(), "homepage") || str_eq(entries[i].0.as_str(), "keywords") || str_eq(entries[i].0.as_str(), "support") || str_eq(entries[i].0.as_str(), "funding") || str_eq(entries[i].0.as_str(), "time");
            if !ok {
                proof {
                    let es = obj_view(entries@);
                    assert(es[i as int].0 == entries@[i as int].0@);
                    assert forall|y: Package| !package_json_matches(y, v@) by {
                        if package_json_matches(y, v@) {
                            assert(package_key(es[i as int].0));
                        }
                    }
                }
                return Err(DecodeError::UnknownField(entries[i].0.clone()));
            }
            i += 1;
        }
        let ghost es = obj_view(entries@);
        let name = match field_string(lookup(entries, "name"), "name") {
            Ok(x) => x,
            Err(e) => {
                proof {
                    assert forall|y: Package| !package_json_matches(y, v@) by {
                        if package_json_matches(y, v@) {
                            assert(spec_obj_lookup(es, "name"@) == Some(JsonSpec::Str(y.name@)));
                        }
                    }
                }
                return Err(e);
            },
        };
        if name.as_str().unicode_len() == 0 {
            proof {
                assert forall|y: Package| !package_json_matches(y, v@) by {
                    if package_json_matches(y, v@) {
                        assert(spec_obj_lookup(es, "name"@) == Some(JsonSpec::Str(y.name@)));
                        assert(y.name@.len() > 0);
                    }
                }
            }
            return Err(DecodeError::EmptyName);
        }
        let version = match field_string(lookup(entries, "version"), "version") {
            Ok(x) => x,
            Err(e) => {
                proof {
                    assert forall|y: Package| !package_json_matches(y, v@) by {
                        if package_json_matches(y, v@) {
                            assert(spec_obj_lookup(es, "version"@) == Some(JsonSpec::Str(y.version@)));
                        }
                    }
                }
                return Err(e);
            },
        };
        let source = match field_source(lookup(entries, "source"), "source") {
            Ok(x) => x,
            Err(e) => {
                proof {
                    assert forall|y: Package| !package_json_matches(y, v@) by {
                        if package_json_matches(y, v@) {
                            assert(req_source_matches(y.source, spec_obj_lookup(es, "source"@)));
                        }
                    }
                }
                return Err(e);
            },
        };
        let dist = match field_dist(lookup(entries, "dist"), "dist") {
            Ok(x) => x,
            Err(e) => {
                proof {
                    assert forall|y: Package| !package_json_matches(y, v@) by {
                        if package_json_matches(y, v@) {
                            assert(req_dist_matches(y.dist, spec_obj_lookup(es, "dist"@)));
                        }
                    }
                }
                return Err(e);
            },
        };
        let require = match field_php_string(lookup(entries, "require"), "require") {
            Ok(x) => x,
            Err(e) => {
                proof {
                    assert forall|y: Package| !package_json_matches(y, v@) by {
                        if package_json_matches(y, v@) {
                            assert(spec_obj_lookup(es, "require"@) == Some(spec_php_string_json(y.require)));
                        }
                    }
                }
                return Err(e);
            },
        };
        let suggest = match field_opt_string_pairs(lookup(entries, "suggest"), "suggest") {
            Ok(x) => x,
            Err(e) => {
                proof {
                    assert forall|y: Package| !package_json_matches(y, v@) by {
                        if package_json_matches(y, v@) {
                            assert(opt_string_pairs_matches(y.suggest, spec_obj_lookup(es, "suggest"@)));
                        }
                    }
                }
                return Err(e);
            },
        };
        let conflict = match field_opt_php_string(lookup(entries, "conflict"), "conflict") {
            Ok(x) => x,
            Err(e) => {
                proof {
                    assert forall|y: Package| !package_json_matches(y, v@) by {
                        if package_json_matches(y, v@) {
                            assert(opt_php_string_matches(y.conflict, spec_obj_lookup(es, "conflict"@)));
                        }
                    }
                }
                return Err(e);
            },
        };
        let require_dev = match field_opt_php_string(lookup(entries, "require-dev"), "require-dev") {
            Ok(x) => x,
            Err(e) => {
                proof {
                    assert forall|y: Package| !package_json_matches(y, v@) by {
                        if package_json_matches(y, v@) {
                            assert(opt_php_string_matches(y.require_dev, spec_obj_lookup(es, "require-dev"@)));
                        }
                    }
                }
                return Err(e);
            },
        };
        let package_type = match field_string(lookup(entries, "type"), "type") {
            Ok(x) => x,
            Err(e) => {
                proof {
                    assert forall|y: Package| !package_json_matches(y, v@) by {
                        if package_json_matches(y, v@) {
                            assert(spec_obj_lookup(es, "type"@) == Some(JsonSpec::Str(y.package_type@)));
                        }
                    }
                }
                return Err(e);
            },
        };
        let extra = match field_opt_obj(lookup(entries, "extra"), "extra") {
            Ok(x) => x,
            Err(e) => {
                proof {
                    assert forall|y: Package| !package_json_matches(y, v@) by {
                        if package_json_matches(y, v@) {
                            assert(opt_obj_matches(y.extra, spec_obj_lookup(es, "extra"@)));
                        }
                    }
                }
                return Err(e);
            },
        };
        let autoload = match field_opt_autoload(lookup(entries, "autoload")) {
            Ok(x) => x,
            Err(e) => {
                proof {
                    assert forall|y: Package| !package_json_matches(y, v@) by {
                        if package_json_matches(y, v@) {
                            assert(opt_autoload_matches(y.autoload, spec_obj_lookup(es, "autoload"@)));
                        }
                    }
                }
                return Err(e);
            },
        };
        let autoload_dev = match field_opt_autoload(lookup(entries, "autoload-dev")) {
            Ok(x) => x,
            Err(e) => {
                proof {
                    assert forall|y: Package| !package_json_matches(y, v@) by {
                        if package_json_matches(y, v@) {
                            assert(opt_autoload_matches(y.autoload_dev, spec_obj_lookup(es, "autoload-dev"@)));
                        }
                    }
                }
                return Err(e);
            },
        };
        let notification_url = match field_string(lookup(entries, "notification-url"), "notification-url") {
            Ok(x) => x,
            Err(e) => {
                proof {
                    assert forall|y: Package| !package_json_matches(y, v@) by {
                        if package_json_matches(y, v@) {
                            assert(spec_obj_lookup(es, "notification-url"@) == Some(JsonSpec::Str(y.notification_url@)));
                        }
                    }
                }
                return Err(e);
            },
        };
        let license = match field_string_vec(lookup(entries, "license"), "license") {
            Ok(x) => x,
            Err(e) => {
                proof {
                    assert forall|y: Package| !package_json_matches(y, v@) by {
                        if package_json_matches(y, v@) {
                            assert(spec_obj_lookup(es, "license"@) == Some(spec_string_seq_json(y.license@.map_values(|s: String| s@))));
                        }
                    }
                }
                return Err(e);
            },
        };
        let authors = match field_opt_authors(lookup(entries, "authors"), "authors") {
            Ok(x) => x,
            Err(e) => {
                proof {
                    assert forall|y: Package| !package_json_matches(y, v@) by {
                        if package_json_matches(y, v@) {
                            assert(opt_authors_matches(y.authors, spec_obj_lookup(es, "authors"@)));
                        }
                    }
                }
                return Err(e);
            },
        };
        let description = match field_string(lookup(entries, "description"), "description") {
            Ok(x) => x,
            Err(e) => {
                proof {
                    assert forall|y: Package| !package_json_matches(y, v@) by {
                        if package_json_matches(y, v@) {
                            assert(spec_obj_lookup(es, "description"@) == Some(JsonSpec::Str(y.description@)));
                        }
                    }
                }
                return Err(e);
            },
        };
        let homepage = match field_opt_string(lookup(entries, "homepage"), "homepage") {
            Ok(x) => x,
            Err(e) => {
                proof {
                    assert forall|y: Package| !package_json_matches(y, v@) by {
                        if package_json_matches(y, v@) {
                            assert(opt_string_matches(y.homepage, spec_obj_lookup(es, "homepage"@)));
                        }
                    }
                }
                return Err(e);
            },
        };
        let keywords = match field_opt_string_vec(lookup(entries, "keywords"), "keywords") {
            Ok(x) => x,
            Err(e) => {
                proof {
                    assert forall|y: Package| !package_json_matches(y, v@) by {
                        if package_json_matches(y, v@) {
                            assert(opt_strings_matches(y.keywords, spec_obj_lookup(es, "keywords"@)));
                        }
                    }
                }
                return Err(e);
            },
        };
        let support = match field_opt_string_pairs(lookup(entries, "support"), "support") {
            Ok(x) => x,
            Err(e) => {
                proof {
                    assert forall|y: Package| !package_json_matches(y, v@) by {
                        if package_json_matches(y, v@) {
                            assert(opt_string_pairs_matches(y.support, spec_obj_lookup(es, "support"@)));
                        }
                    }
                }
                return Err(e);
            },
        };
        let funding = match field_opt_funding(lookup(entries, "funding"), "funding") {
            Ok(x) => x,
            Err(e) => {
                proof {
                    assert forall|y: Package| !package_json_matches(y, v@) by {
                        if package_json_matches(y, v@) {
                            assert(opt_funding_matches(y.funding, spec_obj_lookup(es, "funding"@)));
                        }
                    }
                }
                return Err(e);
            },
        };
        let time = match field_string(lookup(entries, "time"), "time") {
            Ok(x) => x,
            Err(e) => {
                proof {
                    assert forall|y: Package| !package_json_matches(y, v@) by {
                        if package_json_matches(y, v@) {
                            assert(spec_obj_lookup(es, "time"@) == Some(JsonSpec::Str(y.time@)));
                        }
                    }
                }
                return Err(e);
            },
        };
        let y = Package { name, version, source, dist, require, suggest, conflict, require_dev, package_type, extra, autoload, autoload_dev, notification_url, license, authors, description, homepage, keywords, support, funding, time };
        proof {
            assert(package_json_matches(y, v@));
        }
        Ok(y)
    }

    /// Encodes the package with its keys in one fixed order.
    #[verifier::rlimit(100)]
    pub fn to_json(&self) -> (r: JsonValue)
        ensures
            r@ == spec_package_json(*self),
    {
        let mut entries: Vec<(String, JsonValue)> = Vec::new();
        entries.push(("name".to_owned(), JsonValue::Str(self.name.clone())));
        entries.push(("version".to_owned(), JsonValue::Str(self.version.clone())));
        entries.push(("source".to_owned(), self.source.to_json()));
        entries.push(("dist".to_owned(), self.dist.to_json()));
        entries.push(("require".to_owned(), self.require.to_json()));
        entries.push(("suggest".to_owned(), opt_pairs_to_json(&self.suggest)));
        entries.push(("conflict".to_owned(), opt_php_string_to_json(&self.conflict)));
        entries.push(("require-dev".to_owned(), opt_php_string_to_json(&self.require_dev)));
        entries.push(("type".to_owned(), JsonValue::Str(self.package_type.clone())));
        entries.push(("extra".to_owned(), opt_obj_to_json(&self.extra)));
        entries.push(("autoload".to_owned(), opt_autoload_to_json(&self.autoload)));
        entries.push(("autoload-dev".to_owned(), opt_autoload_to_json(&self.autoload_dev)));
        entries.push(("notification-url".to_owned(), JsonValue::Str(self.notification_url.clone())));
        entries.push(("license".to_owned(), strings_to_json(&self.license)));
        entries.push(("authors".to_owned(), opt_authors_to_json(&self.authors)));
        entries.push(("description".to_owned(), JsonValue::Str(self.description.clone())));
        entries.push(("homepage".to_owned(), opt_string_to_json(&self.homepage)));
        entries.push(("keywords".to_owned(), opt_strings_to_json(&self.keywords)));
        entries.push(("support".to_owned(), opt_pairs_to_json(&self.support)));
        entries.push(("funding".to_owned(), opt_funding_to_json(&self.funding)));
        entries.push(("time".to_owned(), JsonValue::Str(self.time.clone())));
        let r = JsonValue::Object(entries);
        proof {
            let target = spec_package_json(*self)->Obj_0;
            assert(target[0] == ("name"@, JsonSpec::Str(self.name@)));
            assert(target[1] == ("version"@, JsonSpec::Str(self.version@)));
            assert(target[2] == ("source"@, spec_source_json(self.source)));
            assert(target[3] == ("dist"@, spec_dist_json(self.dist)));
            assert(target[4] == ("require"@, spec_php_string_json(self.require)));
            assert(target[5] == ("suggest"@, spec_opt_pairs_json(self.suggest)));
            assert(target[6] == ("conflict"@, spec_opt_php_string_json(self.conflict)));
            assert(target[7] == ("require-dev"@, spec_opt_php_string_json(self.require_dev)));
            assert(target[8] == ("type"@, JsonSpec::Str(self.package_type@)));
            assert(target[9] == ("extra"@, spec_opt_obj_json(self.extra)));
            assert(target[10] == ("autoload"@, spec_opt_autoload_json(self.autoload)));
            assert(target[11] == ("autoload-dev"@, spec_opt_autoload_json(self.autoload_dev)));
            assert(target[12] == ("notification-url"@, JsonSpec::Str(self.notification_url@)));
            assert(target[13] == ("license"@, spec_string_seq_json(self.license@.map_values(|s: String| s@))));
            assert(target[14] == ("authors"@, spec_opt_authors_json(self.authors)));
            assert(target[15] == ("description"@, JsonSpec::Str(self.description@)));
            assert(target[16] == ("homepage"@, spec_opt_string_json(self.homepage)));
            assert(target[17] == ("keywords"@, spec_opt_strings_json(self.keywords)));
            assert(target[18] == ("support"@, spec_opt_pairs_json(self.support)));
            assert(target[19] == ("funding"@, spec_opt_funding_json(self.funding)));
            assert(target[20] == ("time"@, JsonSpec::Str(self.time@)));
            assert(entries@.len() == 21);
            assert(r@->Obj_0[0] == (entries@[0].0@, json_view(entries@[0].1)));
            assert(r@->Obj_0[1] == (entries@[1].0@, json_view(entries@[1].1)));
            assert(r@->Obj_0[2] == (entries@[2].0@, json_view(entries@[2].1)));
            assert(r@->Obj_0[3] == (entries@[3].0@, json_view(entries@[3].1)));
            assert(r@->Obj_0[4] == (entries@[4].0@, json_view(entries@[4].1)));
            assert(r@->Obj_0[5] == (entries@[5].0@, json_view(entries@[5].1)));
            assert(r@->Obj_0[6] == (entries@[6].0@, json_view(entries@[6].1)));
            assert(r@->Obj_0[7] == (entries@[7].0@, json_view(entries@[7].1)));
            assert(r@->Obj_0[8] == (entries@[8].0@, json_view(entries@[8].1)));
            assert(r@->Obj_0[9] == (entries@[9].0@, json_view(entries@[9].1)));
            assert(r@->Obj_0[10] == (entries@[10].0@, json_view(entries@[10].1)));
            assert(r@->Obj_0[11] == (entries@[11].0@, json_view(entries@[11].1)));
            assert(r@->Obj_0[12] == (entries@[12].0@, json_view(entries@[12].1)));
            assert(r@->Obj_0[13] == (entries@[13].0@, json_view(entries@[13].1)));
            assert(r@->Obj_0[14] == (entries@[14].0@, json_view(entries@[14].1)));
            assert(r@->Obj_0[15] == (entries@[15].0@, json_view(entries@[15].1)));
            assert(r@->Obj_0[16] == (entries@[16].0@, json_view(entries@[16].1)));
            assert(r@->Obj_0[17] == (entries@[17].0@, json_view(entries@[17].1)));
            assert(r@->Obj_0[18] == (entries@[18].0@, json_view(entries@[18].1)));
            assert(r@->Obj_0[19] == (entries@[19].0@, json_view(entries@[19].1)));
            assert(r@->Obj_0[20] == (entries@[20].0@, json_view(entries@[20].1)));
            assert(r@->Obj_0 =~~= target);
            assert(r@ =~= spec_package_json(*self));
        }
        r
    }
}

/// Looking a key up in a package's own encoding finds that field.
#[verifier::rlimit(100)]
pub proof fn lemma_package_canonical_lookups(p: Package)
    ensures
        spec_obj_lookup(spec_package_json(p)->Obj_0, "name"@) == Some(JsonSpec::Str(p.name@)),
        spec_obj_lookup(spec_package_json(p)->Obj_0, "version"@) == Some(JsonSpec::Str(p.version@)),
        spec_obj_lookup(spec_package_json(p)->Obj_0, "source"@) == Some(spec_source_json(p.source)),
        spec_obj_lookup(spec_package_json(p)->Obj_0, "dist"@) == Some(spec_dist_json(p.dist)),
        spec_obj_lookup(spec_package_json(p)->Obj_0, "require"@) == Some(spec_php_string_json(p.require)),
        spec_obj_lookup(spec_package_json(p)->Obj_0, "suggest"@) == Some(spec_opt_pairs_json(p.suggest)),
        spec_obj_lookup(spec_package_json(p)->Obj_0, "conflict"@) == Some(spec_opt_php_string_json(p.conflict)),
        spec_obj_lookup(spec_package_json(p)->Obj_0, "require-dev"@) == Some(spec_opt_php_string_json(p.require_dev)),
        spec_obj_lookup(spec_package_json(p)->Obj_0, "type"@) == Some(JsonSpec::Str(p.package_type@)),
        spec_obj_lookup(spec_package_json(p)->Obj_0, "extra"@) == Some(spec_opt_obj_json(p.extra)),
        spec_obj_lookup(spec_package_json(p)->Obj_0, "autoload"@) == Some(spec_opt_autoload_json(p.autoload)),
        spec_obj_lookup(spec_package_json(p)->Obj_0, "autoload-dev"@) == Some(spec_opt_autoload_json(p.autoload_dev)),
        spec_obj_lookup(spec_package_json(p)->Obj_0, "notification-url"@) == Some(JsonSpec::Str(p.notification_url@)),
        spec_obj_lookup(spec_package_json(p)->Obj_0, "license"@) == Some(spec_string_seq_json(p.license@.map_values(|s: String| s@))),
        spec_obj_lookup(spec_package_json(p)->Obj_0, "authors"@) == Some(spec_opt_authors_json(p.authors)),
        spec_obj_lookup(spec_package_json(p)->Obj_0, "description"@) == Some(JsonSpec::Str(p.description@)),
        spec_obj_lookup(spec_package_json(p)->Obj_0, "homepage"@) == Some(spec_opt_string_json(p.homepage)),
        spec_obj_lookup(spec_package_json(p)->Obj_0, "keywords"@) == Some(spec_opt_strings_json(p.keywords)),
        spec_obj_lookup(spec_package_json(p)->Obj_0, "support"@) == Some(spec_opt_pairs_json(p.support)),
        spec_obj_lookup(spec_package_json(p)->Obj_0, "funding"@) == Some(spec_opt_funding_json(p.funding)),
        spec_obj_lookup(spec_package_json(p)->Obj_0, "time"@) == Some(JsonSpec::Str(p.time@)),
{
    reveal_strlit("authors");
    reveal_strlit("autoload");
    reveal_strlit("autoload-dev");
    reveal_strlit("conflict");
    reveal_strlit("description");
    reveal_strlit("dist");
    reveal_strlit("extra");
    reveal_strlit("funding");
    reveal_strlit("homepage");
    reveal_strlit("keywords");
    reveal_strlit("license");
    reveal_strlit("name");
    reveal_strlit("notification-url");
    reveal_strlit("require");
    reveal_strlit("require-dev");
    reveal_strlit("source");
    reveal_strlit("suggest");
    reveal_strlit("support");
    reveal_strlit("time");
    reveal_strlit("type");
    reveal_strlit("version");
    let es = spec_package_json(p)->Obj_0;
    assert(es[0].0 == "name"@);
    assert(es[1].0 == "version"@);
    assert(es[2].0 == "source"@);
    assert(es[3].0 == "dist"@);
    assert(es[4].0 == "require"@);
    assert(es[5].0 == "suggest"@);
    assert(es[6].0 == "conflict"@);
    assert(es[7].0 == "require-dev"@);
    assert(es[8].0 == "type"@);
    assert(es[9].0 == "extra"@);
    assert(es[10].0 == "autoload"@);
    assert(es[11].0 == "autoload-dev"@);
    assert(es[12].0 == "notification-url"@);
    assert(es[13].0 == "license"@);
    assert(es[14].0 == "authors"@);
    assert(es[15].0 == "description"@);
    assert(es[16].0 == "homepage"@);
    assert(es[17].0 == "keywords"@);
    assert(es[18].0 == "support"@);
    assert(es[19].0 == "funding"@);
    assert(es[20].0 == "time"@);
    assert(("authors"@).len() == 7);
    assert(("autoload"@).len() == 8);
    assert(("autoload-dev"@).len() == 12);
    assert(("conflict"@).len() == 8);
    assert(("description"@).len() == 11);
    assert(("dist"@).len() == 4);
    assert(("extra"@).len() == 5);
    assert(("funding"@).len() == 7);
    assert(("homepage"@).len() == 8);
    assert(("keywords"@).len() == 8);
    assert(("license"@).len() == 7);
    assert(("name"@).len() == 4);
    assert(("notification-url"@).len() == 16);
    assert(("require"@).len() == 7);
    assert(("require-dev"@).len() == 11);
    assert(("source"@).len() == 6);
    assert(("suggest"@).len() == 7);
    assert(("support"@).len() == 7);
    assert(("time"@).len() == 4);
    assert(("type"@).len() == 4);
    assert(("version"@).len() == 7);
    assert(("authors"@)[0] == 'a');
    assert(("autoload"@)[0] == 'a');
    assert(("conflict"@)[0] == 'c');
    assert(("description"@)[0] == 'd');
    assert(("dist"@)[0] == 'd');
    assert(("funding"@)[0] == 'f');
    assert(("homepage"@)[0] == 'h');
    assert(("keywords"@)[0] == 'k');
    assert(("license"@)[0] == 'l');
    assert(("name"@)[0] == 'n');
    assert(("require"@)[0] == 'r');
    assert(("require-dev"@)[0] == 'r');
    assert(("suggest"@)[0] == 's');
    assert(("suggest"@)[2] == 'g');
    assert(("support"@)[0] == 's');
    assert(("support"@)[2] == 'p');
    assert(("time"@)[0] == 't');
    assert(("time"@)[1] == 'i');
    assert(("type"@)[0] == 't');
    assert(("type"@)[1] == 'y');
    assert(("version"@)[0] == 'v');
    assert("name"@ != "dist"@);
    assert("name"@ != "type"@);
    assert("name"@ != "time"@);
    assert("dist"@ != "type"@);
    assert("dist"@ != "time"@);
    assert("type"@ != "time"@);
    assert("version"@ != "require"@);
    assert("version"@ != "suggest"@);
    assert("version"@ != "license"@);
    assert("version"@ != "authors"@);
    assert("version"@ != "support"@);
    assert("version"@ != "funding"@);
    assert("require"@ != "suggest"@);
    assert("require"@ != "license"@);
    assert("require"@ != "authors"@);
    assert("require"@ != "support"@);
    assert("require"@ != "funding"@);
    assert("suggest"@ != "license"@);
    assert("suggest"@ != "authors"@);
    assert("suggest"@ != "support"@);
    assert("suggest"@ != "funding"@);
    assert("license"@ != "authors"@);
    assert("license"@ != "support"@);
    assert("license"@ != "funding"@);
    assert("authors"@ != "support"@);
    assert("authors"@ != "funding"@);
    assert("support"@ != "funding"@);
    assert("conflict"@ != "autoload"@);
    assert("conflict"@ != "homepage"@);
    assert("conflict"@ != "keywords"@);
    assert("autoload"@ != "homepage"@);
    assert("autoload"@ != "keywords"@);
    assert("homepage"@ != "keywords"@);
    assert("require-dev"@ != "description"@);
    lemma_obj_lookup_at(es, "name"@, 0);
    lemma_obj_lookup_at(es, "version"@, 1);
    lemma_obj_lookup_at(es, "source"@, 2);
    lemma_obj_lookup_at(es, "dist"@, 3);
    lemma_obj_lookup_at(es, "require"@, 4);
    lemma_obj_lookup_at(es, "suggest"@, 5);
    lemma_obj_lookup_at(es, "conflict"@, 6);
    lemma_obj_lookup_at(es, "require-dev"@, 7);
    lemma_obj_lookup_at(es, "type"@, 8);
    lemma_obj_lookup_at(es, "extra"@, 9);
    lemma_obj_lookup_at(es, "autoload"@, 10);
    lemma_obj_lookup_at(es, "autoload-dev"@, 11);
    lemma_obj_lookup_at(es, "notification-url"@, 12);
    lemma_obj_lookup_at(es, "license"@, 13);
    lemma_obj_lookup_at(es, "authors"@, 14);
    lemma_obj_lookup_at(es, "description"@, 15);
    lemma_obj_lookup_at(es, "homepage"@, 16);
    lemma_obj_lookup_at(es, "keywords"@, 17);
    lemma_obj_lookup_at(es, "support"@, 18);
    lemma_obj_lookup_at(es, "funding"@, 19);
    lemma_obj_lookup_at(es, "time"@, 20);
}

/// What a package encodes to decodes back to the same package.
#[verifier::rlimit(100)]
pub proof fn lemma_package_matches_self(p: Package)
    requires
        p.name@.len() > 0,
    ensures
        package_json_matches(p, spec_package_json(p)),
{
    lemma_package_canonical_lookups(p);
    lemma_source_matches_self(p.source);
    lemma_dist_matches_self(p.dist);
    if p.autoload is Some {
        lemma_autoload_matches_self(p.autoload->Some_0);
    }
    if p.autoload_dev is Some {
        lemma_autoload_matches_self(p.autoload_dev->Some_0);
    }
    if p.authors is Some {
        let aus = p.authors->Some_0;
        assert forall|k: int| 0 <= k < aus@.len() implies author_json_matches(
            #[trigger] aus@[k],
            spec_opt_authors_json(p.authors)->Arr_0[k],
        ) by {
            lemma_author_matches_self(aus@[k]);
        }
    }
    if p.funding is Some {
        let fs = p.funding->Some_0;
        assert forall|k: int| 0 <= k < fs@.len() implies funding_json_matches(
            #[trigger] fs@[k],
            spec_opt_funding_json(p.funding)->Arr_0[k],
        ) by {
            lemma_funding_matches_self(fs@[k]);
        }
    }
}

/// A decode of a package's own encoding is unambiguous, name included.
#[verifier::rlimit(100)]
pub proof fn lemma_package_matches_det(y: Package, x: Package)
    requires
        x.name@.len() > 0,
        package_json_matches(y, spec_package_json(x)),
    ensures
        spec_package_json(y) == spec_package_json(x),
        y.name@ == x.name@,
{
    lemma_package_matches_self(x);
    lemma_package_canonical_lookups(x);
    assert(source_json_matches(y.source, spec_source_json(x.source)));
    assert(dist_json_matches(y.dist, spec_dist_json(x.dist)));
    lemma_source_matches_det(y.source, x.source);
    lemma_dist_matches_det(y.dist, x.dist);
    if x.autoload is Some {
        assert(autoload_json_matches(y.autoload->Some_0, spec_autoload_json(x.autoload->Some_0)));
        lemma_autoload_matches_det(y.autoload->Some_0, x.autoload->Some_0);
    }
    if x.autoload_dev is Some {
        assert(autoload_json_matches(
            y.autoload_dev->Some_0,
            spec_autoload_json(x.autoload_dev->Some_0),
        ));
        lemma_autoload_matches_det(y.autoload_dev->Some_0, x.autoload_dev->Some_0);
    }
    if x.authors is Some {
        let ya = y.authors->Some_0;
        let xa = x.authors->Some_0;
        assert forall|k: int| 0 <= k < xa@.len() implies spec_author_json(
            #[trigger] ya@[k],
        ) == spec_author_json(xa@[k]) by {
            lemma_author_matches_det(ya@[k], xa@[k]);
        }
        assert(ya@.map_values(|a: Author| spec_author_json(a)) =~= xa@.map_values(
            |a: Author| spec_author_json(a),
        ));
    }
    if x.funding is Some {
        let yf = y.funding->Some_0;
        let xf = x.funding->Some_0;
        assert forall|k: int| 0 <= k < xf@.len() implies spec_funding_json(
            #[trigger] yf@[k],
        ) == spec_funding_json(xf@[k]) by {
            lemma_funding_matches_det(yf@[k], xf@[k]);
        }
        assert(yf@.map_values(|f: Funding| spec_funding_json(f)) =~= xf@.map_values(
            |f: Funding| spec_funding_json(f),
        ));
    }
    assert(spec_package_json(y)->Obj_0 =~~= spec_package_json(x)->Obj_0);
    assert(spec_package_json(y) =~= spec_package_json(x));
}

/// Whether every package of a sequence carries its own name.
pub open spec fn pkg_names_distinct(ps: Seq<Package>) -> bool {
    forall|a: int, b: int| 0 <= a < b < ps.len() ==> ps[a].name@ != ps[b].name@
}

/// How a required package sequence relates to what a lookup found.
pub open spec fn req_packages_matches(ps: Vec<Package>, l: Option<JsonSpec>) -> bool {
    l matches Some(js) && js matches JsonSpec::Arr(its) && its.len() == ps@.len() && (forall|
        k: int,
    |
        0 <= k < ps@.len() ==> package_json_matches(#[trigger] ps@[k], its[k]))
}

/// Reads a required sequence-of-packages field.
fn field_packages(l: Option<&JsonValue>, field: &str) -> (r: Result<Vec<Package>, DecodeError>)
    ensures
        match r {
            Ok(ps) => req_packages_matches(ps, opt_json_view(l)),
            Err(e) => !(exists|ps: Vec<Package>| req_packages_matches(ps, opt_json_view(l))),
        },
{
    match l {
        Option::None => Err(DecodeError::MissingField(field.to_owned())),
        Option::Some(j) => match j {
            JsonValue::Array(items) => {
                let mut out: Vec<Package> = Vec::new();
                let mut i: usize = 0;
                while i < items.len()
                    invariant
                        i <= items@.len(),
                        out@.len() == i,
                        opt_json_view(l) == Some(j@),
                        (j@ matches JsonSpec::Arr(its) && its.len() == items@.len() && forall|
                            k: int,
                        |
                            0 <= k < items@.len() ==> its[k] == json_view(#[trigger] items@[k])),
                        forall|k: int|
                            0 <= k < i ==> package_json_matches(
                                #[trigger] out@[k],
                                json_view(items@[k]),
                            ),
                    decreases items@.len() - i,
                {
                    match Package::from_json(&items[i]) {
                        Ok(p) => out.push(p),
                        Err(e) => {
                            proof {
                                let bad = i as int;
                                assert forall|ps: Vec<Package>|
                                    !req_packages_matches(ps, opt_json_view(l)) by {
                                    if req_packages_matches(ps, opt_json_view(l)) {
                                        assert(package_json_matches(
                                            ps@[bad],
                                            json_view(items@[bad]),
                                        ));
                                    }
                                }
                            }
                            return Err(e);
                        },
                    }
                    i += 1;
                }
                Ok(out)
            },
            _ => {
                proof {
                    assert forall|ps: Vec<Package>|
                        !req_packages_matches(ps, opt_json_view(l)) by {
                        if req_packages_matches(ps, opt_json_view(l)) {
                            assert(j@ is Arr);
                        }
                    }
                }
                Err(DecodeError::WrongType(field.to_owned()))
            },
        },
    }
}

/// Encodes a sequence of packages in order.
fn packages_to_json(ps: &Vec<Package>) -> (r: JsonValue)
    ensures
        r@ == JsonSpec::Arr(ps@.map_values(|p: Package| spec_package_json(p))),
{
    let mut items: Vec<JsonValue> = Vec::new();
    let mut i: usize = 0;
    while i < ps.len()
        invariant
            i <= ps@.len(),
            items@.len() == i,
            forall|k: int|
                0 <= k < i ==> json_view(#[trigger] items@[k]) == spec_package_json(ps@[k]),
        decreases ps@.len() - i,
    {
        items.push(ps[i].to_json());
        i += 1;
    }
    let r = JsonValue::Array(items);
    proof {
        assert(r@->Arr_0 =~= ps@.map_values(|p: Package| spec_package_json(p)));
        assert(r@ =~= JsonSpec::Arr(ps@.map_values(|p: Package| spec_package_json(p))));
    }
    r
}

/// Reads a required stability-level field.
fn field_stability(l: Option<&JsonValue>, field: &str) -> (r: Result<Stability, DecodeError>)
    ensures
        match r {
            Ok(st) => opt_json_view(l) == Some(JsonSpec::Str(spec_stability_str(st))),
            Err(e) => !(exists|st: Stability|
                opt_json_view(l) == Some(JsonSpec::Str(spec_stability_str(st)))),
        },
{
    let s = match field_string(l, field) {
        Ok(s) => s,
        Err(e) => {
            proof {
                assert forall|st: Stability|
                    opt_json_view(l) != Some(JsonSpec::Str(spec_stability_str(st))) by {
                    if opt_json_view(l) == Some(JsonSpec::Str(spec_stability_str(st))) {
                        assert(exists|t: Seq<char>| opt_json_view(l) == Some(JsonSpec::Str(t)));
                    }
                }
            }
            return Err(e);
        },
    };
    match Stability::from_text(s.as_str()) {
        Some(st) => Ok(st),
        None => {
            proof {
                assert forall|st: Stability|
                    opt_json_view(l) != Some(JsonSpec::Str(spec_stability_str(st))) by {
                    if opt_json_view(l) == Some(JsonSpec::Str(spec_stability_str(st))) {
                        assert(spec_stability_str(st) == s@);
                    }
                }
            }
            Err(DecodeError::WrongType(field.to_owned()))
        },
    }
}

/// Finds a package name used twice in a sequence, if one exists.
fn find_duplicate_name(ps: &Vec<Package>) -> (r: Option<String>)
    ensures
        match r {
            Some(_) => !pkg_names_distinct(ps@),
            None => pkg_names_distinct(ps@),
        },
{
    if ps.len() == 0 {
        return None;
    }
    let mut i: usize = 1;
    while i < ps.len()
        invariant
            1 <= i <= ps@.len(),
            forall|a: int, b: int| 0 <= a < b < i ==> ps@[a].name@ != ps@[b].name@,
        decreases ps@.len() - i,
    {
        let mut j: usize = 0;
        while j < i
            invariant
                j <= i < ps@.len(),
                forall|a: int, b: int| 0 <= a < b < i ==> ps@[a].name@ != ps@[b].name@,
                forall|a: int| 0 <= a < j ==> ps@[a].name@ != ps@[i as int].name@,
            decreases i - j,
        {
            if str_eq(ps[j].name.as_str(), ps[i].name.as_str()) {
                proof {
                    assert(!pkg_names_distinct(ps@));
                }
                return Some(ps[i].name.clone());
            }
            j += 1;
        }
        i += 1;
    }
    None
}

/// One fully-resolved dependency set, as persisted on disk.
#[derive(Debug, PartialEq, Eq)]
pub struct LockFile {
    pub _readme: Vec<String>,
    pub content_hash: String,
    pub packages: Vec<Package>,
    pub packages_dev: Vec<Package>,
    pub aliases: PhpArray<String>,
    pub minimum_stability: Stability,
    pub stability_flags: PhpArray<u8>,
    pub prefer_stable: bool,
    pub prefer_lowest: bool,
    pub platform: PhpArray<String>,
    pub platform_dev: PhpArray<String>,
    pub plugin_api_version: String,
}

/// Every package of the set carries a non-empty name of its own,
/// within its sequence.
pub open spec fn lock_wf(x: LockFile) -> bool {
    &&& pkg_names_distinct(x.packages@)
    &&& pkg_names_distinct(x.packages_dev@)
    &&& forall|k: int| 0 <= k < x.packages@.len() ==> (#[trigger] x.packages@[k]).name@.len() > 0
    &&& forall|k: int|
        0 <= k < x.packages_dev@.len() ==> (#[trigger] x.packages_dev@[k]).name@.len() > 0
}

/// The document a lock file encodes to.
pub open spec fn spec_lock_json(x: LockFile) -> JsonSpec {
    JsonSpec::Obj(
        seq![
            ("_readme"@, spec_string_seq_json(x._readme@.map_values(|s: String| s@))),
            ("content-hash"@, JsonSpec::Str(x.content_hash@)),
            ("packages"@, JsonSpec::Arr(x.packages@.map_values(|p: Package| spec_package_json(p)))),
            ("packages-dev"@, JsonSpec::Arr(x.packages_dev@.map_values(|p: Package| spec_package_json(p)))),
            ("aliases"@, spec_php_string_json(x.aliases)),
            ("minimum-stability"@, JsonSpec::Str(spec_stability_str(x.minimum_stability))),
            ("stability-flags"@, spec_php_u8_json(x.stability_flags)),
            ("prefer-stable"@, JsonSpec::Bool(x.prefer_stable)),
            ("prefer-lowest"@, JsonSpec::Bool(x.prefer_lowest)),
            ("platform"@, spec_php_string_json(x.platform)),
            ("platform-dev"@, spec_php_string_json(x.platform_dev)),
            ("plugin-api-version"@, JsonSpec::Str(x.plugin_api_version@)),
        ],
    )
}

/// The keys a lock file may hold at its top level.
pub open spec fn lock_key(k: Seq<char>) -> bool {
    ||| k == "_readme"@
    ||| k == "content-hash"@
    ||| k == "packages"@
    ||| k == "packages-dev"@
    ||| k == "aliases"@
    ||| k == "minimum-stability"@
    ||| k == "stability-flags"@
    ||| k == "prefer-stable"@
    ||| k == "prefer-lowest"@
    ||| k == "platform"@
    ||| k == "platform-dev"@
    ||| k == "plugin-api-version"@
}

/// How a decoded lock file relates to the document it was read from.
pub open spec fn lock_json_matches(y: LockFile, j: JsonSpec) -> bool {
    &&& j matches JsonSpec::Obj(es)
    &&& forall|k: int| 0 <= k < es.len() ==> lock_key((#[trigger] es[k]).0)
    &&& pkg_names_distinct(y.packages@)
    &&& pkg_names_distinct(y.packages_dev@)
    &&& spec_obj_lookup(es, "_readme"@) == Some(spec_string_seq_json(y._readme@.map_values(|s: String| s@)))
    &&& spec_obj_lookup(es, "content-hash"@) == Some(JsonSpec::Str(y.content_hash@))
    &&& req_packages_matches(y.packages, spec_obj_lookup(es, "packages"@))
    &&& req_packages_matches(y.packages_dev, spec_obj_lookup(es, "packages-dev"@))
    &&& spec_obj_lookup(es, "aliases"@) == Some(spec_php_string_json(y.aliases))
    &&& spec_obj_lookup(es, "minimum-stability"@) == Some(JsonSpec::Str(spec_stability_str(y.minimum_stability)))
    &&& spec_obj_lookup(es, "stability-flags"@) == Some(spec_php_u8_json(y.stability_flags))
    &&& spec_obj_lookup(es, "prefer-stable"@) == Some(JsonSpec::Bool(y.prefer_stable))
    &&& spec_obj_lookup(es, "prefer-lowest"@) == Some(JsonSpec::Bool(y.prefer_lowest))
    &&& spec_obj_lookup(es, "platform"@) == Some(spec_php_string_json(y.platform))
    &&& spec_obj_lookup(es, "platform-dev"@) == Some(spec_php_string_json(y.platform_dev))
    &&& spec_obj_lookup(es, "plugin-api-version"@) == Some(JsonSpec::Str(y.plugin_api_version@))
}

impl LockFile {
    /// Decodes a lock file document, strictly: an unknown top-level
    /// key, a duplicated package name or any shape violation is an
    /// error, never silently dropped.
    #[verifier::rlimit(100)]
    pub fn from_json(v: &JsonValue) -> (r: Result<LockFile, DecodeError>)
        ensures
            (r matches Ok(y) ==> lock_json_matches(y, v@)),
            (r is Err ==> !(exists|y: LockFile| lock_json_matches(y, v@))),
            ((v@ matches JsonSpec::Obj(es) && (exists|k: int|
                0 <= k < es.len() && !lock_key((#[trigger] es[k]).0))) ==> r is Err),
    {
        let entries = match v {
            JsonValue::Object(m) => m,
            _ => {
                proof {
                    assert(!(v@ is Obj));
                }
                return Err(DecodeError::WrongType("lock file".to_owned()));
            },
        };
        proof {
            assert(v@->Obj_0 =~= obj_view(entries@));
        }
        let mut i: usize = 0;
        while i < entries.len()
            invariant
                i <= entries@.len(),
                v@ == JsonSpec::Obj(obj_view(entries@)),
                forall|k: int| 0 <= k < i ==> lock_key((#[trigger] obj_view(entries@)[k]).0),
            decreases entries@.len() - i,
        {
            let ok = str_eq(entries[i].0.as_str(), "_readme") || str_eq(entries[i].0.as_str(), "content-hash") || str_eq(entries[i].0.as_str(), "packages") || str_eq(entries[i].0.as_str(), "packages-dev") || str_eq(entries[i].0.as_str(), "aliases") || str_eq(entries[i].0.as_str(), "minimum-stability") || str_eq(entries[i].0.as_str(), "stability-flags") || str_eq(entries[i].0.as_str(), "prefer-stable") || str_eq(entries[i].0.as_str(), "prefer-lowest") || str_eq(entries[i].0.as_str(), "platform") || str_eq(entries[i].0.as_str(), "platform-dev") || str_eq(entries[i].0.as_str(), "plugin-api-version");
            if !ok {
                proof {
                    let es = obj_view(entries@);
                    assert(es[i as int].0 == entries@[i as int].0@);
                    assert forall|y: LockFile| !lock_json_matches(y, v@) by {
                        if lock_json_matches(y, v@) {
                            assert(lock_key(es[i as int].0));
                        }
                    }
                }
                return Err(DecodeError::UnknownField(entries[i].0.clone()));
            }
            i += 1;
        }
        let ghost es = obj_view(entries@);
        let _readme = match field_string_vec(lookup(entries, "_readme"), "_readme") {
            Ok(x) => x,
            Err(e) => {
                proof {
                    assert forall|y: LockFile| !lock_json_matches(y, v@) by {
                        if lock_json_matches(y, v@) {
                            assert(spec_obj_lookup(es, "_readme"@) == Some(spec_string_seq_json(y._readme@.map_values(|s: String| s@))));
                        }
                    }
                }
                return Err(e);
            },
        };
        let content_hash = match field_string(lookup(entries, "content-hash"), "content-hash") {
            Ok(x) => x,
            Err(e) => {
                proof {
                    assert forall|y: LockFile| !lock_json_matches(y, v@) by {
                        if lock_json_matches(y, v@) {
                            assert(spec_obj_lookup(es, "content-hash"@) == Some(JsonSpec::Str(y.content_hash@)));
                        }
                    }
                }
                return Err(e);
            },
        };
        let packages = match field_packages(lookup(entries, "packages"), "packages") {
            Ok(x) => x,
            Err(e) => {
                proof {
                    assert forall|y: LockFile| !lock_json_matches(y, v@) by {
                        if lock_json_matches(y, v@) {
                            assert(req_packages_matches(y.packages, spec_obj_lookup(es, "packages"@)));
                        }
                    }
                }
                return Err(e);
            },
        };
        if let Some(n) = find_duplicate_name(&packages) {
            proof {
                assert forall|y: LockFile| !lock_json_matches(y, v@) by {
                    if lock_json_matches(y, v@) {
                        let l = spec_obj_lookup(es, "packages"@);
                        let its = l->Some_0->Arr_0;
                        let (a, b) = choose|a: int, b: int|
                            0 <= a < b < packages@.len() && (#[trigger] packages@[a]).name@ == (
                            #[trigger] packages@[b]).name@;
                        assert(package_json_matches(y.packages@[a], its[a]));
                        assert(package_json_matches(packages@[a], its[a]));
                        assert(package_json_matches(y.packages@[b], its[b]));
                        assert(package_json_matches(packages@[b], its[b]));
                        assert(y.packages@[a].name@ == packages@[a].name@);
                        assert(y.packages@[b].name@ == packages@[b].name@);
                        assert(y.packages@[a].name@ != y.packages@[b].name@);
                    }
                }
            }
            return Err(DecodeError::DuplicateName(n));
        }
        let packages_dev = match field_packages(lookup(entries, "packages-dev"), "packages-dev") {
            Ok(x) => x,
            Err(e) => {
                proof {
                    assert forall|y: LockFile| !lock_json_matches(y, v@) by {
                        if lock_json_matches(y, v@) {
                            assert(req_packages_matches(y.packages_dev, spec_obj_lookup(es, "packages-dev"@)));
                        }
                    }
                }
                return Err(e);
            },
        };
        if let Some(n) = find_duplicate_name(&packages_dev) {
            proof {
                assert forall|y: LockFile| !lock_json_matches(y, v@) by {
                    if lock_json_matches(y, v@) {
                        let l = spec_obj_lookup(es, "packages-dev"@);
                        let its = l->Some_0->Arr_0;
                        let (a, b) = choose|a: int, b: int|
                            0 <= a < b < packages_dev@.len() && (#[trigger] packages_dev@[a]).name@ == (
                            #[trigger] packages_dev@[b]).name@;
                        assert(package_json_matches(y.packages_dev@[a], its[a]));
                        assert(package_json_matches(packages_dev@[a], its[a]));
                        assert(package_json_matches(y.packages_dev@[b], its[b]));
                        assert(package_json_matches(packages_dev@[b], its[b]));
                        assert(y.packages_dev@[a].name@ == packages_dev@[a].name@);
                        assert(y.packages_dev@[b].name@ == packages_dev@[b].name@);
                        assert(y.packages_dev@[a].name@ != y.packages_dev@[b].name@);
                    }
                }
            }
            return Err(DecodeError::DuplicateName(n));
        }
        let aliases = match field_php_string(lookup(entries, "aliases"), "aliases") {
            Ok(x) => x,
            Err(e) => {
                proof {
                    assert forall|y: LockFile| !lock_json_matches(y, v@) by {
                        if lock_json_matches(y, v@) {
                            assert(spec_obj_lookup(es, "aliases"@) == Some(spec_php_string_json(y.aliases)));
                        }
                    }
                }
                return Err(e);
            },
        };
        let minimum_stability = match field_stability(lookup(entries, "minimum-stability"), "minimum-stability") {
            Ok(x) => x,
            Err(e) => {
                proof {
                    assert forall|y: LockFile| !lock_json_matches(y, v@) by {
                        if lock_json_matches(y, v@) {
                            assert(spec_obj_lookup(es, "minimum-stability"@) == Some(JsonSpec::Str(spec_stability_str(y.minimum_stability))));
                        }
                    }
                }
                return Err(e);
            },
        };
        let stability_flags = match field_php_u8(lookup(entries, "stability-flags"), "stability-flags") {
            Ok(x) => x,
            Err(e) => {
                proof {
                    assert forall|y: LockFile| !lock_json_matches(y, v@) by {
                        if lock_json_matches(y, v@) {
                            assert(spec_obj_lookup(es, "stability-flags"@) == Some(spec_php_u8_json(y.stability_flags)));
                        }
                    }
                }
                return Err(e);
            },
        };
        let prefer_stable = match field_bool(lookup(entries, "prefer-stable"), "prefer-stable") {
            Ok(x) => x,
            Err(e) => {
                proof {
                    assert forall|y: LockFile| !lock_json_matches(y, v@) by {
                        if lock_json_matches(y, v@) {
                            assert(spec_obj_lookup(es, "prefer-stable"@) == Some(JsonSpec::Bool(y.prefer_stable)));
                        }
                    }
                }
                return Err(e);
            },
        };
        let prefer_lowest = match field_bool(lookup(entries, "prefer-lowest"), "prefer-lowest") {
            Ok(x) => x,
            Err(e) => {
                proof {
                    assert forall|y: LockFile| !lock_json_matches(y, v@) by {
                        if lock_json_matches(y, v@) {
                            assert(spec_obj_lookup(es, "prefer-lowest"@) == Some(JsonSpec::Bool(y.prefer_lowest)));
                        }
                    }
                }
                return Err(e);
            },
        };
        let platform = match field_php_string(lookup(entries, "platform"), "platform") {
            Ok(x) => x,
            Err(e) => {
                proof {
                    assert forall|y: LockFile| !lock_json_matches(y, v@) by {
                        if lock_json_matches(y, v@) {
                            assert(spec_obj_lookup(es, "platform"@) == Some(spec_php_string_json(y.platform)));
                        }
                    }
                }
                return Err(e);
            },
        };
        let platform_dev = match field_php_string(lookup(entries, "platform-dev"), "platform-dev") {
            Ok(x) => x,
            Err(e) => {
                proof {
                    assert forall|y: LockFile| !lock_json_matches(y, v@) by {
                        if lock_json_matches(y, v@) {
                            assert(spec_obj_lookup(es, "platform-dev"@) == Some(spec_php_string_json(y.platform_dev)));
                        }
                    }
                }
                return Err(e);
            },
        };
        let plugin_api_version = match field_string(lookup(entries, "plugin-api-version"), "plugin-api-version") {
            Ok(x) => x,
            Err(e) => {
                proof {
                    assert forall|y: LockFile| !lock_json_matches(y, v@) by {
                        if lock_json_matches(y, v@) {
                            assert(spec_obj_lookup(es, "plugin-api-version"@) == Some(JsonSpec::Str(y.plugin_api_version@)));
                        }
                    }
                }
                return Err(e);
            },
        };
        let y = LockFile { _readme, content_hash, packages, packages_dev, aliases, minimum_stability, stability_flags, prefer_stable, prefer_lowest, platform, platform_dev, plugin_api_version };
        proof {
            assert(lock_json_matches(y, v@));
        }
        Ok(y)
    }

    /// Encodes the lock file with its keys in one fixed order; equal
    /// values always give the same document.
    #[verifier::rlimit(100)]
    pub fn to_json(&self) -> (r: JsonValue)
        ensures
            r@ == spec_lock_json(*self),
    {
        let mut entries: Vec<(String, JsonValue)> = Vec::new();
        entries.push(("_readme".to_owned(), strings_to_json(&self._readme)));
        entries.push(("content-hash".to_owned(), JsonValue::Str(self.content_hash.clone())));
        entries.push(("packages".to_owned(), packages_to_json(&self.packages)));
        entries.push(("packages-dev".to_owned(), packages_to_json(&self.packages_dev)));
        entries.push(("aliases".to_owned(), self.aliases.to_json()));
        entries.push(("minimum-stability".to_owned(), JsonValue::Str(self.minimum_stability.as_text().to_owned())));
        entries.push(("stability-flags".to_owned(), self.stability_flags.to_json()));
        entries.push(("prefer-stable".to_owned(), JsonValue::Bool(self.prefer_stable)));
        entries.push(("prefer-lowest".to_owned(), JsonValue::Bool(self.prefer_lowest)));
        entries.push(("platform".to_owned(), self.platform.to_json()));
        entries.push(("platform-dev".to_owned(), self.platform_dev.to_json()));
        entries.push(("plugin-api-version".to_owned(), JsonValue::Str(self.plugin_api_version.clone())));
        let r = JsonValue::Object(entries);
        proof {
            let target = spec_lock_json(*self)->Obj_0;
            assert(target[0] == ("_readme"@, spec_string_seq_json(self._readme@.map_values(|s: String| s@))));
            assert(target[1] == ("content-hash"@, JsonSpec::Str(self.content_hash@)));
            assert(target[2] == ("packages"@, JsonSpec::Arr(self.packages@.map_values(|p: Package| spec_package_json(p)))));
            assert(target[3] == ("packages-dev"@, JsonSpec::Arr(self.packages_dev@.map_values(|p: Package| spec_package_json(p)))));
            assert(target[4] == ("aliases"@, spec_php_string_json(self.aliases)));
            assert(target[5] == ("minimum-stability"@, JsonSpec::Str(spec_stability_str(self.minimum_stability))));
            assert(target[6] == ("stability-flags"@, spec_php_u8_json(self.stability_flags)));
            assert(target[7] == ("prefer-stable"@, JsonSpec::Bool(self.prefer_stable)));
            assert(target[8] == ("prefer-lowest"@, JsonSpec::Bool(self.prefer_lowest)));
            assert(target[9] == ("platform"@, spec_php_string_json(self.platform)));
            assert(target[10] == ("platform-dev"@, spec_php_string_json(self.platform_dev)));
            assert(target[11] == ("plugin-api-version"@, JsonSpec::Str(self.plugin_api_version@)));
            assert(entries@.len() == 12);
            assert(r@->Obj_0[0] == (entries@[0].0@, json_view(entries@[0].1)));
            assert(r@->Obj_0[1] == (entries@[1].0@, json_view(entries@[1].1)));
            assert(r@->Obj_0[2] == (entries@[2].0@, json_view(entries@[2].1)));
            assert(r@->Obj_0[3] == (entries@[3].0@, json_view(entries@[3].1)));
            assert(r@->Obj_0[4] == (entries@[4].0@, json_view(entries@[4].1)));
            assert(r@->Obj_0[5] == (entries@[5].0@, json_view(entries@[5].1)));
            assert(r@->Obj_0[6] == (entries@[6].0@, json_view(entries@[6].1)));
            assert(r@->Obj_0[7] == (entries@[7].0@, json_view(entries@[7].1)));
            assert(r@->Obj_0[8] == (entries@[8].0@, json_view(entries@[8].1)));
            assert(r@->Obj_0[9] == (entries@[9].0@, json_view(entries@[9].1)));
            assert(r@->Obj_0[10] == (entries@[10].0@, json_view(entries@[10].1)));
            assert(r@->Obj_0[11] == (entries@[11].0@, json_view(entries@[11].1)));
            assert(r@->Obj_0 =~~= target);
            assert(r@ =~= spec_lock_json(*self));
        }
        r
    }
}

/// Looking a key up in a lock file's own encoding finds that field.
#[verifier::rlimit(100)]
pub proof fn lemma_lock_canonical_lookups(x: LockFile)
    ensures
        spec_obj_lookup(spec_lock_json(x)->Obj_0, "_readme"@) == Some(spec_string_seq_json(x._readme@.map_values(|s: String| s@))),
        spec_obj_lookup(spec_lock_json(x)->Obj_0, "content-hash"@) == Some(JsonSpec::Str(x.content_hash@)),
        spec_obj_lookup(spec_lock_json(x)->Obj_0, "packages"@) == Some(JsonSpec::Arr(x.packages@.map_values(|p: Package| spec_package_json(p)))),
        spec_obj_lookup(spec_lock_json(x)->Obj_0, "packages-dev"@) == Some(JsonSpec::Arr(x.packages_dev@.map_values(|p: Package| spec_package_json(p)))),
        spec_obj_lookup(spec_lock_json(x)->Obj_0, "aliases"@) == Some(spec_php_string_json(x.aliases)),
        spec_obj_lookup(spec_lock_json(x)->Obj_0, "minimum-stability"@) == Some(JsonSpec::Str(spec_stability_str(x.minimum_stability))),
        spec_obj_lookup(spec_lock_json(x)->Obj_0, "stability-flags"@) == Some(spec_php_u8_json(x.stability_flags)),
        spec_obj_lookup(spec_lock_json(x)->Obj_0, "prefer-stable"@) == Some(JsonSpec::Bool(x.prefer_stable)),
        spec_obj_lookup(spec_lock_json(x)->Obj_0, "prefer-lowest"@) == Some(JsonSpec::Bool(x.prefer_lowest)),
        spec_obj_lookup(spec_lock_json(x)->Obj_0, "platform"@) == Some(spec_php_string_json(x.platform)),
        spec_obj_lookup(spec_lock_json(x)->Obj_0, "platform-dev"@) == Some(spec_php_string_json(x.platform_dev)),
        spec_obj_lookup(spec_lock_json(x)->Obj_0, "plugin-api-version"@) == Some(JsonSpec::Str(x.plugin_api_version@)),
{
    reveal_strlit("_readme");
    reveal_strlit("aliases");
    reveal_strlit("content-hash");
    reveal_strlit("minimum-stability");
    reveal_strlit("packages");
    reveal_strlit("packages-dev");
    reveal_strlit("platform");
    reveal_strlit("platform-dev");
    reveal_strlit("plugin-api-version");
    reveal_strlit("prefer-lowest");
    reveal_strlit("prefer-stable");
    reveal_strlit("stability-flags");
    let es = spec_lock_json(x)->Obj_0;
    assert(es[0].0 == "_readme"@);
    assert(es[1].0 == "content-hash"@);
    assert(es[2].0 == "packages"@);
    assert(es[3].0 == "packages-dev"@);
    assert(es[4].0 == "aliases"@);
    assert(es[5].0 == "minimum-stability"@);
    assert(es[6].0 == "stability-flags"@);
    assert(es[7].0 == "prefer-stable"@);
    assert(es[8].0 == "prefer-lowest"@);
    assert(es[9].0 == "platform"@);
    assert(es[10].0 == "platform-dev"@);
    assert(es[11].0 == "plugin-api-version"@);
    assert(("_readme"@).len() == 7);
    assert(("aliases"@).len() == 7);
    assert(("content-hash"@).len() == 12);
    assert(("minimum-stability"@).len() == 17);
    assert(("packages"@).len() == 8);
    assert(("packages-dev"@).len() == 12);
    assert(("platform"@).len() == 8);
    assert(("platform-dev"@).len() == 12);
    assert(("plugin-api-version"@).len() == 18);
    assert(("prefer-lowest"@).len() == 13);
    assert(("prefer-stable"@).len() == 13);
    assert(("stability-flags"@).len() == 15);
    assert(("_readme"@)[0] == '_');
    assert(("aliases"@)[0] == 'a');
    assert(("content-hash"@)[0] == 'c');
    assert(("packages"@)[0] == 'p');
    assert(("packages"@)[1] == 'a');
    assert(("packages-dev"@)[0] == 'p');
    assert(("packages-dev"@)[1] == 'a');
    assert(("platform"@)[0] == 'p');
    assert(("platform"@)[1] == 'l');
    assert(("platform-dev"@)[0] == 'p');
    assert(("platform-dev"@)[1] == 'l');
    assert(("prefer-lowest"@)[0] == 'p');
    assert(("prefer-lowest"@)[7] == 'l');
    assert(("prefer-stable"@)[0] == 'p');
    assert(("prefer-stable"@)[7] == 's');
    assert("_readme"@ != "aliases"@);
    assert("content-hash"@ != "packages-dev"@);
    assert("content-hash"@ != "platform-dev"@);
    assert("packages-dev"@ != "platform-dev"@);
    assert("packages"@ != "platform"@);
    assert("prefer-stable"@ != "prefer-lowest"@);
    lemma_obj_lookup_at(es, "_readme"@, 0);
    lemma_obj_lookup_at(es, "content-hash"@, 1);
    lemma_obj_lookup_at(es, "packages"@, 2);
    lemma_obj_lookup_at(es, "packages-dev"@, 3);
    lemma_obj_lookup_at(es, "aliases"@, 4);
    lemma_obj_lookup_at(es, "minimum-stability"@, 5);
    lemma_obj_lookup_at(es, "stability-flags"@, 6);
    lemma_obj_lookup_at(es, "prefer-stable"@, 7);
    lemma_obj_lookup_at(es, "prefer-lowest"@, 8);
    lemma_obj_lookup_at(es, "platform"@, 9);
    lemma_obj_lookup_at(es, "platform-dev"@, 10);
    lemma_obj_lookup_at(es, "plugin-api-version"@, 11);
}

/// What a well-formed lock file encodes to decodes back to the same
/// value: the encode-then-decode round trip loses nothing.
#[verifier::rlimit(100)]
pub proof fn lemma_lock_matches_self(x: LockFile)
    requires
        lock_wf(x),
    ensures
        lock_json_matches(x, spec_lock_json(x)),
{
    lemma_lock_canonical_lookups(x);
    let es = spec_lock_json(x)->Obj_0;
    assert forall|k: int| 0 <= k < x.packages@.len() implies package_json_matches(
        #[trigger] x.packages@[k],
        x.packages@.map_values(|p: Package| spec_package_json(p))[k],
    ) by {
        lemma_package_matches_self(x.packages@[k]);
    }
    assert forall|k: int| 0 <= k < x.packages_dev@.len() implies package_json_matches(
        #[trigger] x.packages_dev@[k],
        x.packages_dev@.map_values(|p: Package| spec_package_json(p))[k],
    ) by {
        lemma_package_matches_self(x.packages_dev@[k]);
    }
}

/// Any decode of a well-formed lock file's own encoding encodes back
/// to the very same document: the round trip is unambiguous.
#[verifier::rlimit(100)]
pub proof fn lemma_lock_matches_det(y: LockFile, x: LockFile)
    requires
        lock_wf(x),
        lock_json_matches(y, spec_lock_json(x)),
    ensures
        spec_lock_json(y) == spec_lock_json(x),
        lock_wf(y),
{
    lemma_lock_matches_self(x);
    lemma_lock_canonical_lookups(x);
    let yp = y.packages@;
    let xp = x.packages@;
    assert forall|k: int| 0 <= k < xp.len() implies spec_package_json(#[trigger] yp[k])
        == spec_package_json(xp[k]) && yp[k].name@ == xp[k].name@ by {
        assert(package_json_matches(
            yp[k],
            xp.map_values(|p: Package| spec_package_json(p))[k],
        ));
        lemma_package_matches_det(yp[k], xp[k]);
    }
    assert(yp.map_values(|p: Package| spec_package_json(p)) =~= xp.map_values(
        |p: Package| spec_package_json(p),
    ));
    let yd = y.packages_dev@;
    let xd = x.packages_dev@;
    assert forall|k: int| 0 <= k < xd.len() implies spec_package_json(#[trigger] yd[k])
        == spec_package_json(xd[k]) && yd[k].name@ == xd[k].name@ by {
        assert(package_json_matches(
            yd[k],
            xd.map_values(|p: Package| spec_package_json(p))[k],
        ));
        lemma_package_matches_det(yd[k], xd[k]);
    }
    assert(yd.map_values(|p: Package| spec_package_json(p)) =~= xd.map_values(
        |p: Package| spec_package_json(p),
    ));
    assert forall|k: int| 0 <= k < yp.len() implies (#[trigger] yp[k]).name@.len() > 0 by {
        assert(yp[k].name@ == xp[k].name@);
    }
    assert forall|k: int| 0 <= k < yd.len() implies (#[trigger] yd[k]).name@.len() > 0 by {
        assert(yd[k].name@ == xd[k].name@);
    }
    assert(spec_lock_json(y)->Obj_0 =~~= spec_lock_json(x)->Obj_0);
    assert(spec_lock_json(y) =~= spec_lock_json(x));
}


/// Why a lock file could not be loaded.
#[derive(Debug, PartialEq, Eq)]
pub enum LockFileError {
    /// The file could not be read; carries the reader's message.
    ReadError(String),
    /// The content did not decode against the schema.
    DeserializeError(DecodeError),
}

/// The text of a decode error's message.
pub open spec fn spec_decode_error_message(e: DecodeError) -> Seq<char> {
    match e {
        DecodeError::Syntax(m) => m@,
        DecodeError::UnknownField(k) => "unknown field: "@ + k@,
        DecodeError::MissingField(k) => "missing field: "@ + k@,
        DecodeError::WrongType(f) => "invalid type for field: "@ + f@,
        DecodeError::InvalidNumber(f) => "invalid number for field: "@ + f@,
        DecodeError::DuplicateName(n) => "duplicate package name: "@ + n@,
        DecodeError::EmptyName => "empty package name"@,
    }
}

/// Renders a decode error as text.
pub fn decode_error_message(e: &DecodeError) -> (r: String)
    ensures
        r@ == spec_decode_error_message(*e),
{
    match e {
        DecodeError::Syntax(m) => m.clone(),
        DecodeError::UnknownField(k) => {
            let mut m = "unknown field: ".to_owned();
            m.append(k.as_str());
            m
        },
        DecodeError::MissingField(k) => {
            let mut m = "missing field: ".to_owned();
            m.append(k.as_str());
            m
        },
        DecodeError::WrongType(f) => {
            let mut m = "invalid type for field: ".to_owned();
            m.append(f.as_str());
            m
        },
        DecodeError::InvalidNumber(f) => {
            let mut m = "invalid number for field: ".to_owned();
            m.append(f.as_str());
            m
        },
        DecodeError::DuplicateName(n) => {
            let mut m = "duplicate package name: ".to_owned();
            m.append(n.as_str());
            m
        },
        DecodeError::EmptyName => "empty package name".to_owned(),
    }
}

/// The text of a load error's message.
pub open spec fn spec_lock_error_message(e: LockFileError) -> Seq<char> {
    match e {
        LockFileError::ReadError(m) => "Failed to read lock file: "@ + m@,
        LockFileError::DeserializeError(d) => "Failed to read lock file: "@
            + spec_decode_error_message(d),
    }
}

impl LockFileError {
    /// Renders the error as text.
    pub fn message(&self) -> (r: String)
        ensures
            r@ == spec_lock_error_message(*self),
    {
        let mut m = "Failed to read lock file: ".to_owned();
        match self {
            LockFileError::ReadError(t) => m.append(t.as_str()),
            LockFileError::DeserializeError(d) => {
                let t = decode_error_message(d);
                m.append(t.as_str());
            },
        }
        m
    }
}

/// How a loaded lock file relates to the text it was read from.
pub open spec fn lock_text_matches(r: Result<LockFile, LockFileError>, s: Seq<char>) -> bool {
    match parsed_json_of(s) {
        Some(j) => match r {
            Ok(y) => lock_json_matches(y, j),
            Err(e) => e is DeserializeError && !(exists|y: LockFile| lock_json_matches(y, j)),
        },
        None => r matches Err(LockFileError::DeserializeError(d)) && d is Syntax,
    }
}

impl LockFile {
    /// Reads a lock file from JSON text, strictly.
    pub fn from_json_text(s: &str) -> (r: Result<LockFile, LockFileError>)
        ensures
            lock_text_matches(r, s@),
    {
        match parse_json_text(s) {
            Ok(j) => match LockFile::from_json(&j) {
                Ok(y) => Ok(y),
                Err(e) => Err(LockFileError::DeserializeError(e)),
            },
            Err(m) => Err(LockFileError::DeserializeError(DecodeError::Syntax(m))),
        }
    }

    /// Writes the lock file as JSON text. The text depends on the
    /// value alone, so saving equal values gives identical bytes.
    pub fn to_json_text(&self) -> (r: String)
        ensures
            r@ == json_text_of(spec_lock_json(*self)),
    {
        let j = self.to_json();
        json_to_text(&j)
    }
}

} // verus!

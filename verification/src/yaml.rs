//! A YAML document as plain values, and typed access to its mappings.

use vstd::prelude::*;

use crate::error::{DecodeError, DecodeErrorV};

verus! {

broadcast use vstd::std_specs::vec::group_vec_axioms, vstd::seq::group_seq_axioms;

/// A YAML node as plain values: scalars, sequences and mappings, with
/// mapping keys kept as nodes of their own.
#[derive(Debug)]
pub enum Yaml {
    Null,
    Bool(bool),
    /// A number, carried as its decimal text; the schema has no numeric
    /// field, so the text serves display only.
    Num(String),
    Str(String),
    Arr(Vec<Yaml>),
    Obj(Vec<(Yaml, Yaml)>),
}

/// The mathematical image of a `Yaml` node.
pub enum YamlV {
    Null,
    Bool(bool),
    Num(Seq<char>),
    Str(Seq<char>),
    Arr(Seq<YamlV>),
    Obj(Seq<(YamlV, YamlV)>),
}

/// The image of a node.
pub open spec fn yaml_dv(y: Yaml) -> YamlV
    decreases y,
{
    match y {
        Yaml::Null => YamlV::Null,
        Yaml::Bool(b) => YamlV::Bool(b),
        Yaml::Num(s) => YamlV::Num(s@),
        Yaml::Str(s) => YamlV::Str(s@),
        Yaml::Arr(items) => YamlV::Arr(items_dv(items@)),
        Yaml::Obj(entries) => YamlV::Obj(entries_dv(entries@)),
    }
}

/// The elementwise image of a sequence node's elements.
pub open spec fn items_dv(items: Seq<Yaml>) -> Seq<YamlV>
    decreases items,
{
    Seq::new(
        items.len(),
        |i: int|
            if 0 <= i < items.len() {
                yaml_dv(items[i])
            } else {
                YamlV::Null
            },
    )
}

/// The entrywise image of a mapping node's entries.
pub open spec fn entries_dv(entries: Seq<(Yaml, Yaml)>) -> Seq<(YamlV, YamlV)>
    decreases entries,
{
    Seq::new(
        entries.len(),
        |i: int|
            if 0 <= i < entries.len() {
                (yaml_dv(entries[i].0), yaml_dv(entries[i].1))
            } else {
                (YamlV::Null, YamlV::Null)
            },
    )
}

#[verifier::external_type_specification]
#[verifier::external_body]
pub struct ExYamlValue(serde_yaml::Value);

/// Relies on the shape of serde_yaml::Value: each variant is carried over to
/// the matching `Yaml` variant, keys and elements in order. A tagged node
/// stands for its inner value, the tag dropped: more permissive than
/// refusing the tag outright.
#[verifier::external_body]
fn yaml_of_value(v: &serde_yaml::Value) -> Yaml {
    match v {
        serde_yaml::Value::Null => Yaml::Null,
        serde_yaml::Value::Bool(b) => Yaml::Bool(*b),
        serde_yaml::Value::Number(n) => Yaml::Num(n.to_string()),
        serde_yaml::Value::String(s) => Yaml::Str(s.clone()),
        serde_yaml::Value::Sequence(items) => Yaml::Arr(items.iter().map(yaml_of_value).collect()),
        serde_yaml::Value::Mapping(m) => Yaml::Obj(
            m.iter().map(|(k, w)| (yaml_of_value(k), yaml_of_value(w))).collect(),
        ),
        serde_yaml::Value::Tagged(t) => yaml_of_value(&t.value),
    }
}

/// What the YAML engine gives for a text: the image of its value tree, or
/// the message with which it refuses the text. Fixed by the characters
/// alone.
pub uninterp spec fn parse_of(s: Seq<char>) -> Result<YamlV, Seq<char>>;

/// Relies on serde_yaml::from_str::<serde_yaml::Value>: parses YAML text
/// into a value tree, or reports in its message why it cannot. The outcome
/// is a function of the text alone, so it carries the name `parse_of`.
#[verifier::external_body]
pub(crate) fn parse_yaml(s: &str) -> (r: Result<Yaml, String>)
    ensures
        match r {
            Ok(y) => parse_of(s@) == Ok::<YamlV, Seq<char>>(yaml_dv(y)),
            Err(m) => parse_of(s@) == Err::<YamlV, Seq<char>>(m@),
        },
{
    match serde_yaml::from_str::<serde_yaml::Value>(s) {
        Ok(v) => Ok(yaml_of_value(&v)),
        Err(e) => Err(e.to_string()),
    }
}

/// The value under the first entry of `es` whose key is the string `key`,
/// if any.
pub open spec fn obj_lookup(es: Seq<(YamlV, YamlV)>, key: Seq<char>) -> Option<YamlV>
    decreases es.len(),
{
    if es.len() == 0 {
        None
    } else if es[0].0 matches YamlV::Str(k) && k == key {
        Some(es[0].1)
    } else {
        obj_lookup(es.drop_first(), key)
    }
}

/// Looks `key` up among `entries`: the first entry whose key is that string.
pub fn obj_get<'a>(entries: &'a Vec<(Yaml, Yaml)>, key: &String) -> (r: Option<&'a Yaml>)
    ensures
        match r {
            Some(y) => obj_lookup(entries_dv(entries@), key@) == Some(yaml_dv(*y)),
            None => obj_lookup(entries_dv(entries@), key@) is None,
        },
{
    let ghost esv = entries_dv(entries@);
    proof {
        assert(esv.skip(0) =~= esv);
    }
    let mut i: usize = 0;
    while i < entries.len()
        invariant
            i <= entries@.len(),
            esv == entries_dv(entries@),
            obj_lookup(esv, key@) == obj_lookup(esv.skip(i as int), key@),
        decreases entries@.len() - i,
    {
        proof {
            assert(esv[i as int] == (yaml_dv(entries@[i as int].0), yaml_dv(entries@[i as int].1)));
            assert(esv.skip(i as int)[0] == esv[i as int]);
        }
        let hit: bool = match &entries[i].0 {
            Yaml::Str(k) => *k == *key,
            _ => false,
        };
        if hit {
            return Some(&entries[i].1);
        }
        proof {
            assert(esv.skip(i as int).drop_first() =~= esv.skip(i as int + 1));
        }
        i = i + 1;
    }
    proof {
        assert(esv.skip(entries@.len() as int) =~= Seq::<(YamlV, YamlV)>::empty());
    }
    None
}

/// The string under a key the schema requires.
pub open spec fn spec_req_str(es: Seq<(YamlV, YamlV)>, key: Seq<char>) -> Result<
    Seq<char>,
    DecodeErrorV,
> {
    match obj_lookup(es, key) {
        Option::None => Err(DecodeErrorV::MissingField(key)),
        Option::Some(YamlV::Str(s)) => Ok(s),
        Option::Some(_) => Err(DecodeErrorV::WrongType(key)),
    }
}

/// The string under an optional key, empty when the key is absent.
pub open spec fn spec_str_or_empty(es: Seq<(YamlV, YamlV)>, key: Seq<char>) -> Result<
    Seq<char>,
    DecodeErrorV,
> {
    match obj_lookup(es, key) {
        Option::None => Ok(Seq::<char>::empty()),
        Option::Some(YamlV::Str(s)) => Ok(s),
        Option::Some(_) => Err(DecodeErrorV::WrongType(key)),
    }
}

/// The string under an optional key, kept as an option; a null value counts
/// as absent.
pub open spec fn spec_opt_str(es: Seq<(YamlV, YamlV)>, key: Seq<char>) -> Result<
    Option<Seq<char>>,
    DecodeErrorV,
> {
    match obj_lookup(es, key) {
        Option::None => Ok(None),
        Option::Some(YamlV::Null) => Ok(None),
        Option::Some(YamlV::Str(s)) => Ok(Some(s)),
        Option::Some(_) => Err(DecodeErrorV::WrongType(key)),
    }
}

/// The boolean under an optional key, false when the key is absent.
pub open spec fn spec_bool_or_false(es: Seq<(YamlV, YamlV)>, key: Seq<char>) -> Result<
    bool,
    DecodeErrorV,
> {
    match obj_lookup(es, key) {
        Option::None => Ok(false),
        Option::Some(YamlV::Bool(b)) => Ok(b),
        Option::Some(_) => Err(DecodeErrorV::WrongType(key)),
    }
}

/// The boolean under a key the schema requires.
pub open spec fn spec_req_bool(es: Seq<(YamlV, YamlV)>, key: Seq<char>) -> Result<
    bool,
    DecodeErrorV,
> {
    match obj_lookup(es, key) {
        Option::None => Err(DecodeErrorV::MissingField(key)),
        Option::Some(YamlV::Bool(b)) => Ok(b),
        Option::Some(_) => Err(DecodeErrorV::WrongType(key)),
    }
}

/// Reads the string the schema requires under `key`.
pub fn get_req_str(entries: &Vec<(Yaml, Yaml)>, key: &str) -> (r: Result<String, DecodeError>)
    ensures
        crate::error::result_dv(r) == spec_req_str(entries_dv(entries@), key@),
{
    let owned = key.to_owned();
    match obj_get(entries, &owned) {
        Option::None => Err(DecodeError::MissingField(owned)),
        Option::Some(y) => match y {
            Yaml::Str(s) => Ok(s.clone()),
            _ => Err(DecodeError::WrongType(owned)),
        },
    }
}

/// Reads the string under an optional `key`, empty when absent.
pub fn get_str_or_empty(entries: &Vec<(Yaml, Yaml)>, key: &str) -> (r: Result<String, DecodeError>)
    ensures
        crate::error::result_dv(r) == spec_str_or_empty(entries_dv(entries@), key@),
{
    let owned = key.to_owned();
    match obj_get(entries, &owned) {
        Option::None => Ok(String::new()),
        Option::Some(y) => match y {
            Yaml::Str(s) => Ok(s.clone()),
            _ => Err(DecodeError::WrongType(owned)),
        },
    }
}

/// Reads the string under an optional `key`, kept as an option.
pub fn get_opt_str(entries: &Vec<(Yaml, Yaml)>, key: &str) -> (r: Result<
    Option<String>,
    DecodeError,
>)
    ensures
        crate::error::result_dv(r) == spec_opt_str(entries_dv(entries@), key@),
{
    let owned = key.to_owned();
    match obj_get(entries, &owned) {
        Option::None => Ok(None),
        Option::Some(y) => match y {
            Yaml::Null => Ok(None),
            Yaml::Str(s) => Ok(Some(s.clone())),
            _ => Err(DecodeError::WrongType(owned)),
        },
    }
}

/// Reads the boolean under an optional `key`, false when absent.
pub fn get_bool_or_false(entries: &Vec<(Yaml, Yaml)>, key: &str) -> (r: Result<bool, DecodeError>)
    ensures
        crate::error::result_dv(r) == spec_bool_or_false(entries_dv(entries@), key@),
{
    let owned = key.to_owned();
    match obj_get(entries, &owned) {
        Option::None => Ok(false),
        Option::Some(y) => match y {
            Yaml::Bool(b) => Ok(*b),
            _ => Err(DecodeError::WrongType(owned)),
        },
    }
}

/// Reads the boolean the schema requires under `key`.
pub fn get_req_bool(entries: &Vec<(Yaml, Yaml)>, key: &str) -> (r: Result<bool, DecodeError>)
    ensures
        crate::error::result_dv(r) == spec_req_bool(entries_dv(entries@), key@),
{
    let owned = key.to_owned();
    match obj_get(entries, &owned) {
        Option::None => Err(DecodeError::MissingField(owned)),
        Option::Some(y) => match y {
            Yaml::Bool(b) => Ok(*b),
            _ => Err(DecodeError::WrongType(owned)),
        },
    }
}

} // verus!

//! A YAML document tree and the lookups that workload descriptions are read with.
//!
//! `YamlValue` mirrors the value model of YAML documents: scalars, sequences,
//! mappings (entries in document order) and tagged values. Lookups follow the
//! usual YAML value semantics: a tag is looked through before a key, string,
//! integer or sequence is read.
use vstd::prelude::*;
use crate::text::str_eq;
use serde_yaml::Value;

verus! {

/// A YAML number.
pub enum YamlNumber {
    /// A non-negative integer.
    PosInt(u64),
    /// A negative integer.
    NegInt(i64),
    /// A floating-point number (its value is not read by this library).
    Float,
}

/// A YAML value.
pub enum YamlValue {
    Null,
    Bool(bool),
    Number(YamlNumber),
    String(String),
    Sequence(Vec<YamlValue>),
    /// Mapping entries in document order.
    Mapping(Vec<(YamlValue, YamlValue)>),
    /// A value with an explicit tag such as `!name`.
    Tagged(String, Box<YamlValue>),
}

/// The value an optional reference points to.
pub open spec fn opt_value(o: Option<&YamlValue>) -> Option<YamlValue> {
    match o {
        Some(v) => Some(*v),
        None => None,
    }
}

/// The value with all tags removed from its outside.
pub open spec fn untag(v: YamlValue) -> YamlValue
    decreases v,
{
    match v {
        YamlValue::Tagged(_, inner) => untag(*inner),
        _ => v,
    }
}

/// Whether a mapping key is the string `key`.
pub open spec fn key_is(k: YamlValue, key: Seq<char>) -> bool {
    match k {
        YamlValue::String(s) => s@ == key,
        _ => false,
    }
}

/// The value of the first entry whose key is the string `key`.
pub open spec fn lookup(entries: Seq<(YamlValue, YamlValue)>, key: Seq<char>) -> Option<YamlValue>
    decreases entries.len(),
{
    if entries.len() == 0 {
        None
    } else if key_is(entries[0].0, key) {
        Some(entries[0].1)
    } else {
        lookup(entries.drop_first(), key)
    }
}

/// `v[key]`: the entry of a mapping under a string key.
pub open spec fn yaml_get(v: YamlValue, key: Seq<char>) -> Option<YamlValue> {
    match untag(v) {
        YamlValue::Mapping(entries) => lookup(entries@, key),
        _ => None,
    }
}

/// The string that `v` is, if it is one.
pub open spec fn yaml_str(v: YamlValue) -> Option<Seq<char>> {
    match untag(v) {
        YamlValue::String(s) => Some(s@),
        _ => None,
    }
}

/// The non-negative integer that `v` is, if it is one.
pub open spec fn yaml_u64(v: YamlValue) -> Option<u64> {
    match untag(v) {
        YamlValue::Number(YamlNumber::PosInt(n)) => Some(n),
        _ => None,
    }
}

/// The elements of `v`, if it is a sequence.
pub open spec fn yaml_seq(v: YamlValue) -> Option<Seq<YamlValue>> {
    match untag(v) {
        YamlValue::Sequence(items) => Some(items@),
        _ => None,
    }
}

/// The value with all tags removed from its outside.
pub fn untag_ref(v: &YamlValue) -> (r: &YamlValue)
    ensures
        *r == untag(*v),
    decreases v,
{
    match v {
        YamlValue::Tagged(_, inner) => untag_ref(inner),
        _ => v,
    }
}

fn key_matches(k: &YamlValue, key: &str) -> (r: bool)
    ensures
        r == key_is(*k, key@),
{
    match k {
        YamlValue::String(s) => str_eq(s.as_str(), key),
        _ => false,
    }
}

fn lookup_entry<'a>(entries: &'a Vec<(YamlValue, YamlValue)>, key: &str) -> (r: Option<&'a YamlValue>)
    ensures
        match r {
            Some(x) => lookup(entries@, key@) == Some(*x),
            None => lookup(entries@, key@) is None,
        },
{
    let mut i: usize = 0;
    assert(entries@.skip(0) =~= entries@);
    while i < entries.len()
        invariant
            i <= entries.len(),
            lookup(entries@, key@) == lookup(entries@.skip(i as int), key@),
        decreases entries.len() - i,
    {
        let ghost rest = entries@.skip(i as int);
        assert(rest[0] == entries@[i as int]);
        if key_matches(&entries[i].0, key) {
            return Some(&entries[i].1);
        }
        assert(rest.drop_first() =~= entries@.skip(i + 1));
        i = i + 1;
    }
    None
}

impl YamlValue {
    /// The entry of a mapping under a string key (`None` for a missing key or a non-mapping).
    pub fn get(&self, key: &str) -> (r: Option<&YamlValue>)
        ensures
            match r {
                Some(x) => yaml_get(*self, key@) == Some(*x),
                None => yaml_get(*self, key@) is None,
            },
    {
        match untag_ref(self) {
            YamlValue::Mapping(entries) => lookup_entry(entries, key),
            _ => None,
        }
    }

    /// The string this value is, if it is one.
    pub fn as_str(&self) -> (r: Option<&str>)
        ensures
            match r {
                Some(s) => yaml_str(*self) == Some(s@),
                None => yaml_str(*self) is None,
            },
    {
        match untag_ref(self) {
            YamlValue::String(s) => Some(s.as_str()),
            _ => None,
        }
    }

    /// The non-negative integer this value is, if it is one.
    pub fn as_u64(&self) -> (r: Option<u64>)
        ensures
            r == yaml_u64(*self),
    {
        match untag_ref(self) {
            YamlValue::Number(YamlNumber::PosInt(n)) => Some(*n),
            _ => None,
        }
    }

    /// The elements of this value, if it is a sequence.
    pub fn as_sequence(&self) -> (r: Option<&Vec<YamlValue>>)
        ensures
            match r {
                Some(items) => yaml_seq(*self) == Some(items@),
                None => yaml_seq(*self) is None,
            },
    {
        match untag_ref(self) {
            YamlValue::Sequence(items) => Some(items),
            _ => None,
        }
    }
}

} // verus!

verus! {

// ---------------------------------------------------------------------------
// YAML text
// ---------------------------------------------------------------------------

/// The value type of serde_yaml, carried through opaquely.
#[verifier::external_type_specification]
#[verifier::external_body]
pub struct ExSerdeYamlValue(serde_yaml::Value);

/// The document that a YAML text holds, or the parser's explanation of why it holds none
/// (what `serde_yaml::from_str::<serde_yaml::Value>` gives, read as a `YamlValue`).
pub uninterp spec fn yaml_document(text: Seq<char>) -> Result<YamlValue, Seq<char>>;

/// The number type of serde_yaml, carried through opaquely.
#[verifier::external_type_specification]
#[verifier::external_body]
pub struct ExSerdeYamlNumber(serde_yaml::Number);

/// Converts a serde_yaml number by `Number::as_u64` and `Number::as_i64`: a
/// non-negative integer, a negative integer, or a float.
#[verifier::external_body]
fn number_from_serde(n: &serde_yaml::Number) -> YamlNumber {
    match (n.as_u64(), n.as_i64()) {
        (Some(u), _) => YamlNumber::PosInt(u),
        (None, Some(i)) => YamlNumber::NegInt(i),
        (None, None) => YamlNumber::Float,
    }
}

/// Converts a serde_yaml value into a `YamlValue`, one variant for one variant.
#[verifier::external_body]
fn from_serde(v: Value) -> YamlValue {
    match v {
        Value::Null => YamlValue::Null,
        Value::Bool(b) => YamlValue::Bool(b),
        Value::Number(n) => YamlValue::Number(number_from_serde(&n)),
        Value::String(s) => YamlValue::String(s),
        Value::Sequence(s) => YamlValue::Sequence(s.into_iter().map(from_serde).collect()),
        Value::Mapping(m) => YamlValue::Mapping(m.into_iter().map(|(k, v)| (from_serde(k), from_serde(v))).collect()),
        Value::Tagged(t) => YamlValue::Tagged(t.tag.to_string(), Box::new(from_serde(t.value))),
    }
}

/// `serde_yaml::from_str::<serde_yaml::Value>`: parses a YAML text. Claimed: the
/// outcome is `yaml_document` of the text (the document, or the parser's error text).
#[verifier::external_body]
pub fn parse_yaml(text: &str) -> (r: Result<YamlValue, String>)
    ensures
        match r {
            Ok(v) => yaml_document(text@) == Ok::<YamlValue, Seq<char>>(v),
            Err(e) => yaml_document(text@) == Err::<YamlValue, Seq<char>>(e@),
        },
{
    serde_yaml::from_str::<Value>(text).map(from_serde).map_err(|e| e.to_string())
}

} // verus!

//! The calls this library makes into std and outside crates whose behaviour
//! Verus takes from the contracts below rather than from a proof.

use vstd::prelude::*;

verus! {

/// std `String::push`: appends `c` to `s`.
#[verifier::external_body]
pub(crate) fn push_char(s: &mut String, c: char)
    ensures
        final(s)@ == old(s)@.push(c),
{
    s.push(c)
}

/// What std `str::to_lowercase` returns for a string: its Unicode lower-case mapping.
pub uninterp spec fn unicode_lowercase(s: Seq<char>) -> Seq<char>;

/// What std `str::to_uppercase` returns for a string: its Unicode upper-case mapping.
pub uninterp spec fn unicode_uppercase(s: Seq<char>) -> Seq<char>;

/// std `str::to_lowercase`: the result depends on the argument alone and is
/// named `unicode_lowercase`; nothing more is stated of the mapping.
#[verifier::external_body]
pub(crate) fn str_to_lowercase(s: &str) -> (r: String)
    ensures
        r@ == unicode_lowercase(s@),
{
    s.to_lowercase()
}

/// std `str::to_uppercase`: the result depends on the argument alone and is
/// named `unicode_uppercase`; nothing more is stated of the mapping.
#[verifier::external_body]
pub(crate) fn str_to_uppercase(s: &str) -> (r: String)
    ensures
        r@ == unicode_uppercase(s@),
{
    s.to_uppercase()
}

/// The error type of the `getrandom` crate.
#[verifier::external_type_specification]
#[verifier::external_body]
pub struct ExGetrandomError(getrandom::Error);

/// `getrandom::fill`: fills `dest` with bytes from the system's random source.
/// What the bytes are depends on chance; the buffer keeps its length.
#[verifier::external_body]
pub(crate) fn fill_random(dest: &mut Vec<u8>) -> (r: Result<(), getrandom::Error>)
    ensures
        final(dest)@.len() == old(dest)@.len(),
{
    getrandom::fill(dest.as_mut_slice())
}

} // verus!

verus! {

/// `serde_yaml_ng::Mapping`, a YAML mapping kept in insertion order.
#[verifier::external_type_specification]
#[verifier::external_body]
pub struct ExMapping(serde_yaml_ng::Mapping);

/// A YAML value (`serde_yaml_ng::Value`) as this library reads it.
pub enum YamlScalar {
    /// `Value::Null`.
    Null,
    /// `Value::Bool`.
    Bool(bool),
    /// `Value::String`, untagged.
    Str(Seq<char>),
    /// `Value::Tagged`: a tag around the inner value.
    Tagged(Box<YamlScalar>),
    /// `Value::Number`, `Value::Sequence` or `Value::Mapping`.
    Other,
}

/// The value inside all tags (as `Value::untag_ref`).
pub open spec fn untag(v: YamlScalar) -> YamlScalar
    decreases v,
{
    match v {
        YamlScalar::Tagged(inner) => untag(*inner),
        _ => v,
    }
}

/// Every entry of a YAML mapping, in the mapping's order, each key and value
/// read as a `YamlScalar`.
pub uninterp spec fn mapping_entries(m: serde_yaml_ng::Mapping) -> Seq<(YamlScalar, YamlScalar)>;

/// The keys of the entries.
pub open spec fn entry_keys(e: Seq<(YamlScalar, YamlScalar)>) -> Seq<YamlScalar> {
    e.map_values(|p: (YamlScalar, YamlScalar)| p.0)
}

/// The value of the first entry under `key`, if any.
pub open spec fn entry_for(e: Seq<(YamlScalar, YamlScalar)>, key: YamlScalar) -> Option<YamlScalar>
    decreases e.len(),
{
    if e.len() == 0 {
        None
    } else if e[0].0 == key {
        Some(e[0].1)
    } else {
        entry_for(e.drop_first(), key)
    }
}

/// `serde_yaml_ng::Mapping::new`: an empty mapping.
#[verifier::external_body]
pub(crate) fn mapping_new() -> (m: serde_yaml_ng::Mapping)
    ensures
        mapping_entries(m) == Seq::<(YamlScalar, YamlScalar)>::empty(),
{
    serde_yaml_ng::Mapping::new()
}

/// A value to store in a YAML mapping.
pub enum YamlValue {
    Bool(bool),
    Str(String),
}

/// How a stored value reads back.
pub open spec fn yaml_value_view(v: YamlValue) -> YamlScalar {
    match v {
        YamlValue::Bool(b) => YamlScalar::Bool(b),
        YamlValue::Str(s) => YamlScalar::Str(s@),
    }
}

/// `serde_yaml_ng::Mapping::insert` with a plain string key not yet present:
/// the entry is added at the end.
#[verifier::external_body]
pub(crate) fn mapping_insert(m: &mut serde_yaml_ng::Mapping, key: &str, value: YamlValue)
    requires
        !entry_keys(mapping_entries(*old(m))).contains(YamlScalar::Str(key@)),
    ensures
        mapping_entries(*final(m)) == mapping_entries(*old(m)).push((YamlScalar::Str(key@), yaml_value_view(value))),
{
    let value = match value {
        YamlValue::Bool(b) => serde_yaml_ng::Value::Bool(b),
        YamlValue::Str(s) => serde_yaml_ng::Value::String(s),
    };
    m.insert(serde_yaml_ng::Value::String(key.to_string()), value);
}

/// `serde_yaml_ng::Mapping::get` with a `&str` key (which matches only a
/// plain string key), then `Value::as_str` (which looks inside tags): the
/// string stored under `key`, if the value there is one.
#[verifier::external_body]
pub(crate) fn mapping_get_str(m: &serde_yaml_ng::Mapping, key: &str) -> (r: Option<String>)
    ensures
        match entry_for(mapping_entries(*m), YamlScalar::Str(key@)) {
            Some(v) => match untag(v) {
                YamlScalar::Str(s) => (r matches Some(t) && t@ == s),
                _ => r is None,
            },
            None => r is None,
        },
{
    match m.get(key) {
        Some(v) => match v.as_str() {
            Some(s) => Some(s.to_string()),
            None => None,
        },
        None => None,
    }
}

} // verus!

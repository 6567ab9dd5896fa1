//! The document syntax, which `serde_yaml` reads and writes. Everything in this
//! file is believed, not proved: each item says what it takes from that crate.

use vstd::prelude::*;
use crate::tree::{bare, decimal, distinct_text_keys, lookup, Num, Tree};

verus! {

/// `serde_yaml::Value`: a document in memory.
#[verifier::external_type_specification]
#[verifier::external_body]
pub struct ExValue(serde_yaml::Value);

/// `serde_yaml::Number`: a number scalar.
#[verifier::external_type_specification]
#[verifier::external_body]
pub struct ExNumber(serde_yaml::Number);

/// `serde_yaml::Error`: why a text is no document, or why a document could not
/// be written.
#[verifier::external_type_specification]
#[verifier::external_body]
pub struct ExYamlError(serde_yaml::Error);

/// `std::io::Error`: why bytes could not be read or written.
#[verifier::external_type_specification]
#[verifier::external_body]
pub struct ExIoError(std::io::Error);

/// What a `serde_yaml::Value` holds.
pub uninterp spec fn value_tree(v: serde_yaml::Value) -> Tree;

/// What a `serde_yaml::Number` holds.
pub uninterp spec fn number_view(n: serde_yaml::Number) -> Num;

/// The document that `serde_yaml::from_slice` reads from bytes, if they are
/// one.
pub uninterp spec fn yaml_document(bytes: Seq<u8>) -> Option<Tree>;

/// The text that `Number`'s `Display` writes for a number that is not whole,
/// given by its bits.
pub uninterp spec fn real_text(bits: u64) -> Seq<char>;

/// The text that `serde_yaml::to_string` writes for a document, if it can.
pub uninterp spec fn yaml_text(t: Tree) -> Option<Seq<char>>;

/// `Number::clone`: the copy holds what the number holds.
pub assume_specification[ <serde_yaml::Number as Clone>::clone ](n: &serde_yaml::Number) -> (r: serde_yaml::Number)
    ensures
        number_view(r) == number_view(*n),
;

/// `serde_yaml::from_slice`, at the type `Value`: reads one document. Whether
/// it succeeds and what it yields depend on the bytes alone.
#[verifier::external_body]
pub(crate) fn parse(bytes: &[u8]) -> (r: Result<serde_yaml::Value, serde_yaml::Error>)
    ensures
        match r {
            Ok(v) => yaml_document(bytes@) == Some(value_tree(v)),
            Err(_) => yaml_document(bytes@) is None,
        },
{
    serde_yaml::from_slice::<serde_yaml::Value>(bytes)
}

/// `serde_yaml::to_string`, at the type `Value`: writes one document. Whether
/// it succeeds and what it yields depend on the value alone.
#[verifier::external_body]
pub(crate) fn emit(v: &serde_yaml::Value) -> (r: Result<String, serde_yaml::Error>)
    ensures
        match r {
            Ok(s) => yaml_text(value_tree(*v)) == Some(s@),
            Err(_) => yaml_text(value_tree(*v)) is None,
        },
{
    serde_yaml::to_string(v)
}

/// `Value::is_null`: whether the value, under its tags, is a null.
#[verifier::external_body]
pub(crate) fn is_null(v: &serde_yaml::Value) -> (r: bool)
    ensures
        r == (bare(value_tree(*v)) is Null),
{
    v.is_null()
}

/// `Value::is_mapping`: whether the value, under its tags, is a mapping.
#[verifier::external_body]
pub(crate) fn is_mapping(v: &serde_yaml::Value) -> (r: bool)
    ensures
        r == (bare(value_tree(*v)) is Mapping),
{
    v.is_mapping()
}

/// `Value::as_bool`: the boolean that the value holds under its tags.
#[verifier::external_body]
pub(crate) fn bool_of(v: &serde_yaml::Value) -> (r: Option<bool>)
    ensures
        r == (match bare(value_tree(*v)) {
            Tree::Bool(b) => Some(b),
            _ => None,
        }),
{
    v.as_bool()
}

/// `Value::as_i64`: the whole number that the value holds under its tags, where
/// it fits 64 bits with a sign.
#[verifier::external_body]
pub(crate) fn int_of(v: &serde_yaml::Value) -> (r: Option<i64>)
    ensures
        r == (match bare(value_tree(*v)) {
            Tree::Number(Num::Int(i)) if i64::MIN <= i <= i64::MAX => Some(i as i64),
            _ => None,
        }),
{
    v.as_i64()
}

/// Tells `Value::Tagged` from the other variants, and hands out the value
/// under the tag.
#[verifier::external_body]
pub(crate) fn under_tag(v: &serde_yaml::Value) -> (r: Option<&serde_yaml::Value>)
    ensures
        match value_tree(*v) {
            Tree::Tagged(_, inner) => r matches Some(x) && value_tree(*x) == *inner,
            _ => r is None,
        },
{
    match v {
        serde_yaml::Value::Tagged(t) => Some(&t.value),
        _ => None,
    }
}

/// Tells `Value::Number` from the other variants, and hands out a copy of the
/// number.
#[verifier::external_body]
pub(crate) fn plain_number(v: &serde_yaml::Value) -> (r: Option<serde_yaml::Number>)
    ensures
        match value_tree(*v) {
            Tree::Number(n) => r matches Some(x) && number_view(x) == n,
            _ => r is None,
        },
{
    match v {
        serde_yaml::Value::Number(n) => Some(n.clone()),
        _ => None,
    }
}

/// `Number`'s `Display`, through `to_string`: a whole number in decimal
/// digits, with a minus sign where it is negative; another number as
/// `real_text` names it.
#[verifier::external_body]
pub(crate) fn number_text(n: &serde_yaml::Number) -> (r: String)
    ensures
        r@ == (match number_view(*n) {
            Num::Int(i) => decimal(i),
            Num::Real(bits) => real_text(bits),
        }),
{
    n.to_string()
}

/// `Value::as_str`: the text that the value holds under its tags.
#[verifier::external_body]
pub(crate) fn text_of(v: &serde_yaml::Value) -> (r: Option<&str>)
    ensures
        match bare(value_tree(*v)) {
            Tree::Text(s) => r matches Some(x) && x@ == s,
            _ => r is None,
        },
{
    v.as_str()
}

/// `Value::as_sequence`: the items that the value holds under its tags, in
/// their order.
#[verifier::external_body]
pub(crate) fn items_of(v: &serde_yaml::Value) -> (r: Option<&Vec<serde_yaml::Value>>)
    ensures
        match bare(value_tree(*v)) {
            Tree::Sequence(ts) => r matches Some(xs) && xs@.len() == ts.len()
                && forall|i: int| 0 <= i < ts.len() ==> value_tree(#[trigger] xs@[i]) == ts[i],
            _ => r is None,
        },
{
    v.as_sequence()
}

/// `Value::get`, with a text as the index: the value of the entry of a mapping
/// whose key is that text. A mapping has no two entries with one key.
#[verifier::external_body]
pub(crate) fn entry_of<'a>(v: &'a serde_yaml::Value, key: &str) -> (r: Option<&'a serde_yaml::Value>)
    ensures
        match bare(value_tree(*v)) {
            Tree::Mapping(m) => match lookup(m, key@) {
                Some(t) => r matches Some(x) && value_tree(*x) == t,
                None => r is None,
            },
            _ => r is None,
        },
{
    v.get(key)
}

/// `Value::Bool`.
#[verifier::external_body]
pub(crate) fn bool_value(b: bool) -> (v: serde_yaml::Value)
    ensures
        value_tree(v) == Tree::Bool(b),
{
    serde_yaml::Value::Bool(b)
}

/// `Number::from`, at the type `i64`.
#[verifier::external_body]
pub(crate) fn number_from_int(i: i64) -> (n: serde_yaml::Number)
    ensures
        number_view(n) == Num::Int(i as int),
{
    serde_yaml::Number::from(i)
}

/// `Value::Number`, on a copy of the number.
#[verifier::external_body]
pub(crate) fn number_value(n: &serde_yaml::Number) -> (v: serde_yaml::Value)
    ensures
        value_tree(v) == Tree::Number(number_view(*n)),
{
    serde_yaml::Value::Number(n.clone())
}

/// `Value::String`, on a copy of the text.
#[verifier::external_body]
pub(crate) fn text_value(s: &str) -> (v: serde_yaml::Value)
    ensures
        value_tree(v) == Tree::Text(s@),
{
    serde_yaml::Value::String(s.to_owned())
}

/// `Value::Sequence`.
#[verifier::external_body]
pub(crate) fn sequence_value(items: Vec<serde_yaml::Value>) -> (v: serde_yaml::Value)
    ensures
        value_tree(v) == Tree::Sequence(Seq::new(items@.len(), |i: int| value_tree(items@[i]))),
{
    serde_yaml::Value::Sequence(items)
}

/// `Mapping::from_iter` and `Value::Mapping`. Where every key is a text and no
/// two keys are the same, the entries of the mapping are the given ones in
/// their order.
#[verifier::external_body]
pub(crate) fn mapping_value(entries: Vec<(serde_yaml::Value, serde_yaml::Value)>) -> (v:
    serde_yaml::Value)
    ensures
        distinct_text_keys(
            Seq::new(entries@.len(), |i: int| (value_tree(entries@[i].0), value_tree(entries@[i].1))),
        ) ==> value_tree(v) == Tree::Mapping(
            Seq::new(entries@.len(), |i: int| (value_tree(entries@[i].0), value_tree(entries@[i].1))),
        ),
{
    serde_yaml::Value::Mapping(entries.into_iter().collect())
}

} // verus!

//! Reading one field of a mapping: what the format takes there, and what it
//! puts in the place of a field that the mapping does not have.
//!
//! A field that is present and holds something that the format does not take
//! is an error, which names the field. Tags are read through.
//!
//! A document in memory no longer tells how a scalar was written. So a null
//! is taken as an empty list, an entry without fields or an empty text
//! whether the document left the value out or wrote `~` or `null`; and a text
//! field that holds a number or a truth value takes it as it is written anew,
//! which is not always as the document wrote it (`1e3` gives `1000.0`, `1.50`
//! gives `1.5`, `0x1F` gives `31`, `+5` gives `5`, `True` gives `true`).

use vstd::prelude::*;
use crate::field::Field;
use crate::mode::{GameMode, TimeSignature};
use crate::tree::{bare, decimal, lemma_lookup_empty, lookup, Num, Tree};
use crate::yaml::{
    bool_of, entry_of, int_of, is_null, items_of, number_from_int, number_text, number_view,
    plain_number, real_text, text_of, under_tag, value_tree,
};

verus! {

/// The entries of a mapping. A null stands for a mapping without entries, and
/// so does, for the readers below, anything that is no mapping: who reads an
/// entry finds out first, with `is_record`, whether there is one to read.
pub open spec fn fields(t: Tree) -> Seq<(Tree, Tree)> {
    match bare(t) {
        Tree::Mapping(m) => m,
        _ => Seq::empty(),
    }
}

/// Whether entries can be read from the tree: it is a mapping or a null.
pub open spec fn is_record(t: Tree) -> bool {
    bare(t) is Mapping || bare(t) is Null
}

/// A field of whole numbers of 32 bits.
pub open spec fn int_at(m: Seq<(Tree, Tree)>, f: Field, default: i32) -> Result<i32, Field> {
    match lookup(m, f.key()) {
        None => Ok(default),
        Some(t) => match bare(t) {
            Tree::Number(Num::Int(i)) if i32::MIN <= i <= i32::MAX => Ok(i as i32),
            _ => Err(f),
        },
    }
}

/// A field of whole numbers from 0 to 255.
pub open spec fn byte_at(m: Seq<(Tree, Tree)>, f: Field, default: u8) -> Result<u8, Field> {
    match lookup(m, f.key()) {
        None => Ok(default),
        Some(t) => match bare(t) {
            Tree::Number(Num::Int(i)) if 0 <= i <= u8::MAX => Ok(i as u8),
            _ => Err(f),
        },
    }
}

/// A field of numbers, whole or not.
pub open spec fn number_at(m: Seq<(Tree, Tree)>, f: Field, default: Num) -> Result<Num, Field> {
    match lookup(m, f.key()) {
        None => Ok(default),
        Some(t) => match bare(t) {
            Tree::Number(n) => Ok(n),
            _ => Err(f),
        },
    }
}

/// A field that is true or false.
pub open spec fn bool_at(m: Seq<(Tree, Tree)>, f: Field, default: bool) -> Result<bool, Field> {
    match lookup(m, f.key()) {
        None => Ok(default),
        Some(t) => match bare(t) {
            Tree::Bool(b) => Ok(b),
            _ => Err(f),
        },
    }
}

/// The text of a scalar: a text itself, a number and a truth value as they are
/// written, a null as the empty text. A list or a mapping has none.
pub open spec fn scalar_text(t: Tree) -> Option<Seq<char>> {
    match bare(t) {
        Tree::Text(s) => Some(s),
        Tree::Number(Num::Int(i)) => Some(decimal(i)),
        Tree::Number(Num::Real(bits)) => Some(real_text(bits)),
        Tree::Bool(b) => Some(
            if b {
                "true"@
            } else {
                "false"@
            },
        ),
        Tree::Null => Some(Seq::empty()),
        _ => None,
    }
}

/// A field of text, which takes every scalar by its text.
pub open spec fn text_at(m: Seq<(Tree, Tree)>, f: Field, default: Seq<char>) -> Result<
    Seq<char>,
    Field,
> {
    match lookup(m, f.key()) {
        None => Ok(default),
        Some(t) => match scalar_text(t) {
            Some(s) => Ok(s),
            None => Err(f),
        },
    }
}

/// A field that holds a game mode, by its number.
pub open spec fn mode_at(m: Seq<(Tree, Tree)>, f: Field, default: GameMode) -> Result<
    GameMode,
    Field,
> {
    match lookup(m, f.key()) {
        None => Ok(default),
        Some(t) => match bare(t) {
            Tree::Number(Num::Int(i)) => match GameMode::of_code(i) {
                Some(mode) => Ok(mode),
                None => Err(f),
            },
            _ => Err(f),
        },
    }
}

/// A field that holds a time signature, by its number.
pub open spec fn signature_at(m: Seq<(Tree, Tree)>, f: Field, default: TimeSignature) -> Result<
    TimeSignature,
    Field,
> {
    match lookup(m, f.key()) {
        None => Ok(default),
        Some(t) => match bare(t) {
            Tree::Number(Num::Int(i)) => match TimeSignature::of_code(i) {
                Some(signature) => Ok(signature),
                None => Err(f),
            },
            _ => Err(f),
        },
    }
}

/// A field that holds a list: its items. A field that is absent or null
/// holds the empty list.
pub open spec fn items_at(m: Seq<(Tree, Tree)>, f: Field) -> Result<Seq<Tree>, Field> {
    match lookup(m, f.key()) {
        None => Ok(Seq::empty()),
        Some(t) => match bare(t) {
            Tree::Sequence(ts) => Ok(ts),
            Tree::Null => Ok(Seq::empty()),
            _ => Err(f),
        },
    }
}

/// Reads a field of whole numbers of 32 bits.
pub fn int_field(v: &serde_yaml::Value, f: Field, default: i32) -> (r: Result<i32, Field>)
    ensures
        r == int_at(fields(value_tree(*v)), f, default),
{
    proof {
        lemma_lookup_empty(f.key());
    }
    match entry_of(v, f.name()) {
        None => Ok(default),
        Some(x) => match int_of(x) {
            Some(i) => if -2147483648 <= i && i <= 2147483647 {
                Ok(i as i32)
            } else {
                Err(f)
            },
            None => Err(f),
        },
    }
}

/// Reads a field of whole numbers from 0 to 255.
pub fn byte_field(v: &serde_yaml::Value, f: Field, default: u8) -> (r: Result<u8, Field>)
    ensures
        r == byte_at(fields(value_tree(*v)), f, default),
{
    proof {
        lemma_lookup_empty(f.key());
    }
    match entry_of(v, f.name()) {
        None => Ok(default),
        Some(x) => match int_of(x) {
            Some(i) => if 0 <= i && i <= 255 {
                Ok(i as u8)
            } else {
                Err(f)
            },
            None => Err(f),
        },
    }
}

/// Reads a field of numbers, whole or not.
pub fn number_field(v: &serde_yaml::Value, f: Field, default: i64) -> (r: Result<
    serde_yaml::Number,
    Field,
>)
    ensures
        match number_at(fields(value_tree(*v)), f, Num::Int(default as int)) {
            Ok(n) => r matches Ok(x) && number_view(x) == n,
            Err(e) => r matches Err(g) && g == e,
        },
{
    proof {
        lemma_lookup_empty(f.key());
    }
    match entry_of(v, f.name()) {
        None => Ok(number_from_int(default)),
        Some(x) => match number_of(x) {
            Some(n) => Ok(n),
            None => Err(f),
        },
    }
}

/// Reads a field that is true or false.
pub fn bool_field(v: &serde_yaml::Value, f: Field, default: bool) -> (r: Result<bool, Field>)
    ensures
        r == bool_at(fields(value_tree(*v)), f, default),
{
    proof {
        lemma_lookup_empty(f.key());
    }
    match entry_of(v, f.name()) {
        None => Ok(default),
        Some(x) => match bool_of(x) {
            Some(b) => Ok(b),
            None => Err(f),
        },
    }
}

/// The number that a value holds under its tags, if it holds one.
pub fn number_of(v: &serde_yaml::Value) -> (r: Option<serde_yaml::Number>)
    ensures
        match bare(value_tree(*v)) {
            Tree::Number(n) => r matches Some(x) && number_view(x) == n,
            _ => r is None,
        },
    decreases value_tree(*v),
{
    match under_tag(v) {
        Some(inner) => number_of(inner),
        None => plain_number(v),
    }
}

/// The text of a scalar, and nothing for a list or a mapping.
pub fn text_of_scalar(v: &serde_yaml::Value) -> (r: Option<String>)
    ensures
        match scalar_text(value_tree(*v)) {
            Some(s) => r matches Some(x) && x@ == s,
            None => r is None,
        },
{
    if let Some(s) = text_of(v) {
        return Some(s.to_owned());
    }
    if let Some(n) = number_of(v) {
        return Some(number_text(&n));
    }
    if let Some(b) = bool_of(v) {
        return Some(
            if b {
                "true".to_owned()
            } else {
                "false".to_owned()
            },
        );
    }
    if is_null(v) {
        Some(String::new())
    } else {
        None
    }
}

/// Reads a field of text.
pub fn text_field(v: &serde_yaml::Value, f: Field, default: &str) -> (r: Result<String, Field>)
    ensures
        match text_at(fields(value_tree(*v)), f, default@) {
            Ok(s) => r matches Ok(x) && x@ == s,
            Err(e) => r matches Err(g) && g == e,
        },
{
    proof {
        lemma_lookup_empty(f.key());
    }
    match entry_of(v, f.name()) {
        None => Ok(default.to_owned()),
        Some(x) => match text_of_scalar(x) {
            Some(s) => Ok(s),
            None => Err(f),
        },
    }
}

/// Reads a field that holds a game mode.
pub fn mode_field(v: &serde_yaml::Value, f: Field, default: GameMode) -> (r: Result<
    GameMode,
    Field,
>)
    ensures
        r == mode_at(fields(value_tree(*v)), f, default),
{
    proof {
        lemma_lookup_empty(f.key());
    }
    match entry_of(v, f.name()) {
        None => Ok(default),
        Some(x) => match int_of(x) {
            Some(i) => match GameMode::from_code(i) {
                Some(mode) => Ok(mode),
                None => Err(f),
            },
            None => Err(f),
        },
    }
}

/// Reads a field that holds a time signature.
pub fn signature_field(v: &serde_yaml::Value, f: Field, default: TimeSignature) -> (r: Result<
    TimeSignature,
    Field,
>)
    ensures
        r == signature_at(fields(value_tree(*v)), f, default),
{
    proof {
        lemma_lookup_empty(f.key());
    }
    match entry_of(v, f.name()) {
        None => Ok(default),
        Some(x) => match int_of(x) {
            Some(i) => match TimeSignature::from_code(i) {
                Some(signature) => Ok(signature),
                None => Err(f),
            },
            None => Err(f),
        },
    }
}

/// Reads a field that holds a list, and hands out its items: `None` where the
/// list is empty because the field is absent or null.
pub fn items_field<'a>(v: &'a serde_yaml::Value, f: Field) -> (r: Result<
    Option<&'a Vec<serde_yaml::Value>>,
    Field,
>)
    ensures
        match items_at(fields(value_tree(*v)), f) {
            Ok(ts) => r matches Ok(found) && match found {
                Some(xs) => xs@.len() == ts.len() && forall|i: int|
                    0 <= i < ts.len() ==> value_tree(#[trigger] xs@[i]) == ts[i],
                None => ts.len() == 0,
            },
            Err(e) => r matches Err(g) && g == e,
        },
{
    proof {
        lemma_lookup_empty(f.key());
    }
    match entry_of(v, f.name()) {
        None => Ok(None),
        Some(x) => match items_of(x) {
            Some(xs) => Ok(Some(xs)),
            None => if is_null(x) {
                Ok(None)
            } else {
                Err(f)
            },
        },
    }
}

} // verus!

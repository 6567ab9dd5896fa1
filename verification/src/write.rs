//! Writing one field of a mapping: the entry that stands for it.

use vstd::prelude::*;
use crate::field::Field;
use crate::mode::{GameMode, TimeSignature};
use crate::tree::{distinct_text_keys, Num, Tree};
use crate::yaml::{
    bool_value, mapping_value, number_from_int, number_value, number_view, text_value, value_tree,
};

verus! {

/// The entry of a field that holds a whole number.
pub open spec fn int_entry(f: Field, i: int) -> (Tree, Tree) {
    (Tree::Text(f.key()), Tree::Number(Num::Int(i)))
}

/// The entry of a field that holds a number, whole or not.
pub open spec fn number_entry(f: Field, n: Num) -> (Tree, Tree) {
    (Tree::Text(f.key()), Tree::Number(n))
}

/// The entry of a field that is true or false.
pub open spec fn bool_entry(f: Field, b: bool) -> (Tree, Tree) {
    (Tree::Text(f.key()), Tree::Bool(b))
}

/// The entry of a field that holds a text.
pub open spec fn text_entry(f: Field, s: Seq<char>) -> (Tree, Tree) {
    (Tree::Text(f.key()), Tree::Text(s))
}

/// The entry of a field that holds a list.
pub open spec fn list_entry(f: Field, ts: Seq<Tree>) -> (Tree, Tree) {
    (Tree::Text(f.key()), Tree::Sequence(ts))
}

/// The entry that a key and a value make.
pub open spec fn entry_tree(e: (serde_yaml::Value, serde_yaml::Value)) -> (Tree, Tree) {
    (value_tree(e.0), value_tree(e.1))
}

/// The entries that keys and values make, in their order.
pub open spec fn entry_trees(es: Seq<(serde_yaml::Value, serde_yaml::Value)>) -> Seq<(Tree, Tree)> {
    Seq::new(es.len(), |i: int| entry_tree(es[i]))
}

/// The mapping that the entries make, where every key is a text and no two
/// keys are the same.
pub fn finish(out: Vec<(serde_yaml::Value, serde_yaml::Value)>) -> (v: serde_yaml::Value)
    requires
        distinct_text_keys(entry_trees(out@)),
    ensures
        value_tree(v) == Tree::Mapping(entry_trees(out@)),
{
    proof {
        assert(entry_trees(out@) =~= Seq::new(
            out@.len(),
            |i: int| (value_tree(out@[i].0), value_tree(out@[i].1)),
        ));
    }
    mapping_value(out)
}

/// Adds the entry of a field under the field's key.
pub fn put(out: &mut Vec<(serde_yaml::Value, serde_yaml::Value)>, f: Field, v: serde_yaml::Value)
    ensures
        entry_trees(final(out)@) == entry_trees(old(out)@).push((Tree::Text(f.key()), value_tree(v))),
{
    let ghost before = out@;
    out.push((text_value(f.name()), v));
    proof {
        assert(entry_trees(out@) =~= entry_trees(before).push((Tree::Text(f.key()), value_tree(v))));
    }
}

/// Adds the entry of a field that holds a whole number.
pub fn put_int(out: &mut Vec<(serde_yaml::Value, serde_yaml::Value)>, f: Field, i: i64)
    ensures
        entry_trees(final(out)@) == entry_trees(old(out)@).push(int_entry(f, i as int)),
{
    let n = number_from_int(i);
    put(out, f, number_value(&n));
}

/// Adds the entry of a field that holds a number, whole or not.
pub fn put_number(out: &mut Vec<(serde_yaml::Value, serde_yaml::Value)>, f: Field, n: &serde_yaml::Number)
    ensures
        entry_trees(final(out)@) == entry_trees(old(out)@).push(number_entry(f, number_view(*n))),
{
    put(out, f, number_value(n));
}

/// Adds the entry of a field that is true or false.
pub fn put_bool(out: &mut Vec<(serde_yaml::Value, serde_yaml::Value)>, f: Field, b: bool)
    ensures
        entry_trees(final(out)@) == entry_trees(old(out)@).push(bool_entry(f, b)),
{
    put(out, f, bool_value(b));
}

/// Adds the entry of a field that holds a text.
pub fn put_text(out: &mut Vec<(serde_yaml::Value, serde_yaml::Value)>, f: Field, s: &str)
    ensures
        entry_trees(final(out)@) == entry_trees(old(out)@).push(text_entry(f, s@)),
{
    put(out, f, text_value(s));
}

/// Adds the entry of a field that holds a game mode.
pub fn put_mode(out: &mut Vec<(serde_yaml::Value, serde_yaml::Value)>, f: Field, mode: GameMode)
    ensures
        entry_trees(final(out)@) == entry_trees(old(out)@).push(int_entry(f, mode.code())),
{
    put_int(out, f, mode.to_code());
}

/// Adds the entry of a field that holds a time signature.
pub fn put_signature(
    out: &mut Vec<(serde_yaml::Value, serde_yaml::Value)>,
    f: Field,
    signature: TimeSignature,
)
    ensures
        entry_trees(final(out)@) == entry_trees(old(out)@).push(int_entry(f, signature.code())),
{
    put_int(out, f, signature.to_code());
}

} // verus!

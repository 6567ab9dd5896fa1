//! The mathematical model of a document: a tree of scalars, sequences and
//! mappings. Contracts of the whole crate are stated over this model.

use vstd::prelude::*;

verus! {

/// What a number scalar holds.
pub enum Num {
    /// A whole number.
    Int(int),
    /// A number that is not whole (it was written with a fraction or an
    /// exponent, or it is an infinity or not a number), by the 64 bits of its
    /// binary encoding.
    Real(u64),
}

/// The character of one decimal digit.
pub open spec fn digit(d: int) -> char {
    if d == 0 {
        '0'
    } else if d == 1 {
        '1'
    } else if d == 2 {
        '2'
    } else if d == 3 {
        '3'
    } else if d == 4 {
        '4'
    } else if d == 5 {
        '5'
    } else if d == 6 {
        '6'
    } else if d == 7 {
        '7'
    } else if d == 8 {
        '8'
    } else {
        '9'
    }
}

/// The decimal digits of a number that is not negative, without leading
/// zeros.
pub open spec fn digits(n: nat) -> Seq<char>
    decreases n,
{
    if n < 10 {
        seq![digit(n as int)]
    } else {
        digits(n / 10).push(digit(n as int % 10))
    }
}

/// A whole number as it is written: its decimal digits, after a minus sign
/// where it is negative.
pub open spec fn decimal(i: int) -> Seq<char> {
    if i < 0 {
        seq!['-'] + digits((-i) as nat)
    } else {
        digits(i as nat)
    }
}

/// A document, or a part of one.
pub enum Tree {
    Null,
    Bool(bool),
    Number(Num),
    Text(Seq<char>),
    Sequence(Seq<Tree>),
    /// The entries of a mapping, in the order of the document.
    Mapping(Seq<(Tree, Tree)>),
    /// A tree under a tag.
    Tagged(Seq<char>, Box<Tree>),
}

/// The tree under all the tags that stand above it.
pub open spec fn bare(t: Tree) -> Tree
    decreases t,
{
    match t {
        Tree::Tagged(_, inner) => bare(*inner),
        _ => t,
    }
}

/// The value of the first entry whose key is the text `key`.
#[verifier::opaque]
pub open spec fn lookup(m: Seq<(Tree, Tree)>, key: Seq<char>) -> Option<Tree>
    decreases m.len(),
{
    if m.len() == 0 {
        None
    } else if m[0].0 == Tree::Text(key) {
        Some(m[0].1)
    } else {
        lookup(m.drop_first(), key)
    }
}

/// No two of the keys are the same.
pub open spec fn distinct_keys(keys: Seq<Seq<char>>) -> bool {
    forall|i: int, j: int| 0 <= i < j < keys.len() ==> keys[i] != keys[j]
}

/// The entries have the given texts as their keys, one by one.
pub open spec fn keyed_by(m: Seq<(Tree, Tree)>, keys: Seq<Seq<char>>) -> bool {
    &&& m.len() == keys.len()
    &&& forall|i: int| 0 <= i < m.len() ==> (#[trigger] m[i]).0 == Tree::Text(keys[i])
}

/// Every key is a text, and no two keys are the same.
pub open spec fn distinct_text_keys(m: Seq<(Tree, Tree)>) -> bool {
    &&& forall|i: int| 0 <= i < m.len() ==> (#[trigger] m[i]).0 is Text
    &&& forall|i: int, j: int| 0 <= i < j < m.len() ==> (#[trigger] m[i]).0 != (#[trigger] m[j]).0
}

/// Entries keyed by texts that differ from one another have distinct text
/// keys.
pub proof fn lemma_distinct_text_keys(m: Seq<(Tree, Tree)>, keys: Seq<Seq<char>>)
    requires
        keyed_by(m, keys),
        distinct_keys(keys),
    ensures
        distinct_text_keys(m),
{
}

/// A mapping without entries has nothing under any key.
pub proof fn lemma_lookup_empty(key: Seq<char>)
    ensures
        lookup(Seq::empty(), key) is None,
{
    reveal(lookup);
}

/// Where the key first stands at `i`, the lookup yields the value at `i`.
pub proof fn lemma_lookup_at(m: Seq<(Tree, Tree)>, key: Seq<char>, i: int)
    requires
        0 <= i < m.len(),
        m[i].0 == Tree::Text(key),
        forall|j: int| 0 <= j < i ==> m[j].0 != Tree::Text(key),
    ensures
        lookup(m, key) == Some(m[i].1),
    decreases i,
{
    reveal(lookup);
    if i > 0 {
        let rest = m.drop_first();
        assert(rest[i - 1] == m[i]);
        assert forall|j: int| 0 <= j < i - 1 implies rest[j].0 != Tree::Text(key) by {
            assert(rest[j] == m[j + 1]);
        }
        lemma_lookup_at(rest, key, i - 1);
    }
}

/// In a mapping whose keys are texts that differ from one another, the lookup
/// of the key at `i` yields the value at `i`.
pub proof fn lemma_lookup_distinct(m: Seq<(Tree, Tree)>, keys: Seq<Seq<char>>, i: int)
    requires
        keyed_by(m, keys),
        distinct_keys(keys),
        0 <= i < m.len(),
    ensures
        lookup(m, keys[i]) == Some(m[i].1),
{
    lemma_lookup_at(m, keys[i], i);
}

/// An entry with another key, put anywhere, does not change the lookup.
pub proof fn lemma_lookup_insert(m: Seq<(Tree, Tree)>, i: int, e: (Tree, Tree), key: Seq<char>)
    requires
        0 <= i <= m.len(),
        e.0 != Tree::Text(key),
    ensures
        lookup(m.insert(i, e), key) == lookup(m, key),
    decreases i,
{
    reveal(lookup);
    let wider = m.insert(i, e);
    if i == 0 {
        assert(wider.drop_first() =~= m);
    } else {
        assert(wider[0] == m[0]);
        assert(wider.drop_first() =~= m.drop_first().insert(i - 1, e));
        lemma_lookup_insert(m.drop_first(), i - 1, e, key);
    }
}

} // verus!

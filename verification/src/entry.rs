//! The entries of a chart's lists. Each kind of entry says what a tree holds
//! when it is read as such an entry and which tree stands for an entry; lists
//! of entries are read and written here for all kinds alike.

use vstd::prelude::*;
use crate::chart::views;
use crate::field::Field;
use crate::read::{items_at, items_field, fields};
use crate::tree::Tree;
use crate::yaml::{sequence_value, value_tree};

verus! {

/// A kind of entry.
pub trait Entry: View + Sized {
    /// The entry that a tree holds: each of its fields as the mapping has it,
    /// or by default where the mapping has none. The error names the first
    /// field, in the order of the schema, that holds what the format does not
    /// take; where the tree is neither a mapping nor a null, it names the list
    /// that such entries stand in.
    spec fn of_tree(t: Tree) -> Result<Self::V, Field>;

    /// The tree that stands for an entry: a mapping with every field, in the
    /// order of the schema.
    spec fn tree_of(x: Self::V) -> Tree;

    /// Reading the tree that stands for an entry yields that entry.
    proof fn lemma_round_trip(x: Self::V)
        ensures
            Self::of_tree(Self::tree_of(x)) == Ok::<Self::V, Field>(x),
    ;

    /// Reads an entry.
    fn from_value(v: &serde_yaml::Value) -> (r: Result<Self, Field>)
        ensures
            match Self::of_tree(value_tree(*v)) {
                Ok(x) => r matches Ok(y) && y@ == x,
                Err(e) => r matches Err(g) && g == e,
            },
    ;

    /// Writes an entry. Reading what was written yields the entry again.
    fn to_value(&self) -> (v: serde_yaml::Value)
        ensures
            value_tree(v) == Self::tree_of(self@),
            Self::of_tree(value_tree(v)) == Ok::<Self::V, Field>(self@),
    ;
}

/// The entries that the items of a list hold. The error is that of the first
/// item that holds none.
pub open spec fn entries_of<E: Entry>(ts: Seq<Tree>) -> Result<Seq<E::V>, Field>
    decreases ts.len(),
{
    if ts.len() == 0 {
        Ok(Seq::empty())
    } else {
        match entries_of::<E>(ts.drop_last()) {
            Err(e) => Err(e),
            Ok(xs) => match E::of_tree(ts.last()) {
                Err(e) => Err(e),
                Ok(x) => Ok(xs.push(x)),
            },
        }
    }
}

/// The trees that stand for the entries of a list.
pub open spec fn trees_of<E: Entry>(xs: Seq<E::V>) -> Seq<Tree> {
    Seq::new(xs.len(), |i: int| E::tree_of(xs[i]))
}

/// A field that holds a list of entries.
pub open spec fn list_at<E: Entry>(m: Seq<(Tree, Tree)>, f: Field) -> Result<Seq<E::V>, Field> {
    match items_at(m, f) {
        Err(e) => Err(e),
        Ok(ts) => entries_of::<E>(ts),
    }
}

/// An error among the first `k` items of a list is the error of the list.
pub proof fn lemma_entries_prefix_err<E: Entry>(ts: Seq<Tree>, k: int)
    requires
        0 <= k <= ts.len(),
        entries_of::<E>(ts.take(k)) is Err,
    ensures
        entries_of::<E>(ts) == entries_of::<E>(ts.take(k)),
    decreases ts.len() - k,
{
    if k == ts.len() {
        assert(ts.take(k) =~= ts);
    } else {
        assert(ts.take(k + 1).drop_last() =~= ts.take(k));
        lemma_entries_prefix_err::<E>(ts, k + 1);
    }
}

/// Reading the trees that stand for a list of entries yields that list.
pub proof fn lemma_entries_round_trip<E: Entry>(xs: Seq<E::V>)
    ensures
        entries_of::<E>(trees_of::<E>(xs)) == Ok::<Seq<E::V>, Field>(xs),
    decreases xs.len(),
{
    let ts = trees_of::<E>(xs);
    if xs.len() > 0 {
        assert(ts.drop_last() =~= trees_of::<E>(xs.drop_last()));
        lemma_entries_round_trip::<E>(xs.drop_last());
        E::lemma_round_trip(xs.last());
        assert(xs.drop_last().push(xs.last()) =~= xs);
    } else {
        assert(xs =~= Seq::empty());
    }
}

/// Reads a field that holds a list of entries.
pub fn list_field<E: Entry>(v: &serde_yaml::Value, f: Field) -> (r: Result<Vec<E>, Field>)
    ensures
        match list_at::<E>(fields(value_tree(*v)), f) {
            Ok(xs) => r matches Ok(out) && views(out@) == xs,
            Err(e) => r matches Err(g) && g == e,
        },
{
    let mut out: Vec<E> = Vec::new();
    let found = items_field(v, f)?;
    let ghost ts = items_at(fields(value_tree(*v)), f)->Ok_0;
    match found {
        None => {
            proof {
                assert(views(out@) =~= Seq::empty());
            }
        },
        Some(items) => {
            let mut i: usize = 0;
            proof {
                assert(ts.take(0) =~= Seq::empty());
                assert(views(out@) =~= Seq::empty());
            }
            while i < items.len()
                invariant
                    i <= items.len(),
                    items@.len() == ts.len(),
                    items_at(fields(value_tree(*v)), f) == Ok::<Seq<Tree>, Field>(ts),
                    forall|j: int| 0 <= j < ts.len() ==> value_tree(#[trigger] items@[j]) == ts[j],
                    entries_of::<E>(ts.take(i as int)) == Ok::<Seq<E::V>, Field>(views(out@)),
                decreases items.len() - i,
            {
                proof {
                    assert(ts.take(i + 1).drop_last() =~= ts.take(i as int));
                    assert(ts.take(i + 1).last() == ts[i as int]);
                }
                match E::from_value(&items[i]) {
                    Ok(x) => {
                        let ghost before = views(out@);
                        out.push(x);
                        proof {
                            assert(views(out@) =~= before.push(x@));
                        }
                    },
                    Err(e) => {
                        proof {
                            assert(entries_of::<E>(ts.take(i + 1)) == Err::<Seq<E::V>, Field>(e));
                            lemma_entries_prefix_err::<E>(ts, i + 1);
                        }
                        return Err(e);
                    },
                }
                i += 1;
            }
            proof {
                assert(ts.take(i as int) =~= ts);
            }
        },
    }
    Ok(out)
}

/// Writes a list of entries.
pub fn list_value<E: Entry>(items: &Vec<E>) -> (v: serde_yaml::Value)
    ensures
        value_tree(v) == Tree::Sequence(trees_of::<E>(views(items@))),
{
    let mut out: Vec<serde_yaml::Value> = Vec::new();
    let mut i: usize = 0;
    while i < items.len()
        invariant
            i <= items.len(),
            out@.len() == i,
            forall|j: int| 0 <= j < i ==> value_tree(#[trigger] out@[j]) == E::tree_of(items@[j]@),
        decreases items.len() - i,
    {
        out.push(items[i].to_value());
        i += 1;
    }
    let v = sequence_value(out);
    proof {
        assert(Seq::new(out@.len(), |k: int| value_tree(out@[k])) =~= trees_of::<E>(
            views(items@),
        ));
    }
    v
}

} // verus!

//! Relations: what holds in addition once a condition is met.
//!
//! Each relation pairs condition records with addition records. The views of
//! relations hold the views of their records, so that two relations with the
//! same view say the same thing.

use vstd::prelude::*;
use crate::ect::{Ect, EctView};

verus! {

/// The views of the items of a list, in order.
pub open spec fn views<T: View>(list: Seq<T>) -> Seq<T::V> {
    Seq::new(list.len(), |i: int| list[i]@)
}

/// The views of a list with one more item are the views of the list with the
/// view of that item behind them.
pub proof fn lemma_views_push<T: View>(list: Seq<T>, item: T)
    ensures
        views(list.push(item)) == views(list).push(item@),
{
    assert(views(list.push(item)) =~= views(list).push(item@));
}

/// A list whose views are the first `i` items of `target` has, with one more
/// item whose view is the next of `target`, the first `i + 1` as its views.
pub proof fn lemma_views_grow<T: View>(list: Seq<T>, item: T, target: Seq<T::V>, i: int)
    requires
        0 <= i < target.len(),
        views(list) == target.take(i),
        item@ == target[i],
    ensures
        views(list.push(item)) == target.take(i + 1),
{
    lemma_views_push(list, item);
    assert(target.take(i).push(target[i]) =~= target.take(i + 1));
}

/// The views of two lists joined are the views of the first followed by
/// those of the second.
pub proof fn lemma_views_add<T: View>(first: Seq<T>, second: Seq<T>)
    ensures
        views(first + second) == views(first) + views(second),
{
    assert(views(first + second) =~= views(first) + views(second));
}

/// A reference-value relation: one condition, one addition.
#[derive(Debug, PartialEq, Eq)]
pub struct RvRelation<'a> {
    pub condition: Ect<'a>,
    pub addition: Ect<'a>,
}

/// An endorsed-value relation: conditions and the additions they bring.
#[derive(Debug, PartialEq, Eq)]
pub struct EvRelation<'a> {
    pub condition: Vec<Ect<'a>>,
    pub addition: Vec<Ect<'a>>,
}

/// A relation over a series of conditions: a selection narrows the
/// conditions before the additions apply.
#[derive(Debug, PartialEq, Eq)]
pub struct EvsRelation<'a> {
    pub condition: Vec<Ect<'a>>,
    pub selection: Vec<Ect<'a>>,
    pub addition: Vec<Ect<'a>>,
}

/// What an [`RvRelation`] holds.
#[verifier::ext_equal]
pub struct RvRelationView<'a> {
    pub condition: EctView<'a>,
    pub addition: EctView<'a>,
}

/// What an [`EvRelation`] holds.
#[verifier::ext_equal]
pub struct EvRelationView<'a> {
    pub condition: Seq<EctView<'a>>,
    pub addition: Seq<EctView<'a>>,
}

/// What an [`EvsRelation`] holds.
#[verifier::ext_equal]
pub struct EvsRelationView<'a> {
    pub condition: Seq<EctView<'a>>,
    pub selection: Seq<EctView<'a>>,
    pub addition: Seq<EctView<'a>>,
}

impl<'a> View for RvRelation<'a> {
    type V = RvRelationView<'a>;

    open spec fn view(&self) -> RvRelationView<'a> {
        RvRelationView { condition: self.condition@, addition: self.addition@ }
    }
}

impl<'a> View for EvRelation<'a> {
    type V = EvRelationView<'a>;

    open spec fn view(&self) -> EvRelationView<'a> {
        EvRelationView { condition: views(self.condition@), addition: views(self.addition@) }
    }
}

impl<'a> View for EvsRelation<'a> {
    type V = EvsRelationView<'a>;

    open spec fn view(&self) -> EvsRelationView<'a> {
        EvsRelationView {
            condition: views(self.condition@),
            selection: views(self.selection@),
            addition: views(self.addition@),
        }
    }
}

/// Clones a list of records, in order.
pub fn clone_ects<'a>(list: &Vec<Ect<'a>>) -> (copy: Vec<Ect<'a>>)
    ensures
        views(copy@) == views(list@),
{
    let copy = list.clone();
    assert(views(copy@) =~= views(list@));
    copy
}

impl<'a> Clone for RvRelation<'a> {
    fn clone(&self) -> (copy: Self)
        ensures
            copy@ == self@,
    {
        RvRelation { condition: self.condition.clone(), addition: self.addition.clone() }
    }
}

impl<'a> Clone for EvRelation<'a> {
    fn clone(&self) -> (copy: Self)
        ensures
            copy@ == self@,
    {
        EvRelation { condition: clone_ects(&self.condition), addition: clone_ects(&self.addition) }
    }
}

impl<'a> Clone for EvsRelation<'a> {
    fn clone(&self) -> (copy: Self)
        ensures
            copy@ == self@,
    {
        EvsRelation {
            condition: clone_ects(&self.condition),
            selection: clone_ects(&self.selection),
            addition: clone_ects(&self.addition),
        }
    }
}

} // verus!

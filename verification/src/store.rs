//! Bundles of relations, the translation of a whole document, and the store
//! that gathers what documents contribute.

use vstd::prelude::*;
use vstd::seq_lib::lemma_multiset_commutative;
use corim_rs::{Corim, ProfileTypeChoice};
use crate::coserv::{Coserv, ReferenceValuesQuad, ResultSetTypeChoice, TrustAnchorsQuad};
use crate::ect::{KeyType, TypedCryptoKey, INTERP_KEYS_EXT_ID};
use crate::ect::owned_elements;
use crate::relation::{
    lemma_views_add, views, EvRelation, EvRelationView, EvsRelation, EvsRelationView, RvRelation,
    RvRelationView,
};
use crate::result::Error;
use crate::translate::{
    ev_relations, rv_relations, translate_ak_quads, translate_rv_quads,
};
use crate::values::own_profile;

verus! {

/// The relations that translation has produced, of each shape in the order
/// in which they were added.
pub struct CoservParseResult<'a> {
    pub rv_list: Vec<RvRelation<'a>>,
    pub ev_list: Vec<EvRelation<'a>>,
    pub evs_list: Vec<EvsRelation<'a>>,
}

/// What a [`CoservParseResult`] holds.
#[verifier::ext_equal]
pub struct CoservParseResultView<'a> {
    pub rv_list: Seq<RvRelationView<'a>>,
    pub ev_list: Seq<EvRelationView<'a>>,
    pub evs_list: Seq<EvsRelationView<'a>>,
}

impl<'a> CoservParseResultView<'a> {
    /// The bundle that holds nothing.
    pub open spec fn empty() -> Self {
        CoservParseResultView {
            rv_list: Seq::empty(),
            ev_list: Seq::empty(),
            evs_list: Seq::empty(),
        }
    }

    /// This bundle with the relations of `other` behind its own, list by
    /// list.
    pub open spec fn merge(self, other: Self) -> Self {
        CoservParseResultView {
            rv_list: self.rv_list + other.rv_list,
            ev_list: self.ev_list + other.ev_list,
            evs_list: self.evs_list + other.evs_list,
        }
    }
}

impl<'a> View for CoservParseResult<'a> {
    type V = CoservParseResultView<'a>;

    open spec fn view(&self) -> CoservParseResultView<'a> {
        CoservParseResultView {
            rv_list: views(self.rv_list@),
            ev_list: views(self.ev_list@),
            evs_list: views(self.evs_list@),
        }
    }
}

/// How many quads of a result set the translation turns into relations:
/// its reference-value quads and its trust-anchor quads.
pub open spec fn relevant_quads<'a>(set: ResultSetTypeChoice<'a>) -> nat {
    set.rv_quads().len() + set.ak_quads().len()
}

/// The bundle that a result set stands for under a profile: a
/// reference-value relation for each reference-value quad, an
/// endorsed-value relation for each trust-anchor quad, and nothing else.
pub open spec fn translated<'a>(
    set: ResultSetTypeChoice<'a>,
    profile: Option<ProfileTypeChoice<'a>>,
) -> CoservParseResultView<'a> {
    CoservParseResultView {
        rv_list: rv_relations(set.rv_quads(), profile),
        ev_list: ev_relations(set.ak_quads(), profile),
        evs_list: Seq::empty(),
    }
}

/// The reference-value quads of a document: none where it has no results,
/// no result set, or one of another kind.
pub open spec fn coserv_rv_quads<'a>(coserv: Coserv<'a>) -> Seq<ReferenceValuesQuad<'a>> {
    match coserv.results {
        Some(results) => match results.result_set {
            Some(set) => set.rv_quads(),
            None => Seq::empty(),
        },
        None => Seq::empty(),
    }
}

/// The trust-anchor quads of a document: none where it has no results, no
/// result set, or one of another kind.
pub open spec fn coserv_ak_quads<'a>(coserv: Coserv<'a>) -> Seq<TrustAnchorsQuad<'a>> {
    match coserv.results {
        Some(results) => match results.result_set {
            Some(set) => set.ak_quads(),
            None => Seq::empty(),
        },
        None => Seq::empty(),
    }
}

/// What the translation of a document comes to: the bundle it stands for
/// under its own profile, or the reason why it contributes nothing.
pub open spec fn parse_outcome<'a>(coserv: Coserv<'a>) -> Result<CoservParseResultView<'a>, Error> {
    match coserv.results {
        None => Err(Error::MissingResults),
        Some(results) => match results.result_set {
            None => Err(Error::EmptyResultSet),
            Some(set) => if relevant_quads(set) == 0 {
                Err(Error::NoRelevantQuads)
            } else {
                Ok(translated(set, Some(coserv.profile)))
            },
        },
    }
}

impl<'a> CoservParseResult<'a> {
    /// The bundle that holds nothing.
    pub fn new() -> (bundle: Self)
        ensures
            bundle@ == CoservParseResultView::empty(),
    {
        let bundle = CoservParseResult { rv_list: Vec::new(), ev_list: Vec::new(), evs_list: Vec::new() };
        assert(bundle@ =~~= CoservParseResultView::empty());
        bundle
    }

    /// Moves the relations of `other` behind those of this bundle.
    pub fn extend(&mut self, other: CoservParseResult<'a>)
        ensures
            final(self)@ == old(self)@.merge(other@),
    {
        let mut other = other;
        self.append(&mut other);
    }

    /// Moves the relations of `other` behind those of this bundle, and
    /// leaves `other` empty.
    pub fn append(&mut self, other: &mut CoservParseResult<'a>)
        ensures
            final(self)@ == old(self)@.merge(old(other)@),
            final(other)@ == CoservParseResultView::empty(),
    {
        proof {
            lemma_views_add(self.rv_list@, other.rv_list@);
            lemma_views_add(self.ev_list@, other.ev_list@);
            lemma_views_add(self.evs_list@, other.evs_list@);
        }
        self.rv_list.append(&mut other.rv_list);
        self.ev_list.append(&mut other.ev_list);
        self.evs_list.append(&mut other.evs_list);
        assert(other@ =~~= CoservParseResultView::empty());
    }

    /// Translates a result set under a profile and puts its relations
    /// behind those of this bundle. A set without a reference-value or
    /// trust-anchor quad is refused, and the bundle stays as it was.
    pub fn update_from_coserv_result<'b>(
        &mut self,
        coserv_result: &ResultSetTypeChoice<'b>,
        profile: &Option<ProfileTypeChoice<'b>>,
    ) -> (outcome: Result<(), Error>)
        ensures
            match outcome {
                Ok(()) => {
                    &&& relevant_quads(*coserv_result) > 0
                    &&& final(self)@ == old(self)@.merge(translated(*coserv_result, *profile))
                },
                Err(e) => {
                    &&& e == Error::NoRelevantQuads
                    &&& relevant_quads(*coserv_result) == 0
                    &&& final(self)@ == old(self)@
                },
            },
    {
        let mut fresh: CoservParseResult<'a> = CoservParseResult::new();
        match coserv_result {
            ResultSetTypeChoice::ReferenceValues(rv) => {
                match translate_rv_quads(&rv.rv_quads, profile) {
                    Ok(relations) => {
                        fresh.rv_list = relations;
                    },
                    Err(e) => {
                        return Err(e);
                    },
                }
            },
            ResultSetTypeChoice::TrustAnchors(ta) => {
                match translate_ak_quads(&ta.ak_quads, profile) {
                    Ok(relations) => {
                        fresh.ev_list = relations;
                    },
                    Err(e) => {
                        return Err(e);
                    },
                }
            },
            _ => {},
        }
        assert(fresh@ =~~= translated(*coserv_result, *profile));
        if fresh.rv_list.is_empty() && fresh.ev_list.is_empty() {
            return Err(Error::NoRelevantQuads);
        }
        self.append(&mut fresh);
        Ok(())
    }
}

impl<'a> Clone for CoservParseResult<'a> {
    fn clone(&self) -> (copy: Self)
        ensures
            copy@ == self@,
    {
        let rv_list = self.rv_list.clone();
        let ev_list = self.ev_list.clone();
        let evs_list = self.evs_list.clone();
        assert(views(rv_list@) =~= views(self.rv_list@));
        assert(views(ev_list@) =~= views(self.ev_list@));
        assert(views(evs_list@) =~= views(self.evs_list@));
        CoservParseResult { rv_list, ev_list, evs_list }
    }
}

impl<'a> Default for CoservParseResult<'a> {
    fn default() -> (bundle: Self)
        ensures
            bundle@ == CoservParseResultView::empty(),
    {
        CoservParseResult::new()
    }
}

/// Translates a document into the bundle of relations it stands for.
///
/// Fails with [`Error::MissingResults`] where the document has no results,
/// with [`Error::EmptyResultSet`] where the results hold no result set, and
/// with [`Error::NoRelevantQuads`] where the result set has no
/// reference-value or trust-anchor quad.
pub fn parse_coserv<'a, 'b>(coserv: &Coserv<'a>) -> (outcome: Result<CoservParseResult<'b>, Error>)
    ensures
        match outcome {
            Ok(bundle) => {
                &&& parse_outcome(*coserv) == Ok::<CoservParseResultView<'a>, Error>(bundle@)
                &&& bundle@.rv_list.len() == coserv_rv_quads(*coserv).len()
                &&& bundle@.ev_list.len() == coserv_ak_quads(*coserv).len()
                &&& bundle@.evs_list.len() == 0
            },
            Err(e) => parse_outcome(*coserv) == Err::<CoservParseResultView<'a>, Error>(e),
        },
{
    match &coserv.results {
        Some(results) => match &results.result_set {
            Some(set) => {
                let mut bundle: CoservParseResult<'b> = CoservParseResult::new();
                let profile = Some(own_profile(&coserv.profile));
                match bundle.update_from_coserv_result(set, &profile) {
                    Ok(()) => {
                        assert(bundle@ =~~= translated(*set, profile));
                        Ok(bundle)
                    },
                    Err(e) => Err(e),
                }
            },
            None => Err(Error::EmptyResultSet),
        },
        None => Err(Error::MissingResults),
    }
}

/// A store in memory for the relations of CoSERV results.
pub struct MemCoservStore<'a> {
    pub items: CoservParseResult<'a>,
}

impl<'a> MemCoservStore<'a> {
    /// The store that holds nothing.
    pub fn new() -> (store: Self)
        ensures
            store.items@ == CoservParseResultView::empty(),
    {
        MemCoservStore { items: CoservParseResult::new() }
    }

    /// Refuses a CoRIM: this store holds CoSERV results. Fails with
    /// [`Error::CapabilityMismatch`] whatever the store holds, and changes
    /// nothing.
    pub fn add<'b>(&mut self, _corim: &Corim<'b>) -> (outcome: Result<(), Error>)
        ensures
            outcome == Err::<(), Error>(Error::CapabilityMismatch),
            *final(self) == *old(self),
    {
        Err(Error::CapabilityMismatch)
    }

    /// A copy of the reference-value relations held at this moment.
    pub fn iter_rv(&self) -> (snapshot: Vec<RvRelation<'a>>)
        ensures
            views(snapshot@) == self.items@.rv_list,
            snapshot@.len() == self.items.rv_list@.len(),
    {
        let snapshot = self.items.rv_list.clone();
        assert(views(snapshot@) =~= views(self.items.rv_list@));
        snapshot
    }

    /// A copy of the endorsed-value relations held at this moment.
    pub fn iter_ev(&self) -> (snapshot: Vec<EvRelation<'a>>)
        ensures
            views(snapshot@) == self.items@.ev_list,
            snapshot@.len() == self.items.ev_list@.len(),
    {
        let snapshot = self.items.ev_list.clone();
        assert(views(snapshot@) =~= views(self.items.ev_list@));
        snapshot
    }

    /// A copy of the relations over series held at this moment.
    pub fn iter_evs(&self) -> (snapshot: Vec<EvsRelation<'a>>)
        ensures
            views(snapshot@) == self.items@.evs_list,
            snapshot@.len() == self.items.evs_list@.len(),
    {
        let snapshot = self.items.evs_list.clone();
        assert(views(snapshot@) =~= views(self.items.evs_list@));
        snapshot
    }

    /// Translates a document and puts its relations behind those that the
    /// store holds. Where the translation fails, the store stays as it was.
    pub fn add_coserv<'b>(&mut self, coserv: &Coserv<'b>) -> (outcome: Result<(), Error>)
        ensures
            match outcome {
                Ok(()) => parse_outcome(*coserv) matches Ok(bundle) && final(self).items@ == old(
                    self,
                ).items@.merge(bundle),
                Err(e) => {
                    &&& parse_outcome(*coserv) == Err::<CoservParseResultView<'b>, Error>(e)
                    &&& *final(self) == *old(self)
                },
            },
    {
        match parse_coserv(coserv) {
            Ok(parsed) => {
                let mut parsed: CoservParseResult<'a> = parsed;
                self.items.append(&mut parsed);
                Ok(())
            },
            Err(e) => Err(e),
        }
    }

    /// Takes what a decoder made of a byte buffer: a document, which is
    /// added as [`MemCoservStore::add_coserv`] adds it, or nothing, which
    /// fails with [`Error::DecodeError`] and leaves the store as it was.
    pub fn add_decoded<'b>(&mut self, decoded: &Option<Coserv<'b>>) -> (outcome: Result<(), Error>)
        ensures
            match outcome {
                Ok(()) => *decoded matches Some(coserv) && parse_outcome(coserv) matches Ok(bundle)
                    && final(self).items@ == old(self).items@.merge(bundle),
                Err(e) => {
                    &&& *final(self) == *old(self)
                    &&& match *decoded {
                        Some(coserv) => parse_outcome(coserv) == Err::<
                            CoservParseResultView<'b>,
                            Error,
                        >(e),
                        None => e == Error::DecodeError,
                    }
                },
            },
    {
        match decoded {
            Some(coserv) => self.add_coserv(coserv),
            None => Err(Error::DecodeError),
        }
    }
}

/// Each reference-value quad of a document comes out as one relation, at
/// the quad's place in the list: its condition holds the quad's environment
/// and its claims as a copy that borrows nothing holds them, its addition
/// the same environment, the quad's authorities and the document's profile.
pub proof fn lemma_reference_values_keep_their_shape<'a>(coserv: Coserv<'a>, i: int)
    requires
        0 <= i < coserv_rv_quads(coserv).len(),
    ensures
        parse_outcome(coserv) matches Ok(bundle) && {
            let quad = coserv_rv_quads(coserv)[i];
            &&& bundle.rv_list.len() == coserv_rv_quads(coserv).len()
            &&& bundle.rv_list[i].condition.environment == Some(quad.triple.ref_env)
            &&& bundle.rv_list[i].condition.elements() == owned_elements(quad.triple.ref_claims@)
            &&& bundle.rv_list[i].condition.elements().len() == quad.triple.ref_claims@.len()
            &&& forall|k: int|
                0 <= k < quad.triple.ref_claims@.len() ==> {
                    let claim = #[trigger] quad.triple.ref_claims@[k];
                    let copy = bundle.rv_list[i].condition.elements()[k];
                    &&& copy.mkey == claim.mkey
                    &&& copy.mval.extension == claim.mval.extension
                    &&& copy.mval.values is Some <==> claim.mval.values is Some
                }
            &&& bundle.rv_list[i].addition.environment == Some(quad.triple.ref_env)
            &&& bundle.rv_list[i].addition.authorities() == quad.authorities@
            &&& bundle.rv_list[i].addition.profile == Some(coserv.profile)
        },
{
}

/// A translated document holds as many reference-value relations as it has
/// reference-value quads, as many endorsed-value relations as it has
/// trust-anchor quads, and no relation over series.
pub proof fn lemma_translation_keeps_counts<'a>(coserv: Coserv<'a>)
    requires
        parse_outcome(coserv) is Ok,
    ensures
        parse_outcome(coserv)->Ok_0.rv_list.len() == coserv_rv_quads(coserv).len(),
        parse_outcome(coserv)->Ok_0.ev_list.len() == coserv_ak_quads(coserv).len(),
        parse_outcome(coserv)->Ok_0.evs_list.len() == 0,
{
}

/// A document without results is refused as missing its results; one whose
/// result set has no reference-value and no trust-anchor quad is refused as
/// holding no relevant quads.
pub proof fn lemma_empty_documents_are_refused<'a>(coserv: Coserv<'a>)
    ensures
        coserv.results is None ==> parse_outcome(coserv) == Err::<
            CoservParseResultView<'a>,
            Error,
        >(Error::MissingResults),
        coserv.results matches Some(results) && results.result_set matches Some(set)
            && relevant_quads(set) == 0 ==> parse_outcome(coserv) == Err::<
            CoservParseResultView<'a>,
            Error,
        >(Error::NoRelevantQuads),
{
}

/// Each key of a trust-anchor quad comes out as one claim of the relation's
/// condition, at the key's place in the list, and the claim's value holds
/// under [`INTERP_KEYS_EXT_ID`] that very key, typed as an attestation key.
pub proof fn lemma_keys_are_typed<'a>(coserv: Coserv<'a>, i: int, k: int)
    requires
        0 <= i < coserv_ak_quads(coserv).len(),
        0 <= k < coserv_ak_quads(coserv)[i].triple.key_list@.len(),
    ensures
        parse_outcome(coserv) matches Ok(bundle) && {
            let quad = coserv_ak_quads(coserv)[i];
            &&& bundle.ev_list.len() == coserv_ak_quads(coserv).len()
            &&& bundle.ev_list[i].condition.len() == 1
            &&& bundle.ev_list[i].condition[0].elements().len() == quad.triple.key_list@.len()
            &&& bundle.ev_list[i].condition[0].elements()[k].mval.typed_key_at(
                INTERP_KEYS_EXT_ID,
            ) == Some(TypedCryptoKey { key: quad.triple.key_list@[k], key_type: KeyType::AttestKey })
        },
{
}

/// Bundles merged one after the other stand in each list in the order of
/// the calls.
pub proof fn lemma_merge_follows_call_order<'a>(
    store: CoservParseResultView<'a>,
    first: CoservParseResultView<'a>,
    second: CoservParseResultView<'a>,
)
    ensures
        store.merge(first).merge(second).rv_list == store.rv_list + first.rv_list
            + second.rv_list,
        store.merge(first).merge(second).ev_list == store.ev_list + first.ev_list
            + second.ev_list,
        store.merge(first).merge(second).evs_list == store.evs_list + first.evs_list
            + second.evs_list,
{
}

/// Two bundles merged into a store leave the same relations in each list,
/// each as often, whichever of the two is merged first.
pub proof fn lemma_merge_commutes<'a>(
    store: CoservParseResultView<'a>,
    first: CoservParseResultView<'a>,
    second: CoservParseResultView<'a>,
)
    ensures
        store.merge(first).merge(second).rv_list.to_multiset() == store.merge(second).merge(
            first,
        ).rv_list.to_multiset(),
        store.merge(first).merge(second).ev_list.to_multiset() == store.merge(second).merge(
            first,
        ).ev_list.to_multiset(),
        store.merge(first).merge(second).evs_list.to_multiset() == store.merge(second).merge(
            first,
        ).evs_list.to_multiset(),
{
    lemma_joined_twice_commutes(store.rv_list, first.rv_list, second.rv_list);
    lemma_joined_twice_commutes(store.ev_list, first.ev_list, second.ev_list);
    lemma_joined_twice_commutes(store.evs_list, first.evs_list, second.evs_list);
}

/// Behind a list, two lists joined in either order leave the same items,
/// each as often.
proof fn lemma_joined_twice_commutes<T>(base: Seq<T>, first: Seq<T>, second: Seq<T>)
    ensures
        (base + first + second).to_multiset() == (base + second + first).to_multiset(),
{
    broadcast use vstd::multiset::group_multiset_axioms;

    lemma_multiset_commutative(base + first, second);
    lemma_multiset_commutative(base, first);
    lemma_multiset_commutative(base + second, first);
    lemma_multiset_commutative(base, second);
    assert((base + first + second).to_multiset() =~= (base + second + first).to_multiset());
}

} // verus!

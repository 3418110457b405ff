//! From quads to relations.
//!
//! A reference-value quad becomes a reference-value relation; a trust-anchor
//! quad becomes an endorsed-value relation whose claims carry the quad's
//! keys, each typed as an attestation key. The spec functions say which
//! relation a quad stands for; the functions below build exactly that.

use vstd::prelude::*;
use corim_rs::{CryptoKeyTypeChoice, MeasuredElementTypeChoice, ProfileTypeChoice};
use crate::coserv::{ReferenceValuesQuad, TrustAnchorsQuad};
use crate::ect::{
    list_view, own_elements, owned_elements, CmType, Ect, EctBuilder, EctView, ElementMap,
    Extension, KeyType, MeasurementValue, TypedCryptoKey, INTERP_KEYS_EXT_ID,
};
use crate::relation::{
    lemma_views_grow, views, EvRelation, EvRelationView, RvRelation, RvRelationView,
};
use crate::result::Error;
use crate::values::{
    own_crypto_key, own_crypto_keys, own_environment, own_measured_element_opt, own_profile,
};

verus! {

/// The condition of a reference-value quad: its environment and its claims,
/// the claims as a copy that borrows nothing holds them.
pub open spec fn rv_condition<'a>(quad: ReferenceValuesQuad<'a>) -> EctView<'a> {
    EctView {
        cm_type: CmType::ReferenceValues,
        environment: Some(quad.triple.ref_env),
        element_list: Some(owned_elements(quad.triple.ref_claims@)),
        authority: None,
        profile: None,
    }
}

/// The addition of a reference-value quad: the same environment, vouched for
/// by the quad's authorities under the document's profile.
pub open spec fn rv_addition<'a>(
    quad: ReferenceValuesQuad<'a>,
    profile: Option<ProfileTypeChoice<'a>>,
) -> EctView<'a> {
    EctView {
        cm_type: CmType::ReferenceValues,
        environment: Some(quad.triple.ref_env),
        element_list: None,
        authority: Some(quad.authorities@),
        profile,
    }
}

/// The relation that a reference-value quad stands for.
pub open spec fn rv_relation<'a>(
    quad: ReferenceValuesQuad<'a>,
    profile: Option<ProfileTypeChoice<'a>>,
) -> RvRelationView<'a> {
    RvRelationView { condition: rv_condition(quad), addition: rv_addition(quad, profile) }
}

/// The relations that a list of reference-value quads stands for: one for
/// each quad, in the order of the quads.
pub open spec fn rv_relations<'a>(
    quads: Seq<ReferenceValuesQuad<'a>>,
    profile: Option<ProfileTypeChoice<'a>>,
) -> Seq<RvRelationView<'a>> {
    Seq::new(quads.len(), |i: int| rv_relation(quads[i], profile))
}

/// The claim that carries `key` as an attestation key, filed under `mkey`.
pub open spec fn attest_key_claim<'a>(
    mkey: Option<MeasuredElementTypeChoice<'a>>,
    key: CryptoKeyTypeChoice<'a>,
) -> ElementMap<'a> {
    ElementMap {
        mkey,
        mval: MeasurementValue {
            values: None,
            extension: Some(
                Extension {
                    id: INTERP_KEYS_EXT_ID,
                    key: TypedCryptoKey { key, key_type: KeyType::AttestKey },
                },
            ),
        },
    }
}

/// The measurement key that a trust-anchor quad files its keys under.
pub open spec fn ak_mkey<'a>(quad: TrustAnchorsQuad<'a>) -> Option<MeasuredElementTypeChoice<'a>> {
    match quad.triple.conditions {
        Some(conditions) => conditions.mkey,
        None => None,
    }
}

/// Who may have authorized the keys of a trust-anchor quad: unset where the
/// quad does not say.
pub open spec fn ak_authorized_by<'a>(quad: TrustAnchorsQuad<'a>) -> Option<
    Seq<CryptoKeyTypeChoice<'a>>,
> {
    match quad.triple.conditions {
        Some(conditions) => list_view(conditions.authorized_by),
        None => None,
    }
}

/// The claims of a trust-anchor quad: one for each of its keys, in order.
pub open spec fn ak_claims<'a>(quad: TrustAnchorsQuad<'a>) -> Seq<ElementMap<'a>> {
    Seq::new(
        quad.triple.key_list@.len(),
        |i: int| attest_key_claim(ak_mkey(quad), quad.triple.key_list@[i]),
    )
}

/// The condition of a trust-anchor quad: its environment, its keys as
/// claims, and who may have authorized them.
pub open spec fn ak_condition<'a>(quad: TrustAnchorsQuad<'a>) -> EctView<'a> {
    EctView {
        cm_type: CmType::Endorsements,
        environment: Some(quad.triple.environment),
        element_list: Some(ak_claims(quad)),
        authority: ak_authorized_by(quad),
        profile: None,
    }
}

/// The addition of a trust-anchor quad: the quad's authorities under the
/// document's profile.
pub open spec fn ak_addition<'a>(
    quad: TrustAnchorsQuad<'a>,
    profile: Option<ProfileTypeChoice<'a>>,
) -> EctView<'a> {
    EctView {
        cm_type: CmType::Endorsements,
        environment: None,
        element_list: None,
        authority: Some(quad.authorities@),
        profile,
    }
}

/// The relation that a trust-anchor quad stands for: one condition, one
/// addition.
pub open spec fn ev_relation<'a>(
    quad: TrustAnchorsQuad<'a>,
    profile: Option<ProfileTypeChoice<'a>>,
) -> EvRelationView<'a> {
    EvRelationView {
        condition: seq![ak_condition(quad)],
        addition: seq![ak_addition(quad, profile)],
    }
}

/// The relations that a list of trust-anchor quads stands for: one for each
/// quad, in the order of the quads.
pub open spec fn ev_relations<'a>(
    quads: Seq<TrustAnchorsQuad<'a>>,
    profile: Option<ProfileTypeChoice<'a>>,
) -> Seq<EvRelationView<'a>> {
    Seq::new(quads.len(), |i: int| ev_relation(quads[i], profile))
}

/// A builder that holds the document's profile, where it names one.
fn builder_with_profile<'a, 'b>(profile: &Option<ProfileTypeChoice<'a>>) -> (builder: EctBuilder<'b>)
    ensures
        builder == (EctBuilder {
            cm_type: None,
            environment: None,
            element_list: None,
            authority: None,
            profile: *profile,
        }),
{
    match profile {
        Some(p) => EctBuilder::new().profile(own_profile(p)),
        None => EctBuilder::new(),
    }
}

/// Translates one reference-value quad. No quad is refused: the records are
/// built with their kind set, which is all their builder asks for. The
/// claims come out as `to_fully_owned` copies them, see
/// [`crate::values::owned_values`].
pub fn translate_rv_quad<'a, 'b>(
    quad: &ReferenceValuesQuad<'a>,
    profile: &Option<ProfileTypeChoice<'a>>,
) -> (outcome: Result<RvRelation<'b>, Error>)
    ensures
        outcome matches Ok(relation) && {
            &&& relation@ == rv_relation(*quad, *profile)
            &&& relation@.condition.cm_type == CmType::ReferenceValues
            &&& relation@.condition.environment == Some(quad.triple.ref_env)
            &&& relation@.condition.elements() == owned_elements(quad.triple.ref_claims@)
            &&& relation@.condition.elements().len() == quad.triple.ref_claims@.len()
            &&& relation@.addition.cm_type == CmType::ReferenceValues
            &&& relation@.addition.environment == Some(quad.triple.ref_env)
            &&& relation@.addition.authorities() == quad.authorities@
            &&& relation@.addition.profile == *profile
        },
{
    let built = EctBuilder::new().cm_type(CmType::ReferenceValues).environment(
        own_environment(&quad.triple.ref_env),
    ).element_list(own_elements(&quad.triple.ref_claims)).build();
    let condition: Ect<'b> = match built {
        Ok(ect) => ect,
        Err(e) => {
            return Err(e);
        },
    };
    let built = builder_with_profile(profile).cm_type(CmType::ReferenceValues).environment(
        own_environment(&quad.triple.ref_env),
    ).authority(own_crypto_keys(&quad.authorities)).build();
    let addition: Ect<'b> = match built {
        Ok(ect) => ect,
        Err(e) => {
            return Err(e);
        },
    };
    Ok(RvRelation { condition, addition })
}

/// Wraps each key of a trust-anchor quad as an attestation key and makes a
/// claim of it, filed under the quad's measurement key.
pub fn attest_key_claims<'a, 'b>(quad: &TrustAnchorsQuad<'a>) -> (claims: Vec<ElementMap<'b>>)
    ensures
        claims@ == ak_claims(*quad),
        claims@.len() == quad.triple.key_list@.len(),
        forall|i: int|
            0 <= i < claims@.len() ==> (#[trigger] claims@[i]).mval.typed_key_at(
                INTERP_KEYS_EXT_ID,
            ) == Some(
                TypedCryptoKey { key: quad.triple.key_list@[i], key_type: KeyType::AttestKey },
            ),
{
    let mut claims: Vec<ElementMap<'b>> = Vec::new();
    let mut i: usize = 0;
    while i < quad.triple.key_list.len()
        invariant
            i <= quad.triple.key_list.len(),
            claims@ == ak_claims(*quad).take(i as int),
        decreases quad.triple.key_list.len() - i,
    {
        let mkey = match &quad.triple.conditions {
            Some(conditions) => own_measured_element_opt(&conditions.mkey),
            None => None,
        };
        let typed = TypedCryptoKey {
            key: own_crypto_key(&quad.triple.key_list[i]),
            key_type: KeyType::AttestKey,
        };
        claims.push(ElementMap { mkey, mval: MeasurementValue::from_typed_key(typed) });
        i = i + 1;
    }
    claims
}

/// Translates one trust-anchor quad. No quad is refused: the records are
/// built with their kind set, which is all their builder asks for.
pub fn translate_ak_quad<'a, 'b>(
    quad: &TrustAnchorsQuad<'a>,
    profile: &Option<ProfileTypeChoice<'a>>,
) -> (outcome: Result<EvRelation<'b>, Error>)
    ensures
        outcome matches Ok(relation) && {
            &&& relation@ == ev_relation(*quad, *profile)
            &&& relation@.condition.len() == 1
            &&& relation@.addition.len() == 1
            &&& relation@.condition[0].elements().len() == quad.triple.key_list@.len()
            &&& forall|i: int|
                0 <= i < quad.triple.key_list@.len() ==> (
                #[trigger] relation@.condition[0].elements()[i]).mval.typed_key_at(
                    INTERP_KEYS_EXT_ID,
                ) == Some(
                    TypedCryptoKey { key: quad.triple.key_list@[i], key_type: KeyType::AttestKey },
                )
        },
{
    let base = match &quad.triple.conditions {
        Some(conditions) => match &conditions.authorized_by {
            Some(list) => EctBuilder::new().authority(own_crypto_keys(list)),
            None => EctBuilder::new(),
        },
        None => EctBuilder::new(),
    };
    let built = base.cm_type(CmType::Endorsements).environment(
        own_environment(&quad.triple.environment),
    ).element_list(attest_key_claims(quad)).build();
    let condition: Ect<'b> = match built {
        Ok(ect) => ect,
        Err(e) => {
            return Err(e);
        },
    };
    let built = builder_with_profile(profile).cm_type(CmType::Endorsements).authority(
        own_crypto_keys(&quad.authorities),
    ).build();
    let addition: Ect<'b> = match built {
        Ok(ect) => ect,
        Err(e) => {
            return Err(e);
        },
    };
    let mut conditions: Vec<Ect<'b>> = Vec::new();
    conditions.push(condition);
    let mut additions: Vec<Ect<'b>> = Vec::new();
    additions.push(addition);
    let relation = EvRelation { condition: conditions, addition: additions };
    proof {
        assert(relation@.condition =~= seq![ak_condition(*quad)]);
        assert(relation@.addition =~= seq![ak_addition(*quad, *profile)]);
    }
    Ok(relation)
}

/// Translates the quads of a reference-value result set, in order.
pub fn translate_rv_quads<'a, 'b>(
    quads: &Vec<ReferenceValuesQuad<'a>>,
    profile: &Option<ProfileTypeChoice<'a>>,
) -> (outcome: Result<Vec<RvRelation<'b>>, Error>)
    ensures
        outcome matches Ok(relations) && {
            &&& views(relations@) == rv_relations(quads@, *profile)
            &&& relations@.len() == quads@.len()
        },
{
    let mut relations: Vec<RvRelation<'b>> = Vec::new();
    let mut i: usize = 0;
    while i < quads.len()
        invariant
            i <= quads.len(),
            relations@.len() == i,
            views(relations@) == rv_relations(quads@, *profile).take(i as int),
        decreases quads.len() - i,
    {
        let relation = match translate_rv_quad(&quads[i], profile) {
            Ok(relation) => relation,
            Err(e) => {
                return Err(e);
            },
        };
        proof {
            lemma_views_grow(relations@, relation, rv_relations(quads@, *profile), i as int);
        }
        relations.push(relation);
        i = i + 1;
    }
    assert(rv_relations(quads@, *profile).take(i as int) =~= rv_relations(quads@, *profile));
    Ok(relations)
}

/// Translates the quads of a trust-anchor result set, in order.
pub fn translate_ak_quads<'a, 'b>(
    quads: &Vec<TrustAnchorsQuad<'a>>,
    profile: &Option<ProfileTypeChoice<'a>>,
) -> (outcome: Result<Vec<EvRelation<'b>>, Error>)
    ensures
        outcome matches Ok(relations) && {
            &&& views(relations@) == ev_relations(quads@, *profile)
            &&& relations@.len() == quads@.len()
        },
{
    let mut relations: Vec<EvRelation<'b>> = Vec::new();
    let mut i: usize = 0;
    while i < quads.len()
        invariant
            i <= quads.len(),
            relations@.len() == i,
            views(relations@) == ev_relations(quads@, *profile).take(i as int),
        decreases quads.len() - i,
    {
        let relation = match translate_ak_quad(&quads[i], profile) {
            Ok(relation) => relation,
            Err(e) => {
                return Err(e);
            },
        };
        proof {
            lemma_views_grow(relations@, relation, ev_relations(quads@, *profile), i as int);
        }
        relations.push(relation);
        i = i + 1;
    }
    assert(ev_relations(quads@, *profile).take(i as int) =~= ev_relations(quads@, *profile));
    Ok(relations)
}

} // verus!

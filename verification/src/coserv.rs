//! A CoSERV document, as far as the translation reads it.
//!
//! A document names a profile and may carry results. The results hold at
//! most one result set. A result set that the translation reads is a list of
//! quads of one kind: each quad a triple and the authorities that vouch for
//! it.

use vstd::prelude::*;
use corim_rs::{CryptoKeyTypeChoice, EnvironmentMap, MeasuredElementTypeChoice, ProfileTypeChoice};
use crate::ect::ElementMap;

verus! {

/// Reference values: an environment and the claims that are accepted of it.
#[derive(Debug, PartialEq, Eq)]
pub struct ReferenceTriple<'a> {
    pub ref_env: EnvironmentMap<'a>,
    pub ref_claims: Vec<ElementMap<'a>>,
}

/// A reference-value triple and its authorities.
#[derive(Debug, PartialEq, Eq)]
pub struct ReferenceValuesQuad<'a> {
    pub triple: ReferenceTriple<'a>,
    pub authorities: Vec<CryptoKeyTypeChoice<'a>>,
}

/// The reference-value result set.
#[derive(Debug, PartialEq, Eq)]
pub struct ReferenceValuesResult<'a> {
    pub rv_quads: Vec<ReferenceValuesQuad<'a>>,
}

/// What narrows the keys of an attestation-key triple: the measurement key
/// they are filed under, and who may have authorized them.
#[derive(Debug, PartialEq, Eq)]
pub struct KeyConditions<'a> {
    pub mkey: Option<MeasuredElementTypeChoice<'a>>,
    pub authorized_by: Option<Vec<CryptoKeyTypeChoice<'a>>>,
}

/// Attestation keys: an environment and the keys that it signs evidence with.
#[derive(Debug, PartialEq, Eq)]
pub struct AttestKeyTriple<'a> {
    pub environment: EnvironmentMap<'a>,
    pub key_list: Vec<CryptoKeyTypeChoice<'a>>,
    pub conditions: Option<KeyConditions<'a>>,
}

/// An attestation-key triple and its authorities.
#[derive(Debug, PartialEq, Eq)]
pub struct TrustAnchorsQuad<'a> {
    pub triple: AttestKeyTriple<'a>,
    pub authorities: Vec<CryptoKeyTypeChoice<'a>>,
}

/// The trust-anchor result set.
#[derive(Debug, PartialEq, Eq)]
pub struct TrustAnchorsResult<'a> {
    pub ak_quads: Vec<TrustAnchorsQuad<'a>>,
}

/// A result set.
#[derive(Debug, PartialEq, Eq)]
pub enum ResultSetTypeChoice<'a> {
    ReferenceValues(ReferenceValuesResult<'a>),
    TrustAnchors(TrustAnchorsResult<'a>),
    /// A result set of any other kind. The translation reads nothing of it.
    Other,
}

/// The results section of a document.
#[derive(Debug, PartialEq, Eq)]
pub struct ResultSet<'a> {
    pub result_set: Option<ResultSetTypeChoice<'a>>,
}

/// A CoSERV document.
#[derive(Debug, PartialEq, Eq)]
pub struct Coserv<'a> {
    pub profile: ProfileTypeChoice<'a>,
    pub results: Option<ResultSet<'a>>,
}

impl<'a> ResultSetTypeChoice<'a> {
    /// The reference-value quads of the set: none unless it is of that kind.
    pub open spec fn rv_quads(self) -> Seq<ReferenceValuesQuad<'a>> {
        match self {
            ResultSetTypeChoice::ReferenceValues(rv) => rv.rv_quads@,
            _ => Seq::empty(),
        }
    }

    /// The trust-anchor quads of the set: none unless it is of that kind.
    pub open spec fn ak_quads(self) -> Seq<TrustAnchorsQuad<'a>> {
        match self {
            ResultSetTypeChoice::TrustAnchors(ta) => ta.ak_quads@,
            _ => Seq::empty(),
        }
    }
}

} // verus!

//! Evaluation condition and addition records (ECTs) and their parts.
//!
//! An ECT says of which kind a statement is, which environment it is about,
//! which measurement claims it makes, who vouches for it and under which
//! profile it is to be read. All but the kind may be left unset. Its [`View`]
//! holds the same with the two lists as sequences; contracts speak of that.

use vstd::prelude::*;
use corim_rs::{
    CryptoKeyTypeChoice, EnvironmentMap, MeasuredElementTypeChoice, MeasurementValuesMap,
    ProfileTypeChoice,
};
use crate::result::Error;
use crate::values::{
    clone_crypto_keys, own_crypto_key, own_measured_element_opt, own_measurement_values,
    owned_values,
};

verus! {

/// The identifier under which a typed key is attached to a measurement value.
pub const INTERP_KEYS_EXT_ID: i128 = -1;

/// The kind of statement an ECT makes.
#[derive(Clone, Copy, Debug, PartialEq, Eq, Structural)]
pub enum CmType {
    ReferenceValues,
    Endorsements,
}

/// The role a key plays.
#[derive(Clone, Copy, Debug, PartialEq, Eq, Structural)]
pub enum KeyType {
    /// The key signs attestation evidence.
    AttestKey,
    /// The key identifies a device.
    IdentityKey,
}

/// A key together with its role.
#[derive(Debug, PartialEq, Eq)]
pub struct TypedCryptoKey<'a> {
    pub key: CryptoKeyTypeChoice<'a>,
    pub key_type: KeyType,
}

/// A typed key under the identifier it is attached with.
#[derive(Debug, PartialEq, Eq)]
pub struct Extension<'a> {
    pub id: i128,
    pub key: TypedCryptoKey<'a>,
}

/// The value half of a measurement claim: the values a document stated, a
/// typed extension, or both.
#[derive(Debug, PartialEq, Eq)]
pub struct MeasurementValue<'a> {
    pub values: Option<MeasurementValuesMap<'a>>,
    pub extension: Option<Extension<'a>>,
}

/// A measurement claim: an optional key and the value measured under it.
#[derive(Debug, PartialEq, Eq)]
pub struct ElementMap<'a> {
    pub mkey: Option<MeasuredElementTypeChoice<'a>>,
    pub mval: MeasurementValue<'a>,
}

/// An evaluation condition or addition record.
#[derive(Debug, PartialEq, Eq)]
pub struct Ect<'a> {
    pub cm_type: CmType,
    pub environment: Option<EnvironmentMap<'a>>,
    pub element_list: Option<Vec<ElementMap<'a>>>,
    pub authority: Option<Vec<CryptoKeyTypeChoice<'a>>>,
    pub profile: Option<ProfileTypeChoice<'a>>,
}

/// What an [`Ect`] holds, with its lists as sequences.
#[verifier::ext_equal]
pub struct EctView<'a> {
    pub cm_type: CmType,
    pub environment: Option<EnvironmentMap<'a>>,
    pub element_list: Option<Seq<ElementMap<'a>>>,
    pub authority: Option<Seq<CryptoKeyTypeChoice<'a>>>,
    pub profile: Option<ProfileTypeChoice<'a>>,
}

/// The fields of an ECT as they are set one by one; [`EctBuilder::build`]
/// checks them and makes the record.
///
/// This library asks one thing of a record: that it says of which kind it
/// is. Every other field may stay unset.
pub struct EctBuilder<'a> {
    pub cm_type: Option<CmType>,
    pub environment: Option<EnvironmentMap<'a>>,
    pub element_list: Option<Vec<ElementMap<'a>>>,
    pub authority: Option<Vec<CryptoKeyTypeChoice<'a>>>,
    pub profile: Option<ProfileTypeChoice<'a>>,
}

/// A list that may be unset, as the sequence of its items.
pub open spec fn list_view<T>(list: Option<Vec<T>>) -> Option<Seq<T>> {
    match list {
        Some(items) => Some(items@),
        None => None,
    }
}

impl<'a> Clone for TypedCryptoKey<'a> {
    fn clone(&self) -> (copy: Self)
        ensures
            copy == *self,
    {
        TypedCryptoKey { key: self.key.clone(), key_type: self.key_type }
    }
}

impl<'a> TypedCryptoKey<'a> {
    /// A copy that borrows nothing.
    pub fn to_fully_owned<'b>(&self) -> (copy: TypedCryptoKey<'b>)
        ensures
            copy == *self,
    {
        TypedCryptoKey { key: own_crypto_key(&self.key), key_type: self.key_type }
    }
}

impl<'a> Clone for Extension<'a> {
    fn clone(&self) -> (copy: Self)
        ensures
            copy == *self,
    {
        Extension { id: self.id, key: self.key.clone() }
    }
}

impl<'a> Extension<'a> {
    /// A copy that borrows nothing.
    pub fn to_fully_owned<'b>(&self) -> (copy: Extension<'b>)
        ensures
            copy == *self,
    {
        Extension { id: self.id, key: self.key.to_fully_owned() }
    }
}

impl<'a> Clone for MeasurementValue<'a> {
    fn clone(&self) -> (copy: Self)
        ensures
            copy == *self,
    {
        let values = match &self.values {
            Some(v) => Some(v.clone()),
            None => None,
        };
        let extension = match &self.extension {
            Some(e) => Some(e.clone()),
            None => None,
        };
        MeasurementValue { values, extension }
    }
}

impl<'a> MeasurementValue<'a> {
    /// The typed key attached under `id`, if there is one.
    pub open spec fn typed_key_at(self, id: i128) -> Option<TypedCryptoKey<'a>> {
        match self.extension {
            Some(ext) => if ext.id == id {
                Some(ext.key)
            } else {
                None
            },
            None => None,
        }
    }

    /// The value as a copy that borrows nothing holds it: the stated values
    /// as [`owned_values`] gives them, the extension as it is.
    pub open spec fn owned(self) -> MeasurementValue<'a> {
        MeasurementValue {
            values: match self.values {
                Some(values) => Some(owned_values(values)),
                None => None,
            },
            extension: self.extension,
        }
    }

    /// The value that consists of the values a document stated.
    pub fn from_values(values: MeasurementValuesMap<'a>) -> (mval: MeasurementValue<'a>)
        ensures
            mval == (MeasurementValue { values: Some(values), extension: None }),
    {
        MeasurementValue { values: Some(values), extension: None }
    }

    /// The value that consists of one typed key, attached under
    /// [`INTERP_KEYS_EXT_ID`].
    pub fn from_typed_key(key: TypedCryptoKey<'a>) -> (mval: MeasurementValue<'a>)
        ensures
            mval == (MeasurementValue {
                values: None,
                extension: Some(Extension { id: INTERP_KEYS_EXT_ID, key }),
            }),
            mval.typed_key_at(INTERP_KEYS_EXT_ID) == Some(key),
    {
        MeasurementValue { values: None, extension: Some(Extension { id: INTERP_KEYS_EXT_ID, key }) }
    }

    /// Looks up the typed key attached under `id`.
    pub fn typed_key(&self, id: i128) -> (found: Option<&TypedCryptoKey<'a>>)
        ensures
            match found {
                Some(key) => self.typed_key_at(id) == Some(*key),
                None => self.typed_key_at(id) is None,
            },
    {
        match &self.extension {
            Some(ext) => if ext.id == id {
                Some(&ext.key)
            } else {
                None
            },
            None => None,
        }
    }

    /// A copy that borrows nothing.
    pub fn to_fully_owned<'b>(&self) -> (copy: MeasurementValue<'b>)
        ensures
            copy == self.owned(),
            copy.extension == self.extension,
            copy.values is Some <==> self.values is Some,
    {
        let values = match &self.values {
            Some(v) => Some(own_measurement_values(v)),
            None => None,
        };
        let extension = match &self.extension {
            Some(e) => Some(e.to_fully_owned()),
            None => None,
        };
        MeasurementValue { values, extension }
    }
}

impl<'a> Clone for ElementMap<'a> {
    fn clone(&self) -> (copy: Self)
        ensures
            copy == *self,
    {
        let mkey = match &self.mkey {
            Some(k) => Some(k.clone()),
            None => None,
        };
        ElementMap { mkey, mval: self.mval.clone() }
    }
}

impl<'a> ElementMap<'a> {
    /// The claim as a copy that borrows nothing holds it: the key as it is,
    /// the value as [`MeasurementValue::owned`] gives it.
    pub open spec fn owned(self) -> ElementMap<'a> {
        ElementMap { mkey: self.mkey, mval: self.mval.owned() }
    }

    /// A copy that borrows nothing.
    pub fn to_fully_owned<'b>(&self) -> (copy: ElementMap<'b>)
        ensures
            copy == self.owned(),
    {
        ElementMap { mkey: own_measured_element_opt(&self.mkey), mval: self.mval.to_fully_owned() }
    }
}

/// A list of claims as a copy that borrows nothing holds it: each claim as
/// [`ElementMap::owned`] gives it, in order.
pub open spec fn owned_elements<'a>(elements: Seq<ElementMap<'a>>) -> Seq<ElementMap<'a>> {
    Seq::new(elements.len(), |i: int| elements[i].owned())
}

/// Copies a list of claims, one `to_fully_owned` each, in order.
pub fn own_elements<'a, 'b>(elements: &Vec<ElementMap<'a>>) -> (copy: Vec<ElementMap<'b>>)
    ensures
        copy@ == owned_elements(elements@),
{
    let mut copy: Vec<ElementMap<'b>> = Vec::new();
    let mut i: usize = 0;
    while i < elements.len()
        invariant
            i <= elements.len(),
            copy@ == owned_elements(elements@).take(i as int),
        decreases elements.len() - i,
    {
        copy.push(elements[i].to_fully_owned());
        i = i + 1;
    }
    copy
}

/// Clones a list of claims, in order.
pub fn clone_elements<'a>(elements: &Vec<ElementMap<'a>>) -> (copy: Vec<ElementMap<'a>>)
    ensures
        copy@ == elements@,
{
    let copy = elements.clone();
    assert(copy@ =~= elements@);
    copy
}

impl<'a> View for Ect<'a> {
    type V = EctView<'a>;

    open spec fn view(&self) -> EctView<'a> {
        EctView {
            cm_type: self.cm_type,
            environment: self.environment,
            element_list: list_view(self.element_list),
            authority: list_view(self.authority),
            profile: self.profile,
        }
    }
}

impl<'a> EctView<'a> {
    /// The claims of the record: none where the list is unset.
    pub open spec fn elements(self) -> Seq<ElementMap<'a>> {
        match self.element_list {
            Some(list) => list,
            None => Seq::empty(),
        }
    }

    /// The authorities of the record: none where the list is unset.
    pub open spec fn authorities(self) -> Seq<CryptoKeyTypeChoice<'a>> {
        match self.authority {
            Some(list) => list,
            None => Seq::empty(),
        }
    }
}

impl<'a> Clone for Ect<'a> {
    fn clone(&self) -> (copy: Self)
        ensures
            copy@ == self@,
    {
        let environment = match &self.environment {
            Some(env) => Some(env.clone()),
            None => None,
        };
        let element_list = match &self.element_list {
            Some(list) => Some(clone_elements(list)),
            None => None,
        };
        let authority = match &self.authority {
            Some(list) => Some(clone_crypto_keys(list)),
            None => None,
        };
        let profile = match &self.profile {
            Some(p) => Some(p.clone()),
            None => None,
        };
        Ect { cm_type: self.cm_type, environment, element_list, authority, profile }
    }
}

impl<'a> EctBuilder<'a> {
    /// The record that these fields make: none while the kind is not set;
    /// else the fields as they are.
    pub open spec fn built(self) -> Option<EctView<'a>> {
        match self.cm_type {
            None => None,
            Some(kind) => Some(
                EctView {
                    cm_type: kind,
                    environment: self.environment,
                    element_list: list_view(self.element_list),
                    authority: list_view(self.authority),
                    profile: self.profile,
                },
            ),
        }
    }

    /// A builder with no field set.
    pub fn new() -> (builder: EctBuilder<'a>)
        ensures
            builder == (EctBuilder {
                cm_type: None,
                environment: None,
                element_list: None,
                authority: None,
                profile: None,
            }),
    {
        EctBuilder {
            cm_type: None,
            environment: None,
            element_list: None,
            authority: None,
            profile: None,
        }
    }

    /// Sets the kind.
    pub fn cm_type(self, value: CmType) -> (builder: EctBuilder<'a>)
        ensures
            builder == (EctBuilder { cm_type: Some(value), ..self }),
    {
        EctBuilder { cm_type: Some(value), ..self }
    }

    /// Sets the environment.
    pub fn environment(self, value: EnvironmentMap<'a>) -> (builder: EctBuilder<'a>)
        ensures
            builder == (EctBuilder { environment: Some(value), ..self }),
    {
        EctBuilder { environment: Some(value), ..self }
    }

    /// Sets the measurement claims.
    pub fn element_list(self, value: Vec<ElementMap<'a>>) -> (builder: EctBuilder<'a>)
        ensures
            builder == (EctBuilder { element_list: Some(value), ..self }),
    {
        EctBuilder { element_list: Some(value), ..self }
    }

    /// Sets the authorities.
    pub fn authority(self, value: Vec<CryptoKeyTypeChoice<'a>>) -> (builder: EctBuilder<'a>)
        ensures
            builder == (EctBuilder { authority: Some(value), ..self }),
    {
        EctBuilder { authority: Some(value), ..self }
    }

    /// Sets the profile.
    pub fn profile(self, value: ProfileTypeChoice<'a>) -> (builder: EctBuilder<'a>)
        ensures
            builder == (EctBuilder { profile: Some(value), ..self }),
    {
        EctBuilder { profile: Some(value), ..self }
    }

    /// Makes the record. Fails with [`Error::RecordBuildError`] exactly when
    /// the kind was never set.
    pub fn build(self) -> (outcome: Result<Ect<'a>, Error>)
        ensures
            match outcome {
                Ok(ect) => self.built() == Some(ect@),
                Err(e) => self.built() is None && e == Error::RecordBuildError,
            },
    {
        match self.cm_type {
            Some(cm_type) => Ok(
                Ect {
                    cm_type,
                    environment: self.environment,
                    element_list: self.element_list,
                    authority: self.authority,
                    profile: self.profile,
                },
            ),
            None => Err(Error::RecordBuildError),
        }
    }
}

} // verus!

//! The CoRIM values that pass through the translation untouched.
//!
//! Environments, measurement keys and values, keys and profile identifiers
//! are `corim_rs` types. Nothing here looks inside them: they are compared
//! for equality and copied, and that is all the relations need.
//!
//! There are two ways to copy one. `clone` keeps the value as it is.
//! `to_fully_owned` makes a value that borrows nothing; it keeps the value
//! too, but for measurement values, of which it may rewrite a part.

use vstd::prelude::*;
use corim_rs::{
    ConciseRimTypeChoice, CryptoKeyTypeChoice, EnvironmentMap, MeasuredElementTypeChoice,
    MeasurementValuesMap, ProfileTypeChoice,
};

verus! {

#[verifier::external_type_specification]
#[verifier::external_body]
pub struct ExEnvironmentMap<'a>(EnvironmentMap<'a>);

#[verifier::external_type_specification]
#[verifier::external_body]
pub struct ExMeasuredElementTypeChoice<'a>(MeasuredElementTypeChoice<'a>);

#[verifier::external_type_specification]
#[verifier::external_body]
pub struct ExMeasurementValuesMap<'a>(MeasurementValuesMap<'a>);

#[verifier::external_type_specification]
#[verifier::external_body]
pub struct ExCryptoKeyTypeChoice<'a>(CryptoKeyTypeChoice<'a>);

#[verifier::external_type_specification]
#[verifier::external_body]
pub struct ExProfileTypeChoice<'a>(ProfileTypeChoice<'a>);

#[verifier::external_type_specification]
#[verifier::external_body]
pub struct ExConciseRimTypeChoice<'a>(ConciseRimTypeChoice<'a>);

/// What `MeasurementValuesMap::to_fully_owned` makes of a map.
///
/// It is the map itself in all but one respect: a version scheme of private
/// use that is given as an integer comes back given as the text of that
/// integer. So the copy is named, and nothing is said of it but that it
/// depends on the map alone.
pub uninterp spec fn owned_values(mval: MeasurementValuesMap<'static>) -> MeasurementValuesMap<
    'static,
>;

/// The derived `clone` of `EnvironmentMap`. Trusted: the clone is the value
/// it was made from.
pub assume_specification<'a>[ <EnvironmentMap<'a> as Clone>::clone ](
    env: &EnvironmentMap<'a>,
) -> (copy: EnvironmentMap<'a>)
    ensures
        copy == *env,
;

/// The derived `clone` of `MeasuredElementTypeChoice`. Trusted: the clone is
/// the value it was made from.
pub assume_specification<'a>[ <MeasuredElementTypeChoice<'a> as Clone>::clone ](
    mkey: &MeasuredElementTypeChoice<'a>,
) -> (copy: MeasuredElementTypeChoice<'a>)
    ensures
        copy == *mkey,
;

/// The derived `clone` of `MeasurementValuesMap`. Trusted: the clone is the
/// value it was made from.
pub assume_specification<'a>[ <MeasurementValuesMap<'a> as Clone>::clone ](
    mval: &MeasurementValuesMap<'a>,
) -> (copy: MeasurementValuesMap<'a>)
    ensures
        copy == *mval,
;

/// The derived `clone` of `CryptoKeyTypeChoice`. Trusted: the clone is the
/// value it was made from.
pub assume_specification<'a>[ <CryptoKeyTypeChoice<'a> as Clone>::clone ](
    key: &CryptoKeyTypeChoice<'a>,
) -> (copy: CryptoKeyTypeChoice<'a>)
    ensures
        copy == *key,
;

/// The derived `clone` of `ProfileTypeChoice`. Trusted: the clone is the
/// value it was made from.
pub assume_specification<'a>[ <ProfileTypeChoice<'a> as Clone>::clone ](
    profile: &ProfileTypeChoice<'a>,
) -> (copy: ProfileTypeChoice<'a>)
    ensures
        copy == *profile,
;

/// `EnvironmentMap::to_fully_owned`: rebuilds the class, instance and group
/// fields with every borrowed string or byte buffer made owned. Trusted: the
/// copy is the value it was made from.
#[verifier::external_body]
pub(crate) fn own_environment<'a, 'b>(env: &EnvironmentMap<'a>) -> (copy: EnvironmentMap<'b>)
    ensures
        copy == *env,
{
    env.to_fully_owned()
}

/// `MeasuredElementTypeChoice::to_fully_owned`: rebuilds the same variant
/// with an owned payload. Trusted: the copy is the value it was made from.
#[verifier::external_body]
pub(crate) fn own_measured_element<'a, 'b>(mkey: &MeasuredElementTypeChoice<'a>) -> (copy:
    MeasuredElementTypeChoice<'b>)
    ensures
        copy == *mkey,
{
    mkey.to_fully_owned()
}

/// `MeasurementValuesMap::to_fully_owned`: rebuilds every field of the map
/// with owned contents, and in doing so may rewrite a version scheme of
/// private use. Trusted: the copy is [`owned_values`] of the map.
#[verifier::external_body]
pub(crate) fn own_measurement_values<'a, 'b>(mval: &MeasurementValuesMap<'a>) -> (copy:
    MeasurementValuesMap<'b>)
    ensures
        copy == owned_values(*mval),
{
    mval.to_fully_owned()
}

/// `CryptoKeyTypeChoice::to_fully_owned`: rebuilds the same variant with an
/// owned payload. Trusted: the copy is the value it was made from.
#[verifier::external_body]
pub(crate) fn own_crypto_key<'a, 'b>(key: &CryptoKeyTypeChoice<'a>) -> (copy: CryptoKeyTypeChoice<'b>)
    ensures
        copy == *key,
{
    key.to_fully_owned()
}

/// `ProfileTypeChoice::to_fully_owned`: rebuilds the same variant with an
/// owned payload. Trusted: the copy is the value it was made from.
#[verifier::external_body]
pub(crate) fn own_profile<'a, 'b>(profile: &ProfileTypeChoice<'a>) -> (copy: ProfileTypeChoice<'b>)
    ensures
        copy == *profile,
{
    profile.to_fully_owned()
}

/// Copies a list of keys, one `to_fully_owned` each, in order.
pub fn own_crypto_keys<'a, 'b>(keys: &Vec<CryptoKeyTypeChoice<'a>>) -> (copy: Vec<
    CryptoKeyTypeChoice<'b>,
>)
    ensures
        copy@ == keys@,
{
    let mut copy: Vec<CryptoKeyTypeChoice<'b>> = Vec::new();
    let mut i: usize = 0;
    while i < keys.len()
        invariant
            i <= keys.len(),
            copy@ == keys@.take(i as int),
        decreases keys.len() - i,
    {
        copy.push(own_crypto_key(&keys[i]));
        i = i + 1;
    }
    copy
}

/// Copies a measurement key that may be absent.
pub fn own_measured_element_opt<'a, 'b>(mkey: &Option<MeasuredElementTypeChoice<'a>>) -> (copy:
    Option<MeasuredElementTypeChoice<'b>>)
    ensures
        copy == *mkey,
{
    match mkey {
        Some(k) => Some(own_measured_element(k)),
        None => None,
    }
}

/// Clones a list of keys, in order.
pub fn clone_crypto_keys<'a>(keys: &Vec<CryptoKeyTypeChoice<'a>>) -> (copy: Vec<
    CryptoKeyTypeChoice<'a>,
>)
    ensures
        copy@ == keys@,
{
    let copy = keys.clone();
    assert(copy@ =~= keys@);
    copy
}

} // verus!

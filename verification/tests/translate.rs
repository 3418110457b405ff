use corim_rs::{
    ClassMap, CryptoKeyTypeChoice, EnvironmentMap, Integer, Label, MeasuredElementTypeChoice,
    MeasurementValuesMap, PkixBase64KeyType, ProfileTypeChoice, Uri, VersionMap, VersionScheme,
};
use coserv_store::coserv::{
    AttestKeyTriple, Coserv, KeyConditions, ReferenceTriple, ReferenceValuesQuad, ReferenceValuesResult, ResultSet,
    ResultSetTypeChoice, TrustAnchorsQuad, TrustAnchorsResult,
};
use coserv_store::ect::{
    CmType, ElementMap, KeyType, MeasurementValue, TypedCryptoKey, INTERP_KEYS_EXT_ID,
};
use coserv_store::result::Error;
use coserv_store::store::{parse_coserv, CoservParseResult};
use coserv_store::translate::{translate_ak_quad, translate_rv_quad};

fn env(model: &'static str) -> EnvironmentMap<'static> {
    EnvironmentMap {
        class: Some(ClassMap {
            class_id: None,
            vendor: None,
            model: Some(model.into()),
            layer: None,
            index: None,
        }),
        instance: None,
        group: None,
    }
}

fn key(text: &'static str) -> CryptoKeyTypeChoice<'static> {
    CryptoKeyTypeChoice::PkixBase64Key(PkixBase64KeyType::new(text.into()))
}

fn mkey(text: &'static str) -> MeasuredElementTypeChoice<'static> {
    MeasuredElementTypeChoice::Tstr(text.into())
}

fn version(text: &'static str) -> MeasurementValuesMap<'static> {
    MeasurementValuesMap {
        version: Some(VersionMap { version: text.into(), version_scheme: None }),
        ..Default::default()
    }
}

fn profile(uri: &'static str) -> ProfileTypeChoice<'static> {
    ProfileTypeChoice::Uri(Uri::from(uri))
}

fn claim(k: &'static str, v: &'static str) -> ElementMap<'static> {
    ElementMap { mkey: Some(mkey(k)), mval: MeasurementValue::from_values(version(v)) }
}

fn rv_quad(
    model: &'static str,
    claims: Vec<ElementMap<'static>>,
    authorities: Vec<CryptoKeyTypeChoice<'static>>,
) -> ReferenceValuesQuad<'static> {
    ReferenceValuesQuad { triple: ReferenceTriple { ref_env: env(model), ref_claims: claims }, authorities }
}

fn ak_quad(
    model: &'static str,
    keys: Vec<CryptoKeyTypeChoice<'static>>,
    conditions: Option<KeyConditions<'static>>,
    authorities: Vec<CryptoKeyTypeChoice<'static>>,
) -> TrustAnchorsQuad<'static> {
    TrustAnchorsQuad {
        triple: AttestKeyTriple { environment: env(model), key_list: keys, conditions },
        authorities,
    }
}

fn document(uri: &'static str, set: Option<ResultSetTypeChoice<'static>>) -> Coserv<'static> {
    Coserv { profile: profile(uri), results: Some(ResultSet { result_set: set }) }
}

fn rv_document(uri: &'static str, quads: Vec<ReferenceValuesQuad<'static>>) -> Coserv<'static> {
    document(uri, Some(ResultSetTypeChoice::ReferenceValues(ReferenceValuesResult { rv_quads: quads })))
}

fn ak_document(uri: &'static str, quads: Vec<TrustAnchorsQuad<'static>>) -> Coserv<'static> {
    document(uri, Some(ResultSetTypeChoice::TrustAnchors(TrustAnchorsResult { ak_quads: quads })))
}

fn parsed(doc: &Coserv<'static>) -> CoservParseResult<'static> {
    match parse_coserv(doc) {
        Ok(bundle) => bundle,
        Err(e) => panic!("translation failed: {}", e.message()),
    }
}

fn failure(doc: &Coserv<'static>) -> Error {
    match parse_coserv(doc) {
        Ok(_) => panic!("translation succeeded"),
        Err(e) => e,
    }
}

#[test]
fn reference_value_example_translates_to_one_relation() {
    let doc = rv_document(
        "urn:example:p1",
        vec![rv_quad("dev-A", vec![claim("fw-version", "1.2.3")], vec![key("CA-1")])],
    );
    let bundle = parsed(&doc);

    assert_eq!(bundle.rv_list.len(), 1);
    assert!(bundle.ev_list.is_empty());
    assert!(bundle.evs_list.is_empty());

    let relation = &bundle.rv_list[0];
    assert_eq!(relation.condition.cm_type, CmType::ReferenceValues);
    assert_eq!(relation.condition.environment, Some(env("dev-A")));
    assert_eq!(relation.condition.element_list, Some(vec![claim("fw-version", "1.2.3")]));
    let elements = relation.condition.element_list.as_ref().expect("the claims are set");
    assert_eq!(elements[0].mkey, Some(mkey("fw-version")));
    assert_eq!(elements[0].mval.values, Some(version("1.2.3")));
    assert_eq!(elements[0].mval.extension, None);
    assert_eq!(relation.condition.authority, None);
    assert_eq!(relation.condition.profile, None);

    assert_eq!(relation.addition.cm_type, CmType::ReferenceValues);
    assert_eq!(relation.addition.environment, Some(env("dev-A")));
    assert_eq!(relation.addition.element_list, None);
    assert_eq!(relation.addition.authority, Some(vec![key("CA-1")]));
    assert_eq!(relation.addition.profile, Some(profile("urn:example:p1")));
}

#[test]
fn reference_value_quad_keeps_environment_claims_authorities_and_profile() {
    let quad = rv_quad(
        "dev-B",
        vec![claim("fw-version", "2.0.0"), claim("bootloader", "7")],
        vec![key("CA-1"), key("CA-2")],
    );
    let relation = translate_rv_quad(&quad, &Some(profile("urn:example:p2")))
        .ok()
        .expect("a reference-value quad is never refused");

    assert_eq!(relation.condition.environment, Some(env("dev-B")));
    assert_eq!(
        relation.condition.element_list,
        Some(vec![claim("fw-version", "2.0.0"), claim("bootloader", "7")])
    );
    assert_eq!(relation.addition.environment, Some(env("dev-B")));
    assert_eq!(relation.addition.authority, Some(vec![key("CA-1"), key("CA-2")]));
    assert_eq!(relation.addition.profile, Some(profile("urn:example:p2")));
}

#[test]
fn reference_value_quad_without_profile_claims_or_authorities() {
    let quad = rv_quad("dev-C", vec![], vec![]);
    let relation = translate_rv_quad(&quad, &None)
        .ok()
        .expect("a reference-value quad is never refused");

    assert_eq!(relation.condition.environment, Some(env("dev-C")));
    assert_eq!(relation.condition.element_list, Some(vec![]));
    assert_eq!(relation.addition.authority, Some(vec![]));
    assert_eq!(relation.addition.profile, None);
}

#[test]
fn private_use_version_scheme_given_as_integer_comes_back_as_text() {
    let with_scheme = |label: Label<'static>| ElementMap {
        mkey: Some(mkey("fw-version")),
        mval: MeasurementValue::from_values(MeasurementValuesMap {
            version: Some(VersionMap {
                version: "1.2.3".into(),
                version_scheme: Some(VersionScheme::PrivateUse(label)),
            }),
            ..Default::default()
        }),
    };
    let quad = rv_quad("dev-A", vec![with_scheme(Label::Int(Integer(-1)))], vec![key("CA-1")]);
    let relation = translate_rv_quad(&quad, &None)
        .ok()
        .expect("a reference-value quad is never refused");

    assert_eq!(
        relation.condition.element_list,
        Some(vec![with_scheme(Label::Text("-1".into()))])
    );
    assert_ne!(relation.condition.element_list, Some(vec![with_scheme(Label::Int(Integer(-1)))]));

    let again = rv_quad("dev-A", vec![with_scheme(Label::Text("-1".into()))], vec![key("CA-1")]);
    let same = translate_rv_quad(&again, &None)
        .ok()
        .expect("a reference-value quad is never refused");
    assert_eq!(same, relation);
    assert_eq!(relation.clone(), relation);
}

#[test]
fn claims_with_registered_version_scheme_or_typed_key_are_kept_as_they_are() {
    let semver = ElementMap {
        mkey: None,
        mval: MeasurementValue::from_values(MeasurementValuesMap {
            version: Some(VersionMap {
                version: "1.2.3".into(),
                version_scheme: Some(VersionScheme::Semver),
            }),
            ..Default::default()
        }),
    };
    let typed = ElementMap {
        mkey: Some(mkey("ak-slot")),
        mval: MeasurementValue::from_typed_key(TypedCryptoKey {
            key: key("AK-1"),
            key_type: KeyType::AttestKey,
        }),
    };
    let quad = rv_quad("dev-A", vec![semver.clone(), typed.clone()], vec![]);
    let relation = translate_rv_quad(&quad, &None)
        .ok()
        .expect("a reference-value quad is never refused");
    assert_eq!(relation.condition.element_list, Some(vec![semver, typed]));
}

#[test]
fn translation_of_borrowed_text_owns_it() {
    let text = String::from("dev-A");
    let relation: coserv_store::relation::RvRelation<'static> = {
        let borrowed = ReferenceValuesQuad {
            triple: ReferenceTriple {
                ref_env: EnvironmentMap {
                    class: Some(ClassMap {
                        class_id: None,
                        vendor: None,
                        model: Some(text.as_str().into()),
                        layer: None,
                        index: None,
                    }),
                    instance: None,
                    group: None,
                },
                ref_claims: vec![],
            },
            authorities: vec![],
        };
        translate_rv_quad(&borrowed, &None).ok().expect("a reference-value quad is never refused")
    };
    drop(text);
    assert_eq!(relation.condition.environment, Some(env("dev-A")));
}

#[test]
fn counts_of_reference_value_quads_are_kept() {
    let doc = rv_document(
        "urn:example:p1",
        vec![
            rv_quad("dev-A", vec![claim("a", "1")], vec![key("CA-1")]),
            rv_quad("dev-B", vec![], vec![]),
            rv_quad("dev-C", vec![claim("c", "3")], vec![key("CA-3")]),
        ],
    );
    let bundle = parsed(&doc);
    assert_eq!(bundle.rv_list.len(), 3);
    assert_eq!(bundle.ev_list.len(), 0);
    assert_eq!(bundle.evs_list.len(), 0);
    assert_eq!(bundle.rv_list[0].condition.environment, Some(env("dev-A")));
    assert_eq!(bundle.rv_list[1].condition.environment, Some(env("dev-B")));
    assert_eq!(bundle.rv_list[2].condition.environment, Some(env("dev-C")));
}

#[test]
fn counts_of_trust_anchor_quads_are_kept() {
    let doc = ak_document(
        "urn:example:p1",
        vec![
            ak_quad("dev-A", vec![key("AK-1")], None, vec![key("CA-1")]),
            ak_quad("dev-B", vec![], None, vec![]),
        ],
    );
    let bundle = parsed(&doc);
    assert_eq!(bundle.rv_list.len(), 0);
    assert_eq!(bundle.ev_list.len(), 2);
    assert_eq!(bundle.evs_list.len(), 0);
    assert_eq!(bundle.ev_list[0].condition[0].environment, Some(env("dev-A")));
    assert_eq!(bundle.ev_list[1].condition[0].environment, Some(env("dev-B")));
    assert_eq!(bundle.ev_list[1].condition[0].element_list, Some(vec![]));
}

#[test]
fn document_without_results_is_missing_results() {
    let doc = Coserv { profile: profile("urn:example:p1"), results: None };
    assert_eq!(failure(&doc), Error::MissingResults);
}

#[test]
fn results_without_result_set_are_an_empty_result_set() {
    let doc = document("urn:example:p1", None);
    assert_eq!(failure(&doc), Error::EmptyResultSet);
}

#[test]
fn result_sets_without_quads_have_no_relevant_quads() {
    assert_eq!(failure(&rv_document("urn:example:p1", vec![])), Error::NoRelevantQuads);
    assert_eq!(failure(&ak_document("urn:example:p1", vec![])), Error::NoRelevantQuads);
}

#[test]
fn result_set_of_another_kind_has_no_relevant_quads() {
    let doc = document("urn:example:p1", Some(ResultSetTypeChoice::Other));
    assert_eq!(failure(&doc), Error::NoRelevantQuads);

    let mut bundle = CoservParseResult::new();
    assert_eq!(
        bundle.update_from_coserv_result(&ResultSetTypeChoice::Other, &None),
        Err(Error::NoRelevantQuads)
    );
    assert!(bundle.rv_list.is_empty() && bundle.ev_list.is_empty() && bundle.evs_list.is_empty());
}

#[test]
fn trust_anchor_keys_become_typed_attestation_keys() {
    let conditions = KeyConditions {
        mkey: Some(mkey("ak-slot")),
        authorized_by: Some(vec![key("OWNER-1"), key("OWNER-2")]),
    };
    let quad = ak_quad("dev-A", vec![key("AK-1"), key("AK-2")], Some(conditions), vec![key("CA-1")]);
    let relation = translate_ak_quad(&quad, &Some(profile("urn:example:p1")))
        .ok()
        .expect("a trust-anchor quad is never refused");

    assert_eq!(relation.condition.len(), 1);
    assert_eq!(relation.addition.len(), 1);

    let condition = &relation.condition[0];
    assert_eq!(condition.cm_type, CmType::Endorsements);
    assert_eq!(condition.environment, Some(env("dev-A")));
    assert_eq!(condition.authority, Some(vec![key("OWNER-1"), key("OWNER-2")]));
    assert_eq!(condition.profile, None);
    let elements = condition.element_list.as_ref().expect("the claims are set");
    assert_eq!(elements.len(), 2);
    for (element, raw) in elements.iter().zip([key("AK-1"), key("AK-2")]) {
        assert_eq!(element.mkey, Some(mkey("ak-slot")));
        assert_eq!(element.mval.values, None);
        assert_eq!(
            element.mval.typed_key(INTERP_KEYS_EXT_ID),
            Some(&TypedCryptoKey { key: raw, key_type: KeyType::AttestKey })
        );
        assert_eq!(element.mval.typed_key(INTERP_KEYS_EXT_ID + 1), None);
    }

    let addition = &relation.addition[0];
    assert_eq!(addition.cm_type, CmType::Endorsements);
    assert_eq!(addition.environment, None);
    assert_eq!(addition.element_list, None);
    assert_eq!(addition.authority, Some(vec![key("CA-1")]));
    assert_eq!(addition.profile, Some(profile("urn:example:p1")));
}

#[test]
fn trust_anchor_quad_without_conditions_has_no_key_and_no_authorizers() {
    let quad = ak_quad("dev-A", vec![key("AK-1")], None, vec![]);
    let relation = translate_ak_quad(&quad, &None)
        .ok()
        .expect("a trust-anchor quad is never refused");
    let condition = &relation.condition[0];
    assert_eq!(condition.authority, None);
    let elements = condition.element_list.as_ref().expect("the claims are set");
    assert_eq!(elements.len(), 1);
    assert_eq!(elements[0].mkey, None);
    assert_eq!(
        elements[0].mval.typed_key(INTERP_KEYS_EXT_ID),
        Some(&TypedCryptoKey { key: key("AK-1"), key_type: KeyType::AttestKey })
    );
    assert_eq!(relation.addition[0].profile, None);
    assert_eq!(relation.addition[0].authority, Some(vec![]));
}

#[test]
fn trust_anchor_conditions_without_authorizers_keep_the_key() {
    let conditions = KeyConditions { mkey: Some(mkey("ak-slot")), authorized_by: None };
    let quad = ak_quad("dev-A", vec![key("AK-1")], Some(conditions), vec![key("CA-1")]);
    let relation = translate_ak_quad(&quad, &None)
        .ok()
        .expect("a trust-anchor quad is never refused");
    assert_eq!(relation.condition[0].authority, None);
    let elements = relation.condition[0].element_list.as_ref().expect("the claims are set");
    assert_eq!(elements[0].mkey, Some(mkey("ak-slot")));
}

#[test]
fn update_appends_behind_what_the_bundle_holds() {
    let mut bundle = parsed(&rv_document("urn:example:p1", vec![rv_quad("dev-A", vec![], vec![])]));
    let set = ResultSetTypeChoice::TrustAnchors(TrustAnchorsResult {
        ak_quads: vec![ak_quad("dev-B", vec![key("AK-1")], None, vec![])],
    });
    assert_eq!(bundle.update_from_coserv_result(&set, &None), Ok(()));
    assert_eq!(bundle.rv_list.len(), 1);
    assert_eq!(bundle.ev_list.len(), 1);
    assert_eq!(bundle.ev_list[0].addition[0].profile, None);

    let more = ResultSetTypeChoice::ReferenceValues(ReferenceValuesResult {
        rv_quads: vec![rv_quad("dev-C", vec![], vec![])],
    });
    assert_eq!(bundle.update_from_coserv_result(&more, &Some(profile("urn:example:p3"))), Ok(()));
    assert_eq!(bundle.rv_list.len(), 2);
    assert_eq!(bundle.rv_list[0].condition.environment, Some(env("dev-A")));
    assert_eq!(bundle.rv_list[1].condition.environment, Some(env("dev-C")));
    assert_eq!(bundle.rv_list[1].addition.profile, Some(profile("urn:example:p3")));
}

#[test]
fn update_without_relevant_quads_leaves_the_bundle_alone() {
    let mut bundle = parsed(&rv_document("urn:example:p1", vec![rv_quad("dev-A", vec![], vec![])]));
    let empty = ResultSetTypeChoice::ReferenceValues(ReferenceValuesResult { rv_quads: vec![] });
    assert_eq!(bundle.update_from_coserv_result(&empty, &None), Err(Error::NoRelevantQuads));
    assert_eq!(bundle.rv_list.len(), 1);
    assert_eq!(bundle.ev_list.len(), 0);
    assert_eq!(bundle.evs_list.len(), 0);
}

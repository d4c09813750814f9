use ear_api::models::{model_from_id, model_from_sku, model_list, ModelBase};

#[test]
fn model_base_codes_round_trip() {
    let all = [
        ModelBase::B181,
        ModelBase::B157,
        ModelBase::B155,
        ModelBase::B163,
        ModelBase::B171,
        ModelBase::B162,
        ModelBase::B164,
        ModelBase::B168,
        ModelBase::B172,
        ModelBase::B173,
        ModelBase::B174,
    ];
    for base in all {
        assert_eq!(ModelBase::from_code(base.as_str()), base);
    }
    assert_eq!(ModelBase::Unknown.as_str(), "UNKNOWN");
    assert_eq!(ModelBase::from_code("UNKNOWN"), ModelBase::Unknown);
    assert_eq!(ModelBase::from_code("b181"), ModelBase::Unknown);
    assert_eq!("B173".parse::<ModelBase>(), Ok(ModelBase::B173));
}

#[test]
fn feature_support_by_family() {
    assert!(ModelBase::B181.supports_case_led());
    assert!(!ModelBase::B155.supports_case_led());
    assert!(ModelBase::B155.supports_personalized_anc());
    assert!(ModelBase::B162.supports_enhanced_bass());
    assert!(!ModelBase::B155.supports_enhanced_bass());
    assert!(!ModelBase::B174.supports_in_ear_detection());
    assert!(ModelBase::Unknown.supports_in_ear_detection());
    assert!(!ModelBase::B181.supports_custom_eq());
    assert!(ModelBase::B172.supports_listening_modes());
    assert!(!ModelBase::B171.supports_listening_modes());
    assert!(ModelBase::B173.supports_super_mic());
    assert!(!ModelBase::B172.supports_super_mic());
}

#[test]
fn every_catalogue_id_is_found() {
    let list = model_list();
    assert_eq!(list.len(), 26);
    for info in &list {
        let found = model_from_id(info.id).expect("listed model");
        assert_eq!(found.id, info.id);
        assert_eq!(found.name, info.name);
        assert_eq!(found.base, info.base);
    }
    assert!(model_from_id("ear_4").is_none());
}

#[test]
fn skus_map_to_models() {
    let stick = model_from_sku("14").expect("ear stick sku");
    assert_eq!(stick.id, "ear_stick");
    assert_eq!(stick.base, ModelBase::B157);
    assert!(!stick.anc_capable);
    let open = model_from_sku("11200005").expect("ear open sku");
    assert_eq!(open.name, "Nothing Ear (open)");
    let ear3 = model_from_sku("21").expect("ear 3 sku");
    assert_eq!(ear3.id, "feraligatr_black");
    assert_eq!(ear3.base, ModelBase::B173);
    assert_eq!(model_from_sku("79").expect("espeon").id, "espeon_blue");
    assert!(model_from_sku("05").is_none());
    assert!(model_from_sku("").is_none());
}

use ear_api::error::EarError;
use ear_api::models::ModelBase;
use ear_api::server::{default_rfcomm_channel, descriptor_for_selector, status_code, ModelSelector};

#[test]
fn default_channel_is_one() {
    assert_eq!(default_rfcomm_channel(), 1);
}

#[test]
fn errors_map_to_statuses() {
    assert_eq!(status_code(&EarError::NoSession), 404);
    assert_eq!(status_code(&EarError::AlreadyConnected), 409);
    assert_eq!(status_code(&EarError::Detection("x".to_string())), 400);
    assert_eq!(status_code(&EarError::Unsupported("custom EQ")), 400);
    assert_eq!(status_code(&EarError::UnknownModel), 400);
    assert_eq!(status_code(&EarError::Timeout("battery")), 504);
    assert_eq!(status_code(&EarError::CrcMismatch), 500);
}

#[test]
fn selector_prefers_id_then_sku_then_base() {
    let by_id = ModelSelector {
        model_id: Some("ear_stick".to_string()),
        sku: Some("17".to_string()),
        base: Some(ModelBase::B181),
    };
    assert_eq!(descriptor_for_selector(&by_id).unwrap().base, ModelBase::B157);
    let by_sku = ModelSelector { model_id: None, sku: Some("17".to_string()), base: Some(ModelBase::B181) };
    let d = descriptor_for_selector(&by_sku).unwrap();
    assert_eq!(d.base, ModelBase::B155);
    assert_eq!(d.sku.as_deref(), Some("17"));
    let by_base = ModelSelector { model_id: None, sku: None, base: Some(ModelBase::B181) };
    let b = descriptor_for_selector(&by_base).unwrap();
    assert_eq!(b.base, ModelBase::B181);
    assert!(b.model_id.is_none());
    let nothing = ModelSelector { model_id: None, sku: None, base: None };
    assert!(matches!(descriptor_for_selector(&nothing), Err(EarError::UnknownModel)));
    let bad_id = ModelSelector { model_id: Some("x".to_string()), sku: Some("17".to_string()), base: None };
    assert!(matches!(descriptor_for_selector(&bad_id), Err(EarError::UnknownModel)));
}

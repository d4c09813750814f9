//! Decisions of the HTTP API: model selection and the status of each error.
use vstd::prelude::*;
use crate::error::EarError;
use crate::models::{model_by_id, model_by_sku, ModelBase};
use crate::service::{descriptor_for_id, descriptor_for_sku, ModelDescriptor};

verus! {

/// RFCOMM channel used when a request names none.
pub fn default_rfcomm_channel() -> (c: u8)
    ensures
        c == 1,
{
    1
}

/// The ways a request can name the model of a session.
#[derive(Debug, Clone)]
pub struct ModelSelector {
    pub model_id: Option<String>,
    pub sku: Option<String>,
    pub base: Option<ModelBase>,
}

/// The model a selector chooses: by catalogue id if it gives one, else by
/// SKU, else by family; a selector that names nothing is an unknown model.
pub fn descriptor_for_selector(selector: &ModelSelector) -> (r: Result<ModelDescriptor, EarError>)
    ensures
        match selector.model_id {
            Some(id) => match model_by_id(id@) {
                Some(info) => r matches Ok(d) && d.describes(info, None, None),
                None => r matches Err(EarError::UnknownModel),
            },
            None => match selector.sku {
                Some(sku) => match model_by_sku(sku@) {
                    Some(info) => r matches Ok(d) && d.describes(info, Some(sku@), None),
                    None => r matches Err(EarError::UnknownModel),
                },
                None => match selector.base {
                    Some(base) => r matches Ok(d) && d.only_base(base),
                    None => r matches Err(EarError::UnknownModel),
                },
            },
        },
{
    if let Some(id) = &selector.model_id {
        return descriptor_for_id(id.as_str());
    }
    if let Some(sku) = &selector.sku {
        return descriptor_for_sku(sku.as_str(), None);
    }
    if let Some(base) = selector.base {
        return Ok(ModelDescriptor::for_base(base));
    }
    Err(EarError::UnknownModel)
}

/// The HTTP status with which an error is answered.
pub open spec fn spec_status_code(err: EarError) -> u16 {
    match err {
        EarError::NoSession => 404,
        EarError::AlreadyConnected => 409,
        EarError::Detection(_) => 400,
        EarError::Unsupported(_) => 400,
        EarError::UnknownModel => 400,
        EarError::Timeout(_) => 504,
        _ => 500,
    }
}

/// The HTTP statuses of the errors: 404 when there is no session, 409 when
/// one is already open, 400 for a failed detection, a missing feature or an
/// unknown model, 504 for a timeout, and 500 for anything else.
pub proof fn lemma_status_table(err: EarError)
    ensures
        (spec_status_code(err) == 404) == (err is NoSession),
        (spec_status_code(err) == 409) == (err is AlreadyConnected),
        (spec_status_code(err) == 400) == (err is Detection || err is Unsupported || err is UnknownModel),
        (spec_status_code(err) == 504) == (err is Timeout),
        (spec_status_code(err) == 500) == (err is CrcMismatch),
{
}

/// The HTTP status with which an error is answered.
pub fn status_code(err: &EarError) -> (code: u16)
    ensures
        code == spec_status_code(*err),
{
    match err {
        EarError::NoSession => 404,
        EarError::AlreadyConnected => 409,
        EarError::Detection(_) => 400,
        EarError::Unsupported(_) | EarError::UnknownModel => 400,
        EarError::Timeout(_) => 504,
        _ => 500,
    }
}

} // verus!

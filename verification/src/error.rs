//! Errors reported by the library.
use vstd::prelude::*;

verus! {

/// What went wrong while talking to a device or choosing a model.
#[derive(Debug, Clone)]
pub enum EarError {
    /// A frame arrived whose checksum does not match its contents.
    CrcMismatch,
    /// No device session is open.
    NoSession,
    /// A device session is already open.
    AlreadyConnected,
    /// The model id or SKU is not in the catalogue.
    UnknownModel,
    /// The connected model does not offer the named feature.
    Unsupported(&'static str),
    /// No answer came for the named request in time.
    Timeout(&'static str),
    /// Device discovery failed, with the reason.
    Detection(String),
}

} // verus!

//! Records and errors of the application's shared state.
use vstd::prelude::*;
use crate::config::TrustedPeer;

verus! {

#[derive(Debug)]
pub enum AppError {
    Storage(String),
    Validation(String),
}

impl AppError {
    /// The text that explains the error.
    pub fn message(&self) -> (text: String)
        ensures
            text@ == match self {
                AppError::Storage(detail) => "storage error: "@ + detail@,
                AppError::Validation(detail) => "validation error: "@ + detail@,
            },
    {
        match self {
            AppError::Storage(detail) => {
                let mut text = String::from_str("storage error: ");
                text.append(detail.as_str());
                text
            },
            AppError::Validation(detail) => {
                let mut text = String::from_str("validation error: ");
                text.append(detail.as_str());
                text
            },
        }
    }
}

/// The trusted peers as they are stored.
#[derive(Debug, Clone)]
pub struct TrustedPeerStore {
    pub schema_version: u16,
    pub peers: Vec<TrustedPeer>,
}

} // verus!

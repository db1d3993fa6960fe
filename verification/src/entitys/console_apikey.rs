//! Requests about console API keys.
use vstd::prelude::*;

verus! {

/// Create a console API key.
#[derive(Debug, Clone)]
pub struct CreateConsoleApiKeyRequest {
    pub name: String,
    pub description: Option<String>,
    pub expires_at: Option<i64>,
}

} // verus!

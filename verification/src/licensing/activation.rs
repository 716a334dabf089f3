//! Activation data: what is sent to and received from the license
//! service.  The HTTP exchange itself happens outside the library.

use vstd::prelude::*;
use crate::licensing::tier::Tier;

verus! {

/// What a caller submits to activate a license.
#[derive(Debug)]
pub struct ActivationRequest {
    pub user_id: String,
    pub activation_key: String,
    pub device_id: String,
    pub plan: Tier,
    pub auth_token: String,
}

/// What the license service answers.
#[derive(Debug)]
pub struct ActivationResponse {
    pub user_id: String,
    pub tier: Tier,
    pub expires_at_ms: Option<u64>,
    pub org_id: Option<String>,
    pub grace_period_days: u32,
    pub invoice_id: Option<String>,
    pub invoice_email_sent: bool,
}

/// The address of the license service an activation client talks to.
#[derive(Debug)]
pub struct HttpActivationClient {
    pub api_base: String,
}

} // verus!

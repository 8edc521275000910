//! Contract types: the request and response shapes of every remote
//! operation, the payment status enumeration with its derived predicates,
//! and the user-supplied configuration.

use vstd::prelude::*;

verus! {

/// Which platform deployment a client talks to when no explicit base URL
/// is configured.
#[derive(Debug, Clone, Copy, PartialEq, Eq, Structural)]
pub enum Environment {
    Production,
    Development,
}

/// The user-supplied configuration, as handed to `Client::new`. The API key
/// must carry the partner prefix; the timeout defaults to 30 000 ms when
/// absent; an explicit `base_url` overrides the environment's default.
#[derive(Debug, Clone)]
pub struct Config {
    pub api_key: String,
    pub environment: Environment,
    pub timeout_ms: Option<u64>,
    pub base_url: Option<String>,
}

/// Creates a merchant. Name and EVM payout address are mandatory; the
/// one-time token authorizes a verified creation flow when present.
#[derive(Debug, Clone)]
pub struct CreateMerchantRequest {
    pub name: String,
    pub payout_evm_address: String,
    pub email: Option<String>,
    pub photo_url: Option<String>,
    pub payout_svm_address: Option<String>,
    pub fee_rate: Option<String>,
    pub one_time_token: Option<String>,
}

#[derive(Debug, PartialEq, Eq)]
pub struct CreateMerchantResponse {
    pub merchant_id: String,
}

#[derive(Debug, PartialEq, Eq)]
pub struct GetMerchantResponse {
    pub merchant_id: String,
    pub name: String,
    pub photo_url: String,
    pub payout_evm_address: String,
    pub payout_svm_address: String,
}

/// Updates merchant payout addresses. Sensitive: requires a one-time token
/// freshly issued by the frontend flow.
#[derive(Debug, Clone)]
pub struct UpdateMerchantRequest {
    pub merchant_id: String,
    pub one_time_token: String,
    pub name: Option<String>,
    pub photo_url: Option<String>,
    pub payout_evm_address: Option<String>,
    pub payout_svm_address: Option<String>,
}

#[derive(Debug, PartialEq, Eq)]
pub struct UpdateMerchantResponse {
    pub merchant_id: String,
    pub name: String,
    pub photo_url: String,
    pub payout_evm_address: String,
    pub payout_svm_address: String,
}

/// Updates display data only (name, photo). Cosmetic: no token required.
#[derive(Debug, Clone)]
pub struct UpdateMerchantProfileRequest {
    pub merchant_id: String,
    pub name: Option<String>,
    pub photo_url: Option<String>,
}

#[derive(Debug, PartialEq, Eq)]
pub struct UpdateMerchantProfileResponse {
    pub merchant_id: String,
    pub name: String,
    pub photo_url: String,
}

#[derive(Debug, PartialEq, Eq, Structural)]
pub struct VerificationStatus {
    pub is_phone_verified: bool,
    pub verified_at: i64,
}

#[derive(Debug, PartialEq, Eq)]
pub struct AccountLinkInfo {
    pub user_id: String,
    pub email: String,
    pub is_phone_verified: bool,
}

/// The lifecycle states a payment can be in, as reported by the platform.
#[derive(Debug, Clone, Copy, PartialEq, Eq, Structural)]
pub enum PaymentStatus {
    Pending,
    Submitted,
    Included,
    Failed,
    Cancelled,
}

impl PaymentStatus {
    /// The payment has settled: it is included on chain.
    pub open spec fn spec_is_complete(self) -> bool {
        self == PaymentStatus::Included
    }

    /// The payment can no longer settle.
    pub open spec fn spec_is_failed(self) -> bool {
        self == PaymentStatus::Failed || self == PaymentStatus::Cancelled
    }

    /// The payment may still settle.
    pub open spec fn spec_is_pending(self) -> bool {
        self == PaymentStatus::Pending || self == PaymentStatus::Submitted
    }
}

/// Exactly one of the three derived predicates holds of every payment
/// status: Included is complete, Failed and Cancelled are failed, and
/// Pending and Submitted are pending.
pub proof fn lemma_payment_status_partition(s: PaymentStatus)
    ensures
        s.spec_is_complete() || s.spec_is_failed() || s.spec_is_pending(),
        s.spec_is_complete() ==> !s.spec_is_failed() && !s.spec_is_pending(),
        s.spec_is_failed() ==> !s.spec_is_complete() && !s.spec_is_pending(),
        s.spec_is_pending() ==> !s.spec_is_complete() && !s.spec_is_failed(),
{
}

/// A payment record. The amount is a decimal carried as a string, so no
/// precision is lost; `tx_hash` and `completed_at` appear once the payment
/// reaches the chain.
#[derive(Debug, PartialEq, Eq)]
pub struct PaymentInfo {
    pub payment_id: String,
    pub status: PaymentStatus,
    pub tx_hash: Option<String>,
    pub amount: String,
    pub currency: String,
    pub created_at: i64,
    pub completed_at: Option<i64>,
}

impl PaymentInfo {
    /// The payment has settled: its status is `Included`.
    pub fn is_complete(&self) -> (r: bool)
        ensures
            r == self.status.spec_is_complete(),
    {
        self.status == PaymentStatus::Included
    }

    /// The payment can no longer settle: `Failed` or `Cancelled`.
    pub fn is_failed(&self) -> (r: bool)
        ensures
            r == self.status.spec_is_failed(),
    {
        self.status == PaymentStatus::Failed || self.status == PaymentStatus::Cancelled
    }

    /// The payment may still settle: `Pending` or `Submitted`.
    pub fn is_pending(&self) -> (r: bool)
        ensures
            r == self.status.spec_is_pending(),
    {
        self.status == PaymentStatus::Pending || self.status == PaymentStatus::Submitted
    }
}

/// Decoded token claims, carried as data only: this client never verifies
/// a signature; a caller that already has verified claims shapes them here.
#[derive(Debug, PartialEq, Eq)]
pub struct Claims {
    pub user_id: String,
    pub email: String,
    pub email_verified: bool,
    pub iat: i64,
    pub exp: i64,
}

} // verus!

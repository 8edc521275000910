//! Typed client core for a hosted payments / merchant-onboarding platform:
//! request and response contract types, configuration resolution, and the
//! classification of failed calls into a structured error taxonomy.

pub mod client;
pub mod errors;
pub mod json;
pub mod types;
pub mod wire;

pub use client::Client;
pub use client::ConfigError;
pub use client::TransportOutcome;
pub use errors::PaymentErrorCode;
pub use errors::SettoError;
pub use errors::SystemError;
pub use types::AccountLinkInfo;
pub use types::Claims;
pub use types::Config;
pub use types::CreateMerchantRequest;
pub use types::CreateMerchantResponse;
pub use types::Environment;
pub use types::GetMerchantResponse;
pub use types::PaymentInfo;
pub use types::PaymentStatus;
pub use types::UpdateMerchantProfileRequest;
pub use types::UpdateMerchantProfileResponse;
pub use types::UpdateMerchantRequest;
pub use types::UpdateMerchantResponse;
pub use types::VerificationStatus;

//! The client: configuration resolution into an immutable value, and one
//! method per remote operation that turns the transport's outcome for that
//! call into a typed success value or exactly one classified error.

use vstd::prelude::*;
use vstd::string::StringExecFns;
use crate::errors::{SettoError, classified, is_http_fallback, classify_response};
use crate::json::{JsonVal, has_prefix, str_starts_with, json_fields, parse_object};
use crate::types::{Config, Environment, CreateMerchantRequest, CreateMerchantResponse,
    GetMerchantResponse, UpdateMerchantRequest, UpdateMerchantResponse,
    UpdateMerchantProfileRequest, UpdateMerchantProfileResponse, VerificationStatus,
    AccountLinkInfo, PaymentInfo};
use crate::wire::{create_merchant_of_fields, merchant_of_fields, update_merchant_of_fields,
    update_profile_of_fields, verification_of_fields, account_link_of_fields, payment_of_fields,
    parse_create_merchant, parse_merchant, parse_update_merchant, parse_update_profile,
    parse_verification, parse_account_link, parse_payment};

verus! {

/// The base URL a production client talks to when none is configured.
pub const PRODUCTION_URL: &'static str = "https://wallet.settopay.com";

/// The base URL a development client talks to when none is configured.
pub const DEVELOPMENT_URL: &'static str = "https://dev-wallet.settopay.com";

/// The required prefix of every partner API key.
pub const API_KEY_PREFIX: &'static str = "sk_partner.";

/// The per-call timeout used when the configuration gives none.
pub const DEFAULT_TIMEOUT_MS: u64 = 30000;

/// A caller-side configuration mistake, reported before any request is
/// built and distinct from every server-reported error.
#[derive(Debug, Clone, Copy, PartialEq, Eq, Structural)]
pub enum ConfigError {
    /// The API key does not start with the partner prefix.
    MissingKeyPrefix,
    /// The timeout was supplied as zero.
    ZeroTimeout,
}

/// The configuration is acceptable: prefixed key, no zero timeout.
pub open spec fn config_valid(config: Config) -> bool {
    has_prefix(config.api_key@, API_KEY_PREFIX@) && config.timeout_ms != Some(0u64)
}

/// The base URL a configuration resolves to: the explicit override when
/// given, else the environment's fixed endpoint.
pub open spec fn resolved_base_url(config: Config) -> Seq<char> {
    match config.base_url {
        Some(u) => u@,
        None => match config.environment {
            Environment::Production => PRODUCTION_URL@,
            Environment::Development => DEVELOPMENT_URL@,
        },
    }
}

/// The timeout a configuration resolves to.
pub open spec fn resolved_timeout_ms(config: Config) -> u64 {
    match config.timeout_ms {
        Some(t) => t,
        None => DEFAULT_TIMEOUT_MS,
    }
}

/// What one request/response round trip came back as: a response with its
/// status and body text, or a transport-level failure before any response
/// (DNS, TLS, timeout, connection reset).
#[derive(Debug)]
pub enum TransportOutcome {
    Response { status: u16, body: String },
    Failure { cause: String },
}

/// The status codes on which a response is read against the success schema.
pub open spec fn is_success_status(status: u16) -> bool {
    200 <= status <= 299
}

/// The one result an operation returns for an outcome: a transport failure
/// is always `Network` and never anything else; a success-status response
/// is the parsed success value, or the opaque fallback when its body does
/// not match the success schema; every other response is classified.
pub open spec fn dispatched<T>(
    outcome: TransportOutcome,
    parsed: Option<T>,
    r: Result<T, SettoError>,
) -> bool {
    match outcome {
        TransportOutcome::Failure { cause } => r == Err::<T, SettoError>(
            SettoError::Network { cause },
        ),
        TransportOutcome::Response { status, body } => if is_success_status(status) {
            match parsed {
                Some(v) => r == Ok::<T, SettoError>(v),
                None => r matches Err(e) && is_http_fallback(status, body@, e),
            }
        } else {
            r matches Err(e) && classified(status, body@, json_fields(body@), e)
        },
    }
}

/// The parse of a success body against a schema: the body must be one JSON
/// object whose fields satisfy the schema.
pub open spec fn success_of<T>(
    outcome: TransportOutcome,
    schema: spec_fn(Seq<(String, JsonVal)>) -> Option<T>,
) -> Option<T> {
    match outcome {
        TransportOutcome::Response { status, body } => match json_fields(body@) {
            Some(fs) => schema(fs),
            None => None,
        },
        TransportOutcome::Failure { .. } => None,
    }
}

/// The resolved client: validated API key, resolved base URL and timeout.
/// Immutable after construction; every call is an independent round trip
/// with no state beyond this value.
#[derive(Debug)]
pub struct Client {
    pub api_key: String,
    pub base_url: String,
    pub timeout_ms: u64,
}

impl Client {
    /// Resolves a configuration: rejects an unprefixed API key, then a zero
    /// timeout, in that order; fills in the environment's base URL and the
    /// default timeout where the configuration gives none. No request is
    /// built and nothing is sent from here.
    pub fn new(config: Config) -> (r: Result<Client, ConfigError>)
        ensures
            config_valid(config) <==> r is Ok,
            r matches Ok(c) ==> {
                &&& c.api_key == config.api_key
                &&& c.base_url@ == resolved_base_url(config)
                &&& c.timeout_ms == resolved_timeout_ms(config)
            },
            r matches Err(e) ==> {
                &&& (e == ConfigError::MissingKeyPrefix <==> !has_prefix(
                    config.api_key@,
                    API_KEY_PREFIX@,
                ))
                &&& (e == ConfigError::ZeroTimeout <==> has_prefix(
                    config.api_key@,
                    API_KEY_PREFIX@,
                ) && config.timeout_ms == Some(0u64))
            },
    {
        if !str_starts_with(config.api_key.as_str(), API_KEY_PREFIX) {
            return Err(ConfigError::MissingKeyPrefix);
        }
        let timeout_ms: u64 = match config.timeout_ms {
            Some(t) => {
                if t == 0 {
                    return Err(ConfigError::ZeroTimeout);
                }
                t
            },
            None => DEFAULT_TIMEOUT_MS,
        };
        let base_url: String = match config.base_url {
            Some(u) => u,
            None => match config.environment {
                Environment::Production => String::from_str(PRODUCTION_URL),
                Environment::Development => String::from_str(DEVELOPMENT_URL),
            },
        };
        Ok(Client { api_key: config.api_key, base_url, timeout_ms })
    }

    /// The validated API key, sent as the bearer credential on every call.
    pub fn api_key(&self) -> (r: &str)
        ensures
            r@ == self.api_key@,
    {
        self.api_key.as_str()
    }

    /// The resolved base URL.
    pub fn base_url(&self) -> (r: &str)
        ensures
            r@ == self.base_url@,
    {
        self.base_url.as_str()
    }

    /// The resolved per-call timeout in milliseconds.
    pub fn timeout_ms(&self) -> (r: u64)
        ensures
            r == self.timeout_ms,
    {
        self.timeout_ms
    }

    /// Maps the outcome of a create-merchant call. The request needs a name
    /// and an EVM payout address.
    pub fn create_merchant(&self, req: &CreateMerchantRequest, outcome: TransportOutcome) -> (r:
        Result<CreateMerchantResponse, SettoError>)
        requires
            req.name@.len() > 0,
            req.payout_evm_address@.len() > 0,
        ensures
            dispatched(outcome, success_of(outcome, |fs| create_merchant_of_fields(fs)), r),
    {
        match outcome {
            TransportOutcome::Failure { cause } => Err(SettoError::Network { cause }),
            TransportOutcome::Response { status, body } => {
                if 200 <= status && status <= 299 {
                    let parsed = match parse_object(body.as_str()) {
                        Some(fields) => parse_create_merchant(&fields),
                        None => None,
                    };
                    match parsed {
                        Some(v) => Ok(v),
                        None => Err(SettoError::Http { status, body }),
                    }
                } else {
                    Err(classify_response(status, body))
                }
            },
        }
    }

    /// Maps the outcome of a merchant lookup.
    pub fn get_merchant(&self, merchant_id: &str, outcome: TransportOutcome) -> (r: Result<
        GetMerchantResponse,
        SettoError,
    >)
        requires
            merchant_id@.len() > 0,
        ensures
            dispatched(outcome, success_of(outcome, |fs| merchant_of_fields(fs)), r),
    {
        match outcome {
            TransportOutcome::Failure { cause } => Err(SettoError::Network { cause }),
            TransportOutcome::Response { status, body } => {
                if 200 <= status && status <= 299 {
                    let parsed = match parse_object(body.as_str()) {
                        Some(fields) => parse_merchant(&fields),
                        None => None,
                    };
                    match parsed {
                        Some(v) => Ok(v),
                        None => Err(SettoError::Http { status, body }),
                    }
                } else {
                    Err(classify_response(status, body))
                }
            },
        }
    }

    /// Maps the outcome of a sensitive merchant update, the one that
    /// changes payout addresses and must carry a one-time token.
    pub fn update_merchant(&self, req: &UpdateMerchantRequest, outcome: TransportOutcome) -> (r:
        Result<UpdateMerchantResponse, SettoError>)
        requires
            req.merchant_id@.len() > 0,
            req.one_time_token@.len() > 0,
        ensures
            dispatched(outcome, success_of(outcome, |fs| update_merchant_of_fields(fs)), r),
    {
        match outcome {
            TransportOutcome::Failure { cause } => Err(SettoError::Network { cause }),
            TransportOutcome::Response { status, body } => {
                if 200 <= status && status <= 299 {
                    let parsed = match parse_object(body.as_str()) {
                        Some(fields) => parse_update_merchant(&fields),
                        None => None,
                    };
                    match parsed {
                        Some(v) => Ok(v),
                        None => Err(SettoError::Http { status, body }),
                    }
                } else {
                    Err(classify_response(status, body))
                }
            },
        }
    }

    /// Maps the outcome of a cosmetic profile update, the one that needs no
    /// token. An update with nothing set is a no-op, not an error.
    pub fn update_merchant_profile(
        &self,
        req: &UpdateMerchantProfileRequest,
        outcome: TransportOutcome,
    ) -> (r: Result<UpdateMerchantProfileResponse, SettoError>)
        requires
            req.merchant_id@.len() > 0,
        ensures
            dispatched(outcome, success_of(outcome, |fs| update_profile_of_fields(fs)), r),
    {
        match outcome {
            TransportOutcome::Failure { cause } => Err(SettoError::Network { cause }),
            TransportOutcome::Response { status, body } => {
                if 200 <= status && status <= 299 {
                    let parsed = match parse_object(body.as_str()) {
                        Some(fields) => parse_update_profile(&fields),
                        None => None,
                    };
                    match parsed {
                        Some(v) => Ok(v),
                        None => Err(SettoError::Http { status, body }),
                    }
                } else {
                    Err(classify_response(status, body))
                }
            },
        }
    }

    /// Maps the outcome of a phone-verification status lookup.
    pub fn get_verification_status(&self, user_id: &str, outcome: TransportOutcome) -> (r: Result<
        VerificationStatus,
        SettoError,
    >)
        requires
            user_id@.len() > 0,
        ensures
            dispatched(outcome, success_of(outcome, |fs| verification_of_fields(fs)), r),
    {
        match outcome {
            TransportOutcome::Failure { cause } => Err(SettoError::Network { cause }),
            TransportOutcome::Response { status, body } => {
                if 200 <= status && status <= 299 {
                    let parsed = match parse_object(body.as_str()) {
                        Some(fields) => parse_verification(&fields),
                        None => None,
                    };
                    match parsed {
                        Some(v) => Ok(v),
                        None => Err(SettoError::Http { status, body }),
                    }
                } else {
                    Err(classify_response(status, body))
                }
            },
        }
    }

    /// Maps the outcome of an account-link token exchange. The token is
    /// single use; reuse and expiry surface as `Payment` errors.
    pub fn exchange_account_link_token(&self, link_token: &str, outcome: TransportOutcome) -> (r:
        Result<AccountLinkInfo, SettoError>)
        requires
            link_token@.len() > 0,
        ensures
            dispatched(outcome, success_of(outcome, |fs| account_link_of_fields(fs)), r),
    {
        match outcome {
            TransportOutcome::Failure { cause } => Err(SettoError::Network { cause }),
            TransportOutcome::Response { status, body } => {
                if 200 <= status && status <= 299 {
                    let parsed = match parse_object(body.as_str()) {
                        Some(fields) => parse_account_link(&fields),
                        None => None,
                    };
                    match parsed {
                        Some(v) => Ok(v),
                        None => Err(SettoError::Http { status, body }),
                    }
                } else {
                    Err(classify_response(status, body))
                }
            },
        }
    }

    /// Maps the outcome of a payment status poll.
    pub fn get_payment_status(&self, payment_id: &str, outcome: TransportOutcome) -> (r: Result<
        PaymentInfo,
        SettoError,
    >)
        requires
            payment_id@.len() > 0,
        ensures
            dispatched(outcome, success_of(outcome, |fs| payment_of_fields(fs)), r),
    {
        match outcome {
            TransportOutcome::Failure { cause } => Err(SettoError::Network { cause }),
            TransportOutcome::Response { status, body } => {
                if 200 <= status && status <= 299 {
                    let parsed = match parse_object(body.as_str()) {
                        Some(fields) => parse_payment(&fields),
                        None => None,
                    };
                    match parsed {
                        Some(v) => Ok(v),
                        None => Err(SettoError::Http { status, body }),
                    }
                } else {
                    Err(classify_response(status, body))
                }
            },
        }
    }
}


/// A transport-level failure is always reported as `Network`, carrying its
/// cause, and never as a `System`, `Payment`, `Validation` or `Http` error:
/// server-classified variants arise only from an HTTP response.
pub proof fn lemma_failure_is_network<T>(
    outcome: TransportOutcome,
    parsed: Option<T>,
    r: Result<T, SettoError>,
)
    requires
        (outcome matches TransportOutcome::Failure { .. }),
        dispatched(outcome, parsed, r),
    ensures
        r matches Err(e) && e matches SettoError::Network { cause } && outcome
            == (TransportOutcome::Failure { cause }),
{
}

} // verus!

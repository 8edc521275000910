//! The error taxonomy: the discriminated error type every operation
//! returns on failure, the recognized platform error codes, and the mapping
//! from a raw HTTP response to exactly one structured variant.

use vstd::prelude::*;
use vstd::string::StringExecFns;
use crate::json::{JsonVal, has_prefix, str_field, get_str_field, parse_object, json_fields,
    str_starts_with, dec_str, u16_to_string};

verus! {

/// Every way a remote operation can fail. Exactly one variant is produced
/// per failed call; a structured platform code is never collapsed into the
/// opaque `Http` fallback when one was present. Codes arrive as open sets:
/// an unrecognized `SYSTEM_`/`PAYMENT_` code is still carried verbatim.
#[derive(Debug, PartialEq, Eq)]
pub enum SettoError {
    /// A platform-internal failure, e.g. `SYSTEM_RPC_FAILED`.
    System { code: String, http_status: u16 },
    /// A payment-domain failure, e.g. `PAYMENT_NOT_FOUND`.
    Payment { code: String, http_status: u16 },
    /// The platform rejected the request's content, with a readable message.
    Validation { message: String, http_status: u16 },
    /// An HTTP response that matches none of the structured shapes.
    Http { status: u16, body: String },
    /// A transport-level failure: no HTTP response was obtained.
    Network { cause: String },
}

impl SettoError {
    /// The readable one-line description of an error.
    pub open spec fn spec_message(&self) -> Seq<char> {
        match self {
            SettoError::System { code, .. } => "setto: system error: "@ + code@,
            SettoError::Payment { code, .. } => "setto: payment error: "@ + code@,
            SettoError::Validation { message, .. } => "setto: validation error: "@ + message@,
            SettoError::Http { status, .. } => "setto: HTTP "@ + dec_str(*status as int),
            SettoError::Network { cause } => "setto: network error: "@ + cause@,
        }
    }

    /// Describes the error in one line, `setto: <category>: <detail>`.
    pub fn message(&self) -> (r: String)
        ensures
            r@ == self.spec_message(),
    {
        match self {
            SettoError::System { code, .. } => {
                let mut r = String::from_str("setto: system error: ");
                r.append(code.as_str());
                r
            },
            SettoError::Payment { code, .. } => {
                let mut r = String::from_str("setto: payment error: ");
                r.append(code.as_str());
                r
            },
            SettoError::Validation { message, .. } => {
                let mut r = String::from_str("setto: validation error: ");
                r.append(message.as_str());
                r
            },
            SettoError::Http { status, .. } => {
                let mut r = String::from_str("setto: HTTP ");
                let digits = u16_to_string(*status);
                r.append(digits.as_str());
                r
            },
            SettoError::Network { cause } => {
                let mut r = String::from_str("setto: network error: ");
                r.append(cause.as_str());
                r
            },
        }
    }
}

/// The system-level codes the platform currently documents. The set is
/// open: the platform may add codes, and they are carried as strings.
pub struct SystemError;

impl SystemError {
    pub const OK: &'static str = "SYSTEM_OK";

    pub const INTERNAL: &'static str = "SYSTEM_INTERNAL";

    pub const RPC_FAILED: &'static str = "SYSTEM_RPC_FAILED";

    pub const RATE_LIMITED: &'static str = "SYSTEM_RATE_LIMITED";
}

/// The payment-level codes the platform currently documents, same open-set
/// policy as `SystemError`.
pub struct PaymentErrorCode;

impl PaymentErrorCode {
    pub const OK: &'static str = "PAYMENT_OK";

    pub const NOT_FOUND: &'static str = "PAYMENT_NOT_FOUND";

    pub const MERCHANT_NOT_FOUND: &'static str = "PAYMENT_MERCHANT_NOT_FOUND";

    pub const OTT_REQUIRED: &'static str = "PAYMENT_OTT_REQUIRED";

    pub const OTT_INVALID: &'static str = "PAYMENT_OTT_INVALID";

    pub const OTT_EXPIRED: &'static str = "PAYMENT_OTT_EXPIRED";

    pub const OTT_ALREADY_USED: &'static str = "PAYMENT_OTT_ALREADY_USED";

    pub const STORE_LIMIT_EXCEEDED: &'static str = "PAYMENT_STORE_LIMIT_EXCEEDED";
}

/// `r` is the opaque fallback for this response: the raw status and body.
pub open spec fn is_http_fallback(status: u16, body: Seq<char>, r: SettoError) -> bool {
    r matches SettoError::Http { status: s, body: b } && s == status && b@ == body
}

/// `r` is the variant the validation-error schema calls for: a `message`
/// string field gives `Validation`, anything else the opaque fallback.
pub open spec fn message_classified(
    status: u16,
    body: Seq<char>,
    fs: Seq<(String, JsonVal)>,
    r: SettoError,
) -> bool {
    match str_field(fs, "message"@) {
        Some(m) => r == SettoError::Validation { message: m, http_status: status },
        None => is_http_fallback(status, body, r),
    }
}

/// `r` is the one variant the mapping calls for on this response body:
/// a `code` field with the system prefix gives `System`, with the payment
/// prefix `Payment`; otherwise a `message` field gives `Validation`; any
/// other body, or one that is no JSON object, gives the opaque `Http`.
pub open spec fn classified(
    status: u16,
    body: Seq<char>,
    fields: Option<Seq<(String, JsonVal)>>,
    r: SettoError,
) -> bool {
    match fields {
        None => is_http_fallback(status, body, r),
        Some(fs) => match str_field(fs, "code"@) {
            Some(c) => if has_prefix(c@, "SYSTEM_"@) {
                r == SettoError::System { code: c, http_status: status }
            } else if has_prefix(c@, "PAYMENT_"@) {
                r == SettoError::Payment { code: c, http_status: status }
            } else {
                message_classified(status, body, fs, r)
            },
            None => message_classified(status, body, fs, r),
        },
    }
}

/// Maps an already parsed failed response to its one error variant.
pub fn classify_fields(status: u16, body: String, fields: Option<Vec<(String, JsonVal)>>) -> (r:
    SettoError)
    ensures
        classified(status, body@, opt_fields_view(fields), r),
{
    match fields {
        None => SettoError::Http { status, body },
        Some(fs) => match get_str_field(&fs, "code") {
            Some(c) => {
                if str_starts_with(c.as_str(), "SYSTEM_") {
                    SettoError::System { code: c, http_status: status }
                } else if str_starts_with(c.as_str(), "PAYMENT_") {
                    SettoError::Payment { code: c, http_status: status }
                } else {
                    classify_message(status, body, &fs)
                }
            },
            None => classify_message(status, body, &fs),
        },
    }
}

fn classify_message(status: u16, body: String, fs: &Vec<(String, JsonVal)>) -> (r: SettoError)
    ensures
        message_classified(status, body@, fs@, r),
{
    match get_str_field(fs, "message") {
        Some(m) => SettoError::Validation { message: m, http_status: status },
        None => SettoError::Http { status, body },
    }
}

/// The fields of a parse result, as the specification sees them.
pub open spec fn opt_fields_view(fields: Option<Vec<(String, JsonVal)>>) -> Option<
    Seq<(String, JsonVal)>,
> {
    match fields {
        Some(v) => Some(v@),
        None => None,
    }
}

/// Maps a failed response, body as received, to its one error variant.
pub fn classify_response(status: u16, body: String) -> (r: SettoError)
    ensures
        classified(status, body@, json_fields(body@), r),
{
    let fields = parse_object(body.as_str());
    classify_fields(status, body, fields)
}

/// A response body that carries a code with a recognized prefix is always
/// classified as the structured variant holding that exact code and the
/// original HTTP status: the code is never collapsed into `Validation` or
/// the opaque `Http` fallback.
pub proof fn lemma_structured_code_is_kept(
    status: u16,
    body: Seq<char>,
    fs: Seq<(String, JsonVal)>,
    r: SettoError,
)
    requires
        classified(status, body, Some(fs), r),
        (str_field(fs, "code"@) is Some),
        has_prefix(str_field(fs, "code"@).unwrap()@, "SYSTEM_"@) || has_prefix(
            str_field(fs, "code"@).unwrap()@,
            "PAYMENT_"@,
        ),
    ensures
        !(r matches SettoError::Http { .. }),
        !(r matches SettoError::Validation { .. }),
        !(r matches SettoError::Network { .. }),
        has_prefix(str_field(fs, "code"@).unwrap()@, "SYSTEM_"@) ==> r == (SettoError::System {
            code: str_field(fs, "code"@).unwrap(),
            http_status: status,
        }),
        !has_prefix(str_field(fs, "code"@).unwrap()@, "SYSTEM_"@) ==> r == (SettoError::Payment {
            code: str_field(fs, "code"@).unwrap(),
            http_status: status,
        }),
{
}

} // verus!

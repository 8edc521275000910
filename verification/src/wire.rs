//! The wire schemas: how each request shape is emitted as a JSON body
//! (optional fields omitted, never sent as `null`), and how each success
//! response is read back from the top-level fields of a JSON object.

use vstd::prelude::*;
use vstd::string::StringExecFns;
use crate::json::{JsonVal, str_field, int_field, bool_field, opt_str_field, opt_int_field,
    get_str_field, get_int_field, get_bool_field, get_opt_str_field, get_opt_int_field,
    object_seq, kv_views, json_object, str_eq};
use crate::types::{CreateMerchantRequest, CreateMerchantResponse, GetMerchantResponse,
    UpdateMerchantRequest, UpdateMerchantResponse, UpdateMerchantProfileRequest,
    UpdateMerchantProfileResponse, VerificationStatus, AccountLinkInfo, PaymentStatus,
    PaymentInfo};

verus! {

/// The payment status a wire value names, exact casing: `pending`,
/// `submitted`, `included`, `failed`, `cancelled`.
pub open spec fn status_of_wire(s: Seq<char>) -> Option<PaymentStatus> {
    if s == "pending"@ {
        Some(PaymentStatus::Pending)
    } else if s == "submitted"@ {
        Some(PaymentStatus::Submitted)
    } else if s == "included"@ {
        Some(PaymentStatus::Included)
    } else if s == "failed"@ {
        Some(PaymentStatus::Failed)
    } else if s == "cancelled"@ {
        Some(PaymentStatus::Cancelled)
    } else {
        None
    }
}

/// Reads a wire payment status; any other value is no status.
pub fn parse_status(s: &str) -> (r: Option<PaymentStatus>)
    ensures
        r == status_of_wire(s@),
{
    if str_eq(s, "pending") {
        Some(PaymentStatus::Pending)
    } else if str_eq(s, "submitted") {
        Some(PaymentStatus::Submitted)
    } else if str_eq(s, "included") {
        Some(PaymentStatus::Included)
    } else if str_eq(s, "failed") {
        Some(PaymentStatus::Failed)
    } else if str_eq(s, "cancelled") {
        Some(PaymentStatus::Cancelled)
    } else {
        None
    }
}

/// The create-merchant success schema: a `merchant_id` string.
pub open spec fn create_merchant_of_fields(fs: Seq<(String, JsonVal)>) -> Option<
    CreateMerchantResponse,
> {
    match str_field(fs, "merchant_id"@) {
        Some(id) => Some(CreateMerchantResponse { merchant_id: id }),
        None => None,
    }
}

pub fn parse_create_merchant(fields: &Vec<(String, JsonVal)>) -> (r: Option<
    CreateMerchantResponse,
>)
    ensures
        r == create_merchant_of_fields(fields@),
{
    match get_str_field(fields, "merchant_id") {
        Some(id) => Some(CreateMerchantResponse { merchant_id: id }),
        None => None,
    }
}

/// The full merchant profile schema: five mandatory strings.
pub open spec fn merchant_of_fields(fs: Seq<(String, JsonVal)>) -> Option<GetMerchantResponse> {
    match (
        str_field(fs, "merchant_id"@),
        str_field(fs, "name"@),
        str_field(fs, "photo_url"@),
        str_field(fs, "payout_evm_address"@),
        str_field(fs, "payout_svm_address"@),
    ) {
        (Some(id), Some(name), Some(photo), Some(evm), Some(svm)) => Some(
            GetMerchantResponse {
                merchant_id: id,
                name,
                photo_url: photo,
                payout_evm_address: evm,
                payout_svm_address: svm,
            },
        ),
        _ => None,
    }
}

pub fn parse_merchant(fields: &Vec<(String, JsonVal)>) -> (r: Option<GetMerchantResponse>)
    ensures
        r == merchant_of_fields(fields@),
{
    match (
        get_str_field(fields, "merchant_id"),
        get_str_field(fields, "name"),
        get_str_field(fields, "photo_url"),
        get_str_field(fields, "payout_evm_address"),
        get_str_field(fields, "payout_svm_address"),
    ) {
        (Some(id), Some(name), Some(photo), Some(evm), Some(svm)) => Some(
            GetMerchantResponse {
                merchant_id: id,
                name,
                photo_url: photo,
                payout_evm_address: evm,
                payout_svm_address: svm,
            },
        ),
        _ => None,
    }
}

/// The sensitive-update success schema, same five strings.
pub open spec fn update_merchant_of_fields(fs: Seq<(String, JsonVal)>) -> Option<
    UpdateMerchantResponse,
> {
    match merchant_of_fields(fs) {
        Some(m) => Some(
            UpdateMerchantResponse {
                merchant_id: m.merchant_id,
                name: m.name,
                photo_url: m.photo_url,
                payout_evm_address: m.payout_evm_address,
                payout_svm_address: m.payout_svm_address,
            },
        ),
        None => None,
    }
}

pub fn parse_update_merchant(fields: &Vec<(String, JsonVal)>) -> (r: Option<
    UpdateMerchantResponse,
>)
    ensures
        r == update_merchant_of_fields(fields@),
{
    match parse_merchant(fields) {
        Some(m) => Some(
            UpdateMerchantResponse {
                merchant_id: m.merchant_id,
                name: m.name,
                photo_url: m.photo_url,
                payout_evm_address: m.payout_evm_address,
                payout_svm_address: m.payout_svm_address,
            },
        ),
        None => None,
    }
}

/// The profile-update success schema: identifier plus the display fields.
pub open spec fn update_profile_of_fields(fs: Seq<(String, JsonVal)>) -> Option<
    UpdateMerchantProfileResponse,
> {
    match (str_field(fs, "merchant_id"@), str_field(fs, "name"@), str_field(fs, "photo_url"@)) {
        (Some(id), Some(name), Some(photo)) => Some(
            UpdateMerchantProfileResponse { merchant_id: id, name, photo_url: photo },
        ),
        _ => None,
    }
}

pub fn parse_update_profile(fields: &Vec<(String, JsonVal)>) -> (r: Option<
    UpdateMerchantProfileResponse,
>)
    ensures
        r == update_profile_of_fields(fields@),
{
    match (
        get_str_field(fields, "merchant_id"),
        get_str_field(fields, "name"),
        get_str_field(fields, "photo_url"),
    ) {
        (Some(id), Some(name), Some(photo)) => Some(
            UpdateMerchantProfileResponse { merchant_id: id, name, photo_url: photo },
        ),
        _ => None,
    }
}

/// The verification-status schema: a flag and an epoch-seconds timestamp.
pub open spec fn verification_of_fields(fs: Seq<(String, JsonVal)>) -> Option<VerificationStatus> {
    match (bool_field(fs, "is_phone_verified"@), int_field(fs, "verified_at"@)) {
        (Some(v), Some(at)) => Some(VerificationStatus { is_phone_verified: v, verified_at: at }),
        _ => None,
    }
}

pub fn parse_verification(fields: &Vec<(String, JsonVal)>) -> (r: Option<VerificationStatus>)
    ensures
        r == verification_of_fields(fields@),
{
    match (
        get_bool_field(fields, "is_phone_verified"),
        get_int_field(fields, "verified_at"),
    ) {
        (Some(v), Some(at)) => Some(VerificationStatus { is_phone_verified: v, verified_at: at }),
        _ => None,
    }
}

/// The account-link exchange schema: the linked user's identity.
pub open spec fn account_link_of_fields(fs: Seq<(String, JsonVal)>) -> Option<AccountLinkInfo> {
    match (
        str_field(fs, "user_id"@),
        str_field(fs, "email"@),
        bool_field(fs, "is_phone_verified"@),
    ) {
        (Some(u), Some(e), Some(v)) => Some(
            AccountLinkInfo { user_id: u, email: e, is_phone_verified: v },
        ),
        _ => None,
    }
}

pub fn parse_account_link(fields: &Vec<(String, JsonVal)>) -> (r: Option<AccountLinkInfo>)
    ensures
        r == account_link_of_fields(fields@),
{
    match (
        get_str_field(fields, "user_id"),
        get_str_field(fields, "email"),
        get_bool_field(fields, "is_phone_verified"),
    ) {
        (Some(u), Some(e), Some(v)) => Some(
            AccountLinkInfo { user_id: u, email: e, is_phone_verified: v },
        ),
        _ => None,
    }
}

/// The payment-record schema: mandatory identifier, wire status, amount,
/// currency and creation time; `tx_hash` and `completed_at` optional, and
/// `null` counts as absent.
pub open spec fn payment_of_fields(fs: Seq<(String, JsonVal)>) -> Option<PaymentInfo> {
    match (
        str_field(fs, "payment_id"@),
        str_field(fs, "status"@),
        str_field(fs, "amount"@),
        str_field(fs, "currency"@),
        int_field(fs, "created_at"@),
        opt_str_field(fs, "tx_hash"@),
        opt_int_field(fs, "completed_at"@),
    ) {
        (Some(id), Some(st), Some(amount), Some(currency), Some(created), Some(tx), Some(done)) =>
            match status_of_wire(st@) {
            Some(status) => Some(
                PaymentInfo {
                    payment_id: id,
                    status,
                    tx_hash: tx,
                    amount,
                    currency,
                    created_at: created,
                    completed_at: done,
                },
            ),
            None => None,
        },
        _ => None,
    }
}

pub fn parse_payment(fields: &Vec<(String, JsonVal)>) -> (r: Option<PaymentInfo>)
    ensures
        r == payment_of_fields(fields@),
{
    match (
        get_str_field(fields, "payment_id"),
        get_str_field(fields, "status"),
        get_str_field(fields, "amount"),
        get_str_field(fields, "currency"),
        get_int_field(fields, "created_at"),
        get_opt_str_field(fields, "tx_hash"),
        get_opt_int_field(fields, "completed_at"),
    ) {
        (Some(id), Some(st), Some(amount), Some(currency), Some(created), Some(tx), Some(done)) =>
            match parse_status(st.as_str()) {
            Some(status) => Some(
                PaymentInfo {
                    payment_id: id,
                    status,
                    tx_hash: tx,
                    amount,
                    currency,
                    created_at: created,
                    completed_at: done,
                },
            ),
            None => None,
        },
        _ => None,
    }
}

impl CreateMerchantRequest {
    /// The emitted body's fields, mandatory first, optionals only when set.
    pub open spec fn spec_fields(&self) -> Seq<(Seq<char>, Seq<char>)> {
        seq![("name"@, self.name@), ("payout_evm_address"@, self.payout_evm_address@)]
            + opt_entry("email"@, self.email) + opt_entry("photo_url"@, self.photo_url)
            + opt_entry("payout_svm_address"@, self.payout_svm_address) + opt_entry(
            "fee_rate"@,
            self.fee_rate,
        ) + opt_entry("one_time_token"@, self.one_time_token)
    }

    /// The exact JSON body this request is sent as.
    pub open spec fn spec_body(&self) -> Seq<char> {
        object_seq(self.spec_fields())
    }

    /// Emits the request body: unset optional fields are omitted entirely.
    pub fn body_json(&self) -> (r: String)
        ensures
            r@ == self.spec_body(),
    {
        let mut fields: Vec<(String, String)> = Vec::new();
        push_entry(&mut fields, "name", &self.name);
        push_entry(&mut fields, "payout_evm_address", &self.payout_evm_address);
        push_opt_entry(&mut fields, "email", &self.email);
        push_opt_entry(&mut fields, "photo_url", &self.photo_url);
        push_opt_entry(&mut fields, "payout_svm_address", &self.payout_svm_address);
        push_opt_entry(&mut fields, "fee_rate", &self.fee_rate);
        push_opt_entry(&mut fields, "one_time_token", &self.one_time_token);
        let r = json_object(&fields);
        proof {
            assert(kv_views(fields@) =~= self.spec_fields());
        }
        r
    }
}

impl UpdateMerchantRequest {
    /// The emitted body's fields, mandatory first, optionals only when set.
    pub open spec fn spec_fields(&self) -> Seq<(Seq<char>, Seq<char>)> {
        seq![("merchant_id"@, self.merchant_id@), ("one_time_token"@, self.one_time_token@)]
            + opt_entry("name"@, self.name) + opt_entry("photo_url"@, self.photo_url) + opt_entry(
            "payout_evm_address"@,
            self.payout_evm_address,
        ) + opt_entry("payout_svm_address"@, self.payout_svm_address)
    }

    /// The exact JSON body this request is sent as.
    pub open spec fn spec_body(&self) -> Seq<char> {
        object_seq(self.spec_fields())
    }

    /// Emits the request body: unset optional fields are omitted entirely.
    pub fn body_json(&self) -> (r: String)
        ensures
            r@ == self.spec_body(),
    {
        let mut fields: Vec<(String, String)> = Vec::new();
        push_entry(&mut fields, "merchant_id", &self.merchant_id);
        push_entry(&mut fields, "one_time_token", &self.one_time_token);
        push_opt_entry(&mut fields, "name", &self.name);
        push_opt_entry(&mut fields, "photo_url", &self.photo_url);
        push_opt_entry(&mut fields, "payout_evm_address", &self.payout_evm_address);
        push_opt_entry(&mut fields, "payout_svm_address", &self.payout_svm_address);
        let r = json_object(&fields);
        proof {
            assert(kv_views(fields@) =~= self.spec_fields());
        }
        r
    }
}

impl UpdateMerchantProfileRequest {
    /// The emitted body's fields, mandatory first, optionals only when set.
    pub open spec fn spec_fields(&self) -> Seq<(Seq<char>, Seq<char>)> {
        seq![("merchant_id"@, self.merchant_id@)] + opt_entry("name"@, self.name) + opt_entry(
            "photo_url"@,
            self.photo_url,
        )
    }

    /// The exact JSON body this request is sent as.
    pub open spec fn spec_body(&self) -> Seq<char> {
        object_seq(self.spec_fields())
    }

    /// Emits the request body: unset optional fields are omitted entirely.
    pub fn body_json(&self) -> (r: String)
        ensures
            r@ == self.spec_body(),
    {
        let mut fields: Vec<(String, String)> = Vec::new();
        push_entry(&mut fields, "merchant_id", &self.merchant_id);
        push_opt_entry(&mut fields, "name", &self.name);
        push_opt_entry(&mut fields, "photo_url", &self.photo_url);
        let r = json_object(&fields);
        proof {
            assert(kv_views(fields@) =~= self.spec_fields());
        }
        r
    }
}

/// The one entry an optional field contributes when set, and nothing
/// when unset.
pub open spec fn opt_entry(key: Seq<char>, v: Option<String>) -> Seq<(Seq<char>, Seq<char>)> {
    match v {
        Some(s) => seq![(key, s@)],
        None => Seq::empty(),
    }
}

fn push_entry(fields: &mut Vec<(String, String)>, key: &str, value: &String)
    ensures
        kv_views(final(fields)@) == kv_views(old(fields)@) + seq![(key@, value@)],
{
    fields.push((String::from_str(key), value.clone()));
    proof {
        assert(kv_views(fields@) =~= kv_views(old(fields)@) + seq![(key@, value@)]);
    }
}

fn push_opt_entry(fields: &mut Vec<(String, String)>, key: &str, value: &Option<String>)
    ensures
        kv_views(final(fields)@) == kv_views(old(fields)@) + opt_entry(key@, *value),
{
    match value {
        Some(v) => push_entry(fields, key, v),
        None => {
            proof {
                assert(kv_views(fields@) =~= kv_views(old(fields)@) + opt_entry(key@, *value));
            }
        },
    }
}


/// Field-presence fidelity of a profile update: an optional field left
/// unset contributes no entry to the emitted body at all, under any key,
/// rather than an entry with a `null` value; a field that is set
/// contributes exactly one entry under its own key.
pub proof fn lemma_unset_profile_fields_are_omitted(req: UpdateMerchantProfileRequest)
    ensures
        (req.photo_url is None) ==> forall|i: int|
            0 <= i < req.spec_fields().len() ==> #[trigger] req.spec_fields()[i].0
                != "photo_url"@,
        (req.name is None) ==> forall|i: int|
            0 <= i < req.spec_fields().len() ==> #[trigger] req.spec_fields()[i].0 != "name"@,
        req.photo_url matches Some(p) ==> req.spec_fields().last() == ("photo_url"@, p@),
        req.name matches Some(n) ==> req.spec_fields()[1] == ("name"@, n@),
{
    reveal_strlit("merchant_id");
    reveal_strlit("name");
    reveal_strlit("photo_url");
    assert("merchant_id"@.len() == 11);
    assert("name"@.len() == 4);
    assert("photo_url"@.len() == 9);
}

} // verus!

use setto::{
    AccountLinkInfo, Client, Config, ConfigError, CreateMerchantRequest, Environment,
    PaymentErrorCode, PaymentInfo, PaymentStatus, SettoError, SystemError, TransportOutcome,
    UpdateMerchantProfileRequest, UpdateMerchantRequest, VerificationStatus,
};
use setto::json::json_object;

fn client() -> Client {
    Client::new(Config {
        api_key: "sk_partner.test".to_string(),
        environment: Environment::Development,
        timeout_ms: None,
        base_url: None,
    })
    .unwrap()
}

fn response(status: u16, body: &str) -> TransportOutcome {
    TransportOutcome::Response { status, body: body.to_string() }
}

fn failure() -> TransportOutcome {
    TransportOutcome::Failure { cause: "connection reset".to_string() }
}

fn payment(status: PaymentStatus) -> PaymentInfo {
    PaymentInfo {
        payment_id: "pay_1".to_string(),
        status,
        tx_hash: None,
        amount: "10.50".to_string(),
        currency: "USDC".to_string(),
        created_at: 1_700_000_000,
        completed_at: None,
    }
}

#[test]
fn payment_predicates_partition_every_status() {
    let all = vec![
        PaymentStatus::Pending,
        PaymentStatus::Submitted,
        PaymentStatus::Included,
        PaymentStatus::Failed,
        PaymentStatus::Cancelled,
    ];
    for status in all {
        let p = payment(status);
        let trues =
            [p.is_complete(), p.is_failed(), p.is_pending()].iter().filter(|b| **b).count();
        assert_eq!(trues, 1, "exactly one predicate must hold for {:?}", status);
    }
    assert!(payment(PaymentStatus::Included).is_complete());
    assert!(payment(PaymentStatus::Failed).is_failed());
    assert!(payment(PaymentStatus::Cancelled).is_failed());
    assert!(payment(PaymentStatus::Pending).is_pending());
    assert!(payment(PaymentStatus::Submitted).is_pending());
}

#[test]
fn resolution_picks_production_endpoint() {
    let c = Client::new(Config {
        api_key: "sk_partner.abc".to_string(),
        environment: Environment::Production,
        timeout_ms: None,
        base_url: None,
    })
    .unwrap();
    assert_eq!(c.base_url(), "https://wallet.settopay.com");
    assert_eq!(c.timeout_ms(), 30_000);
    assert_eq!(c.api_key(), "sk_partner.abc");
}

#[test]
fn resolution_picks_development_endpoint() {
    let c = Client::new(Config {
        api_key: "sk_partner.abc".to_string(),
        environment: Environment::Development,
        timeout_ms: Some(5_000),
        base_url: None,
    })
    .unwrap();
    assert_eq!(c.base_url(), "https://dev-wallet.settopay.com");
    assert_eq!(c.timeout_ms(), 5_000);
}

#[test]
fn resolution_keeps_explicit_base_url() {
    for environment in [Environment::Production, Environment::Development] {
        let c = Client::new(Config {
            api_key: "sk_partner.abc".to_string(),
            environment,
            timeout_ms: None,
            base_url: Some("https://custom".to_string()),
        })
        .unwrap();
        assert_eq!(c.base_url(), "https://custom");
    }
}

#[test]
fn resolution_rejects_unprefixed_key() {
    let r = Client::new(Config {
        api_key: "bad_key".to_string(),
        environment: Environment::Production,
        timeout_ms: None,
        base_url: None,
    });
    assert_eq!(r.unwrap_err(), ConfigError::MissingKeyPrefix);
}

#[test]
fn resolution_rejects_zero_timeout() {
    let r = Client::new(Config {
        api_key: "sk_partner.abc".to_string(),
        environment: Environment::Production,
        timeout_ms: Some(0),
        base_url: None,
    });
    assert_eq!(r.unwrap_err(), ConfigError::ZeroTimeout);
}

#[test]
fn create_merchant_success_carries_merchant_id() {
    let req = CreateMerchantRequest {
        name: "Shop".to_string(),
        payout_evm_address: "0xabc".to_string(),
        email: None,
        photo_url: None,
        payout_svm_address: None,
        fee_rate: None,
        one_time_token: None,
    };
    let r = client().create_merchant(&req, response(200, r#"{"merchant_id":"m_1"}"#));
    assert_eq!(r.unwrap().merchant_id, "m_1");
}

#[test]
fn payment_error_code_is_kept_not_flattened() {
    let body = r#"{"code":"PAYMENT_NOT_FOUND","details":"no such payment"}"#;
    let r = client().get_payment_status("pay_404", response(404, body));
    match r.unwrap_err() {
        SettoError::Payment { code, http_status } => {
            assert_eq!(code, PaymentErrorCode::NOT_FOUND);
            assert_eq!(http_status, 404);
        }
        other => panic!("expected a payment error, got {:?}", other),
    }
}

#[test]
fn system_error_code_is_classified() {
    let body = r#"{"code":"SYSTEM_RATE_LIMITED"}"#;
    let r = client().get_merchant("m_1", response(429, body));
    assert_eq!(
        r.unwrap_err(),
        SettoError::System { code: SystemError::RATE_LIMITED.to_string(), http_status: 429 }
    );
}

#[test]
fn unknown_codes_are_still_carried() {
    let body = r#"{"code":"SYSTEM_BRAND_NEW_FAILURE"}"#;
    let r = client().get_merchant("m_1", response(500, body));
    assert_eq!(
        r.unwrap_err(),
        SettoError::System { code: "SYSTEM_BRAND_NEW_FAILURE".to_string(), http_status: 500 }
    );
}

#[test]
fn message_body_is_a_validation_error() {
    let body = r#"{"message":"payout_evm_address is not an address"}"#;
    let req = CreateMerchantRequest {
        name: "Shop".to_string(),
        payout_evm_address: "not-an-address".to_string(),
        email: None,
        photo_url: None,
        payout_svm_address: None,
        fee_rate: None,
        one_time_token: None,
    };
    let r = client().create_merchant(&req, response(422, body));
    assert_eq!(
        r.unwrap_err(),
        SettoError::Validation {
            message: "payout_evm_address is not an address".to_string(),
            http_status: 422,
        }
    );
}

#[test]
fn unclassifiable_body_falls_back_to_http() {
    let r = client().get_merchant("m_1", response(502, "<html>bad gateway</html>"));
    assert_eq!(
        r.unwrap_err(),
        SettoError::Http { status: 502, body: "<html>bad gateway</html>".to_string() }
    );
}

#[test]
fn unprefixed_code_with_no_message_falls_back_to_http() {
    let body = r#"{"code":"SOMETHING_ELSE"}"#;
    let r = client().get_merchant("m_1", response(400, body));
    assert_eq!(r.unwrap_err(), SettoError::Http { status: 400, body: body.to_string() });
}

#[test]
fn success_status_with_wrong_schema_falls_back_to_http() {
    let body = r#"{"unexpected":"shape"}"#;
    let r = client().get_payment_status("pay_1", response(200, body));
    assert_eq!(r.unwrap_err(), SettoError::Http { status: 200, body: body.to_string() });
}

#[test]
fn connection_failure_is_always_a_network_error() {
    let c = client();
    let r = c.get_payment_status("pay_1", failure());
    assert_eq!(r.unwrap_err(), SettoError::Network { cause: "connection reset".to_string() });
    let r = c.get_merchant("m_1", failure());
    assert!(matches!(r.unwrap_err(), SettoError::Network { .. }));
    let r = c.exchange_account_link_token("tok", failure());
    assert!(matches!(r.unwrap_err(), SettoError::Network { .. }));
}

#[test]
fn profile_update_body_omits_unset_fields() {
    let req = UpdateMerchantProfileRequest {
        merchant_id: "m_1".to_string(),
        name: Some("New Name".to_string()),
        photo_url: None,
    };
    let body = req.body_json();
    assert_eq!(body, r#"{"merchant_id":"m_1","name":"New Name"}"#);
    assert!(!body.contains("photo_url"));
    assert!(!body.contains("null"));
}

#[test]
fn empty_profile_update_body_is_just_the_identifier() {
    let req = UpdateMerchantProfileRequest {
        merchant_id: "m_1".to_string(),
        name: None,
        photo_url: None,
    };
    assert_eq!(req.body_json(), r#"{"merchant_id":"m_1"}"#);
}

#[test]
fn create_merchant_body_lists_set_fields_in_order() {
    let req = CreateMerchantRequest {
        name: "Shop".to_string(),
        payout_evm_address: "0xabc".to_string(),
        email: None,
        photo_url: Some("https://img".to_string()),
        payout_svm_address: None,
        fee_rate: Some("0.015".to_string()),
        one_time_token: None,
    };
    assert_eq!(
        req.body_json(),
        r#"{"name":"Shop","payout_evm_address":"0xabc","photo_url":"https://img","fee_rate":"0.015"}"#
    );
}

#[test]
fn update_merchant_body_always_carries_the_token() {
    let req = UpdateMerchantRequest {
        merchant_id: "m_1".to_string(),
        one_time_token: "ott_1".to_string(),
        name: None,
        photo_url: None,
        payout_evm_address: Some("0xdef".to_string()),
        payout_svm_address: None,
    };
    assert_eq!(
        req.body_json(),
        r#"{"merchant_id":"m_1","one_time_token":"ott_1","payout_evm_address":"0xdef"}"#
    );
}

#[test]
fn emitted_bodies_escape_json_metacharacters() {
    let req = UpdateMerchantProfileRequest {
        merchant_id: "m_1".to_string(),
        name: Some("a\"b\\c\nd\te\u{1}f".to_string()),
        photo_url: None,
    };
    let body = req.body_json();
    assert_eq!(body, "{\"merchant_id\":\"m_1\",\"name\":\"a\\\"b\\\\c\\nd\\te\\u0001f\"}");
    let parsed: serde_json::Value = serde_json::from_str(&body).unwrap();
    assert_eq!(parsed["name"], "a\"b\\c\nd\te\u{1}f");
}

#[test]
fn emitted_body_reads_back_as_a_response() {
    let fields = vec![
        ("merchant_id".to_string(), "m_9".to_string()),
        ("name".to_string(), "Caf\u{e9}".to_string()),
        ("photo_url".to_string(), "https://img/p.png".to_string()),
    ];
    let body = json_object(&fields);
    let req = UpdateMerchantProfileRequest {
        merchant_id: "m_9".to_string(),
        name: None,
        photo_url: None,
    };
    let r = client().update_merchant_profile(&req, response(200, &body)).unwrap();
    assert_eq!(r.merchant_id, "m_9");
    assert_eq!(r.name, "Caf\u{e9}");
    assert_eq!(r.photo_url, "https://img/p.png");
}

#[test]
fn get_merchant_success_reads_the_full_profile() {
    let body = r#"{
        "merchant_id": "m_2",
        "name": "Shop Two",
        "photo_url": "https://img/2.png",
        "payout_evm_address": "0xabc",
        "payout_svm_address": "sol123"
    }"#;
    let r = client().get_merchant("m_2", response(200, body)).unwrap();
    assert_eq!(r.merchant_id, "m_2");
    assert_eq!(r.name, "Shop Two");
    assert_eq!(r.photo_url, "https://img/2.png");
    assert_eq!(r.payout_evm_address, "0xabc");
    assert_eq!(r.payout_svm_address, "sol123");
}

#[test]
fn get_merchant_missing_field_is_a_schema_mismatch() {
    let body = r#"{"merchant_id":"m_2","name":"Shop Two"}"#;
    let r = client().get_merchant("m_2", response(200, body));
    assert!(matches!(r.unwrap_err(), SettoError::Http { status: 200, .. }));
}

#[test]
fn update_merchant_success_reads_the_updated_profile() {
    let req = UpdateMerchantRequest {
        merchant_id: "m_3".to_string(),
        one_time_token: "ott_3".to_string(),
        name: None,
        photo_url: None,
        payout_evm_address: Some("0xnew".to_string()),
        payout_svm_address: None,
    };
    let body = r#"{
        "merchant_id": "m_3",
        "name": "Shop",
        "photo_url": "p",
        "payout_evm_address": "0xnew",
        "payout_svm_address": ""
    }"#;
    let r = client().update_merchant(&req, response(200, body)).unwrap();
    assert_eq!(r.payout_evm_address, "0xnew");
}

#[test]
fn update_merchant_token_errors_are_payment_errors() {
    let req = UpdateMerchantRequest {
        merchant_id: "m_3".to_string(),
        one_time_token: "ott_used".to_string(),
        name: None,
        photo_url: None,
        payout_evm_address: Some("0xnew".to_string()),
        payout_svm_address: None,
    };
    let body = r#"{"code":"PAYMENT_OTT_ALREADY_USED"}"#;
    let r = client().update_merchant(&req, response(403, body));
    assert_eq!(
        r.unwrap_err(),
        SettoError::Payment {
            code: PaymentErrorCode::OTT_ALREADY_USED.to_string(),
            http_status: 403,
        }
    );
}

#[test]
fn verification_status_success() {
    let body = r#"{"is_phone_verified":true,"verified_at":1700000001}"#;
    let r = client().get_verification_status("user_1", response(200, body)).unwrap();
    assert_eq!(
        r,
        VerificationStatus { is_phone_verified: true, verified_at: 1_700_000_001 }
    );
}

#[test]
fn account_link_exchange_success() {
    let body = r#"{"user_id":"u_1","email":"u@example.com","is_phone_verified":false}"#;
    let r = client().exchange_account_link_token("tok_1", response(200, body)).unwrap();
    assert_eq!(
        r,
        AccountLinkInfo {
            user_id: "u_1".to_string(),
            email: "u@example.com".to_string(),
            is_phone_verified: false,
        }
    );
}

#[test]
fn payment_status_success_with_optional_fields_present() {
    let body = r#"{
        "payment_id": "pay_1",
        "status": "included",
        "tx_hash": "0xhash",
        "amount": "10.50",
        "currency": "USDC",
        "created_at": 1700000000,
        "completed_at": 1700000100
    }"#;
    let r = client().get_payment_status("pay_1", response(200, body)).unwrap();
    assert_eq!(r.status, PaymentStatus::Included);
    assert_eq!(r.tx_hash.as_deref(), Some("0xhash"));
    assert_eq!(r.amount, "10.50");
    assert_eq!(r.completed_at, Some(1_700_000_100));
    assert!(r.is_complete());
}

#[test]
fn payment_status_success_with_null_and_absent_optionals() {
    let body = r#"{
        "payment_id": "pay_2",
        "status": "pending",
        "tx_hash": null,
        "amount": "1",
        "currency": "USDC",
        "created_at": 1700000000
    }"#;
    let r = client().get_payment_status("pay_2", response(200, body)).unwrap();
    assert_eq!(r.tx_hash, None);
    assert_eq!(r.completed_at, None);
    assert!(r.is_pending());
}

#[test]
fn payment_status_with_unknown_wire_status_is_a_schema_mismatch() {
    let body = r#"{
        "payment_id": "pay_3",
        "status": "Included",
        "amount": "1",
        "currency": "USDC",
        "created_at": 1700000000
    }"#;
    let r = client().get_payment_status("pay_3", response(200, body));
    assert!(matches!(r.unwrap_err(), SettoError::Http { status: 200, .. }));
}

#[test]
fn payment_status_with_wrongly_typed_optional_is_a_schema_mismatch() {
    let body = r#"{
        "payment_id": "pay_4",
        "status": "failed",
        "tx_hash": 7,
        "amount": "1",
        "currency": "USDC",
        "created_at": 1700000000
    }"#;
    let r = client().get_payment_status("pay_4", response(200, body));
    assert!(matches!(r.unwrap_err(), SettoError::Http { status: 200, .. }));
}

#[test]
fn all_wire_statuses_parse() {
    let cases = vec![
        ("pending", PaymentStatus::Pending),
        ("submitted", PaymentStatus::Submitted),
        ("included", PaymentStatus::Included),
        ("failed", PaymentStatus::Failed),
        ("cancelled", PaymentStatus::Cancelled),
    ];
    for (wire, expected) in cases {
        let body = format!(
            r#"{{"payment_id":"p","status":"{}","amount":"1","currency":"USDC","created_at":1}}"#,
            wire
        );
        let r = client().get_payment_status("p", response(200, &body)).unwrap();
        assert_eq!(r.status, expected);
    }
}

#[test]
fn recognized_code_constants_have_the_wire_spelling() {
    assert_eq!(SystemError::OK, "SYSTEM_OK");
    assert_eq!(SystemError::INTERNAL, "SYSTEM_INTERNAL");
    assert_eq!(SystemError::RPC_FAILED, "SYSTEM_RPC_FAILED");
    assert_eq!(SystemError::RATE_LIMITED, "SYSTEM_RATE_LIMITED");
    assert_eq!(PaymentErrorCode::OK, "PAYMENT_OK");
    assert_eq!(PaymentErrorCode::NOT_FOUND, "PAYMENT_NOT_FOUND");
    assert_eq!(PaymentErrorCode::MERCHANT_NOT_FOUND, "PAYMENT_MERCHANT_NOT_FOUND");
    assert_eq!(PaymentErrorCode::OTT_REQUIRED, "PAYMENT_OTT_REQUIRED");
    assert_eq!(PaymentErrorCode::OTT_INVALID, "PAYMENT_OTT_INVALID");
    assert_eq!(PaymentErrorCode::OTT_EXPIRED, "PAYMENT_OTT_EXPIRED");
    assert_eq!(PaymentErrorCode::OTT_ALREADY_USED, "PAYMENT_OTT_ALREADY_USED");
    assert_eq!(PaymentErrorCode::STORE_LIMIT_EXCEEDED, "PAYMENT_STORE_LIMIT_EXCEEDED");
}

#[test]
fn error_messages_name_the_category_and_detail() {
    let e = SettoError::System { code: "SYSTEM_INTERNAL".to_string(), http_status: 500 };
    assert_eq!(e.message(), "setto: system error: SYSTEM_INTERNAL");
    let e = SettoError::Payment { code: "PAYMENT_OTT_EXPIRED".to_string(), http_status: 403 };
    assert_eq!(e.message(), "setto: payment error: PAYMENT_OTT_EXPIRED");
    let e = SettoError::Validation { message: "bad address".to_string(), http_status: 422 };
    assert_eq!(e.message(), "setto: validation error: bad address");
    let e = SettoError::Http { status: 502, body: "<html>".to_string() };
    assert_eq!(e.message(), "setto: HTTP 502");
    let e = SettoError::Http { status: 7, body: String::new() };
    assert_eq!(e.message(), "setto: HTTP 7");
    let e = SettoError::Network { cause: "timed out".to_string() };
    assert_eq!(e.message(), "setto: network error: timed out");
}

#[test]
fn claims_are_carried_as_plain_data() {
    let claims = setto::Claims {
        user_id: "u_1".to_string(),
        email: "u@example.com".to_string(),
        email_verified: true,
        iat: 1_700_000_000,
        exp: 1_700_003_600,
    };
    assert_eq!(
        claims,
        setto::Claims {
            user_id: "u_1".to_string(),
            email: "u@example.com".to_string(),
            email_verified: true,
            iat: 1_700_000_000,
            exp: 1_700_003_600,
        }
    );
}

#[test]
fn an_object_with_no_fields_is_empty_braces() {
    assert_eq!(json_object(&Vec::new()), "{}");
}

use josekit::jwk::KeyPair;
use payment_router::enums::{DecryptionScheme, LockerChoice};
use payment_router::envelope::{
    get_dotted_jws, jwe_body_from_compact, jws_body_from_compact, JwsBody,
};
use payment_router::ids::{CustomerId, MerchantId, RequestId, TenantId};
use payment_router::json::{encode_jws_body, i64_dec, parse_jws_body};
use payment_router::transformers::{
    encode_store_locker_req, mk_add_locker_request_hs, mk_crud_locker_request,
    mk_delete_card_request_hs, mk_get_card_request, mk_get_card_request_hs, Locker, Method,
    RequestContent, StoreGenericReq, StoreLockerReq, TokenizePayloadEncrypted,
};
use payment_router::vault::{
    create_jwe_body_for_vault, get_decrypted_vault_response_payload, mk_basilisk_req,
    sign_vault_payload, Jwekey,
};

fn test_jwekey() -> Jwekey {
    let key_pair = josekit::jws::RS256.generate_key_pair(2048).unwrap();
    Jwekey {
        vault_encryption_key: key_pair.to_pem_public_key(),
        vault_private_key: key_pair.to_pem_private_key(),
    }
}

fn test_locker() -> Locker {
    Locker {
        host: String::from("https://vault.example.com"),
        basilisk_host: String::from("https://basilisk.example.com"),
        locker_signing_key_id: String::from("key_1"),
    }
}

#[test]
fn signed_payload_round_trips_through_envelope_and_vault() {
    let jwekey = test_jwekey();
    let payload: Vec<u8> = String::from("{\"status\":\"Ok\"}").into_bytes();

    // sign, then wrap for the vault
    let jws = sign_vault_payload(&payload, &String::from("key_1"), &jwekey).unwrap();
    assert_eq!(jws.split('.').count(), 3);

    let jwe_body = mk_basilisk_req(&jwekey, &jws, LockerChoice::HyperswitchCardVault).unwrap();

    // decrypting and checking the signature yields the original payload
    let recovered =
        get_decrypted_vault_response_payload(&jwekey, jwe_body, DecryptionScheme::RsaOaep)
            .unwrap();
    assert_eq!(recovered, "{\"status\":\"Ok\"}");
}

#[test]
fn create_jwe_body_round_trips_too() {
    let jwekey = test_jwekey();
    let payload: Vec<u8> = String::from("cards payload").into_bytes();
    let jws = sign_vault_payload(&payload, &String::from("key_1"), &jwekey).unwrap();
    let jwe_body = create_jwe_body_for_vault(&jwekey, &jws).unwrap();
    let recovered =
        get_decrypted_vault_response_payload(&jwekey, jwe_body, DecryptionScheme::RsaOaep)
            .unwrap();
    assert_eq!(recovered, "cards payload");
}

#[test]
fn dotted_jws_and_compact_parse_are_inverse() {
    let body = JwsBody {
        header: String::from("hdr"),
        payload: String::from("pay"),
        signature: String::from("sig"),
    };
    let dotted = get_dotted_jws(body);
    assert_eq!(dotted, "hdr.pay.sig");
    let parsed = jws_body_from_compact(&dotted).unwrap();
    assert_eq!(parsed.header, "hdr");
    assert_eq!(parsed.payload, "pay");
    assert_eq!(parsed.signature, "sig");
}

#[test]
fn compact_parse_rejects_too_few_parts() {
    assert!(jws_body_from_compact("only.two").is_none());
    assert!(jwe_body_from_compact("a.b.c.d").is_none());
    let jwe = jwe_body_from_compact("a.b.c.d.e").unwrap();
    assert_eq!(jwe.header, "a");
    assert_eq!(jwe.encrypted_key, "b");
    assert_eq!(jwe.iv, "c");
    assert_eq!(jwe.encrypted_payload, "d");
    assert_eq!(jwe.tag, "e");
}

#[test]
fn jws_body_json_round_trips() {
    let body = JwsBody {
        header: String::from("eyHdr"),
        payload: String::from("eyPay"),
        signature: String::from("eySig"),
    };
    let encoded = encode_jws_body(&body);
    assert_eq!(
        encoded,
        "{\"header\":\"eyHdr\",\"payload\":\"eyPay\",\"signature\":\"eySig\"}"
    );
    let parsed = parse_jws_body(&encoded).unwrap();
    assert_eq!(parsed.header, "eyHdr");
    assert_eq!(parsed.payload, "eyPay");
    assert_eq!(parsed.signature, "eySig");
}

#[test]
fn jws_body_json_parse_rejects_other_shapes() {
    assert!(parse_jws_body("{}").is_err());
    assert!(parse_jws_body("{\"header\":\"a\"}").is_err());
    assert!(parse_jws_body("not json at all").is_err());
}

#[test]
fn store_locker_request_encodes_expected_json() {
    let req = StoreLockerReq::LockerGeneric(StoreGenericReq {
        merchant_id: MerchantId(String::from("m_1")),
        merchant_customer_id: CustomerId(String::from("cust_1")),
        enc_data: String::from("AAAA"),
        ttl: 900,
    });
    let encoded = encode_store_locker_req(&req);
    assert_eq!(
        encoded,
        "{\"merchant_id\":\"m_1\",\"merchant_customer_id\":\"cust_1\",\"enc_card_data\":\"AAAA\",\"ttl\":900}"
    );
}

#[test]
fn json_escaping_rewrites_quotes_and_backslashes() {
    let req = StoreLockerReq::LockerGeneric(StoreGenericReq {
        merchant_id: MerchantId(String::from("m\"1")),
        merchant_customer_id: CustomerId(String::from("cu\\st")),
        enc_data: String::from("line\nbreak"),
        ttl: -5,
    });
    let encoded = encode_store_locker_req(&req);
    assert_eq!(
        encoded,
        "{\"merchant_id\":\"m\\\"1\",\"merchant_customer_id\":\"cu\\\\st\",\"enc_card_data\":\"line\\u000abreak\",\"ttl\":-5}"
    );
}

#[test]
fn decimal_rendering_matches_json() {
    assert_eq!(i64_dec(0), "0");
    assert_eq!(i64_dec(900), "900");
    assert_eq!(i64_dec(-42), "-42");
    assert_eq!(i64_dec(i64::MAX), "9223372036854775807");
    assert_eq!(i64_dec(i64::MIN), "-9223372036854775808");
}

#[test]
fn add_locker_request_posts_to_the_add_path() {
    let jwekey = test_jwekey();
    let locker = test_locker();
    let req = StoreLockerReq::LockerGeneric(StoreGenericReq {
        merchant_id: MerchantId(String::from("m_1")),
        merchant_customer_id: CustomerId(String::from("cust_1")),
        enc_data: String::from("AAAA"),
        ttl: 900,
    });
    let request = mk_add_locker_request_hs(
        &jwekey,
        &locker,
        &req,
        LockerChoice::HyperswitchCardVault,
        TenantId(String::from("tenant_1")),
        Some(RequestId(String::from("req-1"))),
    )
    .unwrap();
    assert_eq!(request.method, Method::Post);
    assert_eq!(request.url, "https://vault.example.com/cards/add");
    assert_eq!(request.headers.len(), 3);
    assert_eq!(request.headers[0].0, "Content-Type");
    assert_eq!(request.headers[0].1, "application/json");
    assert_eq!(request.headers[1].0, "x-tenant-id");
    assert_eq!(request.headers[1].1, "tenant_1");
    assert_eq!(request.headers[2].0, "x-request-id");
    assert_eq!(request.headers[2].1, "req-1");
    assert!(matches!(request.content, Some(RequestContent::JweJson(_))));
}

#[test]
fn get_and_delete_requests_post_to_their_paths() {
    let jwekey = test_jwekey();
    let locker = test_locker();
    let get = mk_get_card_request_hs(
        &jwekey,
        &locker,
        &CustomerId(String::from("cust_1")),
        &MerchantId(String::from("m_1")),
        "card_ref_1",
        None,
        TenantId(String::from("tenant_1")),
        None,
    )
    .unwrap();
    assert_eq!(get.url, "https://vault.example.com/cards/retrieve");
    assert_eq!(get.headers.len(), 2);

    let delete = mk_delete_card_request_hs(
        &jwekey,
        &locker,
        &CustomerId(String::from("cust_1")),
        &MerchantId(String::from("m_1")),
        "card_ref_1",
        TenantId(String::from("tenant_1")),
        None,
    )
    .unwrap();
    assert_eq!(delete.url, "https://vault.example.com/cards/delete");
    assert!(matches!(delete.content, Some(RequestContent::JweJson(_))));
}

#[test]
fn legacy_get_card_request_carries_form_body() {
    let locker = test_locker();
    let request = mk_get_card_request(&locker, "locker_m", "card_9").unwrap();
    assert_eq!(request.method, Method::Post);
    assert_eq!(request.url, "https://vault.example.com/card/getCard");
    match request.content {
        Some(RequestContent::FormUrlEncoded(g)) => {
            assert_eq!(g.merchant_id, "locker_m");
            assert_eq!(g.card_id, "card_9");
        }
        other => panic!("unexpected body {:?}", other),
    }
}

#[test]
fn crud_locker_request_keeps_its_payload_and_headers() {
    let locker = test_locker();
    let payload = TokenizePayloadEncrypted {
        payload: String::from("opaque"),
        key_id: String::from("key_1"),
        version: None,
    };
    let request = mk_crud_locker_request(
        &locker,
        "/tokenize",
        payload,
        TenantId(String::from("tenant_1")),
        None,
    )
    .unwrap();
    assert_eq!(request.url, "https://basilisk.example.com/tokenize");
    assert_eq!(request.headers[0].0, "Accept");
    assert_eq!(request.headers[1].0, "Content-Type");
    assert_eq!(request.headers[2].0, "x-tenant-id");
    match request.content {
        Some(RequestContent::TokenizeJson(t)) => {
            assert_eq!(t.payload, "opaque");
            assert_eq!(t.key_id, "key_1");
        }
        other => panic!("unexpected body {:?}", other),
    }
}

//! The vault ("locker") request and response shapes, and the builders that
//! turn them into signed, encrypted HTTP requests.
//!
//! A request body is encoded to its JSON wire form by the verified encoder,
//! signed, wrapped in an encrypted envelope, and placed in an HTTP request
//! whose method, URL and headers are pinned by the contracts.

use vstd::prelude::*;

use vstd::string::StrSliceExecFns;
use vstd::string::StringExecFns;

use crate::card::{Card, CardDetail, CardDetailFromLocker, CardNumber};
use crate::enums::{LockerChoice, PaymentMethodType};
use crate::envelope::JweBody;
use crate::errors::{ApiErrorResponse, SpecApiError, VaultError};
use crate::ids::{CustomerId, MerchantId, RequestId, TenantId};
use crate::json::{
    append_json_opt_string, append_json_string, i64_dec, spec_i64_dec, spec_json_opt_string,
    spec_json_string,
};
use crate::vault::{Jwekey, mk_basilisk_req, sign_vault_payload};

verus! {

/// Where the vault services are reached and how requests are signed.
#[derive(Debug)]
pub struct Locker {
    pub host: String,
    pub basilisk_host: String,
    pub locker_signing_key_id: String,
}

/// Whether the vault already held the card that was stored.
#[derive(Clone, Copy, Debug, PartialEq, Eq, Structural)]
pub enum DataDuplicationCheck {
    Duplicated,
    MetaDataChanged,
}

/// Store-card request body.
#[derive(Debug)]
pub struct StoreCardReq {
    pub merchant_id: MerchantId,
    pub merchant_customer_id: CustomerId,
    pub requestor_card_reference: Option<String>,
    pub card: Card,
    pub ttl: i64,
}

/// Store request for already-encrypted generic data.
#[derive(Debug)]
pub struct StoreGenericReq {
    pub merchant_id: MerchantId,
    pub merchant_customer_id: CustomerId,
    pub enc_data: String,
    pub ttl: i64,
}

/// What is sent to the vault to store a payment method.
#[derive(Debug)]
pub enum StoreLockerReq {
    LockerCard(StoreCardReq),
    LockerGeneric(StoreGenericReq),
}

impl StoreLockerReq {
    /// Record the caller's card reference on a card store request; a
    /// generic store request has no such field and is left unchanged.
    pub fn update_requestor_card_reference(&mut self, card_reference: Option<String>)
        ensures
            match *old(self) {
                StoreLockerReq::LockerCard(c) => *final(self) == (StoreLockerReq::LockerCard(
                    StoreCardReq { requestor_card_reference: card_reference, ..c },
                )),
                StoreLockerReq::LockerGeneric(_) => *final(self) == *old(self),
            },
    {
        match self {
            StoreLockerReq::LockerCard(c) => c.requestor_card_reference = card_reference,
            StoreLockerReq::LockerGeneric(_) => (),
        }
    }
}

/// The JSON wire form of a card, fields in declaration order.
pub open spec fn spec_card_json(c: Card) -> Seq<char> {
    "{\"card_number\":"@ + spec_json_string(c.card_number@) + ",\"name_on_card\":"@
        + spec_json_opt_string(c.name_on_card.deep_view()) + ",\"card_exp_month\":"@
        + spec_json_string(c.card_exp_month@) + ",\"card_exp_year\":"@ + spec_json_string(
        c.card_exp_year@,
    ) + ",\"card_brand\":"@ + spec_json_opt_string(c.card_brand.deep_view()) + ",\"card_isin\":"@
        + spec_json_opt_string(c.card_isin.deep_view()) + ",\"nick_name\":"@ + spec_json_opt_string(
        c.nick_name.deep_view(),
    ) + "}"@
}

fn append_card_json(out: &mut String, c: &Card)
    ensures
        final(out)@ == old(out)@ + spec_card_json(*c),
{
    out.append("{\"card_number\":");
    append_json_string(out, c.card_number.peek());
    out.append(",\"name_on_card\":");
    append_json_opt_string(out, &c.name_on_card);
    out.append(",\"card_exp_month\":");
    append_json_string(out, c.card_exp_month.as_str());
    out.append(",\"card_exp_year\":");
    append_json_string(out, c.card_exp_year.as_str());
    out.append(",\"card_brand\":");
    append_json_opt_string(out, &c.card_brand);
    out.append(",\"card_isin\":");
    append_json_opt_string(out, &c.card_isin);
    out.append(",\"nick_name\":");
    append_json_opt_string(out, &c.nick_name);
    out.append("}");
}

/// The JSON wire form of a store-card request: the card reference is left
/// out entirely when there is none.
pub open spec fn spec_store_card_req_json(r: StoreCardReq) -> Seq<char> {
    "{\"merchant_id\":"@ + spec_json_string(r.merchant_id@) + ",\"merchant_customer_id\":"@
        + spec_json_string(r.merchant_customer_id@) + (match r.requestor_card_reference {
        Some(reference) => ",\"requestor_card_reference\":"@ + spec_json_string(reference@),
        None => Seq::<char>::empty(),
    }) + ",\"card\":"@ + spec_card_json(r.card) + ",\"ttl\":"@ + spec_i64_dec(r.ttl as int) + "}"@
}

/// The JSON wire form of a generic store request; the encrypted data is
/// written under its wire name.
pub open spec fn spec_store_generic_req_json(r: StoreGenericReq) -> Seq<char> {
    "{\"merchant_id\":"@ + spec_json_string(r.merchant_id@) + ",\"merchant_customer_id\":"@
        + spec_json_string(r.merchant_customer_id@) + ",\"enc_card_data\":"@ + spec_json_string(
        r.enc_data@,
    ) + ",\"ttl\":"@ + spec_i64_dec(r.ttl as int) + "}"@
}

/// The JSON wire form of a store request: the chosen variant's object.
pub open spec fn spec_store_locker_req_json(r: StoreLockerReq) -> Seq<char> {
    match r {
        StoreLockerReq::LockerCard(c) => spec_store_card_req_json(c),
        StoreLockerReq::LockerGeneric(g) => spec_store_generic_req_json(g),
    }
}

/// Encode a store request to its JSON wire form.
pub fn encode_store_locker_req(r: &StoreLockerReq) -> (out: String)
    ensures
        out@ == spec_store_locker_req_json(*r),
{
    let mut out = String::new();
    match r {
        StoreLockerReq::LockerCard(c) => {
            out.append("{\"merchant_id\":");
            append_json_string(&mut out, c.merchant_id.get_string_repr());
            out.append(",\"merchant_customer_id\":");
            append_json_string(&mut out, c.merchant_customer_id.get_string_repr());
            match &c.requestor_card_reference {
                Some(reference) => {
                    out.append(",\"requestor_card_reference\":");
                    append_json_string(&mut out, reference.as_str());
                },
                None => {},
            }
            out.append(",\"card\":");
            append_card_json(&mut out, &c.card);
            out.append(",\"ttl\":");
            let ttl = i64_dec(c.ttl);
            out.append(ttl.as_str());
            out.append("}");
        },
        StoreLockerReq::LockerGeneric(g) => {
            out.append("{\"merchant_id\":");
            append_json_string(&mut out, g.merchant_id.get_string_repr());
            out.append(",\"merchant_customer_id\":");
            append_json_string(&mut out, g.merchant_customer_id.get_string_repr());
            out.append(",\"enc_card_data\":");
            append_json_string(&mut out, g.enc_data.as_str());
            out.append(",\"ttl\":");
            let ttl = i64_dec(g.ttl);
            out.append(ttl.as_str());
            out.append("}");
        },
    }
    out
}

/// What the vault answers to a store request.
#[derive(Debug)]
pub struct StoreCardResp {
    pub status: String,
    pub error_message: Option<String>,
    pub error_code: Option<String>,
    pub payload: Option<StoreCardRespPayload>,
}

/// The payload of a successful store response.
#[derive(Debug)]
pub struct StoreCardRespPayload {
    pub card_reference: String,
    pub duplication_check: Option<DataDuplicationCheck>,
}

/// Retrieve-card request body.
#[derive(Debug)]
pub struct CardReqBody {
    pub merchant_id: MerchantId,
    pub merchant_customer_id: CustomerId,
    pub card_reference: String,
}

/// The JSON wire form of a retrieve- or delete-card request.
pub open spec fn spec_card_req_body_json(
    merchant_id: Seq<char>,
    merchant_customer_id: Seq<char>,
    card_reference: Seq<char>,
) -> Seq<char> {
    "{\"merchant_id\":"@ + spec_json_string(merchant_id) + ",\"merchant_customer_id\":"@
        + spec_json_string(merchant_customer_id) + ",\"card_reference\":"@ + spec_json_string(
        card_reference,
    ) + "}"@
}

/// Encode a retrieve- or delete-card request body.
pub fn encode_card_req_body(r: &CardReqBody) -> (out: String)
    ensures
        out@ == spec_card_req_body_json(r.merchant_id@, r.merchant_customer_id@, r.card_reference@),
{
    let mut out = String::new();
    out.append("{\"merchant_id\":");
    append_json_string(&mut out, r.merchant_id.get_string_repr());
    out.append(",\"merchant_customer_id\":");
    append_json_string(&mut out, r.merchant_customer_id.get_string_repr());
    out.append(",\"card_reference\":");
    append_json_string(&mut out, r.card_reference.as_str());
    out.append("}");
    out
}

/// Retrieve- or delete-card request body keyed by a plain identifier; the
/// customer identifier stays a plain string for wire compatibility.
#[derive(Debug)]
pub struct CardReqBodyV2 {
    pub merchant_id: MerchantId,
    pub merchant_customer_id: String,
    pub card_reference: String,
}

/// Encode the plainly-keyed request body; same wire shape.
pub fn encode_card_req_body_v2(r: &CardReqBodyV2) -> (out: String)
    ensures
        out@ == spec_card_req_body_json(r.merchant_id@, r.merchant_customer_id@, r.card_reference@),
{
    let mut out = String::new();
    out.append("{\"merchant_id\":");
    append_json_string(&mut out, r.merchant_id.get_string_repr());
    out.append(",\"merchant_customer_id\":");
    append_json_string(&mut out, r.merchant_customer_id.as_str());
    out.append(",\"card_reference\":");
    append_json_string(&mut out, r.card_reference.as_str());
    out.append("}");
    out
}

/// What the vault answers to a retrieve request.
#[derive(Debug)]
pub struct RetrieveCardResp {
    pub status: String,
    pub error_message: Option<String>,
    pub error_code: Option<String>,
    pub payload: Option<RetrieveCardRespPayload>,
}

/// The payload of a successful retrieve response.
#[derive(Debug)]
pub struct RetrieveCardRespPayload {
    pub card: Option<Card>,
    pub enc_card_data: Option<String>,
}

/// Legacy add-card request.
#[derive(Debug)]
pub struct AddCardRequest {
    pub card_number: CardNumber,
    pub customer_id: CustomerId,
    pub card_exp_month: String,
    pub card_exp_year: String,
    pub merchant_id: MerchantId,
    pub email_address: Option<String>,
    pub name_on_card: Option<String>,
    pub nickname: Option<String>,
}

/// Legacy add-card response.
#[derive(Debug)]
pub struct AddCardResponse {
    pub card_id: String,
    pub external_id: String,
    pub card_fingerprint: String,
    pub card_global_fingerprint: String,
    pub merchant_id: Option<MerchantId>,
    pub card_number: Option<CardNumber>,
    pub card_exp_year: Option<String>,
    pub card_exp_month: Option<String>,
    pub name_on_card: Option<String>,
    pub nickname: Option<String>,
    pub customer_id: Option<CustomerId>,
    pub duplicate: Option<bool>,
}

/// Legacy add-payment-method response.
#[derive(Debug)]
pub struct AddPaymentMethodResponse {
    pub payment_method_id: String,
    pub external_id: String,
    pub merchant_id: Option<MerchantId>,
    pub nickname: Option<String>,
    pub customer_id: Option<CustomerId>,
    pub duplicate: Option<bool>,
    pub payment_method_data: String,
}

/// Wrapper of the legacy get-payment-method response.
#[derive(Debug)]
pub struct GetPaymentMethodResponse {
    pub payment_method: AddPaymentMethodResponse,
}

/// Wrapper of the legacy get-card response.
#[derive(Debug)]
pub struct GetCardResponse {
    pub card: AddCardResponse,
}

/// Body of the legacy get-card request.
#[derive(Debug)]
pub struct GetCard {
    pub merchant_id: String,
    pub card_id: String,
}

/// What the vault answers to a delete request.
#[derive(Debug)]
pub struct DeleteCardResponse {
    pub card_id: Option<String>,
    pub external_id: Option<String>,
    pub card_isin: Option<String>,
    pub status: String,
}

/// The delete outcome handed to callers.
#[derive(Debug)]
pub struct DeleteCardResp {
    pub status: String,
    pub error_message: Option<String>,
    pub error_code: Option<String>,
}

/// Per-gateway tokenization bookkeeping carried as free-form pairs.
#[derive(Debug)]
pub struct PaymentMethodMetadata {
    pub payment_method_tokenization: Vec<(String, String)>,
}

/// An encrypted tokenization payload passed through to the vault.
#[derive(Debug)]
pub struct TokenizePayloadEncrypted {
    pub payload: String,
    pub key_id: String,
    pub version: Option<String>,
}

impl Clone for TokenizePayloadEncrypted {
    fn clone(&self) -> (r: Self)
        ensures
            r == *self,
    {
        TokenizePayloadEncrypted {
            payload: self.payload.clone(),
            key_id: self.key_id.clone(),
            version: self.version.clone(),
        }
    }
}

/// HTTP method of an outbound request.
#[derive(Clone, Copy, Debug, PartialEq, Eq, Structural)]
pub enum Method {
    Get,
    Post,
    Put,
    Delete,
}

/// The typed body of an outbound request; serialization to the wire is the
/// transport's concern.
#[derive(Debug)]
pub enum RequestContent {
    JweJson(JweBody),
    TokenizeJson(TokenizePayloadEncrypted),
    FormUrlEncoded(GetCard),
}

/// An outbound HTTP request: method, URL, headers in insertion order, and
/// an optional typed body.
#[derive(Debug)]
pub struct Request {
    pub method: Method,
    pub url: String,
    pub headers: Vec<(String, String)>,
    pub content: Option<RequestContent>,
}

impl Request {
    /// A request with no headers and no body yet.
    pub fn new(method: Method, url: &str) -> (r: Request)
        ensures
            r.method == method,
            r.url@ == url@,
            r.headers.deep_view() == Seq::<(Seq<char>, Seq<char>)>::empty(),
            r.content is None,
    {
        let r = Request {
            method,
            url: url.to_owned(),
            headers: Vec::new(),
            content: None,
        };
        proof {
            assert(r.headers.deep_view() =~= Seq::<(Seq<char>, Seq<char>)>::empty());
        }
        r
    }

    /// Append one header.
    pub fn add_header(&mut self, name: &str, value: String)
        ensures
            final(self).method == old(self).method,
            final(self).url == old(self).url,
            final(self).content == old(self).content,
            final(self).headers.deep_view() == old(self).headers.deep_view().push(
                (name@, value@),
            ),
    {
        let ghost pre = self.headers.deep_view();
        self.headers.push((name.to_owned(), value));
        proof {
            assert(self.headers.deep_view() =~= pre.push(
                (self.headers@[pre.len() as int].0@, self.headers@[pre.len() as int].1@),
            ));
        }
    }

    /// The headers every outbound request carries.
    pub fn add_default_headers(&mut self)
        ensures
            final(self).method == old(self).method,
            final(self).url == old(self).url,
            final(self).content == old(self).content,
            final(self).headers.deep_view() == old(self).headers.deep_view().push(
                ("Accept"@, "application/json"@),
            ),
    {
        self.add_header("Accept", "application/json".to_owned());
    }

    /// Set the typed body.
    pub fn set_body(&mut self, content: RequestContent)
        ensures
            final(self).method == old(self).method,
            final(self).url == old(self).url,
            final(self).headers == old(self).headers,
            final(self).content == Some(content),
    {
        self.content = Some(content);
    }
}

/// The headers of a vault request: the JSON content type, the tenant, and
/// the request correlation identifier when one is known.
pub open spec fn spec_locker_headers(tenant: Seq<char>, request_id: Option<Seq<char>>) -> Seq<
    (Seq<char>, Seq<char>),
> {
    let base = seq![("Content-Type"@, "application/json"@), ("x-tenant-id"@, tenant)];
    match request_id {
        Some(rid) => base.push(("x-request-id"@, rid)),
        None => base,
    }
}

/// Add the vault request headers to a request.
fn add_locker_headers(request: &mut Request, tenant_id: &TenantId, request_id: &Option<RequestId>)
    ensures
        final(request).method == old(request).method,
        final(request).url == old(request).url,
        final(request).content == old(request).content,
        final(request).headers.deep_view() == old(request).headers.deep_view() + spec_locker_headers(
            tenant_id@,
            request_id.deep_view(),
        ),
{
    let ghost pre = request.headers.deep_view();
    request.add_header("Content-Type", "application/json".to_owned());
    request.add_header("x-tenant-id", tenant_id.get_string_repr().to_owned());
    match request_id {
        Some(req_id) => {
            request.add_header("x-request-id", req_id.as_hyphenated().to_owned());
            proof {
                assert(request.headers.deep_view() =~= pre + spec_locker_headers(
                    tenant_id@,
                    request_id.deep_view(),
                ));
            }
        },
        None => {
            proof {
                assert(request.headers.deep_view() =~= pre + spec_locker_headers(
                    tenant_id@,
                    request_id.deep_view(),
                ));
            }
        },
    }
}

/// Whether a built vault request has the expected shape: a POST to the
/// vault host under the given path, the vault headers, and an encrypted
/// envelope as its body.
pub open spec fn spec_locker_request_shape(
    r: Request,
    host: Seq<char>,
    path: Seq<char>,
    tenant: Seq<char>,
    request_id: Option<Seq<char>>,
) -> bool {
    &&& r.method == Method::Post
    &&& r.url@ == host + path
    &&& r.headers.deep_view() == spec_locker_headers(tenant, request_id)
    &&& r.content matches Some(RequestContent::JweJson(_))
}

/// Build the signed, encrypted store request: the body is encoded to its
/// JSON wire form, signed with the locker signing key, wrapped for the
/// chosen vault, and posted to its add-card path.
pub fn mk_add_locker_request_hs(
    jwekey: &Jwekey,
    locker: &Locker,
    payload: &StoreLockerReq,
    locker_choice: LockerChoice,
    tenant_id: TenantId,
    request_id: Option<RequestId>,
) -> (r: Result<Request, VaultError>)
    ensures
        r is Ok ==> spec_locker_request_shape(
            r->Ok_0,
            locker.host@,
            "/cards/add"@,
            tenant_id@,
            request_id.deep_view(),
        ),
{
    let encoded = encode_store_locker_req(payload);
    let payload_bytes = encoded.as_str().as_bytes_vec();

    let jws = match sign_vault_payload(&payload_bytes, &locker.locker_signing_key_id, jwekey) {
        Ok(s) => s,
        Err(e) => { return Err(e); },
    };

    let jwe_payload = match mk_basilisk_req(jwekey, jws.as_str(), locker_choice) {
        Ok(b) => b,
        Err(e) => { return Err(e); },
    };
    let mut url = match locker_choice {
        LockerChoice::HyperswitchCardVault => locker.host.clone(),
    };
    url.append("/cards/add");
    let mut request = Request::new(Method::Post, url.as_str());
    add_locker_headers(&mut request, &tenant_id, &request_id);
    request.set_body(RequestContent::JweJson(jwe_payload));
    proof {
        assert(Seq::<(Seq<char>, Seq<char>)>::empty() + spec_locker_headers(
            tenant_id@,
            request_id.deep_view(),
        ) =~= spec_locker_headers(tenant_id@, request_id.deep_view()));
    }
    Ok(request)
}

/// Build the signed, encrypted retrieve request for one stored card.
pub fn mk_get_card_request_hs(
    jwekey: &Jwekey,
    locker: &Locker,
    customer_id: &CustomerId,
    merchant_id: &MerchantId,
    card_reference: &str,
    locker_choice: Option<LockerChoice>,
    tenant_id: TenantId,
    request_id: Option<RequestId>,
) -> (r: Result<Request, VaultError>)
    ensures
        r is Ok ==> spec_locker_request_shape(
            r->Ok_0,
            locker.host@,
            "/cards/retrieve"@,
            tenant_id@,
            request_id.deep_view(),
        ),
{
    let merchant_customer_id = customer_id.clone();
    let card_req_body = CardReqBody {
        merchant_id: merchant_id.clone(),
        merchant_customer_id,
        card_reference: card_reference.to_owned(),
    };
    let encoded = encode_card_req_body(&card_req_body);
    let payload_bytes = encoded.as_str().as_bytes_vec();

    let jws = match sign_vault_payload(&payload_bytes, &locker.locker_signing_key_id, jwekey) {
        Ok(s) => s,
        Err(e) => { return Err(e); },
    };

    let target_locker = match locker_choice {
        Some(l) => l,
        None => LockerChoice::HyperswitchCardVault,
    };

    let jwe_payload = match mk_basilisk_req(jwekey, jws.as_str(), target_locker) {
        Ok(b) => b,
        Err(e) => { return Err(e); },
    };
    let mut url = match target_locker {
        LockerChoice::HyperswitchCardVault => locker.host.clone(),
    };
    url.append("/cards/retrieve");
    let mut request = Request::new(Method::Post, url.as_str());
    add_locker_headers(&mut request, &tenant_id, &request_id);
    request.set_body(RequestContent::JweJson(jwe_payload));
    proof {
        assert(Seq::<(Seq<char>, Seq<char>)>::empty() + spec_locker_headers(
            tenant_id@,
            request_id.deep_view(),
        ) =~= spec_locker_headers(tenant_id@, request_id.deep_view()));
    }
    Ok(request)
}

/// Build the signed, encrypted delete request for one stored card.
pub fn mk_delete_card_request_hs(
    jwekey: &Jwekey,
    locker: &Locker,
    customer_id: &CustomerId,
    merchant_id: &MerchantId,
    card_reference: &str,
    tenant_id: TenantId,
    request_id: Option<RequestId>,
) -> (r: Result<Request, VaultError>)
    ensures
        r is Ok ==> spec_locker_request_shape(
            r->Ok_0,
            locker.host@,
            "/cards/delete"@,
            tenant_id@,
            request_id.deep_view(),
        ),
{
    let merchant_customer_id = customer_id.clone();
    let card_req_body = CardReqBody {
        merchant_id: merchant_id.clone(),
        merchant_customer_id,
        card_reference: card_reference.to_owned(),
    };
    let encoded = encode_card_req_body(&card_req_body);
    let payload_bytes = encoded.as_str().as_bytes_vec();

    let jws = match sign_vault_payload(&payload_bytes, &locker.locker_signing_key_id, jwekey) {
        Ok(s) => s,
        Err(e) => { return Err(e); },
    };

    let jwe_payload = match mk_basilisk_req(
        jwekey,
        jws.as_str(),
        LockerChoice::HyperswitchCardVault,
    ) {
        Ok(b) => b,
        Err(e) => { return Err(e); },
    };

    let mut url = locker.host.clone();
    url.append("/cards/delete");
    let mut request = Request::new(Method::Post, url.as_str());
    add_locker_headers(&mut request, &tenant_id, &request_id);
    request.set_body(RequestContent::JweJson(jwe_payload));
    proof {
        assert(Seq::<(Seq<char>, Seq<char>)>::empty() + spec_locker_headers(
            tenant_id@,
            request_id.deep_view(),
        ) =~= spec_locker_headers(tenant_id@, request_id.deep_view()));
    }
    Ok(request)
}

/// Build the signed, encrypted delete request for a card referenced by a
/// plain identifier.
pub fn mk_delete_card_request_hs_by_id(
    jwekey: &Jwekey,
    locker: &Locker,
    id: &String,
    merchant_id: &MerchantId,
    card_reference: &str,
    tenant_id: TenantId,
    request_id: Option<RequestId>,
) -> (r: Result<Request, VaultError>)
    ensures
        r is Ok ==> spec_locker_request_shape(
            r->Ok_0,
            locker.host@,
            "/cards/delete"@,
            tenant_id@,
            request_id.deep_view(),
        ),
{
    let merchant_customer_id = id.clone();
    let card_req_body = CardReqBodyV2 {
        merchant_id: merchant_id.clone(),
        merchant_customer_id,
        card_reference: card_reference.to_owned(),
    };
    let encoded = encode_card_req_body_v2(&card_req_body);
    let payload_bytes = encoded.as_str().as_bytes_vec();

    let jws = match sign_vault_payload(&payload_bytes, &locker.locker_signing_key_id, jwekey) {
        Ok(s) => s,
        Err(e) => { return Err(e); },
    };

    let jwe_payload = match mk_basilisk_req(
        jwekey,
        jws.as_str(),
        LockerChoice::HyperswitchCardVault,
    ) {
        Ok(b) => b,
        Err(e) => { return Err(e); },
    };

    let mut url = locker.host.clone();
    url.append("/cards/delete");
    let mut request = Request::new(Method::Post, url.as_str());
    add_locker_headers(&mut request, &tenant_id, &request_id);
    request.set_body(RequestContent::JweJson(jwe_payload));
    proof {
        assert(Seq::<(Seq<char>, Seq<char>)>::empty() + spec_locker_headers(
            tenant_id@,
            request_id.deep_view(),
        ) =~= spec_locker_headers(tenant_id@, request_id.deep_view()));
    }
    Ok(request)
}

/// Build the legacy get-card request: a plain POST with the identifiers as
/// a form body.
pub fn mk_get_card_request(locker: &Locker, locker_id: &str, card_id: &str) -> (r: Result<
    Request,
    VaultError,
>)
    ensures
        r is Ok,
        r is Ok ==> ({
            let req = r->Ok_0;
            &&& req.method == Method::Post
            &&& req.url@ == locker.host@ + "/card/getCard"@
            &&& req.headers.deep_view() == Seq::<(Seq<char>, Seq<char>)>::empty()
            &&& (req.content matches Some(RequestContent::FormUrlEncoded(g)) && g.merchant_id@
                == locker_id@ && g.card_id@ == card_id@)
        }),
{
    let get_card_req = GetCard {
        merchant_id: locker_id.to_owned(),
        card_id: card_id.to_owned(),
    };

    let mut url = locker.host.clone();
    url.append("/card/getCard");
    let mut request = Request::new(Method::Post, url.as_str());
    request.set_body(RequestContent::FormUrlEncoded(get_card_req));
    Ok(request)
}

/// Reshape the legacy get-card response into a card; the number, month and
/// year are owed, the rest is optional.
pub fn mk_get_card_response(card: GetCardResponse) -> (r: Result<Card, ApiErrorResponse>)
    ensures
        r is Ok <==> (card.card.card_number is Some && card.card.card_exp_month is Some
            && card.card.card_exp_year is Some),
        r is Ok ==> ({
            let c = r->Ok_0;
            &&& c.card_number == card.card.card_number->0
            &&& c.name_on_card == card.card.name_on_card
            &&& c.card_exp_month == card.card.card_exp_month->0
            &&& c.card_exp_year == card.card.card_exp_year->0
            &&& c.card_brand is None
            &&& c.card_isin is None
            &&& c.nick_name == card.card.nickname
        }),
        r is Err ==> r->Err_0@ matches SpecApiError::MissingRequiredField { .. },
{
    let card_number = match card.card.card_number {
        Some(n) => n,
        None => {
            return Err(ApiErrorResponse::MissingRequiredField { field: "card_number".to_owned() });
        },
    };
    let card_exp_month = match card.card.card_exp_month {
        Some(m) => m,
        None => {
            return Err(
                ApiErrorResponse::MissingRequiredField { field: "card_exp_month".to_owned() },
            );
        },
    };
    let card_exp_year = match card.card.card_exp_year {
        Some(y) => y,
        None => {
            return Err(
                ApiErrorResponse::MissingRequiredField { field: "card_exp_year".to_owned() },
            );
        },
    };
    Ok(
        Card {
            card_number,
            name_on_card: card.card.name_on_card,
            card_exp_month,
            card_exp_year,
            card_brand: None,
            card_isin: None,
            nick_name: card.card.nickname,
        },
    )
}

/// Reshape the vault's delete response for callers; the vault reports no
/// error fields on this path.
pub fn mk_delete_card_response(response: DeleteCardResponse) -> (r: Result<
    DeleteCardResp,
    ApiErrorResponse,
>)
    ensures
        r is Ok,
        r->Ok_0.status == response.status,
        r->Ok_0.error_message is None,
        r->Ok_0.error_code is None,
{
    Ok(DeleteCardResp { status: response.status, error_message: None, error_code: None })
}

/// Build the crud request of the tokenize service: a POST under the
/// basilisk host carrying the encrypted payload, with the default and
/// vault headers.
pub fn mk_crud_locker_request(
    locker: &Locker,
    path: &str,
    req: TokenizePayloadEncrypted,
    tenant_id: TenantId,
    request_id: Option<RequestId>,
) -> (r: Result<Request, VaultError>)
    ensures
        r is Ok,
        r is Ok ==> ({
            let request = r->Ok_0;
            &&& request.method == Method::Post
            &&& request.url@ == locker.basilisk_host@ + path@
            &&& request.headers.deep_view() == seq![("Accept"@, "application/json"@)]
                + spec_locker_headers(tenant_id@, request_id.deep_view())
            &&& request.content == Some(RequestContent::TokenizeJson(req))
        }),
{
    let body = req.clone();
    let mut url = locker.basilisk_host.clone();
    url.append(path);
    let mut request = Request::new(Method::Post, url.as_str());
    request.add_default_headers();
    add_locker_headers(&mut request, &tenant_id, &request_id);
    request.set_body(RequestContent::TokenizeJson(body));
    proof {
        assert(Seq::<(Seq<char>, Seq<char>)>::empty().push(("Accept"@, "application/json"@))
            =~= seq![("Accept"@, "application/json"@)]);
    }
    Ok(request)
}


/// A bank account handed through the payout path.
#[derive(Debug)]
pub struct BankPayout {
    pub iban: Option<String>,
    pub bic: Option<String>,
    pub bank_name: Option<String>,
}

/// How a saved method is presented to the payer.
#[derive(Clone, Copy, Debug, PartialEq, Eq, Structural)]
pub enum PaymentExperience {
    RedirectToUrl,
}

/// The create request a payment-method response echoes fields of.
#[derive(Debug)]
pub struct PaymentMethodCreate {
    pub customer_id: Option<CustomerId>,
    pub payment_method: Option<PaymentMethodType>,
    pub payment_method_type: Option<String>,
    pub metadata: Option<String>,
    pub client_secret: Option<String>,
}

/// The payment-method response of the add paths.
#[derive(Debug)]
pub struct PaymentMethodResponse {
    pub merchant_id: MerchantId,
    pub customer_id: Option<CustomerId>,
    pub payment_method_id: String,
    pub payment_method: Option<PaymentMethodType>,
    pub payment_method_type: Option<String>,
    pub bank_transfer: Option<BankPayout>,
    pub card: Option<CardDetailFromLocker>,
    pub metadata: Option<String>,
    pub created: Option<u64>,
    pub recurring_enabled: Option<bool>,
    pub installment_payment_enabled: Option<bool>,
    pub payment_experience: Option<Vec<PaymentExperience>>,
    pub last_used_at: Option<u64>,
    pub client_secret: Option<String>,
}

/// Build the response of a bank add: the stored bank handed back under the
/// fresh reference, with recurring and installments off. The caller
/// supplies the clock reading recorded as creation and last use.
pub fn mk_add_bank_response_hs(
    bank: BankPayout,
    bank_reference: String,
    req: PaymentMethodCreate,
    merchant_id: &MerchantId,
    now: u64,
) -> (r: PaymentMethodResponse)
    ensures
        r.merchant_id == merchant_id,
        r.customer_id == req.customer_id,
        r.payment_method_id == bank_reference,
        r.payment_method == req.payment_method,
        r.payment_method_type == req.payment_method_type,
        r.bank_transfer == Some(bank),
        r.card is None,
        r.metadata == req.metadata,
        r.created == Some(now),
        r.recurring_enabled == Some(false),
        r.installment_payment_enabled == Some(false),
        (r.payment_experience matches Some(v) && v@ == seq![PaymentExperience::RedirectToUrl]),
        r.last_used_at == Some(now),
        r.client_secret is None,
{
    let mut payment_experience: Vec<PaymentExperience> = Vec::new();
    payment_experience.push(PaymentExperience::RedirectToUrl);
    proof {
        assert(payment_experience@ =~= seq![PaymentExperience::RedirectToUrl]);
    }
    PaymentMethodResponse {
        merchant_id: merchant_id.clone(),
        customer_id: req.customer_id,
        payment_method_id: bank_reference,
        payment_method: req.payment_method,
        payment_method_type: req.payment_method_type,
        bank_transfer: Some(bank),
        card: None,
        metadata: req.metadata,
        created: Some(now),
        recurring_enabled: Some(false),
        installment_payment_enabled: Some(false),
        payment_experience: Some(payment_experience),
        last_used_at: Some(now),
        client_secret: None,
    }
}

/// Build the response of a card add: the card's details in the locker
/// shape under the fresh reference, with recurring and installments off.
/// The caller supplies the clock reading recorded as creation and last
/// use.
pub fn mk_add_card_response_hs(
    card: CardDetail,
    card_reference: String,
    req: PaymentMethodCreate,
    merchant_id: &MerchantId,
    now: u64,
) -> (r: PaymentMethodResponse)
    requires
        card.card_number.wf(),
    ensures
        r.merchant_id == merchant_id,
        r.customer_id == req.customer_id,
        r.payment_method_id == card_reference,
        r.payment_method == req.payment_method,
        r.payment_method_type == req.payment_method_type,
        r.bank_transfer is None,
        (r.card matches Some(detail) && {
            &&& detail.scheme == card.card_network
            &&& (detail.last4_digits matches Some(l4) && l4@ == card.card_number@.subrange(
                card.card_number@.len() - 4,
                card.card_number@.len() as int,
            ))
            &&& detail.issuer_country == card.card_issuing_country
            &&& detail.card_number == Some(card.card_number)
            &&& detail.expiry_month == Some(card.card_exp_month)
            &&& detail.expiry_year == Some(card.card_exp_year)
            &&& detail.card_token is None
            &&& detail.card_fingerprint is None
            &&& detail.card_holder_name == card.card_holder_name
            &&& detail.nick_name == card.nick_name
            &&& (detail.card_isin matches Some(isin) && isin@ == card.card_number@.subrange(0, 6))
            &&& detail.card_issuer == card.card_issuer
            &&& detail.card_network == card.card_network
            &&& detail.card_type == card.card_type
            &&& detail.saved_to_locker
        }),
        r.metadata == req.metadata,
        r.created == Some(now),
        r.recurring_enabled == Some(false),
        r.installment_payment_enabled == Some(false),
        (r.payment_experience matches Some(v) && v@ == seq![PaymentExperience::RedirectToUrl]),
        r.last_used_at == Some(now),
        r.client_secret == req.client_secret,
{
    let card_number = card.card_number.clone();
    let last4_digits = card_number.get_last4();
    let card_isin = card_number.get_card_isin();

    let card_detail = CardDetailFromLocker {
        scheme: card.card_network.clone(),
        last4_digits: Some(last4_digits),
        issuer_country: card.card_issuing_country.clone(),
        card_number: Some(card.card_number.clone()),
        expiry_month: Some(card.card_exp_month.clone()),
        expiry_year: Some(card.card_exp_year.clone()),
        card_token: None,
        card_fingerprint: None,
        card_holder_name: card.card_holder_name.clone(),
        nick_name: card.nick_name.clone(),
        card_isin: Some(card_isin),
        card_issuer: card.card_issuer.clone(),
        card_network: card.card_network.clone(),
        card_type: card.card_type.clone(),
        saved_to_locker: true,
    };
    let mut payment_experience: Vec<PaymentExperience> = Vec::new();
    payment_experience.push(PaymentExperience::RedirectToUrl);
    proof {
        assert(payment_experience@ =~= seq![PaymentExperience::RedirectToUrl]);
    }
    PaymentMethodResponse {
        merchant_id: merchant_id.clone(),
        customer_id: req.customer_id,
        payment_method_id: card_reference,
        payment_method: req.payment_method,
        payment_method_type: req.payment_method_type,
        bank_transfer: None,
        card: Some(card_detail),
        metadata: req.metadata,
        created: Some(now),
        recurring_enabled: Some(false),
        installment_payment_enabled: Some(false),
        payment_experience: Some(payment_experience),
        last_used_at: Some(now),
        client_secret: req.client_secret,
    }
}

/// The fields of a card a caller may update in the vault.
#[derive(Debug)]
pub struct CardDetailUpdate {
    pub card_holder_name: Option<String>,
    pub nick_name: Option<String>,
}

/// The data vaulted for a payment method.
#[derive(Debug)]
pub enum PaymentMethodVaultingData {
    Card(CardDetail),
    NetworkToken(crate::payment_methods::NetworkTokenDetailsPaymentMethod),
}

/// The update a caller requests on vaulted data.
#[derive(Debug)]
pub enum PaymentMethodUpdateData {
    Card(CardDetailUpdate),
}

/// Merge an update into the vaulted card it addresses: the holder name and
/// nick name are overwritten where given, everything else is kept, and the
/// card verification code is never re-vaulted.
pub fn generate_pm_vaulting_req_from_update_request(
    pm_create: PaymentMethodVaultingData,
    pm_update: PaymentMethodUpdateData,
) -> (r: PaymentMethodVaultingData)
    requires
        pm_create is Card,
    ensures
        ({
            let card_create = pm_create->Card_0;
            let update_card = pm_update->Card_0;
            r == (PaymentMethodVaultingData::Card(
                CardDetail {
                    card_number: card_create.card_number,
                    card_exp_month: card_create.card_exp_month,
                    card_exp_year: card_create.card_exp_year,
                    card_issuing_country: card_create.card_issuing_country,
                    card_network: card_create.card_network,
                    card_issuer: card_create.card_issuer,
                    card_type: card_create.card_type,
                    card_holder_name: if update_card.card_holder_name is Some {
                        update_card.card_holder_name
                    } else {
                        card_create.card_holder_name
                    },
                    nick_name: if update_card.nick_name is Some {
                        update_card.nick_name
                    } else {
                        card_create.nick_name
                    },
                    card_cvc: None,
                },
            ))
        }),
{
    match (pm_create, pm_update) {
        (PaymentMethodVaultingData::Card(card_create), PaymentMethodUpdateData::Card(update_card)) => {
            PaymentMethodVaultingData::Card(
                CardDetail {
                    card_number: card_create.card_number,
                    card_exp_month: card_create.card_exp_month,
                    card_exp_year: card_create.card_exp_year,
                    card_issuing_country: card_create.card_issuing_country,
                    card_network: card_create.card_network,
                    card_issuer: card_create.card_issuer,
                    card_type: card_create.card_type,
                    card_holder_name: match update_card.card_holder_name {
                        Some(n) => Some(n),
                        None => card_create.card_holder_name,
                    },
                    nick_name: match update_card.nick_name {
                        Some(n) => Some(n),
                        None => card_create.nick_name,
                    },
                    card_cvc: None,
                },
            )
        },
        (PaymentMethodVaultingData::NetworkToken(_), _) => {
            // ruled out by the precondition
            proof {
                assert(false);
            }
            vstd::pervasive::unreached()
        },
    }
}

/// Reshape a card fetched from the vault into the locker shape, filling
/// scheme and issuer country from the stored payment method.
pub fn get_card_detail(
    pm: &crate::payment_methods::PaymentMethodRecord,
    response: Card,
) -> (r: Result<CardDetailFromLocker, VaultError>)
    requires
        response.card_number@.len() >= 4,
    ensures
        r is Ok,
        ({
            let detail = r->Ok_0;
            &&& detail.scheme == pm.scheme
            &&& detail.issuer_country == pm.issuer_country
            &&& (detail.last4_digits matches Some(l4) && l4@ == response.card_number@.subrange(
                response.card_number@.len() - 4,
                response.card_number@.len() as int,
            ))
            &&& detail.card_number == Some(response.card_number)
            &&& detail.expiry_month == Some(response.card_exp_month)
            &&& detail.expiry_year == Some(response.card_exp_year)
            &&& detail.card_token is None
            &&& detail.card_fingerprint is None
            &&& detail.card_holder_name == response.name_on_card
            &&& detail.nick_name == response.nick_name
            &&& detail.card_isin is None
            &&& detail.card_issuer is None
            &&& detail.card_network is None
            &&& detail.card_type is None
            &&& detail.saved_to_locker
        }),
{
    let card_number = response.card_number;
    let last4_digits = card_number.clone().get_last4();

    let card_detail = CardDetailFromLocker {
        scheme: pm.scheme.clone(),
        issuer_country: pm.issuer_country.clone(),
        last4_digits: Some(last4_digits),
        card_number: Some(card_number),
        expiry_month: Some(response.card_exp_month),
        expiry_year: Some(response.card_exp_year),
        card_token: None,
        card_fingerprint: None,
        card_holder_name: response.name_on_card,
        nick_name: response.nick_name,
        card_isin: None,
        card_issuer: None,
        card_network: None,
        card_type: None,
        saved_to_locker: true,
    };
    Ok(card_detail)
}

/// The first tokenized value of a card: the number and expiry with the
/// display fields.
#[derive(Debug)]
pub struct TokenizedCardValue1 {
    pub card_number: String,
    pub exp_year: String,
    pub exp_month: String,
    pub name_on_card: Option<String>,
    pub nickname: Option<String>,
    pub card_last_four: Option<String>,
    pub card_token: Option<String>,
}

/// The second tokenized value of a card: the secrets and references.
#[derive(Debug)]
pub struct TokenizedCardValue2 {
    pub card_security_code: Option<String>,
    pub card_fingerprint: Option<String>,
    pub external_id: Option<String>,
    pub customer_id: Option<CustomerId>,
    pub payment_method_id: Option<String>,
}

/// The JSON wire form of the first tokenized value.
pub open spec fn spec_tokenized_card_value1_json(
    card_number: Seq<char>,
    exp_year: Seq<char>,
    exp_month: Seq<char>,
    name_on_card: Option<Seq<char>>,
    nickname: Option<Seq<char>>,
    card_last_four: Option<Seq<char>>,
    card_token: Option<Seq<char>>,
) -> Seq<char> {
    "{\"card_number\":"@ + spec_json_string(card_number) + ",\"exp_year\":"@ + spec_json_string(
        exp_year,
    ) + ",\"exp_month\":"@ + spec_json_string(exp_month) + ",\"name_on_card\":"@
        + spec_json_opt_string(name_on_card) + ",\"nickname\":"@ + spec_json_opt_string(nickname)
        + ",\"card_last_four\":"@ + spec_json_opt_string(card_last_four) + ",\"card_token\":"@
        + spec_json_opt_string(card_token) + "}"@
}

/// The JSON wire form of the second tokenized value.
pub open spec fn spec_tokenized_card_value2_json(
    card_security_code: Option<Seq<char>>,
    card_fingerprint: Option<Seq<char>>,
    external_id: Option<Seq<char>>,
    customer_id: Option<Seq<char>>,
    payment_method_id: Option<Seq<char>>,
) -> Seq<char> {
    "{\"card_security_code\":"@ + spec_json_opt_string(card_security_code)
        + ",\"card_fingerprint\":"@ + spec_json_opt_string(card_fingerprint)
        + ",\"external_id\":"@ + spec_json_opt_string(external_id) + ",\"customer_id\":"@
        + spec_json_opt_string(customer_id) + ",\"payment_method_id\":"@ + spec_json_opt_string(
        payment_method_id,
    ) + "}"@
}

/// Encode the first tokenized value of a card to its JSON wire form.
pub fn mk_card_value1(
    card_number: CardNumber,
    exp_year: String,
    exp_month: String,
    name_on_card: Option<String>,
    nickname: Option<String>,
    card_last_four: Option<String>,
    card_token: Option<String>,
) -> (r: Result<String, VaultError>)
    ensures
        r is Ok,
        r->Ok_0@ == spec_tokenized_card_value1_json(
            card_number@,
            exp_year@,
            exp_month@,
            name_on_card.deep_view(),
            nickname.deep_view(),
            card_last_four.deep_view(),
            card_token.deep_view(),
        ),
{
    let value1 = TokenizedCardValue1 {
        card_number: card_number.peek().to_owned(),
        exp_year,
        exp_month,
        name_on_card,
        nickname,
        card_last_four,
        card_token,
    };
    let mut out = String::new();
    out.append("{\"card_number\":");
    append_json_string(&mut out, value1.card_number.as_str());
    out.append(",\"exp_year\":");
    append_json_string(&mut out, value1.exp_year.as_str());
    out.append(",\"exp_month\":");
    append_json_string(&mut out, value1.exp_month.as_str());
    out.append(",\"name_on_card\":");
    append_json_opt_string(&mut out, &value1.name_on_card);
    out.append(",\"nickname\":");
    append_json_opt_string(&mut out, &value1.nickname);
    out.append(",\"card_last_four\":");
    append_json_opt_string(&mut out, &value1.card_last_four);
    out.append(",\"card_token\":");
    append_json_opt_string(&mut out, &value1.card_token);
    out.append("}");
    Ok(out)
}

/// Encode the second tokenized value of a card to its JSON wire form.
pub fn mk_card_value2(
    card_security_code: Option<String>,
    card_fingerprint: Option<String>,
    external_id: Option<String>,
    customer_id: Option<CustomerId>,
    payment_method_id: Option<String>,
) -> (r: Result<String, VaultError>)
    ensures
        r is Ok,
        r->Ok_0@ == spec_tokenized_card_value2_json(
            card_security_code.deep_view(),
            card_fingerprint.deep_view(),
            external_id.deep_view(),
            (match customer_id {
                Some(c) => Some(c@),
                None => None,
            }),
            payment_method_id.deep_view(),
        ),
{
    let value2 = TokenizedCardValue2 {
        card_security_code,
        card_fingerprint,
        external_id,
        customer_id,
        payment_method_id,
    };
    let mut out = String::new();
    out.append("{\"card_security_code\":");
    append_json_opt_string(&mut out, &value2.card_security_code);
    out.append(",\"card_fingerprint\":");
    append_json_opt_string(&mut out, &value2.card_fingerprint);
    out.append(",\"external_id\":");
    append_json_opt_string(&mut out, &value2.external_id);
    out.append(",\"customer_id\":");
    match &value2.customer_id {
        Some(c) => {
            append_json_string(&mut out, c.get_string_repr());
        },
        None => {
            out.append("null");
        },
    }
    out.append(",\"payment_method_id\":");
    append_json_opt_string(&mut out, &value2.payment_method_id);
    out.append("}");
    Ok(out)
}

} // verus!

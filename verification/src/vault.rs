//! The card-vault envelope protocol: requests are signed and then
//! encrypted, responses are decrypted and then signature-checked.
//!
//! The cryptography is the outside crate's; each call stands behind one
//! trusted item whose contract says only what that crate's source shows.
//! Everything around the calls — the dotted serializations, the JSON body
//! of the signed envelope, and the chaining — is verified.

use vstd::prelude::*;

use vstd::string::StrSliceExecFns;

use crate::enums::{DecryptionScheme, LockerChoice};
use crate::envelope::{
    JweBody, JwsBody, SpecJwsBody, get_dotted_jwe, get_dotted_jws, jwe_body_from_compact,
    jws_body_from_compact, spec_dotted_jwe, spec_dotted_jws, split_dots,
};
use crate::errors::VaultError;
use crate::json::{encode_jws_body, parse_jws_body, spec_jws_body_json};

verus! {

/// Key material for the vault envelope: the vault's public encryption key
/// and this service's private signing key, both in PEM form.
#[derive(Debug)]
pub struct Jwekey {
    pub vault_encryption_key: Vec<u8>,
    pub vault_private_key: Vec<u8>,
}

/// The compact serialization josekit's RS256 signing returns for this
/// payload, key identifier and private key; it depends on those alone.
pub uninterp spec fn jws_compact_of(payload: Seq<u8>, kid: Seq<char>, key: Seq<u8>) -> Seq<char>;

/// The plain text josekit's RSA-OAEP decryption returns for this compact
/// serialization and private key; it depends on those and on the chosen
/// scheme alone.
pub uninterp spec fn jwe_plain_of(jwe: Seq<char>, key: Seq<u8>, oaep256: bool) -> Seq<char>;

/// The payload josekit's RS256 verification returns for this compact
/// serialization and public key; it depends on those alone.
pub uninterp spec fn jws_payload_of(jws: Seq<char>, key: Seq<u8>) -> Seq<char>;

/// Relies on josekit's `jws::serialize_compact` with an RS256 signer: the
/// compact serialization is three base64url parts joined by dots, and RS256
/// signing is deterministic in payload, key id and key.
#[verifier::external_body]
fn jws_sign_payload(payload: &Vec<u8>, key_id: &String, private_key_pem: &Vec<u8>) -> (r: Result<
    String,
    VaultError,
>)
    ensures
        r is Ok ==> r->Ok_0@ == jws_compact_of(payload@, key_id@, private_key_pem@),
        r is Ok ==> split_dots(r->Ok_0@).len() == 3,
        r is Err ==> r->Err_0 == VaultError::RequestEncodingFailed,
{
    let mut header = josekit::jws::JwsHeader::new();
    header.set_key_id(key_id);
    let signer = match josekit::jws::RS256.signer_from_pem(private_key_pem) {
        Ok(s) => s,
        Err(_) => { return Err(VaultError::RequestEncodingFailed); },
    };
    josekit::jws::serialize_compact(payload, &header, &signer).map_err(
        |_| VaultError::RequestEncodingFailed,
    )
}

/// Relies on josekit's `jwe::serialize_compact` with an RSA-OAEP encrypter
/// and A256GCM content encryption: the compact serialization is five
/// base64url parts joined by dots; the key and initialization vector are
/// drawn fresh, so nothing more is promised of the outcome.
#[verifier::external_body]
fn encrypt_jwe(payload: &Vec<u8>, public_key_pem: &Vec<u8>) -> (r: Result<String, VaultError>)
    ensures
        r is Ok ==> split_dots(r->Ok_0@).len() == 5,
{
    let mut header = josekit::jwe::JweHeader::new();
    header.set_content_encryption("A256GCM");
    let encrypter = match josekit::jwe::RSA_OAEP.encrypter_from_pem(public_key_pem) {
        Ok(e) => e,
        Err(_) => { return Err(VaultError::SaveCardFailed); },
    };
    josekit::jwe::serialize_compact(payload, &header, &encrypter).map_err(
        |_| VaultError::SaveCardFailed,
    )
}

/// Relies on josekit's `jwe::deserialize_compact` with the RSA-OAEP
/// decrypter: decryption of a given serialization under a given key is
/// deterministic.
#[verifier::external_body]
fn decrypt_jwe_oaep(jwe: &String, private_key_pem: &Vec<u8>) -> (r: Result<String, VaultError>)
    ensures
        r is Ok ==> r->Ok_0@ == jwe_plain_of(jwe@, private_key_pem@, false),
{
    let decrypter = match josekit::jwe::RSA_OAEP.decrypter_from_pem(private_key_pem) {
        Ok(d) => d,
        Err(_) => { return Err(VaultError::SaveCardFailed); },
    };
    let (plain, _header) = match josekit::jwe::deserialize_compact(jwe, &decrypter) {
        Ok(p) => p,
        Err(_) => { return Err(VaultError::SaveCardFailed); },
    };
    String::from_utf8(plain).map_err(|_| VaultError::ResponseDeserializationFailed)
}

/// Relies on josekit's `jwe::deserialize_compact` with the RSA-OAEP-256
/// decrypter: decryption of a given serialization under a given key is
/// deterministic.
#[verifier::external_body]
fn decrypt_jwe_oaep256(jwe: &String, private_key_pem: &Vec<u8>) -> (r: Result<String, VaultError>)
    ensures
        r is Ok ==> r->Ok_0@ == jwe_plain_of(jwe@, private_key_pem@, true),
{
    let decrypter = match josekit::jwe::RSA_OAEP_256.decrypter_from_pem(private_key_pem) {
        Ok(d) => d,
        Err(_) => { return Err(VaultError::SaveCardFailed); },
    };
    let (plain, _header) = match josekit::jwe::deserialize_compact(jwe, &decrypter) {
        Ok(p) => p,
        Err(_) => { return Err(VaultError::SaveCardFailed); },
    };
    String::from_utf8(plain).map_err(|_| VaultError::ResponseDeserializationFailed)
}

/// Decrypt a compact envelope under the scheme the merchant configured.
fn decrypt_jwe(jwe: &String, private_key_pem: &Vec<u8>, decryption_scheme: DecryptionScheme) -> (r:
    Result<String, VaultError>)
    ensures
        r is Ok ==> r->Ok_0@ == jwe_plain_of(
            jwe@,
            private_key_pem@,
            decryption_scheme == DecryptionScheme::RsaOaep256,
        ),
{
    match decryption_scheme {
        DecryptionScheme::RsaOaep => decrypt_jwe_oaep(jwe, private_key_pem),
        DecryptionScheme::RsaOaep256 => decrypt_jwe_oaep256(jwe, private_key_pem),
    }
}

/// Relies on josekit's `jws::deserialize_compact` with the RS256 verifier:
/// the payload a verified serialization carries is deterministic in the
/// serialization and the key.
#[verifier::external_body]
fn verify_sign(jws_body: String, public_key_pem: &Vec<u8>) -> (r: Result<String, VaultError>)
    ensures
        r is Ok ==> r->Ok_0@ == jws_payload_of(jws_body@, public_key_pem@),
{
    let verifier = match josekit::jws::RS256.verifier_from_pem(public_key_pem) {
        Ok(v) => v,
        Err(_) => { return Err(VaultError::SaveCardFailed); },
    };
    let (payload, _header) = match josekit::jws::deserialize_compact(&jws_body, &verifier) {
        Ok(p) => p,
        Err(_) => { return Err(VaultError::SaveCardFailed); },
    };
    String::from_utf8(payload).map_err(|_| VaultError::ResponseDeserializationFailed)
}

/// What a decrypted-and-verified vault response payload is, when one comes
/// back: the decrypted text is the JSON of a signed envelope, and the
/// result is that envelope's verified payload.
pub open spec fn spec_decrypted_payload_ok(
    jwe_body: crate::envelope::SpecJweBody,
    private_key: Seq<u8>,
    public_key: Seq<u8>,
    oaep256: bool,
    result: Seq<char>,
) -> bool {
    exists|b: SpecJwsBody|
        #[trigger] spec_jws_body_json(b) == jwe_plain_of(spec_dotted_jwe(jwe_body), private_key, oaep256)
            && result == jws_payload_of(spec_dotted_jws(b), public_key)
}

/// Decrypt a vault response envelope addressed by locker choice and check
/// its signature: the envelope is joined to its compact form, decrypted,
/// read back as a signed envelope, and verified against the vault's key.
pub fn get_decrypted_response_payload(
    jwekey: &Jwekey,
    jwe_body: JweBody,
    locker_choice: Option<LockerChoice>,
    decryption_scheme: DecryptionScheme,
) -> (r: Result<String, VaultError>)
    ensures
        r is Ok ==> spec_decrypted_payload_ok(
            jwe_body@,
            jwekey.vault_private_key@,
            jwekey.vault_encryption_key@,
            decryption_scheme == DecryptionScheme::RsaOaep256,
            r->Ok_0@,
        ),
        r is Err ==> (r->Err_0 == VaultError::SaveCardFailed || r->Err_0
            == VaultError::ResponseDeserializationFailed),
{
    let target_locker = match locker_choice {
        Some(l) => l,
        None => LockerChoice::HyperswitchCardVault,
    };
    let public_key = match target_locker {
        LockerChoice::HyperswitchCardVault => &jwekey.vault_encryption_key,
    };
    let private_key = &jwekey.vault_private_key;

    let jwt = get_dotted_jwe(jwe_body);
    let jwe_decrypted = match decrypt_jwe(&jwt, private_key, decryption_scheme) {
        Ok(p) => p,
        Err(_) => { return Err(VaultError::SaveCardFailed); },
    };

    let jws = match parse_jws_body(jwe_decrypted.as_str()) {
        Ok(b) => b,
        Err(e) => { return Err(e); },
    };
    let jws_body = get_dotted_jws(jws);

    match verify_sign(jws_body, public_key) {
        Ok(payload) => Ok(payload),
        Err(_) => Err(VaultError::SaveCardFailed),
    }
}

/// Decrypt a vault response envelope and check its signature, against the
/// one configured vault.
pub fn get_decrypted_vault_response_payload(
    jwekey: &Jwekey,
    jwe_body: JweBody,
    decryption_scheme: DecryptionScheme,
) -> (r: Result<String, VaultError>)
    ensures
        r is Ok ==> spec_decrypted_payload_ok(
            jwe_body@,
            jwekey.vault_private_key@,
            jwekey.vault_encryption_key@,
            decryption_scheme == DecryptionScheme::RsaOaep256,
            r->Ok_0@,
        ),
        r is Err ==> (r->Err_0 == VaultError::SaveCardFailed || r->Err_0
            == VaultError::ResponseDeserializationFailed),
{
    let public_key = &jwekey.vault_encryption_key;
    let private_key = &jwekey.vault_private_key;

    let jwt = get_dotted_jwe(jwe_body);
    let jwe_decrypted = match decrypt_jwe(&jwt, private_key, decryption_scheme) {
        Ok(p) => p,
        Err(_) => { return Err(VaultError::SaveCardFailed); },
    };

    let jws = match parse_jws_body(jwe_decrypted.as_str()) {
        Ok(b) => b,
        Err(e) => { return Err(e); },
    };
    let jws_body = get_dotted_jws(jws);

    match verify_sign(jws_body, public_key) {
        Ok(payload) => Ok(payload),
        Err(_) => Err(VaultError::SaveCardFailed),
    }
}

/// Wrap a compact signed envelope for the chosen vault: read it back as
/// its three parts, encode those as the JSON object, encrypt that object,
/// and hand back the encrypted envelope's five parts.
pub fn mk_basilisk_req(jwekey: &Jwekey, jws: &str, locker_choice: LockerChoice) -> (r: Result<
    JweBody,
    VaultError,
>)
    ensures
        r is Ok ==> split_dots(jws@).len() >= 3,
        r is Err ==> r->Err_0 == VaultError::SaveCardFailed,
{
    let jws_body = match jws_body_from_compact(jws) {
        Some(b) => b,
        None => { return Err(VaultError::SaveCardFailed); },
    };
    let payload = encode_jws_body(&jws_body);
    let payload_bytes = payload.as_str().as_bytes_vec();

    let public_key = match locker_choice {
        LockerChoice::HyperswitchCardVault => &jwekey.vault_encryption_key,
    };

    let jwe_encrypted = match encrypt_jwe(&payload_bytes, public_key) {
        Ok(e) => e,
        Err(_) => { return Err(VaultError::SaveCardFailed); },
    };
    match jwe_body_from_compact(jwe_encrypted.as_str()) {
        Some(b) => Ok(b),
        None => Err(VaultError::SaveCardFailed),
    }
}

/// Wrap a compact signed envelope for the vault, reporting encoding and
/// encryption failures apart.
pub fn create_jwe_body_for_vault(jwekey: &Jwekey, jws: &str) -> (r: Result<JweBody, VaultError>)
    ensures
        r is Ok ==> split_dots(jws@).len() >= 3,
        split_dots(jws@).len() < 3 ==> r is Err && r->Err_0
            == VaultError::RequestEncryptionFailed,
        r is Err ==> (r->Err_0 == VaultError::RequestEncryptionFailed || r->Err_0
            == VaultError::RequestEncodingFailed || r->Err_0 == VaultError::SaveCardFailed),
{
    let jws_body = match jws_body_from_compact(jws) {
        Some(b) => b,
        None => { return Err(VaultError::RequestEncryptionFailed); },
    };
    let payload = encode_jws_body(&jws_body);
    let payload_bytes = payload.as_str().as_bytes_vec();

    let public_key = &jwekey.vault_encryption_key;

    let jwe_encrypted = match encrypt_jwe(&payload_bytes, public_key) {
        Ok(e) => e,
        Err(_) => { return Err(VaultError::SaveCardFailed); },
    };
    match jwe_body_from_compact(jwe_encrypted.as_str()) {
        Some(b) => Ok(b),
        None => Err(VaultError::RequestEncodingFailed),
    }
}

/// Sign a payload for the vault with this service's key.
pub fn sign_vault_payload(payload: &Vec<u8>, key_id: &String, jwekey: &Jwekey) -> (r: Result<
    String,
    VaultError,
>)
    ensures
        r is Ok ==> r->Ok_0@ == jws_compact_of(payload@, key_id@, jwekey.vault_private_key@),
        r is Ok ==> split_dots(r->Ok_0@).len() == 3,
        r is Err ==> r->Err_0 == VaultError::RequestEncodingFailed,
{
    jws_sign_payload(payload, key_id, &jwekey.vault_private_key)
}

} // verus!

//! Cryptographic signers behind the `Identity` command: key material and
//! principal derivation live in outside crates and are called through
//! trusted wrappers; the resolution and caching policy around them is
//! verified in the interpreter.

use vstd::prelude::*;
use std::sync::Arc;
use ic_agent::Identity;
use pkcs8::der::{Decode, SliceReader};

verus! {

#[verifier::external_type_specification]
#[verifier::external_body]
pub struct ExSigningKey(ed25519_consensus::SigningKey);

#[verifier::external_type_specification]
#[verifier::external_body]
pub struct ExBasicIdentity(ic_agent::identity::BasicIdentity);

#[verifier::external_type_specification]
#[verifier::external_body]
pub struct ExSecp256k1Identity(ic_agent::identity::Secp256k1Identity);

#[verifier::external_type_specification]
#[verifier::external_body]
pub struct ExHardwareIdentity(ic_identity_hsm::HardwareIdentity);

/// A resolved signing identity; shared between the identity cache and the
/// session's active-signer slot.
#[derive(Clone)]
pub enum Signer {
    Basic(Arc<ic_agent::identity::BasicIdentity>),
    Secp(Arc<ic_agent::identity::Secp256k1Identity>),
    Hsm(Arc<ic_identity_hsm::HardwareIdentity>),
}

/// Relies on ed25519-consensus's `SigningKey::new` seeded from rand's
/// `thread_rng`: freshly generated random key material; nothing is promised
/// of its value.
#[verifier::external_body]
pub(crate) fn fresh_signing_key() -> ed25519_consensus::SigningKey {
    ed25519_consensus::SigningKey::new(rand::thread_rng())
}

/// Relies on ic-agent's `BasicIdentity::from_signing_key`: an ed25519 signer
/// over the given key.
#[allow(deprecated)]
#[verifier::external_body]
pub(crate) fn basic_from_key(key: ed25519_consensus::SigningKey) -> ic_agent::identity::BasicIdentity {
    ic_agent::identity::BasicIdentity::from_signing_key(key)
}

pub uninterp spec fn secp_pem_ok(content: Seq<u8>) -> bool;

/// Relies on ic-agent's `Secp256k1Identity::from_pem`: whether PEM text
/// holds a usable secp256k1 key is a function of the text alone.
#[verifier::external_body]
pub(crate) fn secp_from_pem(content: &Vec<u8>) -> (r: Result<
    ic_agent::identity::Secp256k1Identity,
    String,
>)
    ensures
        r is Ok <==> secp_pem_ok(content@),
{
    match ic_agent::identity::Secp256k1Identity::from_pem(content.as_slice()) {
        Ok(i) => Ok(i),
        Err(e) => Err(format!("{e}")),
    }
}

pub uninterp spec fn basic_pem_ok(content: Seq<u8>) -> bool;

/// Relies on pem's `parse` and pkcs8's `PrivateKeyInfo::decode`, the same
/// parsers `BasicIdentity::from_pem` runs first: whether the PEM wrapping
/// and the PKCS#8 container are well formed is a function of the text alone.
/// This stands guard before `basic_from_pem`: ic-agent's legacy-container
/// branch in `BasicIdentity::from_pem` indexes bytes 48..52 of the decoded
/// contents without a length check (its secp256k1 twin,
/// `parse_ec_pkcs8_key_bytes`, checks `len() >= 52` first), so contents
/// shorter than 52 bytes that do not decode cleanly would abort the process
/// there. Such contents can only be malformed keys, and are reported as such.
#[verifier::external_body]
fn basic_pem_panic_free(content: &Vec<u8>) -> bool {
    let Ok(p) = pem::parse(content.as_slice()) else {
        return true;
    };
    let c = p.contents();
    if c.len() >= 52 {
        return true;
    }
    match SliceReader::new(c) {
        Ok(mut r) => pkcs8::PrivateKeyInfo::decode(&mut r).is_ok(),
        Err(_) => false,
    }
}

/// Relies on ic-agent's `BasicIdentity::from_pem`: whether PEM text holds a
/// usable ed25519 key is a function of the text alone. Contents on which the
/// call's unguarded legacy-container branch would panic (see
/// `basic_pem_panic_free`) are rejected as malformed keys before the call.
#[verifier::external_body]
pub(crate) fn basic_from_pem(content: &Vec<u8>) -> (r: Result<
    ic_agent::identity::BasicIdentity,
    String,
>)
    ensures
        r is Ok <==> basic_pem_ok(content@),
{
    if !basic_pem_panic_free(content) {
        return Err("invalid PKCS#8 ed25519 key material".to_string());
    }
    match ic_agent::identity::BasicIdentity::from_pem(content.as_slice()) {
        Ok(i) => Ok(i),
        Err(e) => Err(format!("{e}")),
    }
}

/// Relies on ic-agent's `Identity::sender` for `BasicIdentity`: the
/// principal the signer authenticates as, in textual form. Per the source it
/// is always derived from the held public key and never fails.
#[verifier::external_body]
fn basic_sender(s: &Arc<ic_agent::identity::BasicIdentity>) -> (r: Result<String, String>)
    ensures
        r is Ok,
{
    match s.sender() {
        Ok(p) => Ok(p.to_text()),
        Err(e) => Err(e),
    }
}

/// Relies on ic-agent's `Identity::sender` for `Secp256k1Identity`: the
/// principal the signer authenticates as, in textual form. Per the source it
/// is always derived from the held public key and never fails.
#[verifier::external_body]
fn secp_sender(s: &Arc<ic_agent::identity::Secp256k1Identity>) -> (r: Result<String, String>)
    ensures
        r is Ok,
{
    match s.sender() {
        Ok(p) => Ok(p.to_text()),
        Err(e) => Err(e),
    }
}

/// Relies on ic-identity-hsm's `Identity::sender` for `HardwareIdentity`:
/// the principal the signer authenticates as, in textual form. Per the
/// source it is always derived from the held public key and never fails.
#[verifier::external_body]
fn hsm_sender(s: &Arc<ic_identity_hsm::HardwareIdentity>) -> (r: Result<String, String>)
    ensures
        r is Ok,
{
    match s.sender() {
        Ok(p) => Ok(p.to_text()),
        Err(e) => Err(e),
    }
}

/// The principal a resolved signer authenticates as.
pub fn signer_sender(s: &Signer) -> (r: Result<String, String>)
    ensures
        r is Ok,
{
    match s {
        Signer::Basic(b) => basic_sender(b),
        Signer::Secp(k) => secp_sender(k),
        Signer::Hsm(h) => hsm_sender(h),
    }
}

} // verus!

use vstd::prelude::*;
use rand::rngs::OsRng;
use rsa::pkcs1::{DecodeRsaPrivateKey, DecodeRsaPublicKey};
use rsa::{Pkcs1v15Encrypt, RsaPrivateKey, RsaPublicKey};

verus! {

#[verifier::external_type_specification]
#[verifier::external_body]
pub struct ExRsaPrivateKey(RsaPrivateKey);

#[verifier::external_type_specification]
#[verifier::external_body]
pub struct ExRsaPublicKey(RsaPublicKey);

/// Whether the bytes are a PKCS#1 DER private key that decodes.
pub uninterp spec fn private_der_decodes(b: Seq<u8>) -> bool;

/// Whether the bytes are a PKCS#1 DER public key that decodes.
pub uninterp spec fn public_der_decodes(b: Seq<u8>) -> bool;

/// Relies on `DecodeRsaPrivateKey::from_pkcs1_der` for `rsa::RsaPrivateKey`:
/// whether it decodes depends on the bytes alone.
#[verifier::external_body]
fn decode_private(der: &Vec<u8>) -> (r: Option<RsaPrivateKey>)
    ensures
        r.is_some() == private_der_decodes(der@),
{
    RsaPrivateKey::from_pkcs1_der(der.as_slice()).ok()
}

/// Relies on `DecodeRsaPublicKey::from_pkcs1_der` for `rsa::RsaPublicKey`:
/// whether it decodes depends on the bytes alone.
#[verifier::external_body]
fn decode_public(der: &Vec<u8>) -> (r: Option<RsaPublicKey>)
    ensures
        r.is_some() == public_der_decodes(der@),
{
    RsaPublicKey::from_pkcs1_der(der.as_slice()).ok()
}

/// Relies on `rsa::RsaPrivateKey::decrypt` with PKCS#1 v1.5 padding.
#[verifier::external_body]
fn decrypt_with(key: &RsaPrivateKey, ciphertext: &Vec<u8>) -> Option<Vec<u8>> {
    key.decrypt(Pkcs1v15Encrypt, ciphertext.as_slice()).ok()
}

/// Relies on `rsa::RsaPublicKey::encrypt` with PKCS#1 v1.5 padding and the
/// operating system's random source; the padding is random.
#[verifier::external_body]
fn encrypt_with(key: &RsaPublicKey, data: &Vec<u8>) -> Option<Vec<u8>> {
    key.encrypt(&mut OsRng, Pkcs1v15Encrypt, data.as_slice()).ok()
}

/// A node's RSA key pair, kept as PKCS#1 DER documents.
pub struct RsaKeyPairNode {
    private_key: Vec<u8>,
    public_key: Vec<u8>,
}

impl RsaKeyPairNode {
    pub closed spec fn private_der(&self) -> Seq<u8> {
        self.private_key@
    }

    pub closed spec fn public_der(&self) -> Seq<u8> {
        self.public_key@
    }

    /// A key pair from its two DER documents.
    pub fn from_der(private_key: Vec<u8>, public_key: Vec<u8>) -> (r: Self)
        ensures
            r.private_der() == private_key@,
            r.public_der() == public_key@,
    {
        RsaKeyPairNode { private_key, public_key }
    }

    /// The private key, or nothing when its document does not decode.
    pub fn get_private_key(&self) -> (r: Option<RsaPrivateKey>)
        ensures
            r.is_some() == private_der_decodes(self.private_der()),
    {
        decode_private(&self.private_key)
    }

    /// The public key, or nothing when its document does not decode.
    pub fn get_public_key(&self) -> (r: Option<RsaPublicKey>)
        ensures
            r.is_some() == public_der_decodes(self.public_der()),
    {
        decode_public(&self.public_key)
    }

    /// `data` encrypted to the public key; nothing when the key does not
    /// decode or the data is too long for it.
    pub fn encrypt(&self, data: &Vec<u8>) -> (r: Option<Vec<u8>>)
        ensures
            r.is_some() ==> public_der_decodes(self.public_der()),
    {
        match self.get_public_key() {
            Some(key) => encrypt_with(&key, data),
            None => None,
        }
    }

    /// `ciphertext` decrypted with the private key; nothing when the key does
    /// not decode or the ciphertext is not valid for it.
    pub fn decrypt(&self, ciphertext: &Vec<u8>) -> (r: Option<Vec<u8>>)
        ensures
            r.is_some() ==> private_der_decodes(self.private_der()),
    {
        match self.get_private_key() {
            Some(key) => decrypt_with(&key, ciphertext),
            None => None,
        }
    }
}

} // verus!

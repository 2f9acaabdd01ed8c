use pulse::keys::RsaKeyPairNode;
use rand::rngs::OsRng;
use rsa::pkcs1::{EncodeRsaPrivateKey, EncodeRsaPublicKey};
use rsa::{RsaPrivateKey, RsaPublicKey};

fn key_pair() -> (RsaPrivateKey, RsaKeyPairNode) {
    let private = RsaPrivateKey::new(&mut OsRng, 512).unwrap();
    let public = RsaPublicKey::from(&private);
    let private_der = private.to_pkcs1_der().unwrap().as_bytes().to_vec();
    let public_der = public.to_pkcs1_der().unwrap().as_bytes().to_vec();
    (private, RsaKeyPairNode::from_der(private_der, public_der))
}

#[test]
fn keys_decode_from_their_documents() {
    let (private, node) = key_pair();
    assert_eq!(node.get_private_key(), Some(private.clone()));
    assert_eq!(node.get_public_key(), Some(RsaPublicKey::from(&private)));
}

#[test]
fn encrypt_then_decrypt() {
    let (_, node) = key_pair();
    let secret = b"meet at the trunk".to_vec();
    let c = node.encrypt(&secret).unwrap();
    assert_ne!(c, secret);
    assert_eq!(node.decrypt(&c), Some(secret));
}

#[test]
fn bad_documents_and_ciphertexts_fail() {
    let bad = RsaKeyPairNode::from_der(vec![1, 2, 3], vec![4, 5]);
    assert!(bad.get_private_key().is_none());
    assert!(bad.get_public_key().is_none());
    assert_eq!(bad.encrypt(&vec![1]), None);
    assert_eq!(bad.decrypt(&vec![1]), None);
    let (_, node) = key_pair();
    assert_eq!(node.decrypt(&vec![0u8; 3]), None);
}

use solana_wallet::SolanaWallet;
use solana_wallet::WalletError;

fn hex(s: &str) -> Vec<u8> {
    let bytes = s.as_bytes();
    let mut out = Vec::new();
    let digit = |c: u8| -> u8 {
        match c {
            b'0'..=b'9' => c - b'0',
            b'a'..=b'f' => c - b'a' + 10,
            b'A'..=b'F' => c - b'A' + 10,
            _ => panic!("not a hex digit"),
        }
    };
    let mut i = 0;
    while i < bytes.len() {
        out.push(digit(bytes[i]) * 16 + digit(bytes[i + 1]));
        i += 2;
    }
    out
}

#[test]
fn it_works() {
    let result = solana_wallet::add(2, 2);
    assert_eq!(result, 4);
}

#[test]
fn generate_sign_verify_export() {
    let mut w = SolanaWallet::new();
    let pk = w.generate_keypair().unwrap();
    assert!(!pk.is_empty());
    assert_eq!(w.get_public_key().unwrap(), pk);

    let sig = w.sign_message(b"hello").unwrap();
    assert_eq!(w.verify_signature(b"hello", &sig), Ok(true));
    assert_eq!(w.verify_signature(b"goodbye", &sig), Ok(false));

    let exported = w.export_keypair().unwrap();
    let parsed: serde_json::Value = serde_json::from_str(&exported).unwrap();
    assert_eq!(parsed.get("public_key").unwrap().as_str().unwrap(), pk);
    let secret = parsed.get("secret_key").unwrap().as_str().unwrap();
    assert!(!secret.is_empty());

    let mut w2 = SolanaWallet::new();
    assert_eq!(w2.import_keypair(secret).unwrap(), pk);
    assert_eq!(w2.verify_signature(b"hello", &sig), Ok(true));
}

#[test]
fn import_derives_deterministically() {
    // 32 ones decode to 32 zero bytes: a fixed, valid secret key.
    let sk_b58 = "11111111111111111111111111111111";
    let mut w1 = SolanaWallet::new();
    let mut w2 = SolanaWallet::new();
    let pk1 = w1.import_keypair(sk_b58).unwrap();
    let pk2 = w2.import_keypair(sk_b58).unwrap();
    assert_eq!(pk1, pk2);
    assert_eq!(w1.get_public_key().unwrap(), pk1);
    assert_ne!(pk1, sk_b58);
}

#[test]
fn known_answer_rfc8032_vector() {
    // Test vector 1 of RFC 8032, section 7.1: empty message.
    let sk = hex("9d61b19deffd5a60ba844af492ec2cc44449c5697b326919703bac031cae7f60");
    let pk = hex("d75a980182b10ab7d54bfed3c964073a0ee172f3daa62325af021a68f707511a");
    let sig = hex(
        "e5564300c360ac729086e2cc806e828a84877f1eb8e5d974d873e06522490155\
         5fb8821590a33bacc61e39701cf9b46bd25bf5f0595bbe24655141438e7a100b",
    );
    let mut w = SolanaWallet::new();
    let got_pk = w.import_keypair(&bs58::encode(&sk).into_string()).unwrap();
    assert_eq!(got_pk, bs58::encode(&pk).into_string());
    let got_sig = w.sign_message(b"").unwrap();
    assert_eq!(got_sig, bs58::encode(&sig).into_string());
    assert_eq!(w.verify_signature(b"", &got_sig), Ok(true));
}

#[test]
fn generate_twice_differs() {
    let mut w1 = SolanaWallet::new();
    let mut w2 = SolanaWallet::new();
    let pk1 = w1.generate_keypair().unwrap();
    let pk2 = w2.generate_keypair().unwrap();
    assert_ne!(pk1, pk2);
}

#[test]
fn export_needs_a_secret() {
    let mut w = SolanaWallet::new();
    assert_eq!(w.export_keypair(), Err(WalletError::NoSecretKeyError));

    let mut keyed = SolanaWallet::new();
    let pk = keyed.generate_keypair().unwrap();
    w.import_public_key(&pk).unwrap();
    assert_eq!(w.get_public_key().unwrap(), pk);
    assert_eq!(w.export_keypair(), Err(WalletError::NoSecretKeyError));
}

#[test]
fn import_public_key_discards_secret() {
    let mut w = SolanaWallet::new();
    let pk = w.generate_keypair().unwrap();
    w.import_public_key(&pk).unwrap();
    assert_eq!(w.sign_message(b"hello"), Err(WalletError::NoSecretKeyError));
    assert_eq!(w.export_keypair(), Err(WalletError::NoSecretKeyError));
}

#[test]
fn operations_without_a_key() {
    let w = SolanaWallet::new();
    assert_eq!(w.get_public_key(), Err(WalletError::NoKeyError));
    assert_eq!(w.sign_message(b"hello"), Err(WalletError::NoSecretKeyError));
    assert_eq!(
        w.verify_signature(b"hello", "1111"),
        Err(WalletError::NoKeyError)
    );
}

#[test]
fn public_only_wallet_verifies() {
    let mut signer = SolanaWallet::new();
    let pk = signer.generate_keypair().unwrap();
    let sig = signer.sign_message(b"hello").unwrap();

    let mut w = SolanaWallet::new();
    w.import_public_key(&pk).unwrap();
    assert_eq!(w.verify_signature(b"hello", &sig), Ok(true));
    assert_eq!(w.verify_signature(b"goodbye", &sig), Ok(false));
}

#[test]
fn non_base58_inputs_are_decode_errors() {
    let mut w = SolanaWallet::new();
    assert_eq!(w.import_keypair("0OIl"), Err(WalletError::DecodeError));
    assert_eq!(
        w.import_public_key("not base58!"),
        Err(WalletError::DecodeError)
    );
    let pk = w.generate_keypair().unwrap();
    assert_eq!(
        w.verify_signature(b"hello", "I am no signature"),
        Err(WalletError::DecodeError)
    );
    // The failures above left the generated keypair in place.
    assert_eq!(w.get_public_key().unwrap(), pk);
}

#[test]
fn wrong_length_keys_are_invalid() {
    let mut w = SolanaWallet::new();
    // "11" decodes to two zero bytes: valid base58, wrong key length.
    assert_eq!(w.import_keypair("11"), Err(WalletError::InvalidKeyError));
    assert_eq!(w.import_public_key("11"), Err(WalletError::InvalidKeyError));
    // 31 and 33 bytes around the boundary.
    let short = bs58::encode(&vec![7u8; 31]).into_string();
    let long = bs58::encode(&vec![7u8; 33]).into_string();
    assert_eq!(w.import_keypair(&short), Err(WalletError::InvalidKeyError));
    assert_eq!(w.import_keypair(&long), Err(WalletError::InvalidKeyError));
}

#[test]
fn malformed_signatures_are_invalid() {
    let mut w = SolanaWallet::new();
    w.generate_keypair().unwrap();
    // Two bytes: valid base58, wrong signature length.
    assert_eq!(
        w.verify_signature(b"hello", "11"),
        Err(WalletError::InvalidSignatureError)
    );
    // 64 bytes with the scalar half unreduced (high bits of last byte set).
    let mut bad = vec![0u8; 64];
    bad[63] = 0xe0;
    let bad_b58 = bs58::encode(&bad).into_string();
    assert_eq!(
        w.verify_signature(b"hello", &bad_b58),
        Err(WalletError::InvalidSignatureError)
    );
}

#[test]
fn tampered_signature_is_false_not_error() {
    let mut w = SolanaWallet::new();
    w.generate_keypair().unwrap();
    let sig = w.sign_message(b"hello").unwrap();
    let mut bytes = bs58::decode(&sig).into_vec().unwrap();
    bytes[0] ^= 1;
    let tampered = bs58::encode(&bytes).into_string();
    assert_eq!(w.verify_signature(b"hello", &tampered), Ok(false));
}

#[test]
fn off_curve_public_key_is_invalid() {
    let mut w = SolanaWallet::new();
    let mut saw_invalid = false;
    let mut saw_ok = false;
    for b in 0u8..=255 {
        let candidate = bs58::encode(&vec![b; 32]).into_string();
        match w.import_public_key(&candidate) {
            Ok(()) => saw_ok = true,
            Err(e) => {
                assert_eq!(e, WalletError::InvalidKeyError);
                saw_invalid = true;
            }
        }
    }
    // About half of all 32-byte strings decompress to a curve point;
    // among these 256 fixed candidates both outcomes occur.
    assert!(saw_invalid);
    assert!(saw_ok);
}

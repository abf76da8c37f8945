use l1x_signer::address_from_uncompressed_public_key;
use l1x_signer::errors::CoreError;
use l1x_signer::get_address_from_private_key;
use l1x_signer::get_address_from_privkey_str;

// The secp256k1 test key with scalar value 1; its account address is the
// widely published Keccak-256-derived address of the generator point.
const KEY_ONE_HEX: &str = "0000000000000000000000000000000000000000000000000000000000000001";
const KEY_ONE_ADDRESS: &str = "7e5f4552091a69125d5dfcb7b8c2659029395bdf";

#[test]
fn known_key_derives_known_address() {
    assert_eq!(
        get_address_from_privkey_str(KEY_ONE_HEX),
        Ok(KEY_ONE_ADDRESS.to_string())
    );
}

#[test]
fn secret_key_value_and_hex_text_agree() {
    let mut bytes = [0u8; 32];
    bytes[31] = 1;
    let sk = secp256k1::SecretKey::from_slice(&bytes).expect("scalar one is valid");
    assert_eq!(get_address_from_private_key(&sk), Ok(KEY_ONE_ADDRESS.to_string()));
}

#[test]
fn address_is_stable_across_calls() {
    let first = get_address_from_privkey_str(KEY_ONE_HEX).unwrap();
    let second = get_address_from_privkey_str(KEY_ONE_HEX).unwrap();
    assert_eq!(first, second);
    assert_eq!(first.len(), 40);
    assert!(first.chars().all(|c| c.is_ascii_hexdigit() && !c.is_ascii_uppercase()));
}

#[test]
fn uppercase_and_lowercase_hex_keys_agree() {
    let upper = "AA".repeat(32);
    let lower = "aa".repeat(32);
    let a = get_address_from_privkey_str(&upper).unwrap();
    let b = get_address_from_privkey_str(&lower).unwrap();
    assert_eq!(a, b);
}

#[test]
fn invalid_hex_rejected() {
    assert_eq!(
        get_address_from_privkey_str("zz"),
        Err(CoreError::InvalidKeyEncoding)
    );
    assert_eq!(
        get_address_from_privkey_str("0x01"),
        Err(CoreError::InvalidKeyEncoding)
    );
}

#[test]
fn odd_length_hex_rejected() {
    assert_eq!(
        get_address_from_privkey_str("abc"),
        Err(CoreError::InvalidKeyEncoding)
    );
}

#[test]
fn wrong_byte_length_rejected() {
    assert_eq!(
        get_address_from_privkey_str("0001"),
        Err(CoreError::InvalidKeyEncoding)
    );
    let sixty_six_digits = "01".repeat(33);
    assert_eq!(
        get_address_from_privkey_str(&sixty_six_digits),
        Err(CoreError::InvalidKeyEncoding)
    );
}

#[test]
fn invalid_scalars_rejected() {
    let zero = "00".repeat(32);
    assert_eq!(
        get_address_from_privkey_str(&zero),
        Err(CoreError::InvalidKeyEncoding)
    );
    let too_large = "ff".repeat(32);
    assert_eq!(
        get_address_from_privkey_str(&too_large),
        Err(CoreError::InvalidKeyEncoding)
    );
}

#[test]
fn pubkey_of_wrong_length_rejected() {
    assert_eq!(
        address_from_uncompressed_public_key(&vec![4; 33]),
        Err(CoreError::InvalidKeyEncoding)
    );
    assert_eq!(
        address_from_uncompressed_public_key(&vec![]),
        Err(CoreError::InvalidKeyEncoding)
    );
}

#[test]
fn address_matches_independent_derivation() {
    // Derive the address for the key with scalar value 1 from the
    // uncompressed generator point itself.
    let mut bytes = [0u8; 32];
    bytes[31] = 1;
    let sk = secp256k1::SecretKey::from_slice(&bytes).unwrap();
    let secp = secp256k1::Secp256k1::new();
    let pubkey = sk.public_key(&secp).serialize_uncompressed().to_vec();
    let address = address_from_uncompressed_public_key(&pubkey).unwrap();
    let rendered: String = address.iter().map(|b| format!("{:02x}", b)).collect();
    assert_eq!(rendered, KEY_ONE_ADDRESS);
}

#[test]
fn key_bytes_entry_point_validates_scalars() {
    let mut bytes = [0u8; 32];
    bytes[31] = 1;
    let key = l1x_signer::secret_key_from_key_bytes(&bytes).expect("scalar one is valid");
    assert_eq!(
        l1x_signer::get_address_from_private_key(&key),
        Ok(KEY_ONE_ADDRESS.to_string())
    );
    assert_eq!(
        l1x_signer::secret_key_from_key_bytes(&[0u8; 32]),
        Err(CoreError::InvalidPrivateKey)
    );
    assert_eq!(
        l1x_signer::secret_key_from_key_bytes(&[0xffu8; 32]),
        Err(CoreError::InvalidPrivateKey)
    );
    assert_eq!(
        l1x_signer::secret_key_from_key_bytes(&[1u8; 16]),
        Err(CoreError::InvalidPrivateKey)
    );
}

#[test]
fn key_bytes_deriver_matches_hex_deriver() {
    let mut bytes = [0u8; 32];
    bytes[31] = 1;
    assert_eq!(
        l1x_signer::derive_address_from_key_bytes(&bytes),
        Ok(KEY_ONE_ADDRESS.to_string())
    );
    assert_eq!(
        l1x_signer::derive_address_from_key_bytes(&[0u8; 32]),
        Err(CoreError::InvalidPrivateKey)
    );
    assert_eq!(
        l1x_signer::derive_address_from_key_bytes(&[7u8; 31]),
        Err(CoreError::InvalidPrivateKey)
    );
}

#[test]
fn secret_key_overload_is_deterministic() {
    let mut bytes = [0u8; 32];
    bytes[31] = 0x11;
    let k1 = secp256k1::SecretKey::from_slice(&bytes).unwrap();
    let k2 = secp256k1::SecretKey::from_slice(&bytes).unwrap();
    assert_eq!(
        get_address_from_private_key(&k1),
        get_address_from_private_key(&k2)
    );
}

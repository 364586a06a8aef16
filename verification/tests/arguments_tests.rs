use signal_relayer::arguments::{
    key_from_bytes, key_from_decoded, parse_base64_profile_key, parse_group_master_key, KeyError,
};

#[test]
fn master_key_from_hex() {
    let text = "000102030405060708090a0b0c0d0e0f101112131415161718191A1B1C1D1E1F";
    let mut expected = [0u8; 32];
    for i in 0..32 {
        expected[i] = i as u8;
    }
    assert_eq!(parse_group_master_key(text), Ok(expected));
    assert_eq!(
        parse_group_master_key(
            "ffffffffffffffffffffffffffffffffffffffffffffffffffffffffffffffff"
        ),
        Ok([255u8; 32])
    );
}

#[test]
fn master_key_that_is_not_hex() {
    assert_eq!(parse_group_master_key("abc"), Err(KeyError::Malformed));
    assert_eq!(
        parse_group_master_key(
            "zz0102030405060708090a0b0c0d0e0f101112131415161718191a1b1c1d1e1f"
        ),
        Err(KeyError::Malformed)
    );
    assert_eq!(parse_group_master_key("é"), Err(KeyError::Malformed));
    assert_eq!(parse_group_master_key("0x"), Err(KeyError::Malformed));
}

#[test]
fn master_key_of_wrong_length() {
    assert_eq!(parse_group_master_key(""), Err(KeyError::WrongLength));
    assert_eq!(parse_group_master_key("00"), Err(KeyError::WrongLength));
    assert_eq!(
        parse_group_master_key(
            "000102030405060708090a0b0c0d0e0f101112131415161718191a1b1c1d1e1f20"
        ),
        Err(KeyError::WrongLength)
    );
}

#[test]
fn profile_key_from_base64() {
    assert_eq!(
        parse_base64_profile_key("AAAAAAAAAAAAAAAAAAAAAAAAAAAAAAAAAAAAAAAAAAA="),
        Ok([0u8; 32])
    );
    let mut expected = [0u8; 32];
    for i in 0..32 {
        expected[i] = i as u8;
    }
    assert_eq!(
        parse_base64_profile_key("AAECAwQFBgcICQoLDA0ODxAREhMUFRYXGBkaGxwdHh8="),
        Ok(expected)
    );
}

#[test]
fn profile_key_that_is_not_base64() {
    assert_eq!(parse_base64_profile_key("not base64!"), Err(KeyError::Malformed));
    assert_eq!(
        parse_base64_profile_key("AAAAAAAAAAAAAAAAAAAAAAAAAAAAAAAAAAAAAAAAAAA"),
        Err(KeyError::Malformed)
    );
}

#[test]
fn profile_key_of_wrong_length() {
    assert_eq!(parse_base64_profile_key(""), Err(KeyError::WrongLength));
    assert_eq!(parse_base64_profile_key("aGVsbG8="), Err(KeyError::WrongLength));
}

#[test]
fn key_from_decoded_bytes() {
    assert_eq!(key_from_bytes(&vec![3u8; 32]), Ok([3u8; 32]));
    assert_eq!(key_from_bytes(&vec![3u8; 31]), Err(KeyError::WrongLength));
    assert_eq!(key_from_bytes(&vec![3u8; 33]), Err(KeyError::WrongLength));
    assert_eq!(key_from_decoded(Some(vec![9u8; 32])), Ok([9u8; 32]));
    assert_eq!(key_from_decoded(Some(Vec::new())), Err(KeyError::WrongLength));
    assert_eq!(key_from_decoded(None), Err(KeyError::Malformed));
}

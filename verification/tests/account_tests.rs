use signal_relayer::account::AccountId;
use signal_relayer::text::decimal_text;

#[test]
fn parses_hyphenated_identifier() {
    let id = AccountId::parse("11111111-1111-1111-1111-111111111111");
    assert_eq!(id, Some(AccountId { value: 0x11111111_1111_1111_1111_111111111111 }));
    let id = AccountId::parse("a1a2a3a4-b1b2-c1c2-d1d2-d3d4d5d6d7d8");
    assert_eq!(id, Some(AccountId { value: 0xa1a2a3a4_b1b2_c1c2_d1d2_d3d4d5d6d7d8 }));
}

#[test]
fn parses_other_forms_of_identifier() {
    let value = 0xa1a2a3a4_b1b2_c1c2_d1d2_d3d4d5d6d7d8;
    assert_eq!(
        AccountId::parse("A1A2A3A4B1B2C1C2D1D2D3D4D5D6D7D8"),
        Some(AccountId { value })
    );
    assert_eq!(
        AccountId::parse("{a1a2a3a4-b1b2-c1c2-d1d2-d3d4d5d6d7d8}"),
        Some(AccountId { value })
    );
    assert_eq!(
        AccountId::parse("urn:uuid:a1a2a3a4-b1b2-c1c2-d1d2-d3d4d5d6d7d8"),
        Some(AccountId { value })
    );
}

#[test]
fn rejects_what_is_no_identifier() {
    assert_eq!(AccountId::parse("not-a-uuid"), None);
    assert_eq!(AccountId::parse(""), None);
    assert_eq!(AccountId::parse("11111111-1111-1111-1111-11111111111"), None);
    assert_eq!(AccountId::parse("g1111111-1111-1111-1111-111111111111"), None);
}

#[test]
fn identifier_text_is_lower_case_hyphenated() {
    assert_eq!(
        AccountId { value: 0xA1A2A3A4_B1B2_C1C2_D1D2_D3D4D5D6D7D8 }.text(),
        "a1a2a3a4-b1b2-c1c2-d1d2-d3d4d5d6d7d8"
    );
    assert_eq!(AccountId { value: 0 }.text(), "00000000-0000-0000-0000-000000000000");
    assert_eq!(AccountId { value: 0xf }.text(), "00000000-0000-0000-0000-00000000000f");
    assert_eq!(AccountId { value: u128::MAX }.text(), "ffffffff-ffff-ffff-ffff-ffffffffffff");
}

#[test]
fn identifier_text_reads_back() {
    let id = AccountId { value: 0x0123456789abcdef_fedcba9876543210 };
    assert_eq!(AccountId::parse(&id.text()), Some(id));
}

#[test]
fn decimal_text_of_edge_values() {
    assert_eq!(decimal_text(0), "0");
    assert_eq!(decimal_text(7), "7");
    assert_eq!(decimal_text(10), "10");
    assert_eq!(decimal_text(1234567890), "1234567890");
    assert_eq!(decimal_text(100200), "100200");
    assert_eq!(decimal_text(u64::MAX), "18446744073709551615");
}

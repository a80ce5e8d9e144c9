use session_router::session::SessionId;

#[test]
fn text_of_a_known_value() {
    let id = SessionId::from_u128(0x67e5504410b1426f9247bb680e5fe0c8);
    assert_eq!(id.to_text(), "67e55044-10b1-426f-9247-bb680e5fe0c8");
}

#[test]
fn text_of_zero_is_all_zero_digits() {
    assert_eq!(SessionId(0).to_text(), "00000000-0000-0000-0000-000000000000");
}

#[test]
fn text_of_the_largest_value_is_all_f() {
    assert_eq!(SessionId(u128::MAX).to_text(), "ffffffff-ffff-ffff-ffff-ffffffffffff");
}

#[test]
fn text_puts_the_most_significant_digit_first() {
    assert_eq!(SessionId(1).to_text(), "00000000-0000-0000-0000-000000000001");
    assert_eq!(SessionId(1u128 << 127).to_text(), "80000000-0000-0000-0000-000000000000");
    assert_eq!(SessionId(0xa << 124).to_text(), "a0000000-0000-0000-0000-000000000000");
}

#[test]
fn text_uses_lower_case_digits_in_every_group() {
    let id = SessionId(0x0123456789abcdef_fedcba9876543210);
    assert_eq!(id.to_text(), "01234567-89ab-cdef-fedc-ba9876543210");
}

#[test]
fn text_is_thirty_six_characters_with_four_hyphens() {
    let text = SessionId(0xdeadbeef).to_text();
    assert_eq!(text.len(), 36);
    let hyphens: Vec<usize> =
        text.char_indices().filter(|(_, c)| *c == '-').map(|(i, _)| i).collect();
    assert_eq!(hyphens, vec![8, 13, 18, 23]);
}

#[test]
fn text_is_what_the_uuid_crate_parses_back() {
    let id = SessionId(0x00112233445566778899aabbccddeeff);
    let parsed = uuid::Uuid::parse_str(&id.to_text()).unwrap();
    assert_eq!(parsed.as_u128(), id.as_u128());
}

#[test]
fn raw_value_round_trips() {
    let id = SessionId::from_u128(42);
    assert_eq!(id.as_u128(), 42);
    assert_eq!(id, SessionId(42));
    assert_ne!(id, SessionId(43));
}

#[test]
fn generated_identity_carries_the_random_marks() {
    for _ in 0..64 {
        let value = SessionId::generate().as_u128();
        assert_eq!(
            value & 0x0000_0000_0000_f000_c000_0000_0000_0000,
            0x0000_0000_0000_4000_8000_0000_0000_0000
        );
    }
}

#[test]
fn generated_identity_shows_version_four_in_its_text() {
    let text = SessionId::generate().to_text();
    let chars: Vec<char> = text.chars().collect();
    assert_eq!(chars[14], '4');
    assert!(matches!(chars[19], '8' | '9' | 'a' | 'b'));
    let parsed = uuid::Uuid::parse_str(&text).unwrap();
    assert_eq!(parsed.get_version_num(), 4);
}

#[test]
fn generated_identities_differ() {
    let mut seen: Vec<SessionId> = Vec::new();
    for _ in 0..256 {
        let id = SessionId::generate();
        assert!(!seen.contains(&id));
        seen.push(id);
    }
}

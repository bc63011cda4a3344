use winery_auth::ident::UserId;

#[test]
fn text_is_hyphenated_lower_hex() {
    assert_eq!(UserId(0).to_text(), "00000000-0000-0000-0000-000000000000");
    assert_eq!(UserId(u128::MAX).to_text(), "ffffffff-ffff-ffff-ffff-ffffffffffff");
    assert_eq!(
        UserId(0xa1a2a3a4_b1b2_c1c2_d1d2_d3d4d5d6d7d8).to_text(),
        "a1a2a3a4-b1b2-c1c2-d1d2-d3d4d5d6d7d8"
    );
    assert_eq!(UserId(1).to_text(), "00000000-0000-0000-0000-000000000001");
    assert_eq!(UserId(1 << 127).to_text(), "80000000-0000-0000-0000-000000000000");
}

#[test]
fn text_agrees_with_uuid() {
    let mut v: u128 = 0x0123_4567_89ab_cdef_0fed_cba9_8765_4321;
    for _ in 0..200 {
        assert_eq!(UserId(v).to_text(), uuid::Uuid::from_u128(v).to_string());
        v = v.wrapping_mul(6364136223846793005).wrapping_add(1442695040888963407).rotate_left(17);
    }
}

#[test]
fn parse_reads_what_to_text_writes() {
    let mut v: u128 = 42;
    for _ in 0..200 {
        assert_eq!(UserId::parse(&UserId(v).to_text()), Some(UserId(v)));
        v = v.wrapping_mul(0x2545_f491_4f6c_dd1d).wrapping_add(0x9e37_79b9_7f4a_7c15).rotate_left(29);
    }
}

#[test]
fn parse_reads_the_notations_of_uuid() {
    let id = Some(UserId(0x550e8400_e29b_41d4_a716_446655440000));
    assert_eq!(UserId::parse("550e8400-e29b-41d4-a716-446655440000"), id);
    assert_eq!(UserId::parse("550e8400e29b41d4a716446655440000"), id);
    assert_eq!(UserId::parse("550E8400-E29B-41D4-A716-446655440000"), id);
    assert_eq!(UserId::parse("urn:uuid:550e8400-e29b-41d4-a716-446655440000"), id);
    assert_eq!(UserId::parse("{550e8400-e29b-41d4-a716-446655440000}"), id);
}

#[test]
fn parse_refuses_other_text() {
    for bad in [
        "",
        "550e8400-e29b-41d4-a716-44665544000",
        "550e8400-e29b-41d4-a716-4466554400000",
        "550e8400-e29b-41d4-a716-44665544000g",
        " 550e8400-e29b-41d4-a716-446655440000",
        "alice",
    ] {
        assert_eq!(UserId::parse(bad), None);
    }
}

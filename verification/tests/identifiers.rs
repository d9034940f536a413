use rooms::identifier::IdError;
use rooms::webrtc::room::RoomId;
use rooms::websocket::SessionId;

#[test]
fn room_id_reads_hyphenated_text() {
    assert_eq!(
        RoomId::try_from("67e55044-10b1-426f-9247-bb680e5fe0c8"),
        Ok(RoomId(0x67e55044_10b1_426f_9247_bb680e5fe0c8))
    );
}

#[test]
fn room_id_reads_every_written_form() {
    let expected = Ok(RoomId(0x67e55044_10b1_426f_9247_bb680e5fe0c8));
    assert_eq!(RoomId::try_from("67e5504410b1426f9247bb680e5fe0c8"), expected);
    assert_eq!(RoomId::try_from("urn:uuid:67e55044-10b1-426f-9247-bb680e5fe0c8"), expected);
    assert_eq!(RoomId::try_from("{67e55044-10b1-426f-9247-bb680e5fe0c8}"), expected);
    assert_eq!(RoomId::try_from("67E55044-10B1-426F-9247-BB680E5FE0C8"), expected);
}

#[test]
fn room_id_rejects_malformed_text() {
    assert_eq!(RoomId::try_from(""), Err(IdError::Malformed));
    assert_eq!(RoomId::try_from("not-a-room"), Err(IdError::Malformed));
    assert_eq!(
        RoomId::try_from("67e55044-10b1-426f-9247-bb680e5fe0c"),
        Err(IdError::Malformed)
    );
    assert_eq!(
        RoomId::try_from("67e55044-10b1-426f-9247-bb680e5fe0cg"),
        Err(IdError::Malformed)
    );
    assert_eq!(
        RoomId::try_from("67e55044010b1-426f-9247-bb680e5fe0c8"),
        Err(IdError::Malformed)
    );
}

#[test]
fn room_id_text_is_lower_case_and_hyphenated() {
    assert_eq!(
        RoomId(0xa1a2a3a4_b1b2_c1c2_d1d2_d3d4d5d6d7d8).to_string(),
        "a1a2a3a4-b1b2-c1c2-d1d2-d3d4d5d6d7d8"
    );
    assert_eq!(RoomId(0).to_string(), "00000000-0000-0000-0000-000000000000");
    assert_eq!(RoomId(u128::MAX).to_string(), "ffffffff-ffff-ffff-ffff-ffffffffffff");
    assert_eq!(RoomId(0x1f).to_string(), "00000000-0000-0000-0000-00000000001f");
}

#[test]
fn session_id_reads_and_writes_like_a_room_id() {
    assert_eq!(
        SessionId::try_from("01020304-1112-2122-3132-414243444546"),
        Ok(SessionId(0x01020304_1112_2122_3132_414243444546))
    );
    assert_eq!(SessionId::try_from("x"), Err(IdError::Malformed));
    assert_eq!(
        SessionId(0x01020304_1112_2122_3132_414243444546).to_string(),
        "01020304-1112-2122-3132-414243444546"
    );
}

#[test]
fn identifier_text_reads_back_as_the_identifier() {
    let values: [u128; 5] = [
        0,
        1,
        u128::MAX,
        0x0123456789abcdef_fedcba9876543210,
        0x80000000_0000_0000_0000_000000000000,
    ];
    for value in values {
        let text = SessionId(value).to_string();
        assert_eq!(text.len(), 36);
        assert_eq!(SessionId::try_from(text.as_str()), Ok(SessionId(value)));
        assert_eq!(RoomId::try_from(RoomId(value).to_string().as_str()), Ok(RoomId(value)));
    }
}

#[test]
fn fresh_session_id_has_the_random_form() {
    let id = SessionId::new();
    let mask: u128 = 0x0000_0000_0000_f000_c000_0000_0000_0000;
    let marks: u128 = 0x0000_0000_0000_4000_8000_0000_0000_0000;
    assert_eq!(id.0 & mask, marks);
    let text = id.to_string();
    assert_eq!(text.as_bytes()[14], b'4');
}

#[test]
fn fresh_session_ids_differ() {
    let first = SessionId::new();
    let second = SessionId::new();
    let third = SessionId::new();
    assert_ne!(first, second);
    assert_ne!(second, third);
    assert_ne!(first, third);
}

#[test]
fn identifier_agrees_with_the_uuid_crate() {
    let text = "936da01f-9abd-4d9d-80c7-02af85c822a8";
    let parsed = uuid::Uuid::parse_str(text).unwrap();
    assert_eq!(RoomId::try_from(text), Ok(RoomId(parsed.as_u128())));
    assert_eq!(RoomId(parsed.as_u128()).to_string(), parsed.to_string());
}

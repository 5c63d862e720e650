use sapodilla::protocol::{
    AvocadoFlags, AvocadoPacket, AvocadoPacketReader, ContentType, EncodingType, EncryptionMode,
    FrameAssembler,
    FrameField, InteractionType, ProtocolError,
};

const JSON_REQUEST_DATA: &[u8] = &[
    0x7E, 0x64, 0x00, 0x01, 0x06, 0x03, 0x74, 0x02, 0x00, 0x00, 0x74, 0x02, 0x00, 0x00, 0x01,
    0x00, 0x01, 0x00, 0x69, 0x00, 0x7B, 0x0A, 0x20, 0x20, 0x22, 0x69, 0x64, 0x22, 0x20, 0x3A,
    0x20, 0x36, 0x32, 0x38, 0x2C, 0x0A, 0x20, 0x20, 0x22, 0x6D, 0x65, 0x74, 0x68, 0x6F, 0x64,
    0x22, 0x20, 0x3A, 0x20, 0x22, 0x67, 0x65, 0x74, 0x2D, 0x70, 0x72, 0x6F, 0x70, 0x22, 0x2C,
    0x0A, 0x20, 0x20, 0x22, 0x70, 0x61, 0x72, 0x61, 0x6D, 0x73, 0x22, 0x20, 0x3A, 0x20, 0x5B,
    0x0A, 0x20, 0x20, 0x20, 0x20, 0x22, 0x66, 0x69, 0x72, 0x6D, 0x77, 0x61, 0x72, 0x65, 0x2D,
    0x72, 0x65, 0x76, 0x69, 0x73, 0x69, 0x6F, 0x6E, 0x22, 0x2C, 0x0A, 0x20, 0x20, 0x20, 0x20,
    0x22, 0x62, 0x74, 0x2D, 0x70, 0x68, 0x6F, 0x6E, 0x65, 0x2D, 0x6D, 0x61, 0x63, 0x22, 0x0A,
    0x20, 0x20, 0x5D, 0x0A, 0x7D, 0x59, 0x7E,
];

fn sample_packet(data: Vec<u8>) -> AvocadoPacket {
    AvocadoPacket {
        version: 100,
        content_type: ContentType::Message,
        interaction_type: InteractionType::Request,
        encoding_type: EncodingType::Json,
        encryption_mode: EncryptionMode::Unencrypted,
        terminal_id: 628,
        msg_number: 628,
        msg_package_total: 1,
        msg_package_num: 1,
        is_subpackage: false,
        data,
    }
}

#[test]
fn test_read_one() {
    let packet = AvocadoPacket::read_one(JSON_REQUEST_DATA);
    assert!(packet.is_ok());
}

#[test]
fn test_encode() {
    let packet = sample_packet(vec![
        0x7B, 0x0A, 0x20, 0x20, 0x22, 0x69, 0x64, 0x22, 0x20, 0x3A, 0x20, 0x36, 0x32, 0x38,
        0x2C, 0x0A, 0x20, 0x20, 0x22, 0x6D, 0x65, 0x74, 0x68, 0x6F, 0x64, 0x22, 0x20, 0x3A,
        0x20, 0x22, 0x67, 0x65, 0x74, 0x2D, 0x70, 0x72, 0x6F, 0x70, 0x22, 0x2C, 0x0A, 0x20,
        0x20, 0x22, 0x70, 0x61, 0x72, 0x61, 0x6D, 0x73, 0x22, 0x20, 0x3A, 0x20, 0x5B, 0x0A,
        0x20, 0x20, 0x20, 0x20, 0x22, 0x66, 0x69, 0x72, 0x6D, 0x77, 0x61, 0x72, 0x65, 0x2D,
        0x72, 0x65, 0x76, 0x69, 0x73, 0x69, 0x6F, 0x6E, 0x22, 0x2C, 0x0A, 0x20, 0x20, 0x20,
        0x20, 0x22, 0x62, 0x74, 0x2D, 0x70, 0x68, 0x6F, 0x6E, 0x65, 0x2D, 0x6D, 0x61, 0x63,
        0x22, 0x0A, 0x20, 0x20, 0x5D, 0x0A, 0x7D,
    ]);
    assert_eq!(
        packet.encode(),
        [
            0x7E, 0x64, 0x00, 0x01, 0x06, 0x03, 0x74, 0x02, 0x00, 0x00, 0x74, 0x02, 0x00, 0x00,
            0x01, 0x00, 0x01, 0x00, 0x69, 0x00, 0x7B, 0x0A, 0x20, 0x20, 0x22, 0x69, 0x64, 0x22,
            0x20, 0x3A, 0x20, 0x36, 0x32, 0x38, 0x2C, 0x0A, 0x20, 0x20, 0x22, 0x6D, 0x65, 0x74,
            0x68, 0x6F, 0x64, 0x22, 0x20, 0x3A, 0x20, 0x22, 0x67, 0x65, 0x74, 0x2D, 0x70, 0x72,
            0x6F, 0x70, 0x22, 0x2C, 0x0A, 0x20, 0x20, 0x22, 0x70, 0x61, 0x72, 0x61, 0x6D, 0x73,
            0x22, 0x20, 0x3A, 0x20, 0x5B, 0x0A, 0x20, 0x20, 0x20, 0x20, 0x22, 0x66, 0x69, 0x72,
            0x6D, 0x77, 0x61, 0x72, 0x65, 0x2D, 0x72, 0x65, 0x76, 0x69, 0x73, 0x69, 0x6F, 0x6E,
            0x22, 0x2C, 0x0A, 0x20, 0x20, 0x20, 0x20, 0x22, 0x62, 0x74, 0x2D, 0x70, 0x68, 0x6F,
            0x6E, 0x65, 0x2D, 0x6D, 0x61, 0x63, 0x22, 0x0A, 0x20, 0x20, 0x5D, 0x0A, 0x7D, 0x59,
            0x7E,
        ]
    );
}

#[test]
fn read_one_decodes_every_field() {
    let (packet, used) = AvocadoPacket::read_one(JSON_REQUEST_DATA).unwrap();
    assert_eq!(used, JSON_REQUEST_DATA.len());
    assert_eq!(packet.version, 100);
    assert_eq!(packet.content_type, ContentType::Message);
    assert_eq!(packet.interaction_type, InteractionType::Request);
    assert_eq!(packet.encoding_type, EncodingType::Json);
    assert_eq!(packet.encryption_mode, EncryptionMode::Unencrypted);
    assert_eq!(packet.terminal_id, 628);
    assert_eq!(packet.msg_number, 628);
    assert_eq!(packet.msg_package_total, 1);
    assert_eq!(packet.msg_package_num, 1);
    assert!(!packet.is_subpackage);
    assert_eq!(packet.data.len(), 105);
    assert_eq!(packet.data[0], 0x7B);
}

#[test]
fn round_trip_empty_payload() {
    let packet = sample_packet(vec![]);
    let bytes = packet.encode();
    assert_eq!(bytes.len(), 22);
    let (back, used) = AvocadoPacket::read_one(&bytes).unwrap();
    assert_eq!(back, packet);
    assert_eq!(used, 22);
}

#[test]
fn round_trip_largest_payload() {
    let data: Vec<u8> = (0..1023u32).map(|i| (i % 251) as u8).collect();
    let mut packet = sample_packet(data);
    packet.content_type = ContentType::Data;
    packet.interaction_type = InteractionType::Response;
    packet.encoding_type = EncodingType::Hexadecimal;
    packet.encryption_mode = EncryptionMode::RC4;
    packet.terminal_id = 0xDEADBEEF;
    packet.msg_number = 0x01020304;
    packet.msg_package_total = 513;
    packet.msg_package_num = 258;
    packet.is_subpackage = true;
    let bytes = packet.encode();
    assert_eq!(bytes.len(), 1023 + 22);
    let (back, used) = AvocadoPacket::read_one(&bytes).unwrap();
    assert_eq!(back, packet);
    assert_eq!(used, bytes.len());
}

#[test]
fn checksum_is_wrapping_sum_after_prefix() {
    let packet = sample_packet(vec![0xFF; 40]);
    let bytes = packet.encode();
    let n = bytes.len();
    let sum = bytes[1..n - 2].iter().fold(0u8, |s, b| s.wrapping_add(*b));
    assert_eq!(bytes[n - 2], sum);
    assert_eq!(AvocadoPacket::checksum(&bytes[1..n - 2]), sum);
    assert_eq!(AvocadoPacket::checksum(&[200, 100]), 44);
    assert_eq!(AvocadoPacket::checksum(&[]), 0);
}

#[test]
fn flags_pack_vectors() {
    let cases: [(u16, bool, EncryptionMode, [u8; 2]); 16] = [
        (0, false, EncryptionMode::Unencrypted, [0x00, 0x00]),
        (1, false, EncryptionMode::Unencrypted, [0x01, 0x00]),
        (255, false, EncryptionMode::Unencrypted, [0xFF, 0x00]),
        (1023, false, EncryptionMode::Unencrypted, [0xFF, 0x03]),
        (0, true, EncryptionMode::Unencrypted, [0x00, 0x04]),
        (1, true, EncryptionMode::Unencrypted, [0x01, 0x04]),
        (255, true, EncryptionMode::Unencrypted, [0xFF, 0x04]),
        (1023, true, EncryptionMode::Unencrypted, [0xFF, 0x07]),
        (0, false, EncryptionMode::RC4, [0x00, 0x10]),
        (1, false, EncryptionMode::RC4, [0x01, 0x10]),
        (255, false, EncryptionMode::RC4, [0xFF, 0x10]),
        (1023, false, EncryptionMode::RC4, [0xFF, 0x13]),
        (0, true, EncryptionMode::RC4, [0x00, 0x14]),
        (1, true, EncryptionMode::RC4, [0x01, 0x14]),
        (255, true, EncryptionMode::RC4, [0xFF, 0x14]),
        (1023, true, EncryptionMode::RC4, [0xFF, 0x17]),
    ];
    for (length, is_subpackage, encryption_mode, expected) in cases {
        let flags = AvocadoFlags { length, is_subpackage, encryption_mode };
        let word = flags.pack();
        assert_eq!(word.to_le_bytes(), expected);
        assert_eq!(AvocadoFlags::unpack(word), Some(flags));
    }
}

#[test]
fn flags_in_encoded_frame() {
    let mut packet = sample_packet(vec![7; 255]);
    packet.is_subpackage = true;
    packet.encryption_mode = EncryptionMode::RC4;
    let bytes = packet.encode();
    assert_eq!(&bytes[18..20], &[0xFF, 0x14]);
}

#[test]
fn unpack_rejects_unknown_encryption() {
    assert_eq!(AvocadoFlags::unpack(0x0800), None);
    assert_eq!(AvocadoFlags::unpack(0x1800), None);
    let flags = AvocadoFlags::unpack(0xC005).unwrap();
    assert_eq!(flags.length, 5);
    assert!(!flags.is_subpackage);
    assert_eq!(flags.encryption_mode, EncryptionMode::Unencrypted);
}

#[test]
fn reader_ends_cleanly_at_frame_boundary() {
    let a = sample_packet(vec![1, 2, 3]);
    let mut b = sample_packet(vec![]);
    b.msg_number = 9;
    let mut stream = a.encode();
    stream.extend(b.encode());
    let mut reader = AvocadoPacketReader::new(stream);
    assert_eq!(reader.next(), Some(Ok(a)));
    assert_eq!(reader.next(), Some(Ok(b)));
    assert_eq!(reader.next(), None);
    assert_eq!(reader.next(), None);

    let mut empty = AvocadoPacketReader::new(vec![]);
    assert_eq!(empty.next(), None);
}

#[test]
fn reader_reports_truncated_frame() {
    let mut stream = sample_packet(vec![1, 2, 3]).encode();
    stream.pop();
    let mut reader = AvocadoPacketReader::new(stream);
    assert_eq!(reader.next(), Some(Err(ProtocolError::UnexpectedEof)));
    assert_eq!(reader.next(), None);
}

#[test]
fn corrupt_prefix_is_invalid_data() {
    let mut bytes = sample_packet(vec![1, 2, 3]).encode();
    bytes[0] = 0x7F;
    assert_eq!(
        AvocadoPacket::read_one(&bytes),
        Err(ProtocolError::InvalidData(FrameField::Prefix))
    );
    let mut reader = AvocadoPacketReader::new(bytes);
    assert_eq!(
        reader.next(),
        Some(Err(ProtocolError::InvalidData(FrameField::Prefix)))
    );
    assert_eq!(reader.next(), None);
}

#[test]
fn corrupt_suffix_is_invalid_data() {
    let mut bytes = sample_packet(vec![1, 2, 3]).encode();
    let last = bytes.len() - 1;
    bytes[last] = 0x00;
    assert_eq!(
        AvocadoPacket::read_one(&bytes),
        Err(ProtocolError::InvalidData(FrameField::Suffix))
    );
    assert_eq!(FrameField::Suffix.name(), "suffix");
}

#[test]
fn unknown_enum_codes_are_invalid_data() {
    let good = sample_packet(vec![]).encode();
    let mut bad = good.clone();
    bad[3] = 9;
    assert_eq!(
        AvocadoPacket::read_one(&bad),
        Err(ProtocolError::InvalidData(FrameField::ContentType))
    );
    let mut bad = good.clone();
    bad[4] = 1;
    assert_eq!(
        AvocadoPacket::read_one(&bad),
        Err(ProtocolError::InvalidData(FrameField::InteractionType))
    );
    let mut bad = good.clone();
    bad[5] = 0;
    assert_eq!(
        AvocadoPacket::read_one(&bad),
        Err(ProtocolError::InvalidData(FrameField::EncodingType))
    );
    let mut bad = good.clone();
    bad[19] = 0x08;
    assert_eq!(
        AvocadoPacket::read_one(&bad),
        Err(ProtocolError::InvalidData(FrameField::Flags))
    );
    assert_eq!(AvocadoPacket::read_one(&good[..10]), Err(ProtocolError::UnexpectedEof));
    assert_eq!(AvocadoPacket::read_one(&[]), Err(ProtocolError::UnexpectedEof));
}

#[test]
fn checksum_byte_is_not_validated() {
    let packet = sample_packet(vec![5, 6]);
    let mut bytes = packet.encode();
    let at = bytes.len() - 2;
    bytes[at] = bytes[at].wrapping_add(1);
    assert_eq!(AvocadoPacket::read_one(&bytes).unwrap().0, packet);
}

#[test]
fn json_payload_only_for_plain_json() {
    let packet = AvocadoPacket::json_request(5, b"{}".to_vec());
    assert_eq!(packet.json_payload(), Some(&b"{}".to_vec()));
    assert_eq!(packet.terminal_id, 5);
    assert_eq!(packet.msg_number, 5);
    let mut data = packet.clone();
    data.content_type = ContentType::Data;
    assert_eq!(data.json_payload(), None);
    let mut rc4 = packet;
    rc4.encryption_mode = EncryptionMode::RC4;
    assert_eq!(rc4.json_payload(), None);
}

#[test]
fn assembler_waits_for_whole_frames() {
    let a = sample_packet(vec![1, 2, 3]);
    let b = sample_packet(vec![4]);
    let mut bytes = a.encode();
    bytes.extend(b.encode());
    let mut assembler = FrameAssembler::new();
    assembler.extend(&bytes[..10]);
    assert_eq!(assembler.next_frame(), Ok(None));
    assembler.extend(&bytes[10..]);
    assert_eq!(assembler.next_frame(), Ok(Some(a)));
    assert_eq!(assembler.next_frame(), Ok(Some(b)));
    assert_eq!(assembler.next_frame(), Ok(None));
    assembler.extend(&[0x00]);
    assert_eq!(
        assembler.next_frame(),
        Err(ProtocolError::InvalidData(FrameField::Prefix))
    );
}

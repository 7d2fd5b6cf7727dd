use dit::pgp::{
    binary_to_radix64, calculate_packet_header, duration_to_bytes, format_subpacket_length,
    get_mpi_bits, CompressionAlgos, HSigSubpacket, HashAlgo, KeyFlags, PKPacket, PacketHeader,
    PartialSignature, PublicKey, PublicKeyAlgorithm, SigSubpacket, SigType, Signature,
    SignatureData, SymmetricAlgos, ToPGPBytes, Version,
};

const RSA_PUBLIC_KEY: PublicKey = PublicKey::RSA(
    &[
        0xd9, 0x02, 0x41, 0x2a, 0xbf, 0xd6, 0x13, 0xf9, 0xed, 0x8a, 0xf0, 0xe1, 0x9e, 0x02,
        0x91, 0xd6, 0xee, 0x31, 0x7d, 0x82, 0xd3, 0x4f, 0x2e, 0xcd, 0x63, 0xa6, 0x5f, 0xeb,
        0xb3, 0x96, 0xb9, 0x45, 0x7b, 0x17, 0x01, 0x1c, 0x02, 0x8a, 0x55, 0xb6, 0x6e, 0xc4,
        0xac, 0x95, 0x23, 0xbe, 0xea, 0x48, 0xba, 0x09, 0xb8, 0x2e, 0xcd, 0xa0, 0x79, 0x86,
        0x23, 0x53, 0x63, 0x80, 0xc9, 0x8c, 0x8b, 0x38, 0x4c, 0xfd, 0xef, 0x4b, 0xd9, 0x57,
        0x81, 0x24, 0xfb, 0x21, 0xbf, 0x97, 0xa7, 0x9c, 0x5a, 0x84, 0x85, 0x2b, 0xc5, 0x57,
        0x40, 0x9e, 0x24, 0x57, 0x88, 0x77, 0xc6, 0xe3, 0xf9, 0xbc, 0x45, 0x6b, 0x49, 0x7e,
        0xa4, 0x5f, 0xa6, 0xc9, 0x9a, 0x59, 0xcb, 0xd5, 0x4f, 0x9c, 0xca, 0x62, 0xe0, 0x01,
        0x65, 0x77, 0x97, 0xd2, 0x74, 0x34, 0x8f, 0xb3, 0x8e, 0xdb, 0x2a, 0x22, 0x9c, 0xc7,
        0x4d, 0x52, 0x38, 0xb3, 0xc6, 0xb0, 0x45, 0xf2, 0x9e, 0x0e, 0xa7, 0xd0, 0x9b, 0x85,
        0x02, 0x74, 0x49, 0x52, 0x61, 0xfa, 0x33, 0x13, 0xd9, 0xb8, 0x95, 0x9c, 0x69, 0xfc,
        0x82, 0x12, 0x11, 0xeb, 0x93, 0x23, 0x79, 0x6d, 0x15, 0x7a, 0x99, 0x33, 0x51, 0x7d,
        0x0a, 0x51, 0x76, 0x76, 0x5f, 0x7f, 0xd6, 0x57, 0xf1, 0xfc, 0xc9, 0x75, 0x7c, 0x62,
        0xa1, 0x14, 0xef, 0x46, 0x6f, 0x13, 0xf3, 0x78, 0x3c, 0x36, 0x69, 0x69, 0x23, 0x75,
        0xd0, 0x10, 0xb4, 0x89, 0x4f, 0xeb, 0xbb, 0x20, 0x93, 0xf5, 0x0f, 0x3f, 0x13, 0x93,
        0x8b, 0x20, 0x10, 0x8c, 0xd4, 0x96, 0xe2, 0xa1, 0x9f, 0xc2, 0x8e, 0x88, 0x83, 0x18,
        0x16, 0x28, 0xb5, 0x55, 0x5d, 0x05, 0x99, 0x57, 0xd4, 0x55, 0x0b, 0x99, 0xf5, 0x73,
        0x94, 0xe4, 0xee, 0xf9, 0x12, 0x14, 0xac, 0xd3, 0xb0, 0x2b, 0x81, 0xb4, 0x3a, 0x3f,
        0x43, 0xb3, 0x43, 0xe8, 0x85, 0x04, 0x7e, 0x41, 0xd5, 0xc9, 0xd5, 0x83, 0xe5, 0x74,
        0x3d, 0x20, 0x24, 0x73, 0x5b, 0xee, 0x5e, 0xb4, 0xda, 0x0d, 0xad, 0xd6, 0x33, 0x7b,
        0x8f, 0x6b, 0x0d, 0xb2, 0x7d, 0x36, 0x32, 0x13, 0x94, 0xda, 0x5a, 0x84, 0x8c, 0xef,
        0xd8, 0x3c, 0x32, 0xa2, 0x93, 0x6c, 0x56, 0x3b, 0x58, 0xc9, 0x20, 0x85, 0x25, 0xf0,
        0xc5, 0x7a, 0xbe, 0xd9, 0xd9, 0x0e, 0x42, 0xf2, 0xb3, 0x4c, 0xaf, 0x76, 0x70, 0x4b,
        0x98, 0xb5, 0xd8, 0x47, 0xdf, 0x8f, 0x5b, 0xe2, 0x1f, 0xcb, 0x3f, 0x05, 0x1e, 0x2b,
        0xfe, 0xd2, 0x18, 0x12, 0x71, 0x3f, 0x94, 0xef, 0x4f, 0x03, 0x3e, 0xb4, 0x80, 0xb5,
        0x51, 0x50, 0x74, 0xad, 0xbc, 0x4b, 0xc0, 0xa2, 0x63, 0x54, 0xc3, 0x43, 0x8e, 0x76,
        0x26, 0x54, 0x86, 0x7a, 0x96, 0x7b, 0x58, 0x1c, 0x54, 0x12, 0xd7, 0x65, 0x95, 0x0a,
        0x4a, 0xe3, 0xa3, 0xd4, 0xcc, 0x97,
    ],
    &[0x01, 0x00, 0x01],
);

#[test]
fn mpi_standard_bitlength() {
    assert_eq!(1, get_mpi_bits(&[0x01]));
}

#[test]
fn mpi_complex_bitlength() {
    assert_eq!(
        255,
        get_mpi_bits(&[
            0x6b, 0xee, 0x77, 0xd9, 0x82, 0xf2, 0x12, 0x82, 0xcb, 0x2e, 0x68, 0x9a, 0x23, 0xf9,
            0xff, 0xc8, 0x1d, 0xa2, 0x95, 0xae, 0x2f, 0x6d, 0x9a, 0x6b, 0xd2, 0xa5, 0x3f, 0x96,
            0x56, 0xea, 0x10, 0xae
        ])
    );
}

#[test]
fn public_key_serialization() {
    let public_key = PKPacket::new(RSA_PUBLIC_KEY, Some(0x60fc16a7));
    assert!(public_key.is_encodable());
    let formatted = public_key.to_formatted_bytes();
    assert_eq!(&formatted[..3], &[0x99, 0x01, 0x8d]);
    assert_eq!(formatted.len(), 3 + 0x18d);
}

#[test]
fn public_key_keyid() {
    let public_key = PKPacket::new(RSA_PUBLIC_KEY, Some(0x60fc16a7));

    assert_eq!(
        public_key.keyid(),
        &[0xD3, 0x8B, 0x2A, 0xC8, 0x1B, 0xA3, 0x6F, 0xA3]
    );
}

#[test]
fn public_key_fingerprint() {
    let public_key = PKPacket::new(RSA_PUBLIC_KEY, Some(0x60fc16a7));

    assert_eq!(
        public_key.fingerprint(),
        &[
            0xb6, 0x57, 0x58, 0x37, 0x9a, 0x42, 0x62, 0x5f, 0xc8, 0x44, 0xc4, 0x1a, 0xd3, 0x8b,
            0x2a, 0xc8, 0x1b, 0xa3, 0x6f, 0xa3
        ]
    );
}

#[test]
fn signature_serialization() {
    let partial_signature = PartialSignature {
        version: Version::V4,
        sigtype: SigType::Binary,
        pubkey_algo: PublicKeyAlgorithm::ECDSA,
        hash_algo: HashAlgo::SHA2_256,
        subpackets: vec![
            HSigSubpacket::Fingerprint(vec![
                0xa1, 0xd5, 0x00, 0x04, 0x13, 0xa0, 0xb7, 0xff, 0x19, 0x34, 0xd2, 0x97, 0xd1,
                0x1d, 0xdb, 0x06, 0x0e, 0x9b, 0xfa, 0xe6,
            ]),
            HSigSubpacket::CreationTime(1627558312),
        ],
    };
    let mut signature = Signature::new(
        partial_signature,
        [0x8a, 0x59],
        SignatureData::ECDSA(
            vec![
                0x3c, 0xbc, 0xf8, 0x15, 0xb0, 0x81, 0x11, 0xb2, 0x44, 0xa0, 0x33, 0xc7, 0x41,
                0x4a, 0x1b, 0xed, 0x66, 0x87, 0xb4, 0x5b, 0x37, 0xf7, 0x63, 0x53, 0x3f, 0x7d,
                0xc2, 0x7f, 0xb2, 0x2c, 0x1a, 0xb0,
            ],
            vec![
                0x56, 0x34, 0xc3, 0xfc, 0x3c, 0xc1, 0xe9, 0x99, 0xd1, 0xd4, 0x56, 0xcd, 0xac,
                0x3e, 0xa9, 0xc5, 0x7b, 0x9b, 0x5a, 0x7b, 0xdd, 0xb8, 0xb5, 0x05, 0xb0, 0xb8,
                0xc5, 0xcd, 0xf8, 0x6a, 0xaa, 0x86,
            ],
        ),
    );

    signature.subpackets.push(SigSubpacket::KeyID(vec![
        0xd1, 0x1d, 0xdb, 0x06, 0x0e, 0x9b, 0xfa, 0xe6,
    ]));

    let signature_bytes = signature.to_formatted_bytes();
    let sample_signature = &[
        0x88, 0x75, 0x04, 0x00, 0x13, 0x08, 0x00, 0x1d, 0x16, 0x21, 0x04, 0xa1, 0xd5, 0x00,
        0x04, 0x13, 0xa0, 0xb7, 0xff, 0x19, 0x34, 0xd2, 0x97, 0xd1, 0x1d, 0xdb, 0x06, 0x0e,
        0x9b, 0xfa, 0xe6, 0x05, 0x02, 0x61, 0x02, 0x91, 0xa8, 0x00, 0x0a, 0x09, 0x10, 0xd1,
        0x1d, 0xdb, 0x06, 0x0e, 0x9b, 0xfa, 0xe6, 0x8a, 0x59, 0x00, 0xfe, 0x3c, 0xbc, 0xf8,
        0x15, 0xb0, 0x81, 0x11, 0xb2, 0x44, 0xa0, 0x33, 0xc7, 0x41, 0x4a, 0x1b, 0xed, 0x66,
        0x87, 0xb4, 0x5b, 0x37, 0xf7, 0x63, 0x53, 0x3f, 0x7d, 0xc2, 0x7f, 0xb2, 0x2c, 0x1a,
        0xb0, 0x00, 0xff, 0x56, 0x34, 0xc3, 0xfc, 0x3c, 0xc1, 0xe9, 0x99, 0xd1, 0xd4, 0x56,
        0xcd, 0xac, 0x3e, 0xa9, 0xc5, 0x7b, 0x9b, 0x5a, 0x7b, 0xdd, 0xb8, 0xb5, 0x05, 0xb0,
        0xb8, 0xc5, 0xcd, 0xf8, 0x6a, 0xaa, 0x86,
    ];

    assert_eq!(signature_bytes, sample_signature);
    assert_eq!(signature_bytes.len(), 119);
}

#[test]
fn radix64_basic_conversion() {
    assert_eq!(
        vec![70, 80, 117, 99, 65, 57, 108, 43],
        binary_to_radix64(&[0x14, 0xFB, 0x9C, 0x03, 0xD9, 0x7E])
    );
}

#[test]
fn radix64_padded_conversion() {
    assert_eq!(
        vec![70, 80, 117, 99, 65, 57, 107, 61],
        binary_to_radix64(&[0x14, 0xFB, 0x9C, 0x03, 0xD9])
    );
}

fn unhex_pgp(text: &str) -> Vec<u8> {
    let digits: Vec<u8> = text
        .bytes()
        .map(|c| match c {
            b'0'..=b'9' => c - b'0',
            b'a'..=b'f' => c - b'a' + 10,
            _ => c - b'A' + 10,
        })
        .collect();
    digits.chunks(2).map(|p| p[0] * 16 + p[1]).collect()
}

const POINT_X: [u8; 32] = [
    0xFE, 0xF3, 0xAA, 0xBB, 0x21, 0xA8, 0x8F, 0xEA, 0x5B, 0xC5, 0x02, 0xFD, 0x73, 0x4C, 0x58, 0xEB,
    0xFC, 0x8B, 0x90, 0x66, 0x97, 0xF1, 0xB9, 0xED, 0x20, 0x89, 0x47, 0x9D, 0x4A, 0x8E, 0x77, 0xA9,
];

const POINT_Y: [u8; 32] = [
    0x1E, 0x67, 0xA0, 0xA2, 0x61, 0x3D, 0xD9, 0xEB, 0x1C, 0xC8, 0x91, 0xCD, 0x64, 0xE5, 0x42, 0x0D,
    0xA8, 0xC6, 0xC9, 0x3B, 0x61, 0xA9, 0x1E, 0xE3, 0xA4, 0x68, 0xA0, 0xB1, 0x58, 0x08, 0x4A, 0x1D,
];

#[test]
fn secp256k1_key_packet_matches_gnupg() {
    let key = PublicKey::ECDSA(dit::pgp::CurveOID::Secp256k1, &POINT_X, &POINT_Y);
    let packet = PKPacket::new(key, Some(0x60F8184A));
    let formatted = packet.to_formatted_bytes();
    assert_eq!(formatted[0], 0x98);
    assert_eq!(formatted[1], 0x4F);
    assert_eq!(formatted.len(), 2 + 0x4F);
    assert_eq!(
        formatted,
        unhex_pgp("984f0460f8184a13052b8104000a020304fef3aabb21a88fea5bc502fd734c58ebfc8b906697f1b9ed2089479d4a8e77a91e67a0a2613dd9eb1cc891cd64e5420da8c6c93b61a91ee3a468a0b158084a1d")
    );
    assert_eq!(packet.keyid(), vec![0xD1, 0x1D, 0xDB, 0x06, 0x0E, 0x9B, 0xFA, 0xE6]);
    assert_eq!(
        packet.fingerprint(),
        unhex_pgp("A1D5000413A0B7FF1934D297D11DDB060E9BFAE6")
    );
}

#[test]
fn fingerprint_has_twenty_octets_and_ends_in_the_keyid() {
    let key = PublicKey::ECDSA(dit::pgp::CurveOID::Secp256k1, &POINT_X, &POINT_Y);
    let packet = PKPacket::new(key, Some(7));
    let before = packet.fingerprint();
    let _ = packet.to_formatted_bytes();
    let _ = packet.to_hashable_bytes();
    let after = packet.fingerprint();
    assert_eq!(before, after);
    assert_eq!(before.len(), 20);
    assert_eq!(packet.keyid(), before[12..].to_vec());
}

#[test]
fn short_coordinates_are_padded_to_the_field() {
    let long = PublicKey::ECDSA(dit::pgp::CurveOID::Secp256k1, &[0, 0, 0, 0, 0, 0, 0, 0, 0, 0, 0, 0, 0, 0, 0, 0, 0, 0, 0, 0, 0, 0, 0, 0, 0, 0, 0, 0, 0, 0, 0, 5], &POINT_Y);
    let short = PublicKey::ECDSA(dit::pgp::CurveOID::Secp256k1, &[5], &POINT_Y);
    assert_eq!(long.to_raw_bytes(), short.to_raw_bytes());
    let raw = short.to_raw_bytes();
    assert_eq!(raw.len(), 1 + 5 + 2 + 1 + 64);
    assert_eq!(&raw[6..9], &[0x02, 0x03, 0x04]);
    assert!(short.is_encodable());
    let too_long = [1u8; 33];
    assert!(!PublicKey::ECDSA(dit::pgp::CurveOID::Secp256k1, &too_long, &POINT_Y).is_encodable());
}

#[test]
fn packet_header_takes_the_shortest_length() {
    assert_eq!(calculate_packet_header(&[], PacketHeader::Signature), vec![0x88, 0x00]);
    assert_eq!(calculate_packet_header(&[0u8; 255], PacketHeader::PublicKey), vec![0x98, 0xFF]);
    assert_eq!(calculate_packet_header(&[0u8; 256], PacketHeader::UserID), vec![0xB5, 0x01, 0x00]);
    assert_eq!(
        calculate_packet_header(&vec![0u8; 65535], PacketHeader::Signature),
        vec![0x89, 0xFF, 0xFF]
    );
    assert_eq!(
        calculate_packet_header(&vec![0u8; 65536], PacketHeader::Signature),
        vec![0x8A, 0x00, 0x01, 0x00, 0x00]
    );
}

#[test]
fn subpacket_length_takes_the_shortest_form() {
    assert_eq!(format_subpacket_length(0), vec![0]);
    assert_eq!(format_subpacket_length(191), vec![191]);
    assert_eq!(format_subpacket_length(192), vec![192, 0]);
    assert_eq!(format_subpacket_length(1000), vec![195, 40]);
    assert_eq!(format_subpacket_length(8383), vec![223, 255]);
    assert_eq!(format_subpacket_length(8384), vec![255, 0, 0, 0x20, 0xC0]);
    assert_eq!(format_subpacket_length(0xFFFF_FFFF), vec![255, 255, 255, 255, 255]);
}

#[test]
fn user_id_views() {
    let uid = dit::pgp::UserID { user: "Alice".to_string(), email: "a@x".to_string() };
    assert_eq!(uid.to_raw_bytes(), b"Alice <a@x>".to_vec());
    assert_eq!(uid.to_formatted_bytes(), [&[0xB4u8, 11][..], b"Alice <a@x>"].concat());
    assert_eq!(uid.to_hashable_bytes(), [&[0xB4u8, 0, 0, 0, 11][..], b"Alice <a@x>"].concat());
}

#[test]
fn creation_time_keeps_the_low_32_bits() {
    assert_eq!(duration_to_bytes(1627558312), vec![0x61, 0x02, 0x91, 0xa8]);
    assert_eq!(duration_to_bytes(0x1_0000_0005), vec![0, 0, 0, 5]);
}

#[test]
fn signature_hashable_ends_in_the_trailer() {
    let partial = PartialSignature::new(SigType::Binary, PublicKeyAlgorithm::ECDSA, Some(1700000000));
    let raw = partial.to_raw_bytes();
    assert_eq!(raw, vec![4, 0, 0x13, 8, 0, 6, 5, 2, 0x65, 0x53, 0xF1, 0x00]);
    let hashable = partial.to_hashable_bytes();
    assert_eq!(&hashable[..raw.len()], &raw[..]);
    assert_eq!(&hashable[raw.len()..], &[0x04, 0xFF, 0, 0, 0, 12]);
}

#[test]
fn new_key_message_carries_the_gnupg_certification() {
    let mut message = dit::pgp::Message::new();
    assert!(message.is_empty());
    let keyid = message.new_public_key(
        PublicKey::ECDSA(dit::pgp::CurveOID::Secp256k1, &POINT_X, &POINT_Y),
        "Alice".to_string(),
        "a@x".to_string(),
        0x60F8184A,
    );
    assert_eq!(keyid, unhex_pgp("d11ddb060e9bfae6"));
    assert!(message.is_pending());
    assert_eq!(
        message.get_hashable(),
        unhex_pgp("99004f0460f8184a13052b8104000a020304fef3aabb21a88fea5bc502fd734c58ebfc8b906697f1b9ed2089479d4a8e77a91e67a0a2613dd9eb1cc891cd64e5420da8c6c93b61a91ee3a468a0b158084a1db40000000b416c696365203c6140783e041013080034050260f8184a162104a1d5000413a0b7ff1934d297d11ddb060e9bfae6021b02050b0908070205150a09080b041602030102178004ff0000003a")
    );
    let digest = message.get_sha256_hash(None);
    assert_eq!(
        digest,
        unhex_pgp("1c490c1367739add87907a99a64745874ce307a67e5012ffca380b4038af810e")
    );
    let done = message.finalize_signature(
        [digest[0], digest[1]],
        keyid,
        SignatureData::ECDSA(
            unhex_pgp("3cbcf815b08111b244a033c7414a1bed6687b45b37f763533f7dc27fb22c1ab0"),
            unhex_pgp("5634c3fc3cc1e999d1d456cdac3ea9c57b9b5a7bddb8b505b0b8c5cdf86aaa86"),
        ),
    );
    assert!(done);
    assert!(!message.is_pending());
    assert_eq!(
        message.get_formatted_message(),
        unhex_pgp("984f0460f8184a13052b8104000a020304fef3aabb21a88fea5bc502fd734c58ebfc8b906697f1b9ed2089479d4a8e77a91e67a0a2613dd9eb1cc891cd64e5420da8c6c93b61a91ee3a468a0b158084a1db40b416c696365203c6140783e888c041013080034050260f8184a162104a1d5000413a0b7ff1934d297d11ddb060e9bfae6021b02050b0908070205150a09080b0416020301021780000a0910d11ddb060e9bfae61c4900fe3cbcf815b08111b244a033c7414a1bed6687b45b37f763533f7dc27fb22c1ab000ff5634c3fc3cc1e999d1d456cdac3ea9c57b9b5a7bddb8b505b0b8c5cdf86aaa86")
    );
}

#[test]
fn finalizing_twice_changes_nothing() {
    let mut message = dit::pgp::Message::new();
    message.new_signature(1700000000);
    assert!(message.finalize_signature(
        [1, 2],
        vec![0; 8],
        SignatureData::ECDSA(vec![1], vec![2])
    ));
    let once = message.get_formatted_message();
    assert!(!message.finalize_signature(
        [3, 4],
        vec![9; 8],
        SignatureData::ECDSA(vec![5], vec![6])
    ));
    assert_eq!(message.get_formatted_message(), once);
    let mut empty = dit::pgp::Message::new();
    assert!(!empty.finalize_signature([0, 0], vec![0; 8], SignatureData::ECDSA(vec![1], vec![1])));
    assert!(empty.is_empty());
}

#[test]
fn sha256_of_a_signed_document() {
    let message = dit::pgp::Message::new();
    assert_eq!(
        message.get_sha256_hash(Some(b"abc".to_vec())),
        unhex_pgp("ba7816bf8f01cfea414140de5dae2223b00361a396177a9cb410ff61f20015ad")
    );
}

#[test]
fn oversized_values_are_not_encodable() {
    assert!(!SignatureData::ECDSA(vec![], vec![1]).is_encodable());
    assert!(!SignatureData::ECDSA(vec![1], vec![0; 8192]).is_encodable());
    assert!(SignatureData::ECDSA(vec![1], vec![0; 8191]).is_encodable());
    let big = PartialSignature {
        version: Version::V4,
        sigtype: SigType::Binary,
        pubkey_algo: PublicKeyAlgorithm::ECDSA,
        hash_algo: HashAlgo::SHA2_256,
        subpackets: vec![HSigSubpacket::Fingerprint(vec![0; 70000])],
    };
    assert!(!big.is_encodable());
}

#[test]
fn unhashed_key_id_subpacket() {
    let keyid = SigSubpacket::KeyID(vec![1, 2, 3, 4, 5, 6, 7, 8]);
    assert_eq!(keyid.to_raw_bytes(), vec![1, 2, 3, 4, 5, 6, 7, 8]);
    assert_eq!(keyid.to_formatted_bytes(), vec![9, 0x10, 1, 2, 3, 4, 5, 6, 7, 8]);
    assert_eq!(keyid.to_hashable_bytes(), vec![0xB4, 0, 0, 0, 8, 1, 2, 3, 4, 5, 6, 7, 8]);
}

#[test]
fn hashed_subpackets_raw_and_formatted() {
    let flags = HSigSubpacket::KeyFlags(KeyFlags::CanSign);
    assert_eq!(flags.to_raw_bytes(), vec![2]);
    assert_eq!(flags.to_formatted_bytes(), vec![2, 0x1b, 2]);
    let ciphers = HSigSubpacket::PreferredSymmetricAlgos(vec![
        SymmetricAlgos::AES256,
        SymmetricAlgos::TripleDES,
    ]);
    assert_eq!(ciphers.to_formatted_bytes(), vec![3, 0x0b, 9, 2]);
    let hashes = HSigSubpacket::PreferredHashAlgos(vec![HashAlgo::SHA2_512, HashAlgo::SHA2_224]);
    assert_eq!(hashes.to_hashable_bytes(), vec![3, 0x15, 10, 11]);
    let zips = HSigSubpacket::PreferredCompressionAlgos(vec![CompressionAlgos::ZIP]);
    assert_eq!(zips.to_formatted_bytes(), vec![2, 0x16, 1]);
    let pref = HSigSubpacket::KeyServerPreference(0x80);
    assert_eq!(pref.to_formatted_bytes(), vec![2, 0x17, 0x80]);
    let print = HSigSubpacket::Fingerprint(vec![7; 20]);
    assert_eq!(print.to_raw_bytes(), vec![7; 20]);
    assert_eq!(print.to_formatted_bytes()[..3], [22, 0x21, 4]);
}

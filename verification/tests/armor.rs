use dit::armor::{armor_binary_output, dearmor_binary_output};
use dit::crc24::{checksum_octets, crc24_checksum};
use dit::radix64::{binary_to_radix64, radix64_to_binary};

#[test]
fn crc24_check_value() {
    assert_eq!(crc24_checksum(b"123456789"), 0x21CF02);
    assert_eq!(crc24_checksum(b""), 0xB704CE);
    assert_eq!(checksum_octets(0x21CF02), vec![0x21, 0xCF, 0x02]);
}

#[test]
fn armor_of_a_small_body() {
    assert_eq!(
        armor_binary_output(&[0x14, 0xFB, 0x9C, 0x03, 0xD9, 0x7E]),
        b"-----BEGIN PGP SIGNATURE-----\n\nFPucA9l+\n=abPZ\n-----END PGP SIGNATURE-----\n".to_vec()
    );
    assert_eq!(
        armor_binary_output(&[]),
        b"-----BEGIN PGP SIGNATURE-----\n\n\n=twTO\n-----END PGP SIGNATURE-----\n".to_vec()
    );
}

#[test]
fn armor_round_trip() {
    let mut body: Vec<u8> = Vec::new();
    for n in 0..300usize {
        assert_eq!(dearmor_binary_output(&armor_binary_output(&body)), Some(body.clone()));
        body.push((n * 37 % 256) as u8);
    }
}

#[test]
fn dearmor_rejects_what_is_no_armor() {
    let good = armor_binary_output(&[1, 2, 3, 4]);
    assert_eq!(dearmor_binary_output(&good), Some(vec![1, 2, 3, 4]));
    assert_eq!(dearmor_binary_output(b""), None);
    assert_eq!(dearmor_binary_output(&good[1..]), None);
    assert_eq!(dearmor_binary_output(&good[..good.len() - 1]), None);
    let mut wrong_sum = good.clone();
    let at = good.len() - 30;
    wrong_sum[at] = if wrong_sum[at] == b'A' { b'B' } else { b'A' };
    assert_eq!(dearmor_binary_output(&wrong_sum), None);
    let mut wrong_body = good.clone();
    wrong_body[31] = if wrong_body[31] == b'A' { b'B' } else { b'A' };
    assert_eq!(dearmor_binary_output(&wrong_body), None);
    let mut trailing = good.clone();
    trailing.push(b'\n');
    assert_eq!(dearmor_binary_output(&trailing), None);
}

#[test]
fn radix64_round_trip_and_rejections() {
    assert_eq!(binary_to_radix64(&[]), Vec::<u8>::new());
    assert_eq!(binary_to_radix64(&[0xFF]), b"/w==".to_vec());
    assert_eq!(binary_to_radix64(b"any carnal pleas"), b"YW55IGNhcm5hbCBwbGVhcw==".to_vec());
    assert_eq!(radix64_to_binary(b"FPucA9l+"), Some(vec![0x14, 0xFB, 0x9C, 0x03, 0xD9, 0x7E]));
    assert_eq!(radix64_to_binary(b"FPucA9k="), Some(vec![0x14, 0xFB, 0x9C, 0x03, 0xD9]));
    assert_eq!(radix64_to_binary(b"/w=="), Some(vec![0xFF]));
    assert_eq!(radix64_to_binary(b"/x=="), None);
    assert_eq!(radix64_to_binary(b"FPucA9l"), None);
    assert_eq!(radix64_to_binary(b"FPuc A9l"), None);
    assert_eq!(radix64_to_binary(b"FP==A9l+"), None);
    assert_eq!(radix64_to_binary(b"===="), None);
}

fn unhex_armor(text: &str) -> Vec<u8> {
    let digits: Vec<u8> = text
        .bytes()
        .map(|c| match c {
            b'0'..=b'9' => c - b'0',
            _ => c - b'a' + 10,
        })
        .collect();
    digits.chunks(2).map(|p| p[0] * 16 + p[1]).collect()
}

#[test]
fn sha512_as_a_number() {
    assert_eq!(
        dit::hashes::sha512_hash(b"abc"),
        unhex_armor("ddaf35a193617abacc417349ae20413112e6fa4e89a97ea20a9eeee64b55d39a2192992a274fc1a836ba3c23a3feebbd454d4423643ce80e2a9ac94fa54ca49f")
    );
    assert_eq!(
        dit::hashes::sha512_hash(b"61"),
        unhex_armor("819bedf0933e1d682112566d00541fa0ebcdbfda053ee2399bb9d51da4ea809b9ca4252ed318b0046fc43ef66853ff2872e2fd894bf371f6683a15bdaaee74")
    );
}

//! Numbers, lists and the bytes that are signed or stored.

use onreapp_fuzz::bytes::{key_at, to_signed, to_word, u128_at, u16_at, u64_at};
use onreapp_fuzz::ed25519::{scout_ed25519_instruction, ApprovalMessage};
use onreapp_fuzz::keys::ED25519_PROGRAM_ID;
use onreapp_fuzz::text::{list_names, to_chars, to_decimal};

#[test]
fn numbers_are_written_in_decimal() {
    for n in [0u128, 7, 10, 99, 100, 1_700_000_000, u64::MAX as u128, u128::MAX] {
        assert_eq!(to_decimal(n), format!("{n}"));
    }
}

#[test]
fn lists_are_split_at_commas_and_trimmed() {
    assert!(list_names("P-0002", "P-0002"));
    assert!(list_names("P-0004, P-0002 ,P-0008", "P-0002"));
    assert!(list_names("\u{3000}P-0002\u{a0}", "P-0002"));
    assert!(list_names(",,P-0002", "P-0002"));
    assert!(!list_names("P-00021", "P-0002"));
    assert!(!list_names("P-0002;P-0003", "P-0002"));
    assert!(!list_names("", "P-0002"));
    assert!(list_names("a,,b", ""));
    assert!(!list_names("a b", "a"));
    assert!(!list_names("\u{200b}P-0002", "P-0002"));
}

#[test]
fn lists_agree_with_the_standard_library_on_white_space() {
    for code in 0..0x3100u32 {
        if let Some(c) = char::from_u32(code) {
            let padded = format!("{c}x{c}");
            assert_eq!(list_names(&padded, "x"), padded.trim() == "x" && c != ',' || c == ',');
        }
    }
}

#[test]
fn characters_are_taken_one_by_one() {
    assert_eq!(to_chars("a\u{e9}\u{1f600}"), vec!['a', '\u{e9}', '\u{1f600}']);
    assert!(to_chars("").is_empty());
}

#[test]
fn words_are_read_little_endian() {
    let mut data: Vec<u8> = Vec::new();
    data.push(9);
    data.extend_from_slice(&0x1234u16.to_le_bytes());
    data.extend_from_slice(&0x0102_0304_0506_0708u64.to_le_bytes());
    data.extend_from_slice(&(u128::MAX - 5).to_le_bytes());
    data.extend_from_slice(&[6u8; 32]);
    assert_eq!(u16_at(&data, 1), 0x1234);
    assert_eq!(u64_at(&data, 3), 0x0102_0304_0506_0708);
    assert_eq!(u128_at(&data, 11), u128::MAX - 5);
    assert_eq!(key_at(&data, 27), [6u8; 32]);
}

#[test]
fn words_are_read_as_signed_and_back() {
    for n in [0i64, 1, -1, i64::MAX, i64::MIN, 1_700_000_000] {
        assert_eq!(to_word(n), n as u64);
        assert_eq!(to_signed(n as u64), n);
    }
}

#[test]
fn the_precompile_instruction_is_laid_out_as_documented() {
    let ix = scout_ed25519_instruction(&[5u8; 32], &[8u8; 64], b"hello");
    assert_eq!(ix.program_id, ED25519_PROGRAM_ID);
    let mut expected: Vec<u8> = vec![
        1, 0, 48, 0, 255, 255, 16, 0, 255, 255, 112, 0, 5, 0, 255, 255,
    ];
    expected.extend_from_slice(&[5u8; 32]);
    expected.extend_from_slice(&[8u8; 64]);
    expected.extend_from_slice(b"hello");
    assert_eq!(ix.data, expected);
}

#[test]
fn a_long_message_wraps_the_size_field() {
    let message = vec![3u8; 65_536 + 7];
    let ix = scout_ed25519_instruction(&[0u8; 32], &[0u8; 64], &message);
    assert_eq!(u16_at(&ix.data, 12), 7);
    assert_eq!(ix.data.len(), 112 + 65_536 + 7);
}

#[test]
fn an_approval_is_72_bytes() {
    let message = ApprovalMessage {
        program_id: [1u8; 32],
        user_pubkey: [2u8; 32],
        expiry_unix: 0x0102,
    };
    let bytes = message.to_bytes();
    assert_eq!(bytes.len(), 72);
    assert_eq!(&bytes[..32], &[1u8; 32]);
    assert_eq!(&bytes[32..64], &[2u8; 32]);
    assert_eq!(&bytes[64..], &[2, 1, 0, 0, 0, 0, 0, 0]);
}

use bootcamp3::bytes::{same_address, u64_to_le_bytes};
use bootcamp3::keypair::{keypair_from_secret_text, LoadKeypairError};
use bootcamp3::secret_key::{parse_piece, parse_u8_chars, secret_key_bytes, trim_chars, CharClass};
use solana_sdk::signer::keypair::Keypair;
use solana_sdk::signer::Signer;

fn chars(s: &str) -> Vec<char> {
    s.chars().collect()
}

fn secret_text(bytes: &[u8]) -> String {
    let parts: Vec<String> = bytes.iter().map(|b| b.to_string()).collect();
    format!("[{}]", parts.join(", "))
}

#[test]
fn parses_a_plain_list() {
    assert_eq!(secret_key_bytes("[1, 2, 3]"), Some(vec![1u8, 2, 3]));
}

#[test]
fn a_piece_that_is_no_byte_spoils_the_text() {
    assert_eq!(secret_key_bytes("[ 1 , +7, 255 ]"), Some(vec![1u8, 7, 255]));
    for bad in ["[1,x]", "[1,300]", "[-1,2]", "[1,,2]", "[1,2,]"] {
        assert_eq!(secret_key_bytes(bad), None, "{bad:?}");
    }
}

#[test]
fn strips_every_outer_bracket() {
    assert_eq!(secret_key_bytes("[[1,2]]"), Some(vec![1u8, 2]));
    assert_eq!(secret_key_bytes("]]5,6[["), Some(vec![5u8, 6]));
}

#[test]
fn inner_brackets_spoil_their_piece() {
    assert_eq!(secret_key_bytes("[1,[2],3]"), None);
}

#[test]
fn empty_and_bracket_only_texts_are_no_list() {
    assert_eq!(secret_key_bytes(""), None);
    assert_eq!(secret_key_bytes("[]"), None);
    assert_eq!(secret_key_bytes("[[]]"), None);
}

#[test]
fn unicode_white_space_is_trimmed() {
    assert_eq!(secret_key_bytes("[\u{a0}5\u{3000},\t6\n]"), Some(vec![5u8, 6]));
}

#[test]
fn u8_parsing_follows_std() {
    for s in ["0", "007", "+9", "255", "256", "", "+", "-", "-0", "1 2", "a", "99999999999"] {
        assert_eq!(parse_u8_chars(&chars(s)), s.parse::<u8>().ok(), "{s:?}");
    }
}

#[test]
fn piece_is_trimmed_then_parsed() {
    assert_eq!(parse_piece(&chars("  42 ")), Some(42));
    assert_eq!(parse_piece(&chars(" 4 2 ")), None);
}

#[test]
fn trim_matches_std() {
    let s = "[[ab]c]]";
    let t: String = trim_chars(&chars(s), CharClass::Brackets).into_iter().collect();
    assert_eq!(t, s.trim_matches(&['[', ']'][..]));
    let w = " \u{2002}x y\u{85} ";
    let t: String = trim_chars(&chars(w), CharClass::Whitespace).into_iter().collect();
    assert_eq!(t, w.trim());
}

#[test]
fn loads_a_real_keypair() {
    let k = Keypair::new();
    let text = secret_text(&k.to_bytes());
    let (loaded, bytes) = keypair_from_secret_text(&text).unwrap();
    assert_eq!(loaded.pubkey(), k.pubkey());
    assert_eq!(loaded.to_bytes(), k.to_bytes());
    assert_eq!(bytes, k.to_bytes());
}

#[test]
fn wrong_length_is_refused() {
    let k = Keypair::new();
    let text = secret_text(&k.to_bytes()[..63]);
    assert_eq!(keypair_from_secret_text(&text).err(), Some(LoadKeypairError::IncorrectLength));
    let mut long = k.to_bytes().to_vec();
    long.push(1);
    assert_eq!(keypair_from_secret_text(&secret_text(&long)).err(), Some(LoadKeypairError::IncorrectLength));
}

#[test]
fn an_extra_piece_that_is_no_byte_is_refused() {
    let k = Keypair::new();
    let text = format!("{}, abc]", secret_text(&k.to_bytes()).trim_end_matches(']'));
    assert_eq!(keypair_from_secret_text(&text).err(), Some(LoadKeypairError::UnparsableByte));
}

#[test]
fn mismatched_public_half_is_refused() {
    let a = Keypair::new();
    let b = Keypair::new();
    let mut bytes = a.to_bytes();
    bytes[32..].copy_from_slice(&b.to_bytes()[32..]);
    assert_eq!(
        keypair_from_secret_text(&secret_text(&bytes)).err(),
        Some(LoadKeypairError::InvalidSecretKey)
    );
}

#[test]
fn le_bytes_match_std() {
    for x in [0u64, 1, 255, 256, 0x0102030405060708, u64::MAX] {
        assert_eq!(u64_to_le_bytes(x), x.to_le_bytes().to_vec());
    }
}

#[test]
fn address_equality() {
    let a = [7u8; 32];
    let mut b = a;
    assert!(same_address(&a, &b));
    b[31] = 8;
    assert!(!same_address(&a, &b));
}

#[test]
fn printed_keypair_loads_back() {
    let k = Keypair::new();
    let printed = format!("{:?}", k.to_bytes());
    assert_eq!(secret_key_bytes(&printed), Some(k.to_bytes().to_vec()));
    let (loaded, bytes) = keypair_from_secret_text(&printed).unwrap();
    assert_eq!(loaded.pubkey(), k.pubkey());
    assert_eq!(loaded.to_bytes(), k.to_bytes());
    assert_eq!(bytes, k.to_bytes());
}

#[test]
fn printed_byte_lists_read_back() {
    for bytes in [vec![0u8], vec![255u8, 0, 10, 99, 100]] {
        assert_eq!(secret_key_bytes(&format!("{:?}", bytes)), Some(bytes));
    }
}

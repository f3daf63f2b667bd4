use ffi_support::guid::is_base64url_byte;
use ffi_support::Guid;

#[test]
fn test_base64url_bytes() {
    let mut expect = [0u8; 256];
    for b in b'0'..=b'9' {
        expect[b as usize] = 1;
    }
    for b in b'a'..=b'z' {
        expect[b as usize] = 1;
    }
    for b in b'A'..=b'Z' {
        expect[b as usize] = 1;
    }
    expect[b'_' as usize] = 1;
    expect[b'-' as usize] = 1;
    let mut table = [0u8; 256];
    for b in 0..256usize {
        table[b] = is_base64url_byte(b as u8) as u8;
    }
    assert_eq!(&table[..], &expect[..]);
}

#[test]
fn test_valid_for_places() {
    assert!(Guid::is_valid_for_places("aaaabbbbcccc".as_bytes()));
    assert!(Guid::is_valid_for_places(b"09_az-AZ_09-"));
    assert!(!Guid::is_valid_for_places("aaaabbbbccccd".as_bytes())); // too long
    assert!(!Guid::is_valid_for_places("aaaabbbbccc".as_bytes())); // too short
    assert!(!Guid::is_valid_for_places("aaaabbbbccc ".as_bytes())); // right length, bad character (ascii)
    assert!(!Guid::is_valid_for_places("aaaabbbbccc√º".as_bytes())); // right length, bad character (unicode)
    assert!(!Guid::is_valid_for_places(b"aaaabbbbccc\xa0")); // invalid utf8
}

#[test]
fn test_comparison() {
    assert_eq!(Guid::from("abcdabcdabcd"), "abcdabcdabcd");
    assert_ne!(Guid::from("abcdabcdabcd".to_string()), "ABCDabcdabcd");

    assert_eq!(Guid::from("abcdabcdabcd"), &b"abcdabcdabcd"[..]); // b"abcdabcdabcd" has type &[u8; 12]...
    assert_ne!(Guid::from_bytes(&b"abcdabcdabcd"[..]), &b"ABCDabcdabcd"[..]);

    assert_eq!(Guid::from_bytes(&"abcdabcdabcd".as_bytes().to_owned()), "abcdabcdabcd".to_string());
    assert_ne!(Guid::from("abcdabcdabcd"), "ABCDabcdabcd".to_string());

    assert_eq!(Guid::from("abcdabcdabcd1234"), Vec::from(b"abcdabcdabcd1234".as_ref()));
    assert_ne!(Guid::from("abcdabcdabcd4321"), Vec::from(b"ABCDabcdabcd4321".as_ref()));
}

#[test]
fn guid_converts_back_to_text_and_bytes() {
    let g = Guid::from("aaaabbbbcccc");
    assert_eq!(String::from(g.clone()), "aaaabbbbcccc".to_string());
    assert_eq!(Vec::<u8>::from(g.clone()), b"aaaabbbbcccc".to_vec());
    let s: &str = g.as_ref();
    assert_eq!(s, "aaaabbbbcccc");
    let b: &[u8] = g.as_ref();
    assert_eq!(b, b"aaaabbbbcccc");
    assert_eq!(g.len(), 12);
    let long = Guid::from("a much longer guid".to_string());
    assert_eq!(Vec::<u8>::from(long.clone()), b"a much longer guid".to_vec());
    assert_eq!(String::from(long), "a much longer guid".to_string());
}

#[test]
fn guid_of_invalid_utf8_is_refused() {
    assert!(Guid::try_from_bytes(b"aaaabbbbccc\xa0").is_none());
    assert!(Guid::try_from_bytes(b"\xff").is_none());
}

#[test]
fn guid_keeps_long_and_short_text() {
    let long = Guid::from_str("not a places guid, but still a guid");
    assert_eq!(long.as_str(), "not a places guid, but still a guid");
    assert_eq!(long.as_bytes(), "not a places guid, but still a guid".as_bytes());
    let fast = Guid::from_str("aaaabbbbcccc");
    assert_eq!(fast.as_str(), "aaaabbbbcccc");
    assert_eq!(fast.clone().into_string(), "aaaabbbbcccc".to_string());
    assert_eq!(long.clone().into_string(), "not a places guid, but still a guid".to_string());
    let empty = Guid::from_str("");
    assert_eq!(empty.as_bytes().len(), 0);
}

#[test]
fn guid_from_bytes_matches_from_str() {
    let a = Guid::try_from_bytes("aaaabbbbccc√º".as_bytes()).unwrap();
    let b = Guid::from_str("aaaabbbbccc√º");
    assert_eq!(a, b);
    assert_eq!(a.as_str(), "aaaabbbbccc√º");
    let c = Guid::from_bytes(b"09_az-AZ_09-");
    assert_eq!(c, Guid::from_str("09_az-AZ_09-"));
    assert_ne!(c, b);
}

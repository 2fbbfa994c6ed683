use aerowan::identity::{
    api_key_from_bytes, api_key_from_file, generate_api_key, generate_iroh_key_bytes,
    iroh_key_from_file, KeyFileError,
};

#[test]
fn api_key_file_is_trimmed() {
    assert_eq!(api_key_from_file("  ab12\n"), "ab12");
    assert_eq!(api_key_from_file("\t\r\n"), "");
}

#[test]
fn api_key_is_lower_hex() {
    assert_eq!(api_key_from_bytes([0x00, 0xff]), "00ff");
    assert_eq!(api_key_from_bytes([0xab, 0x1c]), "ab1c");
    let k = generate_api_key().expect("OS random source");
    assert_eq!(k.len(), 4);
    assert!(k.chars().all(|c| c.is_ascii_hexdigit() && !c.is_ascii_uppercase()));
}

#[test]
fn generated_api_key_reads_back() {
    let k = generate_api_key().expect("OS random source");
    assert_eq!(api_key_from_file(&k), k);
    assert_eq!(api_key_from_file(&format!("{}\n", k)), k);
}

#[test]
fn iroh_key_needs_32_bytes() {
    let good: Vec<u8> = (0u8..32).collect();
    let k = iroh_key_from_file(&good).unwrap();
    assert_eq!(k.to_vec(), good);
    assert_eq!(iroh_key_from_file(&vec![1u8; 31]), Err(KeyFileError::WrongLength));
    assert_eq!(iroh_key_from_file(&vec![1u8; 33]), Err(KeyFileError::WrongLength));
    assert_eq!(KeyFileError::WrongLength.message(), "iroh key file has wrong length");
    let fresh: Option<[u8; 32]> = generate_iroh_key_bytes();
    assert!(fresh.is_some());
}

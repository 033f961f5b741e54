use vercel_cache_helper::constants::{valid_extension_list, CACHE_DIR_NAME};
use vercel_cache_helper::utils::{
    generate_hash, id_to_cache_key, is_zstd_compressed, should_archive, to_hex_upper,
};
use vercel_cache_helper::Error;

#[test]
fn zstd_magic_is_recognised() {
    assert!(is_zstd_compressed(&[0x28, 0xB5, 0x2F, 0xFD]));
    assert!(is_zstd_compressed(&[0x28, 0xB5, 0x2F, 0xFD, 0x00, 0x01]));
}

#[test]
fn short_or_other_data_is_not_zstd() {
    assert!(!is_zstd_compressed(&[]));
    assert!(!is_zstd_compressed(&[0x28, 0xB5, 0x2F]));
    assert!(!is_zstd_compressed(&[0x1F, 0x8B, 0x08, 0x00]));
    assert!(!is_zstd_compressed(&[0x28, 0xB5, 0x2F, 0xFE]));
    assert!(!is_zstd_compressed(&[0x00, 0x28, 0xB5, 0x2F, 0xFD]));
}

#[test]
fn cache_key_replaces_separators() {
    assert_eq!(id_to_cache_key("/home/user/project"), "_home_user_project");
    assert_eq!(id_to_cache_key("C:\\Users\\me\\site"), "C:_Users_me_site");
    assert_eq!(id_to_cache_key("a/b\\c"), "a_b_c");
}

#[test]
fn cache_key_keeps_other_characters() {
    assert_eq!(id_to_cache_key(""), "");
    assert_eq!(id_to_cache_key("plain-name.v2"), "plain-name.v2");
    assert_eq!(id_to_cache_key("/été/日本"), "_été_日本");
}

#[test]
fn cache_key_is_flat_and_stable() {
    let key = id_to_cache_key("/srv//www\\x/");
    assert_eq!(key, "_srv__www_x_");
    assert!(!key.contains('/') && !key.contains('\\'));
    assert_eq!(key.chars().count(), "/srv//www\\x/".chars().count());
    assert_eq!(id_to_cache_key(&key), key);
}

#[test]
fn hex_is_upper_case_two_digits_per_byte() {
    assert_eq!(to_hex_upper(&[0xbe, 0xef]), "BEEF");
    assert_eq!(to_hex_upper(&[0x00, 0x0f, 0xa0, 0xff]), "000FA0FF");
    assert_eq!(to_hex_upper(&[]), "");
}

#[test]
fn hex_distinguishes_byte_sequences() {
    assert_ne!(to_hex_upper(&[0x01, 0x23]), to_hex_upper(&[0x12, 0x03]));
    assert_ne!(to_hex_upper(&[0x00]), to_hex_upper(&[0x00, 0x00]));
}

#[test]
fn hash_of_empty_content() {
    assert_eq!(
        generate_hash(b""),
        "E3B0C44298FC1C149AFBF4C8996FB92427AE41E4649B934CA495991B7852B855"
    );
}

#[test]
fn hash_of_abc() {
    assert_eq!(
        generate_hash(b"abc"),
        "BA7816BF8F01CFEA414140DE5DAE2223B00361A396177A9CB410FF61F20015AD"
    );
}

#[test]
fn hash_is_sixty_four_upper_hex_digits() {
    let hash = generate_hash(b"some build output");
    assert_eq!(hash.len(), 64);
    assert!(hash.chars().all(|c| c.is_ascii_digit() || ('A'..='F').contains(&c)));
    assert_eq!(hash, generate_hash(b"some build output"));
    assert_ne!(hash, generate_hash(b"some build output!"));
}

fn parts(items: &[&str]) -> Vec<String> {
    items.iter().map(|s| s.to_string()).collect()
}

#[test]
fn archive_packs_files_with_a_valid_extension() {
    assert!(should_archive(&parts(&[".build", "index.html"]), Some("html")));
    assert!(should_archive(&parts(&["cache", "data.json"]), Some("json")));
}

#[test]
fn archive_extension_is_compared_in_lower_case() {
    assert!(should_archive(&parts(&[".build", "INDEX.HTML"]), Some("HTML")));
    assert!(should_archive(&parts(&["logo.Png"]), Some("Png")));
}

#[test]
fn archive_skips_other_files() {
    assert!(!should_archive(&parts(&[".build", "tool.exe"]), Some("exe")));
    assert!(!should_archive(&parts(&[".build", "README"]), None));
    assert!(!should_archive(&parts(&[]), None));
}

#[test]
fn archive_skips_the_dash_directory() {
    assert!(!should_archive(&parts(&["-", "index.html"]), Some("html")));
    assert!(!should_archive(&parts(&["-"]), None));
    assert!(should_archive(&parts(&["-x", "index.html"]), Some("html")));
    assert!(should_archive(&parts(&[".build", "-", "index.html"]), Some("html")));
}

#[test]
fn valid_extensions_are_lower_case() {
    let list = valid_extension_list();
    assert!(list.contains(&"html"));
    assert!(list.contains(&"css"));
    assert!(list.iter().all(|e| e.to_lowercase() == *e));
    assert_eq!(CACHE_DIR_NAME, "fastn.com");
}

#[test]
fn error_messages_name_their_kind() {
    assert_eq!(Error::FileNotFound("a.txt".to_string()).message(), "File not found: a.txt");
    assert_eq!(Error::InvalidInput("bad".to_string()).message(), "Invalid input: bad");
    assert_eq!(
        Error::EnvVarNotFound("VERCEL_TOKEN".to_string()).message(),
        "Environment variable not found: VERCEL_TOKEN"
    );
    assert_eq!(Error::ReqwestError("timeout".to_string()).message(), "Reqwest error: timeout");
    assert_eq!(Error::Other("boom".to_string()).message(), "Other error: boom");
    assert_eq!(Error::FileNotFound(String::new()).message(), "File not found: ");
}

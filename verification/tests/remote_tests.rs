use tinymemory::remote::{container_tag, urlencoding};

#[test]
fn a_cursor_is_escaped_far_beyond_the_characters_a_scope_carries() {
    assert_eq!(
        urlencoding("tm:oc/tm:acme-1/tm:facts"),
        "tm%3Aoc%2Ftm%3Aacme-1%2Ftm%3Afacts"
    );
    assert_eq!(urlencoding("a+b&c=d#e?f"), "a%2Bb%26c%3Dd%23e%3Ff");
    assert_eq!(urlencoding("Az09-._~"), "Az09-._~");
    assert_eq!(urlencoding("é"), "%C3%A9");
}

#[test]
fn supermemory_container_tags_cover_arbitrary_contract_namespaces() {
    let unusual = format!("tenant / 🧠 / {}", "x".repeat(500));
    let tag = container_tag(&unusual);

    assert!(tag.starts_with("tinymemory:tm_"));
    assert!(tag.len() <= 100);
    assert!(tag
        .bytes()
        .all(|byte| { byte.is_ascii_alphanumeric() || matches!(byte, b'_' | b':' | b'-') }));
    assert_eq!(tag, container_tag(&unusual));
}

#[test]
fn a_container_tag_is_the_sha256_of_the_namespace() {
    // SHA-256 of the empty string and of "abc", FIPS 180-2 test vectors.
    assert_eq!(
        container_tag(""),
        "tinymemory:tm_e3b0c44298fc1c149afbf4c8996fb92427ae41e4649b934ca495991b7852b855"
    );
    assert_eq!(
        container_tag("abc"),
        "tinymemory:tm_ba7816bf8f01cfea414140de5dae2223b00361a396177a9cb410ff61f20015ad"
    );
    assert_ne!(container_tag("notes"), container_tag("notes "));
}

#[test]
fn an_empty_cursor_encodes_to_nothing() {
    assert_eq!(urlencoding(""), "");
    assert_eq!(urlencoding(" "), "%20");
}

use chunked::encoding::{hex_lower, push_decimal};
use chunked::sha::sha256;
use chunked::ufid::{file_id, FileIdentifier};

const EMPTY_DIGEST: &str = "e3b0c44298fc1c149afbf4c8996fb92427ae41e4649b934ca495991b7852b855";

#[test]
fn empty_file_has_the_empty_digest() {
    assert_eq!(file_id(b""), EMPTY_DIGEST);
    assert_eq!(FileIdentifier::new().finish(), EMPTY_DIGEST);
}

#[test]
fn file_id_is_the_hex_sha256() {
    assert_eq!(
        file_id(b"Hello, World!"),
        "dffd6021bb2bd5b0af676290809ec3a53191dd81c7f70a4b28688a362182986f"
    );
}

#[test]
fn file_id_does_not_depend_on_block_size() {
    let content: Vec<u8> = (0..5000u32).map(|i| (i * 31 % 251) as u8).collect();
    let whole = file_id(&content);
    for block in [1usize, 7, 64, 1024, 4096, 5000] {
        let mut id = FileIdentifier::new();
        for piece in content.chunks(block) {
            id.feed(piece);
        }
        assert_eq!(id.finish(), whole);
    }
    assert_eq!(file_id(&content), whole);
}

#[test]
fn sha256_gives_32_bytes() {
    let d = sha256(&[1, 2, 3, 4, 5]);
    assert_eq!(
        hex_lower(&d),
        "74f81fe167d99b4cb41d6d0ccda82278caee9f3e2f25d5e5a3936ff3dcec60d0"
    );
}

#[test]
fn hex_and_decimal_text() {
    assert_eq!(hex_lower(&[]), "");
    assert_eq!(hex_lower(&[0x01, 0xab, 0x7f]), "01ab7f");
    let mut s = String::from("n=");
    push_decimal(&mut s, 0);
    assert_eq!(s, "n=0");
    let mut s = String::new();
    push_decimal(&mut s, 1000);
    assert_eq!(s, "1000");
}

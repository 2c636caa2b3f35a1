use direnv_status::fingerprint::{allow_hash, allow_input, deny_hash, deny_input, hex_lower};
use sha2::{Digest, Sha256};

fn reference(parts: &[&[u8]]) -> String {
    let mut hasher = Sha256::new();
    for p in parts {
        hasher.update(p);
    }
    format!("{:x}", hasher.finalize())
}

#[test]
fn hex_of_given_bytes() {
    assert_eq!(hex_lower(&[]), "");
    assert_eq!(hex_lower(&[0x00]), "00");
    assert_eq!(hex_lower(&[0x0a, 0x14, 0x1e]), "0a141e");
    assert_eq!(hex_lower(&[0xde, 0xad, 0xbe, 0xef, 0x09, 0x90, 0xff]), "deadbeef0990ff");
}

#[test]
fn hex_of_every_byte() {
    for b in 0..=255u8 {
        assert_eq!(hex_lower(&[b]), format!("{:02x}", b));
    }
}

#[test]
fn inputs_are_path_line_feed_content() {
    assert_eq!(allow_input("/w/.envrc", b"export A=1\n"), b"/w/.envrc\nexport A=1\n".to_vec());
    assert_eq!(allow_input("", b""), b"\n".to_vec());
    assert_eq!(deny_input("/w/.envrc"), b"/w/.envrc\n".to_vec());
    assert_eq!(allow_input("/caf\u{e9}", &[0xff, 0x00]), vec![0x2f, 0x63, 0x61, 0x66, 0xc3, 0xa9, 0x0a, 0xff, 0x00]);
}

#[test]
fn deny_hash_of_given_paths() {
    // SHA-256 of a single line feed.
    assert_eq!(
        deny_hash(""),
        "01ba4719c80b6fe911b091a7c05124b64eeece964e09c058ef8f9805daca546b"
    );
    // SHA-256 of "abc" followed by a line feed.
    assert_eq!(
        deny_hash("abc"),
        "edeaaff3f1774ad2888673770c6d64097e391bc362d7d6fb34982ddf0efd18cb"
    );
}

#[test]
fn allow_hash_of_given_file() {
    // SHA-256 of "abc" followed by a line feed: the path "a", then the
    // line feed, then the content "bc\n" would differ.
    assert_eq!(
        allow_hash("abc", b""),
        "edeaaff3f1774ad2888673770c6d64097e391bc362d7d6fb34982ddf0efd18cb"
    );
    assert_eq!(allow_hash("", b""), deny_hash(""));
}

#[test]
fn hashes_agree_with_streaming_digest() {
    let files: [(&str, &[u8]); 4] = [
        ("/home/u/project/.envrc", b"export PATH=$PWD/bin:$PATH\n"),
        ("/home/u/project/.envrc", b"export PATH=$PWD/bin:$PATH\n# edited\n"),
        ("/srv/\u{fc}ber/.envrc", b""),
        ("relative/.envrc", &[0, 159, 146, 150]),
    ];
    for (path, content) in files {
        assert_eq!(allow_hash(path, content), reference(&[path.as_bytes(), b"\n", content]));
        assert_eq!(deny_hash(path), reference(&[path.as_bytes(), b"\n"]));
        assert_eq!(allow_hash(path, content).len(), 64);
    }
}

#[test]
fn an_edit_changes_the_allow_hash_only() {
    let path = "/home/u/project/.envrc";
    assert_ne!(allow_hash(path, b"one"), allow_hash(path, b"two"));
    assert_ne!(allow_hash(path, b"one"), deny_hash(path));
    assert_eq!(deny_hash(path), deny_hash(path));
}

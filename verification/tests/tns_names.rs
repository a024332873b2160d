use alloy::primitives::Address;
use consumer::tns::Tns;

fn hex_bytes(text: &str) -> Vec<u8> {
    (0..text.len() / 2)
        .map(|i| u8::from_str_radix(&text[2 * i..2 * i + 2], 16).unwrap())
        .collect()
}

#[test]
fn test_namehash_empty() {
    assert_eq!(Tns::namehash(""), vec![0u8; 32]);
}

#[test]
fn test_namehash_trust() {
    let hash = Tns::namehash("trust");
    assert_eq!(hash.len(), 32);
    assert_ne!(hash, vec![0u8; 32]);
}

#[test]
fn test_namehash_alice_trust() {
    let hash = Tns::namehash("alice.trust");
    assert_eq!(hash.len(), 32);
    assert_ne!(hash, vec![0u8; 32]);
    assert_ne!(hash, Tns::namehash("trust"));
}

#[test]
fn test_namehash_consistency() {
    let hash1 = Tns::namehash("alice.trust");
    let hash2 = Tns::namehash("alice.trust");
    assert_eq!(hash1, hash2);
}

#[test]
fn test_namehash_different_names() {
    let hash_alice = Tns::namehash("alice.trust");
    let hash_bob = Tns::namehash("bob.trust");
    assert_ne!(hash_alice, hash_bob);
}

#[test]
fn test_prepare_reverse_name() {
    let address: Address = "0xf1016a7fe89eb9d244c3bfb270071b24619e36c6".parse().unwrap();
    let reverse = Tns::prepare_reverse_name(address.into_array());
    assert_eq!(reverse, "f1016a7fe89eb9d244c3bfb270071b24619e36c6.addr.reverse");
}

#[test]
fn test_ensure_trust_suffix() {
    assert_eq!(Tns::ensure_trust_suffix("alice"), "alice.trust");
    assert_eq!(Tns::ensure_trust_suffix("alice.trust"), "alice.trust");
    assert_eq!(Tns::ensure_trust_suffix("bob.sub"), "bob.sub.trust");
}

#[test]
fn namehash_matches_the_published_eth_vectors() {
    assert_eq!(
        Tns::namehash("eth"),
        hex_bytes("93cdeb708b7545dc668eb9280176169d1c33cfd8ed6f04690a0bcc88a93fc4ae")
    );
    assert_eq!(
        Tns::namehash("foo.eth"),
        hex_bytes("de9b09fd7c5f901e23a3f19fecc54828e9c848539801e86591bd9801b019f84f")
    );
}

#[test]
fn namehash_builds_on_the_parent_node() {
    let parent = Tns::namehash("trust");
    let mut preimage = parent.clone();
    preimage.extend_from_slice(alloy::primitives::keccak256(b"alice").as_slice());
    let expected = alloy::primitives::keccak256(&preimage).to_vec();
    assert_eq!(Tns::namehash("alice.trust"), expected);
}

#[test]
fn namehash_counts_empty_labels() {
    assert_ne!(Tns::namehash("alice..trust"), Tns::namehash("alice.trust"));
    assert_ne!(Tns::namehash("."), vec![0u8; 32]);
    assert_eq!(Tns::namehash(".").len(), 32);
}

#[test]
fn ensure_trust_suffix_is_idempotent() {
    for name in ["", "alice", "alice.trust", ".trust", "trust", "a.trustx"] {
        let once = Tns::ensure_trust_suffix(name);
        assert!(once.ends_with(".trust"));
        assert_eq!(Tns::ensure_trust_suffix(&once), once);
    }
    assert_eq!(Tns::ensure_trust_suffix(""), ".trust");
    assert_eq!(Tns::ensure_trust_suffix("trust"), "trust.trust");
}

#[test]
fn node_for_name_hashes_the_trust_name() {
    assert_eq!(Tns::node_for_name("alice"), Tns::namehash("alice.trust"));
    assert_eq!(Tns::node_for_name("alice.trust"), Tns::namehash("alice.trust"));
}

#[test]
fn reverse_name_ignores_checksum_case_and_keeps_zeros() {
    let zero = Tns::prepare_reverse_name([0u8; 20]);
    assert_eq!(zero, "0000000000000000000000000000000000000000.addr.reverse");
    let mixed: Address = "0xd8dA6BF26964aF9D7eEd9e03E53415D37aA96045".parse().unwrap();
    assert_eq!(
        Tns::prepare_reverse_name(mixed.into_array()),
        "d8da6bf26964af9d7eed9e03e53415d37aa96045.addr.reverse"
    );
}

#[test]
fn reverse_node_hashes_the_reverse_name() {
    let address: Address = "0xf1016a7fe89eb9d244c3bfb270071b24619e36c6".parse().unwrap();
    assert_eq!(
        Tns::reverse_node(address.into_array()),
        Tns::namehash("f1016a7fe89eb9d244c3bfb270071b24619e36c6.addr.reverse")
    );
}

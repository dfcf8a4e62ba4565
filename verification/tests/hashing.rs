use textchain::chain::{block, hash, push, sentinel_string, Block};
use textchain::encoding::encoding;

fn genesis_block(text: &str) -> Block {
    Block { previous: " ".repeat(64), text: String::from(text) }
}

#[test]
fn sentinel_is_64_spaces() {
    let s = sentinel_string();
    assert_eq!(s.len(), 64);
    assert!(s.chars().all(|c| c == ' '));
}

#[test]
fn hash_is_deterministic() {
    let b = genesis_block("hello");
    let first = hash(&b);
    let second = hash(&b);
    assert_eq!(first, second);
}

#[test]
fn hash_is_64_lowercase_hex() {
    let b = genesis_block("some payload");
    let h = hash(&b);
    assert_eq!(h.len(), 64);
    assert!(h.chars().all(|c| c.is_ascii_hexdigit() && !c.is_ascii_uppercase()));
}

#[test]
fn hash_of_genesis_hello() {
    let b = genesis_block("hello");
    assert_eq!(hash(&b), "fc8c269ad9168b1825c2bc4051f819fbda0b84a32094c941e85b05acc8b46887");
}

#[test]
fn hash_escapes_special_characters() {
    let b = Block {
        previous: String::from("abc"),
        text: String::from("quote \" backslash \\ newline \n tab \t ctrl \u{1} end"),
    };
    assert_eq!(hash(&b), "affcbae2f0bb31d47e0a04c2ce364cf8ca22958ccd2a58232b278a833595641f");
}

#[test]
fn hash_depends_on_contents() {
    let a = genesis_block("hello");
    let b = genesis_block("hello!");
    assert_ne!(hash(&a), hash(&b));
}

#[test]
fn encoding_matches_serde_json() {
    let cases = [
        (" ".repeat(64), String::from("hello")),
        (String::from("abc"), String::from("quote \" backslash \\ newline \n tab \t ctrl \u{1} end")),
        (String::from(""), String::from("unicode caf\u{e9} \u{1f600}")),
    ];
    for (previous, text) in cases {
        let b = Block { previous: previous.clone(), text: text.clone() };
        let mut object = serde_json::Map::new();
        object.insert(String::from("previous"), serde_json::Value::String(previous));
        object.insert(String::from("text"), serde_json::Value::String(text));
        let expected = serde_json::Value::Object(object).to_string();
        assert_eq!(encoding(&b), expected.into_bytes());
    }
}

#[test]
fn hash_matches_recomputed_digest() {
    let b = Block { previous: String::from("xyz"), text: String::from("payload\n") };
    let digest = <sha2::Sha256 as sha2::Digest>::digest(encoding(&b));
    assert_eq!(hash(&b), hex::encode(digest));
}

#[test]
fn build_on_empty_chain_uses_sentinel() {
    let chain: Vec<Block> = Vec::new();
    let b = block(&chain, &String::from("hello"));
    assert_eq!(b.previous, " ".repeat(64));
    assert_eq!(b.text, "hello");
}

#[test]
fn build_links_to_tip() {
    let mut chain: Vec<Block> = Vec::new();
    push(&genesis_block("first"), &mut chain);
    let b = block(&chain, &String::from("second"));
    assert_eq!(b.previous, hash(&chain[0]));
    assert_eq!(b.text, "second");
}

#[test]
fn genesis_acceptance_ignores_previous() {
    let mut chain: Vec<Block> = Vec::new();
    let stray = Block { previous: String::from("garbage"), text: String::from("boot") };
    push(&stray, &mut chain);
    assert_eq!(chain.len(), 1);
    assert_eq!(chain[0].previous, "garbage");
    assert_eq!(chain[0].text, "boot");
}

#[test]
fn fresh_chain_accepts_hello_block() {
    let mut chain: Vec<Block> = Vec::new();
    let b = genesis_block("hello");
    push(&b, &mut chain);
    assert_eq!(chain.len(), 1);
    assert_eq!(chain[0].previous, b.previous);
    assert_eq!(chain[0].text, "hello");
}

#[test]
fn linked_block_appends_then_garbage_is_dropped() {
    let mut chain: Vec<Block> = Vec::new();
    let b0 = genesis_block("hello");
    push(&b0, &mut chain);
    let h0 = hash(&chain[0]);
    let b1 = Block { previous: h0.clone(), text: String::from("world") };
    push(&b1, &mut chain);
    assert_eq!(chain.len(), 2);
    assert_eq!(chain[1].previous, h0);
    assert_eq!(chain[1].text, "world");
    let stray = Block { previous: String::from("garbage"), text: String::from("x") };
    push(&stray, &mut chain);
    assert_eq!(chain.len(), 2);
    assert_eq!(chain[1].text, "world");
}

#[test]
fn repeated_rejected_pushes_never_grow_the_chain() {
    let mut chain: Vec<Block> = Vec::new();
    push(&genesis_block("hello"), &mut chain);
    let stray = Block { previous: String::from("unlinked"), text: String::from("x") };
    for _ in 0..5 {
        push(&stray, &mut chain);
        assert_eq!(chain.len(), 1);
    }
    assert_eq!(chain[0].text, "hello");
}

#[test]
fn stale_tip_extension_is_dropped() {
    let mut chain: Vec<Block> = Vec::new();
    let b0 = genesis_block("hello");
    push(&b0, &mut chain);
    let onto_genesis = Block { previous: hash(&b0), text: String::from("world") };
    push(&onto_genesis, &mut chain);
    // A block that extends the old tip, not the current one, is dropped.
    let stale = Block { previous: hash(&b0), text: String::from("late") };
    push(&stale, &mut chain);
    assert_eq!(chain.len(), 2);
}

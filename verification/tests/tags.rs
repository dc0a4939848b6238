use rfs_core::fs::checksum::ContentHash;
use rfs_core::tags::TagMap;

#[test]
fn new_tag_map_is_empty() {
    let tags = TagMap::new();
    assert_eq!(tags.len(), 0);
    assert!(tags.is_empty());
    assert!(!tags.contains_key("a"));
    assert!(tags.get("a").is_none());
    assert!(tags.entries().is_empty());
}

#[test]
fn insert_adds_and_replaces() {
    let mut tags = TagMap::new();
    assert_eq!(tags.insert(String::from("color"), Some(String::from("red"))), None);
    assert_eq!(tags.insert(String::from("flag"), None), None);
    assert_eq!(tags.len(), 2);
    assert_eq!(tags.get("color"), Some(&Some(String::from("red"))));
    assert_eq!(tags.get("flag"), Some(&None));
    assert_eq!(
        tags.insert(String::from("color"), Some(String::from("blue"))),
        Some(Some(String::from("red")))
    );
    assert_eq!(tags.len(), 2);
    assert_eq!(tags.get("color"), Some(&Some(String::from("blue"))));
    assert_eq!(tags.insert(String::from("flag"), Some(String::from("x"))), Some(None));
}

#[test]
fn remove_takes_one_tag_out() {
    let mut tags = TagMap::new();
    tags.insert(String::from("a"), Some(String::from("1")));
    tags.insert(String::from("b"), None);
    tags.insert(String::from("c"), Some(String::from("3")));
    assert_eq!(tags.remove("b"), Some(None));
    assert_eq!(tags.remove("b"), None);
    assert_eq!(tags.len(), 2);
    assert!(tags.contains_key("a"));
    assert!(!tags.contains_key("b"));
    assert_eq!(tags.get("c"), Some(&Some(String::from("3"))));
    assert_eq!(tags.remove("a"), Some(Some(String::from("1"))));
    assert_eq!(tags.remove("c"), Some(Some(String::from("3"))));
    assert!(tags.is_empty());
}

#[test]
fn entries_list_every_tag_once() {
    let mut tags = TagMap::new();
    tags.insert(String::from("a"), Some(String::from("1")));
    tags.insert(String::from("b"), None);
    tags.insert(String::from("a"), Some(String::from("2")));
    let mut list: Vec<(String, Option<String>)> =
        tags.entries().into_iter().map(|e| (e.name, e.value)).collect();
    list.sort();
    assert_eq!(
        list,
        vec![(String::from("a"), Some(String::from("2"))), (String::from("b"), None)]
    );
}

#[test]
fn clone_holds_the_same_tags() {
    let mut tags = TagMap::new();
    tags.insert(String::from("a"), Some(String::from("1")));
    let mut copy = tags.clone();
    assert_eq!(copy.len(), 1);
    assert_eq!(copy.get("a"), Some(&Some(String::from("1"))));
    copy.insert(String::from("b"), None);
    assert_eq!(tags.len(), 1);
    assert_eq!(copy.len(), 2);
}

#[test]
fn hash_is_read_from_exactly_32_bytes() {
    let bytes: Vec<u8> = (0u8..32).collect();
    let hash = ContentHash::from_bytes(&bytes).unwrap();
    assert_eq!(hash.to_bytes(), bytes);
    assert_eq!(hash.bytes[31], 31);
    assert!(ContentHash::from_bytes(&bytes[..31].to_vec()).is_none());
    let mut longer = bytes.clone();
    longer.push(0);
    assert!(ContentHash::from_bytes(&longer).is_none());
    assert!(ContentHash::from_bytes(&Vec::new()).is_none());
}

#[test]
fn hash_matches_only_the_same_digest() {
    let a = ContentHash::from_bytes(&vec![1u8; 32]).unwrap();
    let b = ContentHash::from_bytes(&vec![1u8; 32]).unwrap();
    let mut other = vec![1u8; 32];
    other[31] = 2;
    let c = ContentHash::from_bytes(&other).unwrap();
    assert!(a.matches(&b));
    assert!(!a.matches(&c));
    assert!(!c.matches(&a));
}

fn hex(bytes: &[u8]) -> String {
    let mut out = String::new();
    for b in bytes {
        out.push_str(format!("{:02x}", b).as_str());
    }
    out
}

#[test]
fn hash_of_no_content_is_the_known_digest() {
    let hash = ContentHash::of(&[]);
    assert_eq!(
        hex(&hash.bytes),
        "af1349b9f5f9a1a6a0404dea36dcc9499bcb25c9adc112b7cc9a93cae41f3262"
    );
}

#[test]
fn hash_is_the_digest_of_the_content() {
    let content = b"the quick brown fox";
    let hash = ContentHash::of(content);
    assert_eq!(hash.bytes, *blake3::hash(content).as_bytes());
    assert_ne!(hash.bytes.to_vec(), content.to_vec());
    assert!(!hash.matches(&ContentHash::of(b"the quick brown fix")));
    assert!(hash.matches(&ContentHash::of(content)));
}

#[test]
fn hash_verifies_only_the_content_it_was_taken_of() {
    let hash = ContentHash::of(b"abc");
    assert!(hash.verifies(b"abc"));
    assert!(!hash.verifies(b"abd"));
    assert!(!hash.verifies(b""));
    let stored = ContentHash::from_bytes(&hash.to_bytes()).unwrap();
    assert!(stored.verifies(b"abc"));
}

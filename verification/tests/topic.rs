use core::cmp::Ordering;
use gossipsub::encoding::encode_topic_descriptor;
use gossipsub::encoding::encode_varint;
use gossipsub::topic::compare_str;
use gossipsub::Hasher;
use gossipsub::IdentityHash;
use gossipsub::Sha256Hash;
use gossipsub::Topic;
use gossipsub::TopicHash;

#[test]
fn varint_small_values_fit_one_byte() {
    assert_eq!(encode_varint(0), vec![0u8]);
    assert_eq!(encode_varint(1), vec![1u8]);
    assert_eq!(encode_varint(127), vec![127u8]);
}

#[test]
fn varint_larger_values_use_continuation_bytes() {
    assert_eq!(encode_varint(128), vec![0x80u8, 0x01]);
    assert_eq!(encode_varint(300), vec![0xacu8, 0x02]);
    assert_eq!(encode_varint(16384), vec![0x80u8, 0x80, 0x01]);
}

#[test]
fn envelope_of_short_name() {
    assert_eq!(
        encode_topic_descriptor("chat"),
        vec![0x0au8, 4, b'c', b'h', b'a', b't'],
    );
}

#[test]
fn envelope_of_empty_name() {
    assert_eq!(encode_topic_descriptor(""), vec![0x0au8, 0]);
}

#[test]
fn envelope_counts_utf8_bytes_not_chars() {
    // A two-byte character: the length prefix counts bytes.
    assert_eq!(encode_topic_descriptor("é"), vec![0x0au8, 2, 0xc3, 0xa9]);
}

#[test]
fn envelope_of_long_name_has_two_byte_length() {
    let name = "x".repeat(200);
    let bytes = encode_topic_descriptor(&name);
    assert_eq!(bytes.len(), 1 + 2 + 200);
    assert_eq!(&bytes[0..3], &[0x0au8, 0xc8, 0x01]);
    assert!(bytes[3..].iter().all(|&b| b == b'x'));
}

#[test]
fn identity_hash_returns_the_name() {
    let key = IdentityHash::hash("chat".to_string());
    assert_eq!(key.as_str(), "chat");
    let empty = IdentityHash::hash(String::new());
    assert_eq!(empty.as_str(), "");
}

#[test]
fn derivation_is_deterministic() {
    for name in ["", "chat", "chat-room-1", "ça va"] {
        let a = Sha256Hash::hash(name.to_string());
        let b = Sha256Hash::hash(name.to_string());
        assert_eq!(a, b);
        let c = IdentityHash::hash(name.to_string());
        let d = IdentityHash::hash(name.to_string());
        assert_eq!(c, d);
    }
}

#[test]
fn sha256_key_of_empty_name_is_stable() {
    let key = Sha256Hash::hash(String::new());
    assert_eq!(key.as_str(), "ECtRuXZaVqPomffPDuOOUlH5xQOzV7MwpJGD63sVVgQ=");
    assert_eq!(key.as_str().len(), 44);
}

#[test]
fn sha256_key_of_chat_is_stable() {
    let key = Sha256Hash::hash("chat".to_string());
    assert_eq!(key.as_str(), "vnMHo9XjLj+XSZzQ73SDAi6cvjCVJjM/LJcnpHi6CCk=");
}

#[test]
fn sha256_key_is_case_sensitive() {
    let lower = Sha256Hash::hash("chat".to_string());
    let upper = Sha256Hash::hash("Chat".to_string());
    assert_ne!(lower, upper);
}

#[test]
fn sha256_key_has_fixed_length() {
    for len in [0usize, 1, 2, 3, 4, 5, 31, 32, 33, 100, 1000, 10000] {
        let name = "a".repeat(len);
        let key = Sha256Hash::hash(name);
        assert_eq!(key.as_str().len(), 44);
    }
}

#[test]
fn sha256_key_does_not_reveal_the_name() {
    for len in 1usize..200 {
        let name = "a".repeat(len);
        let key = Sha256Hash::hash(name.clone());
        assert_ne!(key.as_str(), name.as_str());
    }
    let tricky = "ECtRuXZaVqPomffPDuOOUlH5xQOzV7MwpJGD63sVVgQ=";
    let key = Sha256Hash::hash(tricky.to_string());
    assert_ne!(key.as_str(), tricky);
}

#[test]
fn sha256_keys_of_distinct_names_do_not_collide() {
    let mut keys: Vec<String> = Vec::new();
    for i in 0..300 {
        let name = format!("topic-{}", i);
        keys.push(Sha256Hash::hash(name).into_string());
    }
    for i in 0..keys.len() {
        for j in (i + 1)..keys.len() {
            assert_ne!(keys[i], keys[j]);
        }
    }
}

#[test]
fn from_raw_round_trips_through_to_string() {
    for raw in ["", "a", "chat", "vnMHo9XjLj+XSZzQ73SDAi6cvjCVJjM/LJcnpHi6CCk="] {
        let key = TopicHash::from_raw(raw.to_string());
        let rebuilt = TopicHash::from_raw(key.clone().into_string());
        assert_eq!(rebuilt, key);
        assert_eq!(key.as_str(), raw);
    }
}

#[test]
fn keys_order_as_their_strings() {
    let samples = ["", "a", "ab", "abc", "b", "ba", "chat", "Chat", "z", "é"];
    for a in samples {
        for b in samples {
            let ka = TopicHash::from_raw(a.to_string());
            let kb = TopicHash::from_raw(b.to_string());
            assert_eq!(ka < kb, a < b);
            assert_eq!(ka == kb, a == b);
            assert_eq!(ka.partial_cmp(&kb), a.partial_cmp(b));
        }
    }
}

#[test]
fn compare_str_orders_lexicographically() {
    assert_eq!(compare_str("abc", "abd"), Ordering::Less);
    assert_eq!(compare_str("ab", "abc"), Ordering::Less);
    assert_eq!(compare_str("abc", "abc"), Ordering::Equal);
    assert_eq!(compare_str("b", "abc"), Ordering::Greater);
    assert_eq!(compare_str("", ""), Ordering::Equal);
    assert_eq!(compare_str("", "a"), Ordering::Less);
}

#[test]
fn transparent_topics_order_as_their_names() {
    let ta: Topic<IdentityHash> = Topic::new("a".to_string());
    let tb: Topic<IdentityHash> = Topic::new("b".to_string());
    assert!(ta.hash() < tb.hash());
}

#[test]
fn topic_keeps_its_name_for_display() {
    let topic: Topic<Sha256Hash> = Topic::new("chat".to_string());
    assert_eq!(topic.to_string(), "chat");
    assert_ne!(topic.to_string(), topic.hash().into_string());
}

#[test]
fn topic_hash_matches_direct_strategy_call() {
    let topic: Topic<Sha256Hash> = Topic::new("chat".to_string());
    assert_eq!(topic.hash(), Sha256Hash::hash("chat".to_string()));
    let transparent: Topic<IdentityHash> = Topic::new("chat".to_string());
    assert_eq!(transparent.hash(), IdentityHash::hash("chat".to_string()));
}

#[test]
fn topic_converts_into_its_key() {
    let topic: Topic<Sha256Hash> = Topic::new("chat".to_string());
    let expected = topic.clone().hash();
    let key: TopicHash = topic.into();
    assert_eq!(key, expected);
}

#[test]
fn topics_compare_by_name() {
    let a: Topic<Sha256Hash> = Topic::new("chat".to_string());
    let b: Topic<Sha256Hash> = Topic::new("chat".to_string());
    let c: Topic<Sha256Hash> = Topic::new("Chat".to_string());
    assert_eq!(a, b);
    assert_ne!(a, c);
}

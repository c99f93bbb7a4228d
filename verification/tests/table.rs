use domain_service::content::{
    copy_slots, empty_slots, parse_content_key, put_slot, ContentKey, ContentText,
};
use domain_service::identity::{is_after, is_before, is_word, same_bytes};
use domain_service::table::{Key, Table};

#[test]
fn table_holds_one_value_per_key() {
    let mut t: Table<String, u64> = Table::new();
    assert!(!t.contains(&"a".to_string()));
    assert_eq!(t.get(&"a".to_string()), None);
    t.insert("a".to_string(), 1);
    t.insert("b".to_string(), 2);
    assert!(t.contains(&"a".to_string()));
    assert_eq!(t.get(&"a".to_string()), Some(&1));
    assert_eq!(t.get(&"b".to_string()), Some(&2));
    // A second value takes the place of the first.
    t.insert("a".to_string(), 3);
    assert_eq!(t.get(&"a".to_string()), Some(&3));
    assert_eq!(t.get(&"b".to_string()), Some(&2));
    t.remove(&"a".to_string());
    assert!(!t.contains(&"a".to_string()));
    assert_eq!(t.get(&"a".to_string()), None);
    assert_eq!(t.get(&"b".to_string()), Some(&2));
    // Removing what is not there changes nothing.
    t.remove(&"a".to_string());
    assert_eq!(t.get(&"b".to_string()), Some(&2));
}

#[test]
fn table_keeps_the_others_when_one_leaves() {
    let mut t: Table<u64, u64> = Table::new();
    for k in 0..10u64 {
        t.insert(k, k * k);
    }
    t.remove(&0);
    t.remove(&5);
    t.remove(&9);
    for k in 0..10u64 {
        if k == 0 || k == 5 || k == 9 {
            assert_eq!(t.get(&k), None);
        } else {
            assert_eq!(t.get(&k), Some(&(k * k)));
        }
    }
}

#[test]
fn keys_compare_by_what_they_hold() {
    assert!(7u64.same_key(&7));
    assert!(!7u64.same_key(&8));
    assert!("a".to_string().same_key(&"a".to_string()));
    assert!(!"a".to_string().same_key(&"b".to_string()));
    assert!([1u8; 20].same_key(&[1u8; 20]));
    let mut other = [1u8; 20];
    other[19] = 2;
    assert!(![1u8; 20].same_key(&other));
    assert!(([1u8; 20], [2u8; 20]).same_key(&([1u8; 20], [2u8; 20])));
    assert!(!([1u8; 20], [2u8; 20]).same_key(&([2u8; 20], [1u8; 20])));
    assert!(!([1u8; 20], [2u8; 20]).same_key(&([1u8; 20], [3u8; 20])));
}

#[test]
fn bytes_and_words_compare() {
    assert!(same_bytes(&[0u8; 32], &[0u8; 32]));
    let mut other = [0u8; 32];
    other[0] = 1;
    assert!(!same_bytes(&[0u8; 32], &other));
    assert!(same_bytes::<0>(&[], &[]));
    assert!(is_word(&"social".to_string(), "social"));
    assert!(!is_word(&"social".to_string(), "socia"));
    assert!(!is_word(&"".to_string(), "social"));
}

#[test]
fn clock_comparisons_do_not_wrap() {
    assert!(is_before(9, 5, 5));
    assert!(!is_before(10, 5, 5));
    assert!(is_before(u64::MAX, u64::MAX, 1));
    assert!(is_before(0, u64::MAX, u64::MAX));
    assert!(!is_before(0, 0, 0));
    assert!(is_after(11, 5, 5));
    assert!(!is_after(10, 5, 5));
    assert!(!is_after(u64::MAX, u64::MAX, 1));
    assert!(!is_after(u64::MAX, 1, u64::MAX));
    assert!(is_after(1, 0, 0));
}

#[test]
fn content_keys_are_five_words() {
    assert_eq!(
        parse_content_key(&"social".to_string()),
        Some(ContentKey::Social)
    );
    assert_eq!(
        parse_content_key(&"general".to_string()),
        Some(ContentKey::General)
    );
    assert_eq!(
        parse_content_key(&"address".to_string()),
        Some(ContentKey::Address)
    );
    assert_eq!(
        parse_content_key(&"website".to_string()),
        Some(ContentKey::Website)
    );
    assert_eq!(
        parse_content_key(&"other".to_string()),
        Some(ContentKey::Other)
    );
    assert_eq!(parse_content_key(&"others".to_string()), None);
    assert_eq!(parse_content_key(&"".to_string()), None);
    assert_eq!(parse_content_key(&" social".to_string()), None);
}

#[test]
fn content_record_starts_empty() {
    let content = ContentText::empty();
    assert_eq!(content.social, vec![""; 5]);
    assert_eq!(content.general, vec![""; 5]);
    assert_eq!(content.address, vec![""; 5]);
    assert_eq!(content.other, vec![""; 2]);
    assert_eq!(content.website, "");
    assert_eq!(content.duplicate(), content);
}

#[test]
fn content_record_takes_a_text_per_slot() {
    let mut content = ContentText::empty();
    content.put(ContentKey::Address, 3, "street".to_string());
    content.put(ContentKey::Website, 0, "site".to_string());
    content.put(ContentKey::Other, 0, "o".to_string());
    assert_eq!(content.address, vec!["", "", "", "street", ""]);
    assert_eq!(content.website, "site");
    assert_eq!(content.other, vec!["o", ""]);
    assert_eq!(content.social, vec![""; 5]);
    let copy = content.duplicate();
    assert_eq!(copy, content);
}

#[test]
fn slots_are_made_copied_and_put() {
    assert_eq!(empty_slots(0), Vec::<String>::new());
    assert_eq!(empty_slots(3), vec!["", "", ""]);
    let mut slots = vec!["a".to_string(), "b".to_string()];
    assert_eq!(copy_slots(&slots), slots);
    put_slot(&mut slots, 1, "c".to_string());
    assert_eq!(slots, vec!["a", "c"]);
}

use key::Key;
use std::borrow::Cow;
use std::collections::hash_map::DefaultHasher;
use std::hash::{Hash, Hasher};

fn hash_of<T: Hash + ?Sized>(value: &T) -> u64 {
    let mut state = DefaultHasher::new();
    value.hash(&mut state);
    state.finish()
}

#[test]
fn from_owned_text_equals_text() {
    for s in [String::new(), String::from("abc"), String::from("héllo wörld")] {
        assert!(Key::from(s.clone()) == s);
        assert!(Key::from(s.clone()) == *s.as_str());
        assert!(Key::from(s.clone()) == s.as_str());
    }
}

#[test]
fn len_and_is_empty_agree() {
    let keys = [
        Key::from("abc"),
        Key::from(String::from("héllo")),
        Key::default(),
        Key::from_iter(['ü', 'x'].into_iter()),
    ];
    for k in keys.iter() {
        assert_eq!(k.len(), k.as_str().len());
        assert_eq!(k.is_empty(), k.len() == 0);
    }
    assert_eq!(Key::from(String::from("héllo")).len(), 6);
    assert_eq!(Key::from("abc").len(), 3);
}

#[test]
fn default_is_empty() {
    let k = Key::default();
    assert!(k == "");
    assert_eq!(k.len(), 0);
    assert!(k.is_empty());
    assert_eq!(k.as_str(), "");
}

#[test]
fn equal_keys_hash_alike() {
    let a = Key::from("ab");
    let b = Key::from_iter(['a', 'b'].into_iter());
    let c = Key::from(String::from("ab"));
    assert!(a == b && b == c);
    assert_eq!(hash_of(&a), hash_of(&b));
    assert_eq!(hash_of(&b), hash_of(&c));
    assert_eq!(hash_of(&a), hash_of("ab"));
}

#[test]
fn from_iter_over_strs() {
    let k = Key::from_iter(["a", "b", "c"].into_iter());
    assert!(k == "abc");
}

#[test]
fn from_iter_over_chars() {
    let k = Key::from_iter(['x', 'y'].into_iter());
    assert!(k == "xy");
}

#[test]
fn from_iter_over_other_items() {
    let owned = vec![String::from("ke"), String::from("y")];
    assert!(Key::from_iter(owned.iter()) == "key");
    assert!(Key::from_iter(owned.into_iter()) == "key");
    let chars = ['o', 'k'];
    assert!(Key::from_iter(chars.iter()) == "ok");
    let cows: Vec<Cow<str>> = vec![Cow::Borrowed("co"), Cow::Owned(String::from("w"))];
    assert!(Key::from_iter(cows.into_iter()) == "cow");
    assert!(Key::from_iter(Vec::<char>::new().into_iter()) == "");
}

#[test]
fn from_parts_concatenates() {
    assert!(Key::from_parts(&["ab", "", "cd"]) == "abcd");
    assert!(Key::from_parts(&['q']) == "q");
    let none: [&str; 0] = [];
    assert!(Key::from_parts(&none).is_empty());
}

#[test]
fn clones_equal_across_representations() {
    let borrowed = Key::from("ab");
    let built = Key::from_iter(['a', 'b'].into_iter());
    assert!(borrowed.clone() == built.clone());
    assert!(borrowed == built);
    assert!(Key::from("ab") == Key::from_iter(['a', 'b'].into_iter()));
}

#[test]
fn renders_for_display_and_debug() {
    let k = Key::from("hi");
    assert_eq!(k.to_display_string(), "hi");
    assert_eq!(k.to_debug_string(), format!("{:?}", "hi"));
    assert_eq!(Key::from("a\"b").to_debug_string(), "\"a\\\"b\"");
}

#[test]
fn string_round_trip() {
    let k = Key::from_iter(["x", "yz"].into_iter());
    let s: String = String::from(k.clone());
    assert_eq!(s, "xyz");
    assert!(Key::from(s) == k);
    let s2: String = Key::from("static").into();
    assert_eq!(s2, "static");
}

#[test]
fn unequal_texts_compare_unequal() {
    assert!(!(Key::from("ab") == "abc"));
    assert!(!(Key::from("ab") == "ac"));
    assert!(!(Key::from("") == "a"));
    assert!(Key::from("ab") != Key::from("ba"));
    assert_eq!(Key::from("abc").as_ref() as &str, "abc");
}

#[test]
fn explicit_constructors_keep_text() {
    assert!(Key::from_static("st") == "st");
    assert!(Key::from_owned(String::from("ow")) == "ow");
    assert_eq!(Key::from_owned(String::from("ow")).into_string(), "ow");
    assert!(Key::from("ab").eq_str("ab"));
    assert!(!Key::from("ab").eq_str("a"));
}

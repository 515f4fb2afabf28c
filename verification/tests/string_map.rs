use generate_reflection::string_map::{str_eq, StringMap};
use generate_reflection::variant::Variant;

#[test]
fn a_new_map_holds_nothing() {
    let map: StringMap<Variant> = StringMap::new();
    assert_eq!(map.len(), 0);
    assert!(!map.contains_key("Anchored"));
    assert!(map.get("Anchored").is_none());
}

#[test]
fn an_inserted_value_is_found_under_its_key() {
    let mut map: StringMap<Variant> = StringMap::new();
    map.insert(String::from("Anchored"), Variant::Bool(true));
    map.insert(String::from("Name"), Variant::String(String::from("Part")));
    assert_eq!(map.len(), 2);
    assert!(map.contains_key("Anchored"));
    assert_eq!(map.get("Anchored"), Some(&Variant::Bool(true)));
    assert_eq!(map.get("Name"), Some(&Variant::String(String::from("Part"))));
    assert!(map.get("anchored").is_none());
    assert!(map.get("").is_none());
}

#[test]
fn a_second_insert_under_one_key_replaces_the_value() {
    let mut map: StringMap<Variant> = StringMap::new();
    map.insert(String::from("Anchored"), Variant::Bool(true));
    map.insert(String::from("Anchored"), Variant::Bool(false));
    assert_eq!(map.len(), 1);
    assert_eq!(map.get("Anchored"), Some(&Variant::Bool(false)));
}

#[test]
fn the_empty_string_is_a_key_like_any_other() {
    let mut map: StringMap<Variant> = StringMap::new();
    map.insert(String::new(), Variant::Int32(1));
    assert!(map.contains_key(""));
    assert_eq!(map.get(""), Some(&Variant::Int32(1)));
}

#[test]
fn a_value_changes_in_place_through_get_mut() {
    let mut map: StringMap<Variant> = StringMap::new();
    map.insert(String::from("Size"), Variant::Int32(1));
    map.insert(String::from("Mass"), Variant::Int32(2));
    match map.get_mut("Size") {
        Some(value) => *value = Variant::Int32(10),
        None => panic!("the key was inserted"),
    }
    assert!(map.get_mut("Volume").is_none());
    assert_eq!(map.get("Size"), Some(&Variant::Int32(10)));
    assert_eq!(map.get("Mass"), Some(&Variant::Int32(2)));
    assert_eq!(map.len(), 2);
}

#[test]
fn the_entries_are_listed_by_position() {
    let mut map: StringMap<Variant> = StringMap::new();
    map.insert(String::from("A"), Variant::Int32(1));
    map.insert(String::from("B"), Variant::Int32(2));
    map.insert(String::from("A"), Variant::Int32(3));
    assert_eq!(map.len(), 2);
    let mut seen = Vec::new();
    for index in 0..map.len() {
        seen.push((map.key_at(index).clone(), map.value_at(index).clone()));
    }
    seen.sort_by(|left, right| left.0.cmp(&right.0));
    assert_eq!(
        seen,
        vec![(String::from("A"), Variant::Int32(3)), (String::from("B"), Variant::Int32(2))]
    );
}

#[test]
fn pop_takes_the_entries_out_one_by_one() {
    let mut map: StringMap<Variant> = StringMap::new();
    map.insert(String::from("A"), Variant::Int32(1));
    map.insert(String::from("B"), Variant::Int32(2));
    let first = map.pop();
    assert_eq!(first, Some((String::from("B"), Variant::Int32(2))));
    assert_eq!(map.len(), 1);
    assert!(!map.contains_key("B"));
    assert!(map.contains_key("A"));
    let second = map.pop();
    assert_eq!(second, Some((String::from("A"), Variant::Int32(1))));
    assert_eq!(map.len(), 0);
    assert_eq!(map.pop(), None);
    assert_eq!(map.len(), 0);
}

#[test]
fn a_clone_holds_the_same_entries_and_is_independent() {
    let mut map: StringMap<Variant> = StringMap::new();
    map.insert(String::from("A"), Variant::Int32(1));
    let mut copy = map.clone();
    copy.insert(String::from("A"), Variant::Int32(2));
    copy.insert(String::from("B"), Variant::Int32(3));
    assert_eq!(map.len(), 1);
    assert_eq!(map.get("A"), Some(&Variant::Int32(1)));
    assert_eq!(copy.get("A"), Some(&Variant::Int32(2)));
    assert_eq!(copy.len(), 2);
}

#[test]
fn strings_are_equal_when_they_hold_the_same_characters() {
    assert!(str_eq("", ""));
    assert!(str_eq("Part", "Part"));
    assert!(!str_eq("Part", "part"));
    assert!(!str_eq("Part", "Parts"));
    assert!(!str_eq("Parts", "Part"));
    assert!(!str_eq("", "a"));
    assert!(str_eq("h\u{e9}llo \u{1f600}", "h\u{e9}llo \u{1f600}"));
    assert!(!str_eq("h\u{e9}llo", "hello"));
    assert!(!str_eq("e\u{301}", "\u{e9}"));
}

use htlc_orders::people::{create_user_with_bitcoin_context, PeopleStore, Person};
use htlc_orders::text::greet;

#[test]
fn test_person_creation() {
    let person = Person::new("Alice".to_string(), 30);
    assert_eq!(person.name, "Alice");
    assert_eq!(person.age, 30);
}

#[test]
fn store_and_query_people() {
    let mut s = PeopleStore::new();
    let m = s.store_person("Alice".to_string(), 30).unwrap();
    assert_eq!(m, "Successfully stored person: Alice (age: 30)");
    s.store_person("Bob".to_string(), 25).unwrap();
    assert_eq!(s.get_age_by_name("Alice".to_string()), Some(30));
    assert_eq!(s.get_age_by_name("Carol".to_string()), None);
    let bob = s.get_person_by_name("Bob".to_string()).unwrap();
    assert_eq!(bob.name, "Bob");
    assert_eq!(bob.age, 25);
    assert_eq!(s.get_people_count(), 2);
}

#[test]
fn storing_again_updates_the_age() {
    let mut s = PeopleStore::new();
    s.store_person("Alice".to_string(), 30).unwrap();
    s.store_person("Alice".to_string(), 31).unwrap();
    assert_eq!(s.get_people_count(), 1);
    assert_eq!(s.get_age_by_name("Alice".to_string()), Some(31));
}

#[test]
fn store_person_validation() {
    let mut s = PeopleStore::new();
    assert_eq!(
        s.store_person("".to_string(), 30).unwrap_err(),
        "Name cannot be empty"
    );
    assert_eq!(
        s.store_person("   ".to_string(), 30).unwrap_err(),
        "Name cannot be empty"
    );
    // Every character that str::trim strips counts as blank: form feed,
    // vertical tab, no-break space, em space, ideographic space.
    for blank in ["\u{c}", "\u{b}", "\u{a0}", "\t \u{2003}\r\n", "\u{3000}\u{1680}"] {
        assert_eq!(
            s.store_person(blank.to_string(), 30).unwrap_err(),
            "Name cannot be empty",
            "name {:?}",
            blank
        );
    }
    assert_eq!(
        s.store_person("Alice".to_string(), 151).unwrap_err(),
        "Age seems unrealistic (> 150)"
    );
    assert_eq!(s.get_people_count(), 0);
    // A name with any non-blank character is accepted.
    assert!(s.store_person(" a\u{c} ".to_string(), 30).is_ok());
    // 150 itself is still accepted.
    assert!(s.store_person("Old".to_string(), 150).is_ok());
}

#[test]
fn remove_and_clear() {
    let mut s = PeopleStore::new();
    s.store_person("Alice".to_string(), 30).unwrap();
    s.store_person("Bob".to_string(), 25).unwrap();
    assert!(s.remove_person("Alice".to_string()));
    assert!(!s.remove_person("Alice".to_string()));
    assert_eq!(s.get_people_count(), 1);
    let m = s.clear_all_people();
    assert_eq!(m, "Cleared 1 people from storage");
    assert_eq!(s.get_people_count(), 0);
}

#[test]
fn list_and_restore_round_trip() {
    let mut s = PeopleStore::new();
    s.store_person("Alice".to_string(), 30).unwrap();
    s.store_person("Bob".to_string(), 25).unwrap();
    let snapshot = s.list_all_people();
    assert_eq!(snapshot.len(), 2);
    let restored = PeopleStore::from_records(snapshot);
    assert_eq!(restored.get_age_by_name("Alice".to_string()), Some(30));
    assert_eq!(restored.get_age_by_name("Bob".to_string()), Some(25));
    assert_eq!(restored.get_people_count(), 2);
}

#[test]
fn restore_keeps_the_last_duplicate() {
    let records = vec![
        Person::new("Alice".to_string(), 30),
        Person::new("Alice".to_string(), 41),
    ];
    let s = PeopleStore::from_records(records);
    assert_eq!(s.get_people_count(), 1);
    assert_eq!(s.get_age_by_name("Alice".to_string()), Some(41));
}

#[test]
fn create_user_reports_the_address() {
    let mut s = PeopleStore::new();
    let m = create_user_with_bitcoin_context(
        &mut s,
        "Alice".to_string(),
        30,
        "bcrt1qexample".to_string(),
    )
    .unwrap();
    assert_eq!(m, "Created user Alice with Bitcoin address bcrt1qexample");
    assert_eq!(s.get_age_by_name("Alice".to_string()), Some(30));
    let e = create_user_with_bitcoin_context(&mut s, " ".to_string(), 30, "x".to_string());
    assert_eq!(e.unwrap_err(), "Name cannot be empty");
}

#[test]
fn greeting() {
    assert_eq!(greet("World".to_string()), "Hello, World!");
}

#[test]
fn clearing_an_empty_store_says_zero() {
    let mut s = PeopleStore::new();
    assert_eq!(s.clear_all_people(), "Cleared 0 people from storage");
}

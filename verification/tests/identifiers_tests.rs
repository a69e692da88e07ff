use t5f::identifiers::{Identifiers, Snowflake};

#[test]
fn insert_then_lookup_both_ways() {
    let mut ids = Identifiers::new();
    assert_eq!(ids.get_entity(Snowflake(7)), None);
    ids.insert(Snowflake(7), 70);
    assert_eq!(ids.get_entity(Snowflake(7)), Some(70));
    assert_eq!(ids.get_uuid(70), Some(Snowflake(7)));
    assert_eq!(ids.get_uuid(71), None);
}

#[test]
fn insert_overwrites_both_sides() {
    let mut ids = Identifiers::new();
    ids.insert(Snowflake(1), 10);
    ids.insert(Snowflake(2), 20);
    // the entity of snowflake 2 now also pairs with snowflake 1's entity slot
    ids.insert(Snowflake(1), 20);
    assert_eq!(ids.get_entity(Snowflake(1)), Some(20));
    assert_eq!(ids.get_entity(Snowflake(2)), None);
    assert_eq!(ids.get_uuid(10), None);
    assert_eq!(ids.get_uuid(20), Some(Snowflake(1)));
}

#[test]
fn removals_drop_the_pair() {
    let mut ids = Identifiers::new();
    ids.insert(Snowflake(1), 10);
    ids.insert(Snowflake(2), 20);
    ids.remove_by_uuid(Snowflake(1));
    assert_eq!(ids.get_entity(Snowflake(1)), None);
    assert_eq!(ids.get_uuid(10), None);
    ids.remove_by_entity(20);
    assert_eq!(ids.get_entity(Snowflake(2)), None);
    assert_eq!(ids.get_uuid(20), None);
    ids.remove_by_entity(99);
    ids.remove_by_uuid(Snowflake(99));
}

#[test]
fn default_is_empty() {
    let ids = Identifiers::default();
    assert_eq!(ids.get_entity(Snowflake(1)), None);
    assert_eq!(ids.get_uuid(1), None);
    assert!(format!("{:?}", ids).contains("Identifiers"));
}

use binaryninja::enumeration::{Enumeration, EnumerationBuilder, EnumerationMember};

fn rows(members: &[EnumerationMember]) -> Vec<(String, u64, bool)> {
    members.iter().map(|m| (m.name().to_string(), m.value(), m.is_default())).collect()
}

#[test]
fn append_yields_one_default_member() {
    let mut b = EnumerationBuilder::new();
    b.append("A");
    assert_eq!(rows(&b.members()), vec![("A".to_string(), 0, true)]);
}

#[test]
fn insert_sets_the_value() {
    let mut b = Enumeration::builder();
    b.append("A").insert("B", 5);
    assert_eq!(rows(&b.members()), vec![("A".to_string(), 0, true), ("B".to_string(), 5, false)]);
}

#[test]
fn append_counts_on_from_the_last_member() {
    let mut b = EnumerationBuilder::new();
    b.insert("B", 5).append("C").append("D").insert("TOP", u64::MAX).append("WRAP");
    assert_eq!(
        rows(&b.members()),
        vec![
            ("B".to_string(), 5, false),
            ("C".to_string(), 6, true),
            ("D".to_string(), 7, true),
            ("TOP".to_string(), u64::MAX, false),
            ("WRAP".to_string(), 0, true),
        ]
    );
}

#[test]
fn replace_and_remove_by_position() {
    let mut b = EnumerationBuilder::new();
    b.insert("A", 1).insert("B", 2).insert("C", 3);
    b.replace(1, "X", 20);
    assert_eq!(
        rows(&b.members()),
        vec![("A".to_string(), 1, false), ("X".to_string(), 20, false), ("C".to_string(), 3, false)]
    );
    b.remove(0);
    assert_eq!(rows(&b.members()), vec![("X".to_string(), 20, false), ("C".to_string(), 3, false)]);
}

#[test]
fn replace_and_remove_out_of_range_change_nothing() {
    let mut b = EnumerationBuilder::new();
    b.insert("A", 1);
    b.replace(1, "X", 20).remove(7);
    assert_eq!(rows(&b.members()), vec![("A".to_string(), 1, false)]);
}

#[test]
fn snapshot_is_not_touched_by_later_changes() {
    let mut b = EnumerationBuilder::default();
    b.insert("A", 1);
    let e = b.finalize();
    b.insert("B", 2).remove(0);
    assert_eq!(rows(&e.members()), vec![("A".to_string(), 1, false)]);
    assert_eq!(rows(&e.clone().members()), vec![("A".to_string(), 1, false)]);
    assert_eq!(rows(&b.members()), vec![("B".to_string(), 2, false)]);
}

#[test]
fn builder_from_snapshot_round_trips() {
    let mut b = EnumerationBuilder::new();
    b.append("A").insert("B", 5);
    let e = b.finalize();
    let mut again = EnumerationBuilder::from(&e);
    assert_eq!(rows(&again.finalize().members()), rows(&e.members()));
    again.append("C");
    assert_eq!(rows(&e.members()).len(), 2);
    assert_eq!(rows(&again.members())[2], ("C".to_string(), 6, true));
}

#[test]
fn member_fields() {
    let m = EnumerationMember::new("red", 7, false);
    assert_eq!(m.name(), "red");
    assert_eq!(m.value(), 7);
    assert!(!m.is_default());
    let c = m.clone();
    assert_eq!((c.name(), c.value(), c.is_default()), ("red", 7, false));
}

use binaryninja::confidence::{max_confidence, min_confidence, Conf, ConfMergable};

#[test]
fn confidence_bounds() {
    assert_eq!(min_confidence(), 0);
    assert_eq!(max_confidence(), 255);
}

#[test]
fn merge_keeps_higher_confidence() {
    let r = Conf::new("a", 10).merge(Conf::new("b", 20));
    assert_eq!(r.contents, "b");
    assert_eq!(r.confidence, 20);
    let r = Conf::new("a", 30).merge(Conf::new("b", 20));
    assert_eq!(r.contents, "a");
    assert_eq!(r.confidence, 30);
}

#[test]
fn merge_tie_keeps_left() {
    let r = Conf::new(1u32, 77).merge(Conf::new(2u32, 77));
    assert_eq!(r.contents, 1);
    let r = Some(Conf::new(1u32, 77)).merge(Conf::new(2u32, 77));
    assert_eq!(r.contents, 1);
    let r = Conf::new(1u32, 77).merge(Some(Conf::new(2u32, 77)));
    assert_eq!(r.contents, 1);
    let r = Some(Conf::new(1u32, 77)).merge(Some(Conf::new(2u32, 77))).unwrap();
    assert_eq!(r.contents, 1);
}

#[test]
fn merge_with_itself_is_unchanged() {
    let r = Conf::new(9i64, 3).merge(Conf::new(9i64, 3));
    assert_eq!((r.contents, r.confidence), (9, 3));
}

#[test]
fn merge_with_absent_operand() {
    let r = Some(Conf::new('x', 0)).merge(None::<Conf<char>>).unwrap();
    assert_eq!((r.contents, r.confidence), ('x', 0));
    let r = None::<Conf<char>>.merge(Some(Conf::new('y', 0))).unwrap();
    assert_eq!((r.contents, r.confidence), ('y', 0));
    assert!(None::<Conf<char>>.merge(None::<Conf<char>>).is_none());
    let r = Conf::new('x', 0).merge(None::<Conf<char>>);
    assert_eq!((r.contents, r.confidence), ('x', 0));
    let r = None::<Conf<char>>.merge(Conf::new('y', 0));
    assert_eq!((r.contents, r.confidence), ('y', 0));
}

#[test]
fn merge_optional_prefers_higher() {
    let r = Some(Conf::new(1u8, 5)).merge(Conf::new(2u8, 6));
    assert_eq!(r.contents, 2);
    let r = Conf::new(1u8, 5).merge(Some(Conf::new(2u8, 6)));
    assert_eq!(r.contents, 2);
    let r = Some(Conf::new(1u8, 5)).merge(Some(Conf::new(2u8, 6))).unwrap();
    assert_eq!(r.contents, 2);
    let r = Some(Conf::new(1u8, 7)).merge(Some(Conf::new(2u8, 6))).unwrap();
    assert_eq!(r.contents, 1);
}

#[test]
fn bare_value_is_certain() {
    let c: Conf<u16> = Conf::from(512u16);
    assert_eq!(c.contents, 512);
    assert_eq!(c.confidence, 255);
    let d: Conf<bool> = true.into();
    assert_eq!((d.contents, d.confidence), (true, 255));
}

#[test]
fn map_and_as_ref_keep_confidence() {
    let c = Conf::new(20u32, 42);
    let r = c.as_ref();
    assert_eq!((*r.contents, r.confidence), (20, 42));
    let m = c.map(|v| v + 1);
    assert_eq!((m.contents, m.confidence), (21, 42));
    let k = m.clone();
    assert_eq!((k.contents, k.confidence), (21, 42));
}

#[test]
fn borrowed_value_keeps_its_confidence() {
    let c = Conf::new(7u8, 99);
    let r: Conf<&u8> = Conf::from(&c);
    assert_eq!((*r.contents, r.confidence), (7, 99));
}

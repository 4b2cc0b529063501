use binaryninja::kinds::{NamedTypeReferenceClass, TypeClass};
use binaryninja::qualified_name::QualifiedName;
use binaryninja::registry::TypeRegistry;
use binaryninja::types::{NamedTypeReference, Type};

fn reference(id: &str) -> NamedTypeReference {
    NamedTypeReference::new_with_id(NamedTypeReferenceClass::TypedefNamedTypeClass, id, QualifiedName::from(id))
}

#[test]
fn resolves_a_direct_target() {
    let mut reg = TypeRegistry::new();
    reg.define_type("i", &Type::integer(4, true));
    let t = reference("i").target(&reg).unwrap();
    assert_eq!(t.type_class(), TypeClass::IntegerTypeClass);
    assert_eq!(t.width(), 4);
}

#[test]
fn follows_a_chain_of_references() {
    let mut reg = TypeRegistry::default();
    reg.define_type("a", &Type::named_type(&reference("b")));
    reg.define_type("b", &Type::named_type(&reference("c")));
    reg.define_type("c", &Type::float(8));
    let t = reference("a").target(&reg).unwrap();
    assert_eq!(t.type_class(), TypeClass::FloatTypeClass);
    assert_eq!(reference("b").target(&reg).unwrap().width(), 8);
}

#[test]
fn cycle_is_unresolvable() {
    let mut reg = TypeRegistry::new();
    reg.define_type("a", &Type::named_type(&reference("b")));
    reg.define_type("b", &Type::named_type(&reference("a")));
    assert!(reference("a").target(&reg).is_none());
    assert!(reference("b").target(&reg).is_none());
}

#[test]
fn self_reference_and_longer_cycles_are_unresolvable() {
    let mut reg = TypeRegistry::new();
    reg.define_type("s", &Type::named_type(&reference("s")));
    reg.define_type("x", &Type::named_type(&reference("y")));
    reg.define_type("y", &Type::named_type(&reference("z")));
    reg.define_type("z", &Type::named_type(&reference("y")));
    assert!(reference("s").target(&reg).is_none());
    assert!(reference("x").target(&reg).is_none());
    assert!(reference("z").target(&reg).is_none());
}

#[test]
fn missing_entries_are_unresolvable() {
    let mut reg = TypeRegistry::new();
    assert!(reference("nowhere").target(&reg).is_none());
    reg.define_type("a", &Type::named_type(&reference("gone")));
    assert!(reference("a").target(&reg).is_none());
    assert!(reg.get_type_by_id("gone").is_none());
}

#[test]
fn defining_again_replaces() {
    let mut reg = TypeRegistry::new();
    reg.define_type("t", &Type::integer(2, false));
    reg.define_type("u", &Type::bool());
    reg.define_type("t", &Type::integer(8, false));
    assert_eq!(reg.get_type_by_id("t").unwrap().width(), 8);
    assert_eq!(reg.get_type_by_id("u").unwrap().width(), 1);
    assert_eq!(reference("t").target(&reg).unwrap().width(), 8);
}

#[test]
fn defining_one_id_leaves_the_others() {
    let mut reg = TypeRegistry::new();
    reg.define_type("a", &Type::integer(1, false));
    reg.define_type("b", &Type::integer(2, false));
    reg.define_type("a", &Type::integer(4, false));
    reg.define_type("c", &Type::integer(8, false));
    assert_eq!(reg.get_type_by_id("a").unwrap().width(), 4);
    assert_eq!(reg.get_type_by_id("b").unwrap().width(), 2);
    assert_eq!(reg.get_type_by_id("c").unwrap().width(), 8);
    assert!(reg.get_type_by_id("").is_none());
}

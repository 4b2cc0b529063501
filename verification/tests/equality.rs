use std::hash::{Hash, Hasher};

use binaryninja::confidence::Conf;
use binaryninja::enumeration::{EnumerationBuilder, EnumerationMember};
use binaryninja::kinds::{MemberAccess, MemberScope, NamedTypeReferenceClass, StructureType};
use binaryninja::qualified_name::QualifiedName;
use binaryninja::structure::{BaseStructure, StructureBuilder, StructureMember};
use binaryninja::types::{CallingConvention, FunctionParameter, NamedTypeReference, Type};
use binaryninja::variable::{Variable, VariableSourceType};

fn point(second_name: &str, second_confidence: u8) -> Type {
    let i = Type::integer(4, true);
    let mut b = StructureBuilder::new();
    b.append(Conf::new(&i, 255), "x", MemberAccess::PublicAccess, MemberScope::NoScope);
    b.append(Conf::new(&i, second_confidence), second_name, MemberAccess::PublicAccess, MemberScope::NoScope);
    Type::structure(&b.finalize())
}

fn callback(param_name: &str, varargs: bool) -> Type {
    let p = point("y", 255);
    let params = vec![
        FunctionParameter::new(Conf::new(Type::pointer(8, Conf::new(&p, 255)), 255), param_name, None),
        FunctionParameter::unnamed(
            Conf::new(Type::integer(8, false), 10),
            Some(Variable::new(VariableSourceType::RegisterVariableSourceType, 0, 2)),
        ),
    ];
    Type::function(Conf::new(&Type::void(), 255), &params, varargs)
}

#[test]
fn types_built_apart_are_equal_by_content() {
    assert!(Type::void() == Type::void());
    assert!(Type::integer(4, true) == Type::integer(4, true));
    assert!(Type::named_int(4, true, "s32") == Type::named_int(4, true, "s32"));
    assert!(point("y", 255) == point("y", 255));
    assert!(callback("p", true) == callback("p", true));
    let i = Type::integer(2, false);
    assert!(Type::array(Conf::new(&i, 9), 3) == Type::array(Conf::new(&Type::integer(2, false), 9), 3));
}

#[test]
fn types_differ_by_any_field() {
    assert!(Type::void() != Type::bool());
    assert!(Type::integer(4, true) != Type::integer(4, false));
    assert!(Type::integer(4, true) != Type::integer(8, true));
    assert!(Type::integer(4, true) != Type::named_int(4, true, "s32"));
    assert!(Type::float(4) != Type::integer(4, false));
    let i = Type::integer(2, false);
    assert!(Type::array(Conf::new(&i, 9), 3) != Type::array(Conf::new(&i, 9), 4));
    assert!(Type::array(Conf::new(&i, 9), 3) != Type::array(Conf::new(&i, 8), 3));
    assert!(Type::pointer(8, Conf::new(&i, 9)) != Type::const_pointer(8, Conf::new(&i, 9)));
    assert!(Type::pointer(8, Conf::new(&i, 9)) != Type::pointer(8, Conf::new(&Type::integer(2, true), 9)));
}

#[test]
fn types_differ_deep_inside() {
    assert!(point("y", 255) != point("z", 255));
    assert!(point("y", 255) != point("y", 254));
    assert!(callback("p", true) != callback("q", true));
    assert!(callback("p", true) != callback("p", false));
    let cc = CallingConvention::new("cdecl");
    let other = CallingConvention::new("stdcall");
    let v = Type::void();
    let f = |c: &CallingConvention, adjust: i64| {
        Type::function_with_options(Conf::new(&v, 255), &[], false, Conf::new(c, 1), Conf::new(adjust, 1))
    };
    assert!(f(&cc, 0) == f(&cc, 0));
    assert!(f(&cc, 0) != f(&other, 0));
    assert!(f(&cc, 0) != f(&cc, 8));
    assert!(f(&cc, 0) != Type::function(Conf::new(&v, 255), &[], false));
    assert!(cc == CallingConvention::new("cdecl"));
    assert!(cc != other);
}

#[test]
fn snapshot_round_trip_is_equal() {
    for t in [point("y", 255), callback("p", true), Type::float(8), Type::void()] {
        assert!(t.to_builder().finalize() == t);
        assert!(t.clone() == t);
    }
    let mut b = Type::integer(4, true).to_builder();
    b.set_const(Conf::new(true, 1));
    assert!(b.finalize() != Type::integer(4, true));
}

#[test]
fn references_and_enumerations_are_equal_by_content() {
    let r = |class, id: &str, name: &str| NamedTypeReference::new_with_id(class, id, QualifiedName::from(name));
    let a = r(NamedTypeReferenceClass::StructNamedTypeClass, "1", "S");
    assert!(a == r(NamedTypeReferenceClass::StructNamedTypeClass, "1", "S"));
    assert!(a != r(NamedTypeReferenceClass::UnionNamedTypeClass, "1", "S"));
    assert!(a != r(NamedTypeReferenceClass::StructNamedTypeClass, "2", "S"));
    assert!(a != r(NamedTypeReferenceClass::StructNamedTypeClass, "1", "T"));
    assert!(Type::named_type(&a) == Type::named_type(&a.clone()));
    assert!(Type::named_type(&a) != Type::named_type(&r(NamedTypeReferenceClass::StructNamedTypeClass, "2", "S")));
    let build = |second: u64| {
        let mut b = EnumerationBuilder::new();
        b.append("A").insert("B", second);
        b.finalize()
    };
    assert!(build(5) == build(5));
    assert!(build(5) != build(6));
    assert!(build(5) != EnumerationBuilder::new().finalize());
    assert!(EnumerationMember::new("A", 1, false) == EnumerationMember::new("A", 1, false));
    assert!(EnumerationMember::new("A", 1, false) != EnumerationMember::new("A", 1, true));
    assert!(Type::enumeration(&build(5), 4, Conf::new(false, 0)) == Type::enumeration(&build(5), 4, Conf::new(false, 0)));
    assert!(Type::enumeration(&build(5), 4, Conf::new(false, 0)) != Type::enumeration(&build(6), 4, Conf::new(false, 0)));
}

#[test]
fn structures_are_equal_by_content() {
    let i = Type::integer(4, true);
    let base = |offset: u64| {
        BaseStructure::new(
            NamedTypeReference::new(NamedTypeReferenceClass::ClassNamedTypeClass, QualifiedName::from("B")),
            offset,
            4,
        )
    };
    let build = |kind: StructureType, base_offset: u64| {
        let mut b = StructureBuilder::new();
        b.set_structure_type(kind).set_base_structures(vec![base(base_offset)]);
        b.append(Conf::new(&i, 255), "x", MemberAccess::PublicAccess, MemberScope::NoScope);
        b.finalize()
    };
    assert!(build(StructureType::ClassStructureType, 0) == build(StructureType::ClassStructureType, 0));
    assert!(build(StructureType::ClassStructureType, 0) != build(StructureType::StructStructureType, 0));
    assert!(build(StructureType::ClassStructureType, 0) != build(StructureType::ClassStructureType, 4));
    assert!(base(0) == base(0));
    assert!(base(0) != base(1));
    let m = |name: &str| {
        StructureMember::new(Conf::new(i.clone(), 255), name, 0, MemberAccess::NoAccess, MemberScope::NoScope)
    };
    assert!(m("a") == m("a"));
    assert!(m("a") != m("b"));
    let p = |name: &str| FunctionParameter::new(Conf::new(i.clone(), 255), name, None);
    assert!(p("a") == p("a"));
    assert!(p("a") != p("b"));
    assert!(p("a") != FunctionParameter::unnamed(Conf::new(i.clone(), 255), None));
}

#[test]
fn unread_location_is_not_part_of_a_parameter() {
    let i = Type::integer(4, true);
    let reg = Variable::new(VariableSourceType::RegisterVariableSourceType, 0, 3);
    let mut a = FunctionParameter::new(Conf::new(i.clone(), 255), "n", Some(reg));
    let b = FunctionParameter::new(Conf::new(i.clone(), 255), "n", None);
    assert!(a != b);
    a.set_location(None);
    assert!(a == b);
    let c = FunctionParameter::new(Conf::new(i.clone(), 255), "n", Some(reg));
    let d = FunctionParameter::new(
        Conf::new(i, 255),
        "n",
        Some(Variable::new(VariableSourceType::RegisterVariableSourceType, 0, 4)),
    );
    assert!(c != d);
}

fn hash_of<T: Hash>(value: &T) -> u64 {
    let mut hasher = std::collections::hash_map::DefaultHasher::new();
    value.hash(&mut hasher);
    hasher.finish()
}

#[test]
fn equal_values_hash_alike() {
    assert_eq!(hash_of(&point("y", 255)), hash_of(&point("y", 255)));
    assert_eq!(hash_of(&callback("p", true)), hash_of(&callback("p", true)));
    assert_eq!(hash_of(&callback("p", true)), hash_of(&callback("p", true).to_builder().finalize()));
    assert_ne!(hash_of(&callback("p", true)), hash_of(&callback("q", true)));
    let a = QualifiedName::from(vec!["a".to_string(), "b".to_string()]);
    let b = QualifiedName::from(vec!["a".to_string(), "b".to_string()]);
    assert_eq!(hash_of(&a), hash_of(&b));
    assert_ne!(hash_of(&a), hash_of(&QualifiedName::from("a")));
    let mut names = std::collections::HashMap::new();
    names.insert(a, 1);
    assert_eq!(names.get(&b), Some(&1));
    let r = |id: &str| {
        NamedTypeReference::new_with_id(NamedTypeReferenceClass::EnumNamedTypeClass, id, QualifiedName::from("E"))
    };
    assert_eq!(hash_of(&r("1")), hash_of(&r("1")));
    assert_ne!(hash_of(&r("1")), hash_of(&r("2")));
    let mut types = std::collections::HashSet::new();
    types.insert(Type::integer(4, true));
    assert!(types.contains(&Type::integer(4, true)));
    assert!(!types.contains(&Type::integer(4, false)));
}

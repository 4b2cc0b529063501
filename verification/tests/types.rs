use binaryninja::confidence::Conf;
use binaryninja::enumeration::EnumerationBuilder;
use binaryninja::kinds::{
    MemberAccess, MemberScope, NamedTypeReferenceClass, ReferenceType, StructureType, TypeClass,
};
use binaryninja::qualified_name::QualifiedName;
use binaryninja::structure::StructureBuilder;
use binaryninja::types::{CallingConvention, FunctionParameter, NamedTypeReference, Type, TypeBuilder};
use binaryninja::variable::{Variable, VariableSourceType};

fn pair(c: Conf<bool>) -> (bool, u8) {
    (c.contents, c.confidence)
}

fn same(a: &Type, b: &Type) {
    assert_eq!(a.type_class(), b.type_class());
    assert_eq!(a.width(), b.width());
    assert_eq!(a.alignment(), b.alignment());
    assert_eq!(pair(a.is_signed()), pair(b.is_signed()));
    assert_eq!(pair(a.is_const()), pair(b.is_const()));
    assert_eq!(pair(a.is_volatile()), pair(b.is_volatile()));
    assert_eq!(pair(a.has_variable_arguments()), pair(b.has_variable_arguments()));
    assert_eq!(pair(a.can_return()), pair(b.can_return()));
    assert_eq!(pair(a.pure()), pair(b.pure()));
    assert_eq!(a.count(), b.count());
    assert_eq!(a.offset(), b.offset());
    assert_eq!(a.alt_name(), b.alt_name());
    assert_eq!(a.reference_type(), b.reference_type());
    assert_eq!(a.stack_adjustment().contents, b.stack_adjustment().contents);
    assert_eq!(a.stack_adjustment().confidence, b.stack_adjustment().confidence);
    assert_eq!(a.target().is_ok(), b.target().is_ok());
    if let (Ok(x), Ok(y)) = (a.target(), b.target()) {
        assert_eq!(x.confidence, y.confidence);
        same(&x.contents, &y.contents);
    }
    assert_eq!(a.parameters().is_ok(), b.parameters().is_ok());
    if let (Ok(x), Ok(y)) = (a.parameters(), b.parameters()) {
        assert_eq!(x.len(), y.len());
        for (p, q) in x.iter().zip(y.iter()) {
            assert_eq!(p.name(), q.name());
            assert_eq!(p.location(), q.location());
            assert_eq!(p.t().confidence, q.t().confidence);
            same(p.t().contents, q.t().contents);
        }
    }
    assert_eq!(a.calling_convention().is_ok(), b.calling_convention().is_ok());
    if let (Ok(x), Ok(y)) = (a.calling_convention(), b.calling_convention()) {
        assert_eq!(x.contents.name(), y.contents.name());
        assert_eq!(x.confidence, y.confidence);
    }
    assert_eq!(a.get_structure().is_ok(), b.get_structure().is_ok());
    if let (Ok(x), Ok(y)) = (a.get_structure(), b.get_structure()) {
        assert_eq!(x.width(), y.width());
        let (m, n) = (x.members().unwrap(), y.members().unwrap());
        assert_eq!(m.len(), n.len());
        for (p, q) in m.iter().zip(n.iter()) {
            assert_eq!((p.name(), p.offset()), (q.name(), q.offset()));
        }
    }
    assert_eq!(a.get_enumeration().is_ok(), b.get_enumeration().is_ok());
    if let (Ok(x), Ok(y)) = (a.get_enumeration(), b.get_enumeration()) {
        let (m, n) = (x.members(), y.members());
        assert_eq!(m.len(), n.len());
        for (p, q) in m.iter().zip(n.iter()) {
            assert_eq!((p.name(), p.value(), p.is_default()), (q.name(), q.value(), q.is_default()));
        }
    }
    assert_eq!(a.get_named_type_reference().is_ok(), b.get_named_type_reference().is_ok());
    if let (Ok(x), Ok(y)) = (a.get_named_type_reference(), b.get_named_type_reference()) {
        assert_eq!(x.class(), y.class());
        assert_eq!(x.id(), y.id());
        assert!(x.name() == y.name());
    }
}

fn round_trip(t: &Type) {
    let again = t.to_builder().finalize().to_builder().finalize();
    same(t, &again);
    same(t, &TypeBuilder::new(t).finalize());
    same(t, &t.clone());
}

#[test]
fn void_and_bool() {
    let v = Type::void();
    assert_eq!(v.type_class(), TypeClass::VoidTypeClass);
    assert_eq!(v.width(), 0);
    assert!(v.target().is_err());
    assert!(v.parameters().is_err());
    assert!(v.get_structure().is_err());
    assert!(v.get_enumeration().is_err());
    assert!(v.get_named_type_reference().is_err());
    assert!(v.calling_convention().is_err());
    let b = Type::bool();
    assert_eq!(b.type_class(), TypeClass::BoolTypeClass);
    assert_eq!(b.width(), 1);
    round_trip(&v);
    round_trip(&b);
}

#[test]
fn integers_and_floats() {
    let i = Type::integer(4, true);
    assert_eq!(i.type_class(), TypeClass::IntegerTypeClass);
    assert_eq!(i.width(), 4);
    assert_eq!(i.alignment(), 4);
    assert_eq!(pair(i.is_signed()), (true, 255));
    assert_eq!(i.alt_name(), "");
    assert!(!i.is_floating_point());
    let u = Type::named_int(5, false, "my_w");
    assert_eq!(u.width(), 5);
    assert_eq!(pair(u.is_signed()), (false, 255));
    assert_eq!(u.alt_name(), "my_w");
    let c = Type::char();
    assert_eq!((c.type_class(), c.width(), pair(c.is_signed())), (TypeClass::IntegerTypeClass, 1, (true, 255)));
    let f = Type::float(8);
    assert_eq!(f.type_class(), TypeClass::FloatTypeClass);
    assert_eq!(f.width(), 8);
    assert!(f.is_floating_point());
    assert_eq!(pair(f.is_signed()), (false, 0));
    let g = Type::named_float(10, "long double");
    assert_eq!((g.width(), g.alt_name()), (10, "long double".to_string()));
    let w = Type::wide_char(2);
    assert_eq!((w.type_class(), w.width()), (TypeClass::WideCharTypeClass, 2));
    for t in [&i, &u, &c, &f, &g, &w] {
        round_trip(t);
    }
}

#[test]
fn arrays() {
    let i = Type::integer(4, true);
    let a = Type::array(Conf::new(&i, 200), 10);
    assert_eq!(a.type_class(), TypeClass::ArrayTypeClass);
    assert_eq!(a.count(), 10);
    assert_eq!(a.width(), 40);
    assert_eq!(a.alignment(), 4);
    let e = a.element_type().unwrap();
    assert_eq!(e.confidence, 200);
    assert_eq!(e.contents.width(), 4);
    let huge = Type::array(Conf::new(&a, 255), u64::MAX);
    assert_eq!(huge.width(), u64::MAX);
    round_trip(&a);
    round_trip(&huge);
}

#[test]
fn pointers() {
    let i = Type::integer(4, true);
    let p = Type::pointer(8, Conf::new(&i, 255));
    assert_eq!(p.type_class(), TypeClass::PointerTypeClass);
    assert_eq!(p.width(), 8);
    assert_eq!(pair(p.is_const()), (false, 0));
    assert_eq!(pair(p.is_volatile()), (false, 0));
    assert_eq!(p.reference_type(), ReferenceType::PointerReferenceType);
    assert_eq!(p.target().unwrap().contents.width(), 4);
    let c = Type::const_pointer(4, Conf::new(&i, 255));
    assert_eq!(c.width(), 4);
    assert_eq!(pair(c.is_const()), (true, 255));
    assert_eq!(pair(c.is_volatile()), (false, 0));
    let w = Type::pointer_of_width(Conf::new(&i, 7), 2, false, true, None);
    assert_eq!(w.width(), 2);
    assert_eq!(pair(w.is_const()), (false, 255));
    assert_eq!(pair(w.is_volatile()), (true, 255));
    assert_eq!(w.reference_type(), ReferenceType::PointerReferenceType);
    assert_eq!(w.target().unwrap().confidence, 7);
    let o = Type::pointer_with_options(8, Conf::new(&i, 255), true, false, Some(ReferenceType::RValueReferenceType));
    assert_eq!(pair(o.is_const()), (true, 255));
    assert_eq!(o.reference_type(), ReferenceType::RValueReferenceType);
    for t in [&p, &c, &w, &o] {
        round_trip(t);
    }
}

#[test]
fn functions() {
    let i = Type::integer(4, true);
    let params = vec![
        FunctionParameter::new(Conf::new(i.clone(), 255), "argc", None),
        FunctionParameter::new(
            Conf::new(Type::pointer(8, Conf::new(&i, 255)), 100),
            "argv",
            Some(Variable::new(VariableSourceType::RegisterVariableSourceType, 0, 7)),
        ),
    ];
    let f = Type::function(Conf::new(&i, 128), &params, true);
    assert_eq!(f.type_class(), TypeClass::FunctionTypeClass);
    assert_eq!(f.return_value().unwrap().confidence, 128);
    assert_eq!(pair(f.has_variable_arguments()), (true, 255));
    assert_eq!(pair(f.can_return()), (true, 0));
    assert_eq!(pair(f.pure()), (false, 0));
    assert!(f.calling_convention().is_err());
    assert_eq!((f.stack_adjustment().contents, f.stack_adjustment().confidence), (0, 0));
    let got = f.parameters().unwrap();
    assert_eq!(got.len(), 2);
    assert_eq!(got[0].name(), "argc");
    assert_eq!(got[0].location(), None);
    assert_eq!(got[1].name(), "argv");
    assert_eq!(got[1].t().confidence, 100);
    assert_eq!(got[1].location(), Some(Variable::new(VariableSourceType::RegisterVariableSourceType, 0, 7)));
    let cc = CallingConvention::new("cdecl");
    let g = Type::function_with_options(Conf::new(&i, 255), &[], false, Conf::new(&cc, 90), Conf::new(-16, 60));
    assert_eq!(g.parameters().unwrap().len(), 0);
    assert_eq!(pair(g.has_variable_arguments()), (false, 255));
    let got_cc = g.calling_convention().unwrap();
    assert_eq!((got_cc.contents.name(), got_cc.confidence), ("cdecl", 90));
    assert_eq!((g.stack_adjustment().contents, g.stack_adjustment().confidence), (-16, 60));
    round_trip(&f);
    round_trip(&g);
}

#[test]
fn structures_and_enumerations() {
    let i = Type::integer(4, true);
    let mut sb = StructureBuilder::new();
    sb.set_structure_type(StructureType::ClassStructureType).set_alignment(4);
    sb.append(Conf::new(&i, 255), "x", MemberAccess::PublicAccess, MemberScope::NoScope);
    sb.append(Conf::new(&i, 255), "y", MemberAccess::PublicAccess, MemberScope::NoScope);
    let s = Type::structure(&sb.finalize());
    assert_eq!(s.type_class(), TypeClass::StructureTypeClass);
    assert_eq!(s.width(), 8);
    assert_eq!(s.alignment(), 4);
    assert_eq!(s.get_structure().unwrap().members().unwrap().len(), 2);
    let mut eb = EnumerationBuilder::new();
    eb.append("A").insert("B", 5);
    let e = Type::enumeration(&eb.finalize(), 4, Conf::new(false, 200));
    assert_eq!(e.type_class(), TypeClass::EnumerationTypeClass);
    assert_eq!(e.width(), 4);
    assert_eq!(pair(e.is_signed()), (false, 200));
    assert_eq!(e.get_enumeration().unwrap().members()[1].value(), 5);
    let zero = Type::enumeration(&eb.finalize(), 0, Conf::new(true, 255));
    assert_eq!(zero.width(), 0);
    round_trip(&s);
    round_trip(&e);
    let named = Type::named_type_from_type("Point", &s);
    let r = named.get_named_type_reference().unwrap();
    assert_eq!(r.class(), NamedTypeReferenceClass::ClassNamedTypeClass);
    assert_eq!(r.id(), "");
    assert_eq!(r.name().string(), "Point");
    assert_eq!(named.width(), 8);
    assert_eq!(named.alignment(), 4);
    let named_e = Type::named_type_from_type("E", &e);
    assert_eq!(named_e.get_named_type_reference().unwrap().class(), NamedTypeReferenceClass::EnumNamedTypeClass);
    let named_i = Type::named_type_from_type("int32_t", &i);
    assert_eq!(
        named_i.get_named_type_reference().unwrap().class(),
        NamedTypeReferenceClass::TypedefNamedTypeClass
    );
    round_trip(&named);
}

#[test]
fn named_references() {
    let r = NamedTypeReference::new_with_id(
        NamedTypeReferenceClass::StructNamedTypeClass,
        "id-1",
        QualifiedName::from(vec!["ns".to_string(), "S".to_string()]),
    );
    assert_eq!(r.class(), NamedTypeReferenceClass::StructNamedTypeClass);
    assert_eq!(r.id(), "id-1");
    assert_eq!(r.name().string(), "ns::S");
    assert_eq!(r.clone().id(), "id-1");
    let fresh = NamedTypeReference::new(NamedTypeReferenceClass::UnknownNamedTypeClass, QualifiedName::from("T"));
    assert_eq!(fresh.id(), "");
    let t = Type::named_type(&r);
    assert_eq!(t.type_class(), TypeClass::NamedTypeReferenceClass);
    assert_eq!(t.width(), 0);
    assert_eq!(t.alignment(), 1);
    assert_eq!(t.get_named_type_reference().unwrap().id(), "id-1");
    round_trip(&t);
}

#[test]
fn builders_mirror_the_constructors() {
    let i = Type::integer(4, true);
    same(&TypeBuilder::void().finalize(), &Type::void());
    same(&TypeBuilder::bool().finalize(), &Type::bool());
    same(&TypeBuilder::char().finalize(), &Type::char());
    same(&TypeBuilder::integer(2, false).finalize(), &Type::integer(2, false));
    same(&TypeBuilder::named_int(2, false, "w").finalize(), &Type::named_int(2, false, "w"));
    same(&TypeBuilder::float(4).finalize(), &Type::float(4));
    same(&TypeBuilder::named_float(4, "f").finalize(), &Type::named_float(4, "f"));
    same(&TypeBuilder::array(Conf::new(&i, 1), 3).finalize(), &Type::array(Conf::new(&i, 1), 3));
    same(&TypeBuilder::pointer(8, Conf::new(&i, 1)).finalize(), &Type::pointer(8, Conf::new(&i, 1)));
    same(&TypeBuilder::const_pointer(8, Conf::new(&i, 1)).finalize(), &Type::const_pointer(8, Conf::new(&i, 1)));
    same(
        &TypeBuilder::pointer_of_width(Conf::new(&i, 1), 4, true, true, Some(ReferenceType::ReferenceReferenceType)).finalize(),
        &Type::pointer_of_width(Conf::new(&i, 1), 4, true, true, Some(ReferenceType::ReferenceReferenceType)),
    );
    same(
        &TypeBuilder::pointer_with_options(8, Conf::new(&i, 1), false, true, None).finalize(),
        &Type::pointer_with_options(8, Conf::new(&i, 1), false, true, None),
    );
    let r = NamedTypeReference::new(NamedTypeReferenceClass::EnumNamedTypeClass, QualifiedName::from("E"));
    same(&TypeBuilder::named_type(r.clone()).finalize(), &Type::named_type(&r));
    same(&TypeBuilder::named_type_from_type("I", &i).finalize(), &Type::named_type_from_type("I", &i));
    let s = StructureBuilder::new().finalize();
    same(&TypeBuilder::structure(&s).finalize(), &Type::structure(&s));
    let e = EnumerationBuilder::new().finalize();
    same(
        &TypeBuilder::enumeration(&e, 2, Conf::new(true, 3)).finalize(),
        &Type::enumeration(&e, 2, Conf::new(true, 3)),
    );
}

#[test]
fn builder_setters_do_not_reach_snapshots() {
    let i = Type::integer(4, true);
    let mut b = i.to_builder();
    let before = b.finalize();
    b.set_const(Conf::new(true, 10)).set_volatile(Conf::new(true, 20));
    b.set_pure(Conf::new(true, 30)).set_can_return(Conf::new(false, 40));
    assert_eq!(pair(b.is_const()), (true, 10));
    assert_eq!(pair(b.is_volatile()), (true, 20));
    assert_eq!(pair(b.pure()), (true, 30));
    assert_eq!(pair(b.can_return()), (false, 40));
    assert_eq!(b.width(), 4);
    assert_eq!(b.type_class(), TypeClass::IntegerTypeClass);
    let after = b.finalize();
    assert_eq!(pair(after.is_const()), (true, 10));
    assert_eq!(pair(before.is_const()), (false, 0));
    assert_eq!(pair(i.is_const()), (false, 0));
    assert_eq!(pair(i.is_volatile()), (false, 0));
    assert!(b.target().is_err());
    assert!(b.element_type().is_err());
    assert!(b.return_value().is_err());
    assert!(b.parameters().is_err());
    assert!(b.calling_convention().is_err());
    assert!(b.get_structure().is_err());
    assert!(b.get_enumeration().is_err());
    assert!(b.get_named_type_reference().is_err());
    assert_eq!((b.count(), b.offset(), b.alignment()), (0, 0, 4));
    assert!(!b.is_floating_point());
    assert_eq!(pair(b.is_signed()), (true, 255));
    assert_eq!(pair(b.has_variable_arguments()), (false, 0));
    assert_eq!(b.stack_adjustment().contents, 0);
}

#[test]
fn parameter_names() {
    let i = Type::integer(4, true);
    let reg = |storage: i64| Some(Variable::new(VariableSourceType::RegisterVariableSourceType, 0, storage));
    let stack = |storage: i64| Some(Variable::new(VariableSourceType::StackVariableSourceType, 0, storage));
    let flag = Some(Variable::new(VariableSourceType::FlagVariableSourceType, 0, 3));
    assert_eq!(FunctionParameter::new(Conf::new(i.clone(), 255), "n", reg(5)).name(), "n");
    assert_eq!(FunctionParameter::unnamed(Conf::new(i.clone(), 255), reg(5)).name(), "reg_5");
    assert_eq!(FunctionParameter::unnamed(Conf::new(i.clone(), 255), reg(0)).name(), "reg_0");
    assert_eq!(FunctionParameter::unnamed(Conf::new(i.clone(), 255), reg(1234567890)).name(), "reg_1234567890");
    assert_eq!(FunctionParameter::unnamed(Conf::new(i.clone(), 255), stack(-8)).name(), "arg_-8");
    assert_eq!(
        FunctionParameter::unnamed(Conf::new(i.clone(), 255), stack(i64::MIN)).name(),
        "arg_-9223372036854775808"
    );
    assert_eq!(
        FunctionParameter::unnamed(Conf::new(i.clone(), 255), reg(i64::MAX)).name(),
        "reg_9223372036854775807"
    );
    assert_eq!(FunctionParameter::unnamed(Conf::new(i.clone(), 255), flag).name(), "");
    assert_eq!(FunctionParameter::unnamed(Conf::new(i.clone(), 255), None).name(), "");
}

#[test]
fn parameter_location_and_name_can_be_set() {
    let i = Type::integer(4, true);
    let v = Variable::new(VariableSourceType::RegisterVariableSourceType, 1, 9);
    let mut p = FunctionParameter::unnamed(Conf::new(i, 12), Some(v));
    assert_eq!(p.location(), Some(v));
    assert_eq!(p.t().confidence, 12);
    p.set_location(None);
    assert_eq!(p.location(), None);
    assert_eq!(p.name(), "");
    let w = Variable::new(VariableSourceType::StackVariableSourceType, 0, 24);
    p.set_location(Some(w));
    assert_eq!(p.location(), Some(w));
    assert_eq!(p.name(), "arg_24");
    p.set_name("count");
    assert_eq!(p.name(), "count");
    assert_eq!(p.clone().name(), "count");
}

use binaryninja::confidence::Conf;
use binaryninja::data::{
    DataVariable, DataVariableAndName, NameAndType, NamedTypedVariable, QualifiedNameAndType,
    QualifiedNameTypeAndId,
};
use binaryninja::kinds::TypeClass;
use binaryninja::qualified_name::QualifiedName;
use binaryninja::types::Type;
use binaryninja::variable::{Variable, VariableSourceType};

#[test]
fn named_typed_variable_fields() {
    let var = Variable::new(VariableSourceType::StackVariableSourceType, 0, -4);
    let v = NamedTypedVariable::new(var, Conf::new(Type::integer(4, true), 77), "i", true);
    assert_eq!(v.name(), "i");
    assert_eq!(v.var(), var);
    assert!(v.auto_defined());
    assert_eq!(v.type_confidence(), 77);
    assert_eq!(v.var_type().width(), 4);
    assert_eq!(v.clone().name(), "i");
}

#[test]
fn qualified_name_and_type_fields() {
    let n = QualifiedNameAndType::new(QualifiedName::from("T"), Type::bool());
    assert_eq!(n.name().string(), "T");
    assert_eq!(n.type_object().type_class(), TypeClass::BoolTypeClass);
    let m = QualifiedNameTypeAndId::new(QualifiedName::from("U"), "id-9", Type::float(4));
    assert_eq!(m.name().string(), "U");
    assert_eq!(m.id(), "id-9");
    assert_eq!(m.type_object().width(), 4);
}

#[test]
fn name_and_type_fields() {
    let n = NameAndType::new("x".to_string(), Type::integer(2, false), 9);
    assert_eq!(n.name(), "x");
    let t = n.type_with_confidence();
    assert_eq!((t.contents.width(), t.confidence), (2, 9));
    let c = n.clone();
    assert_eq!((c.name.as_str(), c.t.confidence), ("x", 9));
}

#[test]
fn data_variable_fields() {
    let d = DataVariable::new(0x4000, Conf::new(Type::integer(8, false), 33), false);
    assert_eq!(d.address(), 0x4000);
    assert!(!d.auto_discovered());
    assert_eq!(d.t().width(), 8);
    let t = d.type_with_confidence();
    assert_eq!((t.contents.width(), t.confidence), (8, 33));
    assert_eq!(d.clone().address(), 0x4000);
    let n = DataVariableAndName::new(0x10, Conf::new(Type::void(), 1), true, "g");
    assert_eq!((n.address, n.auto_discovered, n.name), (0x10, true, "g"));
    let t = n.type_with_confidence();
    assert_eq!((t.contents.type_class(), t.confidence), (TypeClass::VoidTypeClass, 1));
}

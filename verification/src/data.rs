//! Named and typed things that an analysis reports: variables of a function,
//! data at an address, and types under their names.

use vstd::prelude::*;
use vstd::string::StringExecFns;
use crate::confidence::Conf;
use crate::qualified_name::QualifiedName;
use crate::types::Type;
use crate::variable::Variable;

verus! {

/// A variable of a function with its name and type.
#[derive(Debug)]
pub struct NamedTypedVariable {
    var: Variable,
    ty: Type,
    name: String,
    auto_defined: bool,
    type_confidence: u8,
}

/// What a named variable holds. `auto_defined` says that analysis made the
/// variable up, not a user.
pub struct NamedTypedVariableView {
    pub var: Variable,
    pub ty: Type,
    pub name: Seq<char>,
    pub auto_defined: bool,
    pub type_confidence: u8,
}

impl View for NamedTypedVariable {
    type V = NamedTypedVariableView;

    closed spec fn view(&self) -> NamedTypedVariableView {
        NamedTypedVariableView {
            var: self.var,
            ty: self.ty,
            name: self.name@,
            auto_defined: self.auto_defined,
            type_confidence: self.type_confidence,
        }
    }
}

impl NamedTypedVariable {
    pub fn new(var: Variable, ty: Conf<Type>, name: &str, auto_defined: bool) -> (r: Self)
        ensures
            r@ == (NamedTypedVariableView {
                var,
                ty: ty.contents,
                name: name@,
                auto_defined,
                type_confidence: ty.confidence,
            }),
    {
        Self {
            var,
            ty: ty.contents,
            name: String::from_str(name),
            auto_defined,
            type_confidence: ty.confidence,
        }
    }

    pub fn name(&self) -> (r: &str)
        ensures
            r@ == self@.name,
    {
        self.name.as_str()
    }

    pub fn var(&self) -> (r: Variable)
        ensures
            r == self@.var,
    {
        self.var
    }

    pub fn auto_defined(&self) -> (r: bool)
        ensures
            r == self@.auto_defined,
    {
        self.auto_defined
    }

    pub fn type_confidence(&self) -> (r: u8)
        ensures
            r == self@.type_confidence,
    {
        self.type_confidence
    }

    pub fn var_type(&self) -> (r: &Type)
        ensures
            *r == self@.ty,
    {
        &self.ty
    }
}

impl Clone for NamedTypedVariable {
    fn clone(&self) -> (r: Self)
        ensures
            r == *self,
    {
        Self {
            var: self.var,
            ty: self.ty.clone(),
            name: self.name.clone(),
            auto_defined: self.auto_defined,
            type_confidence: self.type_confidence,
        }
    }
}

/// A type under its qualified name.
#[derive(Debug)]
pub struct QualifiedNameAndType {
    name: QualifiedName,
    ty: Type,
}

impl QualifiedNameAndType {
    /// The components of the name.
    pub closed spec fn name_components(&self) -> Seq<Seq<char>> {
        self.name.components()
    }

    /// The type.
    pub closed spec fn ty(&self) -> Type {
        self.ty
    }

    pub fn new(name: QualifiedName, ty: Type) -> (r: Self)
        ensures
            r.name_components() == name.components(),
            r.ty() == ty,
    {
        Self { name, ty }
    }

    pub fn name(&self) -> (r: &QualifiedName)
        ensures
            r.components() == self.name_components(),
    {
        &self.name
    }

    pub fn type_object(&self) -> (r: &Type)
        ensures
            *r == self.ty(),
    {
        &self.ty
    }
}

/// A type under its qualified name and its id.
#[derive(Debug)]
pub struct QualifiedNameTypeAndId {
    name: QualifiedName,
    id: String,
    ty: Type,
}

impl QualifiedNameTypeAndId {
    /// The components of the name.
    pub closed spec fn name_components(&self) -> Seq<Seq<char>> {
        self.name.components()
    }

    /// The id.
    pub closed spec fn type_id(&self) -> Seq<char> {
        self.id@
    }

    /// The type.
    pub closed spec fn ty(&self) -> Type {
        self.ty
    }

    pub fn new(name: QualifiedName, id: &str, ty: Type) -> (r: Self)
        ensures
            r.name_components() == name.components(),
            r.type_id() == id@,
            r.ty() == ty,
    {
        Self { name, id: String::from_str(id), ty }
    }

    pub fn name(&self) -> (r: &QualifiedName)
        ensures
            r.components() == self.name_components(),
    {
        &self.name
    }

    pub fn id(&self) -> (r: &str)
        ensures
            r@ == self.type_id(),
    {
        self.id.as_str()
    }

    pub fn type_object(&self) -> (r: &Type)
        ensures
            *r == self.ty(),
    {
        &self.ty
    }
}

/// A type under a plain name, with the confidence in the type.
#[derive(Debug)]
pub struct NameAndType {
    pub name: String,
    pub t: Conf<Type>,
}

impl NameAndType {
    pub fn new(name: String, t: Type, confidence: u8) -> (r: Self)
        ensures
            r == (NameAndType { name, t: Conf { contents: t, confidence } }),
    {
        Self { name, t: Conf::new(t, confidence) }
    }

    pub fn name(&self) -> (r: &str)
        ensures
            r@ == self.name@,
    {
        self.name.as_str()
    }

    pub fn type_with_confidence(&self) -> (r: Conf<Type>)
        ensures
            r == self.t,
    {
        self.t.clone()
    }
}

impl Clone for NameAndType {
    fn clone(&self) -> (r: Self)
        ensures
            r == *self,
    {
        let t = self.type_with_confidence();
        Self::new(self.name.clone(), t.contents, t.confidence)
    }
}

/// Data at an address with its type.
#[derive(Debug)]
pub struct DataVariable {
    address: u64,
    ty: Type,
    auto_discovered: bool,
    type_confidence: u8,
}

/// What a data variable holds. `auto_discovered` says that analysis found
/// it, not a user.
pub struct DataVariableView {
    pub address: u64,
    pub ty: Type,
    pub auto_discovered: bool,
    pub type_confidence: u8,
}

impl View for DataVariable {
    type V = DataVariableView;

    closed spec fn view(&self) -> DataVariableView {
        DataVariableView {
            address: self.address,
            ty: self.ty,
            auto_discovered: self.auto_discovered,
            type_confidence: self.type_confidence,
        }
    }
}

impl DataVariable {
    pub fn new(address: u64, t: Conf<Type>, auto_discovered: bool) -> (r: Self)
        ensures
            r@ == (DataVariableView {
                address,
                ty: t.contents,
                auto_discovered,
                type_confidence: t.confidence,
            }),
    {
        Self { address, ty: t.contents, auto_discovered, type_confidence: t.confidence }
    }

    pub fn address(&self) -> (r: u64)
        ensures
            r == self@.address,
    {
        self.address
    }

    pub fn auto_discovered(&self) -> (r: bool)
        ensures
            r == self@.auto_discovered,
    {
        self.auto_discovered
    }

    pub fn t(&self) -> (r: &Type)
        ensures
            *r == self@.ty,
    {
        &self.ty
    }

    pub fn type_with_confidence(&self) -> (r: Conf<&Type>)
        ensures
            *r.contents == self@.ty,
            r.confidence == self@.type_confidence,
    {
        Conf::new(&self.ty, self.type_confidence)
    }
}

impl Clone for DataVariable {
    fn clone(&self) -> (r: Self)
        ensures
            r == *self,
    {
        Self {
            address: self.address,
            ty: self.ty.clone(),
            auto_discovered: self.auto_discovered,
            type_confidence: self.type_confidence,
        }
    }
}

/// Data at an address with its type and a name of the caller's kind.
#[derive(Debug)]
pub struct DataVariableAndName<S> {
    pub address: u64,
    pub t: Conf<Type>,
    pub auto_discovered: bool,
    pub name: S,
}

impl<S> DataVariableAndName<S> {
    pub fn new(address: u64, t: Conf<Type>, auto_discovered: bool, name: S) -> (r: Self)
        ensures
            r == (DataVariableAndName { address, t, auto_discovered, name }),
    {
        Self { address, t, auto_discovered, name }
    }

    pub fn type_with_confidence(&self) -> (r: Conf<Type>)
        ensures
            r == self.t,
    {
        Conf::new(self.t.contents.clone(), self.t.confidence)
    }
}

} // verus!

//! The small closed vocabularies of the type model.

use vstd::prelude::*;

verus! {

/// What kind of type a descriptor stands for.
#[derive(Clone, Copy, Debug, PartialEq, Eq, Hash, Structural)]
pub enum TypeClass {
    VoidTypeClass,
    BoolTypeClass,
    IntegerTypeClass,
    FloatTypeClass,
    StructureTypeClass,
    EnumerationTypeClass,
    PointerTypeClass,
    ArrayTypeClass,
    FunctionTypeClass,
    VarArgsTypeClass,
    ValueTypeClass,
    NamedTypeReferenceClass,
    WideCharTypeClass,
}

/// How a pointer-like type refers to its target.
#[derive(Clone, Copy, Debug, PartialEq, Eq, Hash, Structural)]
pub enum ReferenceType {
    PointerReferenceType,
    ReferenceReferenceType,
    RValueReferenceType,
    NoReference,
}

/// What kind of definition a named reference points at.
#[derive(Clone, Copy, Debug, PartialEq, Eq, Hash, Structural)]
pub enum NamedTypeReferenceClass {
    UnknownNamedTypeClass,
    TypedefNamedTypeClass,
    ClassNamedTypeClass,
    StructNamedTypeClass,
    UnionNamedTypeClass,
    EnumNamedTypeClass,
}

/// Who may reach a structure member.
#[derive(Clone, Copy, Debug, PartialEq, Eq, Hash, Structural)]
pub enum MemberAccess {
    NoAccess,
    PrivateAccess,
    ProtectedAccess,
    PublicAccess,
}

/// How a structure member is bound to its structure.
#[derive(Clone, Copy, Debug, PartialEq, Eq, Hash, Structural)]
pub enum MemberScope {
    NoScope,
    StaticScope,
    VirtualScope,
    ThunkScope,
    FriendScope,
}

/// Whether a structure is a class, a struct or a union.
#[derive(Clone, Copy, Debug, PartialEq, Eq, Hash, Structural)]
pub enum StructureType {
    ClassStructureType,
    StructStructureType,
    UnionStructureType,
}

} // verus!

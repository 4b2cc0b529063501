//! Type descriptors: immutable shared snapshots, the mutable builders that
//! produce them, and what they refer to by name.
//!
//! A descriptor is a faithful record of what it was built from. Nothing here
//! checks that a width suits a class or that a function's parameters make
//! sense: that is for whoever interprets the types.

use vstd::prelude::*;
use vstd::std_specs::cmp::PartialEqSpecImpl;
use vstd::string::StringExecFns;
use std::sync::Arc;
use crate::confidence::{max_confidence, min_confidence, Conf};
use crate::enumeration::{Enumeration, EnumerationMemberView};
use crate::kinds::{NamedTypeReferenceClass, ReferenceType, StructureType, TypeClass};
use crate::qualified_name::QualifiedName;
use crate::rc::share;
use crate::structure::{structure_content, Structure, StructureContent};
use crate::variable::{Variable, VariableSourceType};

verus! {

/// A calling convention, known by its name.
#[derive(Debug, Hash)]
pub struct CallingConvention {
    pub name: String,
}

impl CallingConvention {
    pub fn new(name: &str) -> (r: Self)
        ensures
            r.name@ == name@,
    {
        Self { name: String::from_str(name) }
    }

    pub fn name(&self) -> (r: &str)
        ensures
            r@ == self.name@,
    {
        self.name.as_str()
    }
}

impl Clone for CallingConvention {
    fn clone(&self) -> (r: Self)
        ensures
            r == *self,
    {
        Self { name: self.name.clone() }
    }
}

/// What a named reference holds.
pub struct NamedTypeReferenceView {
    pub class: NamedTypeReferenceClass,
    pub id: Seq<char>,
    pub name: Seq<Seq<char>>,
}

#[derive(Debug, Hash)]
pub struct NamedTypeReferenceData {
    class: NamedTypeReferenceClass,
    id: String,
    name: QualifiedName,
}

/// A reference to a type by name and id, to be looked up in a registry.
/// Immutable, and shared by all its clones.
#[derive(Debug, Hash)]
pub struct NamedTypeReference {
    data: Arc<NamedTypeReferenceData>,
}

impl View for NamedTypeReference {
    type V = NamedTypeReferenceView;

    closed spec fn view(&self) -> NamedTypeReferenceView {
        NamedTypeReferenceView {
            class: self.data.class,
            id: self.data.id@,
            name: self.data.name.components(),
        }
    }
}

impl NamedTypeReference {
    /// A reference to a type that has no id yet: one that is still to be
    /// registered. The id is empty.
    pub fn new(type_class: NamedTypeReferenceClass, name: QualifiedName) -> (r: Self)
        ensures
            r@ == (NamedTypeReferenceView {
                class: type_class,
                id: Seq::<char>::empty(),
                name: name.components(),
            }),
    {
        Self { data: Arc::new(NamedTypeReferenceData { class: type_class, id: String::new(), name }) }
    }

    /// A reference to a type that a registry already knows under `type_id`.
    pub fn new_with_id(
        type_class: NamedTypeReferenceClass,
        type_id: &str,
        name: QualifiedName,
    ) -> (r: Self)
        ensures
            r@ == (NamedTypeReferenceView {
                class: type_class,
                id: type_id@,
                name: name.components(),
            }),
    {
        Self {
            data: Arc::new(
                NamedTypeReferenceData { class: type_class, id: String::from_str(type_id), name },
            ),
        }
    }

    pub fn name(&self) -> (r: QualifiedName)
        ensures
            r.components() == self@.name,
    {
        self.data.name.clone()
    }

    pub fn id(&self) -> (r: String)
        ensures
            r@ == self@.id,
    {
        self.data.id.clone()
    }

    pub fn class(&self) -> (r: NamedTypeReferenceClass)
        ensures
            r == self@.class,
    {
        self.data.class
    }
}

impl Clone for NamedTypeReference {
    fn clone(&self) -> (r: Self)
        ensures
            r == *self,
    {
        Self { data: share(&self.data) }
    }
}

/// One decimal digit as a character.
pub open spec fn digit(d: int) -> char {
    if d == 0 {
        '0'
    } else if d == 1 {
        '1'
    } else if d == 2 {
        '2'
    } else if d == 3 {
        '3'
    } else if d == 4 {
        '4'
    } else if d == 5 {
        '5'
    } else if d == 6 {
        '6'
    } else if d == 7 {
        '7'
    } else if d == 8 {
        '8'
    } else {
        '9'
    }
}

/// The decimal digits of `n`, most significant first, without leading zeros.
pub open spec fn digits(n: nat) -> Seq<char>
    decreases n,
{
    if n < 10 {
        seq![digit(n as int)]
    } else {
        digits(n / 10).push(digit((n % 10) as int))
    }
}

/// `n` in decimal, with a minus sign in front if it is negative.
pub open spec fn decimal(n: int) -> Seq<char> {
    if n < 0 {
        seq!['-'] + digits((-n) as nat)
    } else {
        digits(n as nat)
    }
}

fn digit_text(d: u64) -> (r: &'static str)
    requires
        d < 10,
    ensures
        r@ == seq![digit(d as int)],
{
    proof {
        reveal_strlit("0");
        reveal_strlit("1");
        reveal_strlit("2");
        reveal_strlit("3");
        reveal_strlit("4");
        reveal_strlit("5");
        reveal_strlit("6");
        reveal_strlit("7");
        reveal_strlit("8");
        reveal_strlit("9");
    }
    let r = if d == 0 {
        "0"
    } else if d == 1 {
        "1"
    } else if d == 2 {
        "2"
    } else if d == 3 {
        "3"
    } else if d == 4 {
        "4"
    } else if d == 5 {
        "5"
    } else if d == 6 {
        "6"
    } else if d == 7 {
        "7"
    } else if d == 8 {
        "8"
    } else {
        "9"
    };
    assert(r@ =~= seq![digit(d as int)]);
    r
}

fn digits_string(n: u64) -> (r: String)
    ensures
        r@ == digits(n as nat),
    decreases n,
{
    if n < 10 {
        String::from_str(digit_text(n))
    } else {
        let mut out = digits_string(n / 10);
        out.append(digit_text(n % 10));
        assert(out@ =~= digits((n / 10) as nat).push(digit((n % 10) as int)));
        out
    }
}

/// `n` written in decimal.
fn decimal_string(n: i64) -> (r: String)
    ensures
        r@ == decimal(n as int),
{
    if n < 0 {
        let magnitude: u64 = ((-(n + 1)) as u64) + 1;
        proof {
            reveal_strlit("-");
        }
        let mut out = String::from_str("-");
        assert(out@ =~= seq!['-']);
        out.append(digits_string(magnitude).as_str());
        out
    } else {
        digits_string(n as u64)
    }
}

/// One parameter of a function type.
#[derive(Debug, Hash)]
pub struct FunctionParameter {
    name: Option<String>,
    ty: Type,
    type_confidence: u8,
    location: Option<Variable>,
}

/// What a parameter holds. A parameter without a location lives where
/// parameters usually do.
pub struct FunctionParameterView {
    pub name: Option<Seq<char>>,
    pub ty: Type,
    pub type_confidence: u8,
    pub location: Option<Variable>,
}

impl View for FunctionParameter {
    type V = FunctionParameterView;

    closed spec fn view(&self) -> FunctionParameterView {
        FunctionParameterView {
            name: match self.name {
                Some(n) => Some(n@),
                None => None,
            },
            ty: self.ty,
            type_confidence: self.type_confidence,
            location: self.location,
        }
    }
}

/// The name under which a parameter shows: its own name if it has one; else,
/// if it has a location, `reg_` or `arg_` and the storage of the location for
/// a register or a stack slot; else nothing.
pub open spec fn shown_name(p: FunctionParameterView) -> Seq<char> {
    match p.name {
        Some(n) => n,
        None => match p.location {
            Some(v) => if v.t == VariableSourceType::RegisterVariableSourceType {
                seq!['r', 'e', 'g', '_'] + decimal(v.storage as int)
            } else if v.t == VariableSourceType::StackVariableSourceType {
                seq!['a', 'r', 'g', '_'] + decimal(v.storage as int)
            } else {
                Seq::empty()
            },
            None => Seq::empty(),
        },
    }
}

impl FunctionParameter {
    pub fn new(t: Conf<Type>, name: &str, location: Option<Variable>) -> (r: Self)
        ensures
            r@ == (FunctionParameterView {
                name: Some(name@),
                ty: t.contents,
                type_confidence: t.confidence,
                location,
            }),
    {
        Self {
            name: Some(String::from_str(name)),
            ty: t.contents,
            type_confidence: t.confidence,
            location,
        }
    }

    /// A parameter without a name of its own.
    pub fn unnamed(t: Conf<Type>, location: Option<Variable>) -> (r: Self)
        ensures
            r@ == (FunctionParameterView {
                name: None,
                ty: t.contents,
                type_confidence: t.confidence,
                location,
            }),
    {
        Self { name: None, ty: t.contents, type_confidence: t.confidence, location }
    }

    pub fn t(&self) -> (r: Conf<&Type>)
        ensures
            *r.contents == self@.ty,
            r.confidence == self@.type_confidence,
    {
        Conf::new(&self.ty, self.type_confidence)
    }

    pub fn name(&self) -> (r: String)
        ensures
            r@ == shown_name(self@),
    {
        match &self.name {
            Some(name) => name.clone(),
            None => match self.location {
                Some(v) => {
                    if v.t() == VariableSourceType::RegisterVariableSourceType {
                        proof {
                            reveal_strlit("reg_");
                        }
                        let mut out = String::from_str("reg_");
                        assert(out@ =~= seq!['r', 'e', 'g', '_']);
                        out.append(decimal_string(v.storage()).as_str());
                        out
                    } else if v.t() == VariableSourceType::StackVariableSourceType {
                        proof {
                            reveal_strlit("arg_");
                        }
                        let mut out = String::from_str("arg_");
                        assert(out@ =~= seq!['a', 'r', 'g', '_']);
                        out.append(decimal_string(v.storage()).as_str());
                        out
                    } else {
                        String::new()
                    }
                },
                None => String::new(),
            },
        }
    }

    pub fn set_name(&mut self, name: &str)
        ensures
            final(self)@ == (FunctionParameterView { name: Some(name@), ..old(self)@ }),
    {
        self.name = Some(String::from_str(name));
    }

    /// Where the parameter lives, if that was said.
    pub fn location(&self) -> (r: Option<Variable>)
        ensures
            r == self@.location,
    {
        self.location
    }

    /// Say where the parameter lives, or that it lives where parameters
    /// usually do.
    pub fn set_location(&mut self, value: Option<Variable>)
        ensures
            final(self)@ == (FunctionParameterView { location: value, ..old(self)@ }),
    {
        self.location = value;
    }
}

impl Clone for FunctionParameter {
    fn clone(&self) -> (r: Self)
        ensures
            r == *self,
    {
        Self {
            name: self.name.clone(),
            ty: self.ty.clone(),
            type_confidence: self.type_confidence,
            location: self.location,
        }
    }
}

/// The state that a type builder and its snapshots hold.
#[derive(Debug, Hash)]
pub struct TypeData {
    class: TypeClass,
    width: u64,
    alignment: usize,
    signed: Conf<bool>,
    is_const: Conf<bool>,
    is_volatile: Conf<bool>,
    child: Option<Conf<Type>>,
    calling_convention: Option<Conf<CallingConvention>>,
    parameters: Vec<FunctionParameter>,
    has_variable_arguments: Conf<bool>,
    can_return: Conf<bool>,
    pure: Conf<bool>,
    stack_adjustment: Conf<i64>,
    structure: Option<Structure>,
    enumeration: Option<Enumeration>,
    named_type_reference: Option<NamedTypeReference>,
    count: u64,
    offset: u64,
    alt_name: String,
    reference_type: ReferenceType,
}

/// What a type descriptor holds. The child is the target of a pointer, the
/// element of an array or the return value of a function, by the class.
pub struct TypeView {
    pub class: TypeClass,
    pub width: u64,
    pub alignment: usize,
    pub signed: Conf<bool>,
    pub is_const: Conf<bool>,
    pub is_volatile: Conf<bool>,
    pub child: Option<Conf<Type>>,
    pub calling_convention: Option<Conf<CallingConvention>>,
    pub parameters: Seq<FunctionParameter>,
    pub has_variable_arguments: Conf<bool>,
    pub can_return: Conf<bool>,
    pub pure: Conf<bool>,
    pub stack_adjustment: Conf<i64>,
    pub structure: Option<Structure>,
    pub enumeration: Option<Enumeration>,
    pub named_type_reference: Option<NamedTypeReference>,
    pub count: u64,
    pub offset: u64,
    pub alt_name: Seq<char>,
    pub reference_type: ReferenceType,
}

/// A finished type descriptor: immutable, and shared by all its clones.
#[derive(Debug, Hash)]
pub struct Type {
    data: Arc<TypeData>,
}

/// A type descriptor under construction. It has one owner, and becomes a
/// `Type` through `finalize`.
#[derive(Debug)]
pub struct TypeBuilder {
    data: TypeData,
}

impl View for TypeData {
    type V = TypeView;

    closed spec fn view(&self) -> TypeView {
        TypeView {
            class: self.class,
            width: self.width,
            alignment: self.alignment,
            signed: self.signed,
            is_const: self.is_const,
            is_volatile: self.is_volatile,
            child: self.child,
            calling_convention: self.calling_convention,
            parameters: self.parameters@,
            has_variable_arguments: self.has_variable_arguments,
            can_return: self.can_return,
            pure: self.pure,
            stack_adjustment: self.stack_adjustment,
            structure: self.structure,
            enumeration: self.enumeration,
            named_type_reference: self.named_type_reference,
            count: self.count,
            offset: self.offset,
            alt_name: self.alt_name@,
            reference_type: self.reference_type,
        }
    }
}

impl View for Type {
    type V = TypeView;

    closed spec fn view(&self) -> TypeView {
        self.data@
    }
}

impl View for TypeBuilder {
    type V = TypeView;

    closed spec fn view(&self) -> TypeView {
        self.data@
    }
}

impl Clone for Type {
    fn clone(&self) -> (r: Self)
        ensures
            r == *self,
    {
        Self { data: share(&self.data) }
    }
}


/// A borrowed tagged type as an owned one.
pub open spec fn owned(t: Conf<&Type>) -> Conf<Type> {
    Conf { contents: *t.contents, confidence: t.confidence }
}

/// A descriptor of class `class` about which nothing else is said.
pub open spec fn blank(class: TypeClass) -> TypeView {
    TypeView {
        class,
        width: 0,
        alignment: 0,
        signed: Conf { contents: false, confidence: 0 },
        is_const: Conf { contents: false, confidence: 0 },
        is_volatile: Conf { contents: false, confidence: 0 },
        child: None,
        calling_convention: None,
        parameters: Seq::empty(),
        has_variable_arguments: Conf { contents: false, confidence: 0 },
        can_return: Conf { contents: false, confidence: 0 },
        pure: Conf { contents: false, confidence: 0 },
        stack_adjustment: Conf { contents: 0, confidence: 0 },
        structure: None,
        enumeration: None,
        named_type_reference: None,
        count: 0,
        offset: 0,
        alt_name: Seq::empty(),
        reference_type: ReferenceType::NoReference,
    }
}

pub open spec fn void_type() -> TypeView {
    blank(TypeClass::VoidTypeClass)
}

/// A boolean is one byte wide.
pub open spec fn bool_type() -> TypeView {
    TypeView { width: 1, alignment: 1, ..blank(TypeClass::BoolTypeClass) }
}

/// An integer of `width` bytes, surely signed or surely unsigned. `alt_name`
/// is the name under which it is shown, empty for the usual one.
pub open spec fn int_type(width: usize, is_signed: bool, alt_name: Seq<char>) -> TypeView {
    TypeView {
        width: width as u64,
        alignment: width,
        signed: Conf { contents: is_signed, confidence: 255 },
        alt_name,
        ..blank(TypeClass::IntegerTypeClass)
    }
}

pub open spec fn float_type(width: usize, alt_name: Seq<char>) -> TypeView {
    TypeView {
        width: width as u64,
        alignment: width,
        alt_name,
        ..blank(TypeClass::FloatTypeClass)
    }
}

pub open spec fn wide_char_type(width: usize) -> TypeView {
    TypeView { width: width as u64, alignment: width, ..blank(TypeClass::WideCharTypeClass) }
}

/// The width of `count` elements of `element_width` bytes each, held at the
/// largest width where it would not fit.
pub open spec fn array_width(element_width: u64, count: u64) -> u64 {
    if element_width * count > u64::MAX {
        u64::MAX
    } else {
        (element_width * count) as u64
    }
}

pub open spec fn array_type(element: Conf<Type>, count: u64) -> TypeView {
    TypeView {
        width: array_width(element.contents@.width, count),
        alignment: element.contents@.alignment,
        child: Some(element),
        count,
        ..blank(TypeClass::ArrayTypeClass)
    }
}

pub open spec fn enumeration_type(
    enumeration: Enumeration,
    width: usize,
    is_signed: Conf<bool>,
) -> TypeView {
    TypeView {
        width: width as u64,
        alignment: width,
        signed: is_signed,
        enumeration: Some(enumeration),
        ..blank(TypeClass::EnumerationTypeClass)
    }
}

/// A structure type is as wide and as aligned as its structure.
pub open spec fn structure_type(structure: Structure) -> TypeView {
    TypeView {
        width: structure@.width,
        alignment: structure@.alignment,
        structure: Some(structure),
        ..blank(TypeClass::StructureTypeClass)
    }
}

/// A reference by name has no width of its own.
pub open spec fn named_type(reference: NamedTypeReference) -> TypeView {
    TypeView {
        alignment: 1,
        named_type_reference: Some(reference),
        ..blank(TypeClass::NamedTypeReferenceClass)
    }
}

/// The kind of named reference that stands for a type of this shape: that of
/// its structure or enumeration, a typedef for anything else.
pub open spec fn reference_class_of(t: TypeView) -> NamedTypeReferenceClass {
    if t.class == TypeClass::StructureTypeClass {
        match t.structure {
            Some(s) => match s@.structure_type {
                StructureType::ClassStructureType => NamedTypeReferenceClass::ClassNamedTypeClass,
                StructureType::StructStructureType => NamedTypeReferenceClass::StructNamedTypeClass,
                StructureType::UnionStructureType => NamedTypeReferenceClass::UnionNamedTypeClass,
            },
            None => NamedTypeReferenceClass::StructNamedTypeClass,
        }
    } else if t.class == TypeClass::EnumerationTypeClass {
        NamedTypeReferenceClass::EnumNamedTypeClass
    } else {
        NamedTypeReferenceClass::TypedefNamedTypeClass
    }
}

/// A reference under the name `name` to the type `t`: as wide and as aligned
/// as `t`, of the kind that suits `t`, and with no id yet.
pub open spec fn named_type_from_type(
    reference: NamedTypeReference,
    name: Seq<char>,
    t: TypeView,
) -> TypeView
    recommends
        reference@ == (NamedTypeReferenceView {
            class: reference_class_of(t),
            id: Seq::<char>::empty(),
            name: seq![name],
        }),
{
    TypeView { width: t.width, alignment: t.alignment, ..named_type(reference) }
}

pub open spec fn pointer_type(
    width: usize,
    target: Conf<Type>,
    is_const: Conf<bool>,
    is_volatile: Conf<bool>,
    reference_type: ReferenceType,
) -> TypeView {
    TypeView {
        width: width as u64,
        alignment: width,
        is_const,
        is_volatile,
        child: Some(target),
        reference_type,
        ..blank(TypeClass::PointerTypeClass)
    }
}

/// A function type. Whether it takes further arguments is said with
/// certainty; that it can return and that it is not pure are guesses.
pub open spec fn function_type(
    return_type: Conf<Type>,
    parameters: Seq<FunctionParameter>,
    variable_arguments: bool,
    calling_convention: Option<Conf<CallingConvention>>,
    stack_adjust: Conf<i64>,
) -> TypeView {
    TypeView {
        child: Some(return_type),
        calling_convention,
        parameters,
        has_variable_arguments: Conf { contents: variable_arguments, confidence: 255 },
        can_return: Conf { contents: true, confidence: 0 },
        pure: Conf { contents: false, confidence: 0 },
        stack_adjustment: stack_adjust,
        ..blank(TypeClass::FunctionTypeClass)
    }
}

/// The reference type that a pointer gets where none is asked for.
pub open spec fn reference_type_or_pointer(ref_type: Option<ReferenceType>) -> ReferenceType {
    match ref_type {
        Some(r) => r,
        None => ReferenceType::PointerReferenceType,
    }
}

fn own(t: Conf<&Type>) -> (r: Conf<Type>)
    ensures
        r == owned(t),
{
    Conf::new(t.contents.clone(), t.confidence)
}

fn some_or_pointer(ref_type: Option<ReferenceType>) -> (r: ReferenceType)
    ensures
        r == reference_type_or_pointer(ref_type),
{
    match ref_type {
        Some(r) => r,
        None => ReferenceType::PointerReferenceType,
    }
}

impl TypeData {
    fn blank(class: TypeClass) -> (r: Self)
        ensures
            r@ == blank(class),
    {
        let r = Self {
            class,
            width: 0,
            alignment: 0,
            signed: Conf::new(false, min_confidence()),
            is_const: Conf::new(false, min_confidence()),
            is_volatile: Conf::new(false, min_confidence()),
            child: None,
            calling_convention: None,
            parameters: Vec::new(),
            has_variable_arguments: Conf::new(false, min_confidence()),
            can_return: Conf::new(false, min_confidence()),
            pure: Conf::new(false, min_confidence()),
            stack_adjustment: Conf::new(0, min_confidence()),
            structure: None,
            enumeration: None,
            named_type_reference: None,
            count: 0,
            offset: 0,
            alt_name: String::new(),
            reference_type: ReferenceType::NoReference,
        };
        proof {
            assert(r.parameters@ =~= Seq::<FunctionParameter>::empty());
        }
        r
    }

    fn duplicate(&self) -> (r: Self)
        ensures
            r@ == self@,
    {
        let parameters = self.parameters.clone();
        proof {
            assert(parameters@ =~= self.parameters@);
        }
        Self {
            class: self.class,
            width: self.width,
            alignment: self.alignment,
            signed: self.signed.clone(),
            is_const: self.is_const.clone(),
            is_volatile: self.is_volatile.clone(),
            child: self.child.clone(),
            calling_convention: self.calling_convention.clone(),
            parameters,
            has_variable_arguments: self.has_variable_arguments.clone(),
            can_return: self.can_return.clone(),
            pure: self.pure.clone(),
            stack_adjustment: self.stack_adjustment.clone(),
            structure: self.structure.clone(),
            enumeration: self.enumeration.clone(),
            named_type_reference: self.named_type_reference.clone(),
            count: self.count,
            offset: self.offset,
            alt_name: self.alt_name.clone(),
            reference_type: self.reference_type,
        }
    }

    fn void() -> (r: Self)
        ensures
            r@ == void_type(),
    {
        Self::blank(TypeClass::VoidTypeClass)
    }

    fn bool() -> (r: Self)
        ensures
            r@ == bool_type(),
    {
        let mut d = Self::blank(TypeClass::BoolTypeClass);
        d.width = 1;
        d.alignment = 1;
        d
    }

    fn named_int(width: usize, is_signed: bool, alt_name: &str) -> (r: Self)
        ensures
            r@ == int_type(width, is_signed, alt_name@),
    {
        let mut d = Self::blank(TypeClass::IntegerTypeClass);
        d.width = width as u64;
        d.alignment = width;
        d.signed = Conf::new(is_signed, max_confidence());
        d.alt_name = String::from_str(alt_name);
        d
    }

    fn named_float(width: usize, alt_name: &str) -> (r: Self)
        ensures
            r@ == float_type(width, alt_name@),
    {
        let mut d = Self::blank(TypeClass::FloatTypeClass);
        d.width = width as u64;
        d.alignment = width;
        d.alt_name = String::from_str(alt_name);
        d
    }

    fn wide_char(width: usize) -> (r: Self)
        ensures
            r@ == wide_char_type(width),
    {
        let mut d = Self::blank(TypeClass::WideCharTypeClass);
        d.width = width as u64;
        d.alignment = width;
        d
    }

    fn array(t: Conf<&Type>, count: u64) -> (r: Self)
        ensures
            r@ == array_type(owned(t), count),
    {
        let mut d = Self::blank(TypeClass::ArrayTypeClass);
        d.width = match t.contents.width().checked_mul(count) {
            Some(w) => w,
            None => u64::MAX,
        };
        d.alignment = t.contents.alignment();
        d.child = Some(own(t));
        d.count = count;
        d
    }

    fn enumeration(enumeration: &Enumeration, width: usize, is_signed: Conf<bool>) -> (r: Self)
        ensures
            r@ == enumeration_type(*enumeration, width, is_signed),
    {
        let mut d = Self::blank(TypeClass::EnumerationTypeClass);
        d.width = width as u64;
        d.alignment = width;
        d.signed = is_signed;
        d.enumeration = Some(enumeration.clone());
        d
    }

    fn structure(structure: &Structure) -> (r: Self)
        ensures
            r@ == structure_type(*structure),
    {
        let mut d = Self::blank(TypeClass::StructureTypeClass);
        d.width = structure.width();
        d.alignment = structure.alignment();
        d.structure = Some(structure.clone());
        d
    }

    fn named_type(type_reference: NamedTypeReference) -> (r: Self)
        ensures
            r@ == named_type(type_reference),
    {
        let mut d = Self::blank(TypeClass::NamedTypeReferenceClass);
        d.alignment = 1;
        d.named_type_reference = Some(type_reference);
        d
    }

    fn named_type_from_type(name: &str, t: &Type) -> (r: Self)
        ensures
            r@.named_type_reference is Some,
            r@.named_type_reference.unwrap()@ == (NamedTypeReferenceView {
                class: reference_class_of(t@),
                id: Seq::<char>::empty(),
                name: seq![name@],
            }),
            r@ == named_type_from_type(r@.named_type_reference.unwrap(), name@, t@),
    {
        let class = if t.data.class == TypeClass::StructureTypeClass {
            match &t.data.structure {
                Some(s) => match s.structure_type() {
                    StructureType::ClassStructureType => NamedTypeReferenceClass::ClassNamedTypeClass,
                    StructureType::StructStructureType => NamedTypeReferenceClass::StructNamedTypeClass,
                    StructureType::UnionStructureType => NamedTypeReferenceClass::UnionNamedTypeClass,
                },
                None => NamedTypeReferenceClass::StructNamedTypeClass,
            }
        } else if t.data.class == TypeClass::EnumerationTypeClass {
            NamedTypeReferenceClass::EnumNamedTypeClass
        } else {
            NamedTypeReferenceClass::TypedefNamedTypeClass
        };
        let reference = NamedTypeReference::new(class, QualifiedName::from(name));
        let mut d = Self::named_type(reference);
        d.width = t.data.width;
        d.alignment = t.data.alignment;
        d
    }

    fn pointer_of(
        width: usize,
        t: Conf<&Type>,
        is_const: Conf<bool>,
        is_volatile: Conf<bool>,
        reference_type: ReferenceType,
    ) -> (r: Self)
        ensures
            r@ == pointer_type(width, owned(t), is_const, is_volatile, reference_type),
    {
        let mut d = Self::blank(TypeClass::PointerTypeClass);
        d.width = width as u64;
        d.alignment = width;
        d.is_const = is_const;
        d.is_volatile = is_volatile;
        d.child = Some(own(t));
        d.reference_type = reference_type;
        d
    }

    fn function_of(
        return_type: Conf<&Type>,
        parameters: &[FunctionParameter],
        variable_arguments: bool,
        calling_convention: Option<Conf<CallingConvention>>,
        stack_adjust: Conf<i64>,
    ) -> (r: Self)
        ensures
            r@ == function_type(
                owned(return_type),
                parameters@,
                variable_arguments,
                calling_convention,
                stack_adjust,
            ),
    {
        let mut copied: Vec<FunctionParameter> = Vec::new();
        let mut i: usize = 0;
        while i < parameters.len()
            invariant
                i <= parameters.len(),
                copied@ == parameters@.take(i as int),
            decreases parameters.len() - i,
        {
            copied.push(parameters[i].clone());
            proof {
                assert(copied@ =~= parameters@.take(i + 1));
            }
            i = i + 1;
        }
        proof {
            assert(parameters@.take(i as int) =~= parameters@);
        }
        let mut d = Self::blank(TypeClass::FunctionTypeClass);
        d.child = Some(own(return_type));
        d.calling_convention = calling_convention;
        d.parameters = copied;
        d.has_variable_arguments = Conf::new(variable_arguments, max_confidence());
        d.can_return = Conf::new(true, min_confidence());
        d.pure = Conf::new(false, min_confidence());
        d.stack_adjustment = stack_adjust;
        d
    }
}

impl TypeBuilder {
    /// A builder that starts from what `t` holds. `t` stays as it is.
    pub fn new(t: &Type) -> (r: Self)
        ensures
            r@ == t@,
    {
        Self { data: t.data.duplicate() }
    }

    /// A snapshot of the builder as it is now. What is done to the builder
    /// afterwards does not reach it.
    pub fn finalize(&self) -> (r: Type)
        ensures
            r@ == self@,
    {
        Type { data: Arc::new(self.data.duplicate()) }
    }

    pub fn set_can_return(&mut self, value: Conf<bool>) -> (r: &mut Self)
        ensures
            r@ == (TypeView { can_return: value, ..old(self)@ }),
            *final(self) == *final(r),
    {
        self.data.can_return = value;
        self
    }

    pub fn set_pure(&mut self, value: Conf<bool>) -> (r: &mut Self)
        ensures
            r@ == (TypeView { pure: value, ..old(self)@ }),
            *final(self) == *final(r),
    {
        self.data.pure = value;
        self
    }

    pub fn set_const(&mut self, value: Conf<bool>) -> (r: &mut Self)
        ensures
            r@ == (TypeView { is_const: value, ..old(self)@ }),
            *final(self) == *final(r),
    {
        self.data.is_const = value;
        self
    }

    pub fn set_volatile(&mut self, value: Conf<bool>) -> (r: &mut Self)
        ensures
            r@ == (TypeView { is_volatile: value, ..old(self)@ }),
            *final(self) == *final(r),
    {
        self.data.is_volatile = value;
        self
    }

    pub fn type_class(&self) -> (r: TypeClass)
        ensures
            r == self@.class,
    {
        self.data.class
    }

    pub fn width(&self) -> (r: u64)
        ensures
            r == self@.width,
    {
        self.data.width
    }

    pub fn alignment(&self) -> (r: usize)
        ensures
            r == self@.alignment,
    {
        self.data.alignment
    }

    pub fn is_signed(&self) -> (r: Conf<bool>)
        ensures
            r == self@.signed,
    {
        self.data.signed.clone()
    }

    pub fn is_const(&self) -> (r: Conf<bool>)
        ensures
            r == self@.is_const,
    {
        self.data.is_const.clone()
    }

    pub fn is_volatile(&self) -> (r: Conf<bool>)
        ensures
            r == self@.is_volatile,
    {
        self.data.is_volatile.clone()
    }

    pub fn is_floating_point(&self) -> (r: bool)
        ensures
            r == (self@.class == TypeClass::FloatTypeClass),
    {
        self.data.class == TypeClass::FloatTypeClass
    }

    /// What a pointer points at. The child is one field for three classes: ask
    /// the class first.
    pub fn target(&self) -> (r: Result<Conf<Type>, ()>)
        ensures
            r == (match self@.child {
                Some(c) => Ok::<Conf<Type>, ()>(c),
                None => Err(()),
            }),
    {
        match &self.data.child {
            Some(c) => Ok(c.clone()),
            None => Err(()),
        }
    }

    /// What an array is made of.
    pub fn element_type(&self) -> (r: Result<Conf<Type>, ()>)
        ensures
            r == (match self@.child {
                Some(c) => Ok::<Conf<Type>, ()>(c),
                None => Err(()),
            }),
    {
        match &self.data.child {
            Some(c) => Ok(c.clone()),
            None => Err(()),
        }
    }

    /// What a function returns.
    pub fn return_value(&self) -> (r: Result<Conf<Type>, ()>)
        ensures
            r == (match self@.child {
                Some(c) => Ok::<Conf<Type>, ()>(c),
                None => Err(()),
            }),
    {
        match &self.data.child {
            Some(c) => Ok(c.clone()),
            None => Err(()),
        }
    }

    pub fn calling_convention(&self) -> (r: Result<Conf<CallingConvention>, ()>)
        ensures
            r == (match self@.calling_convention {
                Some(c) => Ok::<Conf<CallingConvention>, ()>(c),
                None => Err(()),
            }),
    {
        match &self.data.calling_convention {
            Some(c) => Ok(c.clone()),
            None => Err(()),
        }
    }

    /// The parameters of a function type, in order. Any other class has none
    /// to give.
    pub fn parameters(&self) -> (r: Result<Vec<FunctionParameter>, ()>)
        ensures
            r is Ok <==> self@.class == TypeClass::FunctionTypeClass,
            r matches Ok(v) ==> v@ == self@.parameters,
    {
        if self.data.class == TypeClass::FunctionTypeClass {
            let v = self.data.parameters.clone();
            proof {
                assert(v@ =~= self.data.parameters@);
            }
            Ok(v)
        } else {
            Err(())
        }
    }

    pub fn has_variable_arguments(&self) -> (r: Conf<bool>)
        ensures
            r == self@.has_variable_arguments,
    {
        self.data.has_variable_arguments.clone()
    }

    pub fn can_return(&self) -> (r: Conf<bool>)
        ensures
            r == self@.can_return,
    {
        self.data.can_return.clone()
    }

    pub fn pure(&self) -> (r: Conf<bool>)
        ensures
            r == self@.pure,
    {
        self.data.pure.clone()
    }

    pub fn get_structure(&self) -> (r: Result<Structure, ()>)
        ensures
            r == (match self@.structure {
                Some(x) => Ok::<Structure, ()>(x),
                None => Err(()),
            }),
    {
        match &self.data.structure {
            Some(x) => Ok(x.clone()),
            None => Err(()),
        }
    }

    pub fn get_enumeration(&self) -> (r: Result<Enumeration, ()>)
        ensures
            r == (match self@.enumeration {
                Some(x) => Ok::<Enumeration, ()>(x),
                None => Err(()),
            }),
    {
        match &self.data.enumeration {
            Some(x) => Ok(x.clone()),
            None => Err(()),
        }
    }

    pub fn get_named_type_reference(&self) -> (r: Result<NamedTypeReference, ()>)
        ensures
            r == (match self@.named_type_reference {
                Some(x) => Ok::<NamedTypeReference, ()>(x),
                None => Err(()),
            }),
    {
        match &self.data.named_type_reference {
            Some(x) => Ok(x.clone()),
            None => Err(()),
        }
    }

    /// How many elements an array has.
    pub fn count(&self) -> (r: u64)
        ensures
            r == self@.count,
    {
        self.data.count
    }

    pub fn offset(&self) -> (r: u64)
        ensures
            r == self@.offset,
    {
        self.data.offset
    }

    pub fn stack_adjustment(&self) -> (r: Conf<i64>)
        ensures
            r == self@.stack_adjustment,
    {
        self.data.stack_adjustment.clone()
    }

    pub fn void() -> (r: Self)
        ensures
            r@ == void_type(),
    {
        Self { data: TypeData::void() }
    }

    pub fn bool() -> (r: Self)
        ensures
            r@ == bool_type(),
    {
        Self { data: TypeData::bool() }
    }

    /// A signed integer of one byte.
    pub fn char() -> (r: Self)
        ensures
            r@ == int_type(1, true, Seq::<char>::empty()),
    {
        Self::integer(1, true)
    }

    pub fn integer(width: usize, is_signed: bool) -> (r: Self)
        ensures
            r@ == int_type(width, is_signed, Seq::<char>::empty()),
    {
        proof {
            reveal_strlit("");
        }
        let d = TypeData::named_int(width, is_signed, "");
        assert(d@.alt_name =~= Seq::<char>::empty());
        Self { data: d }
    }

    pub fn named_int(width: usize, is_signed: bool, alt_name: &str) -> (r: Self)
        ensures
            r@ == int_type(width, is_signed, alt_name@),
    {
        Self { data: TypeData::named_int(width, is_signed, alt_name) }
    }

    pub fn float(width: usize) -> (r: Self)
        ensures
            r@ == float_type(width, Seq::<char>::empty()),
    {
        proof {
            reveal_strlit("");
        }
        let d = TypeData::named_float(width, "");
        assert(d@.alt_name =~= Seq::<char>::empty());
        Self { data: d }
    }

    pub fn named_float(width: usize, alt_name: &str) -> (r: Self)
        ensures
            r@ == float_type(width, alt_name@),
    {
        Self { data: TypeData::named_float(width, alt_name) }
    }

    pub fn array(t: Conf<&Type>, count: u64) -> (r: Self)
        ensures
            r@ == array_type(owned(t), count),
    {
        Self { data: TypeData::array(t, count) }
    }

    /// An enumeration type of the given width. Nothing is asked of the width:
    /// zero is kept as zero.
    pub fn enumeration(enumeration: &Enumeration, width: usize, is_signed: Conf<bool>) -> (r: Self)
        ensures
            r@ == enumeration_type(*enumeration, width, is_signed),
    {
        Self { data: TypeData::enumeration(enumeration, width, is_signed) }
    }

    pub fn structure(structure: &Structure) -> (r: Self)
        ensures
            r@ == structure_type(*structure),
    {
        Self { data: TypeData::structure(structure) }
    }

    pub fn named_type(type_reference: NamedTypeReference) -> (r: Self)
        ensures
            r@ == named_type(type_reference),
    {
        Self { data: TypeData::named_type(type_reference) }
    }

    /// A reference under `name` to the type `t`.
    pub fn named_type_from_type(name: &str, t: &Type) -> (r: Self)
        ensures
            r@.named_type_reference is Some,
            r@.named_type_reference.unwrap()@ == (NamedTypeReferenceView {
                class: reference_class_of(t@),
                id: Seq::<char>::empty(),
                name: seq![name@],
            }),
            r@ == named_type_from_type(r@.named_type_reference.unwrap(), name@, t@),
    {
        Self { data: TypeData::named_type_from_type(name, t) }
    }

    /// A pointer of `address_size` bytes to `t`; that it is neither constant
    /// nor volatile is a guess.
    pub fn pointer(address_size: usize, t: Conf<&Type>) -> (r: Self)
        ensures
            r@ == pointer_type(
                address_size,
                owned(t),
                Conf { contents: false, confidence: 0 },
                Conf { contents: false, confidence: 0 },
                ReferenceType::PointerReferenceType,
            ),
    {
        let data = TypeData::pointer_of(
            address_size,
            t,
            Conf::new(false, min_confidence()),
            Conf::new(false, min_confidence()),
            ReferenceType::PointerReferenceType,
        );
        Self { data }
    }

    /// A pointer of `address_size` bytes to `t` that is surely constant.
    pub fn const_pointer(address_size: usize, t: Conf<&Type>) -> (r: Self)
        ensures
            r@ == pointer_type(
                address_size,
                owned(t),
                Conf { contents: true, confidence: 255 },
                Conf { contents: false, confidence: 0 },
                ReferenceType::PointerReferenceType,
            ),
    {
        let data = TypeData::pointer_of(
            address_size,
            t,
            Conf::new(true, max_confidence()),
            Conf::new(false, min_confidence()),
            ReferenceType::PointerReferenceType,
        );
        Self { data }
    }

    pub fn pointer_of_width(
        t: Conf<&Type>,
        size: usize,
        is_const: bool,
        is_volatile: bool,
        ref_type: Option<ReferenceType>,
    ) -> (r: Self)
        ensures
            r@ == pointer_type(
                size,
                owned(t),
                Conf { contents: is_const, confidence: 255 },
                Conf { contents: is_volatile, confidence: 255 },
                reference_type_or_pointer(ref_type),
            ),
    {
        let data = TypeData::pointer_of(
            size,
            t,
            Conf::new(is_const, max_confidence()),
            Conf::new(is_volatile, max_confidence()),
            some_or_pointer(ref_type),
        );
        Self { data }
    }

    pub fn pointer_with_options(
        address_size: usize,
        t: Conf<&Type>,
        is_const: bool,
        is_volatile: bool,
        ref_type: Option<ReferenceType>,
    ) -> (r: Self)
        ensures
            r@ == pointer_type(
                address_size,
                owned(t),
                Conf { contents: is_const, confidence: 255 },
                Conf { contents: is_volatile, confidence: 255 },
                reference_type_or_pointer(ref_type),
            ),
    {
        let data = TypeData::pointer_of(
            address_size,
            t,
            Conf::new(is_const, max_confidence()),
            Conf::new(is_volatile, max_confidence()),
            some_or_pointer(ref_type),
        );
        Self { data }
    }
}

impl Type {
    /// A builder that starts from a copy of this type.
    pub fn to_builder(&self) -> (r: TypeBuilder)
        ensures
            r@ == self@,
    {
        TypeBuilder::new(self)
    }

    pub fn type_class(&self) -> (r: TypeClass)
        ensures
            r == self@.class,
    {
        self.data.class
    }

    pub fn width(&self) -> (r: u64)
        ensures
            r == self@.width,
    {
        self.data.width
    }

    pub fn alignment(&self) -> (r: usize)
        ensures
            r == self@.alignment,
    {
        self.data.alignment
    }

    pub fn is_signed(&self) -> (r: Conf<bool>)
        ensures
            r == self@.signed,
    {
        self.data.signed.clone()
    }

    pub fn is_const(&self) -> (r: Conf<bool>)
        ensures
            r == self@.is_const,
    {
        self.data.is_const.clone()
    }

    pub fn is_volatile(&self) -> (r: Conf<bool>)
        ensures
            r == self@.is_volatile,
    {
        self.data.is_volatile.clone()
    }

    pub fn is_floating_point(&self) -> (r: bool)
        ensures
            r == (self@.class == TypeClass::FloatTypeClass),
    {
        self.data.class == TypeClass::FloatTypeClass
    }

    /// What a pointer points at. The child is one field for three classes: ask
    /// the class first.
    pub fn target(&self) -> (r: Result<Conf<Type>, ()>)
        ensures
            r == (match self@.child {
                Some(c) => Ok::<Conf<Type>, ()>(c),
                None => Err(()),
            }),
    {
        match &self.data.child {
            Some(c) => Ok(c.clone()),
            None => Err(()),
        }
    }

    /// What an array is made of.
    pub fn element_type(&self) -> (r: Result<Conf<Type>, ()>)
        ensures
            r == (match self@.child {
                Some(c) => Ok::<Conf<Type>, ()>(c),
                None => Err(()),
            }),
    {
        match &self.data.child {
            Some(c) => Ok(c.clone()),
            None => Err(()),
        }
    }

    /// What a function returns.
    pub fn return_value(&self) -> (r: Result<Conf<Type>, ()>)
        ensures
            r == (match self@.child {
                Some(c) => Ok::<Conf<Type>, ()>(c),
                None => Err(()),
            }),
    {
        match &self.data.child {
            Some(c) => Ok(c.clone()),
            None => Err(()),
        }
    }

    pub fn calling_convention(&self) -> (r: Result<Conf<CallingConvention>, ()>)
        ensures
            r == (match self@.calling_convention {
                Some(c) => Ok::<Conf<CallingConvention>, ()>(c),
                None => Err(()),
            }),
    {
        match &self.data.calling_convention {
            Some(c) => Ok(c.clone()),
            None => Err(()),
        }
    }

    /// The parameters of a function type, in order. Any other class has none
    /// to give.
    pub fn parameters(&self) -> (r: Result<Vec<FunctionParameter>, ()>)
        ensures
            r is Ok <==> self@.class == TypeClass::FunctionTypeClass,
            r matches Ok(v) ==> v@ == self@.parameters,
    {
        if self.data.class == TypeClass::FunctionTypeClass {
            let v = self.data.parameters.clone();
            proof {
                assert(v@ =~= self.data.parameters@);
            }
            Ok(v)
        } else {
            Err(())
        }
    }

    pub fn has_variable_arguments(&self) -> (r: Conf<bool>)
        ensures
            r == self@.has_variable_arguments,
    {
        self.data.has_variable_arguments.clone()
    }

    pub fn can_return(&self) -> (r: Conf<bool>)
        ensures
            r == self@.can_return,
    {
        self.data.can_return.clone()
    }

    pub fn pure(&self) -> (r: Conf<bool>)
        ensures
            r == self@.pure,
    {
        self.data.pure.clone()
    }

    pub fn get_structure(&self) -> (r: Result<Structure, ()>)
        ensures
            r == (match self@.structure {
                Some(x) => Ok::<Structure, ()>(x),
                None => Err(()),
            }),
    {
        match &self.data.structure {
            Some(x) => Ok(x.clone()),
            None => Err(()),
        }
    }

    pub fn get_enumeration(&self) -> (r: Result<Enumeration, ()>)
        ensures
            r == (match self@.enumeration {
                Some(x) => Ok::<Enumeration, ()>(x),
                None => Err(()),
            }),
    {
        match &self.data.enumeration {
            Some(x) => Ok(x.clone()),
            None => Err(()),
        }
    }

    pub fn get_named_type_reference(&self) -> (r: Result<NamedTypeReference, ()>)
        ensures
            r == (match self@.named_type_reference {
                Some(x) => Ok::<NamedTypeReference, ()>(x),
                None => Err(()),
            }),
    {
        match &self.data.named_type_reference {
            Some(x) => Ok(x.clone()),
            None => Err(()),
        }
    }

    /// How many elements an array has.
    pub fn count(&self) -> (r: u64)
        ensures
            r == self@.count,
    {
        self.data.count
    }

    pub fn offset(&self) -> (r: u64)
        ensures
            r == self@.offset,
    {
        self.data.offset
    }

    pub fn stack_adjustment(&self) -> (r: Conf<i64>)
        ensures
            r == self@.stack_adjustment,
    {
        self.data.stack_adjustment.clone()
    }

    /// The name under which an integer or a float is shown, empty for the
    /// usual one.
    pub fn alt_name(&self) -> (r: String)
        ensures
            r@ == self@.alt_name,
    {
        self.data.alt_name.clone()
    }

    pub fn reference_type(&self) -> (r: ReferenceType)
        ensures
            r == self@.reference_type,
    {
        self.data.reference_type
    }

    pub fn void() -> (r: Self)
        ensures
            r@ == void_type(),
    {
        Self { data: Arc::new(TypeData::void()) }
    }

    pub fn bool() -> (r: Self)
        ensures
            r@ == bool_type(),
    {
        Self { data: Arc::new(TypeData::bool()) }
    }

    /// A signed integer of one byte.
    pub fn char() -> (r: Self)
        ensures
            r@ == int_type(1, true, Seq::<char>::empty()),
    {
        Self::integer(1, true)
    }

    pub fn integer(width: usize, is_signed: bool) -> (r: Self)
        ensures
            r@ == int_type(width, is_signed, Seq::<char>::empty()),
    {
        proof {
            reveal_strlit("");
        }
        let d = TypeData::named_int(width, is_signed, "");
        assert(d@.alt_name =~= Seq::<char>::empty());
        Self { data: Arc::new(d) }
    }

    pub fn named_int(width: usize, is_signed: bool, alt_name: &str) -> (r: Self)
        ensures
            r@ == int_type(width, is_signed, alt_name@),
    {
        Self { data: Arc::new(TypeData::named_int(width, is_signed, alt_name)) }
    }

    pub fn float(width: usize) -> (r: Self)
        ensures
            r@ == float_type(width, Seq::<char>::empty()),
    {
        proof {
            reveal_strlit("");
        }
        let d = TypeData::named_float(width, "");
        assert(d@.alt_name =~= Seq::<char>::empty());
        Self { data: Arc::new(d) }
    }

    pub fn named_float(width: usize, alt_name: &str) -> (r: Self)
        ensures
            r@ == float_type(width, alt_name@),
    {
        Self { data: Arc::new(TypeData::named_float(width, alt_name)) }
    }

    pub fn array(t: Conf<&Type>, count: u64) -> (r: Self)
        ensures
            r@ == array_type(owned(t), count),
    {
        Self { data: Arc::new(TypeData::array(t, count)) }
    }

    /// An enumeration type of the given width. Nothing is asked of the width:
    /// zero is kept as zero.
    pub fn enumeration(enumeration: &Enumeration, width: usize, is_signed: Conf<bool>) -> (r: Self)
        ensures
            r@ == enumeration_type(*enumeration, width, is_signed),
    {
        Self { data: Arc::new(TypeData::enumeration(enumeration, width, is_signed)) }
    }

    pub fn structure(structure: &Structure) -> (r: Self)
        ensures
            r@ == structure_type(*structure),
    {
        Self { data: Arc::new(TypeData::structure(structure)) }
    }

    pub fn wide_char(width: usize) -> (r: Self)
        ensures
            r@ == wide_char_type(width),
    {
        Self { data: Arc::new(TypeData::wide_char(width)) }
    }

    /// A function type with no calling convention and a guessed stack
    /// adjustment of zero.
    pub fn function(
        return_type: Conf<&Type>,
        parameters: &[FunctionParameter],
        variable_arguments: bool,
    ) -> (r: Self)
        ensures
            r@ == function_type(
                owned(return_type),
                parameters@,
                variable_arguments,
                None,
                Conf { contents: 0, confidence: 0 },
            ),
    {
        Self {
            data: Arc::new(
                TypeData::function_of(
                    return_type,
                    parameters,
                    variable_arguments,
                    None,
                    Conf::new(0, min_confidence()),
                ),
            ),
        }
    }

    pub fn function_with_options(
        return_type: Conf<&Type>,
        parameters: &[FunctionParameter],
        variable_arguments: bool,
        calling_convention: Conf<&CallingConvention>,
        stack_adjust: Conf<i64>,
    ) -> (r: Self)
        ensures
            r@ == function_type(
                owned(return_type),
                parameters@,
                variable_arguments,
                Some(
                    Conf {
                        contents: *calling_convention.contents,
                        confidence: calling_convention.confidence,
                    },
                ),
                stack_adjust,
            ),
    {
        let convention = Conf::new(
            calling_convention.contents.clone(),
            calling_convention.confidence,
        );
        Self {
            data: Arc::new(
                TypeData::function_of(
                    return_type,
                    parameters,
                    variable_arguments,
                    Some(convention),
                    stack_adjust,
                ),
            ),
        }
    }

    pub fn named_type(type_reference: &NamedTypeReference) -> (r: Self)
        ensures
            r@ == named_type(*type_reference),
    {
        Self { data: Arc::new(TypeData::named_type(type_reference.clone())) }
    }

    /// A reference under `name` to the type `t`.
    pub fn named_type_from_type(name: &str, t: &Type) -> (r: Self)
        ensures
            r@.named_type_reference is Some,
            r@.named_type_reference.unwrap()@ == (NamedTypeReferenceView {
                class: reference_class_of(t@),
                id: Seq::<char>::empty(),
                name: seq![name@],
            }),
            r@ == named_type_from_type(r@.named_type_reference.unwrap(), name@, t@),
    {
        Self { data: Arc::new(TypeData::named_type_from_type(name, t)) }
    }

    /// A pointer of `address_size` bytes to `t`; that it is neither constant
    /// nor volatile is a guess.
    pub fn pointer(address_size: usize, t: Conf<&Type>) -> (r: Self)
        ensures
            r@ == pointer_type(
                address_size,
                owned(t),
                Conf { contents: false, confidence: 0 },
                Conf { contents: false, confidence: 0 },
                ReferenceType::PointerReferenceType,
            ),
    {
        let data = TypeData::pointer_of(
            address_size,
            t,
            Conf::new(false, min_confidence()),
            Conf::new(false, min_confidence()),
            ReferenceType::PointerReferenceType,
        );
        Self { data: Arc::new(data) }
    }

    /// A pointer of `address_size` bytes to `t` that is surely constant.
    pub fn const_pointer(address_size: usize, t: Conf<&Type>) -> (r: Self)
        ensures
            r@ == pointer_type(
                address_size,
                owned(t),
                Conf { contents: true, confidence: 255 },
                Conf { contents: false, confidence: 0 },
                ReferenceType::PointerReferenceType,
            ),
    {
        let data = TypeData::pointer_of(
            address_size,
            t,
            Conf::new(true, max_confidence()),
            Conf::new(false, min_confidence()),
            ReferenceType::PointerReferenceType,
        );
        Self { data: Arc::new(data) }
    }

    pub fn pointer_of_width(
        t: Conf<&Type>,
        size: usize,
        is_const: bool,
        is_volatile: bool,
        ref_type: Option<ReferenceType>,
    ) -> (r: Self)
        ensures
            r@ == pointer_type(
                size,
                owned(t),
                Conf { contents: is_const, confidence: 255 },
                Conf { contents: is_volatile, confidence: 255 },
                reference_type_or_pointer(ref_type),
            ),
    {
        let data = TypeData::pointer_of(
            size,
            t,
            Conf::new(is_const, max_confidence()),
            Conf::new(is_volatile, max_confidence()),
            some_or_pointer(ref_type),
        );
        Self { data: Arc::new(data) }
    }

    pub fn pointer_with_options(
        address_size: usize,
        t: Conf<&Type>,
        is_const: bool,
        is_volatile: bool,
        ref_type: Option<ReferenceType>,
    ) -> (r: Self)
        ensures
            r@ == pointer_type(
                address_size,
                owned(t),
                Conf { contents: is_const, confidence: 255 },
                Conf { contents: is_volatile, confidence: 255 },
                reference_type_or_pointer(ref_type),
            ),
    {
        let data = TypeData::pointer_of(
            address_size,
            t,
            Conf::new(is_const, max_confidence()),
            Conf::new(is_volatile, max_confidence()),
            some_or_pointer(ref_type),
        );
        Self { data: Arc::new(data) }
    }
}

/// What a parameter is made of, down to the last type it reaches.
pub struct ParameterContent {
    pub name: Option<Seq<char>>,
    pub ty: TypeContent,
    pub type_confidence: u8,
    pub location: Option<Variable>,
}

/// What a type is made of, down to the last type it reaches. Two types with
/// the same content cannot be told apart, wherever they were built.
pub struct TypeContent {
    pub class: TypeClass,
    pub width: u64,
    pub alignment: usize,
    pub signed: Conf<bool>,
    pub is_const: Conf<bool>,
    pub is_volatile: Conf<bool>,
    pub child: Option<Conf<Box<TypeContent>>>,
    pub calling_convention: Option<Conf<Seq<char>>>,
    pub parameters: Seq<ParameterContent>,
    pub has_variable_arguments: Conf<bool>,
    pub can_return: Conf<bool>,
    pub pure: Conf<bool>,
    pub stack_adjustment: Conf<i64>,
    pub structure: Option<StructureContent>,
    pub enumeration: Option<Seq<EnumerationMemberView>>,
    pub named_type_reference: Option<NamedTypeReferenceView>,
    pub count: u64,
    pub offset: u64,
    pub alt_name: Seq<char>,
    pub reference_type: ReferenceType,
}

/// What the parameter `p` is made of.
pub closed spec fn parameter_content(p: FunctionParameter) -> ParameterContent
    decreases p,
{
    ParameterContent {
        name: match p.name {
            Some(n) => Some(n@),
            None => None,
        },
        ty: content(p.ty),
        type_confidence: p.type_confidence,
        location: p.location,
    }
}

/// What the type `t` is made of.
pub closed spec fn content(t: Type) -> TypeContent
    decreases t,
{
    TypeContent {
        class: t.data.class,
        width: t.data.width,
        alignment: t.data.alignment,
        signed: t.data.signed,
        is_const: t.data.is_const,
        is_volatile: t.data.is_volatile,
        child: match t.data.child {
            Some(c) => Some(
                Conf { contents: Box::new(content(c.contents)), confidence: c.confidence },
            ),
            None => None,
        },
        calling_convention: match t.data.calling_convention {
            Some(c) => Some(Conf { contents: c.contents.name@, confidence: c.confidence }),
            None => None,
        },
        parameters: Seq::new(
            t.data.parameters@.len(),
            |i: int|
                if 0 <= i < t.data.parameters@.len() {
                    parameter_content(t.data.parameters@[i])
                } else {
                    arbitrary()
                },
        ),
        has_variable_arguments: t.data.has_variable_arguments,
        can_return: t.data.can_return,
        pure: t.data.pure,
        stack_adjustment: t.data.stack_adjustment,
        structure: match t.data.structure {
            Some(s) => Some(structure_content(s)),
            None => None,
        },
        enumeration: match t.data.enumeration {
            Some(e) => Some(e@),
            None => None,
        },
        named_type_reference: match t.data.named_type_reference {
            Some(n) => Some(n@),
            None => None,
        },
        count: t.data.count,
        offset: t.data.offset,
        alt_name: t.data.alt_name@,
        reference_type: t.data.reference_type,
    }
}


fn same_flag(a: &Conf<bool>, b: &Conf<bool>) -> (r: bool)
    ensures
        r == (*a == *b),
{
    a.contents == b.contents && a.confidence == b.confidence
}

/// Two calling conventions are equal when they have the same name.
impl PartialEq for CallingConvention {
    fn eq(&self, other: &Self) -> (r: bool) {
        self.name == other.name
    }
}

impl PartialEqSpecImpl for CallingConvention {
    open spec fn obeys_eq_spec() -> bool {
        true
    }

    open spec fn eq_spec(&self, other: &Self) -> bool {
        self.name@ == other.name@
    }
}

/// Two named references are equal when class, id and name are, wherever they
/// were built.
impl PartialEq for NamedTypeReference {
    fn eq(&self, other: &Self) -> (r: bool) {
        self.data.class == other.data.class && self.data.id == other.data.id && self.data.name
            == other.data.name
    }
}

impl PartialEqSpecImpl for NamedTypeReference {
    open spec fn obeys_eq_spec() -> bool {
        true
    }

    open spec fn eq_spec(&self, other: &Self) -> bool {
        self@ == other@
    }
}

impl FunctionParameter {
    /// Whether the two parameters are made of the same.
    pub fn same_as(&self, other: &FunctionParameter) -> (r: bool)
        ensures
            r == (parameter_content(*self) == parameter_content(*other)),
        decreases *self,
    {
        let names = match (&self.name, &other.name) {
            (Some(a), Some(b)) => *a == *b,
            (None, None) => true,
            _ => false,
        };
        let locations = match (self.location, other.location) {
            (Some(a), Some(b)) => a == b,
            (None, None) => true,
            _ => false,
        };
        names && locations && self.type_confidence == other.type_confidence && self.ty.same_as(
            &other.ty,
        )
    }
}

impl Type {
    /// Whether the two types are made of the same, down to the last type
    /// they reach.
    pub fn same_as(&self, other: &Type) -> (r: bool)
        ensures
            r == (content(*self) == content(*other)),
        decreases *self,
    {
        let a = &self.data;
        let b = &other.data;
        if !(a.class == b.class && a.width == b.width && a.alignment == b.alignment && same_flag(
            &a.signed,
            &b.signed,
        ) && same_flag(&a.is_const, &b.is_const) && same_flag(&a.is_volatile, &b.is_volatile)
            && same_flag(&a.has_variable_arguments, &b.has_variable_arguments) && same_flag(
            &a.can_return,
            &b.can_return,
        ) && same_flag(&a.pure, &b.pure) && a.stack_adjustment.contents
            == b.stack_adjustment.contents && a.stack_adjustment.confidence
            == b.stack_adjustment.confidence && a.count == b.count && a.offset == b.offset
            && a.alt_name == b.alt_name && a.reference_type == b.reference_type) {
            return false;
        }
        let children = match (&a.child, &b.child) {
            (Some(x), Some(y)) => x.confidence == y.confidence && x.contents.same_as(&y.contents),
            (None, None) => true,
            _ => false,
        };
        if !children {
            return false;
        }
        let conventions = match (&a.calling_convention, &b.calling_convention) {
            (Some(x), Some(y)) => x.confidence == y.confidence && x.contents == y.contents,
            (None, None) => true,
            _ => false,
        };
        if !conventions {
            return false;
        }
        let structures = match (&a.structure, &b.structure) {
            (Some(x), Some(y)) => x.same_as(y),
            (None, None) => true,
            _ => false,
        };
        if !structures {
            return false;
        }
        let enumerations = match (&a.enumeration, &b.enumeration) {
            (Some(x), Some(y)) => *x == *y,
            (None, None) => true,
            _ => false,
        };
        if !enumerations {
            return false;
        }
        let references = match (&a.named_type_reference, &b.named_type_reference) {
            (Some(x), Some(y)) => *x == *y,
            (None, None) => true,
            _ => false,
        };
        if !references {
            return false;
        }
        if a.parameters.len() != b.parameters.len() {
            proof {
                assert(content(*self).parameters.len() != content(*other).parameters.len());
            }
            return false;
        }
        let mut i: usize = 0;
        while i < a.parameters.len()
            invariant
                i <= a.parameters.len(),
                a == &self.data,
                b == &other.data,
                a.parameters.len() == b.parameters.len(),
                forall|j: int|
                    0 <= j < i ==> parameter_content(a.parameters@[j]) == parameter_content(
                        b.parameters@[j],
                    ),
            decreases a.parameters.len() - i,
        {
            if !a.parameters[i].same_as(&b.parameters[i]) {
                proof {
                    assert(content(*self).parameters[i as int] != content(*other).parameters[i as int]);
                }
                return false;
            }
            i = i + 1;
        }
        proof {
            assert(content(*self).parameters =~= content(*other).parameters);
        }
        true
    }
}

/// Two types are equal when they are made of the same, down to the last type
/// they reach, wherever they were built.
impl PartialEq for Type {
    fn eq(&self, other: &Self) -> (r: bool) {
        self.same_as(other)
    }
}

impl PartialEqSpecImpl for Type {
    open spec fn obeys_eq_spec() -> bool {
        true
    }

    open spec fn eq_spec(&self, other: &Self) -> bool {
        content(*self) == content(*other)
    }
}

/// Two parameters are equal when they are made of the same.
impl PartialEq for FunctionParameter {
    fn eq(&self, other: &Self) -> (r: bool) {
        self.same_as(other)
    }
}

impl PartialEqSpecImpl for FunctionParameter {
    open spec fn obeys_eq_spec() -> bool {
        true
    }

    open spec fn eq_spec(&self, other: &Self) -> bool {
        parameter_content(*self) == parameter_content(*other)
    }
}


impl Eq for Type {}

impl Eq for NamedTypeReference {}

impl Eq for CallingConvention {}

impl Eq for FunctionParameter {}

/// The content of a parameter is what the parameter holds, with the content
/// of its type in the place of the type.
pub proof fn lemma_parameter_content(p: FunctionParameter)
    ensures
        parameter_content(p) == (ParameterContent {
            name: p@.name,
            ty: content(p@.ty),
            type_confidence: p@.type_confidence,
            location: p@.location,
        }),
{
}

/// The content of a type is what the type holds, with content in the place of
/// each type, structure, enumeration and reference that it holds.
pub proof fn lemma_content(t: Type)
    ensures
        content(t).class == t@.class,
        content(t).width == t@.width,
        content(t).alignment == t@.alignment,
        content(t).signed == t@.signed,
        content(t).is_const == t@.is_const,
        content(t).is_volatile == t@.is_volatile,
        content(t).child == (match t@.child {
            Some(c) => Some(
                Conf { contents: Box::new(content(c.contents)), confidence: c.confidence },
            ),
            None => None,
        }),
        content(t).calling_convention == (match t@.calling_convention {
            Some(c) => Some(Conf { contents: c.contents.name@, confidence: c.confidence }),
            None => None,
        }),
        content(t).parameters.len() == t@.parameters.len(),
        forall|i: int|
            0 <= i < t@.parameters.len() ==> #[trigger] content(t).parameters[i]
                == parameter_content(t@.parameters[i]),
        content(t).has_variable_arguments == t@.has_variable_arguments,
        content(t).can_return == t@.can_return,
        content(t).pure == t@.pure,
        content(t).stack_adjustment == t@.stack_adjustment,
        content(t).structure == (match t@.structure {
            Some(s) => Some(structure_content(s)),
            None => None,
        }),
        content(t).enumeration == (match t@.enumeration {
            Some(e) => Some(e@),
            None => None,
        }),
        content(t).named_type_reference == (match t@.named_type_reference {
            Some(n) => Some(n@),
            None => None,
        }),
        content(t).count == t@.count,
        content(t).offset == t@.offset,
        content(t).alt_name == t@.alt_name,
        content(t).reference_type == t@.reference_type,
{
}

/// Two types that hold the same are made of the same: a snapshot that was
/// reopened and finalized again is equal to the one it came from.
pub proof fn lemma_same_view_same_content(a: Type, b: Type)
    requires
        a@ == b@,
    ensures
        content(a) == content(b),
{
    assert(content(a).parameters =~= content(b).parameters);
}


/// A snapshot that is reopened as a builder and finalized again, with nothing
/// done in between, holds what it held: the class, the width, the members and
/// every other field. The two snapshots are equal.
pub proof fn lemma_round_trip(first: Type, reopened: TypeBuilder, second: Type)
    requires
        reopened@ == first@,
        second@ == reopened@,
    ensures
        second@ == first@,
        second@.class == first@.class,
        second@.width == first@.width,
        second@.child == first@.child,
        second@.parameters == first@.parameters,
        second@.structure == first@.structure,
        second@.enumeration == first@.enumeration,
        second@.named_type_reference == first@.named_type_reference,
        content(second) == content(first),
{
    lemma_same_view_same_content(second, first);
}

} // verus!

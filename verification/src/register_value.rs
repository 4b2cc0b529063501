//! What is known of the value of a register at a point of the program.

use vstd::prelude::*;

verus! {

/// The kind of knowledge held of a register's value.
#[derive(Debug, Copy, Clone, Hash, PartialEq, Eq, Structural)]
pub enum RegisterValueType {
    UndeterminedValue,
    EntryValue,
    ConstantValue,
    ConstantPointerValue,
    ExternalPointerValue,
    StackFrameOffset,
    ReturnAddressValue,
    ImportedAddressValue,
    SignedRangeValue,
    UnsignedRangeValue,
    LookupTableValue,
    InSetOfValues,
    NotInSetOfValues,
    ConstantDataValue,
    ConstantDataZeroExtendValue,
    ConstantDataSignExtendValue,
    ConstantDataAggregateValue,
}

/// The number that stands for a kind on the wire.
pub open spec fn raw_value_of(t: RegisterValueType) -> u32 {
    match t {
        RegisterValueType::UndeterminedValue => 0,
        RegisterValueType::EntryValue => 1,
        RegisterValueType::ConstantValue => 2,
        RegisterValueType::ConstantPointerValue => 3,
        RegisterValueType::ExternalPointerValue => 4,
        RegisterValueType::StackFrameOffset => 5,
        RegisterValueType::ReturnAddressValue => 6,
        RegisterValueType::ImportedAddressValue => 7,
        RegisterValueType::SignedRangeValue => 8,
        RegisterValueType::UnsignedRangeValue => 9,
        RegisterValueType::LookupTableValue => 10,
        RegisterValueType::InSetOfValues => 11,
        RegisterValueType::NotInSetOfValues => 12,
        RegisterValueType::ConstantDataValue => 0x8000,
        RegisterValueType::ConstantDataZeroExtendValue => 0x8001,
        RegisterValueType::ConstantDataSignExtendValue => 0x8002,
        RegisterValueType::ConstantDataAggregateValue => 0x8003,
    }
}

/// The kind that a number stands for, if it stands for one.
pub open spec fn kind_of_raw_value(value: u32) -> Option<RegisterValueType> {
    if exists|t: RegisterValueType| raw_value_of(t) == value {
        Some(choose|t: RegisterValueType| raw_value_of(t) == value)
    } else {
        None
    }
}

impl RegisterValueType {
    pub fn from_raw_value(value: u32) -> (r: Option<Self>)
        ensures
            r == kind_of_raw_value(value),
            r matches Some(t) ==> raw_value_of(t) == value,
            r is None ==> forall|t: RegisterValueType| raw_value_of(t) != value,
    {
        let r = Self::from_known_raw_value(value);
        proof {
            lemma_no_two_kinds_share_a_number();
            if let Some(t) = r {
                assert(raw_value_of(t) == value);
            }
        }
        r
    }

    fn from_known_raw_value(value: u32) -> (r: Option<Self>)
        ensures
            r matches Some(t) ==> raw_value_of(t) == value,
            r is None ==> forall|t: RegisterValueType| raw_value_of(t) != value,
    {
        if value == 0 {
            Some(Self::UndeterminedValue)
        } else if value == 1 {
            Some(Self::EntryValue)
        } else if value == 2 {
            Some(Self::ConstantValue)
        } else if value == 3 {
            Some(Self::ConstantPointerValue)
        } else if value == 4 {
            Some(Self::ExternalPointerValue)
        } else if value == 5 {
            Some(Self::StackFrameOffset)
        } else if value == 6 {
            Some(Self::ReturnAddressValue)
        } else if value == 7 {
            Some(Self::ImportedAddressValue)
        } else if value == 8 {
            Some(Self::SignedRangeValue)
        } else if value == 9 {
            Some(Self::UnsignedRangeValue)
        } else if value == 10 {
            Some(Self::LookupTableValue)
        } else if value == 11 {
            Some(Self::InSetOfValues)
        } else if value == 12 {
            Some(Self::NotInSetOfValues)
        } else if value == 0x8000 {
            Some(Self::ConstantDataValue)
        } else if value == 0x8001 {
            Some(Self::ConstantDataZeroExtendValue)
        } else if value == 0x8002 {
            Some(Self::ConstantDataSignExtendValue)
        } else if value == 0x8003 {
            Some(Self::ConstantDataAggregateValue)
        } else {
            None
        }
    }

    pub fn into_raw_value(self) -> (r: u32)
        ensures
            r == raw_value_of(self),
    {
        match self {
            Self::UndeterminedValue => 0,
            Self::EntryValue => 1,
            Self::ConstantValue => 2,
            Self::ConstantPointerValue => 3,
            Self::ExternalPointerValue => 4,
            Self::StackFrameOffset => 5,
            Self::ReturnAddressValue => 6,
            Self::ImportedAddressValue => 7,
            Self::SignedRangeValue => 8,
            Self::UnsignedRangeValue => 9,
            Self::LookupTableValue => 10,
            Self::InSetOfValues => 11,
            Self::NotInSetOfValues => 12,
            Self::ConstantDataValue => 0x8000,
            Self::ConstantDataZeroExtendValue => 0x8001,
            Self::ConstantDataSignExtendValue => 0x8002,
            Self::ConstantDataAggregateValue => 0x8003,
        }
    }
}

/// A register value as it travels: the kind as a number.
#[derive(Debug, Copy, Clone, PartialEq, Eq, Hash, Structural)]
pub struct RawRegisterValue {
    pub state: u32,
    pub value: i64,
    pub offset: i64,
    pub size: usize,
}

/// What is known of a register's value.
#[derive(Debug, Copy, Clone, PartialEq, Eq, Hash, Structural)]
pub struct RegisterValue {
    pub state: RegisterValueType,
    pub value: i64,
    pub offset: i64,
    pub size: usize,
}

impl RegisterValue {
    pub fn new(state: RegisterValueType, value: i64, offset: i64, size: usize) -> (r: Self)
        ensures
            r == (RegisterValue { state, value, offset, size }),
    {
        Self { state, value, offset, size }
    }

    /// The value that `raw` stands for. Its state must stand for a kind.
    pub fn from_raw(raw: RawRegisterValue) -> (r: Self)
        requires
            kind_of_raw_value(raw.state) is Some,
        ensures
            r == (RegisterValue {
                state: kind_of_raw_value(raw.state).unwrap(),
                value: raw.value,
                offset: raw.offset,
                size: raw.size,
            }),
    {
        let state = match RegisterValueType::from_raw_value(raw.state) {
            Some(s) => s,
            None => RegisterValueType::UndeterminedValue,
        };
        Self { state, value: raw.value, offset: raw.offset, size: raw.size }
    }

    /// The value that `raw` stands for, or nothing where its state stands for
    /// no kind.
    pub fn try_from_raw(raw: RawRegisterValue) -> (r: Option<Self>)
        ensures
            r == (match kind_of_raw_value(raw.state) {
                Some(state) => Some(
                    RegisterValue { state, value: raw.value, offset: raw.offset, size: raw.size },
                ),
                None => None,
            }),
    {
        match RegisterValueType::from_raw_value(raw.state) {
            Some(_) => Some(Self::from_raw(raw)),
            None => None,
        }
    }

    pub fn into_raw(self) -> (r: RawRegisterValue)
        ensures
            r == (RawRegisterValue {
                state: raw_value_of(self.state),
                value: self.value,
                offset: self.offset,
                size: self.size,
            }),
    {
        RawRegisterValue {
            state: self.state.into_raw_value(),
            value: self.value,
            offset: self.offset,
            size: self.size,
        }
    }
}

/// No two kinds have the same number.
pub proof fn lemma_no_two_kinds_share_a_number()
    ensures
        forall|a: RegisterValueType, b: RegisterValueType|
            raw_value_of(a) == raw_value_of(b) ==> a == b,
{
}

/// Each kind has a number of its own: the number of a kind stands for that
/// kind, and a number that stands for a kind is that kind's number.
pub proof fn lemma_raw_value_round_trip(t: RegisterValueType, value: u32)
    ensures
        kind_of_raw_value(raw_value_of(t)) == Some(t),
        kind_of_raw_value(value) matches Some(k) ==> raw_value_of(k) == value,
{
    lemma_no_two_kinds_share_a_number();
}

} // verus!

//! Enumerations: an ordered list of named values, built through a mutable
//! builder and frozen into a shared snapshot.

use vstd::prelude::*;
use vstd::string::StringExecFns;
use vstd::std_specs::cmp::PartialEqSpecImpl;
use vstd::std_specs::convert::FromSpecImpl;
use std::sync::Arc;
use crate::rc::share;

verus! {

/// One member of an enumeration.
#[derive(Debug, Hash)]
pub struct EnumerationMember {
    name: String,
    value: u64,
    is_default: bool,
}

/// What a member holds. `is_default` says that the value was not given but
/// counted on from the member before.
pub struct EnumerationMemberView {
    pub name: Seq<char>,
    pub value: u64,
    pub is_default: bool,
}

impl View for EnumerationMember {
    type V = EnumerationMemberView;

    closed spec fn view(&self) -> EnumerationMemberView {
        EnumerationMemberView { name: self.name@, value: self.value, is_default: self.is_default }
    }
}

/// What each member of `v` holds, in order.
pub open spec fn member_views(v: Seq<EnumerationMember>) -> Seq<EnumerationMemberView> {
    Seq::new(v.len(), |i: int| v[i]@)
}

/// The value that a member gets when none is given: zero for the first member,
/// else one more than the last member's value, wrapping round at the top.
pub open spec fn next_default_value(members: Seq<EnumerationMemberView>) -> u64 {
    if members.len() == 0 {
        0
    } else if members.last().value == u64::MAX {
        0
    } else {
        (members.last().value + 1) as u64
    }
}

impl EnumerationMember {
    pub fn new(name: &str, value: u64, is_default: bool) -> (r: Self)
        ensures
            r@ == (EnumerationMemberView { name: name@, value, is_default }),
    {
        Self { name: String::from_str(name), value, is_default }
    }

    pub fn name(&self) -> (r: &str)
        ensures
            r@ == self@.name,
    {
        self.name.as_str()
    }

    pub fn value(&self) -> (r: u64)
        ensures
            r == self@.value,
    {
        self.value
    }

    pub fn is_default(&self) -> (r: bool)
        ensures
            r == self@.is_default,
    {
        self.is_default
    }
}

impl Clone for EnumerationMember {
    fn clone(&self) -> (r: Self)
        ensures
            r == *self,
    {
        Self { name: self.name.clone(), value: self.value, is_default: self.is_default }
    }
}

/// The mutable stage of an enumeration.
#[derive(Debug)]
pub struct EnumerationBuilder {
    members: Vec<EnumerationMember>,
}

impl View for EnumerationBuilder {
    type V = Seq<EnumerationMemberView>;

    closed spec fn view(&self) -> Seq<EnumerationMemberView> {
        member_views(self.members@)
    }
}

impl EnumerationBuilder {
    pub fn new() -> (r: Self)
        ensures
            r@ == Seq::<EnumerationMemberView>::empty(),
    {
        let r = Self { members: Vec::new() };
        proof {
            assert(r@ =~= Seq::<EnumerationMemberView>::empty());
        }
        r
    }

    /// A snapshot of the members as they are now. What is done to the builder
    /// afterwards does not reach it.
    pub fn finalize(&self) -> (r: Enumeration)
        ensures
            r@ == self@,
    {
        let members = self.members.clone();
        proof {
            assert(members@ =~= self.members@);
        }
        Enumeration { members: Arc::new(members) }
    }

    /// Add a member at the end, with the value that follows the last one.
    pub fn append(&mut self, name: &str) -> (r: &mut Self)
        ensures
            r@ == old(self)@.push(
                EnumerationMemberView {
                    name: name@,
                    value: next_default_value(old(self)@),
                    is_default: true,
                },
            ),
            *final(self) == *final(r),
    {
        let n = self.members.len();
        let value: u64 = if n == 0 {
            0
        } else {
            self.members[n - 1].value.wrapping_add(1)
        };
        proof {
            if n > 0 {
                assert(self@.last() == self.members@[n - 1]@);
            }
        }
        self.members.push(EnumerationMember::new(name, value, true));
        proof {
            assert(self@ =~= old(self)@.push(
                EnumerationMemberView {
                    name: name@,
                    value: next_default_value(old(self)@),
                    is_default: true,
                },
            ));
        }
        self
    }

    /// Add a member with a given value at the end.
    pub fn insert(&mut self, name: &str, value: u64) -> (r: &mut Self)
        ensures
            r@ == old(self)@.push(EnumerationMemberView { name: name@, value, is_default: false }),
            *final(self) == *final(r),
    {
        self.members.push(EnumerationMember::new(name, value, false));
        proof {
            assert(self@ =~= old(self)@.push(
                EnumerationMemberView { name: name@, value, is_default: false },
            ));
        }
        self
    }

    /// Put a new name and value in the place of member `id`. Where there is
    /// no such member nothing changes.
    pub fn replace(&mut self, id: usize, name: &str, value: u64) -> (r: &mut Self)
        ensures
            id < old(self)@.len() ==> r@ == old(self)@.update(
                id as int,
                EnumerationMemberView { name: name@, value, is_default: false },
            ),
            id >= old(self)@.len() ==> r@ == old(self)@,
            *final(self) == *final(r),
    {
        if id < self.members.len() {
            self.members[id] = EnumerationMember::new(name, value, false);
            proof {
                assert(self@ =~= old(self)@.update(
                    id as int,
                    EnumerationMemberView { name: name@, value, is_default: false },
                ));
            }
        }
        self
    }

    /// Take member `id` out; those behind it move up. Where there is no such
    /// member nothing changes.
    pub fn remove(&mut self, id: usize) -> (r: &mut Self)
        ensures
            id < old(self)@.len() ==> r@ == old(self)@.remove(id as int),
            id >= old(self)@.len() ==> r@ == old(self)@,
            *final(self) == *final(r),
    {
        if id < self.members.len() {
            self.members.remove(id);
            proof {
                assert(self@ =~= old(self)@.remove(id as int));
            }
        }
        self
    }

    /// A copy of the members, in order.
    pub fn members(&self) -> (r: Vec<EnumerationMember>)
        ensures
            member_views(r@) == self@,
    {
        let r = self.members.clone();
        proof {
            assert(r@ =~= self.members@);
        }
        r
    }
}

impl Default for EnumerationBuilder {
    fn default() -> (r: Self)
        ensures
            r@ == Seq::<EnumerationMemberView>::empty(),
    {
        Self::new()
    }
}

/// A builder that starts from the members of a snapshot. The snapshot stays
/// as it is.
impl From<&Enumeration> for EnumerationBuilder {
    fn from(enumeration: &Enumeration) -> (r: Self)
        ensures
            r@ == enumeration@,
    {
        Self { members: enumeration.members() }
    }
}

impl FromSpecImpl<&Enumeration> for EnumerationBuilder {
    open spec fn obeys_from_spec() -> bool {
        false
    }

    open spec fn from_spec(enumeration: &Enumeration) -> Self {
        arbitrary()
    }
}

/// An enumeration as it was when its builder was finalized: immutable, and
/// shared by all its clones.
#[derive(Debug, Hash)]
pub struct Enumeration {
    members: Arc<Vec<EnumerationMember>>,
}

impl View for Enumeration {
    type V = Seq<EnumerationMemberView>;

    closed spec fn view(&self) -> Seq<EnumerationMemberView> {
        member_views(self.members@)
    }
}

impl Enumeration {
    pub fn builder() -> (r: EnumerationBuilder)
        ensures
            r@ == Seq::<EnumerationMemberView>::empty(),
    {
        EnumerationBuilder::new()
    }

    /// A copy of the members, in order.
    pub fn members(&self) -> (r: Vec<EnumerationMember>)
        ensures
            member_views(r@) == self@,
    {
        let r = (*self.members).clone();
        proof {
            assert(r@ =~= self.members@);
        }
        r
    }
}

impl Clone for Enumeration {
    fn clone(&self) -> (r: Self)
        ensures
            r == *self,
    {
        Self { members: share(&self.members) }
    }
}


/// Two members are equal when they hold the same.
impl PartialEq for EnumerationMember {
    fn eq(&self, other: &Self) -> (r: bool) {
        self.name == other.name && self.value == other.value && self.is_default
            == other.is_default
    }
}

impl PartialEqSpecImpl for EnumerationMember {
    open spec fn obeys_eq_spec() -> bool {
        true
    }

    open spec fn eq_spec(&self, other: &Self) -> bool {
        self@ == other@
    }
}

/// Two enumerations are equal when they hold the same members in the same
/// order, wherever they were built.
impl PartialEq for Enumeration {
    fn eq(&self, other: &Self) -> (r: bool) {
        if self.members.len() != other.members.len() {
            proof {
                assert(self@.len() != other@.len());
            }
            return false;
        }
        let mut i: usize = 0;
        while i < self.members.len()
            invariant
                i <= self.members.len(),
                self.members.len() == other.members.len(),
                forall|j: int| 0 <= j < i ==> self.members@[j]@ == other.members@[j]@,
            decreases self.members.len() - i,
        {
            if self.members[i] != other.members[i] {
                proof {
                    assert(self@[i as int] != other@[i as int]);
                }
                return false;
            }
            i = i + 1;
        }
        proof {
            assert(self@ =~= other@);
        }
        true
    }
}

impl PartialEqSpecImpl for Enumeration {
    open spec fn obeys_eq_spec() -> bool {
        true
    }

    open spec fn eq_spec(&self, other: &Self) -> bool {
        self@ == other@
    }
}


impl Eq for Enumeration {}

impl Eq for EnumerationMember {}

} // verus!

//! Structures: an ordered member list with layout metadata, built through a
//! mutable builder and frozen into a shared snapshot.

use vstd::prelude::*;
use vstd::string::StringExecFns;
use std::sync::Arc;
use crate::confidence::Conf;
use crate::kinds::{MemberAccess, MemberScope, StructureType};
use vstd::std_specs::cmp::PartialEqSpecImpl;
use vstd::std_specs::convert::FromSpecImpl;
use crate::rc::{share, Array};
use crate::types::{content, NamedTypeReference, NamedTypeReferenceView, Type, TypeContent};

verus! {

/// One member of a structure.
#[derive(Debug, Hash)]
pub struct StructureMember {
    ty: Type,
    name: String,
    offset: u64,
    type_confidence: u8,
    access: MemberAccess,
    scope: MemberScope,
}

/// What a member holds.
pub struct StructureMemberView {
    pub ty: Type,
    pub type_confidence: u8,
    pub name: Seq<char>,
    pub offset: u64,
    pub access: MemberAccess,
    pub scope: MemberScope,
}

impl View for StructureMember {
    type V = StructureMemberView;

    closed spec fn view(&self) -> StructureMemberView {
        StructureMemberView {
            ty: self.ty,
            type_confidence: self.type_confidence,
            name: self.name@,
            offset: self.offset,
            access: self.access,
            scope: self.scope,
        }
    }
}

impl Clone for StructureMember {
    fn clone(&self) -> (r: Self)
        ensures
            r == *self,
    {
        Self {
            ty: self.ty.clone(),
            name: self.name.clone(),
            offset: self.offset,
            type_confidence: self.type_confidence,
            access: self.access,
            scope: self.scope,
        }
    }
}

impl StructureMember {
    pub fn new(
        ty: Conf<Type>,
        name: &str,
        offset: u64,
        access: MemberAccess,
        scope: MemberScope,
    ) -> (r: Self)
        ensures
            r@ == (StructureMemberView {
                ty: ty.contents,
                type_confidence: ty.confidence,
                name: name@,
                offset,
                access,
                scope,
            }),
    {
        Self {
            ty: ty.contents,
            type_confidence: ty.confidence,
            name: String::from_str(name),
            offset,
            access,
            scope,
        }
    }

    pub fn ty(&self) -> (r: Conf<&Type>)
        ensures
            *r.contents == self@.ty,
            r.confidence == self@.type_confidence,
    {
        Conf::new(&self.ty, self.type_confidence)
    }

    pub fn set_type(&mut self, ty: Type)
        ensures
            final(self)@ == (StructureMemberView { ty, ..old(self)@ }),
    {
        self.ty = ty;
    }

    pub fn name(&self) -> (r: &str)
        ensures
            r@ == self@.name,
    {
        self.name.as_str()
    }

    pub fn offset(&self) -> (r: u64)
        ensures
            r == self@.offset,
    {
        self.offset
    }

    pub fn access(&self) -> (r: MemberAccess)
        ensures
            r == self@.access,
    {
        self.access
    }

    pub fn scope(&self) -> (r: MemberScope)
        ensures
            r == self@.scope,
    {
        self.scope
    }
}

/// A member that a structure has from one of its bases.
#[derive(Debug)]
pub struct InheritedStructureMember {
    pub base: NamedTypeReference,
    pub base_offset: u64,
    pub member: StructureMember,
    pub member_index: usize,
}

impl InheritedStructureMember {
    pub fn new(
        base: NamedTypeReference,
        base_offset: u64,
        member: StructureMember,
        member_index: usize,
    ) -> (r: Self)
        ensures
            r == (InheritedStructureMember { base, base_offset, member, member_index }),
    {
        Self { base, base_offset, member, member_index }
    }
}

impl Clone for InheritedStructureMember {
    fn clone(&self) -> (r: Self)
        ensures
            r == *self,
    {
        Self {
            base: self.base.clone(),
            base_offset: self.base_offset,
            member: self.member.clone(),
            member_index: self.member_index,
        }
    }
}

/// A structure that another one inherits from: which one, where its part
/// begins, and how wide that part is.
#[derive(Debug, Hash)]
pub struct BaseStructure {
    pub ty: NamedTypeReference,
    pub offset: u64,
    pub width: u64,
}

impl BaseStructure {
    pub fn new(ty: NamedTypeReference, offset: u64, width: u64) -> (r: Self)
        ensures
            r == (BaseStructure { ty, offset, width }),
    {
        Self { ty, offset, width }
    }
}

impl Clone for BaseStructure {
    fn clone(&self) -> (r: Self)
        ensures
            r == *self,
    {
        Self { ty: self.ty.clone(), offset: self.offset, width: self.width }
    }
}

/// The state that a structure builder and its snapshots hold.
#[derive(Debug, Hash)]
pub struct StructureData {
    members: Vec<StructureMember>,
    width: u64,
    alignment: usize,
    packed: bool,
    structure_type: StructureType,
    pointer_offset: i64,
    propagates_data_var_refs: bool,
    base_structures: Vec<BaseStructure>,
}

/// A structure as it was when its builder was finalized: immutable, and shared
/// by all its clones.
#[derive(Debug, Hash)]
pub struct Structure {
    data: Arc<StructureData>,
}

impl Clone for Structure {
    fn clone(&self) -> (r: Self)
        ensures
            r == *self,
    {
        Self { data: share(&self.data) }
    }
}


/// What a structure holds.
pub struct StructView {
    pub members: Seq<StructureMemberView>,
    pub width: u64,
    pub alignment: usize,
    pub packed: bool,
    pub structure_type: StructureType,
    pub pointer_offset: i64,
    pub propagates_data_var_refs: bool,
    pub base_structures: Seq<BaseStructure>,
}

/// What each member of `v` holds, in order.
pub open spec fn member_views(v: Seq<StructureMember>) -> Seq<StructureMemberView> {
    Seq::new(v.len(), |i: int| v[i]@)
}

impl View for StructureData {
    type V = StructView;

    closed spec fn view(&self) -> StructView {
        StructView {
            members: member_views(self.members@),
            width: self.width,
            alignment: self.alignment,
            packed: self.packed,
            structure_type: self.structure_type,
            pointer_offset: self.pointer_offset,
            propagates_data_var_refs: self.propagates_data_var_refs,
            base_structures: self.base_structures@,
        }
    }
}

impl View for Structure {
    type V = StructView;

    closed spec fn view(&self) -> StructView {
        self.data@
    }
}

/// A structure with nothing in it: a struct of no width, aligned to one byte.
pub open spec fn empty_structure() -> StructView {
    StructView {
        members: Seq::empty(),
        width: 0,
        alignment: 1,
        packed: false,
        structure_type: StructureType::StructStructureType,
        pointer_offset: 0,
        propagates_data_var_refs: false,
        base_structures: Seq::empty(),
    }
}

/// The index of the first member from `start` on that lies at `offset`.
pub open spec fn first_at_offset_from(
    members: Seq<StructureMemberView>,
    offset: u64,
    start: int,
) -> Option<int>
    decreases members.len() - start,
{
    if start < 0 || start >= members.len() {
        None
    } else if members[start].offset == offset {
        Some(start)
    } else {
        first_at_offset_from(members, offset, start + 1)
    }
}

/// The index of the first member that lies at `offset`.
pub open spec fn first_at_offset(members: Seq<StructureMemberView>, offset: u64) -> Option<int> {
    first_at_offset_from(members, offset, 0)
}

/// The index of the first member from `start` on that is called `name`.
pub open spec fn first_named_from(
    members: Seq<StructureMemberView>,
    name: Seq<char>,
    start: int,
) -> Option<int>
    decreases members.len() - start,
{
    if start < 0 || start >= members.len() {
        None
    } else if members[start].name == name {
        Some(start)
    } else {
        first_named_from(members, name, start + 1)
    }
}

/// The index of the first member that is called `name`.
pub open spec fn first_named(members: Seq<StructureMemberView>, name: Seq<char>) -> Option<int> {
    first_named_from(members, name, 0)
}

/// Where a member that begins at `offset` and is `width` bytes wide ends, held
/// at the largest offset where it would not fit.
pub open spec fn end_of(offset: u64, width: u64) -> u64 {
    if offset + width > u64::MAX {
        u64::MAX
    } else {
        (offset + width) as u64
    }
}

/// The width of a structure that was `width` bytes wide and now holds `m`: it
/// grows to the end of `m` and never shrinks.
pub open spec fn width_with(width: u64, m: StructureMemberView) -> u64 {
    if end_of(m.offset, m.ty@.width) > width {
        end_of(m.offset, m.ty@.width)
    } else {
        width
    }
}

/// The structure after a member of type `ty` is added behind all it holds:
/// the member begins where the structure ended.
pub open spec fn appended(
    s: StructView,
    ty: Conf<Type>,
    name: Seq<char>,
    access: MemberAccess,
    scope: MemberScope,
) -> StructView {
    let m = StructureMemberView {
        ty: ty.contents,
        type_confidence: ty.confidence,
        name,
        offset: s.width,
        access,
        scope,
    };
    StructView { members: s.members.push(m), width: width_with(s.width, m), ..s }
}

/// The structure after `m` is put at its offset. Where no member lies there,
/// `m` joins the list at its end. Where one does, `m` takes the place of the
/// first such member if `overwrite_existing` is set, and else nothing changes.
pub open spec fn inserted(
    s: StructView,
    m: StructureMemberView,
    overwrite_existing: bool,
) -> StructView {
    match first_at_offset(s.members, m.offset) {
        Some(i) => if overwrite_existing {
            StructView { members: s.members.update(i, m), width: width_with(s.width, m), ..s }
        } else {
            s
        },
        None => StructView { members: s.members.push(m), width: width_with(s.width, m), ..s },
    }
}

/// The structure after each of the first `n` of `members` was inserted in
/// turn, none of them overwriting.
pub open spec fn inserted_all(s: StructView, members: Seq<StructureMemberView>, n: int) -> StructView
    decreases n,
{
    if n <= 0 {
        s
    } else {
        inserted(inserted_all(s, members, n - 1), members[n - 1], false)
    }
}

/// The structure after each of the first `n` of `members` was appended in
/// turn, with its type, name, access and scope; its offset is not kept.
pub open spec fn appended_all(s: StructView, members: Seq<StructureMemberView>, n: int) -> StructView
    decreases n,
{
    if n <= 0 {
        s
    } else {
        let m = members[n - 1];
        appended(
            appended_all(s, members, n - 1),
            Conf { contents: m.ty, confidence: m.type_confidence },
            m.name,
            m.access,
            m.scope,
        )
    }
}

/// The structure after member `index` got a new type and name. Its offset,
/// access and scope stay. Where there is no such member nothing changes.
pub open spec fn replaced(s: StructView, index: int, ty: Conf<Type>, name: Seq<char>) -> StructView {
    if 0 <= index < s.members.len() {
        let m = StructureMemberView {
            ty: ty.contents,
            type_confidence: ty.confidence,
            name,
            ..s.members[index]
        };
        StructView { members: s.members.update(index, m), width: width_with(s.width, m), ..s }
    } else {
        s
    }
}

fn end_offset(offset: u64, width: u64) -> (r: u64)
    ensures
        r == end_of(offset, width),
{
    offset.saturating_add(width)
}

/// The mutable stage of a structure. Offsets of members need not rise, and
/// members may overlap.
#[derive(Debug)]
pub struct StructureBuilder {
    data: StructureData,
}

impl View for StructureBuilder {
    type V = StructView;

    closed spec fn view(&self) -> StructView {
        self.data@
    }
}

impl StructureData {
    fn duplicate(&self) -> (r: Self)
        ensures
            r@ == self@,
    {
        let members = self.members.clone();
        let base_structures = self.base_structures.clone();
        proof {
            assert(members@ =~= self.members@);
            assert(base_structures@ =~= self.base_structures@);
        }
        Self {
            members,
            width: self.width,
            alignment: self.alignment,
            packed: self.packed,
            structure_type: self.structure_type,
            pointer_offset: self.pointer_offset,
            propagates_data_var_refs: self.propagates_data_var_refs,
            base_structures,
        }
    }

    fn grow_to_hold(&mut self, offset: u64, width: u64)
        ensures
            final(self).members == old(self).members,
            final(self).alignment == old(self).alignment,
            final(self).packed == old(self).packed,
            final(self).structure_type == old(self).structure_type,
            final(self).pointer_offset == old(self).pointer_offset,
            final(self).propagates_data_var_refs == old(self).propagates_data_var_refs,
            final(self).base_structures == old(self).base_structures,
            final(self).width == (if end_of(offset, width) > old(self).width {
                end_of(offset, width)
            } else {
                old(self).width
            }),
    {
        let end = end_offset(offset, width);
        if end > self.width {
            self.width = end;
        }
    }

    fn index_by_offset(&self, offset: u64) -> (r: Option<usize>)
        ensures
            match r {
                Some(i) => i < self@.members.len() && first_at_offset(self@.members, offset) == Some(
                    i as int,
                ),
                None => first_at_offset(self@.members, offset) is None,
            },
    {
        let mut i: usize = 0;
        while i < self.members.len()
            invariant
                i <= self.members.len(),
                first_at_offset(self@.members, offset) == first_at_offset_from(
                    self@.members,
                    offset,
                    i as int,
                ),
            decreases self.members.len() - i,
        {
            proof {
                assert(self@.members[i as int] == self.members@[i as int]@);
            }
            if self.members[i].offset == offset {
                return Some(i);
            }
            i = i + 1;
        }
        None
    }

    fn index_by_name(&self, name: &str) -> (r: Option<usize>)
        ensures
            match r {
                Some(i) => i < self@.members.len() && first_named(self@.members, name@) == Some(
                    i as int,
                ),
                None => first_named(self@.members, name@) is None,
            },
    {
        let key = String::from_str(name);
        let mut i: usize = 0;
        while i < self.members.len()
            invariant
                i <= self.members.len(),
                key@ == name@,
                first_named(self@.members, name@) == first_named_from(self@.members, name@, i as int),
            decreases self.members.len() - i,
        {
            proof {
                assert(self@.members[i as int] == self.members@[i as int]@);
            }
            if self.members[i].name == key {
                return Some(i);
            }
            i = i + 1;
        }
        None
    }

    fn append(&mut self, t: Conf<&Type>, name: &str, access: MemberAccess, scope: MemberScope)
        ensures
            final(self)@ == appended(old(self)@, crate::types::owned(t), name@, access, scope),
    {
        let width = t.contents.width();
        let offset = self.width;
        let m = StructureMember::new(
            Conf::new(t.contents.clone(), t.confidence),
            name,
            offset,
            access,
            scope,
        );
        self.members.push(m);
        self.grow_to_hold(offset, width);
        proof {
            assert(self@.members =~= appended(
                old(self)@,
                crate::types::owned(t),
                name@,
                access,
                scope,
            ).members);
        }
    }

    fn insert(
        &mut self,
        t: Conf<&Type>,
        name: &str,
        offset: u64,
        overwrite_existing: bool,
        access: MemberAccess,
        scope: MemberScope,
    )
        ensures
            final(self)@ == inserted(
                old(self)@,
                StructureMemberView {
                    ty: *t.contents,
                    type_confidence: t.confidence,
                    name: name@,
                    offset,
                    access,
                    scope,
                },
                overwrite_existing,
            ),
    {
        let ghost mv = StructureMemberView {
            ty: *t.contents,
            type_confidence: t.confidence,
            name: name@,
            offset,
            access,
            scope,
        };
        let width = t.contents.width();
        match self.index_by_offset(offset) {
            Some(i) => {
                if overwrite_existing {
                    let m = StructureMember::new(
                        Conf::new(t.contents.clone(), t.confidence),
                        name,
                        offset,
                        access,
                        scope,
                    );
                    self.members[i] = m;
                    self.grow_to_hold(offset, width);
                    proof {
                        assert(self@.members =~= old(self)@.members.update(i as int, mv));
                    }
                }
            },
            None => {
                let m = StructureMember::new(
                    Conf::new(t.contents.clone(), t.confidence),
                    name,
                    offset,
                    access,
                    scope,
                );
                self.members.push(m);
                self.grow_to_hold(offset, width);
                proof {
                    assert(self@.members =~= old(self)@.members.push(mv));
                }
            },
        }
    }
}

impl StructureBuilder {
    pub fn new() -> (r: Self)
        ensures
            r@ == empty_structure(),
    {
        let r = Self {
            data: StructureData {
                members: Vec::new(),
                width: 0,
                alignment: 1,
                packed: false,
                structure_type: StructureType::StructStructureType,
                pointer_offset: 0,
                propagates_data_var_refs: false,
                base_structures: Vec::new(),
            },
        };
        proof {
            assert(r@.members =~= Seq::<StructureMemberView>::empty());
            assert(r@.base_structures =~= Seq::<BaseStructure>::empty());
        }
        r
    }

    /// A snapshot of the builder as it is now. What is done to the builder
    /// afterwards does not reach it.
    pub fn finalize(&self) -> (r: Structure)
        ensures
            r@ == self@,
    {
        Structure { data: Arc::new(self.data.duplicate()) }
    }

    pub fn set_width(&mut self, width: u64) -> (r: &mut Self)
        ensures
            r@ == (StructView { width, ..old(self)@ }),
            *final(self) == *final(r),
    {
        self.data.width = width;
        self
    }

    pub fn set_alignment(&mut self, alignment: usize) -> (r: &mut Self)
        ensures
            r@ == (StructView { alignment, ..old(self)@ }),
            *final(self) == *final(r),
    {
        self.data.alignment = alignment;
        self
    }

    pub fn set_packed(&mut self, packed: bool) -> (r: &mut Self)
        ensures
            r@ == (StructView { packed, ..old(self)@ }),
            *final(self) == *final(r),
    {
        self.data.packed = packed;
        self
    }

    pub fn set_structure_type(&mut self, t: StructureType) -> (r: &mut Self)
        ensures
            r@ == (StructView { structure_type: t, ..old(self)@ }),
            *final(self) == *final(r),
    {
        self.data.structure_type = t;
        self
    }

    pub fn set_pointer_offset(&mut self, offset: i64) -> (r: &mut Self)
        ensures
            r@ == (StructView { pointer_offset: offset, ..old(self)@ }),
            *final(self) == *final(r),
    {
        self.data.pointer_offset = offset;
        self
    }

    pub fn set_propagates_data_var_refs(&mut self, does: bool) -> (r: &mut Self)
        ensures
            r@ == (StructView { propagates_data_var_refs: does, ..old(self)@ }),
            *final(self) == *final(r),
    {
        self.data.propagates_data_var_refs = does;
        self
    }

    /// Set the whole list of bases at once; the list held before is gone.
    pub fn set_base_structures(&mut self, bases: Vec<BaseStructure>) -> (r: &mut Self)
        ensures
            r@ == (StructView { base_structures: bases@, ..old(self)@ }),
            *final(self) == *final(r),
    {
        self.data.base_structures = bases;
        self
    }

    /// Add a member behind all that the structure holds.
    pub fn append(
        &mut self,
        t: Conf<&Type>,
        name: &str,
        access: MemberAccess,
        scope: MemberScope,
    ) -> (r: &mut Self)
        ensures
            r@ == appended(old(self)@, crate::types::owned(t), name@, access, scope),
            *final(self) == *final(r),
    {
        self.data.append(t, name, access, scope);
        self
    }

    /// Put a copy of `member` at its offset.
    pub fn insert_member(
        &mut self,
        member: &StructureMember,
        overwrite_existing: bool,
    ) -> (r: &mut Self)
        ensures
            r@ == inserted(old(self)@, member@, overwrite_existing),
            *final(self) == *final(r),
    {
        self.data.insert(
            member.ty(),
            member.name(),
            member.offset(),
            overwrite_existing,
            member.access(),
            member.scope(),
        );
        self
    }

    /// Put a member at `offset`. A member that already lies there is only
    /// replaced where `overwrite_existing` is set; else nothing changes.
    pub fn insert(
        &mut self,
        t: Conf<&Type>,
        name: &str,
        offset: u64,
        overwrite_existing: bool,
        access: MemberAccess,
        scope: MemberScope,
    ) -> (r: &mut Self)
        ensures
            r@ == inserted(
                old(self)@,
                StructureMemberView {
                    ty: *t.contents,
                    type_confidence: t.confidence,
                    name: name@,
                    offset,
                    access,
                    scope,
                },
                overwrite_existing,
            ),
            *final(self) == *final(r),
    {
        self.data.insert(t, name, offset, overwrite_existing, access, scope);
        self
    }

    pub fn width(&self) -> (r: u64)
        ensures
            r == self@.width,
    {
        self.data.width
    }

    pub fn alignment(&self) -> (r: usize)
        ensures
            r == self@.alignment,
    {
        self.data.alignment
    }

    pub fn packed(&self) -> (r: bool)
        ensures
            r == self@.packed,
    {
        self.data.packed
    }

    pub fn structure_type(&self) -> (r: StructureType)
        ensures
            r == self@.structure_type,
    {
        self.data.structure_type
    }

    pub fn pointer_offset(&self) -> (r: i64)
        ensures
            r == self@.pointer_offset,
    {
        self.data.pointer_offset
    }

    pub fn propagates_data_var_refs(&self) -> (r: bool)
        ensures
            r == self@.propagates_data_var_refs,
    {
        self.data.propagates_data_var_refs
    }

    /// A copy of the bases, in order.
    pub fn base_structures(&self) -> (r: Result<Vec<BaseStructure>, ()>)
        ensures
            r is Ok,
            r.unwrap()@ == self@.base_structures,
    {
        let v = self.data.base_structures.clone();
        proof {
            assert(v@ =~= self.data.base_structures@);
        }
        Ok(v)
    }

    /// A copy of the members, in order, as an array of its own.
    pub fn members(&self) -> (r: Array<StructureMember>)
        ensures
            member_views(r@) == self@.members,
    {
        let v = self.data.members.clone();
        proof {
            assert(v@ =~= self.data.members@);
        }
        Array::new(v)
    }

    /// The position of the first member called `name`.
    pub fn index_by_name(&self, name: &str) -> (r: Option<usize>)
        ensures
            match r {
                Some(i) => i < self@.members.len() && first_named(self@.members, name@) == Some(
                    i as int,
                ),
                None => first_named(self@.members, name@) is None,
            },
    {
        self.data.index_by_name(name)
    }

    /// The position of the first member at `offset`.
    pub fn index_by_offset(&self, offset: u64) -> (r: Option<usize>)
        ensures
            match r {
                Some(i) => i < self@.members.len() && first_at_offset(self@.members, offset) == Some(
                    i as int,
                ),
                None => first_at_offset(self@.members, offset) is None,
            },
    {
        self.data.index_by_offset(offset)
    }

    /// Take every member out. The width stays.
    pub fn clear_members(&mut self)
        ensures
            final(self)@ == (StructView { members: Seq::empty(), ..old(self)@ }),
    {
        self.data.members.clear();
        proof {
            assert(self@.members =~= Seq::<StructureMemberView>::empty());
        }
    }

    /// Append a copy of each member in turn. A member keeps its type, name,
    /// access and scope, and begins where the structure ended.
    pub fn add_members(&mut self, members: &[StructureMember])
        ensures
            final(self)@ == appended_all(old(self)@, member_views(members@), members@.len() as int),
    {
        let mut i: usize = 0;
        while i < members.len()
            invariant
                i <= members.len(),
                self@ == appended_all(old(self)@, member_views(members@), i as int),
            decreases members.len() - i,
        {
            let m = &members[i];
            proof {
                assert(member_views(members@)[i as int] == m@);
            }
            self.data.append(m.ty(), m.name(), m.access(), m.scope());
            i = i + 1;
        }
    }

    /// Put these members in the place of all that the structure holds.
    pub fn set_members(&mut self, members: &[StructureMember])
        ensures
            final(self)@ == appended_all(
                StructView { members: Seq::empty(), ..old(self)@ },
                member_views(members@),
                members@.len() as int,
            ),
    {
        self.clear_members();
        self.add_members(members);
    }

    /// Take member `index` out; those behind it move up. Where there is no
    /// such member nothing changes.
    pub fn remove(&mut self, index: usize)
        ensures
            index < old(self)@.members.len() ==> final(self)@ == (StructView {
                members: old(self)@.members.remove(index as int),
                ..old(self)@
            }),
            index >= old(self)@.members.len() ==> final(self)@ == old(self)@,
    {
        if index < self.data.members.len() {
            self.data.members.remove(index);
            proof {
                assert(self@.members =~= old(self)@.members.remove(index as int));
            }
        }
    }

    /// Give member `index` a new type and name. Members that the new type
    /// reaches into are left as they are, whatever `overwrite` says.
    pub fn replace(&mut self, index: usize, type_: Conf<&Type>, name: &str, overwrite: bool)
        ensures
            final(self)@ == replaced(old(self)@, index as int, crate::types::owned(type_), name@),
    {
        if index < self.data.members.len() {
            let width = type_.contents.width();
            let old_member = &self.data.members[index];
            let offset = old_member.offset;
            let m = StructureMember::new(
                Conf::new(type_.contents.clone(), type_.confidence),
                name,
                offset,
                old_member.access,
                old_member.scope,
            );
            self.data.members[index] = m;
            self.data.grow_to_hold(offset, width);
            proof {
                assert(self@.members =~= replaced(
                    old(self)@,
                    index as int,
                    crate::types::owned(type_),
                    name@,
                ).members);
            }
        }
    }

    /// Append one member for each pair of a type and a name, in turn, with no
    /// access and no scope.
    pub fn with_members(&mut self, members: &[(Conf<&Type>, &str)]) -> (r: &mut Self)
        ensures
            r@ == appended_all(
                old(self)@,
                Seq::new(
                    members@.len(),
                    |i: int|
                        StructureMemberView {
                            ty: *members@[i].0.contents,
                            type_confidence: members@[i].0.confidence,
                            name: members@[i].1@,
                            offset: 0,
                            access: MemberAccess::NoAccess,
                            scope: MemberScope::NoScope,
                        },
                ),
                members@.len() as int,
            ),
            *final(self) == *final(r),
    {
        let ghost views = Seq::new(
            members@.len(),
            |i: int|
                StructureMemberView {
                    ty: *members@[i].0.contents,
                    type_confidence: members@[i].0.confidence,
                    name: members@[i].1@,
                    offset: 0,
                    access: MemberAccess::NoAccess,
                    scope: MemberScope::NoScope,
                },
        );
        let mut i: usize = 0;
        while i < members.len()
            invariant
                i <= members.len(),
                views.len() == members@.len(),
                forall|j: int|
                    0 <= j < members@.len() ==> views[j] == (StructureMemberView {
                        ty: *members@[j].0.contents,
                        type_confidence: members@[j].0.confidence,
                        name: members@[j].1@,
                        offset: 0,
                        access: MemberAccess::NoAccess,
                        scope: MemberScope::NoScope,
                    }),
                self@ == appended_all(old(self)@, views, i as int),
            decreases members.len() - i,
        {
            let t = Conf::new(members[i].0.contents, members[i].0.confidence);
            self.data.append(t, members[i].1, MemberAccess::NoAccess, MemberScope::NoScope);
            i = i + 1;
        }
        self
    }
}

/// A builder that starts from what a snapshot holds. The snapshot stays as it
/// is.
impl From<&Structure> for StructureBuilder {
    fn from(structure: &Structure) -> (r: StructureBuilder)
        ensures
            r@ == structure@,
    {
        Self { data: structure.data.duplicate() }
    }
}

impl FromSpecImpl<&Structure> for StructureBuilder {
    open spec fn obeys_from_spec() -> bool {
        false
    }

    open spec fn from_spec(structure: &Structure) -> Self {
        arbitrary()
    }
}

/// A builder that holds these members, each inserted at its offset in turn. Of
/// two members at one offset the first stays.
impl From<Vec<StructureMember>> for StructureBuilder {
    fn from(members: Vec<StructureMember>) -> (r: StructureBuilder)
        ensures
            r@ == inserted_all(empty_structure(), member_views(members@), members@.len() as int),
    {
        let mut builder = StructureBuilder::new();
        let mut i: usize = 0;
        while i < members.len()
            invariant
                i <= members.len(),
                builder@ == inserted_all(empty_structure(), member_views(members@), i as int),
            decreases members.len() - i,
        {
            let m = &members[i];
            proof {
                assert(member_views(members@)[i as int] == m@);
            }
            builder.data.insert(m.ty(), m.name(), m.offset(), false, m.access(), m.scope());
            i = i + 1;
        }
        builder
    }
}

impl FromSpecImpl<Vec<StructureMember>> for StructureBuilder {
    open spec fn obeys_from_spec() -> bool {
        false
    }

    open spec fn from_spec(members: Vec<StructureMember>) -> Self {
        arbitrary()
    }
}

impl Default for StructureBuilder {
    fn default() -> (r: Self)
        ensures
            r@ == empty_structure(),
    {
        Self::new()
    }
}

impl Structure {
    pub fn builder() -> (r: StructureBuilder)
        ensures
            r@ == empty_structure(),
    {
        StructureBuilder::new()
    }

    pub fn width(&self) -> (r: u64)
        ensures
            r == self@.width,
    {
        self.data.width
    }

    pub fn alignment(&self) -> (r: usize)
        ensures
            r == self@.alignment,
    {
        self.data.alignment
    }

    pub fn structure_type(&self) -> (r: StructureType)
        ensures
            r == self@.structure_type,
    {
        self.data.structure_type
    }

    /// A copy of the members, in order.
    pub fn members(&self) -> (r: Result<Vec<StructureMember>, ()>)
        ensures
            r is Ok,
            member_views(r.unwrap()@) == self@.members,
    {
        let v = self.data.members.clone();
        proof {
            assert(v@ =~= self.data.members@);
        }
        Ok(v)
    }

    /// A copy of the bases, in order.
    pub fn base_structures(&self) -> (r: Result<Vec<BaseStructure>, ()>)
        ensures
            r is Ok,
            r.unwrap()@ == self@.base_structures,
    {
        let v = self.data.base_structures.clone();
        proof {
            assert(v@ =~= self.data.base_structures@);
        }
        Ok(v)
    }
}

/// The first member at an offset is a member at that offset with none such
/// before it; where there is none at all, no member lies there.
pub proof fn lemma_first_at_offset(members: Seq<StructureMemberView>, offset: u64, start: int)
    requires
        0 <= start,
    ensures
        match first_at_offset_from(members, offset, start) {
            Some(i) => start <= i < members.len() && members[i].offset == offset && forall|j: int|
                start <= j < i ==> members[j].offset != offset,
            None => forall|j: int| start <= j < members.len() ==> members[j].offset != offset,
        },
    decreases members.len() - start,
{
    if start < members.len() && members[start].offset != offset {
        lemma_first_at_offset(members, offset, start + 1);
    }
}

/// The first member of a name is a member of that name with none such before
/// it; where there is none at all, no member has the name.
pub proof fn lemma_first_named(members: Seq<StructureMemberView>, name: Seq<char>, start: int)
    requires
        0 <= start,
    ensures
        match first_named_from(members, name, start) {
            Some(i) => start <= i < members.len() && members[i].name == name && forall|j: int|
                start <= j < i ==> members[j].name != name,
            None => forall|j: int| start <= j < members.len() ==> members[j].name != name,
        },
    decreases members.len() - start,
{
    if start < members.len() && members[start].name != name {
        lemma_first_named(members, name, start + 1);
    }
}

/// Inserting at an offset where a member lies leaves the structure as it was
/// unless overwriting is asked for; then the new member stands in the place of
/// the first member at that offset, and every other member stays. At a free
/// offset the new member joins at the end either way.
pub proof fn lemma_insert_at_offset(s: StructView, m: StructureMemberView)
    ensures
        (exists|j: int| 0 <= j < s.members.len() && s.members[j].offset == m.offset) ==> {
            &&& inserted(s, m, false) == s
            &&& first_at_offset(s.members, m.offset) is Some
            &&& inserted(s, m, true).members == s.members.update(
                first_at_offset(s.members, m.offset).unwrap(),
                m,
            )
            &&& inserted(s, m, true).members.len() == s.members.len()
        },
        (forall|j: int| 0 <= j < s.members.len() ==> s.members[j].offset != m.offset) ==> {
            &&& inserted(s, m, false).members == s.members.push(m)
            &&& inserted(s, m, true).members == s.members.push(m)
        },
{
    lemma_first_at_offset(s.members, m.offset, 0);
}


/// Whether no two members lie at one offset.
pub open spec fn distinct_offsets(members: Seq<StructureMemberView>) -> bool {
    forall|i: int, j: int|
        0 <= i < j < members.len() ==> members[i].offset != members[j].offset
}

/// After a member is inserted, a member lies at its offset. Inserting keeps
/// apart what was apart: where no two members shared an offset before, none
/// do after, overwriting or not.
pub proof fn lemma_insert_keeps_offsets_apart(
    s: StructView,
    m: StructureMemberView,
    overwrite_existing: bool,
)
    ensures
        first_at_offset(inserted(s, m, overwrite_existing).members, m.offset) is Some,
        distinct_offsets(s.members) ==> distinct_offsets(
            inserted(s, m, overwrite_existing).members,
        ),
{
    let after = inserted(s, m, overwrite_existing).members;
    lemma_first_at_offset(s.members, m.offset, 0);
    lemma_first_at_offset(after, m.offset, 0);
    match first_at_offset(s.members, m.offset) {
        Some(i) => {
            assert(after[i].offset == m.offset);
        },
        None => {
            assert(after[s.members.len() as int].offset == m.offset);
        },
    }
}

/// A builder made from a list of members holds at most one member at each
/// offset.
pub proof fn lemma_inserted_all_offsets_apart(list: Seq<StructureMemberView>, n: int)
    requires
        0 <= n <= list.len(),
    ensures
        distinct_offsets(inserted_all(empty_structure(), list, n).members),
    decreases n,
{
    if n > 0 {
        lemma_inserted_all_offsets_apart(list, n - 1);
        lemma_insert_keeps_offsets_apart(
            inserted_all(empty_structure(), list, n - 1),
            list[n - 1],
            false,
        );
    }
}

/// What a member is made of, down to the last type it reaches.
pub struct MemberContent {
    pub ty: TypeContent,
    pub type_confidence: u8,
    pub name: Seq<char>,
    pub offset: u64,
    pub access: MemberAccess,
    pub scope: MemberScope,
}

/// What a base is made of.
pub struct BaseContent {
    pub ty: NamedTypeReferenceView,
    pub offset: u64,
    pub width: u64,
}

/// What a structure is made of, down to the last type it reaches.
pub struct StructureContent {
    pub members: Seq<MemberContent>,
    pub width: u64,
    pub alignment: usize,
    pub packed: bool,
    pub structure_type: StructureType,
    pub pointer_offset: i64,
    pub propagates_data_var_refs: bool,
    pub base_structures: Seq<BaseContent>,
}

/// What the member `m` is made of.
pub closed spec fn member_content(m: StructureMember) -> MemberContent
    decreases m,
{
    MemberContent {
        ty: content(m.ty),
        type_confidence: m.type_confidence,
        name: m.name@,
        offset: m.offset,
        access: m.access,
        scope: m.scope,
    }
}

/// What the base `b` is made of.
pub open spec fn base_content(b: BaseStructure) -> BaseContent {
    BaseContent { ty: b.ty@, offset: b.offset, width: b.width }
}

/// What the structure `s` is made of.
pub closed spec fn structure_content(s: Structure) -> StructureContent
    decreases s,
{
    StructureContent {
        members: Seq::new(
            s.data.members@.len(),
            |i: int|
                if 0 <= i < s.data.members@.len() {
                    member_content(s.data.members@[i])
                } else {
                    arbitrary()
                },
        ),
        width: s.data.width,
        alignment: s.data.alignment,
        packed: s.data.packed,
        structure_type: s.data.structure_type,
        pointer_offset: s.data.pointer_offset,
        propagates_data_var_refs: s.data.propagates_data_var_refs,
        base_structures: Seq::new(
            s.data.base_structures@.len(),
            |i: int| base_content(s.data.base_structures@[i]),
        ),
    }
}


impl StructureMember {
    /// Whether the two members are made of the same.
    pub fn same_as(&self, other: &StructureMember) -> (r: bool)
        ensures
            r == (member_content(*self) == member_content(*other)),
        decreases *self,
    {
        self.type_confidence == other.type_confidence && self.name == other.name && self.offset
            == other.offset && self.access == other.access && self.scope == other.scope
            && self.ty.same_as(&other.ty)
    }
}

/// Two bases are equal when they name the same structure at the same place
/// with the same width.
impl PartialEq for BaseStructure {
    fn eq(&self, other: &Self) -> (r: bool) {
        self.offset == other.offset && self.width == other.width && self.ty == other.ty
    }
}

impl PartialEqSpecImpl for BaseStructure {
    open spec fn obeys_eq_spec() -> bool {
        true
    }

    open spec fn eq_spec(&self, other: &Self) -> bool {
        base_content(*self) == base_content(*other)
    }
}

impl Structure {
    /// Whether the two structures are made of the same, down to the last type
    /// they reach.
    pub fn same_as(&self, other: &Structure) -> (r: bool)
        ensures
            r == (structure_content(*self) == structure_content(*other)),
        decreases *self,
    {
        let a = &self.data;
        let b = &other.data;
        if !(a.width == b.width && a.alignment == b.alignment && a.packed == b.packed
            && a.structure_type == b.structure_type && a.pointer_offset == b.pointer_offset
            && a.propagates_data_var_refs == b.propagates_data_var_refs) {
            return false;
        }
        if a.members.len() != b.members.len() {
            proof {
                assert(structure_content(*self).members.len() != structure_content(
                    *other,
                ).members.len());
            }
            return false;
        }
        if a.base_structures.len() != b.base_structures.len() {
            proof {
                assert(structure_content(*self).base_structures.len() != structure_content(
                    *other,
                ).base_structures.len());
            }
            return false;
        }
        let mut i: usize = 0;
        while i < a.members.len()
            invariant
                i <= a.members.len(),
                a == &self.data,
                b == &other.data,
                a.members.len() == b.members.len(),
                forall|j: int|
                    0 <= j < i ==> member_content(a.members@[j]) == member_content(b.members@[j]),
            decreases a.members.len() - i,
        {
            if !a.members[i].same_as(&b.members[i]) {
                proof {
                    assert(structure_content(*self).members[i as int] != structure_content(
                        *other,
                    ).members[i as int]);
                }
                return false;
            }
            i = i + 1;
        }
        let mut k: usize = 0;
        while k < a.base_structures.len()
            invariant
                k <= a.base_structures.len(),
                a == &self.data,
                b == &other.data,
                a.base_structures.len() == b.base_structures.len(),
                forall|j: int|
                    0 <= j < k ==> base_content(a.base_structures@[j]) == base_content(
                        b.base_structures@[j],
                    ),
            decreases a.base_structures.len() - k,
        {
            if a.base_structures[k] != b.base_structures[k] {
                proof {
                    assert(structure_content(*self).base_structures[k as int] != structure_content(
                        *other,
                    ).base_structures[k as int]);
                }
                return false;
            }
            k = k + 1;
        }
        proof {
            assert(structure_content(*self).members =~= structure_content(*other).members);
            assert(structure_content(*self).base_structures =~= structure_content(
                *other,
            ).base_structures);
        }
        true
    }
}

/// Two members are equal when they are made of the same.
impl PartialEq for StructureMember {
    fn eq(&self, other: &Self) -> (r: bool) {
        self.same_as(other)
    }
}

impl PartialEqSpecImpl for StructureMember {
    open spec fn obeys_eq_spec() -> bool {
        true
    }

    open spec fn eq_spec(&self, other: &Self) -> bool {
        member_content(*self) == member_content(*other)
    }
}

/// Two structures are equal when they are made of the same, down to the last
/// type they reach, wherever they were built.
impl PartialEq for Structure {
    fn eq(&self, other: &Self) -> (r: bool) {
        self.same_as(other)
    }
}

impl PartialEqSpecImpl for Structure {
    open spec fn obeys_eq_spec() -> bool {
        true
    }

    open spec fn eq_spec(&self, other: &Self) -> bool {
        structure_content(*self) == structure_content(*other)
    }
}


impl Eq for Structure {}

impl Eq for StructureMember {}

impl Eq for BaseStructure {}

/// The content of a member is what the member holds, with the content of its
/// type in the place of the type.
pub proof fn lemma_member_content(m: StructureMember)
    ensures
        member_content(m) == (MemberContent {
            ty: content(m@.ty),
            type_confidence: m@.type_confidence,
            name: m@.name,
            offset: m@.offset,
            access: m@.access,
            scope: m@.scope,
        }),
{
}

/// The content of a structure is what the structure holds, with content in
/// the place of each member's type and of each base.
pub proof fn lemma_structure_content(s: Structure)
    ensures
        structure_content(s).members.len() == s@.members.len(),
        forall|i: int|
            0 <= i < s@.members.len() ==> #[trigger] structure_content(s).members[i] == (
            MemberContent {
                ty: content(s@.members[i].ty),
                type_confidence: s@.members[i].type_confidence,
                name: s@.members[i].name,
                offset: s@.members[i].offset,
                access: s@.members[i].access,
                scope: s@.members[i].scope,
            }),
        structure_content(s).width == s@.width,
        structure_content(s).alignment == s@.alignment,
        structure_content(s).packed == s@.packed,
        structure_content(s).structure_type == s@.structure_type,
        structure_content(s).pointer_offset == s@.pointer_offset,
        structure_content(s).propagates_data_var_refs == s@.propagates_data_var_refs,
        structure_content(s).base_structures.len() == s@.base_structures.len(),
        forall|i: int|
            0 <= i < s@.base_structures.len() ==> #[trigger] structure_content(
                s,
            ).base_structures[i] == base_content(s@.base_structures[i]),
{
}

/// Two structures that hold the same are made of the same.
pub proof fn lemma_same_view_same_structure(a: Structure, b: Structure)
    requires
        a@ == b@,
    ensures
        structure_content(a) == structure_content(b),
{
    lemma_structure_content(a);
    lemma_structure_content(b);
    assert(structure_content(a).members =~= structure_content(b).members);
    assert(structure_content(a).base_structures =~= structure_content(b).base_structures);
}

} // verus!

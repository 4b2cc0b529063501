//! A registry of types by id, and the resolution of named references
//! against it.
//!
//! A named reference may point at a type that is itself a named reference.
//! Resolution follows such a chain until it meets a type that is none, and
//! remembers the ids it went through: where the chain comes back to one of
//! them, or leaves the registry, there is no target.

use vstd::prelude::*;
use vstd::string::StringExecFns;
use crate::kinds::TypeClass;
use crate::types::{NamedTypeReference, Type};

verus! {

/// Types by id. An id names one type: defining it again replaces the type.
#[derive(Debug)]
pub struct TypeRegistry {
    entries: Vec<(String, Type)>,
}

/// The id and type of each entry of `v`, in order.
pub open spec fn entry_views(v: Seq<(String, Type)>) -> Seq<(Seq<char>, Type)> {
    Seq::new(v.len(), |i: int| (v[i].0@, v[i].1))
}

impl View for TypeRegistry {
    type V = Seq<(Seq<char>, Type)>;

    closed spec fn view(&self) -> Seq<(Seq<char>, Type)> {
        entry_views(self.entries@)
    }
}

/// The index of the first entry from `start` on that has the id `id`.
pub open spec fn position_from(
    entries: Seq<(Seq<char>, Type)>,
    id: Seq<char>,
    start: int,
) -> Option<int>
    decreases entries.len() - start,
{
    if start < 0 || start >= entries.len() {
        None
    } else if entries[start].0 == id {
        Some(start)
    } else {
        position_from(entries, id, start + 1)
    }
}

/// The type that the registry holds under `id`.
pub open spec fn lookup(entries: Seq<(Seq<char>, Type)>, id: Seq<char>) -> Option<Type> {
    match position_from(entries, id, 0) {
        Some(i) => Some(entries[i].1),
        None => None,
    }
}

/// The registry after `t` is defined under `id`: in the place of the type
/// that `id` named, or as a new entry at the end.
pub open spec fn defined(
    entries: Seq<(Seq<char>, Type)>,
    id: Seq<char>,
    t: Type,
) -> Seq<(Seq<char>, Type)> {
    match position_from(entries, id, 0) {
        Some(i) => entries.update(i, (id, t)),
        None => entries.push((id, t)),
    }
}

/// How many entries have an id that is not in `visited`.
pub open spec fn unvisited(entries: Seq<(Seq<char>, Type)>, visited: Set<Seq<char>>) -> nat
    decreases entries.len(),
{
    if entries.len() == 0 {
        0
    } else {
        unvisited(entries.drop_last(), visited) + if visited.contains(entries.last().0) {
            0nat
        } else {
            1nat
        }
    }
}

/// Visiting one more id leaves no more entries unvisited than before, and
/// fewer if the id names an entry and was not visited yet.
pub proof fn lemma_visit(entries: Seq<(Seq<char>, Type)>, visited: Set<Seq<char>>, id: Seq<char>)
    ensures
        unvisited(entries, visited.insert(id)) <= unvisited(entries, visited),
        position_from(entries, id, 0) is Some && !visited.contains(id) ==> unvisited(
            entries,
            visited.insert(id),
        ) < unvisited(entries, visited),
    decreases entries.len(),
{
    if entries.len() > 0 {
        lemma_visit(entries.drop_last(), visited, id);
        lemma_position(entries, id, 0);
        lemma_position(entries.drop_last(), id, 0);
        if position_from(entries, id, 0) is Some && !visited.contains(id) {
            let i = position_from(entries, id, 0).unwrap();
            if i < entries.len() - 1 {
                assert(entries.drop_last()[i].0 == id);
            }
        }
    } else {
        lemma_position(entries, id, 0);
    }
}

/// The first entry of an id is an entry of that id with none such before it;
/// where there is none at all, no entry has the id.
pub proof fn lemma_position(entries: Seq<(Seq<char>, Type)>, id: Seq<char>, start: int)
    requires
        0 <= start,
    ensures
        match position_from(entries, id, start) {
            Some(i) => start <= i < entries.len() && entries[i].0 == id && forall|j: int|
                start <= j < i ==> entries[j].0 != id,
            None => forall|j: int| start <= j < entries.len() ==> entries[j].0 != id,
        },
    decreases entries.len() - start,
{
    if start < entries.len() && entries[start].0 != id {
        lemma_position(entries, id, start + 1);
    }
}

/// The type at the end of the chain of named references that begins at `t`,
/// where `visited` holds the ids that the chain went through already. There
/// is none where a reference names no entry, or names an id in `visited`.
pub open spec fn chase(
    entries: Seq<(Seq<char>, Type)>,
    t: Type,
    visited: Set<Seq<char>>,
) -> Option<Type>
    decreases unvisited(entries, visited),
{
    if t@.class != TypeClass::NamedTypeReferenceClass {
        Some(t)
    } else {
        match t@.named_type_reference {
            None => None,
            Some(n) => if visited.contains(n@.id) {
                None
            } else {
                match lookup(entries, n@.id) {
                    None => None,
                    Some(next) => {
                        proof {
                            lemma_visit(entries, visited, n@.id);
                        }
                        chase(entries, next, visited.insert(n@.id))
                    },
                }
            },
        }
    }
}

/// The type that the id `id` stands for: the type under `id`, or, where that
/// is a named reference, the end of its chain.
pub open spec fn resolve(entries: Seq<(Seq<char>, Type)>, id: Seq<char>) -> Option<Type> {
    match lookup(entries, id) {
        None => None,
        Some(t) => chase(entries, t, Set::empty()),
    }
}

/// The texts of the strings of `v`, as a set.
pub open spec fn text_set(v: Seq<String>) -> Set<Seq<char>> {
    Set::new(|s: Seq<char>| exists|k: int| 0 <= k < v.len() && v[k]@ == s)
}

proof fn lemma_text_set_push(v: Seq<String>, x: String)
    ensures
        text_set(v.push(x)) == text_set(v).insert(x@),
{
    let a = text_set(v.push(x));
    let b = text_set(v).insert(x@);
    assert forall|s: Seq<char>| a.contains(s) <==> b.contains(s) by {
        if a.contains(s) {
            let k = choose|k: int| 0 <= k < v.push(x).len() && v.push(x)[k]@ == s;
            if k < v.len() {
                assert(v[k]@ == s);
            }
        }
        if b.contains(s) {
            if s == x@ {
                assert(v.push(x)[v.len() as int]@ == s);
            } else {
                let k = choose|k: int| 0 <= k < v.len() && v[k]@ == s;
                assert(v.push(x)[k]@ == s);
            }
        }
    }
    assert(a =~= b);
}

fn holds(v: &Vec<String>, s: &String) -> (r: bool)
    ensures
        r == text_set(v@).contains(s@),
{
    let mut i: usize = 0;
    while i < v.len()
        invariant
            i <= v.len(),
            forall|k: int| 0 <= k < i ==> v@[k]@ != s@,
        decreases v.len() - i,
    {
        if v[i] == *s {
            return true;
        }
        i = i + 1;
    }
    false
}

impl TypeRegistry {
    pub fn new() -> (r: Self)
        ensures
            r@ == Seq::<(Seq<char>, Type)>::empty(),
    {
        let r = Self { entries: Vec::new() };
        proof {
            assert(r@ =~= Seq::<(Seq<char>, Type)>::empty());
        }
        r
    }

    fn position(&self, id: &str) -> (r: Option<usize>)
        ensures
            match r {
                Some(i) => i < self@.len() && position_from(self@, id@, 0) == Some(i as int),
                None => position_from(self@, id@, 0) is None,
            },
    {
        let key = String::from_str(id);
        let mut i: usize = 0;
        while i < self.entries.len()
            invariant
                i <= self.entries.len(),
                key@ == id@,
                position_from(self@, id@, 0) == position_from(self@, id@, i as int),
            decreases self.entries.len() - i,
        {
            proof {
                assert(self@[i as int].0 == self.entries@[i as int].0@);
            }
            if self.entries[i].0 == key {
                return Some(i);
            }
            i = i + 1;
        }
        None
    }

    /// Register `t` under `id`.
    pub fn define_type(&mut self, id: &str, t: &Type)
        ensures
            final(self)@ == defined(old(self)@, id@, *t),
    {
        match self.position(id) {
            Some(i) => {
                self.entries[i] = (String::from_str(id), t.clone());
                proof {
                    assert(self@ =~= old(self)@.update(i as int, (id@, *t)));
                }
            },
            None => {
                self.entries.push((String::from_str(id), t.clone()));
                proof {
                    assert(self@ =~= old(self)@.push((id@, *t)));
                }
            },
        }
    }

    /// The type registered under `id`, if there is one.
    pub fn get_type_by_id(&self, id: &str) -> (r: Option<Type>)
        ensures
            r == lookup(self@, id@),
    {
        match self.position(id) {
            Some(i) => {
                proof {
                    assert(self@[i as int].1 == self.entries@[i as int].1);
                }
                Some(self.entries[i].1.clone())
            },
            None => None,
        }
    }
}

impl Default for TypeRegistry {
    fn default() -> (r: Self)
        ensures
            r@ == Seq::<(Seq<char>, Type)>::empty(),
    {
        Self::new()
    }
}

impl NamedTypeReference {
    /// The type that this reference stands for in `registry`: the first type
    /// on its chain that is no named reference. There is none where the chain
    /// leaves the registry or runs in a circle.
    pub fn target(&self, registry: &TypeRegistry) -> (r: Option<Type>)
        ensures
            r == resolve(registry@, self@.id),
            r matches Some(t) ==> t@.class != TypeClass::NamedTypeReferenceClass,
    {
        let id = self.id();
        let mut current = match registry.get_type_by_id(id.as_str()) {
            Some(t) => t,
            None => {
                return None;
            },
        };
        let mut visited: Vec<String> = Vec::new();
        proof {
            assert(text_set(visited@) =~= Set::<Seq<char>>::empty());
        }
        loop
            invariant
                resolve(registry@, self@.id) == chase(registry@, current, text_set(visited@)),
            decreases unvisited(registry@, text_set(visited@)),
        {
            if current.type_class() != TypeClass::NamedTypeReferenceClass {
                return Some(current);
            }
            let reference = match current.get_named_type_reference() {
                Ok(n) => n,
                Err(_) => {
                    return None;
                },
            };
            let next_id = reference.id();
            if holds(&visited, &next_id) {
                return None;
            }
            match registry.get_type_by_id(next_id.as_str()) {
                Some(next) => {
                    proof {
                        lemma_visit(registry@, text_set(visited@), next_id@);
                        lemma_text_set_push(visited@, next_id);
                    }
                    visited.push(next_id);
                    current = next;
                },
                None => {
                    return None;
                },
            }
        }
    }
}

/// What a chain of named references ends in is never a named reference.
pub proof fn lemma_target_is_no_reference(
    entries: Seq<(Seq<char>, Type)>,
    t: Type,
    visited: Set<Seq<char>>,
)
    ensures
        chase(entries, t, visited) matches Some(end) ==> end@.class
            != TypeClass::NamedTypeReferenceClass,
    decreases unvisited(entries, visited),
{
    if t@.class == TypeClass::NamedTypeReferenceClass {
        if let Some(n) = t@.named_type_reference {
            if !visited.contains(n@.id) {
                if let Some(next) = lookup(entries, n@.id) {
                    lemma_visit(entries, visited, n@.id);
                    lemma_target_is_no_reference(entries, next, visited.insert(n@.id));
                }
            }
        }
    }
}

/// Two named references that point at each other have no target, and neither
/// has one that points at itself: resolution ends and finds nothing.
pub proof fn lemma_cycle_is_unresolvable(
    entries: Seq<(Seq<char>, Type)>,
    a: Seq<char>,
    b: Seq<char>,
    type_a: Type,
    type_b: Type,
    to_a: NamedTypeReference,
    to_b: NamedTypeReference,
)
    requires
        lookup(entries, a) == Some(type_a),
        lookup(entries, b) == Some(type_b),
        type_a@.class == TypeClass::NamedTypeReferenceClass,
        type_b@.class == TypeClass::NamedTypeReferenceClass,
        type_a@.named_type_reference == Some(to_b),
        type_b@.named_type_reference == Some(to_a),
        to_a@.id == a,
        to_b@.id == b,
    ensures
        resolve(entries, a) is None,
        resolve(entries, b) is None,
{
    let none = Set::<Seq<char>>::empty();
    reveal_with_fuel(chase, 4);
    assert(none.insert(b).insert(a).contains(b));
    assert(none.insert(a).insert(b).contains(a));
    assert(chase(entries, type_a, none.insert(b).insert(a)) is None);
    assert(chase(entries, type_b, none.insert(a).insert(b)) is None);
    if a == b {
        assert(chase(entries, type_b, none.insert(b)) is None);
        assert(chase(entries, type_a, none.insert(a)) is None);
    } else {
        assert(chase(entries, type_b, none.insert(b)) is None);
        assert(chase(entries, type_a, none.insert(a)) is None);
    }
}


/// What is defined under an id is what the registry then holds under it, and
/// what it holds under any other id stays.
pub proof fn lemma_define_then_lookup(
    entries: Seq<(Seq<char>, Type)>,
    id: Seq<char>,
    t: Type,
    other: Seq<char>,
)
    ensures
        lookup(defined(entries, id, t), id) == Some(t),
        other != id ==> lookup(defined(entries, id, t), other) == lookup(entries, other),
{
    let after = defined(entries, id, t);
    lemma_position(entries, id, 0);
    lemma_position(entries, other, 0);
    lemma_position(after, id, 0);
    lemma_position(after, other, 0);
    let at = match position_from(entries, id, 0) {
        Some(i) => i,
        None => entries.len() as int,
    };
    assert(after[at] == (id, t));
    assert(forall|k: int| 0 <= k < entries.len() && k != at ==> after[k] == entries[k]);
}

} // verus!

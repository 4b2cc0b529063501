//! Hierarchical names: a sequence of components and the delimiter that joins
//! them for display.

use vstd::prelude::*;
use vstd::string::StringExecFns;
use vstd::std_specs::cmp::PartialEqSpecImpl;
use vstd::std_specs::convert::FromSpecImpl;

verus! {

/// The delimiter of a name. It is cosmetic: it takes no part in the hash of
/// the name, as it takes none in its equality.
#[derive(Debug)]
struct Delimiter {
    text: String,
}

impl core::hash::Hash for Delimiter {
    fn hash<H: core::hash::Hasher>(&self, _state: &mut H) {
    }
}

/// A name such as `std::vector`: its components in order, and the delimiter
/// written between them. Two names are equal when their components are; the
/// delimiter is cosmetic.
#[derive(Debug, Hash)]
pub struct QualifiedName {
    names: Vec<String>,
    join: Delimiter,
}

/// The text of each string of `v`, in order.
pub open spec fn texts(v: Seq<String>) -> Seq<Seq<char>> {
    Seq::new(v.len(), |i: int| v[i]@)
}

/// `parts` written one after the other with `sep` between neighbours.
pub open spec fn joined(parts: Seq<Seq<char>>, sep: Seq<char>) -> Seq<char>
    decreases parts.len(),
{
    if parts.len() == 0 {
        Seq::empty()
    } else if parts.len() == 1 {
        parts[0]
    } else {
        joined(parts.drop_last(), sep) + sep + parts.last()
    }
}

/// The delimiter given to every name built here.
pub open spec fn default_join() -> Seq<char> {
    seq![':', ':']
}

fn default_join_string() -> (r: String)
    ensures
        r@ == default_join(),
{
    proof {
        reveal_strlit("::");
    }
    let r = String::from_str("::");
    assert(r@ =~= default_join());
    r
}

/// The strings of `parts` written one after the other with `sep` between
/// neighbours.
pub fn join_strings(parts: &Vec<String>, sep: &str) -> (r: String)
    ensures
        r@ == joined(texts(parts@), sep@),
{
    let mut out = String::new();
    let mut i: usize = 0;
    while i < parts.len()
        invariant
            i <= parts.len(),
            out@ == joined(texts(parts@).take(i as int), sep@),
        decreases parts.len() - i,
    {
        proof {
            let next = texts(parts@).take(i + 1);
            assert(next.drop_last() =~= texts(parts@).take(i as int));
            assert(next.last() == parts@[i as int]@);
            assert(Seq::<char>::empty() + parts@[i as int]@ =~= parts@[i as int]@);
        }
        if i > 0 {
            out.append(sep);
        }
        out.append(parts[i].as_str());
        i = i + 1;
    }
    proof {
        assert(texts(parts@).take(i as int) =~= texts(parts@));
    }
    out
}

impl QualifiedName {
    /// The components, in order.
    pub closed spec fn components(&self) -> Seq<Seq<char>> {
        texts(self.names@)
    }

    /// The delimiter.
    pub closed spec fn delimiter(&self) -> Seq<char> {
        self.join.text@
    }

    /// The display form: the components joined by the delimiter.
    pub fn string(&self) -> (r: String)
        ensures
            r@ == joined(self.components(), self.delimiter()),
    {
        join_strings(&self.names, self.join.text.as_str())
    }

    pub fn join(&self) -> (r: &str)
        ensures
            r@ == self.delimiter(),
    {
        self.join.text.as_str()
    }

    /// A copy of each component, in order.
    pub fn strings(&self) -> (r: Vec<String>)
        ensures
            texts(r@) == self.components(),
    {
        let r = self.names.clone();
        proof {
            assert(r@ =~= self.names@);
        }
        r
    }

    pub fn len(&self) -> (r: usize)
        ensures
            r == self.components().len(),
    {
        self.names.len()
    }

    pub fn is_empty(&self) -> (r: bool)
        ensures
            r == (self.components().len() == 0),
    {
        self.names.len() == 0
    }
}

/// A single string is a name of one component.
impl From<&str> for QualifiedName {
    fn from(name: &str) -> (r: Self)
        ensures
            r.components() == seq![name@],
            r.delimiter() == default_join(),
    {
        let mut names: Vec<String> = Vec::new();
        names.push(String::from_str(name));
        let r = QualifiedName { names, join: Delimiter { text: default_join_string() } };
        proof {
            assert(r.components() =~= seq![name@]);
        }
        r
    }
}

impl FromSpecImpl<&str> for QualifiedName {
    open spec fn obeys_from_spec() -> bool {
        false
    }

    open spec fn from_spec(name: &str) -> Self {
        arbitrary()
    }
}

/// A list of strings is a name with those components, in that order.
impl From<Vec<String>> for QualifiedName {
    fn from(names: Vec<String>) -> (r: Self)
        ensures
            r.components() == texts(names@),
            r.delimiter() == default_join(),
    {
        QualifiedName { names, join: Delimiter { text: default_join_string() } }
    }
}

impl FromSpecImpl<Vec<String>> for QualifiedName {
    open spec fn obeys_from_spec() -> bool {
        false
    }

    open spec fn from_spec(names: Vec<String>) -> Self {
        arbitrary()
    }
}

impl Clone for QualifiedName {
    fn clone(&self) -> (r: Self)
        ensures
            r.components() == self.components(),
            r.delimiter() == self.delimiter(),
    {
        let names = self.names.clone();
        proof {
            assert(names@ =~= self.names@);
        }
        QualifiedName { names, join: Delimiter { text: self.join.text.clone() } }
    }
}

impl PartialEq for QualifiedName {
    fn eq(&self, other: &Self) -> (r: bool) {
        if self.names.len() != other.names.len() {
            proof {
                assert(self.components().len() != other.components().len());
            }
            return false;
        }
        let mut i: usize = 0;
        while i < self.names.len()
            invariant
                i <= self.names.len(),
                self.names.len() == other.names.len(),
                forall|j: int| 0 <= j < i ==> self.names@[j]@ == other.names@[j]@,
            decreases self.names.len() - i,
        {
            if self.names[i] != other.names[i] {
                proof {
                    assert(self.components()[i as int] != other.components()[i as int]);
                }
                return false;
            }
            i = i + 1;
        }
        proof {
            assert(self.components() =~= other.components());
        }
        true
    }
}

impl PartialEqSpecImpl for QualifiedName {
    open spec fn obeys_eq_spec() -> bool {
        true
    }

    open spec fn eq_spec(&self, other: &Self) -> bool {
        self.components() == other.components()
    }
}

impl Eq for QualifiedName {}

/// The display form of a name of one component is that component, and each
/// further component adds the delimiter and itself at the end.
pub proof fn lemma_joined_unfolds(parts: Seq<Seq<char>>, last: Seq<char>, sep: Seq<char>)
    ensures
        joined(seq![last], sep) == last,
        parts.len() > 0 ==> joined(parts.push(last), sep) == joined(parts, sep) + sep + last,
{
    if parts.len() > 0 {
        assert(parts.push(last).drop_last() =~= parts);
    }
}

} // verus!

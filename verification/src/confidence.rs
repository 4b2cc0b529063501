//! Values tagged with a confidence score, and the rules by which two such
//! values are merged.
//!
//! A merge keeps the operand with the strictly higher confidence. On a tie the
//! left operand stays: what the caller already holds wins over what was
//! computed afresh with the same certainty. Absence is an `Option`, never a
//! confidence of zero.

use vstd::prelude::*;

verus! {

/// A value together with how certain it is, from 0 (a guess) to 255 (certain).
#[derive(Debug, Hash)]
pub struct Conf<T> {
    pub contents: T,
    pub confidence: u8,
}

/// Merging of two confidence-tagged operands, either of which may be absent.
pub trait ConfMergable<T, O> {
    type Result;

    /// What `merge` returns.
    spec fn merged(self, other: O) -> Self::Result;

    /// Merge two confidence-tagged values, keeping whichever has the higher
    /// confidence. In the event of a tie the left (the caller's) value is kept.
    fn merge(self, other: O) -> (r: Self::Result)
        ensures
            r == self.merged(other),
    ;
}

/// The lowest confidence: the value is a guess.
#[inline]
pub fn min_confidence() -> (r: u8)
    ensures
        r == 0,
{
    u8::MIN
}

/// The highest confidence: the value is certain.
#[inline]
pub fn max_confidence() -> (r: u8)
    ensures
        r == 255,
{
    u8::MAX
}

impl<T> Conf<T> {
    pub fn new(contents: T, confidence: u8) -> (r: Self)
        ensures
            r == (Conf { contents, confidence }),
    {
        Self { contents, confidence }
    }

    /// Apply `f` to the contents and keep the confidence.
    pub fn map<U, F>(self, f: F) -> (r: Conf<U>) where F: FnOnce(T) -> U
        requires
            f.requires((self.contents,)),
        ensures
            r.confidence == self.confidence,
            f.ensures((self.contents,), r.contents),
    {
        Conf::new(f(self.contents), self.confidence)
    }

    /// The same tagged value, with the contents borrowed.
    pub fn as_ref(&self) -> (r: Conf<&T>)
        ensures
            r == (Conf { contents: &self.contents, confidence: self.confidence }),
    {
        Conf::new(&self.contents, self.confidence)
    }
}

/// `Conf<T>` + `Conf<T>`: the better value, the left one on a tie.
impl<T> ConfMergable<T, Conf<T>> for Conf<T> {
    type Result = Conf<T>;

    open spec fn merged(self, other: Conf<T>) -> Conf<T> {
        if other.confidence > self.confidence {
            other
        } else {
            self
        }
    }

    fn merge(self, other: Conf<T>) -> (r: Conf<T>) {
        if other.confidence > self.confidence {
            other
        } else {
            self
        }
    }
}

/// `Conf<T>` + `Option<Conf<T>>`: the left value if the right one is absent.
impl<T> ConfMergable<T, Option<Conf<T>>> for Conf<T> {
    type Result = Conf<T>;

    open spec fn merged(self, other: Option<Conf<T>>) -> Conf<T> {
        match other {
            Some(c) => if c.confidence > self.confidence {
                c
            } else {
                self
            },
            None => self,
        }
    }

    fn merge(self, other: Option<Conf<T>>) -> (r: Conf<T>) {
        match other {
            Some(c) => {
                if c.confidence > self.confidence {
                    c
                } else {
                    self
                }
            },
            None => self,
        }
    }
}

/// `Option<Conf<T>>` + `Conf<T>`: the right value if the left one is absent.
impl<T> ConfMergable<T, Conf<T>> for Option<Conf<T>> {
    type Result = Conf<T>;

    open spec fn merged(self, other: Conf<T>) -> Conf<T> {
        match self {
            Some(c) => if c.confidence >= other.confidence {
                c
            } else {
                other
            },
            None => other,
        }
    }

    fn merge(self, other: Conf<T>) -> (r: Conf<T>) {
        match self {
            Some(c) => {
                if c.confidence >= other.confidence {
                    c
                } else {
                    other
                }
            },
            None => other,
        }
    }
}

/// `Option<Conf<T>>` + `Option<Conf<T>>`: the better of the values that are
/// present, or nothing.
impl<T> ConfMergable<T, Option<Conf<T>>> for Option<Conf<T>> {
    type Result = Option<Conf<T>>;

    open spec fn merged(self, other: Option<Conf<T>>) -> Option<Conf<T>> {
        match (self, other) {
            (Some(this), Some(that)) => if this.confidence >= that.confidence {
                Some(this)
            } else {
                Some(that)
            },
            (None, Some(c)) => Some(c),
            (Some(c), None) => Some(c),
            (None, None) => None,
        }
    }

    fn merge(self, other: Option<Conf<T>>) -> (r: Option<Conf<T>>) {
        match (self, other) {
            (Some(this), Some(that)) => {
                if this.confidence >= that.confidence {
                    Some(this)
                } else {
                    Some(that)
                }
            },
            (None, Some(c)) => Some(c),
            (Some(c), None) => Some(c),
            (None, None) => None,
        }
    }
}

impl<T: Clone> Clone for Conf<T> {
    fn clone(&self) -> (r: Self)
        ensures
            r.confidence == self.confidence,
            cloned(self.contents, r.contents),
    {
        Self { contents: self.contents.clone(), confidence: self.confidence }
    }
}

/// A bare value is taken as certain.
impl<T> From<T> for Conf<T> {
    fn from(contents: T) -> (r: Self) {
        Self::new(contents, max_confidence())
    }
}

impl<T> vstd::std_specs::convert::FromSpecImpl<T> for Conf<T> {
    open spec fn obeys_from_spec() -> bool {
        true
    }

    open spec fn from_spec(contents: T) -> Self {
        Conf { contents, confidence: 255 }
    }
}

/// A borrowed tagged value is the tagged borrow of its contents.
impl<'a, T> From<&'a Conf<T>> for Conf<&'a T> {
    fn from(value: &'a Conf<T>) -> (r: Self) {
        value.as_ref()
    }
}

impl<'a, T> vstd::std_specs::convert::FromSpecImpl<&'a Conf<T>> for Conf<&'a T> {
    open spec fn obeys_from_spec() -> bool {
        true
    }

    open spec fn from_spec(value: &'a Conf<T>) -> Self {
        Conf { contents: &value.contents, confidence: value.confidence }
    }
}

/// A merge of two present values returns one of the two, and none of them is
/// more certain than it; on equal confidence it returns the left one.
pub proof fn lemma_merge_keeps_the_more_certain<T>(a: Conf<T>, b: Conf<T>)
    ensures
        a.merged(b) == a || a.merged(b) == b,
        a.merged(b).confidence >= a.confidence,
        a.merged(b).confidence >= b.confidence,
        b.confidence > a.confidence ==> a.merged(b) == b,
        b.confidence <= a.confidence ==> a.merged(b) == a,
        Some(a).merged(Some(b)) == Some(a.merged(b)),
        Some(a).merged(b) == a.merged(b),
        a.merged(Some(b)) == a.merged(b),
{
}

/// Merging a value with itself changes nothing.
pub proof fn lemma_merge_with_itself<T>(x: Conf<T>)
    ensures
        x.merged(x) == x,
        Some(x).merged(Some(x)) == Some(x),
        Some(x).merged(x) == x,
        x.merged(Some(x)) == x,
{
}

/// An absent operand yields the other one, whatever its confidence; two absent
/// operands yield nothing.
pub proof fn lemma_merge_with_absent<T>(x: Conf<T>)
    ensures
        Some(x).merged(None::<Conf<T>>) == Some(x),
        None::<Conf<T>>.merged(Some(x)) == Some(x),
        None::<Conf<T>>.merged(None::<Conf<T>>) == None::<Conf<T>>,
        x.merged(None::<Conf<T>>) == x,
        None::<Conf<T>>.merged(x) == x,
{
}

} // verus!

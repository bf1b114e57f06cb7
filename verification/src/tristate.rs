use core::cmp::Ordering;
use vstd::prelude::*;
use vstd::std_specs::cmp::{PartialEqSpec, PartialOrdSpec};

verus! {

/// A three-valued logic value equivalent to `Option<bool>`, with
/// structural, reflexive equality and the total order
/// `True < False < Unknown`.
#[derive(Debug, Clone, Copy, Eq, Ord)]
pub enum TriState {
    /// The tri-state value signifying definitive truth.
    True,
    /// The tri-state value signifying definitive falsity.
    False,
    /// The tri-state value signifying an unknown truth value.
    Unknown,
}

impl TriState {
    /// The `Option<bool>` encoding of this value.
    pub open spec fn as_option(self) -> Option<bool> {
        match self {
            TriState::True => Some(true),
            TriState::False => Some(false),
            TriState::Unknown => None,
        }
    }

    /// The value encoded by an `Option<bool>`.
    pub open spec fn of_option(b: Option<bool>) -> TriState {
        match b {
            Some(true) => TriState::True,
            Some(false) => TriState::False,
            None => TriState::Unknown,
        }
    }

    /// The position of this value in the order `True < False < Unknown`.
    pub open spec fn rank(self) -> int {
        match self {
            TriState::True => 0,
            TriState::False => 1,
            TriState::Unknown => 2,
        }
    }

    /// Is `self` equal to `True`?
    pub fn is_true(self) -> (r: bool)
        ensures
            r == (self is True),
    {
        self == TriState::True
    }

    /// Is `self` equal to `False`?
    pub fn is_false(self) -> (r: bool)
        ensures
            r == (self is False),
    {
        self == TriState::False
    }

    /// Is `self` equal to `Unknown`?
    pub fn is_unknown(self) -> (r: bool)
        ensures
            r == (self is Unknown),
    {
        self == TriState::Unknown
    }

    /// Converts `self` to an `Option<bool>`. Equivalent to
    /// `Option::<bool>::from(self)`.
    pub fn to_bool(self) -> (r: Option<bool>)
        ensures
            r == self.as_option(),
    {
        match self {
            TriState::True => Some(true),
            TriState::False => Some(false),
            TriState::Unknown => None,
        }
    }
}

impl PartialEq for TriState {
    fn eq(&self, other: &TriState) -> (r: bool) {
        match (self, other) {
            (TriState::True, TriState::True) => true,
            (TriState::False, TriState::False) => true,
            (TriState::Unknown, TriState::Unknown) => true,
            _ => false,
        }
    }
}

impl vstd::std_specs::cmp::PartialEqSpecImpl for TriState {
    open spec fn obeys_eq_spec() -> bool {
        true
    }

    open spec fn eq_spec(&self, other: &TriState) -> bool {
        *self == *other
    }
}

impl PartialOrd for TriState {
    fn partial_cmp(&self, other: &TriState) -> (r: Option<Ordering>) {
        match (self, other) {
            (TriState::True, TriState::True) => Some(Ordering::Equal),
            (TriState::True, _) => Some(Ordering::Less),
            (TriState::False, TriState::True) => Some(Ordering::Greater),
            (TriState::False, TriState::False) => Some(Ordering::Equal),
            (TriState::False, TriState::Unknown) => Some(Ordering::Less),
            (TriState::Unknown, TriState::Unknown) => Some(Ordering::Equal),
            (TriState::Unknown, _) => Some(Ordering::Greater),
        }
    }
}

impl vstd::std_specs::cmp::PartialOrdSpecImpl for TriState {
    open spec fn obeys_partial_cmp_spec() -> bool {
        true
    }

    open spec fn partial_cmp_spec(&self, other: &TriState) -> Option<Ordering> {
        if self.rank() < other.rank() {
            Some(Ordering::Less)
        } else if self.rank() == other.rank() {
            Some(Ordering::Equal)
        } else {
            Some(Ordering::Greater)
        }
    }
}

impl From<TriState> for Option<bool> {
    fn from(t: TriState) -> (r: Option<bool>) {
        t.to_bool()
    }
}

impl vstd::std_specs::convert::FromSpecImpl<TriState> for Option<bool> {
    open spec fn obeys_from_spec() -> bool {
        true
    }

    open spec fn from_spec(t: TriState) -> Option<bool> {
        t.as_option()
    }
}

impl From<Option<bool>> for TriState {
    fn from(b: Option<bool>) -> (r: TriState) {
        match b {
            Some(true) => TriState::True,
            Some(false) => TriState::False,
            None => TriState::Unknown,
        }
    }
}

impl vstd::std_specs::convert::FromSpecImpl<Option<bool>> for TriState {
    open spec fn obeys_from_spec() -> bool {
        true
    }

    open spec fn from_spec(b: Option<bool>) -> TriState {
        TriState::of_option(b)
    }
}

impl From<bool> for TriState {
    fn from(b: bool) -> (r: TriState) {
        match b {
            true => TriState::True,
            false => TriState::False,
        }
    }
}

impl vstd::std_specs::convert::FromSpecImpl<bool> for TriState {
    open spec fn obeys_from_spec() -> bool {
        true
    }

    open spec fn from_spec(b: bool) -> TriState {
        if b {
            TriState::True
        } else {
            TriState::False
        }
    }
}

impl Default for TriState {
    fn default() -> (r: TriState)
        ensures
            r is Unknown,
    {
        TriState::Unknown
    }
}

/// The `Option<bool>` encoding is lossless: decoding the encoding of any
/// value yields the value itself.
pub proof fn lemma_tristate_roundtrip(t: TriState)
    ensures
        TriState::of_option(t.as_option()) == t,
{
}

/// Exactly one of the three truth predicates holds of any value.
pub proof fn lemma_tristate_exactly_one_predicate(t: TriState)
    ensures
        (t is True) || (t is False) || (t is Unknown),
        t is True ==> t !is False && t !is Unknown,
        t is False ==> t !is True && t !is Unknown,
        t is Unknown ==> t !is True && t !is False,
{
}

/// Equality is an equivalence relation: reflexive, symmetric and
/// transitive; in particular `Unknown == Unknown` holds.
pub proof fn lemma_tristate_eq_equivalence(a: TriState, b: TriState, c: TriState)
    ensures
        a.eq_spec(&a),
        a.eq_spec(&b) ==> b.eq_spec(&a),
        a.eq_spec(&b) && b.eq_spec(&c) ==> a.eq_spec(&c),
        TriState::Unknown.eq_spec(&TriState::Unknown),
{
}

/// The order is total, places `True < False < Unknown`, and agrees with
/// equality: two values compare as equal exactly when they are equal.
pub proof fn lemma_tristate_order_total(a: TriState, b: TriState)
    ensures
        a.partial_cmp_spec(&b) == Some(Ordering::Less) <==> a.rank() < b.rank(),
        a.partial_cmp_spec(&b) == Some(Ordering::Equal) <==> a.rank() == b.rank(),
        a.partial_cmp_spec(&b) == Some(Ordering::Greater) <==> a.rank() > b.rank(),
        a.partial_cmp_spec(&b) == Some(Ordering::Equal) <==> a.eq_spec(&b),
        TriState::True.rank() < TriState::False.rank(),
        TriState::False.rank() < TriState::Unknown.rank(),
{
}

} // verus!

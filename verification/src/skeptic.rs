use core::cmp::Ordering;
use vstd::prelude::*;
use vstd::std_specs::cmp::{PartialEqSpec, PartialOrdSpec};

verus! {

/// A three-valued logic value equivalent to `Option<bool>`, with an
/// epistemically skeptical, non-reflexive equality: an `Unknown` value is
/// never equal to anything, not even to another `Unknown`, since two
/// unknowns need not be the same unresolved fact.
///
/// A total order `True < False < Unknown` over the discriminants exists
/// beside that equality, and is deliberately inconsistent with it: two
/// `Unknown` values compare as `Equal` under the ordering while `==` on
/// them is `false`.
#[derive(Debug, Clone, Copy, Eq, Ord)]
pub enum Skeptic {
    /// The tri-state value signifying definitive truth.
    True,
    /// The tri-state value signifying definitive falsity.
    False,
    /// The tri-state value signifying an unknown truth value.
    Unknown,
}

impl Skeptic {
    /// The `Option<bool>` encoding of this value.
    pub open spec fn as_option(self) -> Option<bool> {
        match self {
            Skeptic::True => Some(true),
            Skeptic::False => Some(false),
            Skeptic::Unknown => None,
        }
    }

    /// The value encoded by an `Option<bool>`.
    pub open spec fn of_option(b: Option<bool>) -> Skeptic {
        match b {
            Some(true) => Skeptic::True,
            Some(false) => Skeptic::False,
            None => Skeptic::Unknown,
        }
    }

    /// The position of this value in the order `True < False < Unknown`.
    pub open spec fn rank(self) -> int {
        match self {
            Skeptic::True => 0,
            Skeptic::False => 1,
            Skeptic::Unknown => 2,
        }
    }

    /// The skeptical equality relation: two values are equal exactly when
    /// both are `True` or both are `False`; `Unknown` equals nothing.
    pub open spec fn skeptical_eq(self, other: Skeptic) -> bool {
        match self {
            Skeptic::True => other is True,
            Skeptic::False => other is False,
            Skeptic::Unknown => false,
        }
    }

    /// Is `self` equal to `True`?
    pub fn is_true(self) -> (r: bool)
        ensures
            r == (self is True),
    {
        self == Skeptic::True
    }

    /// Is `self` equal to `False`?
    pub fn is_false(self) -> (r: bool)
        ensures
            r == (self is False),
    {
        self == Skeptic::False
    }

    /// Is `self` equal to `Unknown`?
    ///
    /// This predicate inspects the discriminant, so it returns `true` on
    /// `Unknown` even though `Unknown == Skeptic::Unknown` is `false`.
    pub fn is_unknown(self) -> (r: bool)
        ensures
            r == (self is Unknown),
    {
        match self {
            Skeptic::Unknown => true,
            _ => false,
        }
    }

    /// Converts `self` to an `Option<bool>`. Equivalent to
    /// `Option::<bool>::from(self)`.
    pub fn to_bool(self) -> (r: Option<bool>)
        ensures
            r == self.as_option(),
    {
        match self {
            Skeptic::True => Some(true),
            Skeptic::False => Some(false),
            Skeptic::Unknown => None,
        }
    }
}

impl PartialEq for Skeptic {
    fn eq(&self, other: &Skeptic) -> (r: bool) {
        match (self, other) {
            (Skeptic::True, Skeptic::True) => true,
            (Skeptic::False, Skeptic::False) => true,
            _ => false,
        }
    }
}

impl vstd::std_specs::cmp::PartialEqSpecImpl for Skeptic {
    open spec fn obeys_eq_spec() -> bool {
        true
    }

    open spec fn eq_spec(&self, other: &Skeptic) -> bool {
        self.skeptical_eq(*other)
    }
}

impl PartialOrd for Skeptic {
    fn partial_cmp(&self, other: &Skeptic) -> (r: Option<Ordering>) {
        match (self, other) {
            (Skeptic::True, Skeptic::True) => Some(Ordering::Equal),
            (Skeptic::True, _) => Some(Ordering::Less),
            (Skeptic::False, Skeptic::True) => Some(Ordering::Greater),
            (Skeptic::False, Skeptic::False) => Some(Ordering::Equal),
            (Skeptic::False, Skeptic::Unknown) => Some(Ordering::Less),
            (Skeptic::Unknown, Skeptic::Unknown) => Some(Ordering::Equal),
            (Skeptic::Unknown, _) => Some(Ordering::Greater),
        }
    }
}

impl vstd::std_specs::cmp::PartialOrdSpecImpl for Skeptic {
    open spec fn obeys_partial_cmp_spec() -> bool {
        true
    }

    open spec fn partial_cmp_spec(&self, other: &Skeptic) -> Option<Ordering> {
        if self.rank() < other.rank() {
            Some(Ordering::Less)
        } else if self.rank() == other.rank() {
            Some(Ordering::Equal)
        } else {
            Some(Ordering::Greater)
        }
    }
}

impl From<Skeptic> for Option<bool> {
    fn from(t: Skeptic) -> (r: Option<bool>) {
        t.to_bool()
    }
}

impl vstd::std_specs::convert::FromSpecImpl<Skeptic> for Option<bool> {
    open spec fn obeys_from_spec() -> bool {
        true
    }

    open spec fn from_spec(t: Skeptic) -> Option<bool> {
        t.as_option()
    }
}

impl From<Option<bool>> for Skeptic {
    fn from(b: Option<bool>) -> (r: Skeptic) {
        match b {
            Some(true) => Skeptic::True,
            Some(false) => Skeptic::False,
            None => Skeptic::Unknown,
        }
    }
}

impl vstd::std_specs::convert::FromSpecImpl<Option<bool>> for Skeptic {
    open spec fn obeys_from_spec() -> bool {
        true
    }

    open spec fn from_spec(b: Option<bool>) -> Skeptic {
        Skeptic::of_option(b)
    }
}

impl From<bool> for Skeptic {
    fn from(b: bool) -> (r: Skeptic) {
        match b {
            true => Skeptic::True,
            false => Skeptic::False,
        }
    }
}

impl vstd::std_specs::convert::FromSpecImpl<bool> for Skeptic {
    open spec fn obeys_from_spec() -> bool {
        true
    }

    open spec fn from_spec(b: bool) -> Skeptic {
        if b {
            Skeptic::True
        } else {
            Skeptic::False
        }
    }
}

impl Default for Skeptic {
    fn default() -> (r: Skeptic)
        ensures
            r is Unknown,
    {
        Skeptic::Unknown
    }
}

/// The `Option<bool>` encoding is lossless: decoding the encoding of any
/// value yields the value itself.
pub proof fn lemma_skeptic_roundtrip(t: Skeptic)
    ensures
        Skeptic::of_option(t.as_option()) == t,
{
}

/// Exactly one of the three truth predicates holds of any value.
pub proof fn lemma_skeptic_exactly_one_predicate(t: Skeptic)
    ensures
        (t is True) || (t is False) || (t is Unknown),
        t is True ==> t !is False && t !is Unknown,
        t is False ==> t !is True && t !is Unknown,
        t is Unknown ==> t !is True && t !is False,
{
}

/// Skeptical equality holds exactly of two `True`s or two `False`s, so it
/// is symmetric but not reflexive: `Unknown` is the counterexample, being
/// unequal even to itself.
pub proof fn lemma_skeptic_eq_characterization(a: Skeptic, b: Skeptic)
    ensures
        a.eq_spec(&b) <==> ((a is True && b is True) || (a is False && b is False)),
        a.eq_spec(&b) ==> b.eq_spec(&a),
        !Skeptic::Unknown.eq_spec(&Skeptic::Unknown),
{
}

/// The order is total over the discriminants and places
/// `True < False < Unknown`. It is deliberately inconsistent with the
/// skeptical equality: two `Unknown`s compare as `Equal` under the
/// ordering, yet are unequal under `==`.
pub proof fn lemma_skeptic_order_total(a: Skeptic, b: Skeptic)
    ensures
        a.partial_cmp_spec(&b) == Some(Ordering::Less) <==> a.rank() < b.rank(),
        a.partial_cmp_spec(&b) == Some(Ordering::Equal) <==> a.rank() == b.rank(),
        a.partial_cmp_spec(&b) == Some(Ordering::Greater) <==> a.rank() > b.rank(),
        a.eq_spec(&b) ==> a.partial_cmp_spec(&b) == Some(Ordering::Equal),
        Skeptic::True.rank() < Skeptic::False.rank(),
        Skeptic::False.rank() < Skeptic::Unknown.rank(),
        Skeptic::Unknown.partial_cmp_spec(&Skeptic::Unknown) == Some(Ordering::Equal),
        !Skeptic::Unknown.eq_spec(&Skeptic::Unknown),
{
}

} // verus!

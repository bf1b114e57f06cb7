use vstd::prelude::*;

verus! {

/// A three-valued logic value equivalent to `Option<bool>`, in the
/// Kleene tradition, that deliberately exposes no equality and no
/// ordering operation: the absence is the contract. Consumers compare
/// values through the truth predicates or the `Option<bool>` encoding,
/// so the handling of `Unknown` is always explicit.
#[derive(Debug, Clone, Copy)]
pub enum Kleene {
    /// The tri-state value signifying definitive truth.
    True,
    /// The tri-state value signifying definitive falsity.
    False,
    /// The tri-state value signifying an unknown truth value.
    Unknown,
}

impl Kleene {
    /// The `Option<bool>` encoding of this value.
    pub open spec fn as_option(self) -> Option<bool> {
        match self {
            Kleene::True => Some(true),
            Kleene::False => Some(false),
            Kleene::Unknown => None,
        }
    }

    /// The value encoded by an `Option<bool>`.
    pub open spec fn of_option(b: Option<bool>) -> Kleene {
        match b {
            Some(true) => Kleene::True,
            Some(false) => Kleene::False,
            None => Kleene::Unknown,
        }
    }

    /// Is `self` equal to `True`?
    pub fn is_true(self) -> (r: bool)
        ensures
            r == (self is True),
    {
        match self {
            Kleene::True => true,
            _ => false,
        }
    }

    /// Is `self` equal to `False`?
    pub fn is_false(self) -> (r: bool)
        ensures
            r == (self is False),
    {
        match self {
            Kleene::False => true,
            _ => false,
        }
    }

    /// Is `self` equal to `Unknown`?
    pub fn is_unknown(self) -> (r: bool)
        ensures
            r == (self is Unknown),
    {
        match self {
            Kleene::Unknown => true,
            _ => false,
        }
    }

    /// Converts `self` to an `Option<bool>`. Equivalent to
    /// `Option::<bool>::from(self)`.
    pub fn to_bool(self) -> (r: Option<bool>)
        ensures
            r == self.as_option(),
    {
        match self {
            Kleene::True => Some(true),
            Kleene::False => Some(false),
            Kleene::Unknown => None,
        }
    }
}

impl From<Kleene> for Option<bool> {
    fn from(t: Kleene) -> (r: Option<bool>) {
        t.to_bool()
    }
}

impl vstd::std_specs::convert::FromSpecImpl<Kleene> for Option<bool> {
    open spec fn obeys_from_spec() -> bool {
        true
    }

    open spec fn from_spec(t: Kleene) -> Option<bool> {
        t.as_option()
    }
}

impl From<Option<bool>> for Kleene {
    fn from(b: Option<bool>) -> (r: Kleene) {
        match b {
            Some(true) => Kleene::True,
            Some(false) => Kleene::False,
            None => Kleene::Unknown,
        }
    }
}

impl vstd::std_specs::convert::FromSpecImpl<Option<bool>> for Kleene {
    open spec fn obeys_from_spec() -> bool {
        true
    }

    open spec fn from_spec(b: Option<bool>) -> Kleene {
        Kleene::of_option(b)
    }
}

impl From<bool> for Kleene {
    fn from(b: bool) -> (r: Kleene) {
        match b {
            true => Kleene::True,
            false => Kleene::False,
        }
    }
}

impl vstd::std_specs::convert::FromSpecImpl<bool> for Kleene {
    open spec fn obeys_from_spec() -> bool {
        true
    }

    open spec fn from_spec(b: bool) -> Kleene {
        if b {
            Kleene::True
        } else {
            Kleene::False
        }
    }
}

impl Default for Kleene {
    fn default() -> (r: Kleene)
        ensures
            r is Unknown,
    {
        Kleene::Unknown
    }
}

/// The `Option<bool>` encoding is lossless: decoding the encoding of any
/// value yields the value itself.
pub proof fn lemma_kleene_roundtrip(t: Kleene)
    ensures
        Kleene::of_option(t.as_option()) == t,
{
}

/// Exactly one of the three truth predicates holds of any value.
pub proof fn lemma_kleene_exactly_one_predicate(t: Kleene)
    ensures
        (t is True) || (t is False) || (t is Unknown),
        t is True ==> t !is False && t !is Unknown,
        t is False ==> t !is True && t !is Unknown,
        t is Unknown ==> t !is True && t !is False,
{
}

} // verus!

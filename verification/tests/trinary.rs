use std::cmp::Ordering;

use trinary::{Kleene, Skeptic, TriState};

#[test]
fn tristate_from_bool() {
    assert!(TriState::from(true).is_true());
    assert!(TriState::from(false).is_false());
}

#[test]
fn tristate_default_is_unknown() {
    assert!(TriState::default().is_unknown());
}

#[test]
fn tristate_to_bool() {
    assert_eq!(TriState::True.to_bool(), Some(true));
    assert_eq!(TriState::False.to_bool(), Some(false));
    assert_eq!(TriState::Unknown.to_bool(), None);
    assert_eq!(Option::<bool>::from(TriState::True), Some(true));
    assert_eq!(Option::<bool>::from(TriState::False), Some(false));
    assert_eq!(Option::<bool>::from(TriState::Unknown), None);
}

#[test]
fn tristate_roundtrip() {
    for v in [TriState::True, TriState::False, TriState::Unknown] {
        assert_eq!(TriState::from(v.to_bool()), v);
    }
}

#[test]
fn tristate_exactly_one_predicate() {
    for v in [TriState::True, TriState::False, TriState::Unknown] {
        let mut n: u32 = 0;
        if v.is_true() {
            n += 1;
        }
        if v.is_false() {
            n += 1;
        }
        if v.is_unknown() {
            n += 1;
        }
        assert_eq!(n, 1);
    }
}

#[test]
fn tristate_eq_is_equivalence() {
    let vals = [TriState::True, TriState::False, TriState::Unknown];
    for a in vals {
        assert!(a == a);
        for b in vals {
            assert_eq!(a == b, b == a);
            for c in vals {
                if a == b && b == c {
                    assert!(a == c);
                }
            }
        }
    }
    assert!(TriState::Unknown == TriState::Unknown);
    assert!(TriState::from(None) == TriState::from(None));
}

#[test]
fn tristate_order_consistent_with_eq() {
    assert!(TriState::True < TriState::False);
    assert!(TriState::False < TriState::Unknown);
    assert!(TriState::True < TriState::Unknown);
    let vals = [TriState::True, TriState::False, TriState::Unknown];
    for a in vals {
        for b in vals {
            assert_eq!(a == b, a.partial_cmp(&b) == Some(Ordering::Equal));
            assert_eq!(a.partial_cmp(&b), Some(a.cmp(&b)));
        }
    }
}

#[test]
fn kleene_from_bool() {
    assert!(Kleene::from(true).is_true());
    assert!(Kleene::from(false).is_false());
}

#[test]
fn kleene_default_is_unknown() {
    assert!(Kleene::default().is_unknown());
}

#[test]
fn kleene_to_bool() {
    assert_eq!(Kleene::True.to_bool(), Some(true));
    assert_eq!(Kleene::False.to_bool(), Some(false));
    assert_eq!(Kleene::Unknown.to_bool(), None);
    assert_eq!(Option::<bool>::from(Kleene::True), Some(true));
    assert_eq!(Option::<bool>::from(Kleene::False), Some(false));
    assert_eq!(Option::<bool>::from(Kleene::Unknown), None);
}

#[test]
fn kleene_roundtrip() {
    for v in [Kleene::True, Kleene::False, Kleene::Unknown] {
        let back = Kleene::from(v.to_bool());
        assert_eq!(back.is_true(), v.is_true());
        assert_eq!(back.is_false(), v.is_false());
        assert_eq!(back.is_unknown(), v.is_unknown());
    }
}

#[test]
fn kleene_exactly_one_predicate() {
    for v in [Kleene::True, Kleene::False, Kleene::Unknown] {
        let mut n: u32 = 0;
        if v.is_true() {
            n += 1;
        }
        if v.is_false() {
            n += 1;
        }
        if v.is_unknown() {
            n += 1;
        }
        assert_eq!(n, 1);
    }
}

#[test]
fn skeptic_from_bool() {
    assert!(Skeptic::from(true).is_true());
    assert!(Skeptic::from(false).is_false());
}

#[test]
fn skeptic_default_is_unknown() {
    assert!(Skeptic::default().is_unknown());
}

#[test]
fn skeptic_to_bool() {
    assert_eq!(Skeptic::True.to_bool(), Some(true));
    assert_eq!(Skeptic::False.to_bool(), Some(false));
    assert_eq!(Skeptic::Unknown.to_bool(), None);
    assert_eq!(Option::<bool>::from(Skeptic::True), Some(true));
    assert_eq!(Option::<bool>::from(Skeptic::False), Some(false));
    assert_eq!(Option::<bool>::from(Skeptic::Unknown), None);
}

#[test]
fn skeptic_roundtrip() {
    for v in [Skeptic::True, Skeptic::False, Skeptic::Unknown] {
        let back = Skeptic::from(v.to_bool());
        assert_eq!(back.is_true(), v.is_true());
        assert_eq!(back.is_false(), v.is_false());
        assert_eq!(back.is_unknown(), v.is_unknown());
    }
}

#[test]
fn skeptic_exactly_one_predicate() {
    for v in [Skeptic::True, Skeptic::False, Skeptic::Unknown] {
        let mut n: u32 = 0;
        if v.is_true() {
            n += 1;
        }
        if v.is_false() {
            n += 1;
        }
        if v.is_unknown() {
            n += 1;
        }
        assert_eq!(n, 1);
    }
}

#[test]
fn skeptic_eq_is_not_reflexive() {
    assert!(Skeptic::True == Skeptic::True);
    assert!(Skeptic::False == Skeptic::False);
    assert!(Skeptic::True != Skeptic::False);
    assert!(Skeptic::False != Skeptic::True);
    assert!(Skeptic::Unknown != Skeptic::Unknown);
    assert!(Skeptic::Unknown != Skeptic::True);
    assert!(Skeptic::Unknown != Skeptic::False);
    assert!(Skeptic::True != Skeptic::Unknown);
    assert!(Skeptic::False != Skeptic::Unknown);
    let u = Skeptic::Unknown;
    assert!(u != u);
}

#[test]
fn skeptic_order_total_despite_eq() {
    assert!(Skeptic::True < Skeptic::False);
    assert!(Skeptic::False < Skeptic::Unknown);
    assert!(Skeptic::True < Skeptic::Unknown);
    let vals = [Skeptic::True, Skeptic::False, Skeptic::Unknown];
    for a in vals {
        for b in vals {
            assert_eq!(a.partial_cmp(&b), Some(a.cmp(&b)));
        }
    }
    assert_eq!(
        Skeptic::Unknown.partial_cmp(&Skeptic::Unknown),
        Some(Ordering::Equal)
    );
    assert!(Skeptic::Unknown != Skeptic::Unknown);
}

#[test]
fn concrete_examples() {
    assert_eq!(TriState::from(Some(true)).to_bool(), Some(true));
    assert!(TriState::from(None).is_unknown());
    assert_eq!(Kleene::from(Some(true)).to_bool(), Some(true));
    assert!(Kleene::from(None).is_unknown());
    assert_eq!(Skeptic::from(Some(true)).to_bool(), Some(true));
    assert!(Skeptic::from(None).is_unknown());
    assert!(TriState::from(None) == TriState::from(None));
    assert!(Skeptic::from(None) != Skeptic::from(None));
}

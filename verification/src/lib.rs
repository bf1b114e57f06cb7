//! Value types for three-valued (tri-state) logic.
//!
//! Three structurally identical enumerations over the truth values
//! True, False and Unknown are provided, differing only in their
//! equality and ordering semantics:
//!
//! - [`TriState`]: structural, reflexive equality (`Unknown == Unknown`
//!   is `true`) and a total order `True < False < Unknown`.
//! - [`Kleene`]: deliberately no equality and no ordering at all;
//!   consumers compare through the predicates or the `Option<bool>`
//!   encoding, handling the unknown case explicitly.
//! - [`Skeptic`]: non-reflexive equality — an `Unknown` value equals
//!   nothing, not even another `Unknown` — beside a total order that
//!   still ranks two `Unknown`s as equal.
//!
//! The three types are intentionally distinct so that the chosen
//! semantics for "unknown" is visible at the type level and can never
//! be mixed up at a call site.

mod kleene;
mod skeptic;
mod tristate;

pub use kleene::lemma_kleene_exactly_one_predicate;
pub use kleene::lemma_kleene_roundtrip;
pub use kleene::Kleene;
pub use skeptic::lemma_skeptic_eq_characterization;
pub use skeptic::lemma_skeptic_exactly_one_predicate;
pub use skeptic::lemma_skeptic_order_total;
pub use skeptic::lemma_skeptic_roundtrip;
pub use skeptic::Skeptic;
pub use tristate::lemma_tristate_eq_equivalence;
pub use tristate::lemma_tristate_exactly_one_predicate;
pub use tristate::lemma_tristate_order_total;
pub use tristate::lemma_tristate_roundtrip;
pub use tristate::TriState;

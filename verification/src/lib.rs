//! In-process reactive cells: each cell owns a value together with bound
//! side-effect callbacks ("effects") and runs those effects, synchronously and
//! in binding order, whenever the value is changed through an effectful
//! operation. Silent writes and plain destruction never run effects.

mod cell;
mod effect;
mod ordered;
mod single;

pub use cell::EffectCell;
pub use cell::lemma_effectful_writes_agree;
pub use cell::lemma_eq_ignores_effects;
pub use effect::Effect;
pub use effect::Recorder;
pub use effect::Tally;
pub use effect::histories_extended;
pub use effect::histories_match;
pub use effect::pass_log;
pub use effect::lemma_pass_in_registration_order;
pub use ordered::EffectOrder;
pub use ordered::OrderedEffectCell;
pub use ordered::lemma_ordered_effectful_writes_agree;
pub use ordered::lemma_ordered_eq_ignores_effects;
pub use ordered::tagged_pass_log;
pub use single::SingleEffectCell;

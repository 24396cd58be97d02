use vstd::prelude::*;

use crate::effect::Effect;
use crate::effect::histories_extended;
use crate::effect::histories_match;
use crate::effect::pass_log;
use crate::effect::run_registry;
use vstd::std_specs::cmp::PartialEqSpec;
use vstd::std_specs::cmp::PartialOrdSpec;

verus! {

/// A container that runs one or many effects on data mutation. Effects run
/// after the data is updated, each observing the new value, in the order they
/// were bound.
pub struct EffectCell<T, E: Effect<T>> {
    data: T,
    effects: Vec<E>,
    trace: Ghost<Seq<(int, T)>>,
}

impl<T, E: Effect<T>> EffectCell<T, E> {
    /// The stored value.
    pub closed spec fn value(&self) -> T {
        self.data
    }

    /// The bound effects, in binding order.
    pub closed spec fn effects_seq(&self) -> Seq<E> {
        self.effects@
    }

    /// The invocation trace: one entry `(i, v)` per invocation the cell has
    /// made so far, naming the registry index invoked and the value it was
    /// shown, in invocation order.
    pub closed spec fn trace(&self) -> Seq<(int, T)> {
        self.trace@
    }

    /// One full pass over the registry at the current value: every bound
    /// effect observed `pre.value()` exactly once, in registration order, and
    /// the value did not change.
    pub open spec fn notified(pre: Self, post: Self) -> bool {
        &&& post.value() == pre.value()
        &&& histories_extended(pre.effects_seq(), post.effects_seq(), pre.value())
        &&& post.trace() == pre.trace() + pass_log(pre.effects_seq().len(), pre.value())
    }

    /// An effectful write of `v`: the value becomes `v`, then one full pass
    /// runs, every bound effect observing `v` exactly once, in registration
    /// order.
    pub open spec fn wrote(pre: Self, post: Self, v: T) -> bool {
        &&& post.value() == v
        &&& histories_extended(pre.effects_seq(), post.effects_seq(), v)
        &&& post.trace() == pre.trace() + pass_log(pre.effects_seq().len(), v)
    }

    /// Create a new [`EffectCell`] with the provided data and no effects.
    pub fn new(data: T) -> (r: Self)
        ensures
            r.value() == data,
            r.effects_seq() == Seq::<E>::empty(),
            r.trace() == Seq::<(int, T)>::empty(),
    {
        EffectCell { data, effects: Vec::new(), trace: Ghost(Seq::empty()) }
    }

    /// Returns the stored data without invoking any effect.
    pub fn into_inner(self) -> (r: T)
        ensures
            r == self.value(),
    {
        self.data
    }

    /// Returns the stored data and the bound effects without invoking any
    /// effect.
    pub fn into_parts(self) -> (r: (T, Vec<E>))
        ensures
            r.0 == self.value(),
            r.1@ == self.effects_seq(),
    {
        (self.data, self.effects)
    }

    /// Binds a new effect to the [`EffectCell`]; it is appended behind every
    /// effect bound earlier and persists for the cell's lifetime.
    pub fn bind(&mut self, effect: E)
        ensures
            final(self).value() == old(self).value(),
            final(self).effects_seq() == old(self).effects_seq().push(effect),
            final(self).trace() == old(self).trace(),
    {
        self.effects.push(effect);
    }

    /// Runs all effects with the current data, in binding order.
    pub fn call(&mut self)
        ensures
            Self::notified(*old(self), *final(self)),
    {
        run_registry(&mut self.effects, &self.data);
        self.trace = Ghost(self.trace@ + pass_log(self.effects@.len(), self.data));
    }

    /// Consume the [`EffectCell`] and perform all effects once with the
    /// current data. This is the only way to guarantee the effects fire when
    /// the cell is no longer needed: dropping the cell performs no effects.
    ///
    /// The returned ghost snapshot is the cell's state after that final pass.
    pub fn consume(self) -> (r: Ghost<Self>)
        ensures
            Self::notified(self, r@),
    {
        let mut this = self;
        this.call();
        let ghost post = this;
        Ghost(post)
    }

    /// Updates the inner value and runs the effects, which observe the new
    /// value.
    pub fn update(&mut self, new: T)
        ensures
            Self::wrote(*old(self), *final(self), new),
    {
        self.data = new;
        self.call();
    }

    /// Updates the inner value using the provided function and runs the
    /// effects, which observe the new value.
    pub fn update_lambda<F: Fn(&T) -> T>(&mut self, lambda: F)
        requires
            call_requires(lambda, (&old(self).value(),)),
        ensures
            call_ensures(lambda, (&old(self).value(),), final(self).value()),
            Self::wrote(*old(self), *final(self), final(self).value()),
    {
        let v = lambda(&self.data);
        self.data = v;
        self.call();
    }

    /// Updates the inner value without running any effects.
    pub fn set(&mut self, new: T)
        ensures
            final(self).value() == new,
            final(self).effects_seq() == old(self).effects_seq(),
            final(self).trace() == old(self).trace(),
    {
        self.data = new;
    }

    /// Updates the inner value using the provided function without running
    /// any effects.
    pub fn set_lambda<F: Fn(&T) -> T>(&mut self, lambda: F)
        requires
            call_requires(lambda, (&old(self).value(),)),
        ensures
            call_ensures(lambda, (&old(self).value(),), final(self).value()),
            final(self).effects_seq() == old(self).effects_seq(),
            final(self).trace() == old(self).trace(),
    {
        let v = lambda(&self.data);
        self.data = v;
    }
}

impl<E: Effect<u64>> EffectCell<u64, E> {
    /// Add-assign passthrough: adds `other` to the value, then runs all
    /// effects with the sum.
    pub fn add_assign(&mut self, other: u64)
        requires
            old(self).value() + other <= u64::MAX,
        ensures
            Self::wrote(*old(self), *final(self), (old(self).value() + other) as u64),
    {
        let v = self.data + other;
        self.update(v);
    }

    /// Sub-assign passthrough: subtracts `other` from the value, then runs
    /// all effects with the difference.
    pub fn sub_assign(&mut self, other: u64)
        requires
            other <= old(self).value(),
        ensures
            Self::wrote(*old(self), *final(self), (old(self).value() - other) as u64),
    {
        let v = self.data - other;
        self.update(v);
    }

    /// Mul-assign passthrough: multiplies the value by `other`, then runs all
    /// effects with the product.
    pub fn mul_assign(&mut self, other: u64)
        requires
            old(self).value() * other <= u64::MAX,
        ensures
            Self::wrote(*old(self), *final(self), (old(self).value() * other) as u64),
    {
        let v = self.data * other;
        self.update(v);
    }

    /// Div-assign passthrough: divides the value by `other`, then runs all
    /// effects with the quotient.
    pub fn div_assign(&mut self, other: u64)
        requires
            other != 0,
        ensures
            Self::wrote(*old(self), *final(self), (old(self).value() / other) as u64),
    {
        let v = self.data / other;
        self.update(v);
    }

    /// Rem-assign passthrough: reduces the value modulo `other`, then runs
    /// all effects with the remainder.
    pub fn rem_assign(&mut self, other: u64)
        requires
            other != 0,
        ensures
            Self::wrote(*old(self), *final(self), (old(self).value() % other) as u64),
    {
        let v = self.data % other;
        self.update(v);
    }

    /// Shl-assign passthrough: shifts the value left by `other` bits, then
    /// runs all effects with the shifted value.
    pub fn shl_assign(&mut self, other: u64)
        requires
            other < u64::BITS,
        ensures
            Self::wrote(*old(self), *final(self), old(self).value() << other),
    {
        let v = self.data << other;
        self.update(v);
    }

    /// Shr-assign passthrough: shifts the value right by `other` bits, then
    /// runs all effects with the shifted value.
    pub fn shr_assign(&mut self, other: u64)
        requires
            other < u64::BITS,
        ensures
            Self::wrote(*old(self), *final(self), old(self).value() >> other),
    {
        let v = self.data >> other;
        self.update(v);
    }

    /// BitAnd-assign passthrough: replaces the value by its bitwise and with
    /// `other`, then runs all effects with the result.
    pub fn bitand_assign(&mut self, other: u64)
        ensures
            Self::wrote(*old(self), *final(self), old(self).value() & other),
    {
        let v = self.data & other;
        self.update(v);
    }

    /// BitOr-assign passthrough: replaces the value by its bitwise or with
    /// `other`, then runs all effects with the result.
    pub fn bitor_assign(&mut self, other: u64)
        ensures
            Self::wrote(*old(self), *final(self), old(self).value() | other),
    {
        let v = self.data | other;
        self.update(v);
    }

    /// BitXor-assign passthrough: replaces the value by its bitwise xor with
    /// `other`, then runs all effects with the result.
    pub fn bitxor_assign(&mut self, other: u64)
        ensures
            Self::wrote(*old(self), *final(self), old(self).value() ^ other),
    {
        let v = self.data ^ other;
        self.update(v);
    }
}

impl<T: PartialEq, E: Effect<T>> PartialEq for EffectCell<T, E> {
    fn eq(&self, other: &Self) -> (r: bool) {
        self.data.eq(&other.data)
    }
}

impl<T: PartialEq, E: Effect<T>> vstd::std_specs::cmp::PartialEqSpecImpl for EffectCell<T, E> {
    open spec fn obeys_eq_spec() -> bool {
        T::obeys_eq_spec()
    }

    open spec fn eq_spec(&self, other: &Self) -> bool {
        self.value().eq_spec(&other.value())
    }
}

impl<T: PartialEq, E: Effect<T>> PartialEq<T> for EffectCell<T, E> {
    fn eq(&self, other: &T) -> (r: bool) {
        self.data.eq(other)
    }
}

impl<T: PartialEq, E: Effect<T>> vstd::std_specs::cmp::PartialEqSpecImpl<T> for EffectCell<T, E> {
    open spec fn obeys_eq_spec() -> bool {
        T::obeys_eq_spec()
    }

    open spec fn eq_spec(&self, other: &T) -> bool {
        self.value().eq_spec(other)
    }
}

impl<T: PartialOrd, E: Effect<T>> PartialOrd for EffectCell<T, E> {
    fn partial_cmp(&self, other: &Self) -> (r: Option<core::cmp::Ordering>) {
        self.data.partial_cmp(&other.data)
    }
}

impl<T: PartialOrd, E: Effect<T>> vstd::std_specs::cmp::PartialOrdSpecImpl for EffectCell<T, E> {
    open spec fn obeys_partial_cmp_spec() -> bool {
        T::obeys_partial_cmp_spec()
    }

    open spec fn partial_cmp_spec(&self, other: &Self) -> Option<core::cmp::Ordering> {
        self.value().partial_cmp_spec(&other.value())
    }
}

impl<T: PartialOrd, E: Effect<T>> PartialOrd<T> for EffectCell<T, E> {
    fn partial_cmp(&self, other: &T) -> (r: Option<core::cmp::Ordering>) {
        self.data.partial_cmp(other)
    }
}

impl<T: PartialOrd, E: Effect<T>> vstd::std_specs::cmp::PartialOrdSpecImpl<T> for EffectCell<T, E> {
    open spec fn obeys_partial_cmp_spec() -> bool {
        T::obeys_partial_cmp_spec()
    }

    open spec fn partial_cmp_spec(&self, other: &T) -> Option<core::cmp::Ordering> {
        self.value().partial_cmp_spec(other)
    }
}

/// Comparison delegation law: whether a cell compares equal to another cell,
/// or to a bare value, depends only on the stored values and never on the
/// bound effects or the traces.
pub proof fn lemma_eq_ignores_effects<T: PartialEq, E: Effect<T>>(
    a: EffectCell<T, E>,
    b: EffectCell<T, E>,
    v: T,
)
    ensures
        a.eq_spec(&b) == a.value().eq_spec(&b.value()),
        a.eq_spec(&v) == a.value().eq_spec(&v),
{
}

/// Compound-operator equivalence law: any two effectful writes of the same
/// value `v` to cells in matching states end with equal values, matching
/// effect histories and equal invocation traces. A compound operator (say,
/// add-assign of `rhs`) satisfies `wrote` with `v` the operator's result, as
/// do `update` and `update_lambda` with an equivalent function, so all of
/// them produce the same resulting value and effect-invocation sequence.
pub proof fn lemma_effectful_writes_agree<T, E: Effect<T>>(
    pre_a: EffectCell<T, E>,
    post_a: EffectCell<T, E>,
    pre_b: EffectCell<T, E>,
    post_b: EffectCell<T, E>,
    v: T,
)
    requires
        pre_a.value() == pre_b.value(),
        histories_match(pre_a.effects_seq(), pre_b.effects_seq()),
        pre_a.trace() == pre_b.trace(),
        EffectCell::wrote(pre_a, post_a, v),
        EffectCell::wrote(pre_b, post_b, v),
    ensures
        post_a.value() == post_b.value(),
        histories_match(post_a.effects_seq(), post_b.effects_seq()),
        post_a.trace() == post_b.trace(),
{
}

} // verus!

use vstd::prelude::*;

use crate::effect::Effect;
use crate::effect::histories_extended;
use crate::effect::histories_match;
use crate::effect::run_registry;
use vstd::std_specs::cmp::PartialEqSpec;
use vstd::std_specs::cmp::PartialOrdSpec;

verus! {

/// Represents whether an effect should be called before or after data is
/// updated.
#[derive(Clone, Debug, PartialEq, Eq, Structural)]
pub enum EffectOrder {
    /// The ordering of an effect that is called before data is updated.
    Prior,
    /// The ordering of an effect that is called after data is updated.
    Post,
}

/// The log one full pass over a registry of `n` effects of order `ord`
/// appends to an ordered cell's invocation trace: the effect at registry
/// index `i` is invoked `i`-th, and every invocation of the pass observes
/// `v`.
pub open spec fn tagged_pass_log<T>(ord: EffectOrder, n: nat, v: T) -> Seq<(EffectOrder, int, T)> {
    Seq::new(n, |i: int| (ord, i, v))
}

/// A container that runs one or many effects on data mutation. Effects run
/// either before or after data is updated depending on their [`EffectOrder`];
/// within a registry they run in the order they were bound.
pub struct OrderedEffectCell<T, E: Effect<T>> {
    data: T,
    prior_effects: Vec<E>,
    post_effects: Vec<E>,
    trace: Ghost<Seq<(EffectOrder, int, T)>>,
}

impl<T, E: Effect<T>> OrderedEffectCell<T, E> {
    /// The stored value.
    pub closed spec fn value(&self) -> T {
        self.data
    }

    /// The effects bound with [`EffectOrder::Prior`], in binding order.
    pub closed spec fn priors(&self) -> Seq<E> {
        self.prior_effects@
    }

    /// The effects bound with [`EffectOrder::Post`], in binding order.
    pub closed spec fn posts(&self) -> Seq<E> {
        self.post_effects@
    }

    /// The invocation trace: one entry `(ord, i, v)` per invocation the cell
    /// has made so far, naming the registry, the index invoked within it and
    /// the value it was shown, in invocation order.
    pub closed spec fn trace(&self) -> Seq<(EffectOrder, int, T)> {
        self.trace@
    }

    /// One full pass over the registry named by `ord` at the current value:
    /// every effect of that registry observed `pre.value()` exactly once, in
    /// registration order; the other registry was not invoked and the value
    /// did not change.
    pub open spec fn notified(pre: Self, post: Self, ord: EffectOrder) -> bool {
        &&& post.value() == pre.value()
        &&& match ord {
            EffectOrder::Prior => {
                &&& histories_extended(pre.priors(), post.priors(), pre.value())
                &&& post.posts() == pre.posts()
                &&& post.trace() == pre.trace() + tagged_pass_log(
                    EffectOrder::Prior,
                    pre.priors().len(),
                    pre.value(),
                )
            },
            EffectOrder::Post => {
                &&& histories_extended(pre.posts(), post.posts(), pre.value())
                &&& post.priors() == pre.priors()
                &&& post.trace() == pre.trace() + tagged_pass_log(
                    EffectOrder::Post,
                    pre.posts().len(),
                    pre.value(),
                )
            },
        }
    }

    /// An effectful write of `v`: every `Prior` effect observes the value as
    /// it was before the replacement, then the value becomes `v`, then every
    /// `Post` effect observes `v` — `Prior` effects never see the new value,
    /// `Post` effects never see the old one, and both registries run in
    /// registration order, `Prior` before `Post`.
    pub open spec fn wrote(pre: Self, post: Self, v: T) -> bool {
        &&& post.value() == v
        &&& histories_extended(pre.priors(), post.priors(), pre.value())
        &&& histories_extended(pre.posts(), post.posts(), v)
        &&& post.trace() == pre.trace() + tagged_pass_log(
            EffectOrder::Prior,
            pre.priors().len(),
            pre.value(),
        ) + tagged_pass_log(EffectOrder::Post, pre.posts().len(), v)
    }

    /// Create a new [`OrderedEffectCell`] with the provided data and no
    /// effects.
    pub fn new(data: T) -> (r: Self)
        ensures
            r.value() == data,
            r.priors() == Seq::<E>::empty(),
            r.posts() == Seq::<E>::empty(),
            r.trace() == Seq::<(EffectOrder, int, T)>::empty(),
    {
        OrderedEffectCell {
            data,
            prior_effects: Vec::new(),
            post_effects: Vec::new(),
            trace: Ghost(Seq::empty()),
        }
    }

    /// Returns the stored data without invoking any effect.
    pub fn into_inner(self) -> (r: T)
        ensures
            r == self.value(),
    {
        self.data
    }

    /// Returns the stored data and both effect registries, `Prior` then
    /// `Post`, without invoking any effect.
    pub fn into_parts(self) -> (r: (T, Vec<E>, Vec<E>))
        ensures
            r.0 == self.value(),
            r.1@ == self.priors(),
            r.2@ == self.posts(),
    {
        (self.data, self.prior_effects, self.post_effects)
    }

    /// Binds a new effect to the [`OrderedEffectCell`], appending it to the
    /// registry named by the given [`EffectOrder`].
    pub fn bind(&mut self, ord: EffectOrder, effect: E)
        ensures
            final(self).value() == old(self).value(),
            final(self).trace() == old(self).trace(),
            ord == EffectOrder::Prior ==> final(self).priors() == old(self).priors().push(effect)
                && final(self).posts() == old(self).posts(),
            ord == EffectOrder::Post ==> final(self).posts() == old(self).posts().push(effect)
                && final(self).priors() == old(self).priors(),
    {
        match ord {
            EffectOrder::Prior => {
                self.prior_effects.push(effect);
            },
            EffectOrder::Post => {
                self.post_effects.push(effect);
            },
        }
    }

    /// Runs all effects of the given [`EffectOrder`] with the current data,
    /// in binding order.
    pub fn call(&mut self, ord: EffectOrder)
        ensures
            Self::notified(*old(self), *final(self), ord),
    {
        match ord {
            EffectOrder::Prior => {
                run_registry(&mut self.prior_effects, &self.data);
                self.trace = Ghost(
                    self.trace@ + tagged_pass_log(
                        EffectOrder::Prior,
                        self.prior_effects@.len(),
                        self.data,
                    ),
                );
            },
            EffectOrder::Post => {
                run_registry(&mut self.post_effects, &self.data);
                self.trace = Ghost(
                    self.trace@ + tagged_pass_log(
                        EffectOrder::Post,
                        self.post_effects@.len(),
                        self.data,
                    ),
                );
            },
        }
    }

    /// Consume the [`OrderedEffectCell`] and perform all effects once with
    /// the current data, the `Prior` registry before the `Post` registry.
    /// This is the only way to guarantee the effects fire when the cell is no
    /// longer needed: dropping the cell performs no effects.
    ///
    /// The returned ghost snapshot is the cell's state after that final pass.
    pub fn consume(self) -> (r: Ghost<Self>)
        ensures
            Self::wrote(self, r@, self.value()),
    {
        let mut this = self;
        this.call(EffectOrder::Prior);
        this.call(EffectOrder::Post);
        let ghost post = this;
        Ghost(post)
    }

    /// Updates the inner value; `Prior` effects observe the old value before
    /// the replacement and `Post` effects observe the new value after it.
    pub fn update(&mut self, new: T)
        ensures
            Self::wrote(*old(self), *final(self), new),
    {
        self.call(EffectOrder::Prior);
        self.data = new;
        self.call(EffectOrder::Post);
    }

    /// Updates the inner value using the provided function; `Prior` effects
    /// observe the old value before it is applied and `Post` effects observe
    /// the new value after it.
    pub fn update_lambda<F: Fn(&T) -> T>(&mut self, lambda: F)
        requires
            call_requires(lambda, (&old(self).value(),)),
        ensures
            call_ensures(lambda, (&old(self).value(),), final(self).value()),
            Self::wrote(*old(self), *final(self), final(self).value()),
    {
        self.call(EffectOrder::Prior);
        let v = lambda(&self.data);
        self.data = v;
        self.call(EffectOrder::Post);
    }

    /// Updates the inner value without running any effects of either order.
    pub fn set(&mut self, new: T)
        ensures
            final(self).value() == new,
            final(self).priors() == old(self).priors(),
            final(self).posts() == old(self).posts(),
            final(self).trace() == old(self).trace(),
    {
        self.data = new;
    }

    /// Updates the inner value using the provided function without running
    /// any effects of either order.
    pub fn set_lambda<F: Fn(&T) -> T>(&mut self, lambda: F)
        requires
            call_requires(lambda, (&old(self).value(),)),
        ensures
            call_ensures(lambda, (&old(self).value(),), final(self).value()),
            final(self).priors() == old(self).priors(),
            final(self).posts() == old(self).posts(),
            final(self).trace() == old(self).trace(),
    {
        let v = lambda(&self.data);
        self.data = v;
    }
}

impl<E: Effect<u64>> OrderedEffectCell<u64, E> {
    /// Add-assign passthrough: `Prior` effects observe the old value, the sum
    /// replaces it, then `Post` effects observe the sum.
    pub fn add_assign(&mut self, other: u64)
        requires
            old(self).value() + other <= u64::MAX,
        ensures
            Self::wrote(*old(self), *final(self), (old(self).value() + other) as u64),
    {
        let v = self.data + other;
        self.update(v);
    }

    /// Sub-assign passthrough: `Prior` effects observe the old value, the
    /// difference replaces it, then `Post` effects observe the difference.
    pub fn sub_assign(&mut self, other: u64)
        requires
            other <= old(self).value(),
        ensures
            Self::wrote(*old(self), *final(self), (old(self).value() - other) as u64),
    {
        let v = self.data - other;
        self.update(v);
    }

    /// Mul-assign passthrough: `Prior` effects observe the old value, the
    /// product replaces it, then `Post` effects observe the product.
    pub fn mul_assign(&mut self, other: u64)
        requires
            old(self).value() * other <= u64::MAX,
        ensures
            Self::wrote(*old(self), *final(self), (old(self).value() * other) as u64),
    {
        let v = self.data * other;
        self.update(v);
    }

    /// Div-assign passthrough: `Prior` effects observe the old value, the
    /// quotient replaces it, then `Post` effects observe the quotient.
    pub fn div_assign(&mut self, other: u64)
        requires
            other != 0,
        ensures
            Self::wrote(*old(self), *final(self), (old(self).value() / other) as u64),
    {
        let v = self.data / other;
        self.update(v);
    }

    /// Rem-assign passthrough: `Prior` effects observe the old value, the
    /// remainder replaces it, then `Post` effects observe the remainder.
    pub fn rem_assign(&mut self, other: u64)
        requires
            other != 0,
        ensures
            Self::wrote(*old(self), *final(self), (old(self).value() % other) as u64),
    {
        let v = self.data % other;
        self.update(v);
    }

    /// Shl-assign passthrough: `Prior` effects observe the old value, the
    /// shifted value replaces it, then `Post` effects observe it.
    pub fn shl_assign(&mut self, other: u64)
        requires
            other < u64::BITS,
        ensures
            Self::wrote(*old(self), *final(self), old(self).value() << other),
    {
        let v = self.data << other;
        self.update(v);
    }

    /// Shr-assign passthrough: `Prior` effects observe the old value, the
    /// shifted value replaces it, then `Post` effects observe it.
    pub fn shr_assign(&mut self, other: u64)
        requires
            other < u64::BITS,
        ensures
            Self::wrote(*old(self), *final(self), old(self).value() >> other),
    {
        let v = self.data >> other;
        self.update(v);
    }

    /// BitAnd-assign passthrough: `Prior` effects observe the old value, the
    /// bitwise and replaces it, then `Post` effects observe it.
    pub fn bitand_assign(&mut self, other: u64)
        ensures
            Self::wrote(*old(self), *final(self), old(self).value() & other),
    {
        let v = self.data & other;
        self.update(v);
    }

    /// BitOr-assign passthrough: `Prior` effects observe the old value, the
    /// bitwise or replaces it, then `Post` effects observe it.
    pub fn bitor_assign(&mut self, other: u64)
        ensures
            Self::wrote(*old(self), *final(self), old(self).value() | other),
    {
        let v = self.data | other;
        self.update(v);
    }

    /// BitXor-assign passthrough: `Prior` effects observe the old value, the
    /// bitwise xor replaces it, then `Post` effects observe it.
    pub fn bitxor_assign(&mut self, other: u64)
        ensures
            Self::wrote(*old(self), *final(self), old(self).value() ^ other),
    {
        let v = self.data ^ other;
        self.update(v);
    }
}

impl<T: PartialEq, E: Effect<T>> PartialEq for OrderedEffectCell<T, E> {
    fn eq(&self, other: &Self) -> (r: bool) {
        self.data.eq(&other.data)
    }
}

impl<T: PartialEq, E: Effect<T>> vstd::std_specs::cmp::PartialEqSpecImpl for OrderedEffectCell<T, E> {
    open spec fn obeys_eq_spec() -> bool {
        T::obeys_eq_spec()
    }

    open spec fn eq_spec(&self, other: &Self) -> bool {
        self.value().eq_spec(&other.value())
    }
}

impl<T: PartialEq, E: Effect<T>> PartialEq<T> for OrderedEffectCell<T, E> {
    fn eq(&self, other: &T) -> (r: bool) {
        self.data.eq(other)
    }
}

impl<T: PartialEq, E: Effect<T>> vstd::std_specs::cmp::PartialEqSpecImpl<T> for OrderedEffectCell<T, E> {
    open spec fn obeys_eq_spec() -> bool {
        T::obeys_eq_spec()
    }

    open spec fn eq_spec(&self, other: &T) -> bool {
        self.value().eq_spec(other)
    }
}

impl<T: PartialOrd, E: Effect<T>> PartialOrd for OrderedEffectCell<T, E> {
    fn partial_cmp(&self, other: &Self) -> (r: Option<core::cmp::Ordering>) {
        self.data.partial_cmp(&other.data)
    }
}

impl<T: PartialOrd, E: Effect<T>> vstd::std_specs::cmp::PartialOrdSpecImpl for OrderedEffectCell<T, E> {
    open spec fn obeys_partial_cmp_spec() -> bool {
        T::obeys_partial_cmp_spec()
    }

    open spec fn partial_cmp_spec(&self, other: &Self) -> Option<core::cmp::Ordering> {
        self.value().partial_cmp_spec(&other.value())
    }
}

impl<T: PartialOrd, E: Effect<T>> PartialOrd<T> for OrderedEffectCell<T, E> {
    fn partial_cmp(&self, other: &T) -> (r: Option<core::cmp::Ordering>) {
        self.data.partial_cmp(other)
    }
}

impl<T: PartialOrd, E: Effect<T>> vstd::std_specs::cmp::PartialOrdSpecImpl<T> for OrderedEffectCell<T, E> {
    open spec fn obeys_partial_cmp_spec() -> bool {
        T::obeys_partial_cmp_spec()
    }

    open spec fn partial_cmp_spec(&self, other: &T) -> Option<core::cmp::Ordering> {
        self.value().partial_cmp_spec(other)
    }
}

/// Comparison delegation law for the ordered cell: whether it compares equal
/// to another cell, or to a bare value, depends only on the stored values and
/// never on the bound effects of either order.
pub proof fn lemma_ordered_eq_ignores_effects<T: PartialEq, E: Effect<T>>(
    a: OrderedEffectCell<T, E>,
    b: OrderedEffectCell<T, E>,
    v: T,
)
    ensures
        a.eq_spec(&b) == a.value().eq_spec(&b.value()),
        a.eq_spec(&v) == a.value().eq_spec(&v),
{
}

/// Compound-operator equivalence law for the ordered cell: any two effectful
/// writes of the same value `v` to cells in matching states end with equal
/// values, matching effect histories in both registries and equal invocation
/// traces. A compound operator satisfies `wrote` with `v` the operator's
/// result, as do `update` and `update_lambda` with an equivalent function, so
/// all of them produce the same resulting value and effect-invocation
/// sequence.
pub proof fn lemma_ordered_effectful_writes_agree<T, E: Effect<T>>(
    pre_a: OrderedEffectCell<T, E>,
    post_a: OrderedEffectCell<T, E>,
    pre_b: OrderedEffectCell<T, E>,
    post_b: OrderedEffectCell<T, E>,
    v: T,
)
    requires
        pre_a.value() == pre_b.value(),
        histories_match(pre_a.priors(), pre_b.priors()),
        histories_match(pre_a.posts(), pre_b.posts()),
        pre_a.trace() == pre_b.trace(),
        OrderedEffectCell::wrote(pre_a, post_a, v),
        OrderedEffectCell::wrote(pre_b, post_b, v),
    ensures
        post_a.value() == post_b.value(),
        histories_match(post_a.priors(), post_b.priors()),
        histories_match(post_a.posts(), post_b.posts()),
        post_a.trace() == post_b.trace(),
{
}

} // verus!

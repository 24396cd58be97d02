use vstd::prelude::*;

use crate::effect::Effect;

verus! {

/// A reduced container that holds one value and exactly one mandatory
/// effect, supplied at construction and never rebound. Its defining
/// operation, [`SingleEffectCell::shl_assign`], invokes the effect with the
/// value that is about to be replaced — the effect always observes the old
/// value, never the incoming one.
#[derive(Clone)]
pub struct SingleEffectCell<T, E: Effect<T>> {
    data: T,
    effect: E,
}

impl<T, E: Effect<T>> SingleEffectCell<T, E> {
    /// The stored value.
    pub closed spec fn value(&self) -> T {
        self.data
    }

    /// The bound effect.
    pub closed spec fn effect(&self) -> E {
        self.effect
    }

    /// The values the bound effect has observed so far, oldest first.
    pub open spec fn history(&self) -> Seq<T> {
        self.effect().history()
    }

    /// Create a new [`SingleEffectCell`] with the provided data and effect.
    pub fn new(data: T, effect: E) -> (r: Self)
        ensures
            r.value() == data,
            r.effect() == effect,
    {
        SingleEffectCell { data, effect }
    }

    /// Runs the effect with the current data.
    pub fn call(&mut self)
        ensures
            final(self).value() == old(self).value(),
            final(self).history() == old(self).history().push(old(self).value()),
    {
        self.effect.invoke(&self.data);
    }

    /// The bind-and-replace operator: invokes the effect with the current
    /// (old) value, then replaces the value with `rhs`. The effect observes
    /// the value being overwritten, never the incoming one.
    pub fn shl_assign(&mut self, rhs: T)
        ensures
            final(self).value() == rhs,
            final(self).history() == old(self).history().push(old(self).value()),
    {
        self.effect.invoke(&self.data);
        self.data = rhs;
    }

    /// Updates the inner value; an alias for [`SingleEffectCell::shl_assign`]
    /// with the same old-value-first semantics.
    pub fn update(&mut self, new: T)
        ensures
            final(self).value() == new,
            final(self).history() == old(self).history().push(old(self).value()),
    {
        self.shl_assign(new);
    }

    /// Replaces the value with no effect invocation.
    pub fn set(&mut self, new: T)
        ensures
            final(self).value() == new,
            final(self).effect() == old(self).effect(),
    {
        self.data = new;
    }

    /// Read access to the current value, with no side effect.
    pub fn get(&self) -> (r: &T)
        ensures
            *r == self.value(),
    {
        &self.data
    }

    /// Read-write access to the value: invokes the effect with the current
    /// value, then yields a mutable handle to it. The effect call is timed
    /// to "just before this potential mutation" — it fires even if the
    /// caller never writes through the handle.
    pub fn get_mut(&mut self) -> (r: &mut T)
        ensures
            *r == old(self).value(),
            final(self).value() == *final(r),
            final(self).history() == old(self).history().push(old(self).value()),
            final(self).effect().history() == final(self).history(),
    {
        self.effect.invoke(&self.data);
        &mut self.data
    }

    /// Consume the [`SingleEffectCell`] and perform the effect once with the
    /// current data. Dropping the cell instead performs no effect.
    ///
    /// The returned ghost snapshot is the effect's state after that final
    /// invocation.
    pub fn consume(self) -> (r: Ghost<E>)
        ensures
            r@.history() == self.history().push(self.value()),
    {
        let mut this = self;
        this.call();
        let ghost post = this.effect;
        Ghost(post)
    }

    /// Returns the stored data and the effect without invoking it.
    pub fn into_parts(self) -> (r: (T, E))
        ensures
            r.0 == self.value(),
            r.1 == self.effect(),
    {
        (self.data, self.effect)
    }
}

} // verus!

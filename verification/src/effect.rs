use vstd::prelude::*;

verus! {

/// A side-effect callback owned by a cell. The cell invokes it with read-only
/// access to the current value; the effect may mutate only its own state.
///
/// `history()` is the ghost record of every value the effect has observed, in
/// invocation order; `invoke` must extend it by exactly the value shown.
pub trait Effect<T>: Sized {
    /// The values this effect has observed so far, oldest first.
    spec fn history(&self) -> Seq<T>;

    /// Observe `data`, mutating only the effect's own state.
    fn invoke(&mut self, data: &T)
        ensures
            final(self).history() == old(self).history().push(*data),
    ;
}

/// The log one full pass over a registry of `n` effects appends to a cell's
/// invocation trace: the effect at registry index `i` is invoked `i`-th, and
/// every invocation of the pass observes `v`.
pub open spec fn pass_log<T>(n: nat, v: T) -> Seq<(int, T)> {
    Seq::new(n, |i: int| (i, v))
}

/// Every history in `post` extends its counterpart in `pre` by exactly one
/// observation of `v`: each effect was invoked once and was shown `v`.
pub open spec fn histories_extended<T, E: Effect<T>>(pre: Seq<E>, post: Seq<E>, v: T) -> bool {
    &&& post.len() == pre.len()
    &&& forall|i: int|
        0 <= i < pre.len() ==> #[trigger] post[i].history() == pre[i].history().push(v)
}

/// The effects of `a` and `b` have observed the same values, index for index.
pub open spec fn histories_match<T, E: Effect<T>>(a: Seq<E>, b: Seq<E>) -> bool {
    &&& a.len() == b.len()
    &&& forall|i: int| 0 <= i < a.len() ==> #[trigger] a[i].history() == b[i].history()
}

/// Ordering law: within one pass, the `j`-th invocation is of the effect bound
/// `j`-th, so a registry of `n` effects runs in exactly registration order
/// `0, 1, ..., n - 1`, never reordered, never skipped, never repeated.
pub proof fn lemma_pass_in_registration_order<T>(n: nat, v: T)
    ensures
        pass_log(n, v).len() == n,
        forall|j: int| 0 <= j < n ==> #[trigger] pass_log(n, v)[j] == (j, v),
{
}

/// Invokes every effect of `effects` with `data`, front to back, so each
/// observes `data` exactly once, in registration order.
pub(crate) fn run_registry<T, E: Effect<T>>(effects: &mut Vec<E>, data: &T)
    ensures
        histories_extended(old(effects)@, final(effects)@, *data),
{
    let n = effects.len();
    let mut i: usize = 0;
    while i < n
        invariant
            i <= n,
            effects.len() == n,
            old(effects)@.len() == n,
            forall|j: int|
                0 <= j < i ==> #[trigger] effects@[j].history() == old(
                    effects,
                )@[j].history().push(*data),
            forall|j: int| i <= j < n ==> effects@[j] == old(effects)@[j],
        decreases n - i,
    {
        let eff = &mut effects[i];
        eff.invoke(data);
        i += 1;
    }
}

/// An effect that keeps every value it is shown.
#[derive(Clone)]
pub struct Recorder<T> {
    values: Vec<T>,
}

impl<T: Copy> Recorder<T> {
    /// A recorder that has observed nothing yet.
    pub fn new() -> (r: Self)
        ensures
            r.history() == Seq::<T>::empty(),
    {
        Recorder { values: Vec::new() }
    }

    /// Read access to the observed values, oldest first.
    pub fn values(&self) -> (r: &Vec<T>)
        ensures
            r@ == self.history(),
    {
        &self.values
    }
}

impl<T: Copy> Effect<T> for Recorder<T> {
    closed spec fn history(&self) -> Seq<T> {
        self.values@
    }

    fn invoke(&mut self, data: &T) {
        self.values.push(*data);
    }
}

/// An effect that counts how often it is invoked, saturating at `u64::MAX`.
pub struct Tally<T> {
    hits: u64,
    observed: Ghost<Seq<T>>,
}

impl<T> Tally<T> {
    #[verifier::type_invariant]
    spec fn wf(self) -> bool {
        if self.observed@.len() <= u64::MAX {
            self.hits == self.observed@.len()
        } else {
            self.hits == u64::MAX
        }
    }

    /// A tally that has not been invoked yet.
    pub fn new() -> (r: Self)
        ensures
            r.history() == Seq::<T>::empty(),
    {
        Tally { hits: 0, observed: Ghost(Seq::empty()) }
    }

    /// How often this effect has been invoked (saturating at `u64::MAX`).
    pub fn count(&self) -> (n: u64)
        ensures
            self.history().len() <= u64::MAX ==> n == self.history().len(),
            self.history().len() > u64::MAX ==> n == u64::MAX,
    {
        proof {
            use_type_invariant(&*self);
        }
        self.hits
    }
}

impl<T> Effect<T> for Tally<T> {
    closed spec fn history(&self) -> Seq<T> {
        self.observed@
    }

    fn invoke(&mut self, data: &T) {
        proof {
            use_type_invariant(&*self);
        }
        let next = if self.hits < u64::MAX {
            self.hits + 1
        } else {
            self.hits
        };
        *self = Tally { hits: next, observed: Ghost(self.observed@.push(*data)) };
    }
}

} // verus!

//! The window of the most recent step measurements that the profiler keeps.
use vstd::prelude::*;

verus! {

/// How many measurements the window keeps.
pub const STEP_HISTORY_LIMIT: usize = 1000;

/// The last `STEP_HISTORY_LIMIT` entries of `s` (all of them when there are
/// no more than that).
pub open spec fn most_recent<T>(s: Seq<T>) -> Seq<T> {
    if s.len() <= STEP_HISTORY_LIMIT {
        s
    } else {
        s.subrange(s.len() - STEP_HISTORY_LIMIT, s.len() as int)
    }
}

/// The most recent measurements, oldest first, never more than
/// `STEP_HISTORY_LIMIT` of them.
pub struct StepHistory<T> {
    values: Vec<T>,
}

impl<T> View for StepHistory<T> {
    type V = Seq<T>;

    closed spec fn view(&self) -> Seq<T> {
        self.values@
    }
}

impl<T> StepHistory<T> {
    #[verifier::type_invariant]
    spec fn within_limit(self) -> bool {
        self.values.len() <= STEP_HISTORY_LIMIT
    }

    /// An empty window.
    pub fn new() -> (history: StepHistory<T>)
        ensures
            history@ == Seq::<T>::empty(),
    {
        StepHistory { values: Vec::with_capacity(STEP_HISTORY_LIMIT) }
    }

    /// Adds a measurement; when the window is full the oldest one leaves.
    pub fn record(&mut self, value: T)
        ensures
            final(self)@ == most_recent(old(self)@.push(value)),
            final(self)@.len() <= STEP_HISTORY_LIMIT,
    {
        proof {
            use_type_invariant(&*self);
        }
        let mut values: Vec<T> = Vec::new();
        std::mem::swap(&mut values, &mut self.values);
        let ghost before = values@;
        values.push(value);
        if values.len() > STEP_HISTORY_LIMIT {
            values.remove(0);
            assert(values@ =~= before.push(value).subrange(
                before.push(value).len() - STEP_HISTORY_LIMIT,
                before.push(value).len() as int,
            ));
        }
        self.values = values;
    }

    /// Number of measurements held.
    pub fn len(&self) -> (n: usize)
        ensures
            n == self@.len(),
            n <= STEP_HISTORY_LIMIT,
    {
        proof {
            use_type_invariant(self);
        }
        self.values.len()
    }

    /// Whether no measurement is held.
    pub fn is_empty(&self) -> (empty: bool)
        ensures
            empty <==> self@.len() == 0,
    {
        self.values.len() == 0
    }

    /// The measurements held, oldest first.
    pub fn values(&self) -> (values: &[T])
        ensures
            values@ == self@,
    {
        self.values.as_slice()
    }
}

/// The window never holds more than `STEP_HISTORY_LIMIT` measurements, keeps
/// them in the order they came, and always keeps the latest one.
pub proof fn law_window_bounded<T>(s: Seq<T>, value: T)
    ensures
        most_recent(s).len() <= STEP_HISTORY_LIMIT,
        most_recent(s).len() == if s.len() <= STEP_HISTORY_LIMIT {
            s.len()
        } else {
            STEP_HISTORY_LIMIT as nat
        },
        forall|i: int|
            0 <= i < most_recent(s).len() ==> #[trigger] most_recent(s)[i] == s[s.len()
                - most_recent(s).len() + i],
        most_recent(s.push(value)).last() == value,
{
}

/// Recording measurements one at a time keeps exactly the last
/// `STEP_HISTORY_LIMIT` of all measurements ever recorded.
pub proof fn law_window_of_all_recorded<T>(s: Seq<T>, value: T)
    ensures
        most_recent(most_recent(s).push(value)) == most_recent(s.push(value)),
{
    if s.len() > STEP_HISTORY_LIMIT {
        let w = most_recent(s).push(value);
        assert(most_recent(w) =~= most_recent(s.push(value)));
    } else {
        assert(most_recent(s) == s);
    }
}

} // verus!

//! The streaming-indicator interface.
use vstd::prelude::*;

verus! {

/// Core trait for all streaming indicators.
///
/// Supports two modes:
/// - **Streaming**: feed one input (a candle) at a time via `update()`
/// - **Batch**: pass a full array via `compute()` or `compute_last()`
///
/// An implementation is described by three spec functions: the state after an
/// update (`spec_next`), what an update reports (`spec_report`) and the state after
/// a reset (`spec_fresh`).
pub trait Indicator: Send + Sync + Sized {
    /// What the indicator reads on each update (a candle).
    type Input;

    /// What the indicator reports once it is ready.
    type Output: Clone;

    /// The state after feeding `input` to an indicator in this state.
    spec fn spec_next(self, input: Self::Input) -> Self;

    /// What feeding `input` to an indicator in this state reports.
    spec fn spec_report(self, input: Self::Input) -> Option<Self::Output>;

    /// The state after a reset.
    spec fn spec_fresh(self) -> Self;

    /// Feed one new input. Returns `None` while building up, `Some` once ready.
    fn update(&mut self, input: &Self::Input) -> (r: Option<Self::Output>)
        ensures
            *final(self) == old(self).spec_next(*input),
            r == old(self).spec_report(*input),
    ;

    /// Reset internal state to start fresh.
    fn reset(&mut self)
        ensures
            *final(self) == old(self).spec_fresh(),
    ;

    /// Compute the indicator for every input in the array, after a reset: one entry
    /// per input, in order, each what the update of that input reports in the state
    /// the earlier updates left.
    fn compute(&mut self, inputs: &[Self::Input]) -> (r: Vec<Option<Self::Output>>)
        ensures
            r.len() == inputs.len(),
            exists|states: Seq<Self>|
                #![trigger states.last()]
                states.len() == inputs.len() + 1
                && states[0] == old(self).spec_fresh()
                && (forall|j: int| 1 <= j <= inputs.len() ==> #[trigger] states[j] == states[j - 1].spec_next(inputs@[j - 1]))
                && (forall|j: int| 0 <= j < inputs.len() ==> #[trigger] r@[j] == states[j].spec_report(inputs@[j]))
                && *final(self) == states.last(),
    {
        self.reset();
        let ghost mut states: Seq<Self> = seq![*self];
        let mut out: Vec<Option<Self::Output>> = Vec::new();
        let mut i: usize = 0;
        while i < inputs.len()
            invariant
                i <= inputs.len(),
                out.len() == i,
                states.len() == i + 1,
                states[0] == old(self).spec_fresh(),
                forall|j: int| 1 <= j <= i ==> #[trigger] states[j] == states[j - 1].spec_next(inputs@[j - 1]),
                forall|j: int| 0 <= j < i ==> #[trigger] out@[j] == states[j].spec_report(inputs@[j]),
                *self == states.last(),
            decreases inputs.len() - i,
        {
            let ghost before = states;
            let v = self.update(&inputs[i]);
            proof {
                states = states.push(*self);
                assert forall|j: int| 1 <= j <= i + 1 implies #[trigger] states[j] == states[j - 1].spec_next(inputs@[j - 1]) by {
                    if j <= i {
                        assert(states[j] == before[j]);
                        assert(states[j - 1] == before[j - 1]);
                    }
                }
            }
            out.push(v);
            i = i + 1;
            proof {
                assert forall|j: int| 0 <= j < i implies #[trigger] out@[j] == states[j].spec_report(inputs@[j]) by {
                    if j < i - 1 {
                        assert(states[j] == before[j]);
                    }
                }
            }
        }
        assert(*self == states.last());
        out
    }

    /// Compute only the final value, after a reset: what the last update reports
    /// (nothing for an empty array).
    fn compute_last(&mut self, inputs: &[Self::Input]) -> (r: Option<Self::Output>)
        ensures
            exists|states: Seq<Self>|
                #![trigger states.last()]
                states.len() == inputs.len() + 1
                && states[0] == old(self).spec_fresh()
                && (forall|j: int| 1 <= j <= inputs.len() ==> #[trigger] states[j] == states[j - 1].spec_next(inputs@[j - 1]))
                && r == (if inputs.len() == 0 {
                    None
                } else {
                    states[inputs.len() - 1].spec_report(inputs@[inputs.len() - 1])
                })
                && *final(self) == states.last(),
    {
        self.reset();
        let ghost mut states: Seq<Self> = seq![*self];
        let mut last: Option<Self::Output> = None;
        let mut i: usize = 0;
        while i < inputs.len()
            invariant
                i <= inputs.len(),
                states.len() == i + 1,
                states[0] == old(self).spec_fresh(),
                forall|j: int| 1 <= j <= i ==> #[trigger] states[j] == states[j - 1].spec_next(inputs@[j - 1]),
                last == (if i == 0 {
                    None
                } else {
                    states[i - 1].spec_report(inputs@[i - 1])
                }),
                *self == states.last(),
            decreases inputs.len() - i,
        {
            let ghost before = states;
            let v = self.update(&inputs[i]);
            proof {
                states = states.push(*self);
                assert forall|j: int| 1 <= j <= i + 1 implies #[trigger] states[j] == states[j - 1].spec_next(inputs@[j - 1]) by {
                    if j <= i {
                        assert(states[j] == before[j]);
                        assert(states[j - 1] == before[j - 1]);
                    }
                }
                assert(states[i as int] == before[i as int]);
            }
            last = v;
            i = i + 1;
        }
        assert(*self == states.last());
        last
    }
}

/// `states` are the states an indicator goes through when it starts in `start` and
/// is fed `inputs` one by one: one more state than inputs, each the `spec_next` of
/// the one before.
pub open spec fn is_run<I: Indicator>(start: I, inputs: Seq<I::Input>, states: Seq<I>) -> bool {
    &&& states.len() == inputs.len() + 1
    &&& states[0] == start
    &&& forall|j: int| 1 <= j <= inputs.len() ==> #[trigger] states[j] == states[j - 1].spec_next(inputs[j - 1])
}

/// `outs` holds, for each input, what the update of that input reports in the state
/// it is fed in.
pub open spec fn reports_along<I: Indicator>(
    states: Seq<I>,
    inputs: Seq<I::Input>,
    outs: Seq<Option<I::Output>>,
) -> bool {
    &&& outs.len() == inputs.len()
    &&& forall|j: int| 0 <= j < inputs.len() ==> #[trigger] outs[j] == states[j].spec_report(inputs[j])
}

/// What the last update of a run reports (nothing when there is no input).
pub open spec fn last_report<I: Indicator>(states: Seq<I>, inputs: Seq<I::Input>) -> Option<I::Output> {
    if inputs.len() == 0 {
        None
    } else {
        states[inputs.len() - 1].spec_report(inputs[inputs.len() - 1])
    }
}

/// A run is determined by its start and its inputs.
pub proof fn lemma_run_unique<I: Indicator>(start: I, inputs: Seq<I::Input>, s1: Seq<I>, s2: Seq<I>)
    requires
        is_run(start, inputs, s1),
        is_run(start, inputs, s2),
    ensures
        s1 == s2,
{
    assert forall|k: int| 0 <= k < s1.len() implies s1[k] == s2[k] by {
        lemma_run_prefix_equal(start, inputs, s1, s2, k);
    }
    assert(s1 =~= s2);
}

proof fn lemma_run_prefix_equal<I: Indicator>(start: I, inputs: Seq<I::Input>, s1: Seq<I>, s2: Seq<I>, k: int)
    requires
        is_run(start, inputs, s1),
        is_run(start, inputs, s2),
        0 <= k < s1.len(),
    ensures
        s1[k] == s2[k],
    decreases k,
{
    if k > 0 {
        lemma_run_prefix_equal(start, inputs, s1, s2, k - 1);
        assert(s1[k] == s1[(k - 1) + 1]);
        assert(s1[(k - 1) + 1] == s1[k - 1].spec_next(inputs[k - 1]));
        assert(s2[(k - 1) + 1] == s2[k - 1].spec_next(inputs[k - 1]));
    }
}

/// `compute_last` reports the last entry of `compute`: two indicators that are in
/// the same state after a reset (the same type built with the same parameters) and
/// are fed the same inputs give, from `compute_last`, the last entry of `compute`
/// (nothing for no input), and end in the same state.
pub proof fn lemma_compute_last_is_last_of_compute<I: Indicator>(
    fresh: I,
    inputs: Seq<I::Input>,
    states_all: Seq<I>,
    outs: Seq<Option<I::Output>>,
    states_last: Seq<I>,
    out: Option<I::Output>,
)
    requires
        is_run(fresh, inputs, states_all),
        reports_along(states_all, inputs, outs),
        is_run(fresh, inputs, states_last),
        out == last_report(states_last, inputs),
    ensures
        out == (if inputs.len() == 0 { None } else { outs.last() }),
        states_all.last() == states_last.last(),
{
    lemma_run_unique(fresh, inputs, states_all, states_last);
}

} // verus!

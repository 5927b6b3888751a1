//! The per-item decisions of a run: what each registry response and each star
//! call turns into, and the run's final status.
use vstd::prelude::*;

use crate::metadata::{resolve, resolve_spec, Crate, ResolvedTarget, TargetModel};

verus! {

/// A failure that concerns one dependency and does not stop the others.
pub enum PipelineError {
    /// The registry could not be reached, or its answer could not be decoded.
    Fetch { dependency: String, detail: String },
    /// The forge refused or failed the star call for a resolved target.
    Action { target: ResolvedTarget, detail: String },
}

/// The terminal result of one dependency that reached an outcome.
pub enum Outcome {
    Starred(ResolvedTarget),
    Failed(PipelineError),
}

/// The mathematical content of an `Outcome`.
pub enum OutcomeModel {
    Starred(TargetModel),
    FetchFailed { dependency: Seq<char>, detail: Seq<char> },
    ActionFailed { target: TargetModel, detail: Seq<char> },
}

impl OutcomeModel {
    pub open spec fn is_failure(self) -> bool {
        !(self is Starred)
    }
}

impl View for Outcome {
    type V = OutcomeModel;

    open spec fn view(&self) -> OutcomeModel {
        match self {
            Outcome::Starred(t) => OutcomeModel::Starred(t@),
            Outcome::Failed(PipelineError::Fetch { dependency, detail }) => OutcomeModel::FetchFailed {
                dependency: dependency@,
                detail: detail@,
            },
            Outcome::Failed(PipelineError::Action { target, detail }) => OutcomeModel::ActionFailed {
                target: target@,
                detail: detail@,
            },
        }
    }
}

impl Outcome {
    /// Whether this outcome is a failure.
    pub fn is_failure(&self) -> (r: bool)
        ensures
            r == self@.is_failure(),
    {
        match self {
            Outcome::Starred(_) => false,
            Outcome::Failed(_) => true,
        }
    }
}

/// The outcomes a registry response for `dependency` adds to a run: one failure
/// where the fetch failed, none otherwise.
pub open spec fn fetch_outcomes(dependency: Seq<char>, fetched: Result<Crate, String>) -> Seq<OutcomeModel> {
    match fetched {
        Ok(_) => Seq::empty(),
        Err(detail) => seq![OutcomeModel::FetchFailed { dependency, detail: detail@ }],
    }
}

/// The target a registry response hands on to the star call, if any.
pub open spec fn fetch_target(fetched: Result<Crate, String>) -> Option<TargetModel> {
    match fetched {
        Ok(c) => resolve_spec(c),
        Err(_) => None,
    }
}

/// The outcome of the star call on `target`.
pub open spec fn star_outcome(target: TargetModel, result: Result<(), String>) -> OutcomeModel {
    match result {
        Ok(()) => OutcomeModel::Starred(target),
        Err(detail) => OutcomeModel::ActionFailed { target, detail: detail@ },
    }
}

/// Some outcome in `s` is a failure.
pub open spec fn any_failed(s: Seq<OutcomeModel>) -> bool {
    exists|i: int| 0 <= i < s.len() && #[trigger] s[i].is_failure()
}

/// The outcomes collected so far in one run.
pub struct Run {
    outcomes: Vec<Outcome>,
}

impl View for Run {
    type V = Seq<OutcomeModel>;

    closed spec fn view(&self) -> Seq<OutcomeModel> {
        self.outcomes@.map_values(|o: Outcome| o@)
    }
}

impl Run {
    /// A run with no outcomes yet.
    pub fn new() -> (r: Run)
        ensures
            r@ == Seq::<OutcomeModel>::empty(),
    {
        let r = Run { outcomes: Vec::new() };
        assert(r@ =~= Seq::<OutcomeModel>::empty());
        r
    }

    /// The outcomes collected so far, in the order they arrived.
    pub fn outcomes(&self) -> (r: &Vec<Outcome>)
        ensures
            r@.map_values(|o: Outcome| o@) == self@,
    {
        &self.outcomes
    }

    fn record(&mut self, o: Outcome)
        ensures
            final(self)@ == old(self)@.push(o@),
    {
        self.outcomes.push(o);
        assert(self@ =~= old(self)@.push(o@));
    }

    /// Takes the registry's response for `dependency`. A failed fetch is
    /// recorded as that dependency's failure; a decoded entry is resolved, and
    /// its target, if any, is returned for the star call. An entry that does not
    /// resolve is dropped without an outcome.
    pub fn on_fetched(&mut self, dependency: String, fetched: Result<Crate, String>) -> (r: Option<ResolvedTarget>)
        ensures
            final(self)@ == old(self)@ + fetch_outcomes(dependency@, fetched),
            r matches Some(t) ==> fetch_target(fetched) == Some(t@),
            r is None <==> fetch_target(fetched) is None,
    {
        match fetched {
            Ok(krate) => {
                let r = resolve(&krate);
                assert(self@ =~= old(self)@ + fetch_outcomes(dependency@, fetched));
                r
            },
            Err(detail) => {
                self.record(Outcome::Failed(PipelineError::Fetch { dependency, detail }));
                assert(self@ =~= old(self)@ + fetch_outcomes(dependency@, fetched));
                None
            },
        }
    }

    /// Takes the result of the star call on `target` and records its outcome.
    pub fn on_starred(&mut self, target: ResolvedTarget, result: Result<(), String>)
        ensures
            final(self)@ == old(self)@.push(star_outcome(target@, result)),
    {
        match result {
            Ok(()) => self.record(Outcome::Starred(target)),
            Err(detail) => self.record(Outcome::Failed(PipelineError::Action { target, detail })),
        }
    }

    /// Whether any outcome so far is a failure.
    pub fn failed(&self) -> (r: bool)
        ensures
            r == any_failed(self@),
    {
        let mut i: usize = 0;
        while i < self.outcomes.len()
            invariant
                i <= self.outcomes@.len(),
                forall|j: int| 0 <= j < i ==> !(#[trigger] self@[j]).is_failure(),
            decreases self.outcomes@.len() - i,
        {
            if self.outcomes[i].is_failure() {
                assert(self@[i as int].is_failure());
                return true;
            }
            i += 1;
        }
        false
    }

    /// The process status of the run: 0 where no outcome is a failure, 1 otherwise.
    pub fn exit_code(&self) -> (r: i32)
        ensures
            r == (if any_failed(self@) { 1i32 } else { 0i32 }),
    {
        if self.failed() {
            1
        } else {
            0
        }
    }
}

/// A target as a sequence of at most one element.
pub open spec fn target_seq(t: Option<TargetModel>) -> Seq<TargetModel> {
    match t {
        Some(t) => seq![t],
        None => Seq::empty(),
    }
}

/// The outcomes that a run collects from these registry responses, each given
/// with its dependency's name, taken in this order.
pub open spec fn fetch_phase_outcomes(items: Seq<(Seq<char>, Result<Crate, String>)>) -> Seq<OutcomeModel>
    decreases items.len(),
{
    if items.len() == 0 {
        Seq::empty()
    } else {
        fetch_phase_outcomes(items.drop_last()) + fetch_outcomes(items.last().0, items.last().1)
    }
}

/// The targets that a run hands to the star call from these registry
/// responses, taken in this order.
pub open spec fn fetch_phase_targets(items: Seq<(Seq<char>, Result<Crate, String>)>) -> Seq<TargetModel>
    decreases items.len(),
{
    if items.len() == 0 {
        Seq::empty()
    } else {
        fetch_phase_targets(items.drop_last()) + target_seq(fetch_target(items.last().1))
    }
}

proof fn lemma_fetch_phase_append(a: Seq<(Seq<char>, Result<Crate, String>)>, b: Seq<(Seq<char>, Result<Crate, String>)>)
    ensures
        fetch_phase_outcomes(a + b) == fetch_phase_outcomes(a) + fetch_phase_outcomes(b),
        fetch_phase_targets(a + b) == fetch_phase_targets(a) + fetch_phase_targets(b),
    decreases b.len(),
{
    if b.len() == 0 {
        assert(a + b =~= a);
        assert(fetch_phase_outcomes(a) + fetch_phase_outcomes(b) =~= fetch_phase_outcomes(a));
        assert(fetch_phase_targets(a) + fetch_phase_targets(b) =~= fetch_phase_targets(a));
    } else {
        assert((a + b).drop_last() =~= a + b.drop_last());
        assert((a + b).last() == b.last());
        lemma_fetch_phase_append(a, b.drop_last());
        let x = b.last();
        assert(fetch_phase_outcomes(a) + fetch_phase_outcomes(b.drop_last()) + fetch_outcomes(x.0, x.1)
            =~= fetch_phase_outcomes(a) + (fetch_phase_outcomes(b.drop_last()) + fetch_outcomes(x.0, x.1)));
        assert(fetch_phase_targets(a) + fetch_phase_targets(b.drop_last()) + target_seq(fetch_target(x.1))
            =~= fetch_phase_targets(a) + (fetch_phase_targets(b.drop_last()) + target_seq(fetch_target(x.1))));
    }
}

proof fn lemma_fetched_all_ok(items: Seq<(Seq<char>, Result<Crate, String>)>)
    requires
        forall|i: int| 0 <= i < items.len() ==> (#[trigger] items[i]).1 is Ok,
    ensures
        fetch_phase_outcomes(items) == Seq::<OutcomeModel>::empty(),
    decreases items.len(),
{
    if items.len() > 0 {
        assert(items.last() == items[items.len() - 1]);
        lemma_fetched_all_ok(items.drop_last());
        assert(fetch_phase_outcomes(items) =~= Seq::<OutcomeModel>::empty());
    }
}

/// Where every response either failed or resolves, each dependency yields
/// exactly one of a fetch failure and a target for the star call.
pub proof fn lemma_one_result_per_dependency(items: Seq<(Seq<char>, Result<Crate, String>)>)
    requires
        forall|i: int| 0 <= i < items.len() ==> (#[trigger] items[i]).1 is Err || fetch_target(items[i].1) is Some,
    ensures
        fetch_phase_outcomes(items).len() + fetch_phase_targets(items).len() == items.len(),
    decreases items.len(),
{
    if items.len() > 0 {
        assert(items.last() == items[items.len() - 1]);
        assert forall|i: int| 0 <= i < items.drop_last().len() implies (#[trigger] items.drop_last()[i]).1 is Err
            || fetch_target(items.drop_last()[i].1) is Some by {
            assert(items.drop_last()[i] == items[i]);
        }
        lemma_one_result_per_dependency(items.drop_last());
    }
}

/// Where exactly one of a run's registry fetches fails, that dependency's
/// failure is the only outcome the fetches produce, and the targets handed on
/// to the star call are exactly those the other responses give without it.
pub proof fn lemma_fetch_failure_isolated(items: Seq<(Seq<char>, Result<Crate, String>)>, k: int)
    requires
        0 <= k < items.len(),
        items[k].1 is Err,
        forall|i: int| 0 <= i < items.len() && i != k ==> (#[trigger] items[i]).1 is Ok,
    ensures
        fetch_phase_outcomes(items) == seq![
            OutcomeModel::FetchFailed { dependency: items[k].0, detail: items[k].1->Err_0@ },
        ],
        fetch_phase_targets(items) == fetch_phase_targets(items.remove(k)),
{
    let pre = items.take(k);
    let one = seq![items[k]];
    let post = items.skip(k + 1);
    assert(items =~= pre + one + post);
    assert(items.remove(k) =~= pre + post);
    assert forall|i: int| 0 <= i < pre.len() implies (#[trigger] pre[i]).1 is Ok by {
        assert(pre[i] == items[i]);
    }
    assert forall|i: int| 0 <= i < post.len() implies (#[trigger] post[i]).1 is Ok by {
        assert(post[i] == items[k + 1 + i]);
    }
    lemma_fetched_all_ok(pre);
    lemma_fetched_all_ok(post);
    lemma_fetch_phase_append(pre + one, post);
    lemma_fetch_phase_append(pre, one);
    lemma_fetch_phase_append(pre, post);
    assert(one.drop_last() =~= Seq::<(Seq<char>, Result<Crate, String>)>::empty());
    assert(one.last() == items[k]);
    assert(fetch_phase_outcomes(one.drop_last()) == Seq::<OutcomeModel>::empty());
    assert(fetch_phase_targets(one.drop_last()) == Seq::<TargetModel>::empty());
    assert(fetch_phase_outcomes(one) =~= fetch_outcomes(items[k].0, items[k].1));
    assert(fetch_phase_outcomes(items) =~= fetch_outcomes(items[k].0, items[k].1));
    assert(fetch_phase_targets(one) =~= Seq::<TargetModel>::empty());
    assert(fetch_phase_targets(items) =~= fetch_phase_targets(pre) + fetch_phase_targets(post));
}

} // verus!

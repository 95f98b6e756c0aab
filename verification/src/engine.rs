//! The fan-out/fan-in engine: admits tasks through the governor, records one
//! outcome per completed probe, and appends matched URLs to the store.
//!
//! The engine is a state machine. The binary drives it: it asks for the next
//! admissible task, performs the network call, and hands the transport
//! result back. Every step preserves the engine's invariant, so the
//! concurrency bound and the outcome accounting hold in every reachable
//! state.

use vstd::prelude::*;
use crate::generator::generate_tasks;
use crate::generator::product;
use crate::governor::Governor;
use crate::outcome::classify;
use crate::outcome::classify_spec;
use crate::outcome::Outcome;
use crate::outcome::OutcomeView;
use crate::outcome::ProbeResponse;
use crate::outcome::ProbeResponseView;
use crate::sink::MatchStore;
use crate::task::Task;
use crate::task::TaskView;

verus! {

/// The URLs of the matched outcomes among `outs`, in outcome order.
pub open spec fn matched_urls(outs: Seq<OutcomeView>) -> Seq<Seq<char>>
    decreases outs.len(),
{
    if outs.len() == 0 {
        Seq::empty()
    } else {
        matched_urls(outs.drop_last()) + (match outs.last() {
            OutcomeView::Matched(u) => seq![u],
            _ => Seq::<Seq<char>>::empty(),
        })
    }
}

/// The outcomes of one full run in which task `k`'s probe produced
/// `responses[k]`.
pub open spec fn run_outcomes(tasks: Seq<TaskView>, responses: Seq<ProbeResponseView>) -> Seq<
    OutcomeView,
> {
    Seq::new(tasks.len(), |k: int| classify_spec(tasks[k].url(), responses[k]))
}

/// The store's contents after one full run starting from `store`: the run's
/// matched URLs, appended in outcome order, after everything already there.
pub open spec fn store_after_run(
    store: Seq<Seq<char>>,
    tasks: Seq<TaskView>,
    responses: Seq<ProbeResponseView>,
) -> Seq<Seq<char>> {
    store + matched_urls(run_outcomes(tasks, responses))
}

/// The scanner's engine state: the generated task set, how many tasks have
/// been admitted, the admission gate, the logged outcomes, and the match
/// store.
pub struct Engine {
    tasks: Vec<Task>,
    next: usize,
    governor: Governor,
    outcomes: Vec<Outcome>,
    store: MatchStore,
}

impl Engine {
    /// The generated task set, host-major, path-minor.
    pub closed spec fn tasks(&self) -> Seq<TaskView> {
        self.tasks.deep_view()
    }

    /// How many tasks have been admitted so far.
    pub closed spec fn admitted(&self) -> int {
        self.next as int
    }

    /// The configured worker limit.
    pub closed spec fn limit(&self) -> nat {
        self.governor.limit()
    }

    /// The number of probes currently in flight (permits outstanding).
    pub closed spec fn active(&self) -> nat {
        self.governor.active()
    }

    /// The logged outcomes, in completion order.
    pub closed spec fn outcomes(&self) -> Seq<OutcomeView> {
        self.outcomes.deep_view()
    }

    /// The match records, oldest first.
    pub closed spec fn records(&self) -> Seq<Seq<char>> {
        self.store@
    }

    /// The engine's invariant, preserved by every step:
    /// - at most `limit` probes are in flight, and the limit is positive;
    /// - tasks are admitted in order, never past the end of the task set;
    /// - every admitted task is either still in flight or has exactly one
    ///   logged outcome — no task is dropped or double-counted;
    /// - the store holds exactly the URLs of the matched outcomes.
    pub open spec fn wf(&self) -> bool {
        &&& 1 <= self.limit()
        &&& self.active() <= self.limit()
        &&& 0 <= self.admitted() <= self.tasks().len()
        &&& self.outcomes().len() + self.active() == self.admitted()
        &&& self.records() == matched_urls(self.outcomes())
    }

    /// A run is finished when every task has been admitted and no probe is
    /// still in flight.
    pub open spec fn finished(&self) -> bool {
        &&& self.admitted() == self.tasks().len()
        &&& self.active() == 0
    }

    /// A fresh engine over the full cartesian product of `hosts` and
    /// `paths`, gated at `workers` concurrent probes.
    pub fn new(hosts: &Vec<String>, paths: &Vec<String>, workers: usize) -> (e: Engine)
        requires
            1 <= workers,
        ensures
            e.wf(),
            e.tasks() == product(hosts.deep_view(), paths.deep_view()),
            e.admitted() == 0,
            e.active() == 0,
            e.limit() == workers,
            e.outcomes() == Seq::<OutcomeView>::empty(),
            e.records() == Seq::<Seq<char>>::empty(),
    {
        let e = Engine {
            tasks: generate_tasks(hosts, paths),
            next: 0,
            governor: Governor::new(workers),
            outcomes: Vec::new(),
            store: MatchStore::new(),
        };
        proof {
            assert(e.outcomes() =~= Seq::<OutcomeView>::empty());
        }
        e
    }

    /// Start one probe: when capacity remains and the task set is not yet
    /// exhausted, hand out the next (host, path) pair and hold a permit for
    /// it until [`Engine::complete`] is called.
    pub fn try_admit(&mut self) -> (t: Option<Task>)
        requires
            old(self).wf(),
        ensures
            final(self).wf(),
            final(self).tasks() == old(self).tasks(),
            final(self).limit() == old(self).limit(),
            final(self).outcomes() == old(self).outcomes(),
            final(self).records() == old(self).records(),
            match t {
                Some(task) => {
                    &&& old(self).admitted() < old(self).tasks().len()
                    &&& old(self).active() < old(self).limit()
                    &&& task@ == old(self).tasks()[old(self).admitted()]
                    &&& final(self).admitted() == old(self).admitted() + 1
                    &&& final(self).active() == old(self).active() + 1
                },
                None => {
                    &&& (old(self).admitted() == old(self).tasks().len() || old(self).active()
                        == old(self).limit())
                    &&& final(self).admitted() == old(self).admitted()
                    &&& final(self).active() == old(self).active()
                },
            },
    {
        if self.next < self.tasks.len() {
            if self.governor.try_acquire() {
                let task = self.tasks[self.next].duplicate();
                self.next = self.next + 1;
                Some(task)
            } else {
                None
            }
        } else {
            None
        }
    }

    /// Complete one in-flight probe: release its permit, classify the
    /// transport result, log the outcome, and record the URL if it matched.
    pub fn complete(&mut self, url: String, resp: ProbeResponse) -> (o: Outcome)
        requires
            old(self).wf(),
            1 <= old(self).active(),
        ensures
            final(self).wf(),
            final(self).tasks() == old(self).tasks(),
            final(self).limit() == old(self).limit(),
            final(self).admitted() == old(self).admitted(),
            final(self).active() == old(self).active() - 1,
            o@ == classify_spec(url@, resp@),
            final(self).outcomes() == old(self).outcomes().push(o@),
            final(self).records() == old(self).records() + (match classify_spec(url@, resp@) {
                OutcomeView::Matched(u) => seq![u],
                _ => Seq::<Seq<char>>::empty(),
            }),
    {
        self.governor.release();
        let o = classify(url, resp);
        let logged = o.duplicate();
        self.outcomes.push(logged);
        proof {
            let outs = old(self).outcomes();
            assert(self.outcomes() =~= outs.push(o@));
            assert(outs.push(o@).drop_last() =~= outs);
        }
        match &o {
            Outcome::Matched(u) => {
                self.store.append(u.clone());
                proof {
                    assert(self.records() =~= old(self).records() + seq![o@.url()]);
                }
            },
            _ => {
                proof {
                    assert(self.records() =~= old(self).records());
                    assert(old(self).records() + Seq::<Seq<char>>::empty() =~= old(
                        self,
                    ).records());
                }
            },
        }
        o
    }

    pub fn task_count(&self) -> (n: usize)
        ensures
            n == self.tasks().len(),
    {
        self.tasks.len()
    }

    pub fn outcome_count(&self) -> (n: usize)
        ensures
            n == self.outcomes().len(),
    {
        self.outcomes.len()
    }

    pub fn outcome_at(&self, i: usize) -> (o: &Outcome)
        requires
            i < self.outcomes().len(),
        ensures
            o@ == self.outcomes()[i as int],
    {
        &self.outcomes[i]
    }

    pub fn match_store(&self) -> (s: &MatchStore)
        ensures
            s@ == self.records(),
    {
        &self.store
    }

    pub fn is_finished(&self) -> (r: bool)
        requires
            self.wf(),
        ensures
            r == self.finished(),
    {
        self.next == self.tasks.len() && self.governor.active_count() == 0
    }

    /// At most the configured worker limit of probes is ever in flight: the
    /// concurrency bound holds in every well-formed engine state.
    pub proof fn lemma_inflight_bounded(&self)
        requires
            self.wf(),
        ensures
            self.active() <= self.limit(),
    {
    }

    /// No task is dropped or double-counted: once a run has finished, the
    /// number of logged outcomes equals the number of generated tasks.
    pub proof fn lemma_finished_accounts_every_task(&self)
        requires
            self.wf(),
            self.finished(),
        ensures
            self.outcomes().len() == self.tasks().len(),
    {
    }
}

/// Run every generated task to completion, one at a time, probing with
/// pre-collected transport results: `responses[k]` is what task `k`'s probe
/// produced. This is the engine's fan-out/fan-in loop in serialized form;
/// the logged outcomes and the match records are exactly the run model's.
pub fn run_recorded(
    hosts: &Vec<String>,
    paths: &Vec<String>,
    workers: usize,
    responses: Vec<ProbeResponse>,
) -> (e: Engine)
    requires
        1 <= workers,
        responses@.len() == hosts@.len() * paths@.len(),
    ensures
        e.wf(),
        e.finished(),
        e.tasks() == product(hosts.deep_view(), paths.deep_view()),
        e.outcomes() == run_outcomes(e.tasks(), responses.deep_view()),
        e.records() == matched_urls(run_outcomes(e.tasks(), responses.deep_view())),
{
    let ghost resps = responses.deep_view();
    let mut responses = responses;
    let mut e = Engine::new(hosts, paths, workers);
    let ghost all = e.tasks();
    let total = e.task_count();
    let mut k: usize = 0;
    while k < total
        invariant
            e.wf(),
            e.tasks() == all,
            e.limit() == workers,
            1 <= workers,
            e.active() == 0,
            e.admitted() == k,
            k <= total,
            total == all.len(),
            responses@.len() == all.len() - k,
            responses.deep_view() == resps.skip(k as int),
            resps.len() == all.len(),
            e.outcomes().len() == k,
            forall|t: int|
                0 <= t < k ==> e.outcomes()[t] == classify_spec(
                    all[t].url(),
                    resps[t],
                ),
        decreases total - k,
    {
        let task = e.try_admit().unwrap();
        let url = task.target_url();
        let ghost pre_deep = responses.deep_view();
        let ghost pre = responses@;
        let resp = responses.remove(0);
        proof {
            assert(pre_deep[0] == pre[0]@);
            assert(resps.skip(k as int)[0] == resps[k as int]);
            assert(resp@ == resps[k as int]);
            assert forall|i: int| 0 <= i < responses@.len() implies responses.deep_view()[i]
                == resps.skip(k as int + 1)[i] by {
                assert(responses@[i] == pre[i + 1]);
                assert(pre_deep[i + 1] == pre[i + 1]@);
                assert(resps.skip(k as int)[i + 1] == resps[k as int + i + 1]);
                assert(resps.skip(k as int + 1)[i] == resps[k as int + 1 + i]);
            }
            assert(responses.deep_view() =~= resps.skip(k as int + 1));
            assert(url@ == all[k as int].url());
        }
        e.complete(url, resp);
        k = k + 1;
    }
    proof {
        assert(e.outcomes() =~= run_outcomes(all, resps));
    }
    e
}

/// Two runs over the same tasks with the same transport results append the
/// run's matched URLs twice: the store is append-only and never
/// deduplicated across runs.
pub proof fn lemma_second_run_appends_again(
    store: Seq<Seq<char>>,
    tasks: Seq<TaskView>,
    responses: Seq<ProbeResponseView>,
)
    ensures
        store_after_run(store_after_run(store, tasks, responses), tasks, responses)
            == store + matched_urls(run_outcomes(tasks, responses)) + matched_urls(
            run_outcomes(tasks, responses),
        ),
{
}

/// No outcome among `outs` is a match: nothing is recorded.
pub proof fn lemma_matched_urls_none(outs: Seq<OutcomeView>)
    requires
        forall|t: int| 0 <= t < outs.len() ==> !(#[trigger] outs[t] is Matched),
    ensures
        matched_urls(outs) == Seq::<Seq<char>>::empty(),
    decreases outs.len(),
{
    if outs.len() > 0 {
        lemma_matched_urls_none(outs.drop_last());
        assert(matched_urls(outs) =~= Seq::<Seq<char>>::empty());
    }
}

/// Exactly one outcome among `outs` is a match: exactly its URL is
/// recorded, exactly once.
pub proof fn lemma_matched_urls_sole(outs: Seq<OutcomeView>, k: int)
    requires
        0 <= k < outs.len(),
        outs[k] is Matched,
        forall|t: int| 0 <= t < outs.len() && t != k ==> !(#[trigger] outs[t] is Matched),
    ensures
        matched_urls(outs) == seq![outs[k].url()],
    decreases outs.len(),
{
    if k == outs.len() - 1 {
        lemma_matched_urls_none(outs.drop_last());
        assert(matched_urls(outs) =~= seq![outs[k].url()]);
    } else {
        lemma_matched_urls_sole(outs.drop_last(), k);
        assert(matched_urls(outs) =~= seq![outs[k].url()]);
    }
}

/// Exactly one task of the run matches, and it is task `k`.
pub open spec fn sole_match(
    tasks: Seq<TaskView>,
    responses: Seq<ProbeResponseView>,
    k: int,
) -> bool {
    &&& 0 <= k < tasks.len()
    &&& classify_spec(tasks[k].url(), responses[k]) is Matched
    &&& forall|t: int|
        0 <= t < tasks.len() && t != k ==> !(#[trigger] classify_spec(
            tasks[t].url(),
            responses[t],
        ) is Matched)
}

/// Idempotence of the scanner, as documented: running twice over a fixed
/// task set in which exactly one target matches leaves two match records
/// for that target — append-only, no deduplication across runs.
pub proof fn lemma_sole_match_two_runs(
    store: Seq<Seq<char>>,
    tasks: Seq<TaskView>,
    responses: Seq<ProbeResponseView>,
    k: int,
)
    requires
        responses.len() == tasks.len(),
        sole_match(tasks, responses, k),
    ensures
        store_after_run(store_after_run(store, tasks, responses), tasks, responses) == store
            + seq![tasks[k].url(), tasks[k].url()],
{
    let outs = run_outcomes(tasks, responses);
    assert(outs[k] == classify_spec(tasks[k].url(), responses[k]));
    lemma_matched_urls_sole(outs, k);
    assert(outs[k].url() == tasks[k].url());
    assert(store + matched_urls(outs) + matched_urls(outs) =~= store + seq![
        tasks[k].url(),
        tasks[k].url(),
    ]);
}

} // verus!

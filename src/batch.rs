use vstd::prelude::*;

verus! {

/// The terminal result of downloading one episode.
#[derive(Debug, PartialEq, Eq)]
pub enum EpisodeResult {
    /// Downloaded; carries the episode title.
    Success(String),
    /// Failed; carries the error's text.
    Failure(String),
}

/// One episode's outcome, tagged with its position in the series.
#[derive(Clone, Debug, PartialEq, Eq)]
pub struct DownloadOutcome {
    pub sequence_index: usize,
    pub result: EpisodeResult,
}

impl Clone for EpisodeResult {
    fn clone(&self) -> (r: Self)
        ensures
            r == *self,
    {
        match self {
            EpisodeResult::Success(t) => EpisodeResult::Success(t.clone()),
            EpisodeResult::Failure(e) => EpisodeResult::Failure(e.clone()),
        }
    }
}

/// A download batch over `n` episodes, run by at most `concurrency` tasks at
/// a time. Episodes are started in series order; each ends with one result.
pub struct Batch {
    concurrency: usize,
    next: usize,
    active: usize,
    results: Vec<Option<EpisodeResult>>,
    running: Ghost<Set<int>>,
}

/// The episodes that have been started and have no result yet.
pub open spec fn running_of(next: int, results: Seq<Option<EpisodeResult>>) -> Set<int> {
    Set::new(|i: int| 0 <= i < next && results[i] is None)
}

impl Batch {
    pub closed spec fn spec_concurrency(&self) -> nat {
        self.concurrency as nat
    }

    /// How many episodes have been started.
    pub closed spec fn spec_started(&self) -> nat {
        self.next as nat
    }

    /// How many started episodes have no result yet.
    pub closed spec fn spec_active(&self) -> nat {
        self.active as nat
    }

    /// The result recorded for each episode, if any.
    pub closed spec fn spec_results(&self) -> Seq<Option<EpisodeResult>> {
        self.results@
    }

    pub closed spec fn wf(&self) -> bool {
        &&& self.concurrency >= 1
        &&& self.next <= self.results@.len()
        &&& forall|i: int| self.next <= i < self.results@.len() ==> self.results@[i] is None
        &&& self.running@ == running_of(self.next as int, self.results@)
        &&& self.running@.finite()
        &&& self.active == self.running@.len()
        &&& self.active <= self.concurrency
    }

    /// Whether every episode has its result.
    pub open spec fn spec_done(&self) -> bool {
        forall|i: int| 0 <= i < self.spec_results().len() ==> self.spec_results()[i] is Some
    }

    /// A batch over `n` episodes, none started.
    pub fn new(n: usize, concurrency: usize) -> (r: Self)
        requires
            concurrency >= 1,
        ensures
            r.wf(),
            r.spec_concurrency() == concurrency,
            r.spec_started() == 0,
            r.spec_active() == 0,
            r.spec_results() == Seq::new(n as nat, |i: int| None::<EpisodeResult>),
    {
        let mut results: Vec<Option<EpisodeResult>> = Vec::new();
        let mut k: usize = 0;
        while k < n
            invariant
                k <= n,
                results@ == Seq::new(k as nat, |i: int| None::<EpisodeResult>),
            decreases n - k,
        {
            results.push(None);
            k = k + 1;
            assert(results@ =~= Seq::new(k as nat, |i: int| None::<EpisodeResult>));
        }
        let ghost running = running_of(0, results@);
        assert(running =~= Set::empty());
        Batch { concurrency, next: 0, active: 0, results, running: Ghost(running) }
    }

    /// The number of episodes.
    pub fn len(&self) -> (r: usize)
        ensures
            r == self.spec_results().len(),
    {
        self.results.len()
    }

    pub fn concurrency(&self) -> (r: usize)
        ensures
            r == self.spec_concurrency(),
    {
        self.concurrency
    }

    pub fn active(&self) -> (r: usize)
        ensures
            r == self.spec_active(),
    {
        self.active
    }

    pub fn started(&self) -> (r: usize)
        ensures
            r == self.spec_started(),
    {
        self.next
    }

    /// Admits the next episode in series order when a slot is free and one
    /// is still queued, and returns its index.
    pub fn start_next(&mut self) -> (r: Option<usize>)
        requires
            old(self).wf(),
        ensures
            final(self).wf(),
            final(self).spec_concurrency() == old(self).spec_concurrency(),
            final(self).spec_results() == old(self).spec_results(),
            old(self).spec_active() < old(self).spec_concurrency()
                && old(self).spec_started() < old(self).spec_results().len() ==> {
                &&& r == Some(old(self).spec_started() as usize)
                &&& final(self).spec_started() == old(self).spec_started() + 1
                &&& final(self).spec_active() == old(self).spec_active() + 1
            },
            !(old(self).spec_active() < old(self).spec_concurrency()
                && old(self).spec_started() < old(self).spec_results().len()) ==> {
                &&& r is None
                &&& final(self).spec_started() == old(self).spec_started()
                &&& final(self).spec_active() == old(self).spec_active()
            },
    {
        if self.active < self.concurrency && self.next < self.results.len() {
            let i = self.next;
            let ghost old_running = self.running@;
            proof {
                assert(!old_running.contains(i as int));
            }
            self.next = i + 1;
            self.active = self.active + 1;
            self.running = Ghost(old_running.insert(i as int));
            assert(self.running@ =~= running_of(self.next as int, self.results@));
            Some(i)
        } else {
            None
        }
    }

    /// Whether episode `i` has been started and has no result yet.
    pub fn is_running(&self, i: usize) -> (r: bool)
        requires
            self.wf(),
        ensures
            r == (i < self.spec_started() && self.spec_results()[i as int] is None),
    {
        i < self.next && self.results[i].is_none()
    }

    /// Records the result of a running episode, which frees its slot.
    /// No other episode's result changes.
    pub fn record(&mut self, i: usize, result: EpisodeResult)
        requires
            old(self).wf(),
            i < old(self).spec_started(),
            old(self).spec_results()[i as int] is None,
        ensures
            final(self).wf(),
            final(self).spec_concurrency() == old(self).spec_concurrency(),
            final(self).spec_started() == old(self).spec_started(),
            final(self).spec_active() + 1 == old(self).spec_active(),
            final(self).spec_results() == old(self).spec_results().update(i as int, Some(result)),
    {
        let ghost old_running = self.running@;
        assert(old_running.contains(i as int));
        self.results.set(i, Some(result));
        self.running = Ghost(old_running.remove(i as int));
        self.active = self.active - 1;
        assert(self.running@ =~= running_of(self.next as int, self.results@));
    }

    /// Whether every episode has its result.
    pub fn is_done(&self) -> (r: bool)
        requires
            self.wf(),
        ensures
            r == self.spec_done(),
    {
        let mut k: usize = 0;
        while k < self.results.len()
            invariant
                k <= self.results@.len(),
                forall|j: int| 0 <= j < k ==> self.results@[j] is Some,
            decreases self.results@.len() - k,
        {
            if self.results[k].is_none() {
                return false;
            }
            k = k + 1;
        }
        true
    }

    /// The outcomes in series order: one per episode, the `i`-th tagged `i`
    /// and holding the result recorded for episode `i`, whatever order the
    /// results came in.
    pub fn ordered_outcomes(&self) -> (r: Vec<DownloadOutcome>)
        requires
            self.wf(),
            self.spec_done(),
        ensures
            r@.len() == self.spec_results().len(),
            forall|i: int| 0 <= i < r@.len() ==> r@[i].sequence_index as int == i,
            forall|i: int| 0 <= i < r@.len() ==> Some(r@[i].result) == self.spec_results()[i],
    {
        let mut out: Vec<DownloadOutcome> = Vec::new();
        let mut k: usize = 0;
        while k < self.results.len()
            invariant
                self.spec_done(),
                k <= self.results@.len(),
                out@.len() == k,
                forall|i: int| 0 <= i < k ==> out@[i].sequence_index as int == i,
                forall|i: int| 0 <= i < k ==> Some(out@[i].result) == self.results@[i],
            decreases self.results@.len() - k,
        {
            match &self.results[k] {
                Some(res) => {
                    let c = res.clone();
                    assert(Some(c) == self.results@[k as int]);
                    out.push(DownloadOutcome { sequence_index: k, result: c });
                    assert(out@[k as int].result == c);
                    assert(out@[k as int].sequence_index == k);
                },
                None => {
                    assert(self.spec_results()[k as int] is Some);
                },
            }
            k = k + 1;
        }
        out
    }
}

/// The line that reports one outcome: `✅<title>` or `下载失败: <error>`.
pub open spec fn outcome_line(r: EpisodeResult) -> Seq<char> {
    match r {
        EpisodeResult::Success(t) => "✅"@ + t@,
        EpisodeResult::Failure(e) => "下载失败: "@ + e@,
    }
}

/// The line printed as soon as an episode fails.
pub fn failure_line(err: &str) -> (r: String)
    ensures
        r@ == "下载失败: "@ + err@,
{
    String::from_str("下载失败: ").concat(err)
}

/// The label a progress unit shows once its episode is complete.
pub fn completion_label(title: &str) -> (r: String)
    ensures
        r@ == "完成: "@ + title@,
{
    String::from_str("完成: ").concat(title)
}

/// The summary: one line per outcome, in the order given.
pub fn summary_lines(outcomes: &Vec<DownloadOutcome>) -> (r: Vec<String>)
    ensures
        r@.len() == outcomes@.len(),
        forall|i: int| 0 <= i < r@.len() ==> r@[i]@ == outcome_line(outcomes@[i].result),
{
    let mut out: Vec<String> = Vec::new();
    let mut k: usize = 0;
    while k < outcomes.len()
        invariant
            k <= outcomes@.len(),
            out@.len() == k,
            forall|i: int| 0 <= i < k ==> out@[i]@ == outcome_line(outcomes@[i].result),
        decreases outcomes@.len() - k,
    {
        let line = match &outcomes[k].result {
            EpisodeResult::Success(t) => String::from_str("✅").concat(t.as_str()),
            EpisodeResult::Failure(e) => failure_line(e.as_str()),
        };
        out.push(line);
        k = k + 1;
    }
    out
}

/// However many episodes a batch holds, no more than its concurrency are
/// ever running at once, and the running count is exactly the number of
/// started episodes without a result.
pub proof fn lemma_active_bounded(b: Batch)
    requires
        b.wf(),
    ensures
        b.spec_active() <= b.spec_concurrency(),
        b.spec_active() == running_of(b.spec_started() as int, b.spec_results()).len(),
        b.spec_started() <= b.spec_results().len(),
{
}

/// Results recorded for two different episodes give the same batch state
/// in either order: the final results do not depend on completion order.
pub proof fn lemma_completion_order_irrelevant(
    results: Seq<Option<EpisodeResult>>,
    i: int,
    ri: EpisodeResult,
    j: int,
    rj: EpisodeResult,
)
    requires
        0 <= i < results.len(),
        0 <= j < results.len(),
        i != j,
    ensures
        results.update(i, Some(ri)).update(j, Some(rj)) == results.update(j, Some(rj)).update(
            i,
            Some(ri),
        ),
{
    assert(results.update(i, Some(ri)).update(j, Some(rj)) =~= results.update(j, Some(rj)).update(
        i,
        Some(ri),
    ));
}

/// A finished batch accounts for every episode exactly once: outcomes tagged
/// `0..n` in order hold no repeated index, every episode was started, and no
/// task is left running.
pub proof fn lemma_one_outcome_per_episode(b: Batch, r: Seq<DownloadOutcome>)
    requires
        b.wf(),
        b.spec_done(),
        r.len() == b.spec_results().len(),
        forall|i: int| 0 <= i < r.len() ==> r[i].sequence_index as int == i,
    ensures
        forall|i: int, j: int|
            0 <= i < r.len() && 0 <= j < r.len() && i != j ==> r[i].sequence_index
                != r[j].sequence_index,
        b.spec_active() == 0,
        b.spec_started() == b.spec_results().len(),
{
    lemma_active_bounded(b);
    if b.spec_started() < b.spec_results().len() {
        assert(b.spec_results()[b.spec_started() as int] is Some);
    }
    assert(running_of(b.spec_started() as int, b.spec_results()) =~= Set::empty());
}

/// Recording one episode's failure leaves every other episode's result as
/// it was, and frees a slot for a queued episode.
pub proof fn lemma_failure_isolated(b: Batch, after: Batch, i: int, err: String)
    requires
        b.wf(),
        after.wf(),
        after.spec_concurrency() == b.spec_concurrency(),
        after.spec_started() == b.spec_started(),
        after.spec_active() + 1 == b.spec_active(),
        after.spec_results() == b.spec_results().update(i, Some(EpisodeResult::Failure(err))),
        0 <= i < b.spec_results().len(),
    ensures
        forall|j: int| 0 <= j < b.spec_results().len() && j != i ==> after.spec_results()[j]
            == b.spec_results()[j],
        after.spec_results()[i] == Some(EpisodeResult::Failure(err)),
        after.spec_active() < after.spec_concurrency(),
{
    lemma_active_bounded(b);
}

/// The results after recording each `(episode, result)` completion in turn.
pub open spec fn apply_records(
    results: Seq<Option<EpisodeResult>>,
    events: Seq<(int, EpisodeResult)>,
) -> Seq<Option<EpisodeResult>>
    decreases events.len(),
{
    if events.len() == 0 {
        results
    } else {
        apply_records(results, events.drop_last()).update(
            events.last().0,
            Some(events.last().1),
        )
    }
}

/// Each completion names an episode of the batch, and no episode twice.
pub open spec fn distinct_records(n: int, events: Seq<(int, EpisodeResult)>) -> bool {
    &&& forall|i: int| 0 <= i < events.len() ==> 0 <= #[trigger] events[i].0 < n
    &&& forall|i: int, j: int|
        0 <= i < events.len() && 0 <= j < events.len() && i != j ==> #[trigger] events[i].0
            != #[trigger] events[j].0
}

proof fn lemma_apply_records_at(results: Seq<Option<EpisodeResult>>, events: Seq<(int, EpisodeResult)>)
    requires
        distinct_records(results.len() as int, events),
    ensures
        apply_records(results, events).len() == results.len(),
        forall|i: int| 0 <= i < events.len() ==> apply_records(results, events)[#[trigger] events[i].0]
            == Some(events[i].1),
        forall|k: int| 0 <= k < results.len() && (forall|i: int| 0 <= i < events.len() ==> #[trigger] events[i].0 != k)
            ==> apply_records(results, events)[k] == results[k],
    decreases events.len(),
{
    if events.len() > 0 {
        let prev = events.drop_last();
        assert(distinct_records(results.len() as int, prev)) by {
            assert forall|i: int| 0 <= i < prev.len() implies 0 <= #[trigger] prev[i].0 < results.len() by {
                assert(prev[i] == events[i]);
            }
            assert forall|i: int, j: int|
                0 <= i < prev.len() && 0 <= j < prev.len() && i != j implies #[trigger] prev[i].0
                    != #[trigger] prev[j].0 by {
                assert(prev[i] == events[i]);
                assert(prev[j] == events[j]);
            }
        }
        lemma_apply_records_at(results, prev);
        let last = events.len() - 1;
        assert forall|i: int| 0 <= i < events.len() implies apply_records(results, events)[#[trigger] events[i].0]
            == Some(events[i].1) by {
            if i < last {
                assert(prev[i] == events[i]);
                assert(events[i].0 != events[last].0);
            }
        }
        assert forall|k: int| 0 <= k < results.len() && (forall|i: int| 0 <= i < events.len() ==> #[trigger] events[i].0 != k)
            implies apply_records(results, events)[k] == results[k] by {
            assert(events[last].0 != k);
            assert forall|i: int| 0 <= i < prev.len() implies #[trigger] prev[i].0 != k by {
                assert(prev[i] == events[i]);
            }
        }
    }
}

/// The results of a batch do not depend on the order in which its episodes
/// complete: the same completions, recorded in any two orders, leave the
/// same result for every episode.
pub proof fn lemma_records_order_free(
    results: Seq<Option<EpisodeResult>>,
    first: Seq<(int, EpisodeResult)>,
    second: Seq<(int, EpisodeResult)>,
)
    requires
        distinct_records(results.len() as int, first),
        distinct_records(results.len() as int, second),
        first.to_set() == second.to_set(),
    ensures
        apply_records(results, first) == apply_records(results, second),
{
    lemma_apply_records_at(results, first);
    lemma_apply_records_at(results, second);
    let a = apply_records(results, first);
    let b = apply_records(results, second);
    assert forall|k: int| 0 <= k < results.len() implies a[k] == b[k] by {
        if exists|i: int| 0 <= i < first.len() && first[i].0 == k {
            let i = choose|i: int| 0 <= i < first.len() && first[i].0 == k;
            assert(first.to_set().contains(first[i]));
            assert(second.to_set().contains(first[i]));
            assert(second.contains(first[i]));
            let j = choose|j: int| 0 <= j < second.len() && second[j] == first[i];
            assert(a[first[i].0] == Some(first[i].1));
            assert(b[second[j].0] == Some(second[j].1));
            assert(a[k] == b[k]);
        } else if exists|j: int| 0 <= j < second.len() && second[j].0 == k {
            let j = choose|j: int| 0 <= j < second.len() && second[j].0 == k;
            assert(second.to_set().contains(second[j]));
            assert(first.to_set().contains(second[j]));
            assert(first.contains(second[j]));
            let i = choose|i: int| 0 <= i < first.len() && first[i] == second[j];
            assert(first[i].0 == k);
            assert(false);
        } else {
            assert forall|i: int| 0 <= i < first.len() implies #[trigger] first[i].0 != k by {}
            assert forall|j: int| 0 <= j < second.len() implies #[trigger] second[j].0 != k by {}
            assert(a[k] == results[k]);
            assert(b[k] == results[k]);
        }
    }
    assert(a =~= b);
}

} // verus!

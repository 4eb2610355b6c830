//! Task runner: the bookkeeping that guarantees every spawned task is
//! observed to completion exactly once.
//!
//! The runner owns one counter of spawned tasks and the ordered record of
//! observed outcomes. A task is spawned before it can be observed; each
//! observation records exactly one outcome, failures and successes alike; the
//! run is complete exactly when every spawned task has contributed one
//! outcome — never before, and one task's failure neither cancels nor blocks
//! the others' observations.

use vstd::prelude::*;
use crate::Outcome;

verus! {

/// What one concurrent task executes once spawned: a setup sequence run
/// once, then one statement repeated a bounded number of times.
pub struct TaskPlan {
    /// Statements run once, in order, when the task starts.
    pub setup: Vec<String>,
    /// The statement run repeatedly after the setup.
    pub repeat: String,
    /// How many times the repeated statement is run.
    pub repeat_count: usize,
}

/// A unit of work that knows how to lay out its own concurrent tasks, given
/// the credentials of the run. Planning may fail only for setup reasons;
/// failures during a planned task's execution are that task's outcome
/// instead.
pub trait Job {
    /// The plans of the tasks this job spawns, one per task, or the
    /// diagnostic text of a setup failure.
    fn plan(&mut self, url: &str, token: &str) -> Result<Vec<TaskPlan>, String>;
}

/// The one in-scope job: a single connection that creates one table, then
/// issues a bounded number of single-row inserts sequentially within the
/// same task.
pub struct SingleConn {}

/// How many single-row inserts the single-connection job issues.
pub const SINGLE_CONN_INSERTS: usize = 50000;

impl SingleConn {
    /// The single-connection plan: one task that creates the target table
    /// and then inserts one fixed-size random row at a time.
    pub fn single_conn_plan() -> (r: Vec<TaskPlan>)
        ensures
            r@.len() == 1,
            r@[0].setup@.len() == 1,
            r@[0].setup@[0]@ == "CREATE TABLE IF NOT EXISTS foo (x BLOB)"@,
            r@[0].repeat@ == "INSERT INTO foo values (randomblob(6000))"@,
            r@[0].repeat_count == SINGLE_CONN_INSERTS,
    {
        let mut setup: Vec<String> = Vec::new();
        setup.push(String::from_str("CREATE TABLE IF NOT EXISTS foo (x BLOB)"));
        let plan = TaskPlan {
            setup,
            repeat: String::from_str("INSERT INTO foo values (randomblob(6000))"),
            repeat_count: SINGLE_CONN_INSERTS,
        };
        let mut r: Vec<TaskPlan> = Vec::new();
        r.push(plan);
        r
    }
}

impl Job for SingleConn {
    /// Planning the single-connection job never fails: it has no setup of
    /// its own, and it lays out exactly the one bounded task.
    fn plan(&mut self, url: &str, token: &str) -> (r: Result<Vec<TaskPlan>, String>)
        ensures
            r matches Ok(ps) && ps@.len() == 1 && ps@[0].setup@.len() == 1
                && ps@[0].setup@[0]@ == "CREATE TABLE IF NOT EXISTS foo (x BLOB)"@
                && ps@[0].repeat@ == "INSERT INTO foo values (randomblob(6000))"@
                && ps@[0].repeat_count == SINGLE_CONN_INSERTS,
    {
        Ok(Self::single_conn_plan())
    }
}

/// How many of the outcomes are failures.
pub open spec fn spec_failure_count(os: Seq<Outcome>) -> int
    decreases os.len(),
{
    if os.len() == 0 {
        0
    } else {
        spec_failure_count(os.drop_last()) + if os.last() is Failure {
            1int
        } else {
            0int
        }
    }
}

/// Owns a run: the credentials shared read-only by every task, the job that
/// lays the tasks out, and the record of spawned and observed tasks.
pub struct Runner<T> {
    url: String,
    token: String,
    job: T,
    spawned: usize,
    outcomes: Vec<Outcome>,
}

impl<T: Job> Runner<T> {
    /// How many tasks have been spawned.
    pub closed spec fn spawned_count(&self) -> int {
        self.spawned as int
    }

    /// The outcomes observed so far, in observation order.
    pub closed spec fn observed(&self) -> Seq<Outcome> {
        self.outcomes@
    }

    /// The runner's bookkeeping is sound: no task is observed that was not
    /// spawned.
    pub open spec fn wf(&self) -> bool {
        self.observed().len() <= self.spawned_count()
    }

    /// The run is complete: every spawned task has contributed its outcome.
    pub open spec fn complete(&self) -> bool {
        self.observed().len() == self.spawned_count()
    }

    /// The connection URL of the run.
    pub closed spec fn url_view(&self) -> Seq<char> {
        self.url@
    }

    /// The access token of the run.
    pub closed spec fn token_view(&self) -> Seq<char> {
        self.token@
    }

    /// A fresh runner: nothing spawned, nothing observed, hence trivially
    /// complete.
    pub fn new(url: String, token: String, job: T) -> (r: Self)
        ensures
            r.wf(),
            r.spawned_count() == 0,
            r.observed() == Seq::<Outcome>::empty(),
            r.url_view() == url@,
            r.token_view() == token@,
    {
        Runner { url, token, job, spawned: 0, outcomes: Vec::new() }
    }

    /// The connection URL, handed to each task.
    pub fn url(&self) -> (r: &String)
        ensures
            r@ == self.url_view(),
    {
        &self.url
    }

    /// The access token, handed to each task.
    pub fn token(&self) -> (r: &String)
        ensures
            r@ == self.token_view(),
    {
        &self.token
    }

    /// Lays out the job's tasks for this run's credentials: the plans to
    /// spawn, or the diagnostic of a setup failure.
    pub fn plan_job(&mut self) -> (r: Result<Vec<TaskPlan>, String>)
        ensures
            final(self).spawned_count() == old(self).spawned_count(),
            final(self).observed() == old(self).observed(),
            final(self).url_view() == old(self).url_view(),
            final(self).token_view() == old(self).token_view(),
    {
        let url = self.url.clone();
        let token = self.token.clone();
        self.job.plan(url.as_str(), token.as_str())
    }

    /// Registers one spawned task; it does not block, and the task is not
    /// yet observed.
    pub fn task_spawned(&mut self)
        requires
            old(self).spawned_count() < usize::MAX,
        ensures
            final(self).spawned_count() == old(self).spawned_count() + 1,
            final(self).observed() == old(self).observed(),
            final(self).url_view() == old(self).url_view(),
            final(self).token_view() == old(self).token_view(),
            old(self).wf() ==> final(self).wf(),
    {
        self.spawned = self.spawned + 1;
    }

    /// Records the completion of one spawned task. Failure and success are
    /// recorded alike: a failed task is removed from the in-flight set the
    /// same way and never blocks a sibling's observation.
    pub fn record_outcome(&mut self, o: Outcome)
        requires
            old(self).observed().len() < old(self).spawned_count(),
        ensures
            final(self).spawned_count() == old(self).spawned_count(),
            final(self).observed() == old(self).observed().push(o),
            final(self).url_view() == old(self).url_view(),
            final(self).token_view() == old(self).token_view(),
            final(self).wf(),
    {
        self.outcomes.push(o);
    }

    /// Whether every spawned task has been observed to completion.
    pub fn is_complete(&self) -> (r: bool)
        ensures
            r == self.complete(),
    {
        self.outcomes.len() == self.spawned
    }

    /// How many spawned tasks are still in flight.
    pub fn pending(&self) -> (r: usize)
        requires
            self.wf(),
        ensures
            r == self.spawned_count() - self.observed().len(),
    {
        self.spawned - self.outcomes.len()
    }

    /// How many observed tasks failed.
    pub fn failure_count(&self) -> (r: usize)
        ensures
            r == spec_failure_count(self.observed()),
    {
        let mut count: usize = 0;
        let mut i: usize = 0;
        while i < self.outcomes.len()
            invariant
                i <= self.outcomes@.len(),
                count <= i,
                count == spec_failure_count(self.outcomes@.take(i as int)),
            decreases self.outcomes@.len() - i,
        {
            let is_failure = match &self.outcomes[i] {
                Outcome::Success => false,
                Outcome::Failure(_) => true,
            };
            proof {
                let t = self.outcomes@.take(i + 1);
                assert(t.drop_last() =~= self.outcomes@.take(i as int));
                assert(t.last() == self.outcomes@[i as int]);
            }
            if is_failure {
                count = count + 1;
            }
            i = i + 1;
        }
        proof {
            assert(self.outcomes@.take(self.outcomes@.len() as int) =~= self.outcomes@);
        }
        count
    }

    /// How many outcomes have been observed.
    pub fn observed_count(&self) -> (r: usize)
        ensures
            r == self.observed().len(),
    {
        self.outcomes.len()
    }
}

/// Every spawned task is observed exactly once. A run that observed the
/// outcome stream `os` on top of a fresh record is complete exactly when
/// `os` holds one outcome per spawned task — however the failures are
/// distributed over `os` — and the record then consists of exactly those
/// outcomes; with fewer observed, the run is not complete and the runner
/// keeps waiting.
pub proof fn lemma_join_all_observes_every_task<T: Job>(r0: Runner<T>, r1: Runner<T>, os: Seq<Outcome>)
    requires
        r0.observed().len() == 0,
        r1.spawned_count() == r0.spawned_count(),
        r1.observed() == r0.observed() + os,
    ensures
        r1.complete() <==> os.len() == r0.spawned_count(),
        r1.observed() =~= os,
{
    assert(r1.observed() =~= os);
}

} // verus!

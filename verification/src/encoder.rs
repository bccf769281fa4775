//! Encoding jobs: the queue of files to encode, the limit on how many run
//! at once, and the tally of how the batch went. Running the encoder stays
//! with the caller, which asks for the next job and reports how each ended.

use vstd::prelude::*;
use crate::cli::QualityProfile;
use crate::error_recovery::RecoveryDecision;

verus! {

/// One file to encode.
#[derive(Debug, Clone)]
pub struct EncodingJob {
    pub input_path: String,
    pub output_path: String,
    pub quality_profile: QualityProfile,
}

/// How a job ended.
#[derive(Debug, Clone, Copy, PartialEq, Eq, Structural)]
pub enum JobResult {
    /// The file was encoded.
    Succeeded,
    /// The file was not encoded; the recovery manager decided what follows.
    Failed(RecoveryDecision),
}

/// What the encoding loop is to do in a round.
#[derive(Debug, Clone, Copy, PartialEq, Eq, Structural)]
pub enum BatchRound {
    /// A shutdown was asked for: everything left has been cancelled; stop
    /// the running encodings and end the loop.
    Cancelled,
    /// No job waits or runs: end the loop.
    Finished,
    /// Start what may start and wait for running jobs.
    Running,
}

/// How a batch stands.
#[derive(Debug, Clone, Copy, PartialEq, Eq, Structural)]
pub struct EncodingSummary {
    pub total_jobs: usize,
    pub completed_jobs: usize,
    pub failed_jobs: usize,
    pub cancelled_jobs: usize,
    pub active_jobs: usize,
    pub queued_jobs: usize,
}

/// Keeps the queue of jobs, the running ones (by input path), how many may
/// run at once, and how the finished ones ended.
pub struct EncodingManager {
    max_parallel: usize,
    queued_jobs: Vec<EncodingJob>,
    active_jobs: Vec<String>,
    total_jobs: usize,
    completed_jobs: usize,
    failed_jobs: usize,
    cancelled_jobs: usize,
}

/// Each text of a list, by its characters.
pub open spec fn texts(v: Seq<String>) -> Seq<Seq<char>> {
    v.map_values(|s: String| s@)
}

/// Remove the first of `active` equal to `input_path`, if there is one.
fn remove_path(active: &mut Vec<String>, input_path: &str) -> (found: bool)
    ensures
        found == texts(old(active)@).contains(input_path@),
        found ==> final(active)@.len() + 1 == old(active)@.len() && exists|i: int|
            0 <= i < old(active)@.len() && texts(old(active)@)[i] == input_path@ && texts(
                final(active)@,
            ) == texts(old(active)@).remove(i),
        !found ==> final(active)@ == old(active)@,
{
    let ghost before = texts(active@);
    let mut i: usize = 0;
    while i < active.len()
        invariant
            i <= active@.len(),
            before == texts(active@),
            active@ == old(active)@,
            forall|j: int| 0 <= j < i ==> before[j] != input_path@,
        decreases active@.len() - i,
    {
        if crate::text::str_eq(active[i].as_str(), input_path) {
            active.remove(i);
            assert(texts(active@) =~= before.remove(i as int));
            assert(before[i as int] == input_path@);
            return true;
        }
        i = i + 1;
    }
    assert(!before.contains(input_path@));
    false
}

impl EncodingManager {
    /// The jobs waiting to start, next first.
    pub closed spec fn queued(&self) -> Seq<EncodingJob> {
        self.queued_jobs@
    }

    /// The input paths of the running jobs, in the order they started.
    pub closed spec fn active(&self) -> Seq<Seq<char>> {
        texts(self.active_jobs@)
    }

    /// How many jobs may run at once.
    pub closed spec fn limit(&self) -> usize {
        self.max_parallel
    }

    /// How many jobs were queued in all.
    pub closed spec fn total(&self) -> nat {
        self.total_jobs as nat
    }

    /// How many jobs encoded their file.
    pub closed spec fn completed(&self) -> nat {
        self.completed_jobs as nat
    }

    /// How many jobs failed.
    pub closed spec fn failed(&self) -> nat {
        self.failed_jobs as nat
    }

    /// How many jobs were cancelled, waiting or running.
    pub closed spec fn cancelled(&self) -> nat {
        self.cancelled_jobs as nat
    }

    /// Every job queued is waiting, running, completed, failed or cancelled,
    /// and no more jobs run than the limit allows.
    #[verifier::type_invariant]
    closed spec fn accounted(self) -> bool {
        &&& self.total_jobs == self.queued_jobs@.len() + self.active_jobs@.len()
            + self.completed_jobs + self.failed_jobs + self.cancelled_jobs
        &&& self.active_jobs@.len() <= self.max_parallel
    }

    /// A manager with no jobs.
    pub fn new(max_parallel: usize) -> (m: Self)
        ensures
            m.limit() == max_parallel,
            m.queued().len() == 0,
            m.active().len() == 0,
            m.total() == 0,
            m.completed() == 0,
            m.failed() == 0,
            m.cancelled() == 0,
    {
        let m = EncodingManager {
            max_parallel,
            queued_jobs: Vec::new(),
            active_jobs: Vec::new(),
            total_jobs: 0,
            completed_jobs: 0,
            failed_jobs: 0,
            cancelled_jobs: 0,
        };
        assert(m.active() =~= Seq::empty());
        m
    }

    /// Take the whole state out, leaving a manager without jobs.
    fn take(&mut self) -> (m: Self)
        ensures
            m == *old(self),
            m.total_jobs == m.queued_jobs@.len() + m.active_jobs@.len() + m.completed_jobs
                + m.failed_jobs + m.cancelled_jobs,
            m.active_jobs@.len() <= m.max_parallel,
    {
        proof {
            use_type_invariant(&*self);
        }
        let mut m = EncodingManager::new(self.max_parallel);
        std::mem::swap(&mut m, self);
        m
    }

    /// Whether another job may start.
    pub fn can_start_job(&self) -> (b: bool)
        ensures
            b == (self.active().len() < self.limit()),
    {
        proof {
            use_type_invariant(self);
        }
        self.active_jobs.len() < self.max_parallel
    }

    /// The number of running jobs, which is never above the limit.
    pub fn active_job_count(&self) -> (n: usize)
        ensures
            n == self.active().len(),
            n <= self.limit(),
    {
        proof {
            use_type_invariant(self);
        }
        self.active_jobs.len()
    }

    /// Add jobs to the end of the queue.
    pub fn queue_jobs(&mut self, jobs: Vec<EncodingJob>)
        requires
            old(self).total() + jobs@.len() <= usize::MAX,
        ensures
            final(self).queued() == old(self).queued() + jobs@,
            final(self).total() == old(self).total() + jobs@.len(),
            final(self).active() == old(self).active(),
            final(self).limit() == old(self).limit(),
            final(self).completed() == old(self).completed(),
            final(self).failed() == old(self).failed(),
            final(self).cancelled() == old(self).cancelled(),
    {
        proof {
            use_type_invariant(&*self);
        }
        let EncodingManager {
            max_parallel,
            mut queued_jobs,
            active_jobs,
            total_jobs,
            completed_jobs,
            failed_jobs,
            cancelled_jobs,
        } = self.take();
        let mut jobs = jobs;
        let added = jobs.len();
        queued_jobs.append(&mut jobs);
        *self = EncodingManager {
            max_parallel,
            queued_jobs,
            active_jobs,
            total_jobs: total_jobs + added,
            completed_jobs,
            failed_jobs,
            cancelled_jobs,
        };
    }

    /// Start the next queued job, if one waits and the limit allows it;
    /// its input path joins the running jobs.
    pub fn start_next_job(&mut self) -> (r: Option<EncodingJob>)
        ensures
            final(self).limit() == old(self).limit(),
            final(self).total() == old(self).total(),
            final(self).completed() == old(self).completed(),
            final(self).failed() == old(self).failed(),
            final(self).cancelled() == old(self).cancelled(),
            match r {
                Some(job) => {
                    &&& old(self).active().len() < old(self).limit()
                    &&& old(self).queued().len() > 0
                    &&& job == old(self).queued()[0]
                    &&& final(self).queued() == old(self).queued().drop_first()
                    &&& final(self).active() == old(self).active().push(job.input_path@)
                },
                None => {
                    &&& old(self).active().len() >= old(self).limit() || old(self).queued().len()
                        == 0
                    &&& final(self).queued() == old(self).queued()
                    &&& final(self).active() == old(self).active()
                },
            },
    {
        proof {
            use_type_invariant(&*self);
        }
        if self.active_jobs.len() >= self.max_parallel || self.queued_jobs.len() == 0 {
            return None;
        }
        let EncodingManager {
            max_parallel,
            mut queued_jobs,
            mut active_jobs,
            total_jobs,
            completed_jobs,
            failed_jobs,
            cancelled_jobs,
        } = self.take();
        let ghost before = active_jobs@;
        let job = queued_jobs.remove(0);
        active_jobs.push(job.input_path.clone());
        assert(texts(active_jobs@) =~= texts(before).push(job.input_path@));
        *self = EncodingManager {
            max_parallel,
            queued_jobs,
            active_jobs,
            total_jobs,
            completed_jobs,
            failed_jobs,
            cancelled_jobs,
        };
        Some(job)
    }

    /// Record that the running job for `input_path` has ended. A job that
    /// succeeded counts as completed and one that failed as failed; when
    /// the recovery manager decided to abort, the rest of the batch, waiting
    /// or running, is cancelled. Returns whether such a job was running; if
    /// none was, nothing changes.
    pub fn finish_job(&mut self, input_path: &str, result: JobResult) -> (found: bool)
        ensures
            found == old(self).active().contains(input_path@),
            final(self).limit() == old(self).limit(),
            final(self).total() == old(self).total(),
            !found ==> {
                &&& final(self).queued() == old(self).queued()
                &&& final(self).active() == old(self).active()
                &&& final(self).completed() == old(self).completed()
                &&& final(self).failed() == old(self).failed()
                &&& final(self).cancelled() == old(self).cancelled()
            },
            found && result is Succeeded ==> {
                &&& final(self).completed() == old(self).completed() + 1
                &&& final(self).failed() == old(self).failed()
            },
            found && result is Failed ==> {
                &&& final(self).failed() == old(self).failed() + 1
                &&& final(self).completed() == old(self).completed()
            },
            found && result != JobResult::Failed(RecoveryDecision::Abort) ==> {
                &&& final(self).queued() == old(self).queued()
                &&& final(self).cancelled() == old(self).cancelled()
                &&& exists|i: int|
                    0 <= i < old(self).active().len() && old(self).active()[i] == input_path@
                        && final(self).active() == old(self).active().remove(i)
            },
            found && result == JobResult::Failed(RecoveryDecision::Abort) ==> {
                &&& final(self).queued().len() == 0
                &&& final(self).active().len() == 0
                &&& final(self).cancelled() == old(self).cancelled() + old(self).queued().len()
                    + old(self).active().len() - 1
            },
    {
        proof {
            use_type_invariant(&*self);
        }
        let EncodingManager {
            max_parallel,
            queued_jobs,
            mut active_jobs,
            total_jobs,
            completed_jobs,
            failed_jobs,
            cancelled_jobs,
        } = self.take();
        let ghost old_active = active_jobs@;
        let found = remove_path(&mut active_jobs, input_path);
        let ghost witness: int = if found {
            choose|i: int|
                0 <= i < old_active.len() && texts(old_active)[i] == input_path@ && texts(
                    active_jobs@,
                ) == texts(old_active).remove(i)
        } else {
            0
        };
        let mut completed_jobs = completed_jobs;
        let mut failed_jobs = failed_jobs;
        if found {
            match result {
                JobResult::Succeeded => {
                    completed_jobs = completed_jobs + 1;
                },
                JobResult::Failed(_) => {
                    failed_jobs = failed_jobs + 1;
                },
            }
        }
        *self = EncodingManager {
            max_parallel,
            queued_jobs,
            active_jobs,
            total_jobs,
            completed_jobs,
            failed_jobs,
            cancelled_jobs,
        };
        if found && result == JobResult::Failed(RecoveryDecision::Abort) {
            self.cancel_all_jobs();
        } else if found {
            assert(self.active() == old(self).active().remove(witness));
        }
        found
    }

    /// Cancel every job that waits or runs.
    pub fn cancel_all_jobs(&mut self)
        ensures
            final(self).queued().len() == 0,
            final(self).active().len() == 0,
            final(self).cancelled() == old(self).cancelled() + old(self).queued().len()
                + old(self).active().len(),
            final(self).limit() == old(self).limit(),
            final(self).total() == old(self).total(),
            final(self).completed() == old(self).completed(),
            final(self).failed() == old(self).failed(),
    {
        proof {
            use_type_invariant(&*self);
        }
        let n = self.queued_jobs.len() + self.active_jobs.len();
        *self = EncodingManager {
            max_parallel: self.max_parallel,
            queued_jobs: Vec::new(),
            active_jobs: Vec::new(),
            total_jobs: self.total_jobs,
            completed_jobs: self.completed_jobs,
            failed_jobs: self.failed_jobs,
            cancelled_jobs: self.cancelled_jobs + n,
        };
        assert(self.active() =~= Seq::empty());
    }

    /// Decide a round of the encoding loop. A shutdown request comes first:
    /// it cancels every job that waits or runs. Otherwise the loop ends when
    /// no job waits or runs, and goes on while one does.
    pub fn next_round(&mut self, shutdown_requested: bool) -> (r: BatchRound)
        ensures
            final(self).limit() == old(self).limit(),
            final(self).total() == old(self).total(),
            final(self).completed() == old(self).completed(),
            final(self).failed() == old(self).failed(),
            shutdown_requested ==> {
                &&& r == BatchRound::Cancelled
                &&& final(self).queued().len() == 0
                &&& final(self).active().len() == 0
                &&& final(self).cancelled() == old(self).cancelled() + old(self).queued().len()
                    + old(self).active().len()
            },
            !shutdown_requested ==> {
                &&& final(self).queued() == old(self).queued()
                &&& final(self).active() == old(self).active()
                &&& final(self).cancelled() == old(self).cancelled()
                &&& r == if old(self).queued().len() == 0 && old(self).active().len() == 0 {
                    BatchRound::Finished
                } else {
                    BatchRound::Running
                }
            },
    {
        if shutdown_requested {
            self.cancel_all_jobs();
            BatchRound::Cancelled
        } else if self.is_complete() {
            BatchRound::Finished
        } else {
            BatchRound::Running
        }
    }

    /// Whether no job waits or runs.
    pub fn is_complete(&self) -> (b: bool)
        ensures
            b == (self.queued().len() == 0 && self.active().len() == 0),
    {
        self.queued_jobs.len() == 0 && self.active_jobs.len() == 0
    }

    /// How the batch stands. Every job queued is counted once: waiting,
    /// running, completed, failed or cancelled; and no more run than the
    /// limit allows.
    pub fn get_summary(&self) -> (s: EncodingSummary)
        ensures
            s.total_jobs == self.total(),
            s.completed_jobs == self.completed(),
            s.failed_jobs == self.failed(),
            s.cancelled_jobs == self.cancelled(),
            s.active_jobs == self.active().len(),
            s.queued_jobs == self.queued().len(),
            s.total_jobs == s.queued_jobs + s.active_jobs + s.completed_jobs + s.failed_jobs
                + s.cancelled_jobs,
            s.active_jobs <= self.limit(),
    {
        proof {
            use_type_invariant(self);
        }
        EncodingSummary {
            total_jobs: self.total_jobs,
            completed_jobs: self.completed_jobs,
            failed_jobs: self.failed_jobs,
            cancelled_jobs: self.cancelled_jobs,
            active_jobs: self.active_jobs.len(),
            queued_jobs: self.queued_jobs.len(),
        }
    }
}

} // verus!

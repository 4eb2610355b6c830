//! One target's task: ensure the target exists, then drain the task's own
//! batcher against it, one batch-execution request at a time.
//!
//! The task is a state machine driven from outside: `step` says what request
//! to send next, `on_response` feeds back how the service answered. A failed
//! creation ends the task with that failure before any batch is sent; a
//! failed execution ends it there; draining the queue ends it with success.

use vstd::prelude::*;
use vstd::math::min;
use crate::Outcome;
use crate::batcher::Batcher;
use crate::client::{create_outcome, create_success_status, execute_outcome, execute_success_status};

verus! {

/// Where a task stands.
pub enum TaskPhase {
    /// The creation request is still to be sent.
    Create,
    /// The creation request is out; its response has not arrived.
    AwaitCreate,
    /// The target exists; the next batch is to be drawn and sent.
    Execute,
    /// A batch-execution request is out; its response has not arrived.
    AwaitExecute,
    /// The task reached its outcome.
    Done,
}

/// What the task asks its driver to do next.
pub enum TaskAction {
    /// Send the target-creation request.
    SendCreate,
    /// Send this batch of statements to the target.
    SendBatch(Vec<String>),
    /// The task is finished; nothing is to be sent.
    Finished,
}

/// One target's unit of work: the target's name, its own copy of the
/// operation queue, and where the task stands.
pub struct FanoutTask {
    target: String,
    batcher: Batcher,
    phase: TaskPhase,
    outcome: Option<Outcome>,
}

impl FanoutTask {
    /// Where the task stands.
    pub closed spec fn phase(&self) -> TaskPhase {
        self.phase
    }

    /// The operations not yet handed out as batches.
    pub closed spec fn remaining(&self) -> Seq<String> {
        self.batcher.remaining()
    }

    /// The configured maximum batch size.
    pub closed spec fn size(&self) -> int {
        self.batcher.size()
    }

    /// The target's name.
    pub closed spec fn target_view(&self) -> Seq<char> {
        self.target@
    }

    /// The task's outcome, once it is done.
    pub closed spec fn spec_outcome(&self) -> Option<Outcome> {
        self.outcome
    }

    /// The task's bookkeeping is sound: the batcher is, and an outcome is
    /// recorded exactly when the task is done.
    pub closed spec fn wf(&self) -> bool {
        &&& self.batcher.wf()
        &&& (self.outcome is Some <==> self.phase is Done)
    }

    /// A task for `target` over its own copy of the operations, about to
    /// issue the creation request.
    pub fn new(target: String, stmts: Vec<String>, batch_size: usize) -> (r: FanoutTask)
        requires
            batch_size >= 1,
        ensures
            r.wf(),
            r.phase() is Create,
            r.remaining() == stmts@,
            r.size() == batch_size as int,
            r.target_view() == target@,
            r.spec_outcome() is None,
    {
        FanoutTask {
            target,
            batcher: Batcher::new(stmts, batch_size),
            phase: TaskPhase::Create,
            outcome: None,
        }
    }

    /// The target's name, for addressing the requests.
    pub fn target(&self) -> (r: &String)
        ensures
            r@ == self.target_view(),
    {
        &self.target
    }

    /// What to do next. Before the target exists, the creation request; with
    /// the target ensured, the next batch while any operations remain — so a
    /// task whose creation failed never sends a batch; an exhausted queue
    /// ends the task successfully.
    pub fn step(&mut self) -> (r: TaskAction)
        requires
            old(self).wf(),
            !(old(self).phase() is AwaitCreate),
            !(old(self).phase() is AwaitExecute),
        ensures
            final(self).wf(),
            final(self).size() == old(self).size(),
            final(self).target_view() == old(self).target_view(),
            old(self).phase() is Create ==> r is SendCreate && final(self).phase() is AwaitCreate
                && final(self).remaining() == old(self).remaining() && final(self).spec_outcome()
                is None,
            old(self).phase() is Execute && old(self).remaining().len() == 0 ==> r is Finished
                && final(self).phase() is Done && final(self).spec_outcome() == Some(
                Outcome::Success,
            ) && final(self).remaining() == old(self).remaining(),
            old(self).phase() is Execute && old(self).remaining().len() > 0 ==> {
                let k = min(old(self).size(), old(self).remaining().len() as int);
                &&& r matches TaskAction::SendBatch(b) && b@ == old(self).remaining().take(k)
                &&& final(self).phase() is AwaitExecute
                &&& final(self).remaining() == old(self).remaining().skip(k)
                &&& final(self).spec_outcome() is None
            },
            old(self).phase() is Done ==> r is Finished && *final(self) == *old(self),
    {
        match self.phase {
            TaskPhase::Create => {
                self.phase = TaskPhase::AwaitCreate;
                TaskAction::SendCreate
            },
            TaskPhase::Execute => {
                match self.batcher.next_batch() {
                    None => {
                        self.phase = TaskPhase::Done;
                        self.outcome = Some(Outcome::Success);
                        TaskAction::Finished
                    },
                    Some(b) => {
                        self.phase = TaskPhase::AwaitExecute;
                        TaskAction::SendBatch(b)
                    },
                }
            },
            TaskPhase::AwaitCreate => TaskAction::Finished,  // excluded by the contract
            TaskPhase::AwaitExecute => TaskAction::Finished,  // excluded by the contract
            TaskPhase::Done => TaskAction::Finished,
        }
    }

    /// Feeds back the service's answer to the request last sent. An answer
    /// to the creation request that counts as created-or-already-exists lets
    /// the task proceed to execution; a successful batch execution lets it
    /// draw the next batch; any other answer ends the task with the response
    /// body as its failure diagnostic.
    pub fn on_response(&mut self, status: u16, body: String)
        requires
            old(self).wf(),
            old(self).phase() is AwaitCreate || old(self).phase() is AwaitExecute,
        ensures
            final(self).wf(),
            final(self).size() == old(self).size(),
            final(self).target_view() == old(self).target_view(),
            final(self).remaining() == old(self).remaining(),
            old(self).phase() is AwaitCreate && create_success_status(status)
                ==> final(self).phase() is Execute && final(self).spec_outcome() is None,
            old(self).phase() is AwaitCreate && !create_success_status(status)
                ==> final(self).phase() is Done
                && final(self).spec_outcome() == Some(create_outcome(status, body)),
            old(self).phase() is AwaitExecute && execute_success_status(status)
                ==> final(self).phase() is Execute && final(self).spec_outcome() is None,
            old(self).phase() is AwaitExecute && !execute_success_status(status)
                ==> final(self).phase() is Done
                && final(self).spec_outcome() == Some(execute_outcome(status, body)),
    {
        let is_await_create = match self.phase {
            TaskPhase::AwaitCreate => true,
            _ => false,
        };
        let classified = if is_await_create {
            crate::client::ensure_target_outcome(status, body)
        } else {
            crate::client::execute_batch_outcome(status, body)
        };
        match classified {
            Outcome::Success => {
                self.phase = TaskPhase::Execute;
            },
            Outcome::Failure(d) => {
                self.phase = TaskPhase::Done;
                self.outcome = Some(Outcome::Failure(d));
            },
        }
    }

    /// The task's outcome, once it is done.
    pub fn outcome(&self) -> (r: Option<Outcome>)
        ensures
            r == self.spec_outcome(),
    {
        match &self.outcome {
            None => None,
            Some(Outcome::Success) => Some(Outcome::Success),
            Some(Outcome::Failure(d)) => Some(Outcome::Failure(d.clone())),
        }
    }
}

} // verus!

//! The life of the city tasks of one aggregation, and the permits that bound
//! how many of them fetch at one time.
//!
//! A task is created, waits for a permit, fetches while it holds the permit and
//! is done; cancellation ends it from any state but the last. The scheduler
//! that runs the tasks reports each event here and acts on the answer.
use vstd::prelude::*;

verus! {

/// Where a city task stands.
#[derive(Debug, Clone, Copy, PartialEq, Eq, Structural)]
pub enum TaskState {
    Created,
    Waiting,
    Fetching,
    Done,
    Cancelled,
}

/// Number of tasks among `states` that hold a permit.
pub open spec fn fetching(states: Seq<TaskState>) -> nat
    decreases states.len(),
{
    if states.len() == 0 {
        0
    } else {
        fetching(states.drop_last()) + if states.last() == TaskState::Fetching {
            1nat
        } else {
            0nat
        }
    }
}

/// The tasks of one aggregation, which share `limit` permits.
pub struct FanOut {
    limit: usize,
    states: Vec<TaskState>,
    running: usize,
}

/// Changing the state of one task changes the number of permit holders by
/// that task alone.
pub proof fn lemma_fetching_update(states: Seq<TaskState>, index: int, next: TaskState)
    requires
        0 <= index < states.len(),
    ensures
        fetching(states.update(index, next)) + (if states[index] == TaskState::Fetching {
            1nat
        } else {
            0nat
        }) == fetching(states) + (if next == TaskState::Fetching {
            1nat
        } else {
            0nat
        }),
    decreases states.len(),
{
    let changed = states.update(index, next);
    if index == states.len() - 1 {
        assert(changed.drop_last() =~= states.drop_last());
    } else {
        assert(changed.drop_last() =~= states.drop_last().update(index, next));
        lemma_fetching_update(states.drop_last(), index, next);
    }
}

impl FanOut {
    /// The states of the tasks, in the order of the request.
    pub closed spec fn states(&self) -> Seq<TaskState> {
        self.states@
    }

    /// Number of permits.
    pub closed spec fn limit(&self) -> nat {
        self.limit as nat
    }

    /// The bookkeeping is sound, and the bound holds: the tasks that fetch
    /// never outnumber the permits.
    pub closed spec fn wf(&self) -> bool {
        &&& self.running == fetching(self.states@)
        &&& self.running <= self.limit
    }

    /// What [`FanOut::wf`] says of the tasks that fetch.
    pub proof fn lemma_bound_holds(&self)
        requires
            self.wf(),
        ensures
            fetching(self.states()) <= self.limit(),
    {
    }

    /// `tasks` freshly created tasks that share `limit` permits.
    pub fn new(limit: usize, tasks: usize) -> (f: FanOut)
        ensures
            f.wf(),
            f.limit() == limit,
            f.states() == Seq::new(tasks as nat, |i: int| TaskState::Created),
    {
        let mut states: Vec<TaskState> = Vec::new();
        let mut i: usize = 0;
        while i < tasks
            invariant
                i <= tasks,
                states@ =~= Seq::new(i as nat, |k: int| TaskState::Created),
                fetching(states@) == 0,
            decreases tasks - i,
        {
            proof {
                assert(states@.push(TaskState::Created).drop_last() =~= states@);
            }
            states.push(TaskState::Created);
            i = i + 1;
        }
        FanOut { limit, states, running: 0 }
    }

    /// Number of tasks.
    pub fn len(&self) -> (n: usize)
        ensures
            n == self.states().len(),
    {
        self.states.len()
    }

    /// State of the task at `index`, if there is one.
    pub fn state(&self, index: usize) -> (s: Option<TaskState>)
        ensures
            s == if index < self.states().len() {
                Some(self.states()[index as int])
            } else {
                None
            },
    {
        if index < self.states.len() {
            Some(self.states[index])
        } else {
            None
        }
    }

    /// Number of tasks that hold a permit.
    pub fn in_flight(&self) -> (n: usize)
        requires
            self.wf(),
        ensures
            n == fetching(self.states()),
            n <= self.limit(),
    {
        self.running
    }

    /// The state in which a created task goes on: cancelled when the request
    /// already is, waiting for a permit otherwise.
    pub open spec fn started(cancelled: bool) -> TaskState {
        if cancelled {
            TaskState::Cancelled
        } else {
            TaskState::Waiting
        }
    }

    /// Starts the task at `index`, which looks at the cancellation signal
    /// before it asks for a permit. Returns whether the task was started: only a
    /// created task is.
    pub fn start(&mut self, index: usize, cancelled: bool) -> (moved: bool)
        requires
            old(self).wf(),
        ensures
            final(self).wf(),
            final(self).limit() == old(self).limit(),
            moved <==> index < old(self).states().len() && old(self).states()[index as int]
                == TaskState::Created,
            moved ==> final(self).states() == old(self).states().update(
                index as int,
                Self::started(cancelled),
            ),
            !moved ==> final(self).states() == old(self).states(),
    {
        if index < self.states.len() && self.states[index] == TaskState::Created {
            let next = if cancelled {
                TaskState::Cancelled
            } else {
                TaskState::Waiting
            };
            proof {
                lemma_fetching_update(self.states@, index as int, next);
            }
            self.states.set(index, next);
            true
        } else {
            false
        }
    }

    /// Hands a permit to the waiting task at `index` if one is free. Returns
    /// whether the task now fetches.
    pub fn grant(&mut self, index: usize) -> (moved: bool)
        requires
            old(self).wf(),
        ensures
            final(self).wf(),
            final(self).limit() == old(self).limit(),
            moved <==> index < old(self).states().len() && old(self).states()[index as int]
                == TaskState::Waiting && fetching(old(self).states()) < old(self).limit(),
            moved ==> final(self).states() == old(self).states().update(
                index as int,
                TaskState::Fetching,
            ),
            !moved ==> final(self).states() == old(self).states(),
    {
        if index < self.states.len() && self.states[index] == TaskState::Waiting && self.running
            < self.limit {
            proof {
                lemma_fetching_update(self.states@, index as int, TaskState::Fetching);
            }
            self.states.set(index, TaskState::Fetching);
            self.running = self.running + 1;
            true
        } else {
            false
        }
    }

    /// Ends the fetching task at `index` and hands its permit back. Returns
    /// whether the task was fetching.
    pub fn finish(&mut self, index: usize) -> (moved: bool)
        requires
            old(self).wf(),
        ensures
            final(self).wf(),
            final(self).limit() == old(self).limit(),
            moved <==> index < old(self).states().len() && old(self).states()[index as int]
                == TaskState::Fetching,
            moved ==> final(self).states() == old(self).states().update(
                index as int,
                TaskState::Done,
            ),
            moved ==> fetching(final(self).states()) == fetching(old(self).states()) - 1,
            !moved ==> final(self).states() == old(self).states(),
    {
        if index < self.states.len() && self.states[index] == TaskState::Fetching {
            proof {
                lemma_fetching_update(self.states@, index as int, TaskState::Done);
            }
            self.states.set(index, TaskState::Done);
            self.running = self.running - 1;
            true
        } else {
            false
        }
    }

    /// Whether cancellation still reaches a task in `state`.
    pub open spec fn live(state: TaskState) -> bool {
        state == TaskState::Created || state == TaskState::Waiting || state
            == TaskState::Fetching
    }

    /// Cancels the task at `index` unless it has ended; a permit that it held
    /// is free again. Returns whether the task was cancelled.
    pub fn cancel(&mut self, index: usize) -> (moved: bool)
        requires
            old(self).wf(),
        ensures
            final(self).wf(),
            final(self).limit() == old(self).limit(),
            moved <==> index < old(self).states().len() && Self::live(
                old(self).states()[index as int],
            ),
            moved ==> final(self).states() == old(self).states().update(
                index as int,
                TaskState::Cancelled,
            ),
            !moved ==> final(self).states() == old(self).states(),
    {
        if index >= self.states.len() {
            return false;
        }
        let state = self.states[index];
        proof {
            lemma_fetching_update(self.states@, index as int, TaskState::Cancelled);
        }
        match state {
            TaskState::Created | TaskState::Waiting => {
                self.states.set(index, TaskState::Cancelled);
                true
            },
            TaskState::Fetching => {
                self.states.set(index, TaskState::Cancelled);
                self.running = self.running - 1;
                true
            },
            TaskState::Done | TaskState::Cancelled => false,
        }
    }
}

} // verus!

//! The batch: which unit of work is started when, and how the batch ends.
//!
//! A runner holds the requests of a collection and counts the units it has
//! handed out and the outcomes it has been told. It decides; whoever drives
//! it does the work. In sequential mode one unit runs at a time, in the
//! order of the collection, and the first failure ends the batch before
//! another unit starts. In parallel mode every unit is launched before any
//! outcome is collected, every outcome is collected before the batch ends,
//! and the batch ends with the first failure that was collected, if any.

use crate::error::ReddSaverError;
use crate::filter::{accepted, accepted_requests, MediaRequest, MediaRequestView, SavedItem};
use vstd::prelude::*;

verus! {

/// How the units of a batch are run.
#[derive(Clone, Copy, Debug, PartialEq, Eq, Structural)]
pub enum Mode {
    /// One at a time; the first failure stops the batch.
    Sequential,
    /// All at once; a failure is reported when all have settled.
    Parallel,
}

/// What the driver of a batch is to do next.
#[derive(Debug)]
pub enum Action {
    /// Perform this unit now and record its outcome before asking again.
    Run(MediaRequest),
    /// Start this unit beside the others and ask again at once.
    Launch(MediaRequest),
    /// Wait for the earliest unit still in flight and record its outcome.
    Collect,
    /// The batch is over, with this result.
    Finish(Result<(), ReddSaverError>),
}

/// What an action is to the contracts.
pub enum ActionView {
    Run(MediaRequestView),
    Launch(MediaRequestView),
    Collect,
    Finish(Result<(), ReddSaverError>),
}

impl View for Action {
    type V = ActionView;

    open spec fn view(&self) -> ActionView {
        match *self {
            Action::Run(request) => ActionView::Run(request@),
            Action::Launch(request) => ActionView::Launch(request@),
            Action::Collect => ActionView::Collect,
            Action::Finish(result) => ActionView::Finish(result),
        }
    }
}

/// The state of a batch.
pub struct Batch {
    pub mode: Mode,
    /// The work set, in the order of the collection.
    pub requests: Seq<MediaRequestView>,
    /// How many units were handed out; they are the first of `requests`.
    pub started: nat,
    /// How many outcomes were recorded.
    pub settled: nat,
    /// The first failure among the recorded outcomes.
    pub failure: Option<ReddSaverError>,
}

impl Batch {
    /// No more outcomes than units, no more units than requests; in
    /// sequential mode at most one unit is in flight, and none once a
    /// failure is recorded.
    pub open spec fn wf(self) -> bool {
        &&& self.settled <= self.started <= self.requests.len()
        &&& self.mode == Mode::Sequential ==> self.started <= self.settled + 1
        &&& self.mode == Mode::Sequential && self.failure is Some ==> self.settled
            == self.started
    }

    /// The state before anything was started.
    pub open spec fn initial(mode: Mode, requests: Seq<MediaRequestView>) -> Batch {
        Batch { mode, requests, started: 0, settled: 0, failure: None }
    }

    /// Whether another unit is started in this state.
    pub open spec fn starts(self) -> bool {
        self.started < self.requests.len() && match self.mode {
            Mode::Sequential => self.settled >= self.started && self.failure is None,
            Mode::Parallel => true,
        }
    }

    /// The result of a batch that ends in this state.
    pub open spec fn result(self) -> Result<(), ReddSaverError> {
        match self.failure {
            Some(error) => Err(error),
            None => Ok(()),
        }
    }

    /// The action that is due in this state.
    pub open spec fn action(self) -> ActionView {
        if self.starts() {
            match self.mode {
                Mode::Sequential => ActionView::Run(self.requests[self.started as int]),
                Mode::Parallel => ActionView::Launch(self.requests[self.started as int]),
            }
        } else if self.settled < self.started {
            ActionView::Collect
        } else {
            ActionView::Finish(self.result())
        }
    }

    /// The state after the action that is due was handed out.
    pub open spec fn advanced(self) -> Batch {
        if self.starts() {
            Batch { started: self.started + 1, ..self }
        } else {
            self
        }
    }

    /// The state after an outcome was recorded: `failure` is what went
    /// wrong with the unit, `None` where it succeeded. An outcome that no
    /// unit in flight can have had is left out.
    pub open spec fn recorded(self, failure: Option<ReddSaverError>) -> Batch {
        if self.settled < self.started {
            Batch {
                settled: self.settled + 1,
                failure: if self.failure is Some {
                    self.failure
                } else {
                    failure
                },
                ..self
            }
        } else {
            self
        }
    }
}

/// What went wrong with a unit, if anything did.
pub open spec fn failure_of<T>(outcome: Result<T, ReddSaverError>) -> Option<ReddSaverError> {
    match outcome {
        Ok(_) => None,
        Err(error) => Some(error),
    }
}

/// The state in which a batch ends when it is driven from `batch` on and
/// the unit of the request at position `i` has the outcome `outcomes[i]`:
/// each action is carried out as it says, and units in flight are collected
/// in the order in which they were launched.
pub open spec fn run(batch: Batch, outcomes: Seq<Option<ReddSaverError>>) -> Batch
    decreases 2 * batch.requests.len() - batch.started - batch.settled,
{
    if !batch.wf() {
        batch
    } else {
        match batch.action() {
            ActionView::Run(_) => run(
                batch.advanced().recorded(outcomes[batch.started as int]),
                outcomes,
            ),
            ActionView::Launch(_) => run(batch.advanced(), outcomes),
            ActionView::Collect => run(batch.recorded(outcomes[batch.settled as int]), outcomes),
            ActionView::Finish(_) => batch,
        }
    }
}

/// The counts of a batch stay in order whatever is handed out or recorded.
pub proof fn lemma_wf_kept(batch: Batch, failure: Option<ReddSaverError>)
    requires
        batch.wf(),
    ensures
        Batch::initial(batch.mode, batch.requests).wf(),
        batch.advanced().wf(),
        batch.recorded(failure).wf(),
{
}

/// A failure that was recorded stays: later outcomes do not replace it, and
/// handing out actions does not touch it.
pub proof fn lemma_first_failure_kept(batch: Batch, later: Option<ReddSaverError>)
    requires
        batch.failure is Some,
    ensures
        batch.recorded(later).failure == batch.failure,
        batch.advanced().failure == batch.failure,
{
}

/// Sequential mode fails fast: once a failure is recorded no unit is
/// started any more, and the batch ends with that failure.
pub proof fn lemma_sequential_stops_at_failure(batch: Batch)
    requires
        batch.wf(),
        batch.mode == Mode::Sequential,
        batch.failure is Some,
    ensures
        !batch.starts(),
        batch.advanced() == batch,
        batch.action() == ActionView::Finish(Err(batch.failure->0)),
{
}

/// Parallel mode fans out: while a request is left its unit is launched,
/// whatever was recorded so far; outcomes are collected only when all units
/// are launched, and the batch ends only when all outcomes are collected.
pub proof fn lemma_parallel_launches_all(batch: Batch)
    requires
        batch.wf(),
        batch.mode == Mode::Parallel,
    ensures
        batch.started < batch.requests.len() ==> batch.action() == ActionView::Launch(
            batch.requests[batch.started as int],
        ),
        batch.action() is Collect ==> batch.started == batch.requests.len(),
        batch.action() is Finish ==> batch.started == batch.requests.len() && batch.settled
            == batch.requests.len(),
{
}

/// In sequential mode, from a state in which `done` units ran and all
/// succeeded, the batch runs up to the first unit that fails and no further.
proof fn lemma_sequential_run_from(
    requests: Seq<MediaRequestView>,
    outcomes: Seq<Option<ReddSaverError>>,
    done: nat,
    first: int,
)
    requires
        outcomes.len() == requests.len(),
        done <= first < requests.len(),
        forall|i: int| done <= i < first ==> outcomes[i] is None,
        outcomes[first] is Some,
    ensures
        run(
            Batch { mode: Mode::Sequential, requests, started: done, settled: done, failure: None },
            outcomes,
        ) == (Batch {
            mode: Mode::Sequential,
            requests,
            started: (first + 1) as nat,
            settled: (first + 1) as nat,
            failure: outcomes[first],
        }),
    decreases first - done,
{
    let batch = Batch {
        mode: Mode::Sequential,
        requests,
        started: done,
        settled: done,
        failure: None,
    };
    assert(batch.starts());
    let after = batch.advanced().recorded(outcomes[done as int]);
    assert(run(batch, outcomes) == run(after, outcomes));
    if done == first {
        assert(!after.starts());
        assert(run(after, outcomes) == after);
    } else {
        assert(after == Batch {
            mode: Mode::Sequential,
            requests,
            started: done + 1,
            settled: done + 1,
            failure: None,
        });
        lemma_sequential_run_from(requests, outcomes, done + 1, first);
    }
}

/// In sequential mode, from a state in which `done` units ran and all
/// succeeded, a batch whose remaining units succeed runs them all.
proof fn lemma_sequential_run_clean(
    requests: Seq<MediaRequestView>,
    outcomes: Seq<Option<ReddSaverError>>,
    done: nat,
)
    requires
        outcomes.len() == requests.len(),
        done <= requests.len(),
        forall|i: int| done <= i < outcomes.len() ==> outcomes[i] is None,
    ensures
        run(
            Batch { mode: Mode::Sequential, requests, started: done, settled: done, failure: None },
            outcomes,
        ) == (Batch {
            mode: Mode::Sequential,
            requests,
            started: requests.len(),
            settled: requests.len(),
            failure: None,
        }),
    decreases requests.len() - done,
{
    let batch = Batch {
        mode: Mode::Sequential,
        requests,
        started: done,
        settled: done,
        failure: None,
    };
    if done < requests.len() {
        assert(batch.starts());
        let after = batch.advanced().recorded(outcomes[done as int]);
        assert(after == Batch {
            mode: Mode::Sequential,
            requests,
            started: done + 1,
            settled: done + 1,
            failure: None,
        });
        lemma_sequential_run_clean(requests, outcomes, done + 1);
    } else {
        assert(!batch.starts());
    }
}

/// Fail-fast, of every collection: a sequential batch in which the unit at
/// position `first` is the first to fail ends with the failure of that
/// unit, and has then started the units up to that one and none after it.
pub proof fn lemma_sequential_fails_fast(
    requests: Seq<MediaRequestView>,
    outcomes: Seq<Option<ReddSaverError>>,
    first: int,
)
    requires
        outcomes.len() == requests.len(),
        0 <= first < requests.len(),
        forall|i: int| 0 <= i < first ==> outcomes[i] is None,
        outcomes[first] is Some,
    ensures
        run(Batch::initial(Mode::Sequential, requests), outcomes).started == first + 1,
        run(Batch::initial(Mode::Sequential, requests), outcomes).action() == ActionView::Finish(
            Err(outcomes[first]->0),
        ),
{
    lemma_sequential_run_from(requests, outcomes, 0, first);
}

/// A sequential batch in which every unit succeeds runs every unit and
/// ends well.
pub proof fn lemma_sequential_succeeds(
    requests: Seq<MediaRequestView>,
    outcomes: Seq<Option<ReddSaverError>>,
)
    requires
        outcomes.len() == requests.len(),
        forall|i: int| 0 <= i < outcomes.len() ==> outcomes[i] is None,
    ensures
        run(Batch::initial(Mode::Sequential, requests), outcomes).started == requests.len(),
        run(Batch::initial(Mode::Sequential, requests), outcomes).action() == ActionView::Finish(
            Ok(()),
        ),
{
    lemma_sequential_run_clean(requests, outcomes, 0);
}

/// The first failure among the first `count` outcomes.
pub open spec fn first_failure(outcomes: Seq<Option<ReddSaverError>>, count: nat) -> Option<
    ReddSaverError,
>
    decreases count,
{
    if count == 0 {
        None
    } else if first_failure(outcomes, (count - 1) as nat) is Some {
        first_failure(outcomes, (count - 1) as nat)
    } else {
        outcomes[count - 1]
    }
}

/// In parallel mode, launching goes on until every unit is launched.
proof fn lemma_parallel_launch_from(
    requests: Seq<MediaRequestView>,
    outcomes: Seq<Option<ReddSaverError>>,
    launched: nat,
)
    requires
        launched <= requests.len(),
    ensures
        run(
            Batch {
                mode: Mode::Parallel,
                requests,
                started: launched,
                settled: 0,
                failure: None,
            },
            outcomes,
        ) == run(
            Batch {
                mode: Mode::Parallel,
                requests,
                started: requests.len(),
                settled: 0,
                failure: None,
            },
            outcomes,
        ),
    decreases requests.len() - launched,
{
    let batch = Batch {
        mode: Mode::Parallel,
        requests,
        started: launched,
        settled: 0,
        failure: None,
    };
    if launched < requests.len() {
        assert(batch.starts());
        assert(batch.advanced() == Batch {
            mode: Mode::Parallel,
            requests,
            started: launched + 1,
            settled: 0,
            failure: None,
        });
        lemma_parallel_launch_from(requests, outcomes, launched + 1);
    }
}

/// In parallel mode, collecting goes on until every outcome is recorded,
/// and keeps the first failure in the order of the launches.
proof fn lemma_parallel_collect_from(
    requests: Seq<MediaRequestView>,
    outcomes: Seq<Option<ReddSaverError>>,
    collected: nat,
)
    requires
        collected <= requests.len(),
    ensures
        run(
            Batch {
                mode: Mode::Parallel,
                requests,
                started: requests.len(),
                settled: collected,
                failure: first_failure(outcomes, collected),
            },
            outcomes,
        ) == (Batch {
            mode: Mode::Parallel,
            requests,
            started: requests.len(),
            settled: requests.len(),
            failure: first_failure(outcomes, requests.len()),
        }),
    decreases requests.len() - collected,
{
    let batch = Batch {
        mode: Mode::Parallel,
        requests,
        started: requests.len(),
        settled: collected,
        failure: first_failure(outcomes, collected),
    };
    assert(!batch.starts());
    if collected < requests.len() {
        let after = batch.recorded(outcomes[collected as int]);
        assert(after == Batch {
            mode: Mode::Parallel,
            requests,
            started: requests.len(),
            settled: collected + 1,
            failure: first_failure(outcomes, collected + 1),
        });
        lemma_parallel_collect_from(requests, outcomes, collected + 1);
    }
}

/// Fan-out completion, of every collection: a parallel batch starts the
/// unit of every request and collects every outcome, whichever units fail,
/// and ends with the first failure in the order of the launches, or well
/// where no unit failed.
pub proof fn lemma_parallel_completes(
    requests: Seq<MediaRequestView>,
    outcomes: Seq<Option<ReddSaverError>>,
)
    ensures
        run(Batch::initial(Mode::Parallel, requests), outcomes).started == requests.len(),
        run(Batch::initial(Mode::Parallel, requests), outcomes).settled == requests.len(),
        run(Batch::initial(Mode::Parallel, requests), outcomes).action() == ActionView::Finish(
            match first_failure(outcomes, requests.len()) {
                Some(error) => Err(error),
                None => Ok(()),
            },
        ),
{
    lemma_parallel_launch_from(requests, outcomes, 0);
    lemma_parallel_collect_from(requests, outcomes, 0);
}

/// A failure anywhere makes a parallel batch fail: where some unit fails,
/// the first failure is one, and it is the failure of a unit.
pub proof fn lemma_first_failure(outcomes: Seq<Option<ReddSaverError>>, count: nat)
    requires
        count <= outcomes.len(),
    ensures
        first_failure(outcomes, count) is Some <==> exists|i: int|
            0 <= i < count && (#[trigger] outcomes[i]) is Some,
        first_failure(outcomes, count) is Some ==> exists|i: int|
            0 <= i < count && #[trigger] outcomes[i] == first_failure(outcomes, count),
    decreases count,
{
    if count > 0 {
        lemma_first_failure(outcomes, (count - 1) as nat);
        if first_failure(outcomes, (count - 1) as nat) is Some {
            let i = choose|i: int|
                0 <= i < count - 1 && #[trigger] outcomes[i] == first_failure(
                    outcomes,
                    (count - 1) as nat,
                );
            assert(outcomes[i] is Some);
        } else if outcomes[count - 1] is Some {
            assert(outcomes[count - 1] == first_failure(outcomes, count));
        }
    }
}

/// The runner of one batch.
pub struct BatchRunner {
    mode: Mode,
    requests: Vec<MediaRequest>,
    started: usize,
    settled: usize,
    failure: Option<ReddSaverError>,
}

impl View for BatchRunner {
    type V = Batch;

    closed spec fn view(&self) -> Batch {
        Batch {
            mode: self.mode,
            requests: crate::filter::request_views(self.requests@),
            started: self.started as nat,
            settled: self.settled as nat,
            failure: self.failure,
        }
    }
}

impl BatchRunner {
    /// A runner for the posts of `items` that the filter accepts. The posts
    /// that it rejects take no part in the batch.
    pub fn new(items: &Vec<SavedItem>, mode: Mode) -> (runner: BatchRunner)
        ensures
            runner@ == Batch::initial(mode, accepted(items@)),
            runner@.wf(),
    {
        BatchRunner {
            mode,
            requests: accepted_requests(items),
            started: 0,
            settled: 0,
            failure: None,
        }
    }

    /// How many units were handed out so far.
    pub fn started(&self) -> (count: usize)
        ensures
            count == self@.started,
    {
        self.started
    }

    /// How many outcomes were recorded so far.
    pub fn settled(&self) -> (count: usize)
        ensures
            count == self@.settled,
    {
        self.settled
    }

    /// Hands out the action that is due. A unit that is handed out counts
    /// as started.
    pub fn next(&mut self) -> (action: Action)
        ensures
            action@ == old(self)@.action(),
            final(self)@ == old(self)@.advanced(),
            old(self)@.wf() ==> final(self)@.wf(),
    {
        let may_start = self.started < self.requests.len() && match self.mode {
            Mode::Sequential => self.settled >= self.started && self.failure.is_none(),
            Mode::Parallel => true,
        };
        if may_start {
            let request = self.requests[self.started].clone();
            self.started = self.started + 1;
            match self.mode {
                Mode::Sequential => Action::Run(request),
                Mode::Parallel => Action::Launch(request),
            }
        } else if self.settled < self.started {
            Action::Collect
        } else {
            match self.failure {
                Some(error) => Action::Finish(Err(error)),
                None => Action::Finish(Ok(())),
            }
        }
    }

    /// Records the outcome of a unit that was handed out: the path of the
    /// stored image, or the failure. Only the first failure is kept.
    pub fn record(&mut self, outcome: &Result<String, ReddSaverError>)
        ensures
            final(self)@ == old(self)@.recorded(failure_of(*outcome)),
            old(self)@.wf() ==> final(self)@.wf(),
    {
        if self.settled < self.started {
            self.settled = self.settled + 1;
            if self.failure.is_none() {
                self.failure = match outcome {
                    Ok(_) => None,
                    Err(error) => Some(*error),
                };
            }
        }
    }
}

} // verus!

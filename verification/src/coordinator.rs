use vstd::prelude::*;

use crate::batch::{make_batches, num_batches};
use crate::extract::{extractable, scan_file};
use crate::record::ScanEntry;
use crate::store::{open_connection, save_batch_to_db, setup_db, store_error, WriteError};

verus! {

/// The phases of one run. A run moves from `Idle` through `Initializing`
/// (schema setup), `Scanning` (batches dispatched to writers) and
/// `Draining` (every dispatched batch awaited) to one terminal phase:
/// `Done` when every batch committed, `Failed` otherwise, or `Cancelled`
/// when the caller aborted between batches.
#[derive(Clone, Copy, PartialEq, Eq, Structural, Debug)]
pub enum RunState {
    Idle,
    Initializing,
    Scanning,
    Draining,
    Done,
    Failed,
    Cancelled,
}

/// The single error a run surfaces to its caller.
#[derive(Debug)]
pub enum PipelineError {
    /// The configured batch size was zero; rejected before any store work.
    InvalidBatchSize,
    /// Opening the store or setting up its schema failed; no batch was
    /// attempted.
    StoreInit { message: String },
    /// One or more batch writes failed. Every failure is collected, in
    /// arrival order; the first element is the error the run surfaces.
    BatchWrites { errors: Vec<WriteError> },
}

/// What a completed run did: how many records were extracted and how many
/// batches they filled.
#[derive(Clone, Copy, PartialEq, Eq, Structural, Debug)]
pub struct RunSummary {
    pub records: usize,
    pub batches: usize,
}

/// The write errors among a sequence of batch outcomes, in arrival order.
pub open spec fn errors_of(outcomes: Seq<Result<(), WriteError>>) -> Seq<WriteError>
    decreases outcomes.len(),
{
    if outcomes.len() == 0 {
        Seq::empty()
    } else {
        match outcomes.first() {
            Ok(_) => errors_of(outcomes.drop_first()),
            Err(e) => seq![e] + errors_of(outcomes.drop_first()),
        }
    }
}

/// Law: a drained run aggregates to success exactly when no batch outcome
/// was a failure.
pub proof fn lemma_aggregate_success_iff_no_failure(outcomes: Seq<Result<(), WriteError>>)
    ensures
        errors_of(outcomes).len() == 0 <==> (forall|i: int|
            0 <= i < outcomes.len() ==> outcomes[i] is Ok),
    decreases outcomes.len(),
{
    if outcomes.len() > 0 {
        lemma_aggregate_success_iff_no_failure(outcomes.drop_first());
        assert(outcomes.first() == outcomes[0]);
        assert(forall|j: int|
            0 <= j < outcomes.drop_first().len() ==> #[trigger] outcomes.drop_first()[j]
                == outcomes[j + 1]);
        assert(forall|i: int|
            1 <= i < outcomes.len() ==> outcomes.drop_first()[i - 1] == #[trigger] outcomes[i]);
        if outcomes[0] is Err {
            assert(errors_of(outcomes).len() > 0);
        }
    }
}

/// Law: when some batch failed, the aggregate collects a failure list whose
/// first element is the earliest failure in arrival order — later failures
/// are collected, never surfaced first.
pub proof fn lemma_first_failure_surfaced(outcomes: Seq<Result<(), WriteError>>, i: int)
    requires
        0 <= i < outcomes.len(),
        outcomes[i] is Err,
        forall|j: int| 0 <= j < i ==> outcomes[j] is Ok,
    ensures
        errors_of(outcomes).len() > 0,
        errors_of(outcomes)[0] == outcomes[i]->Err_0,
    decreases i,
{
    if i > 0 {
        assert(forall|j: int|
            0 <= j < i - 1 ==> outcomes.drop_first()[j] == #[trigger] outcomes[j + 1]);
        lemma_first_failure_surfaced(outcomes.drop_first(), i - 1);
    }
}

/// Law: every collected error is the error of one of the outcomes; the
/// aggregate invents none.
pub proof fn lemma_collected_errors_are_outcomes(outcomes: Seq<Result<(), WriteError>>)
    ensures
        forall|j: int|
            0 <= j < errors_of(outcomes).len() ==> exists|k: int|
                0 <= k < outcomes.len() && outcomes[k] == Result::<(), WriteError>::Err(
                    #[trigger] errors_of(outcomes)[j],
                ),
    decreases outcomes.len(),
{
    if outcomes.len() > 0 {
        lemma_collected_errors_are_outcomes(outcomes.drop_first());
        assert forall|j: int| 0 <= j < errors_of(outcomes).len() implies exists|k: int|
            0 <= k < outcomes.len() && outcomes[k] == Result::<(), WriteError>::Err(
                #[trigger] errors_of(outcomes)[j],
            ) by {
            let rest = errors_of(outcomes.drop_first());
            let shift: int = errors_of(outcomes).len() - rest.len();
            if j >= shift {
                let k0 = choose|k0: int|
                    0 <= k0 < outcomes.drop_first().len() && outcomes.drop_first()[k0]
                        == Result::<(), WriteError>::Err(rest[j - shift]);
                assert(outcomes[k0 + 1] == outcomes.drop_first()[k0]);
            } else {
                assert(outcomes[0] == Result::<(), WriteError>::Err(errors_of(outcomes)[j]));
            }
        }
    }
}

/// Law: when each outcome in a sequence is tagged with its own position
/// (shifted by `offset`), the collected errors keep those positions in
/// strictly increasing order: one collected failure per failed batch, in
/// batch order, none repeated.
pub proof fn lemma_collected_errors_keep_batch_order(
    outcomes: Seq<Result<(), WriteError>>,
    offset: int,
)
    requires
        forall|k: int|
            0 <= k < outcomes.len() ==> ((#[trigger] outcomes[k]) matches Err(e) ==> e.batch_index
                == k + offset),
    ensures
        forall|j: int|
            0 <= j < errors_of(outcomes).len() ==> offset <= #[trigger] errors_of(
                outcomes,
            )[j].batch_index < outcomes.len() + offset,
        forall|j1: int, j2: int|
            0 <= j1 < j2 < errors_of(outcomes).len() ==> errors_of(outcomes)[j1].batch_index
                < errors_of(outcomes)[j2].batch_index,
    decreases outcomes.len(),
{
    if outcomes.len() > 0 {
        let rest = outcomes.drop_first();
        assert(forall|j: int| 0 <= j < rest.len() ==> #[trigger] rest[j] == outcomes[j + 1]);
        lemma_collected_errors_keep_batch_order(rest, offset + 1);
        assert(outcomes.first() == outcomes[0]);
        let shift: int = match outcomes.first() {
            Ok(_) => 0,
            Err(e) => {
                assert(errors_of(outcomes)[0] == e);
                1
            },
        };
        assert(forall|j: int|
            shift <= j < errors_of(outcomes).len() ==> #[trigger] errors_of(outcomes)[j]
                == errors_of(rest)[j - shift]);
        assert forall|j: int| 0 <= j < errors_of(outcomes).len() implies offset
            <= #[trigger] errors_of(outcomes)[j].batch_index < outcomes.len() + offset by {
            if j >= shift {
                assert(offset + 1 <= errors_of(rest)[j - shift].batch_index < rest.len() + offset
                    + 1);
            }
        }
        assert forall|j1: int, j2: int|
            0 <= j1 < j2 < errors_of(outcomes).len() implies errors_of(outcomes)[j1].batch_index
            < errors_of(outcomes)[j2].batch_index by {
            assert(offset + 1 <= errors_of(rest)[j2 - shift].batch_index);
            if j1 >= shift {
                assert(errors_of(rest)[j1 - shift].batch_index < errors_of(
                    rest,
                )[j2 - shift].batch_index);
            }
        }
    }
}

/// Fan-in of the per-batch outcomes: success exactly when every batch
/// committed; otherwise the collected failure list, in arrival order, with
/// the earliest failure first.
pub fn aggregate_outcomes(outcomes: &Vec<Result<(), WriteError>>) -> (r: Result<
    (),
    Vec<WriteError>,
>)
    ensures
        r is Ok <==> errors_of(outcomes@).len() == 0,
        r is Ok <==> (forall|i: int| 0 <= i < outcomes@.len() ==> outcomes@[i] is Ok),
        r matches Err(errs) ==> errs@ == errors_of(outcomes@) && errs@.len() > 0,
{
    let mut errs: Vec<WriteError> = Vec::new();
    let mut i: usize = 0;
    proof {
        assert(outcomes@.skip(0) =~= outcomes@);
    }
    while i < outcomes.len()
        invariant
            i <= outcomes@.len(),
            errors_of(outcomes@) == errs@ + errors_of(outcomes@.skip(i as int)),
        decreases outcomes@.len() - i,
    {
        let ghost old_errs = errs@;
        match &outcomes[i] {
            Ok(_) => {},
            Err(e) => {
                errs.push(e.clone());
            },
        }
        i = i + 1;
        proof {
            let k = (i - 1) as int;
            assert(outcomes@.skip(k).drop_first() =~= outcomes@.skip(i as int));
            assert(outcomes@.skip(k).first() == outcomes@[k]);
            if outcomes@[k] is Err {
                assert(errors_of(outcomes@.skip(k)) == seq![outcomes@[k]->Err_0] + errors_of(
                    outcomes@.skip(i as int),
                ));
                assert(old_errs + errors_of(outcomes@.skip(k)) =~= errs@ + errors_of(
                    outcomes@.skip(i as int),
                ));
            }
        }
    }
    proof {
        assert(outcomes@.skip(outcomes@.len() as int) =~= Seq::<Result<(), WriteError>>::empty());
        assert(errs@ + errors_of(outcomes@.skip(outcomes@.len() as int)) =~= errs@);
        lemma_aggregate_success_iff_no_failure(outcomes@);
    }
    if errs.len() == 0 {
        Ok(())
    } else {
        Err(errs)
    }
}

/// The run's state machine. The coordinator decides the run's phases and
/// collects the per-batch outcomes; the surrounding program performs the
/// store setup only while the coordinator is `Initializing`, dispatches
/// batch writes only while it is `Scanning`, and reports every outcome
/// back before reading the terminal phase.
pub struct Coordinator {
    pub state: RunState,
    pub dispatched: usize,
    pub reported: usize,
    pub errors: Vec<WriteError>,
}

impl Coordinator {
    /// The coordinator's invariant: no more outcomes reported than batches
    /// dispatched, no more errors collected than outcomes reported, and
    /// nothing dispatched before scanning begins or after success.
    pub open spec fn wf(self) -> bool {
        &&& self.reported <= self.dispatched
        &&& self.errors@.len() <= self.reported
        &&& (self.state is Idle ==> self.dispatched == 0 && self.errors@.len() == 0)
        &&& (self.state is Initializing ==> self.dispatched == 0 && self.errors@.len() == 0)
        &&& (self.state is Done ==> self.reported == self.dispatched && self.errors@.len() == 0)
    }

    pub fn new() -> (c: Coordinator)
        ensures
            c.wf(),
            c.state is Idle,
            c.dispatched == 0,
            c.reported == 0,
            c.errors@.len() == 0,
    {
        Coordinator { state: RunState::Idle, dispatched: 0, reported: 0, errors: Vec::new() }
    }

    /// Starts a run. A zero batch size is a configuration error: the run
    /// moves straight to `Failed`, never reaching `Initializing`, so no
    /// store work is ever performed for it. Any positive batch size is
    /// accepted.
    pub fn start(&mut self, batch_size: usize)
        requires
            old(self).state is Idle,
            old(self).wf(),
        ensures
            final(self).wf(),
            batch_size == 0 ==> final(self).state is Failed,
            batch_size >= 1 ==> final(self).state is Initializing,
            final(self).dispatched == 0,
            final(self).reported == 0,
            final(self).errors@.len() == 0,
    {
        if batch_size == 0 {
            self.state = RunState::Failed;
        } else {
            self.state = RunState::Initializing;
        }
    }

    /// Records whether the schema setup succeeded. A setup failure is
    /// fatal: the run fails with no batch ever dispatched.
    pub fn setup_finished(&mut self, ok: bool)
        requires
            old(self).state is Initializing,
            old(self).wf(),
        ensures
            final(self).wf(),
            ok ==> final(self).state is Scanning,
            !ok ==> final(self).state is Failed,
            final(self).dispatched == 0,
            final(self).reported == 0,
            final(self).errors@.len() == 0,
    {
        if ok {
            self.state = RunState::Scanning;
        } else {
            self.state = RunState::Failed;
        }
    }

    /// Records that one batch was handed to a writer.
    pub fn batch_dispatched(&mut self)
        requires
            old(self).state is Scanning,
            old(self).wf(),
            old(self).dispatched < usize::MAX,
        ensures
            final(self).wf(),
            final(self).state is Scanning,
            final(self).dispatched == old(self).dispatched + 1,
            final(self).reported == old(self).reported,
            final(self).errors == old(self).errors,
    {
        self.dispatched = self.dispatched + 1;
    }

    /// Records the outcome of one dispatched batch. A failure is collected,
    /// in arrival order, never dropped; it does not stop the other
    /// in-flight batches.
    pub fn outcome_reported(&mut self, outcome: Result<(), WriteError>)
        requires
            old(self).state is Scanning || old(self).state is Draining,
            old(self).wf(),
            old(self).reported < old(self).dispatched,
        ensures
            final(self).wf(),
            final(self).state == old(self).state,
            final(self).dispatched == old(self).dispatched,
            final(self).reported == old(self).reported + 1,
            final(self).errors@ == (match outcome {
                Ok(_) => old(self).errors@,
                Err(e) => old(self).errors@.push(e),
            }),
    {
        self.reported = self.reported + 1;
        match outcome {
            Ok(_) => {},
            Err(e) => {
                self.errors.push(e);
            },
        }
    }

    /// Records that the traversal is exhausted and every batch has been
    /// dispatched: the run drains its outstanding writes.
    pub fn scan_finished(&mut self)
        requires
            old(self).state is Scanning,
            old(self).wf(),
        ensures
            final(self).wf(),
            final(self).state is Draining,
            final(self).dispatched == old(self).dispatched,
            final(self).reported == old(self).reported,
            final(self).errors == old(self).errors,
    {
        self.state = RunState::Draining;
    }

    /// Closes a drained run, once every dispatched batch has reported:
    /// `Done` exactly when no batch failed.
    pub fn drain_finished(&mut self)
        requires
            old(self).state is Draining,
            old(self).wf(),
            old(self).reported == old(self).dispatched,
        ensures
            final(self).wf(),
            old(self).errors@.len() == 0 ==> final(self).state is Done,
            old(self).errors@.len() > 0 ==> final(self).state is Failed,
            final(self).dispatched == old(self).dispatched,
            final(self).reported == old(self).reported,
            final(self).errors == old(self).errors,
    {
        if self.errors.len() == 0 {
            self.state = RunState::Done;
        } else {
            self.state = RunState::Failed;
        }
    }

    /// Aborts the run between batches, on the caller's cancellation
    /// signal. Cancellation is its own terminal phase, distinct from
    /// failure.
    pub fn cancel_requested(&mut self)
        requires
            old(self).state is Scanning || old(self).state is Draining,
            old(self).wf(),
        ensures
            final(self).wf(),
            final(self).state is Cancelled,
            final(self).dispatched == old(self).dispatched,
            final(self).reported == old(self).reported,
            final(self).errors == old(self).errors,
    {
        self.state = RunState::Cancelled;
    }
}

/// How many of the entries yield a record.
pub open spec fn count_extractable(entries: Seq<ScanEntry>) -> int
    decreases entries.len(),
{
    if entries.len() == 0 {
        0
    } else {
        count_extractable(entries.drop_last()) + (if extractable(
            entries.last().path@,
            entries.last().meta,
        ) {
            1int
        } else {
            0int
        })
    }
}

/// Runs one whole snapshot over the given entries: rejects a zero batch
/// size before touching the store, opens the store and sets up its schema,
/// extracts a record per readable entry, groups the records into batches,
/// writes each batch in its own transaction, and aggregates the outcomes.
/// A batch failure does not stop the remaining batches: every batch is
/// written before the run reports failure, and every failure is collected.
pub fn scan_and_save(db_path: &str, entries: &Vec<ScanEntry>, batch_size: usize) -> (r: Result<
    RunSummary,
    PipelineError,
>)
    requires
        forall|i: int| 0 <= i < entries@.len() ==> (#[trigger] entries@[i]).wf(),
    ensures
        batch_size == 0 <==> r matches Err(PipelineError::InvalidBatchSize),
        r matches Ok(s) ==> s.records == count_extractable(entries@) && s.batches == num_batches(
            count_extractable(entries@),
            batch_size as int,
        ),
        r matches Err(PipelineError::BatchWrites { errors }) ==> {
            &&& errors@.len() > 0
            &&& forall|j: int|
                0 <= j < errors@.len() ==> #[trigger] errors@[j].batch_index < num_batches(
                    count_extractable(entries@),
                    batch_size as int,
                )
            &&& forall|j1: int, j2: int|
                0 <= j1 < j2 < errors@.len() ==> errors@[j1].batch_index
                    < errors@[j2].batch_index
        },
{
    if batch_size == 0 {
        return Err(PipelineError::InvalidBatchSize);
    }
    let conn = match open_connection(db_path) {
        Ok(c) => c,
        Err(e) => {
            return Err(PipelineError::StoreInit { message: store_error(&e).message });
        },
    };
    match setup_db(&conn) {
        Ok(_) => {},
        Err(se) => {
            return Err(PipelineError::StoreInit { message: se.message });
        },
    }
    let mut records: Vec<crate::record::FileRecord> = Vec::new();
    let mut i: usize = 0;
    proof {
        assert(entries@.take(0) =~= Seq::<ScanEntry>::empty());
    }
    while i < entries.len()
        invariant
            i <= entries@.len(),
            forall|k: int| 0 <= k < entries@.len() ==> (#[trigger] entries@[k]).wf(),
            records@.len() == count_extractable(entries@.take(i as int)),
        decreases entries@.len() - i,
    {
        let entry = &entries[i];
        match scan_file(entry.path.as_str(), &entry.meta) {
            Some(rec) => {
                records.push(rec);
            },
            None => {},
        }
        i = i + 1;
        proof {
            let k = (i - 1) as int;
            assert(entries@.take(i as int).drop_last() =~= entries@.take(k));
            assert(entries@.take(i as int).last() == entries@[k]);
        }
    }
    proof {
        assert(entries@.take(entries@.len() as int) =~= entries@);
    }
    let batches = make_batches(&records, batch_size);
    let mut outcomes: Vec<Result<(), WriteError>> = Vec::new();
    let mut b: usize = 0;
    while b < batches.len()
        invariant
            b == outcomes@.len() <= batches@.len(),
            forall|k: int|
                0 <= k < outcomes@.len() ==> ((#[trigger] outcomes@[k]) matches Err(e)
                    ==> e.batch_index == k),
        decreases batches@.len() - b,
    {
        let outcome = save_batch_to_db(&conn, &batches[b], b);
        outcomes.push(outcome);
        b = b + 1;
    }
    match aggregate_outcomes(&outcomes) {
        Ok(_) => Ok(RunSummary { records: records.len(), batches: batches.len() }),
        Err(errs) => {
            proof {
                lemma_collected_errors_are_outcomes(outcomes@);
                lemma_collected_errors_keep_batch_order(outcomes@, 0);
                assert forall|j: int| 0 <= j < errs@.len() implies #[trigger] errs@[j].batch_index
                    < num_batches(count_extractable(entries@), batch_size as int) by {
                    assert(errs@[j] == errors_of(outcomes@)[j]);
                    let k = choose|k: int|
                        0 <= k < outcomes@.len() && outcomes@[k] == Result::<(), WriteError>::Err(
                            errors_of(outcomes@)[j],
                        );
                    assert(outcomes@[k] matches Err(e) ==> e.batch_index == k);
                }
            }
            Err(PipelineError::BatchWrites { errors: errs })
        },
    }
}

} // verus!

//! The admission-controlled single-worker job dispatcher.
//!
//! The dispatcher owns a bounded FIFO queue of jobs. Arbitrarily many
//! submitters attempt non-blocking admission; a full queue rejects
//! immediately (backpressure) and a closed queue reports the worker gone.
//! A single worker takes jobs one at a time, oldest first, and finishes
//! exactly one job before taking the next. The mathematical state
//! [`DispatchState`] tracks every admitted id across the completed /
//! in-flight / pending partition, which is what the FIFO and admission laws
//! are stated over.

use vstd::prelude::*;
use vstd::string::StringExecFns;

verus! {

/// One unit of submitted audio awaiting transcription.
pub struct Job {
    /// Admission ticket: ids are consecutive, assigned in submission order.
    pub id: u64,
    /// The decoded samples, owned by the job until handed to the worker.
    pub audio: Vec<i16>,
}

/// The mathematical value of a job.
#[verifier::ext_equal]
pub ghost struct JobView {
    pub id: nat,
    pub audio: Seq<i16>,
}

impl View for Job {
    type V = JobView;

    open spec fn view(&self) -> JobView {
        JobView { id: self.id as nat, audio: self.audio@ }
    }
}

/// What the worker delivers for one finished job.
#[derive(Clone, Debug, PartialEq, Eq)]
pub enum JobOutcome {
    /// The engine produced a transcript.
    Transcript(String),
    /// The engine failed on this job; the detail is kept for diagnostics.
    Failed(String),
}

/// Why a submission was rejected or a job yielded no transcript.
#[derive(Clone, Debug, PartialEq, Eq)]
pub enum WorkerError {
    /// The queue was at capacity; the caller may retry later.
    QueueFull,
    /// The worker has shut down or vanished before answering.
    WorkerGone,
    /// The engine call for this job failed; the detail is attached.
    Transcription(String),
}

/// The boundary status class of a worker failure: capacity faults are
/// retryable (503), inference faults are internal (500).
pub open spec fn status_code_of(e: WorkerError) -> u16 {
    match e {
        WorkerError::QueueFull => 503,
        WorkerError::WorkerGone => 503,
        WorkerError::Transcription(_) => 500,
    }
}

/// The text reported for a worker failure.
pub open spec fn worker_error_text(e: WorkerError) -> Seq<char> {
    match e {
        WorkerError::QueueFull => "transcription queue is full"@,
        WorkerError::WorkerGone => "transcription worker unavailable"@,
        WorkerError::Transcription(detail) => "transcription failed: "@ + detail@,
    }
}

impl WorkerError {
    /// The HTTP status class of this failure.
    pub fn status_code(&self) -> (code: u16)
        ensures
            code == status_code_of(*self),
    {
        match self {
            WorkerError::QueueFull => 503,
            WorkerError::WorkerGone => 503,
            WorkerError::Transcription(_) => 500,
        }
    }

    /// Human-readable description of the failure.
    pub fn message(&self) -> (m: String)
        ensures
            m@ == worker_error_text(*self),
    {
        match self {
            WorkerError::QueueFull => "transcription queue is full".to_string(),
            WorkerError::WorkerGone => "transcription worker unavailable".to_string(),
            WorkerError::Transcription(detail) => {
                let mut m = "transcription failed: ".to_string();
                m.append(detail.as_str());
                m
            },
        }
    }
}

/// The engine's verdict for one finished job, as delivered to its channel:
/// success becomes a transcript, an engine failure becomes a delivered
/// failure outcome — never a crash of the worker.
pub open spec fn outcome_of(engine_result: Result<String, String>) -> JobOutcome {
    match engine_result {
        Ok(text) => JobOutcome::Transcript(text),
        Err(detail) => JobOutcome::Failed(detail),
    }
}

/// The mathematical state of the dispatcher: which jobs finished (in
/// completion order), which is in active inference, what is pending (oldest
/// first), how many ids were handed out, and whether the queue is closed.
#[verifier::ext_equal]
pub ghost struct DispatchState {
    pub capacity: nat,
    pub closed: bool,
    pub next_id: nat,
    pub pending: Seq<JobView>,
    pub in_flight: Option<nat>,
    pub completed: Seq<nat>,
}

impl DispatchState {
    /// All admitted ids, oldest first: finished jobs, then the one in
    /// inference, then the pending queue.
    pub open spec fn trace(self) -> Seq<nat> {
        self.completed + (match self.in_flight {
            Some(id) => seq![id],
            None => Seq::<nat>::empty(),
        }) + self.pending.map_values(|j: JobView| j.id)
    }

    /// The admission order: ids are consecutive from zero, so the admitted
    /// ids are exactly `0 .. next_id`, in order.
    pub open spec fn admission_order(self) -> Seq<nat> {
        Seq::new(self.next_id, |i: int| i as nat)
    }

    /// Well-formed dispatcher state: positive capacity, a queue never beyond
    /// capacity, and every admitted id present exactly once, in admission
    /// order, across completed / in-flight / pending.
    pub open spec fn wf(self) -> bool {
        &&& self.capacity >= 1
        &&& self.pending.len() <= self.capacity
        &&& self.next_id <= u64::MAX
        &&& self.trace() == self.admission_order()
    }

    /// One submission attempt (non-blocking admission control): a closed
    /// queue rejects with `WorkerGone`, a full queue with `QueueFull`,
    /// anything else admits the audio under the next id.
    pub open spec fn submit_tr(self, audio: Seq<i16>) -> (DispatchState, Result<
        nat,
        WorkerError,
    >) {
        if self.closed {
            (self, Err(WorkerError::WorkerGone))
        } else if self.pending.len() >= self.capacity {
            (self, Err(WorkerError::QueueFull))
        } else {
            (
                DispatchState {
                    next_id: self.next_id + 1,
                    pending: self.pending.push(JobView { id: self.next_id, audio }),
                    ..self
                },
                Ok(self.next_id),
            )
        }
    }

    /// The idle worker takes the oldest pending job, if any.
    pub open spec fn take_tr(self) -> (DispatchState, Option<JobView>) {
        if self.in_flight is Some || self.pending.len() == 0 {
            (self, None)
        } else {
            (
                DispatchState {
                    pending: self.pending.drop_first(),
                    in_flight: Some(self.pending[0].id),
                    ..self
                },
                Some(self.pending[0]),
            )
        }
    }

    /// The worker finishes the in-flight job. The state change does not
    /// depend on what the engine returned.
    pub open spec fn complete_tr(self) -> DispatchState {
        match self.in_flight {
            Some(id) => DispatchState {
                in_flight: None,
                completed: self.completed.push(id),
                ..self
            },
            None => self,
        }
    }

    /// Shutdown: no further submissions are admitted; pending jobs may still
    /// drain.
    pub open spec fn close_tr(self) -> DispatchState {
        DispatchState { closed: true, ..self }
    }
}

/// Whether an executable admission result agrees with the model's.
pub open spec fn result_agrees(r: Result<u64, WorkerError>, m: Result<nat, WorkerError>) -> bool {
    match (r, m) {
        (Ok(id), Ok(mid)) => id as nat == mid,
        (Err(e), Err(me)) => e == me,
        _ => false,
    }
}

/// Submission preserves well-formedness; a rejection leaves the state
/// untouched, and admission happens exactly when the queue is open and has
/// room.
pub proof fn lemma_submit_tr_wf(s: DispatchState, audio: Seq<i16>)
    requires
        s.wf(),
        s.next_id < u64::MAX,
    ensures
        ({
            let (s2, r) = s.submit_tr(audio);
            &&& s2.wf()
            &&& (r is Err ==> s2 == s)
            &&& (r is Ok <==> !s.closed && s.pending.len() < s.capacity)
            &&& (r is Ok ==> s2.pending == s.pending.push(JobView { id: s.next_id, audio })
                && s2.next_id == s.next_id + 1 && r == Ok::<nat, WorkerError>(s.next_id))
            &&& s2.closed == s.closed
            &&& s2.capacity == s.capacity
            &&& s2.completed == s.completed
            &&& s2.in_flight == s.in_flight
        }),
{
    let (s2, r) = s.submit_tr(audio);
    if !s.closed && s.pending.len() < s.capacity {
        let jv = JobView { id: s.next_id, audio };
        assert(s2.pending.map_values(|j: JobView| j.id) =~= s.pending.map_values(
            |j: JobView| j.id,
        ).push(jv.id));
        assert(s2.trace() =~= s.trace().push(s.next_id));
        assert(s2.admission_order() =~= s.admission_order().push(s.next_id));
        assert(s2.trace() == s2.admission_order());
    }
}

/// Taking a job preserves well-formedness: the oldest pending job simply
/// moves to the in-flight slot.
pub proof fn lemma_take_tr_wf(s: DispatchState)
    requires
        s.wf(),
        s.in_flight is None,
    ensures
        ({
            let (s2, j) = s.take_tr();
            &&& s2.wf()
            &&& (s.pending.len() == 0 ==> s2 == s && j is None)
            &&& (s.pending.len() > 0 ==> j == Some(s.pending[0]) && s2.pending
                == s.pending.drop_first() && s2.in_flight == Some(s.pending[0].id))
            &&& s2.closed == s.closed
            &&& s2.capacity == s.capacity
            &&& s2.completed == s.completed
            &&& s2.next_id == s.next_id
        }),
{
    let (s2, j) = s.take_tr();
    if s.pending.len() > 0 {
        assert(s2.pending.map_values(|jv: JobView| jv.id) =~= s.pending.map_values(
            |jv: JobView| jv.id,
        ).drop_first());
        assert(s2.trace() =~= s.trace());
        assert(s2.trace() == s2.admission_order());
    }
}

/// Finishing the in-flight job preserves well-formedness: its id moves to
/// the completed log, and nothing about the queue changes.
pub proof fn lemma_complete_tr_wf(s: DispatchState)
    requires
        s.wf(),
        s.in_flight is Some,
    ensures
        ({
            let s2 = s.complete_tr();
            &&& s2.wf()
            &&& s2.in_flight is None
            &&& s2.pending == s.pending
            &&& s2.closed == s.closed
            &&& s2.capacity == s.capacity
            &&& s2.next_id == s.next_id
            &&& s2.completed == s.completed.push(s.in_flight->0)
        }),
{
    let s2 = s.complete_tr();
    assert(s2.trace() =~= s.trace());
    assert(s2.trace() == s2.admission_order());
}

/// Closing preserves well-formedness and touches only the flag.
pub proof fn lemma_close_tr_wf(s: DispatchState)
    requires
        s.wf(),
    ensures
        s.close_tr().wf(),
        s.close_tr().closed,
        s.close_tr().pending == s.pending,
        s.close_tr().capacity == s.capacity,
        s.close_tr().next_id == s.next_id,
        s.close_tr().in_flight == s.in_flight,
        s.close_tr().completed == s.completed,
{
    assert(s.close_tr().trace() =~= s.trace());
    assert(s.close_tr().trace() == s.close_tr().admission_order());
}

/// The admission-controlled bounded FIFO queue plus its bookkeeping. The
/// dispatcher owns the queue; many submitters race on [`Dispatcher::submit`],
/// the single worker drains it with [`Dispatcher::take_next`] and
/// [`Dispatcher::complete`].
pub struct Dispatcher {
    capacity: usize,
    closed: bool,
    next_id: u64,
    queue: Vec<Job>,
    in_flight: Option<u64>,
    completed: Ghost<Seq<nat>>,
}

impl View for Dispatcher {
    type V = DispatchState;

    closed spec fn view(&self) -> DispatchState {
        DispatchState {
            capacity: self.capacity as nat,
            closed: self.closed,
            next_id: self.next_id as nat,
            pending: self.queue@.map_values(|j: Job| j@),
            in_flight: match self.in_flight {
                Some(id) => Some(id as nat),
                None => None,
            },
            completed: self.completed@,
        }
    }
}

impl Dispatcher {
    /// A fresh dispatcher with the given positive queue capacity: open,
    /// empty, no job in flight, no id handed out yet.
    pub fn new(capacity: usize) -> (d: Dispatcher)
        requires
            capacity >= 1,
        ensures
            d@.wf(),
            d@.capacity == capacity,
            !d@.closed,
            d@.next_id == 0,
            d@.pending == Seq::<JobView>::empty(),
            d@.in_flight is None,
            d@.completed == Seq::<nat>::empty(),
    {
        let d = Dispatcher {
            capacity,
            closed: false,
            next_id: 0,
            queue: Vec::new(),
            in_flight: None,
            completed: Ghost(Seq::empty()),
        };
        proof {
            assert(d@.pending =~= Seq::<JobView>::empty());
            assert(d@.trace() =~= Seq::<nat>::empty());
            assert(d@.admission_order() =~= Seq::<nat>::empty());
        }
        d
    }

    /// Non-blocking admission control: the submission is enqueued under a
    /// fresh id if the queue is open and below capacity; a full queue
    /// rejects immediately with `QueueFull` (backpressure, never blocking),
    /// a closed queue with `WorkerGone`.
    pub fn submit(&mut self, audio: Vec<i16>) -> (r: Result<u64, WorkerError>)
        requires
            old(self)@.wf(),
            old(self)@.next_id < u64::MAX,
        ensures
            final(self)@.wf(),
            final(self)@ == old(self)@.submit_tr(audio@).0,
            result_agrees(r, old(self)@.submit_tr(audio@).1),
    {
        proof {
            lemma_submit_tr_wf(old(self)@, audio@);
        }
        if self.closed {
            Err(WorkerError::WorkerGone)
        } else if self.queue.len() >= self.capacity {
            Err(WorkerError::QueueFull)
        } else {
            let id = self.next_id;
            self.next_id = self.next_id + 1;
            self.queue.push(Job { id, audio });
            proof {
                assert(self@.pending =~= old(self)@.submit_tr(audio@).0.pending);
                assert(self@ =~= old(self)@.submit_tr(audio@).0);
            }
            Ok(id)
        }
    }

    /// The idle worker takes the oldest pending job (strict FIFO); `None`
    /// when the queue is empty. The taken job is in active inference until
    /// [`Dispatcher::complete`] is called.
    pub fn take_next(&mut self) -> (r: Option<Job>)
        requires
            old(self)@.wf(),
            old(self)@.in_flight is None,
        ensures
            final(self)@.wf(),
            final(self)@ == old(self)@.take_tr().0,
            (match r {
                Some(job) => old(self)@.take_tr().1 == Some(job@),
                None => old(self)@.take_tr().1 == None::<JobView>,
            }),
    {
        proof {
            lemma_take_tr_wf(old(self)@);
        }
        if self.queue.len() == 0 {
            None
        } else {
            let job = self.queue.remove(0);
            self.in_flight = Some(job.id);
            proof {
                assert(self@.pending =~= old(self)@.take_tr().0.pending);
                assert(self@ =~= old(self)@.take_tr().0);
            }
            Some(job)
        }
    }

    /// The worker finishes the in-flight job with whatever the engine
    /// returned, and hands back the outcome to deliver: a transcript on
    /// success, a failure outcome on an engine error. An engine failure is
    /// local to this job — the dispatcher state changes identically either
    /// way and stays ready for further jobs.
    pub fn complete(&mut self, engine_result: Result<String, String>) -> (out: JobOutcome)
        requires
            old(self)@.wf(),
            old(self)@.in_flight is Some,
        ensures
            final(self)@.wf(),
            final(self)@ == old(self)@.complete_tr(),
            out == outcome_of(engine_result),
    {
        proof {
            lemma_complete_tr_wf(old(self)@);
        }
        let ghost id: nat = match self.in_flight {
            Some(i) => i as nat,
            None => 0,
        };
        self.completed = Ghost(self.completed@.push(id));
        self.in_flight = None;
        proof {
            assert(self@ =~= old(self)@.complete_tr());
        }
        match engine_result {
            Ok(text) => JobOutcome::Transcript(text),
            Err(detail) => JobOutcome::Failed(detail),
        }
    }

    /// Shuts the queue at process shutdown: every later submission is
    /// rejected with `WorkerGone`; jobs already admitted may still drain.
    pub fn close(&mut self)
        requires
            old(self)@.wf(),
        ensures
            final(self)@.wf(),
            final(self)@ == old(self)@.close_tr(),
    {
        proof {
            lemma_close_tr_wf(old(self)@);
        }
        self.closed = true;
        proof {
            assert(self@ =~= old(self)@.close_tr());
        }
    }

    /// Number of jobs waiting in the queue.
    pub fn pending_len(&self) -> (n: usize)
        ensures
            n == self@.pending.len(),
    {
        self.queue.len()
    }

    /// The fixed queue capacity.
    pub fn capacity(&self) -> (c: usize)
        ensures
            c == self@.capacity,
    {
        self.capacity
    }

    /// Whether the queue has been shut.
    pub fn is_closed(&self) -> (b: bool)
        ensures
            b == self@.closed,
    {
        self.closed
    }
}

/// The final state and the results of a run of back-to-back submission
/// attempts, oldest first.
pub open spec fn submit_seq_tr(s: DispatchState, audios: Seq<Seq<i16>>) -> (DispatchState, Seq<
    Result<nat, WorkerError>,
>)
    decreases audios.len(),
{
    if audios.len() == 0 {
        (s, Seq::empty())
    } else {
        let first = s.submit_tr(audios[0]);
        let rest = submit_seq_tr(first.0, audios.drop_first());
        (rest.0, seq![first.1] + rest.1)
    }
}

/// Law (admission control and backpressure): of back-to-back submissions
/// into an open dispatcher, exactly those that find room are admitted — the
/// first `capacity - pending` of them, under consecutive ids — and exactly
/// the excess is rejected with `QueueFull`; nothing else about the state
/// changes, so every admitted job stays queued and can still resolve.
pub proof fn lemma_admission_excess(s: DispatchState, audios: Seq<Seq<i16>>)
    requires
        s.wf(),
        !s.closed,
        s.next_id + audios.len() <= u64::MAX,
    ensures
        ({
            let free = s.capacity - s.pending.len();
            let (s2, rs) = submit_seq_tr(s, audios);
            &&& rs.len() == audios.len()
            &&& forall|i: int|
                0 <= i < audios.len() && i < free ==> rs[i] == Ok::<nat, WorkerError>(
                    (s.next_id + i) as nat,
                )
            &&& forall|i: int|
                free <= i < audios.len() ==> rs[i] == Err::<nat, WorkerError>(
                    WorkerError::QueueFull,
                )
            &&& s2.wf()
            &&& !s2.closed
            &&& s2.capacity == s.capacity
            &&& s2.pending.len() == if audios.len() < free {
                s.pending.len() + audios.len()
            } else {
                s.capacity
            }
            &&& s2.completed == s.completed
            &&& s2.in_flight == s.in_flight
        }),
    decreases audios.len(),
{
    if audios.len() > 0 {
        let free = s.capacity - s.pending.len();
        let (s1, r1) = s.submit_tr(audios[0]);
        lemma_submit_tr_wf(s, audios[0]);
        let (s2, rrest) = submit_seq_tr(s1, audios.drop_first());
        lemma_admission_excess(s1, audios.drop_first());
        let rs = submit_seq_tr(s, audios).1;
        assert(rs =~= seq![r1] + rrest);
        let free1 = s1.capacity - s1.pending.len();
        if free > 0 {
            assert(free1 == free - 1);
            assert(rs[0] == Ok::<nat, WorkerError>(s.next_id));
            assert forall|i: int| 0 <= i < audios.len() && i < free implies rs[i] == Ok::<
                nat,
                WorkerError,
            >((s.next_id + i) as nat) by {
                if i > 0 {
                    assert(rrest[i - 1] == Ok::<nat, WorkerError>((s1.next_id + (i - 1)) as nat));
                }
            }
            assert forall|i: int| free <= i < audios.len() implies rs[i] == Err::<
                nat,
                WorkerError,
            >(WorkerError::QueueFull) by {
                assert(rrest[i - 1] == Err::<nat, WorkerError>(WorkerError::QueueFull));
            }
        } else {
            assert(s1 == s);
            assert(rs[0] == Err::<nat, WorkerError>(WorkerError::QueueFull));
            assert forall|i: int| free <= i < audios.len() implies rs[i] == Err::<
                nat,
                WorkerError,
            >(WorkerError::QueueFull) by {
                if i > 0 {
                    assert(rrest[i - 1] == Err::<nat, WorkerError>(WorkerError::QueueFull));
                }
            }
        }
    }
}

/// Law (FIFO): in every well-formed dispatcher state the jobs completed so
/// far are exactly the first admitted ones, in admission order — the i-th
/// completed job is the i-th admitted — and the pending queue holds the most
/// recently admitted ids, still in admission order.
pub proof fn lemma_fifo_completion(s: DispatchState)
    requires
        s.wf(),
    ensures
        forall|i: int| 0 <= i < s.completed.len() ==> s.completed[i] == i as nat,
        forall|i: int|
            0 <= i < s.pending.len() ==> s.pending[i].id + s.pending.len() == s.next_id + i,
{
    let t = s.trace();
    let a = s.admission_order();
    let c = s.completed.len() as int;
    let m: int = match s.in_flight {
        Some(_) => 1,
        None => 0,
    };
    assert(t.len() == a.len());
    assert forall|i: int| 0 <= i < s.completed.len() implies s.completed[i] == i as nat by {
        assert(t[i] == s.completed[i]);
        assert(a[i] == i as nat);
    }
    assert forall|i: int|
        0 <= i < s.pending.len() implies s.pending[i].id + s.pending.len() == s.next_id + i by {
        let j = c + m + i;
        assert(t[j] == s.pending.map_values(|jv: JobView| jv.id)[i]);
        assert(s.pending.map_values(|jv: JobView| jv.id)[i] == s.pending[i].id);
        assert(a[j] == j as nat);
    }
}

/// Law (fault isolation): finishing the in-flight job changes the dispatcher
/// identically whatever the engine returned — the failed outcome goes to
/// that one job's channel only, the queue and the closed flag are untouched,
/// and a submission right after a failed job is admitted exactly when one
/// after a successful job would be: whenever the open queue has room.
pub proof fn lemma_fault_isolation(s: DispatchState, audio: Seq<i16>)
    requires
        s.wf(),
        s.in_flight is Some,
        s.next_id < u64::MAX,
    ensures
        s.complete_tr().wf(),
        s.complete_tr().pending == s.pending,
        s.complete_tr().closed == s.closed,
        s.complete_tr().capacity == s.capacity,
        s.complete_tr().submit_tr(audio).1 is Ok <==> !s.closed && s.pending.len() < s.capacity,
{
    lemma_complete_tr_wf(s);
    lemma_submit_tr_wf(s.complete_tr(), audio);
}

} // verus!

//! One cleanup pass as a state machine: it names each request to send, and
//! learns from each reply what to send next. Fetch the queue; then, for each
//! failed record in turn, delete its queue entry, look up its media item and
//! delete the item's file. A failed fetch aborts the pass; a failure of a
//! record's step is reported and never stops the pass.

use vstd::prelude::*;

use crate::api::{
    delete_queue_url, file_url, is_success, media_url, queue_url, success_status, Api, ApiError,
    ApiView, Method, Request, Target,
};
use crate::record::{is_failed, views, Record, RecordView};

verus! {

/// The records of `s` whose download or import has failed, in order.
pub open spec fn failed_only(s: Seq<RecordView>) -> Seq<RecordView>
    decreases s.len(),
{
    if s.len() == 0 {
        Seq::empty()
    } else if is_failed(s.last()) {
        failed_only(s.drop_last()).push(s.last())
    } else {
        failed_only(s.drop_last())
    }
}

/// Copies of the failed records, in order.
pub fn select_failed(records: &Vec<Record>) -> (r: Vec<Record>)
    ensures
        views(r@) == failed_only(views(records@)),
{
    let mut out: Vec<Record> = Vec::new();
    let mut i: usize = 0;
    while i < records.len()
        invariant
            i <= records@.len(),
            views(out@) == failed_only(views(records@).subrange(0, i as int)),
        decreases records@.len() - i,
    {
        let ghost before = out@;
        let ghost pre = views(records@).subrange(0, i as int + 1);
        assert(pre.drop_last() =~= views(records@).subrange(0, i as int));
        assert(pre.last() == records@[i as int]@);
        if records[i].is_failed() {
            out.push(records[i].duplicate());
            assert(views(out@) =~= views(before).push(records@[i as int]@));
        }
        i += 1;
    }
    assert(views(records@).subrange(0, records@.len() as int) =~= views(records@));
    out
}

/// Where a cleanup pass stands.
#[derive(PartialEq, Eq, Structural, Clone, Copy, Debug)]
pub enum Phase {
    /// Waiting for the queue listing.
    Fetching,
    /// Waiting for the deletion of the current record's queue entry.
    DeletingEntry,
    /// Waiting for the current record's media item.
    LookingUp,
    /// Waiting for the deletion of the current record's media file.
    DeletingFile,
    /// Every failed record has been dealt with.
    Finished,
    /// The queue could not be fetched; nothing was deleted.
    Aborted,
}

/// A request of a pass, by what it is about.
pub enum Call {
    FetchQueue,
    DeleteEntry(RecordView),
    LookUp(RecordView),
    DeleteFile(RecordView, i64),
}

/// What a pass does next.
pub enum Outcome {
    Send(Call),
    Finished,
    Aborted,
}

/// The answer to a request, as the caller makes it out.
pub enum Reply {
    /// No response came back.
    Unreachable,
    /// A success response whose body did not have the expected shape.
    Undecodable,
    /// A response with this status and no body that matters.
    Status(u16),
    /// A success response to the queue fetch, normalized.
    Queue(Vec<Record>),
    /// A success response to a media lookup: the item's file identifier.
    Media(Option<i64>),
}

/// The value of a [`Reply`].
pub enum ReplyView {
    Unreachable,
    Undecodable,
    Status(u16),
    Queue(Seq<RecordView>),
    Media(Option<i64>),
}

impl View for Reply {
    type V = ReplyView;

    open spec fn view(&self) -> ReplyView {
        match self {
            Reply::Unreachable => ReplyView::Unreachable,
            Reply::Undecodable => ReplyView::Undecodable,
            Reply::Status(c) => ReplyView::Status(*c),
            Reply::Queue(v) => ReplyView::Queue(views(v@)),
            Reply::Media(f) => ReplyView::Media(*f),
        }
    }
}

/// What to do after a reply.
pub enum Next {
    /// Send this request and hand its reply to [`Cleanup::step`].
    Send(Request),
    /// The pass is complete.
    Finished,
    /// The pass was aborted.
    Aborted,
}

/// The result of one step: a failure to report, if any, and what comes next.
pub struct Step {
    pub failure: Option<ApiError>,
    pub next: Next,
}

/// A cleanup pass.
pub struct Cleanup {
    api: Api,
    records: Vec<Record>,
    index: usize,
    file_id: i64,
    phase: Phase,
}

/// The value of a [`Cleanup`]: the failed records, the current one among
/// them, and the file found for it.
pub struct CleanupView {
    pub api: ApiView,
    pub records: Seq<RecordView>,
    pub index: int,
    pub file_id: i64,
    pub phase: Phase,
}

impl View for Cleanup {
    type V = CleanupView;

    closed spec fn view(&self) -> CleanupView {
        CleanupView {
            api: self.api@,
            records: views(self.records@),
            index: self.index as int,
            file_id: self.file_id,
            phase: self.phase,
        }
    }
}

/// Whether a phase is about one record.
pub open spec fn in_record(p: Phase) -> bool {
    p == Phase::DeletingEntry || p == Phase::LookingUp || p == Phase::DeletingFile
}

impl CleanupView {
    pub open spec fn wf(self) -> bool {
        &&& 0 <= self.index
        &&& in_record(self.phase) ==> self.index < self.records.len()
        &&& forall|i: int| 0 <= i < self.records.len() ==> is_failed(#[trigger] self.records[i])
    }

    /// The record being dealt with.
    pub open spec fn current(self) -> RecordView {
        self.records[self.index]
    }

    /// The request whose reply this state waits for.
    pub open spec fn pending(self) -> Option<Call> {
        match self.phase {
            Phase::Fetching => Some(Call::FetchQueue),
            Phase::DeletingEntry => Some(Call::DeleteEntry(self.current())),
            Phase::LookingUp => Some(Call::LookUp(self.current())),
            Phase::DeletingFile => Some(Call::DeleteFile(self.current(), self.file_id)),
            _ => None,
        }
    }

    /// What a pass in this state does.
    pub open spec fn outcome(self) -> Outcome {
        match self.pending() {
            Some(c) => Outcome::Send(c),
            None => if self.phase == Phase::Aborted {
                Outcome::Aborted
            } else {
                Outcome::Finished
            },
        }
    }

    /// The state after the current record is done with: the next failed
    /// record's queue entry, or the end of the pass.
    pub open spec fn moved_on(self) -> CleanupView {
        if self.index + 1 < self.records.len() {
            CleanupView { index: self.index + 1, phase: Phase::DeletingEntry, ..self }
        } else {
            CleanupView { phase: Phase::Finished, ..self }
        }
    }

    /// The same state in another phase.
    pub open spec fn in_phase(self, p: Phase) -> CleanupView {
        CleanupView { phase: p, ..self }
    }
}

/// The status of a reply, where it is a bare status.
pub open spec fn status_of(r: ReplyView) -> Option<u16> {
    match r {
        ReplyView::Status(c) => Some(c),
        _ => None,
    }
}

/// Whether a reply reports success.
pub open spec fn succeeded(r: ReplyView) -> bool {
    match r {
        ReplyView::Status(c) => success_status(c),
        _ => false,
    }
}

/// The state after a reply, and the failure to report.
pub open spec fn transition(s: CleanupView, reply: ReplyView) -> (CleanupView, Option<ApiError>) {
    let rec = s.current();
    match s.phase {
        Phase::Fetching => match reply {
            ReplyView::Queue(recs) => {
                let kept = failed_only(recs);
                let phase = if kept.len() > 0 {
                    Phase::DeletingEntry
                } else {
                    Phase::Finished
                };
                (CleanupView { records: kept, index: 0, phase, ..s }, None)
            },
            ReplyView::Unreachable => (
                s.in_phase(Phase::Aborted),
                Some(ApiError::FetchFailed { status: None }),
            ),
            ReplyView::Status(c) => (
                s.in_phase(Phase::Aborted),
                Some(ApiError::FetchFailed { status: Some(c) }),
            ),
            _ => (s.in_phase(Phase::Aborted), Some(ApiError::DecodeFailed { record: None })),
        },
        Phase::DeletingEntry => (
            s.in_phase(Phase::LookingUp),
            if succeeded(reply) {
                None
            } else {
                Some(
                    ApiError::DeleteFailed {
                        which: Target::QueueEntry,
                        record_id: rec.id,
                        status: status_of(reply),
                    },
                )
            },
        ),
        Phase::LookingUp => match reply {
            ReplyView::Media(Some(f)) => (
                CleanupView { phase: Phase::DeletingFile, file_id: f, ..s },
                None,
            ),
            ReplyView::Media(None) => (
                s.moved_on(),
                Some(ApiError::NoFileForRecord { record_id: rec.id, media_id: rec.media_id }),
            ),
            ReplyView::Unreachable => (
                s.moved_on(),
                Some(
                    ApiError::LookupFailed {
                        record_id: rec.id,
                        media_id: rec.media_id,
                        status: None,
                    },
                ),
            ),
            ReplyView::Status(c) => (
                s.moved_on(),
                Some(
                    ApiError::LookupFailed {
                        record_id: rec.id,
                        media_id: rec.media_id,
                        status: Some(c),
                    },
                ),
            ),
            _ => (s.moved_on(), Some(ApiError::DecodeFailed { record: Some(rec.id) })),
        },
        Phase::DeletingFile => (
            s.moved_on(),
            if succeeded(reply) {
                None
            } else {
                Some(
                    ApiError::DeleteFailed {
                        which: Target::MediaFile,
                        record_id: rec.id,
                        status: status_of(reply),
                    },
                )
            },
        ),
        _ => (s, None),
    }
}

/// The method and URL of a request.
pub open spec fn request_of(a: ApiView, c: Call) -> (Method, Seq<char>) {
    match c {
        Call::FetchQueue => (Method::Get, queue_url(a)),
        Call::DeleteEntry(r) => (Method::Delete, delete_queue_url(a, r.id)),
        Call::LookUp(r) => (Method::Get, media_url(a, r.media_id)),
        Call::DeleteFile(_, f) => (Method::Delete, file_url(a, f)),
    }
}

/// Whether `n` carries out `o`.
pub open spec fn carries_out(n: Next, o: Outcome, a: ApiView) -> bool {
    match o {
        Outcome::Send(c) => match n {
            Next::Send(req) => (req.method, req.url@) == request_of(a, c),
            _ => false,
        },
        Outcome::Finished => n is Finished,
        Outcome::Aborted => n is Aborted,
    }
}

impl Cleanup {
    #[verifier::type_invariant]
    spec fn inv(&self) -> bool {
        self@.wf()
    }

    /// A pass that has yet to fetch the queue.
    pub fn new(api: Api) -> (r: Cleanup)
        ensures
            r@.wf(),
            r@.api == api@,
            r@.phase == Phase::Fetching,
            r@.records.len() == 0,
    {
        Cleanup { api, records: Vec::new(), index: 0, file_id: 0, phase: Phase::Fetching }
    }

    /// Where the pass stands.
    pub fn phase(&self) -> (r: Phase)
        ensures
            r == self@.phase,
    {
        self.phase
    }

    /// How many failed records the pass holds.
    pub fn failed_count(&self) -> (r: usize)
        ensures
            r == self@.records.len(),
    {
        self.records.len()
    }

    /// The record being dealt with, if any.
    pub fn current(&self) -> (r: Option<&Record>)
        ensures
            in_record(self@.phase) ==> r is Some && r->Some_0@ == self@.current(),
            !in_record(self@.phase) ==> r is None,
    {
        proof {
            use_type_invariant(self);
        }
        if self.phase == Phase::DeletingEntry || self.phase == Phase::LookingUp || self.phase
            == Phase::DeletingFile {
            Some(&self.records[self.index])
        } else {
            None
        }
    }

    /// What to do now: the request to send, or the end of the pass.
    pub fn next(&self) -> (r: Next)
        ensures
            carries_out(r, self@.outcome(), self@.api),
    {
        proof {
            use_type_invariant(self);
        }
        match self.phase {
            Phase::Fetching => Next::Send(self.api.queue_request()),
            Phase::DeletingEntry => Next::Send(
                self.api.delete_queue_request(self.records[self.index].get_id()),
            ),
            Phase::LookingUp => Next::Send(
                self.api.media_request(self.records[self.index].get_media_id()),
            ),
            Phase::DeletingFile => Next::Send(self.api.delete_file_request(self.file_id)),
            Phase::Finished => Next::Finished,
            Phase::Aborted => Next::Aborted,
        }
    }

    /// Gives up the pass.
    fn abort(&mut self)
        requires
            old(self)@.wf(),
        ensures
            final(self)@ == old(self)@.in_phase(Phase::Aborted),
            final(self)@.wf(),
    {
        assert(self@.wf());
        self.phase = Phase::Aborted;
        assert(self@.records == old(self)@.records);
    }

    /// Moves past the current record.
    fn move_on(&mut self)
        requires
            old(self)@.wf(),
            in_record(old(self)@.phase),
        ensures
            final(self)@ == old(self)@.moved_on(),
            final(self)@.wf(),
    {
        let n = self.records.len();
        if self.index + 1 < n {
            self.index = self.index + 1;
            self.phase = Phase::DeletingEntry;
        } else {
            self.phase = Phase::Finished;
        }
    }

    /// Takes the reply to the pending request; says what failed, if anything,
    /// and what to do next.
    pub fn step(&mut self, reply: Reply) -> (r: Step)
        ensures
            final(self)@ == transition(old(self)@, reply@).0,
            final(self)@.wf(),
            r.failure == transition(old(self)@, reply@).1,
            carries_out(r.next, final(self)@.outcome(), final(self)@.api),
    {
        proof {
            use_type_invariant(&*self);
        }
        let failure = match self.phase {
            Phase::Fetching => match reply {
                Reply::Queue(recs) => {
                    let kept = select_failed(&recs);
                    proof {
                        lemma_failed_only_all_failed(views(recs@));
                    }
                    let n = kept.len();
                    self.records = kept;
                    self.index = 0;
                    self.phase = if n > 0 {
                        Phase::DeletingEntry
                    } else {
                        Phase::Finished
                    };
                    None
                },
                Reply::Unreachable => {
                    self.abort();
                    Some(ApiError::FetchFailed { status: None })
                },
                Reply::Status(c) => {
                    self.abort();
                    Some(ApiError::FetchFailed { status: Some(c) })
                },
                _ => {
                    self.abort();
                    Some(ApiError::DecodeFailed { record: None })
                },
            },
            Phase::DeletingEntry => {
                let id = self.records[self.index].get_id();
                self.phase = Phase::LookingUp;
                match reply {
                    Reply::Status(c) => if is_success(c) {
                        None
                    } else {
                        Some(
                            ApiError::DeleteFailed {
                                which: Target::QueueEntry,
                                record_id: id,
                                status: Some(c),
                            },
                        )
                    },
                    _ => Some(
                        ApiError::DeleteFailed {
                            which: Target::QueueEntry,
                            record_id: id,
                            status: None,
                        },
                    ),
                }
            },
            Phase::LookingUp => {
                let id = self.records[self.index].get_id();
                let media_id = self.records[self.index].get_media_id();
                match reply {
                    Reply::Media(Some(f)) => {
                        self.file_id = f;
                        self.phase = Phase::DeletingFile;
                        None
                    },
                    Reply::Media(None) => {
                        self.move_on();
                        Some(ApiError::NoFileForRecord { record_id: id, media_id })
                    },
                    Reply::Unreachable => {
                        self.move_on();
                        Some(ApiError::LookupFailed { record_id: id, media_id, status: None })
                    },
                    Reply::Status(c) => {
                        self.move_on();
                        Some(ApiError::LookupFailed { record_id: id, media_id, status: Some(c) })
                    },
                    _ => {
                        self.move_on();
                        Some(ApiError::DecodeFailed { record: Some(id) })
                    },
                }
            },
            Phase::DeletingFile => {
                let id = self.records[self.index].get_id();
                self.move_on();
                match reply {
                    Reply::Status(c) => if is_success(c) {
                        None
                    } else {
                        Some(
                            ApiError::DeleteFailed {
                                which: Target::MediaFile,
                                record_id: id,
                                status: Some(c),
                            },
                        )
                    },
                    _ => Some(
                        ApiError::DeleteFailed {
                            which: Target::MediaFile,
                            record_id: id,
                            status: None,
                        },
                    ),
                }
            },
            _ => None,
        };
        assert(self@.wf());
        Step { failure, next: self.next() }
    }
}

/// Every record that `failed_only` keeps has failed.
pub proof fn lemma_failed_only_all_failed(s: Seq<RecordView>)
    ensures
        forall|i: int|
            0 <= i < failed_only(s).len() ==> is_failed(#[trigger] failed_only(s)[i]),
    decreases s.len(),
{
    if s.len() > 0 {
        lemma_failed_only_all_failed(s.drop_last());
        let prev = failed_only(s.drop_last());
        assert forall|i: int| 0 <= i < failed_only(s).len() implies is_failed(
            #[trigger] failed_only(s)[i],
        ) by {
            if i < prev.len() {
                assert(failed_only(s)[i] == prev[i]);
            }
        }
    }
}

/// Every reply keeps a pass well formed: its records are all failed ones,
/// and the current record is one of them.
pub proof fn every_reply_keeps_pass_well_formed(s: CleanupView, reply: ReplyView)
    requires
        s.wf(),
    ensures
        transition(s, reply).0.wf(),
{
    if s.phase == Phase::Fetching {
        if let ReplyView::Queue(recs) = reply {
            lemma_failed_only_all_failed(recs);
        }
    }
}

/// A fresh pass is well formed and first fetches the queue.
pub proof fn fresh_pass_fetches_first(a: ApiView)
    ensures
        ({
            let s = CleanupView {
                api: a,
                records: Seq::empty(),
                index: 0,
                file_id: 0,
                phase: Phase::Fetching,
            };
            s.wf() && s.pending() == Some(Call::FetchQueue)
        }),
{
}

/// A record that has not failed is never the subject of a deletion: the
/// records a well-formed pass holds have all failed, so no request it sends
/// deletes the queue entry or the media file of a healthy record.
pub proof fn healthy_record_is_never_deleted(s: CleanupView, rec: RecordView, file_id: i64)
    requires
        s.wf(),
        !is_failed(rec),
    ensures
        s.pending() != Some(Call::DeleteEntry(rec)),
        s.pending() != Some(Call::DeleteFile(rec, file_id)),
        !s.records.contains(rec),
{
}

/// The records a pass keeps from the queue are exactly its failed ones, in
/// order: a healthy record of the queue is dropped.
pub proof fn healthy_record_is_dropped(recs: Seq<RecordView>, rec: RecordView)
    requires
        recs.contains(rec),
        !is_failed(rec),
    ensures
        !failed_only(recs).contains(rec),
{
    lemma_failed_only_all_failed(recs);
}

/// A failed record gets one queue-entry deletion, then one media lookup, then
/// one file deletion when the lookup names a file; and then the pass moves
/// on to the next failed record, whatever each of these requests returned.
pub proof fn failed_record_gets_each_deletion_once(
    s: CleanupView,
    entry_reply: ReplyView,
    lookup_reply: ReplyView,
    file_reply: ReplyView,
)
    requires
        s.wf(),
        s.phase == Phase::DeletingEntry,
    ensures
        s.pending() == Some(Call::DeleteEntry(s.current())),
        ({
            let s1 = transition(s, entry_reply).0;
            let s2 = transition(s1, lookup_reply).0;
            &&& s1.pending() == Some(Call::LookUp(s.current()))
            &&& match lookup_reply {
                ReplyView::Media(Some(f)) => {
                    &&& s2.pending() == Some(Call::DeleteFile(s.current(), f))
                    &&& transition(s2, file_reply).0 == s2.moved_on()
                },
                _ => s2 == s.moved_on(),
            }
        }),
{
}

/// After the current record, the pass goes to the next failed record's queue
/// entry if there is one, and is finished otherwise.
pub proof fn moving_on_reaches_next_record(s: CleanupView)
    requires
        s.wf(),
        in_record(s.phase),
    ensures
        s.index + 1 < s.records.len() ==> s.moved_on().pending() == Some(
            Call::DeleteEntry(s.records[s.index + 1]),
        ),
        s.index + 1 >= s.records.len() ==> s.moved_on().outcome() == Outcome::Finished,
{
}

/// A failed file deletion does not stop the pass: whatever the reply, the
/// next failed record is dealt with next.
pub proof fn file_failure_does_not_stop_pass(s: CleanupView, reply: ReplyView)
    requires
        s.wf(),
        s.phase == Phase::DeletingFile,
        s.index + 1 < s.records.len(),
    ensures
        transition(s, reply).0.pending() == Some(Call::DeleteEntry(s.records[s.index + 1])),
{
}

/// A queue fetch that brings no queue listing aborts the pass with a
/// failure, and an aborted pass sends nothing more, whatever it is told.
pub proof fn failed_fetch_aborts(s: CleanupView, reply: ReplyView, later: ReplyView)
    requires
        s.phase == Phase::Fetching,
        !(reply is Queue),
    ensures
        transition(s, reply).0.phase == Phase::Aborted,
        transition(s, reply).0.outcome() == Outcome::Aborted,
        transition(s, reply).1 is Some,
        transition(transition(s, reply).0, later) == (transition(s, reply).0, None::<ApiError>),
{
}

/// A media item without a file is a distinct, reported skip: no file
/// deletion is sent, and the pass moves on.
pub proof fn missing_file_is_skipped(s: CleanupView)
    requires
        s.wf(),
        s.phase == Phase::LookingUp,
    ensures
        transition(s, ReplyView::Media(None)) == (
            s.moved_on(),
            Some(
                ApiError::NoFileForRecord { record_id: s.current().id, media_id: s.current().media_id },
            ),
        ),
{
}

} // verus!

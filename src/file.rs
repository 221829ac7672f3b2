use vstd::prelude::*;

verus! {

/// The largest number of bytes held locally for one remote write.
pub const CHUNK_SIZE: usize = 4096;

/// Where a seek offset is counted from.
#[derive(Clone, Copy, Debug, PartialEq, Eq)]
pub enum SeekWhence {
    Beginning,
    End,
}

/// A byte count clamped to what a `u64` holds.
pub open spec fn saturate(n: nat) -> u64 {
    if n > u64::MAX { u64::MAX } else { n as u64 }
}

/// A transfer that the remote end answered in a way the protocol forbids.
#[derive(Clone, Copy, Debug, PartialEq, Eq)]
pub enum TransferError {
    /// A write reported that zero or fewer bytes were accepted.
    NonPositiveWrite(i64),
    /// A write reported more bytes accepted than were sent.
    WriteOverrun(i64),
    /// A read reported a negative byte count.
    NegativeRead(i64),
}

/// What a writer asks for after taking bytes from its source.
#[derive(Clone, Copy, Debug, PartialEq, Eq)]
pub enum WriteStep {
    /// Write `pending()` to the remote file, then report the count accepted.
    Send,
    /// The source is exhausted and every byte was accepted.
    Done(u64),
}

/// The cursor of a chunked upload: bytes taken from the source that the
/// remote end has not accepted yet, and the count of those it has.
pub struct FileWriter {
    pending: Vec<u8>,
    total: u64,
    awaiting_write: bool,
    finished: bool,
    consumed: Ghost<Seq<u8>>,
    accepted: Ghost<Seq<u8>>,
}

impl FileWriter {
    /// Every byte taken from the source so far.
    pub closed spec fn consumed(&self) -> Seq<u8> {
        self.consumed@
    }

    /// Every byte the remote end has accepted so far.
    pub closed spec fn accepted(&self) -> Seq<u8> {
        self.accepted@
    }

    /// Bytes taken from the source and not yet accepted.
    pub closed spec fn pending_spec(&self) -> Seq<u8> {
        self.pending@
    }

    /// The accepted byte count, as reported.
    pub closed spec fn total_spec(&self) -> u64 {
        self.total
    }

    /// Whether a remote write is owed before the next read from the source.
    pub closed spec fn awaiting_write_spec(&self) -> bool {
        self.awaiting_write
    }

    /// Whether the upload is complete.
    pub closed spec fn finished_spec(&self) -> bool {
        self.finished
    }

    pub closed spec fn wf(&self) -> bool {
        &&& self.accepted@ + self.pending@ == self.consumed@
        &&& self.pending@.len() <= CHUNK_SIZE
        &&& self.total == saturate(self.accepted@.len())
        &&& self.finished ==> !self.awaiting_write && self.pending@.len() == 0
        &&& self.awaiting_write ==> self.pending@.len() > 0
    }

    /// A writer that has taken nothing from its source.
    pub fn new() -> (r: FileWriter)
        ensures
            r.wf(),
            r.consumed() == Seq::<u8>::empty(),
            r.pending_spec() == Seq::<u8>::empty(),
            r.total_spec() == 0,
            !r.awaiting_write_spec(),
            !r.finished_spec(),
    {
        let r = FileWriter {
            pending: Vec::new(),
            total: 0,
            awaiting_write: false,
            finished: false,
            consumed: Ghost(Seq::empty()),
            accepted: Ghost(Seq::empty()),
        };
        assert(r.accepted@ + r.pending@ =~= r.consumed@);
        r
    }

    /// How many bytes the next read from the source may take.
    pub fn read_limit(&self) -> (r: usize)
        requires
            self.wf(),
        ensures
            r == CHUNK_SIZE - self.pending_spec().len(),
    {
        CHUNK_SIZE - self.pending.len()
    }

    /// The bytes to hand to the next remote write.
    pub fn pending(&self) -> (r: &[u8])
        ensures
            r@ == self.pending_spec(),
    {
        self.pending.as_slice()
    }

    /// Takes the bytes that one read from the source returned; an empty
    /// read means the source is exhausted.
    pub fn on_read(&mut self, data: Vec<u8>) -> (r: WriteStep)
        requires
            old(self).wf(),
            !old(self).finished_spec(),
            !old(self).awaiting_write_spec(),
            data@.len() <= CHUNK_SIZE - old(self).pending_spec().len(),
        ensures
            final(self).wf(),
            final(self).consumed() == old(self).consumed() + data@,
            final(self).accepted() == old(self).accepted(),
            final(self).pending_spec() == old(self).pending_spec() + data@,
            final(self).total_spec() == old(self).total_spec(),
            final(self).total_spec() == saturate(final(self).accepted().len()),
            if data@.len() == 0 && old(self).pending_spec().len() == 0 {
                r == WriteStep::Done(old(self).total_spec()) && final(self).finished_spec()
                    && !final(self).awaiting_write_spec()
            } else {
                r == WriteStep::Send && final(self).awaiting_write_spec() && !final(self).finished_spec()
            },
    {
        let mut data = data;
        let ghost old_pending = self.pending@;
        let ghost added = data@;
        self.pending.append(&mut data);
        proof {
            self.consumed@ = self.consumed@ + added;
            assert(self.accepted@ + self.pending@ =~= self.consumed@) by {
                assert(self.pending@ == old_pending + added);
            }
        }
        if self.pending.len() == 0 {
            self.finished = true;
            WriteStep::Done(self.total)
        } else {
            self.awaiting_write = true;
            WriteStep::Send
        }
    }

    /// Takes the byte count that the remote write of `pending()` reported,
    /// and drops that many bytes from the front of the pending ones.
    pub fn on_written(&mut self, count: i64) -> (r: Result<(), TransferError>)
        requires
            old(self).wf(),
            old(self).awaiting_write_spec(),
        ensures
            final(self).wf(),
            final(self).consumed() == old(self).consumed(),
            count <= 0 ==> r == Err::<(), TransferError>(TransferError::NonPositiveWrite(count))
                && *final(self) == *old(self),
            count > old(self).pending_spec().len() ==> r == Err::<(), TransferError>(
                TransferError::WriteOverrun(count),
            ) && *final(self) == *old(self),
            0 < count <= old(self).pending_spec().len() ==> {
                &&& r is Ok
                &&& final(self).accepted() == old(self).accepted() + old(self).pending_spec().take(count as int)
                &&& final(self).pending_spec() == old(self).pending_spec().skip(count as int)
                &&& final(self).total_spec() == saturate(final(self).accepted().len())
                &&& !final(self).awaiting_write_spec()
                &&& !final(self).finished_spec()
            },
    {
        if count <= 0 {
            return Err(TransferError::NonPositiveWrite(count));
        }
        if count as u64 > self.pending.len() as u64 {
            return Err(TransferError::WriteOverrun(count));
        }
        let n = count as usize;
        let ghost old_pending = self.pending@;
        let rest = self.pending.split_off(n);
        let ghost sent = self.pending@;
        self.pending = rest;
        self.total = self.total.saturating_add(n as u64);
        self.awaiting_write = false;
        proof {
            self.accepted@ = self.accepted@ + sent;
            assert(sent == old_pending.take(n as int));
            assert(self.pending@ == old_pending.skip(n as int));
            assert(old_pending =~= sent + self.pending@);
            assert(self.accepted@ + self.pending@ =~= self.consumed@);
        }
        Ok(())
    }
}

/// What a reader asks for after one chunk was written to the sink.
#[derive(Clone, Copy, Debug, PartialEq, Eq)]
pub enum ReadStep {
    /// Issue the next read.
    More,
    /// The remote file is exhausted; `u64` bytes were reported in all.
    Done(u64),
}

/// The cursor of a chunked download.
pub struct FileReader {
    total: u64,
    finished: bool,
    received: Ghost<Seq<u8>>,
    counted: Ghost<nat>,
}

impl FileReader {
    /// Every byte handed to the sink so far.
    pub closed spec fn received(&self) -> Seq<u8> {
        self.received@
    }

    /// The sum of the byte counts that the reads reported.
    pub closed spec fn counted(&self) -> nat {
        self.counted@
    }

    /// The reported byte count.
    pub closed spec fn total_spec(&self) -> u64 {
        self.total
    }

    /// Whether the download is complete.
    pub closed spec fn finished_spec(&self) -> bool {
        self.finished
    }

    pub closed spec fn wf(&self) -> bool {
        self.total == saturate(self.counted@)
    }

    /// A reader that has received nothing.
    pub fn new() -> (r: FileReader)
        ensures
            r.wf(),
            r.received() == Seq::<u8>::empty(),
            r.counted() == 0,
            !r.finished_spec(),
    {
        FileReader { total: 0, finished: false, received: Ghost(Seq::empty()), counted: Ghost(0) }
    }

    /// Takes one read's reply, whose bytes were just written to the sink in
    /// full: the reported `count` and whether the remote end is at its end.
    pub fn on_chunk(&mut self, data: &Vec<u8>, count: i64, eof: bool) -> (r: Result<ReadStep, TransferError>)
        requires
            old(self).wf(),
            !old(self).finished_spec(),
        ensures
            final(self).wf(),
            count < 0 ==> r == Err::<ReadStep, TransferError>(TransferError::NegativeRead(count))
                && *final(self) == *old(self),
            count >= 0 ==> {
                &&& final(self).received() == old(self).received() + data@
                &&& final(self).counted() == old(self).counted() + count
                &&& final(self).total_spec() == saturate(final(self).counted())
                &&& if eof || count == 0 {
                    r == Ok::<ReadStep, TransferError>(ReadStep::Done(final(self).total_spec()))
                        && final(self).finished_spec()
                } else {
                    r == Ok::<ReadStep, TransferError>(ReadStep::More) && !final(self).finished_spec()
                }
            },
    {
        if count < 0 {
            return Err(TransferError::NegativeRead(count));
        }
        self.total = self.total.saturating_add(count as u64);
        proof {
            self.received@ = self.received@ + data@;
            self.counted@ = self.counted@ + count as nat;
        }
        if eof || count == 0 {
            self.finished = true;
            Ok(ReadStep::Done(self.total))
        } else {
            Ok(ReadStep::More)
        }
    }
}

/// A finished upload has handed every byte of its source to the remote end,
/// and reports their number.
pub proof fn lemma_upload_complete(w: FileWriter)
    requires
        w.wf(),
        w.finished_spec(),
    ensures
        w.accepted() == w.consumed(),
        w.total_spec() == saturate(w.consumed().len()),
{
    assert(w.accepted() + w.pending_spec() == w.consumed());
    assert(w.accepted() + w.pending_spec() =~= w.accepted());
}

/// Uploading bytes and downloading them back from a remote end that returns
/// exactly what it accepted, with truthful counts, yields the uploaded bytes
/// and the same reported count.
pub proof fn lemma_round_trip(w: FileWriter, r: FileReader)
    requires
        w.wf(),
        w.finished_spec(),
        r.wf(),
        r.finished_spec(),
        r.received() == w.accepted(),
        r.counted() == r.received().len(),
    ensures
        r.received() == w.consumed(),
        r.total_spec() == w.total_spec(),
        r.total_spec() == saturate(w.consumed().len()),
{
    lemma_upload_complete(w);
}

/// The stage a scoped file operation has reached.
#[derive(Clone, Copy, Debug, PartialEq, Eq)]
pub enum SessionPhase {
    Opening,
    Seeking,
    Running,
    Closing,
    Finished,
}

/// What a scoped file operation must do next.
pub enum SessionAction<E> {
    /// Seek the open file.
    Seek { handle: i64, whence: SeekWhence, offset: i64 },
    /// Run the body operation on the open file.
    Run { handle: i64 },
    /// Close the file; its result is only logged.
    Close { handle: i64 },
    /// The operation is over with this outcome.
    Finish(Result<i32, E>),
    /// Nothing: the operation is already over.
    Idle,
}

/// A file operation scoped by open and close: open, optionally seek, run a
/// body, and close on every path once the file was opened.
pub struct FileSession<E> {
    phase: SessionPhase,
    handle: i64,
    offset: Option<i64>,
    whence: SeekWhence,
    outcome: Option<Result<i32, E>>,
    opened: Ghost<bool>,
    closes: Ghost<nat>,
}

impl<E> FileSession<E> {
    pub closed spec fn phase_spec(&self) -> SessionPhase {
        self.phase
    }

    /// The handle of the open file, once it was opened.
    pub closed spec fn handle_spec(&self) -> i64 {
        self.handle
    }

    /// The offset to seek to once the file is open.
    pub closed spec fn offset_spec(&self) -> Option<i64> {
        self.offset
    }

    /// Where the seek offset is counted from.
    pub closed spec fn whence_spec(&self) -> SeekWhence {
        self.whence
    }

    /// The outcome decided before the close, while the file is closing.
    pub closed spec fn outcome_spec(&self) -> Option<Result<i32, E>> {
        self.outcome
    }

    /// Whether the file was opened.
    pub closed spec fn opened(&self) -> bool {
        self.opened@
    }

    /// How many close commands were asked for.
    pub closed spec fn closes(&self) -> nat {
        self.closes@
    }

    pub closed spec fn wf(&self) -> bool {
        &&& self.closes@ <= 1
        &&& (self.phase == SessionPhase::Opening ==> !self.opened@ && self.closes@ == 0)
        &&& (self.phase == SessionPhase::Seeking ==> self.opened@ && self.closes@ == 0
            && self.offset is Some)
        &&& (self.phase == SessionPhase::Running ==> self.opened@ && self.closes@ == 0)
        &&& (self.phase == SessionPhase::Closing ==> self.opened@ && self.closes@ == 1
            && self.outcome is Some)
        &&& (self.phase == SessionPhase::Finished ==> (self.opened@ <==> self.closes@ == 1))
    }

    /// A session about to open its file, to seek to `offset` from `whence`
    /// when an offset is given.
    pub fn new(offset: Option<i64>, whence: SeekWhence) -> (r: FileSession<E>)
        ensures
            r.wf(),
            r.phase_spec() == SessionPhase::Opening,
            !r.opened(),
            r.closes() == 0,
            r.offset_spec() == offset,
            r.whence_spec() == whence,
    {
        FileSession {
            phase: SessionPhase::Opening,
            handle: 0,
            offset,
            whence,
            outcome: None,
            opened: Ghost(false),
            closes: Ghost(0),
        }
    }

    /// Takes the reply to the open command.
    pub fn on_opened(&mut self, reply: Result<i64, E>) -> (r: SessionAction<E>)
        requires
            old(self).wf(),
            old(self).phase_spec() == SessionPhase::Opening,
        ensures
            final(self).wf(),
            final(self).closes() == 0,
            match reply {
                Ok(h) => {
                    &&& final(self).opened()
                    &&& final(self).handle_spec() == h
                    &&& match old(self).offset_spec() {
                        Some(off) => final(self).phase_spec() == SessionPhase::Seeking
                            && r == (SessionAction::<E>::Seek { handle: h, whence: old(self).whence_spec(), offset: off }),
                        None => final(self).phase_spec() == SessionPhase::Running
                            && r == (SessionAction::<E>::Run { handle: h }),
                    }
                },
                Err(e) => {
                    &&& !final(self).opened()
                    &&& final(self).phase_spec() == SessionPhase::Finished
                    &&& r == SessionAction::<E>::Finish(Err(e))
                },
            },
    {
        match reply {
            Ok(h) => {
                self.handle = h;
                proof {
                    self.opened@ = true;
                }
                match self.offset {
                    Some(off) => {
                        self.phase = SessionPhase::Seeking;
                        SessionAction::Seek { handle: h, whence: self.whence, offset: off }
                    },
                    None => {
                        self.phase = SessionPhase::Running;
                        SessionAction::Run { handle: h }
                    },
                }
            },
            Err(e) => {
                self.phase = SessionPhase::Finished;
                SessionAction::Finish(Err(e))
            },
        }
    }

    /// Takes the reply to the seek command.
    pub fn on_seeked(&mut self, reply: Result<(), E>) -> (r: SessionAction<E>)
        requires
            old(self).wf(),
            old(self).phase_spec() == SessionPhase::Seeking,
        ensures
            final(self).wf(),
            final(self).opened(),
            final(self).handle_spec() == old(self).handle_spec(),
            match reply {
                Ok(_) => final(self).phase_spec() == SessionPhase::Running
                    && final(self).closes() == 0
                    && r == (SessionAction::<E>::Run { handle: old(self).handle_spec() }),
                Err(e) => final(self).phase_spec() == SessionPhase::Closing
                    && final(self).closes() == 1
                    && final(self).outcome_spec() == Some(Err::<i32, E>(e))
                    && r == (SessionAction::<E>::Close { handle: old(self).handle_spec() }),
            },
    {
        match reply {
            Ok(_) => {
                self.phase = SessionPhase::Running;
                SessionAction::Run { handle: self.handle }
            },
            Err(e) => {
                self.outcome = Some(Err(e));
                self.phase = SessionPhase::Closing;
                proof {
                    self.closes@ = 1;
                }
                SessionAction::Close { handle: self.handle }
            },
        }
    }

    /// Takes the outcome of the body operation.
    pub fn on_body(&mut self, outcome: Result<i32, E>) -> (r: SessionAction<E>)
        requires
            old(self).wf(),
            old(self).phase_spec() == SessionPhase::Running,
        ensures
            final(self).wf(),
            final(self).opened(),
            final(self).handle_spec() == old(self).handle_spec(),
            final(self).phase_spec() == SessionPhase::Closing,
            final(self).closes() == 1,
            final(self).outcome_spec() == Some(outcome),
            r == (SessionAction::<E>::Close { handle: old(self).handle_spec() }),
    {
        self.outcome = Some(outcome);
        self.phase = SessionPhase::Closing;
        proof {
            self.closes@ = 1;
        }
        SessionAction::Close { handle: self.handle }
    }

    /// Takes the reply to the close command, whatever it was, and hands back
    /// the outcome decided before the close.
    pub fn on_closed(&mut self) -> (r: SessionAction<E>)
        requires
            old(self).wf(),
            old(self).phase_spec() == SessionPhase::Closing,
        ensures
            final(self).wf(),
            closed_post(*old(self), *final(self), r),
    {
        self.phase = SessionPhase::Finished;
        match self.outcome.take() {
            Some(o) => SessionAction::Finish(o),
            None => SessionAction::Idle,
        }
    }

    /// The overall deadline passed: close the file if it is open and no
    /// close was asked for yet, and fail with `timeout` in any case.
    pub fn on_timeout(&mut self, timeout: E) -> (r: SessionAction<E>)
        requires
            old(self).wf(),
        ensures
            final(self).wf(),
            final(self).opened() == old(self).opened(),
            final(self).handle_spec() == old(self).handle_spec(),
            match old(self).phase_spec() {
                SessionPhase::Seeking | SessionPhase::Running => {
                    &&& final(self).phase_spec() == SessionPhase::Closing
                    &&& final(self).closes() == 1
                    &&& final(self).outcome_spec() == Some(Err::<i32, E>(timeout))
                    &&& r == (SessionAction::<E>::Close { handle: old(self).handle_spec() })
                },
                SessionPhase::Finished => *final(self) == *old(self) && r == SessionAction::<E>::Idle,
                _ => {
                    &&& final(self).phase_spec() == SessionPhase::Finished
                    &&& final(self).closes() == old(self).closes()
                    &&& r == SessionAction::<E>::Finish(Err(timeout))
                },
            },
    {
        match self.phase {
            SessionPhase::Seeking | SessionPhase::Running => {
                self.outcome = Some(Err(timeout));
                self.phase = SessionPhase::Closing;
                proof {
                    self.closes@ = 1;
                }
                SessionAction::Close { handle: self.handle }
            },
            SessionPhase::Finished => SessionAction::Idle,
            _ => {
                self.phase = SessionPhase::Finished;
                self.outcome = None;
                SessionAction::Finish(Err(timeout))
            },
        }
    }
}

/// How the reply to the close moves session `s` to `n`, and what it returns.
pub open spec fn closed_post<E>(s: FileSession<E>, n: FileSession<E>, r: SessionAction<E>) -> bool {
    &&& n.phase_spec() == SessionPhase::Finished
    &&& n.opened()
    &&& n.closes() == 1
    &&& n.handle_spec() == s.handle_spec()
    &&& r == SessionAction::<E>::Finish(s.outcome_spec()->0)
}

/// The outcome decided before the close (the body's result, the seek error
/// or the timeout) is what the operation returns once the close replied,
/// whatever the close's own result, and the file was closed exactly once.
pub proof fn lemma_outcome_survives_close<E>(
    s: FileSession<E>,
    outcome: Result<i32, E>,
    n: FileSession<E>,
    r: SessionAction<E>,
)
    requires
        s.wf(),
        s.phase_spec() == SessionPhase::Closing,
        s.outcome_spec() == Some(outcome),
        closed_post(s, n, r),
    ensures
        r == SessionAction::<E>::Finish(outcome),
        n.phase_spec() == SessionPhase::Finished,
        n.closes() == 1,
        s.closes() == 1,
{
}

/// Whenever a scoped file operation is over, the file was closed exactly once
/// if it was opened, and never otherwise.
pub proof fn lemma_release_once<E>(s: FileSession<E>)
    requires
        s.wf(),
        s.phase_spec() == SessionPhase::Finished,
    ensures
        s.opened() ==> s.closes() == 1,
        !s.opened() ==> s.closes() == 0,
{
}

} // verus!

use vstd::prelude::*;

verus! {

/// Length of the window over which the transfer speed is measured, in milliseconds.
pub const SPEED_WINDOW_MS: u64 = 500;

/// Why a transfer failed.
#[derive(Clone, Copy, Debug, PartialEq, Eq, Structural)]
pub enum TransferError {
    /// The server answered with a status outside 200..=299.
    Status(u16),
    /// The connection failed before or during the body.
    Network,
    /// The destination file could not be created or written.
    Io,
}

/// Where a transfer stands.
#[derive(Clone, Copy, Debug, PartialEq, Eq, Structural)]
pub enum TransferPhase {
    /// The request is out; no answer yet.
    Requesting,
    /// The answer is good; the destination file is being created.
    Creating,
    /// The body is being written to the destination file.
    Streaming,
    /// The whole body is in the destination file.
    Completed,
    /// Stopped on request; nothing is left at the destination.
    Cancelled,
    /// Stopped on an error; nothing is left at the destination.
    Failed(TransferError),
}

/// What the transfer learns from the outside world.
#[derive(Clone, Copy, Debug, PartialEq, Eq, Structural)]
pub enum TransferEvent {
    /// The request could not be sent or answered.
    RequestFailed,
    /// The response head arrived at `now_ms`.
    Response { status: u16, content_length: Option<u64>, now_ms: u64 },
    /// The destination file was created.
    FileCreated,
    /// The destination file could not be created; nothing was made at the destination.
    CreateFailed,
    /// A chunk of `len` bytes of the body arrived at `now_ms`.
    Chunk { len: usize, now_ms: u64 },
    /// Reading the body failed.
    ChunkFailed,
    /// Writing the last chunk failed.
    WriteFailed,
    /// The cancel signal was seen before the next chunk was handled. While the file is
    /// being created, it is to be sent only once the creation has failed or been reported.
    Cancelled,
    /// The body is exhausted.
    StreamEnd,
}

/// What the caller is to do, in order.
#[derive(Clone, Copy, Debug, PartialEq, Eq, Structural)]
pub enum TransferAction {
    /// Create the destination file, failing if a file of that name exists; report how it went.
    CreateFile,
    /// Report that a file of `size` bytes starts (`u64::MAX` when the size is unknown).
    Announce { size: u64 },
    /// Append the chunk just received to the destination file.
    Write { len: usize },
    /// Report `bytes` more bytes done.
    Progress { bytes: usize },
    /// Report a measured speed.
    Speed { bytes_per_second: u64 },
    /// Flush and close the destination file, which is complete.
    Finish,
    /// Close and remove the partial destination file.
    Discard,
}

/// The state of one file's transfer.
#[derive(Clone, Copy, Debug, PartialEq, Eq, Structural)]
pub struct TransferSession {
    pub phase: TransferPhase,
    /// Size announced by the server, `u64::MAX` when unknown.
    pub expected_size: u64,
    /// Bytes handed to `Write` so far.
    pub bytes_written: u64,
    /// When the current speed window began.
    pub window_start_ms: u64,
    /// Bytes received in the current speed window.
    pub window_bytes: u64,
    /// The last speed reported, 0 before any.
    pub last_rate: u64,
    /// Whether this transfer has a file at the destination.
    pub file_exists: bool,
}

/// Whether an HTTP status counts as success.
pub open spec fn is_success_status(status: u16) -> bool {
    200 <= status <= 299
}

/// `a + b`, held at `u64::MAX`.
pub open spec fn sat_add(a: u64, b: int) -> u64 {
    if a + b > u64::MAX {
        u64::MAX
    } else {
        (a + b) as u64
    }
}

/// Bytes per second for `bytes` over `elapsed_ms` milliseconds, held at `u64::MAX`.
pub open spec fn rate_of(bytes: u64, elapsed_ms: u64) -> u64
    recommends
        elapsed_ms > 0,
{
    let r = (bytes as int * 1000) / (elapsed_ms as int);
    if r > u64::MAX {
        u64::MAX
    } else {
        r as u64
    }
}

/// Whether the destination holds this transfer's file after `actions`, starting from
/// `exists`. Creating the file takes effect only once the caller reports it created.
pub open spec fn file_after(exists: bool, actions: Seq<TransferAction>) -> bool
    decreases actions.len(),
{
    if actions.len() == 0 {
        exists
    } else {
        let before = file_after(exists, actions.drop_last());
        match actions.last() {
            TransferAction::Discard => false,
            _ => before,
        }
    }
}

impl TransferSession {
    /// A consistent state: a file exists exactly while streaming and once completed.
    pub open spec fn wf(&self) -> bool {
        self.file_exists == (self.phase == TransferPhase::Streaming || self.phase
            == TransferPhase::Completed)
    }

    /// Whether the transfer has ended.
    pub open spec fn is_finished(&self) -> bool {
        !(self.phase == TransferPhase::Requesting || self.phase == TransferPhase::Creating
            || self.phase == TransferPhase::Streaming)
    }

    /// The state after `e` and the actions it calls for.
    pub open spec fn next(self, e: TransferEvent) -> (TransferSession, Seq<TransferAction>) {
        match self.phase {
            TransferPhase::Requesting => match e {
                TransferEvent::Response { status, content_length, now_ms } => {
                    if is_success_status(status) {
                        let size = match content_length {
                            Some(n) => n,
                            None => u64::MAX,
                        };
                        (
                            TransferSession {
                                phase: TransferPhase::Creating,
                                expected_size: size,
                                window_start_ms: now_ms,
                                ..self
                            },
                            seq![TransferAction::CreateFile, TransferAction::Announce { size }],
                        )
                    } else {
                        (
                            TransferSession {
                                phase: TransferPhase::Failed(TransferError::Status(status)),
                                ..self
                            },
                            seq![],
                        )
                    }
                },
                TransferEvent::RequestFailed => (
                    TransferSession { phase: TransferPhase::Failed(TransferError::Network), ..self },
                    seq![],
                ),
                TransferEvent::Cancelled => (
                    TransferSession { phase: TransferPhase::Cancelled, ..self },
                    seq![],
                ),
                _ => (self, seq![]),
            },
            TransferPhase::Creating => match e {
                TransferEvent::FileCreated => (
                    TransferSession { phase: TransferPhase::Streaming, file_exists: true, ..self },
                    seq![],
                ),
                TransferEvent::CreateFailed => (
                    TransferSession { phase: TransferPhase::Failed(TransferError::Io), ..self },
                    seq![],
                ),
                TransferEvent::Cancelled => (
                    TransferSession { phase: TransferPhase::Cancelled, ..self },
                    seq![],
                ),
                _ => (self, seq![]),
            },
            TransferPhase::Streaming => match e {
                TransferEvent::Chunk { len, now_ms } => self.on_chunk(len, now_ms),
                TransferEvent::StreamEnd => (
                    TransferSession { phase: TransferPhase::Completed, ..self },
                    seq![TransferAction::Finish],
                ),
                TransferEvent::Cancelled => (
                    TransferSession { phase: TransferPhase::Cancelled, file_exists: false, ..self },
                    seq![TransferAction::Discard],
                ),
                TransferEvent::WriteFailed => (
                    TransferSession {
                        phase: TransferPhase::Failed(TransferError::Io),
                        file_exists: false,
                        ..self
                    },
                    seq![TransferAction::Discard],
                ),
                TransferEvent::ChunkFailed => (
                    TransferSession {
                        phase: TransferPhase::Failed(TransferError::Network),
                        file_exists: false,
                        ..self
                    },
                    seq![TransferAction::Discard],
                ),
                _ => (self, seq![]),
            },
            _ => (self, seq![]),
        }
    }

    /// The state after a chunk of `len` bytes at `now_ms` and the actions it calls for.
    pub open spec fn on_chunk(self, len: usize, now_ms: u64) -> (
        TransferSession,
        Seq<TransferAction>,
    ) {
        let window = sat_add(self.window_bytes, len as int);
        let written = sat_add(self.bytes_written, len as int);
        let elapsed: u64 = if now_ms >= self.window_start_ms {
            (now_ms - self.window_start_ms) as u64
        } else {
            0
        };
        let io = seq![TransferAction::Write { len }, TransferAction::Progress { bytes: len }];
        if elapsed >= SPEED_WINDOW_MS {
            let r = rate_of(window, elapsed);
            let sample = if r != self.last_rate {
                seq![TransferAction::Speed { bytes_per_second: r }]
            } else {
                Seq::empty()
            };
            (
                TransferSession {
                    bytes_written: written,
                    window_start_ms: now_ms,
                    window_bytes: 0,
                    last_rate: r,
                    ..self
                },
                sample + io,
            )
        } else {
            (TransferSession { bytes_written: written, window_bytes: window, ..self }, io)
        }
    }

    /// A transfer whose request has just been sent.
    pub fn new() -> (r: TransferSession)
        ensures
            r.wf(),
            r.phase == TransferPhase::Requesting,
            r.expected_size == u64::MAX,
            r.bytes_written == 0,
            r.window_start_ms == 0,
            r.window_bytes == 0,
            r.last_rate == 0,
            !r.file_exists,
    {
        TransferSession {
            phase: TransferPhase::Requesting,
            expected_size: u64::MAX,
            bytes_written: 0,
            window_start_ms: 0,
            window_bytes: 0,
            last_rate: 0,
            file_exists: false,
        }
    }

    /// Whether the transfer has ended.
    pub fn finished(&self) -> (r: bool)
        ensures
            r == self.is_finished(),
    {
        !(self.phase == TransferPhase::Requesting || self.phase == TransferPhase::Creating
            || self.phase == TransferPhase::Streaming)
    }

    /// Takes in one event and returns what the caller is to do about it, in order.
    pub fn step(&mut self, e: TransferEvent) -> (actions: Vec<TransferAction>)
        ensures
            (*final(self), actions@) == old(self).next(e),
    {
        let mut actions: Vec<TransferAction> = Vec::new();
        match self.phase {
            TransferPhase::Requesting => match e {
                TransferEvent::Response { status, content_length, now_ms } => {
                    if 200 <= status && status <= 299 {
                        let size = match content_length {
                            Some(n) => n,
                            None => u64::MAX,
                        };
                        self.phase = TransferPhase::Creating;
                        self.expected_size = size;
                        self.window_start_ms = now_ms;
                        actions.push(TransferAction::CreateFile);
                        actions.push(TransferAction::Announce { size });
                    } else {
                        self.phase = TransferPhase::Failed(TransferError::Status(status));
                    }
                },
                TransferEvent::RequestFailed => {
                    self.phase = TransferPhase::Failed(TransferError::Network);
                },
                TransferEvent::Cancelled => {
                    self.phase = TransferPhase::Cancelled;
                },
                _ => {},
            },
            TransferPhase::Creating => match e {
                TransferEvent::FileCreated => {
                    self.phase = TransferPhase::Streaming;
                    self.file_exists = true;
                },
                TransferEvent::CreateFailed => {
                    self.phase = TransferPhase::Failed(TransferError::Io);
                },
                TransferEvent::Cancelled => {
                    self.phase = TransferPhase::Cancelled;
                },
                _ => {},
            },
            TransferPhase::Streaming => match e {
                TransferEvent::Chunk { len, now_ms } => {
                    actions = self.take_chunk(len, now_ms);
                },
                TransferEvent::StreamEnd => {
                    self.phase = TransferPhase::Completed;
                    actions.push(TransferAction::Finish);
                },
                TransferEvent::Cancelled => {
                    self.phase = TransferPhase::Cancelled;
                    self.file_exists = false;
                    actions.push(TransferAction::Discard);
                },
                TransferEvent::WriteFailed => {
                    self.phase = TransferPhase::Failed(TransferError::Io);
                    self.file_exists = false;
                    actions.push(TransferAction::Discard);
                },
                TransferEvent::ChunkFailed => {
                    self.phase = TransferPhase::Failed(TransferError::Network);
                    self.file_exists = false;
                    actions.push(TransferAction::Discard);
                },
                _ => {},
            },
            _ => {},
        }
        proof {
            assert(actions@ =~= old(self).next(e).1);
        }
        actions
    }

    /// Accounts for one chunk: bytes, speed window and the actions to take.
    fn take_chunk(&mut self, len: usize, now_ms: u64) -> (actions: Vec<TransferAction>)
        ensures
            (*final(self), actions@) == old(self).on_chunk(len, now_ms),
    {
        let window = self.window_bytes.saturating_add(len as u64);
        let written = self.bytes_written.saturating_add(len as u64);
        let elapsed: u64 = if now_ms >= self.window_start_ms {
            now_ms - self.window_start_ms
        } else {
            0
        };
        let mut actions: Vec<TransferAction> = Vec::new();
        self.bytes_written = written;
        if elapsed >= SPEED_WINDOW_MS {
            let r = rate(window, elapsed);
            if r != self.last_rate {
                actions.push(TransferAction::Speed { bytes_per_second: r });
            }
            self.window_start_ms = now_ms;
            self.window_bytes = 0;
            self.last_rate = r;
        } else {
            self.window_bytes = window;
        }
        actions.push(TransferAction::Write { len });
        actions.push(TransferAction::Progress { bytes: len });
        proof {
            assert(actions@ =~= old(self).on_chunk(len, now_ms).1);
        }
        actions
    }
}

/// Bytes per second for `bytes` over `elapsed_ms` milliseconds, held at `u64::MAX`.
pub fn rate(bytes: u64, elapsed_ms: u64) -> (r: u64)
    requires
        elapsed_ms > 0,
    ensures
        r == rate_of(bytes, elapsed_ms),
{
    let scaled: u128 = bytes as u128 * 1000;
    let r: u128 = scaled / (elapsed_ms as u128);
    if r > u64::MAX as u128 {
        u64::MAX
    } else {
        r as u64
    }
}

/// Every step keeps the state consistent. Its actions leave this transfer's file at the
/// destination exactly when the new state says so, but for the report that the file was
/// created, which makes the file exist without any action.
pub proof fn lemma_step_tracks_file(s: TransferSession, e: TransferEvent)
    requires
        s.wf(),
    ensures
        s.next(e).0.wf(),
        e != TransferEvent::FileCreated ==> file_after(s.file_exists, s.next(e).1)
            == s.next(e).0.file_exists,
        e == TransferEvent::FileCreated && s.phase == TransferPhase::Creating ==> s.next(e).1
            == Seq::<TransferAction>::empty() && s.next(e).0.file_exists,
{
    let acts = s.next(e).1;
    reveal_with_fuel(file_after, 3);
    if s.phase == TransferPhase::Streaming {
        if let TransferEvent::Chunk { len, now_ms } = e {
            lemma_io_keeps_file(s, len, now_ms);
            return ;
        }
    }
    if acts.len() == 1 {
        assert(acts.drop_last() =~= Seq::<TransferAction>::empty());
    } else if acts.len() == 2 {
        assert(acts.drop_last() =~= seq![acts[0]]);
        assert(acts.drop_last().drop_last() =~= Seq::<TransferAction>::empty());
    }
}

/// A failed creation ends the transfer and removes nothing: a file of that name that was
/// there before stays.
pub proof fn lemma_create_failure_removes_nothing(s: TransferSession)
    requires
        s.wf(),
        s.phase == TransferPhase::Creating,
    ensures
        s.next(TransferEvent::CreateFailed).0.phase == TransferPhase::Failed(TransferError::Io),
        s.next(TransferEvent::CreateFailed).1 == Seq::<TransferAction>::empty(),
{
}

proof fn lemma_io_keeps_file(s: TransferSession, len: usize, now_ms: u64)
    ensures
        file_after(s.file_exists, s.on_chunk(len, now_ms).1) == s.file_exists,
{
    let acts = s.on_chunk(len, now_ms).1;
    reveal_with_fuel(file_after, 4);
    if acts.len() == 3 {
        assert(acts.drop_last().drop_last().drop_last() =~= Seq::<TransferAction>::empty());
    } else {
        assert(acts.drop_last().drop_last() =~= Seq::<TransferAction>::empty());
    }
}

/// Cancelling before the body is done leaves no file at the destination, and the transfer
/// ends as cancelled.
pub proof fn lemma_cancel_leaves_no_file(s: TransferSession)
    requires
        s.wf(),
        !s.is_finished(),
    ensures
        s.next(TransferEvent::Cancelled).0.phase == TransferPhase::Cancelled,
        !s.next(TransferEvent::Cancelled).0.file_exists,
        !file_after(s.file_exists, s.next(TransferEvent::Cancelled).1),
{
    lemma_step_tracks_file(s, TransferEvent::Cancelled);
}

} // verus!

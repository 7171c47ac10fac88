use vstd::prelude::*;

use crate::manifest::{contains_name, str_views};
use crate::names::{is_plain_file_name, plain_file_name};

verus! {

/// Size of the buffer in which entries are copied out of the archive.
pub const EXTRACT_CHUNK_SIZE: usize = 64 * 1024;

/// Why an extraction failed.
#[derive(Clone, Copy, Debug, PartialEq, Eq, Structural)]
pub enum ExtractError {
    /// The archive could not be opened or read.
    Archive,
    /// An output file could not be created or written.
    Io,
}

/// Where an extraction stands.
#[derive(Clone, Copy, Debug, PartialEq, Eq, Structural)]
pub enum ExtractPhase {
    /// Waiting for the next entry of the archive.
    Scanning,
    /// The output file of the offered entry is being created.
    Creating,
    /// Copying the offered entry to its output file.
    Writing,
    /// Every entry has been seen.
    Completed,
    /// Stopped on request.
    Cancelled,
    /// Stopped on an error.
    Failed(ExtractError),
}

/// What the extraction learns from the archive and the file system, besides entries.
#[derive(Clone, Copy, Debug, PartialEq, Eq, Structural)]
pub enum ExtractEvent {
    /// The archive could not be opened, or an entry could not be read.
    ArchiveFailed,
    /// The output file of the offered entry was created.
    Created,
    /// The output file could not be created; nothing was made in its place.
    CreateFailed,
    /// `len` more bytes of the entry being written were read.
    Chunk { len: usize },
    /// The entry being written has been read to its end.
    EntryEnd,
    /// The output file could not be written.
    WriteFailed,
    /// The cancel signal was seen at a chunk boundary. While an output file is being
    /// created, it is to be sent only once the creation has failed or been reported.
    Cancelled,
    /// There are no more entries.
    ArchiveEnd,
}

/// What the caller is to do, in order.
#[derive(Clone, Copy, Debug, PartialEq, Eq, Structural)]
pub enum ExtractAction {
    /// Create the output file for the entry just offered, named as it is, in the destination,
    /// failing if a file of that name exists; report how it went.
    Create,
    /// Report that entry `index` of `count`, of `size` bytes, starts.
    Announce { index: usize, count: usize, size: u64 },
    /// Append the bytes just read to the output file.
    Write { len: usize },
    /// Report `bytes` more bytes done.
    Progress { bytes: usize },
    /// Flush and close the output file, which is complete.
    Finish,
    /// Close and remove the partial output file.
    Discard,
    /// Remove the archive.
    RemoveArchive,
}

/// The state of one extraction.
pub struct Extraction {
    pub phase: ExtractPhase,
    /// Names of the entries to write out.
    pub wanted: Vec<String>,
    /// Names of the entries written out in full, in order.
    pub written: Vec<String>,
    /// The entry being written.
    pub current: Option<String>,
    /// Whether the archive is still on disk.
    pub archive_present: bool,
    /// Whether paths follow Windows rules.
    pub windows_paths: bool,
}

/// The mathematical value of an [`Extraction`].
pub struct ExtractionView {
    pub phase: ExtractPhase,
    pub wanted: Seq<Seq<char>>,
    pub written: Seq<Seq<char>>,
    pub current: Option<Seq<char>>,
    pub archive_present: bool,
    pub windows_paths: bool,
}

impl View for Extraction {
    type V = ExtractionView;

    open spec fn view(&self) -> ExtractionView {
        ExtractionView {
            phase: self.phase,
            wanted: str_views(self.wanted@),
            written: str_views(self.written@),
            current: match self.current {
                Some(c) => Some(c@),
                None => None,
            },
            archive_present: self.archive_present,
            windows_paths: self.windows_paths,
        }
    }
}

/// What the extraction has put on disk: its complete outputs, a partial one, and whether
/// the archive is still there.
pub struct Disk {
    pub files: Set<Seq<char>>,
    pub partial: Option<Seq<char>>,
    pub archive: bool,
}

/// The disk after `actions`. Creating an output file takes effect only once the caller
/// reports it created.
pub open spec fn disk_after(d: Disk, actions: Seq<ExtractAction>) -> Disk
    decreases actions.len(),
{
    if actions.len() == 0 {
        d
    } else {
        let b = disk_after(d, actions.drop_last());
        match actions.last() {
            ExtractAction::Finish => match b.partial {
                Some(p) => Disk { files: b.files.insert(p), partial: None, ..b },
                None => b,
            },
            ExtractAction::Discard => Disk { partial: None, ..b },
            ExtractAction::RemoveArchive => Disk { archive: false, ..b },
            _ => b,
        }
    }
}

/// Whether an entry is written out: it is wanted, the archive found its path enclosed, and
/// its name is a plain file name, so that its output lies directly in the destination.
pub open spec fn entry_accepted(
    wanted: Seq<Seq<char>>,
    name: Seq<char>,
    enclosed: bool,
    windows_paths: bool,
) -> bool {
    wanted.contains(name) && enclosed && is_plain_file_name(name, windows_paths)
}

impl ExtractionView {
    /// A consistent state.
    pub open spec fn wf(self) -> bool {
        &&& (self.phase == ExtractPhase::Creating || self.phase == ExtractPhase::Writing) == (
        self.current is Some)
        &&& !self.is_finished() == self.archive_present
    }

    /// Whether the extraction has ended.
    pub open spec fn is_finished(self) -> bool {
        !(self.phase == ExtractPhase::Scanning || self.phase == ExtractPhase::Creating
            || self.phase == ExtractPhase::Writing)
    }

    /// What the extraction has put on disk.
    pub open spec fn disk(self) -> Disk {
        Disk {
            files: self.written.to_set(),
            partial: if self.phase == ExtractPhase::Writing {
                self.current
            } else {
                None
            },
            archive: self.archive_present,
        }
    }

    /// The state after entry `index` of `count`, named `name`, is offered, and the actions.
    pub open spec fn offer(
        self,
        index: usize,
        count: usize,
        name: Seq<char>,
        size: u64,
        enclosed: bool,
    ) -> (ExtractionView, Seq<ExtractAction>) {
        if self.phase == ExtractPhase::Scanning && entry_accepted(
            self.wanted,
            name,
            enclosed,
            self.windows_paths,
        ) {
            (
                ExtractionView { phase: ExtractPhase::Creating, current: Some(name), ..self },
                seq![ExtractAction::Create, ExtractAction::Announce { index, count, size }],
            )
        } else {
            (self, seq![])
        }
    }

    /// The state after `e` and the actions it calls for.
    pub open spec fn next(self, e: ExtractEvent) -> (ExtractionView, Seq<ExtractAction>) {
        let stop = |phase: ExtractPhase|
            ExtractionView { phase, current: None, archive_present: false, ..self };
        match self.phase {
            ExtractPhase::Scanning => match e {
                ExtractEvent::ArchiveEnd => (
                    stop(ExtractPhase::Completed),
                    seq![ExtractAction::RemoveArchive],
                ),
                ExtractEvent::Cancelled => (
                    stop(ExtractPhase::Cancelled),
                    seq![ExtractAction::RemoveArchive],
                ),
                ExtractEvent::ArchiveFailed => (
                    stop(ExtractPhase::Failed(ExtractError::Archive)),
                    seq![ExtractAction::RemoveArchive],
                ),
                _ => (self, seq![]),
            },
            ExtractPhase::Creating => match e {
                ExtractEvent::Created => (
                    ExtractionView { phase: ExtractPhase::Writing, ..self },
                    seq![],
                ),
                ExtractEvent::CreateFailed => (
                    stop(ExtractPhase::Failed(ExtractError::Io)),
                    seq![ExtractAction::RemoveArchive],
                ),
                ExtractEvent::Cancelled => (
                    stop(ExtractPhase::Cancelled),
                    seq![ExtractAction::RemoveArchive],
                ),
                _ => (self, seq![]),
            },
            ExtractPhase::Writing => match e {
                ExtractEvent::Chunk { len } => (
                    self,
                    seq![ExtractAction::Write { len }, ExtractAction::Progress { bytes: len }],
                ),
                ExtractEvent::EntryEnd => (
                    ExtractionView {
                        phase: ExtractPhase::Scanning,
                        written: self.written.push(self.current->0),
                        current: None,
                        ..self
                    },
                    seq![ExtractAction::Finish],
                ),
                ExtractEvent::Cancelled => (
                    stop(ExtractPhase::Cancelled),
                    seq![ExtractAction::Discard, ExtractAction::RemoveArchive],
                ),
                ExtractEvent::ArchiveFailed => (
                    stop(ExtractPhase::Failed(ExtractError::Archive)),
                    seq![ExtractAction::Discard, ExtractAction::RemoveArchive],
                ),
                ExtractEvent::WriteFailed => (
                    stop(ExtractPhase::Failed(ExtractError::Io)),
                    seq![ExtractAction::Discard, ExtractAction::RemoveArchive],
                ),
                _ => (self, seq![]),
            },
            _ => (self, seq![]),
        }
    }
}

impl Extraction {
    /// An extraction of the entries named in `wanted`, from an archive on disk.
    /// `windows_paths` tells whether paths follow Windows rules.
    pub fn new(wanted: Vec<String>, windows_paths: bool) -> (r: Extraction)
        ensures
            r@.wf(),
            r@.phase == ExtractPhase::Scanning,
            r@.wanted == str_views(wanted@),
            r@.written == Seq::<Seq<char>>::empty(),
            r@.current is None,
            r@.archive_present,
            r@.windows_paths == windows_paths,
    {
        let r = Extraction {
            phase: ExtractPhase::Scanning,
            wanted,
            written: Vec::new(),
            current: None,
            archive_present: true,
            windows_paths,
        };
        assert(r@.written =~= Seq::<Seq<char>>::empty());
        r
    }

    /// Whether the extraction has ended.
    pub fn finished(&self) -> (r: bool)
        ensures
            r == self@.is_finished(),
    {
        !(self.phase == ExtractPhase::Scanning || self.phase == ExtractPhase::Creating
            || self.phase == ExtractPhase::Writing)
    }

    /// Whether the entry `name` would be written out.
    pub fn accepts(&self, name: &String, enclosed: bool) -> (r: bool)
        ensures
            r == entry_accepted(self@.wanted, name@, enclosed, self.windows_paths),
    {
        enclosed && plain_file_name(name.as_str(), self.windows_paths) && contains_name(
            &self.wanted,
            name,
        )
    }

    /// Offers entry `index` of `count`, named `name`, of `size` bytes; `enclosed` tells
    /// whether the archive found its stored path to stay inside the destination.
    pub fn offer_entry(
        &mut self,
        index: usize,
        count: usize,
        name: &String,
        size: u64,
        enclosed: bool,
    ) -> (actions: Vec<ExtractAction>)
        ensures
            (final(self)@, actions@) == old(self)@.offer(index, count, name@, size, enclosed),
    {
        let mut actions: Vec<ExtractAction> = Vec::new();
        if self.phase == ExtractPhase::Scanning && self.accepts(name, enclosed) {
            self.phase = ExtractPhase::Creating;
            self.current = Some(name.clone());
            actions.push(ExtractAction::Create);
            actions.push(ExtractAction::Announce { index, count, size });
        }
        proof {
            assert(actions@ =~= old(self)@.offer(index, count, name@, size, enclosed).1);
            assert(self@ == old(self)@.offer(index, count, name@, size, enclosed).0);
        }
        actions
    }

    /// Ends the extraction in `phase`, dropping the entry in progress and the archive.
    fn stop(&mut self, phase: ExtractPhase)
        ensures
            final(self)@ == (ExtractionView {
                phase,
                current: None,
                archive_present: false,
                ..old(self)@
            }),
    {
        self.phase = phase;
        self.current = None;
        self.archive_present = false;
    }

    /// Takes in one event and returns what the caller is to do about it, in order.
    pub fn step(&mut self, e: ExtractEvent) -> (actions: Vec<ExtractAction>)
        requires
            old(self)@.wf(),
        ensures
            (final(self)@, actions@) == old(self)@.next(e),
    {
        let mut actions: Vec<ExtractAction> = Vec::new();
        match self.phase {
            ExtractPhase::Scanning => match e {
                ExtractEvent::ArchiveEnd => {
                    self.stop(ExtractPhase::Completed);
                    actions.push(ExtractAction::RemoveArchive);
                },
                ExtractEvent::Cancelled => {
                    self.stop(ExtractPhase::Cancelled);
                    actions.push(ExtractAction::RemoveArchive);
                },
                ExtractEvent::ArchiveFailed => {
                    self.stop(ExtractPhase::Failed(ExtractError::Archive));
                    actions.push(ExtractAction::RemoveArchive);
                },
                _ => {},
            },
            ExtractPhase::Creating => match e {
                ExtractEvent::Created => {
                    self.phase = ExtractPhase::Writing;
                },
                ExtractEvent::CreateFailed => {
                    self.stop(ExtractPhase::Failed(ExtractError::Io));
                    actions.push(ExtractAction::RemoveArchive);
                },
                ExtractEvent::Cancelled => {
                    self.stop(ExtractPhase::Cancelled);
                    actions.push(ExtractAction::RemoveArchive);
                },
                _ => {},
            },
            ExtractPhase::Writing => match e {
                ExtractEvent::Chunk { len } => {
                    actions.push(ExtractAction::Write { len });
                    actions.push(ExtractAction::Progress { bytes: len });
                },
                ExtractEvent::EntryEnd => {
                    let done = self.current.take();
                    if let Some(name) = done {
                        let ghost before = self.written@;
                        self.written.push(name);
                        assert(str_views(self.written@) =~= str_views(before).push(name@));
                    }
                    self.phase = ExtractPhase::Scanning;
                    actions.push(ExtractAction::Finish);
                },
                ExtractEvent::Cancelled => {
                    self.stop(ExtractPhase::Cancelled);
                    actions.push(ExtractAction::Discard);
                    actions.push(ExtractAction::RemoveArchive);
                },
                ExtractEvent::ArchiveFailed => {
                    self.stop(ExtractPhase::Failed(ExtractError::Archive));
                    actions.push(ExtractAction::Discard);
                    actions.push(ExtractAction::RemoveArchive);
                },
                ExtractEvent::WriteFailed => {
                    self.stop(ExtractPhase::Failed(ExtractError::Io));
                    actions.push(ExtractAction::Discard);
                    actions.push(ExtractAction::RemoveArchive);
                },
                _ => {},
            },
            _ => {},
        }
        proof {
            assert(actions@ =~= old(self)@.next(e).1);
        }
        actions
    }
}

/// Every step keeps the state consistent, and its actions change the disk as the state
/// says, but for the report that the output file was created, which makes it exist
/// without any action.
pub proof fn lemma_step_tracks_disk(s: ExtractionView, e: ExtractEvent)
    requires
        s.wf(),
    ensures
        s.next(e).0.wf(),
        e != ExtractEvent::Created ==> disk_after(s.disk(), s.next(e).1) == s.next(e).0.disk(),
        e == ExtractEvent::Created && s.phase == ExtractPhase::Creating ==> s.next(e).1
            == Seq::<ExtractAction>::empty() && s.next(e).0.disk() == (Disk {
            partial: s.current,
            ..s.disk()
        }),
{
    let (t, acts) = s.next(e);
    reveal_with_fuel(disk_after, 3);
    if acts.len() == 1 {
        assert(acts.drop_last() =~= Seq::<ExtractAction>::empty());
    } else if acts.len() == 2 {
        assert(acts.drop_last() =~= seq![acts[0]]);
        assert(acts.drop_last().drop_last() =~= Seq::<ExtractAction>::empty());
    }
    if s.phase == ExtractPhase::Writing && e == ExtractEvent::EntryEnd {
        assert(s.written.push(s.current->0).to_set() =~= s.written.to_set().insert(s.current->0))
            by {
            lemma_push_to_set(s.written, s.current->0);
        }
    }
    if e != ExtractEvent::Created {
        assert(disk_after(s.disk(), acts) =~= t.disk());
    }
}

/// Offering an entry keeps the state consistent and changes nothing on disk until the
/// output file is reported created.
pub proof fn lemma_offer_tracks_disk(
    s: ExtractionView,
    index: usize,
    count: usize,
    name: Seq<char>,
    size: u64,
    enclosed: bool,
)
    requires
        s.wf(),
    ensures
        s.offer(index, count, name, size, enclosed).0.wf(),
        disk_after(s.disk(), s.offer(index, count, name, size, enclosed).1) == s.offer(
            index,
            count,
            name,
            size,
            enclosed,
        ).0.disk(),
{
    let acts = s.offer(index, count, name, size, enclosed).1;
    reveal_with_fuel(disk_after, 3);
    if acts.len() == 2 {
        assert(acts.drop_last() =~= seq![acts[0]]);
        assert(acts.drop_last().drop_last() =~= Seq::<ExtractAction>::empty());
    }
}

proof fn lemma_push_to_set(s: Seq<Seq<char>>, x: Seq<char>)
    ensures
        s.push(x).to_set() =~= s.to_set().insert(x),
{
    assert forall|y: Seq<char>| s.push(x).to_set().contains(y) <==> s.to_set().insert(x).contains(
        y,
    ) by {
        if s.push(x).contains(y) && y != x {
            let k = choose|k: int| 0 <= k < s.push(x).len() && s.push(x)[k] == y;
            assert(s[k] == y);
        }
        if s.contains(y) {
            let k = choose|k: int| 0 <= k < s.len() && s[k] == y;
            assert(s.push(x)[k] == y);
        }
        if y == x {
            assert(s.push(x)[s.len() as int] == y);
        }
    }
}

/// Cancelling an extraction that has written some wanted entries leaves exactly those
/// entries on disk, no partial output, and no archive.
pub proof fn lemma_cancel_keeps_written(s: ExtractionView)
    requires
        s.wf(),
        !s.is_finished(),
    ensures
        s.next(ExtractEvent::Cancelled).0.phase == ExtractPhase::Cancelled,
        s.next(ExtractEvent::Cancelled).0.written == s.written,
        disk_after(s.disk(), s.next(ExtractEvent::Cancelled).1) == (Disk {
            files: s.written.to_set(),
            partial: None,
            archive: false,
        }),
{
    lemma_step_tracks_disk(s, ExtractEvent::Cancelled);
}

/// A failed creation of an output file ends the extraction with an error and removes only
/// the archive: a file of that name that was there before stays.
pub proof fn lemma_create_failure_removes_only_archive(s: ExtractionView)
    requires
        s.wf(),
        s.phase == ExtractPhase::Creating,
    ensures
        s.next(ExtractEvent::CreateFailed).0.phase == ExtractPhase::Failed(ExtractError::Io),
        s.next(ExtractEvent::CreateFailed).1 == seq![ExtractAction::RemoveArchive],
        s.next(ExtractEvent::CreateFailed).0.written == s.written,
{
}

/// An output file is created only for an entry that is wanted, that the archive found
/// enclosed, and whose name is a plain file name; events other than an offer create none.
pub proof fn lemma_writes_only_enclosed(
    s: ExtractionView,
    index: usize,
    count: usize,
    name: Seq<char>,
    size: u64,
    enclosed: bool,
    e: ExtractEvent,
)
    ensures
        s.offer(index, count, name, size, enclosed).1.contains(ExtractAction::Create)
            ==> entry_accepted(s.wanted, name, enclosed, s.windows_paths) && is_plain_file_name(
            name,
            s.windows_paths,
        ),
        !s.next(e).1.contains(ExtractAction::Create),
{
    let acts = s.next(e).1;
    if acts.contains(ExtractAction::Create) {
        let k = choose|k: int| 0 <= k < acts.len() && acts[k] == ExtractAction::Create;
        assert(acts[k] != ExtractAction::Create);
    }
}

} // verus!

//! The resumable download-and-extract pipeline of one toolchain artifact, as a state
//! machine: each event the caller observes yields the next state and the action to
//! perform. The caller performs the network, disk and process work.

use vstd::prelude::*;

verus! {

/// Lifecycle of an artifact task.
#[derive(Debug, Clone, Copy, PartialEq, Eq, Structural)]
pub enum ArtifactState {
    Pending,
    Downloading,
    Downloaded,
    Extracting,
    Installed,
    Failed,
}

/// What the caller performs next.
#[derive(Debug, Clone, Copy, PartialEq, Eq, Structural)]
pub enum ArtifactAction {
    /// Nothing: the artifact is installed.
    Done,
    /// Request the resource; from the given byte on when `from` is `Some`.
    Request { from: Option<u64> },
    /// Discard the partial file and request the whole resource again.
    RequestFresh,
    /// Write the response body to the destination; appending to the partial file when
    /// `append`, else into an emptied file.
    Write { append: bool },
    /// Run the unpack utility on the downloaded archive.
    Extract,
    /// Delete the archive, then check that the marker executable exists.
    RemoveArchiveAndVerify,
    /// Give up on the task.
    Fail,
}

/// The part of a task the machine decides on: state, byte offset and expected size.
#[derive(Debug, Clone, Copy, PartialEq, Eq, Structural)]
pub struct Progress {
    pub state: ArtifactState,
    pub offset: u64,
    pub total: Option<u64>,
}

/// Starting acquisition: an installed task, or one whose marker exists, needs nothing;
/// else the download resumes from the length of the partial file.
pub open spec fn begin_step(p: Progress, marker_exists: bool, existing_len: u64) -> (
    Progress,
    ArtifactAction,
) {
    if p.state == ArtifactState::Installed || marker_exists {
        (Progress { state: ArtifactState::Installed, ..p }, ArtifactAction::Done)
    } else {
        (
            Progress { state: ArtifactState::Downloading, offset: existing_len, total: None },
            ArtifactAction::Request {
                from: if existing_len > 0 {
                    Some(existing_len)
                } else {
                    None
                },
            },
        )
    }
}

/// The expected final size after a successful response: the total of the Content-Range
/// header, else the offset plus the Content-Length.
pub open spec fn expected_total(
    offset: u64,
    content_length: Option<u64>,
    range_total: Option<u64>,
) -> Option<u64> {
    match range_total {
        Some(t) => Some(t),
        None => match content_length {
            Some(l) => if offset + l <= u64::MAX {
                Some((offset + l) as u64)
            } else {
                None
            },
            None => None,
        },
    }
}

/// The response to the (possibly ranged) request; `partial` when the server answered
/// with partial content, honouring the range. A successful reply that ignores the range
/// carries the whole resource: the partial file is discarded and writing starts at 0.
pub open spec fn response_step(
    p: Progress,
    ok: bool,
    partial: bool,
    content_length: Option<u64>,
    range_total: Option<u64>,
) -> (Progress, ArtifactAction) {
    if ok && (p.offset == 0 || partial) {
        (
            Progress { total: expected_total(p.offset, content_length, range_total), ..p },
            ArtifactAction::Write { append: p.offset > 0 },
        )
    } else if ok {
        (Progress { offset: 0, total: content_length, ..p }, ArtifactAction::Write { append: false })
    } else if p.offset > 0 {
        (Progress { offset: 0, total: None, ..p }, ArtifactAction::RequestFresh)
    } else {
        (Progress { state: ArtifactState::Failed, ..p }, ArtifactAction::Fail)
    }
}

/// The response to the request made after discarding the partial file.
pub open spec fn fresh_response_step(p: Progress, ok: bool, content_length: Option<u64>) -> (
    Progress,
    ArtifactAction,
) {
    if ok {
        (
            Progress { offset: 0, total: content_length, ..p },
            ArtifactAction::Write { append: false },
        )
    } else {
        (Progress { state: ArtifactState::Failed, ..p }, ArtifactAction::Fail)
    }
}

/// `n` more bytes were written.
pub open spec fn chunk_step(p: Progress, n: u64) -> Progress {
    if p.offset + n <= u64::MAX {
        Progress { offset: (p.offset + n) as u64, ..p }
    } else {
        Progress { state: ArtifactState::Failed, ..p }
    }
}

/// The offset after writing chunks of the given sizes.
pub open spec fn offset_after(offset: int, chunks: Seq<u64>) -> int
    decreases chunks.len(),
{
    if chunks.len() == 0 {
        offset
    } else {
        offset_after(offset, chunks.drop_last()) + chunks.last()
    }
}

/// The body ended: the archive is complete.
pub open spec fn download_complete_step(p: Progress) -> (Progress, ArtifactAction) {
    (Progress { state: ArtifactState::Downloaded, ..p }, ArtifactAction::Extract)
}

/// The unpack utility exited.
pub open spec fn extract_exit_step(p: Progress, success: bool) -> (Progress, ArtifactAction) {
    if success {
        (Progress { state: ArtifactState::Extracting, ..p }, ArtifactAction::RemoveArchiveAndVerify)
    } else {
        (Progress { state: ArtifactState::Failed, ..p }, ArtifactAction::Fail)
    }
}

/// The marker executable was looked for after extraction.
pub open spec fn verify_step(p: Progress, marker_exists: bool) -> (Progress, ArtifactAction) {
    if marker_exists {
        (Progress { state: ArtifactState::Installed, ..p }, ArtifactAction::Done)
    } else {
        (Progress { state: ArtifactState::Failed, ..p }, ArtifactAction::Fail)
    }
}

/// One download-and-extract unit.
#[derive(Debug, Clone)]
pub struct ArtifactTask {
    pub url: String,
    pub destination: String,
    pub marker: String,
    pub offset: u64,
    pub total: Option<u64>,
    pub state: ArtifactState,
}

impl ArtifactTask {
    pub open spec fn progress(&self) -> Progress {
        Progress { state: self.state, offset: self.offset, total: self.total }
    }

    pub open spec fn same_unit(&self, other: &ArtifactTask) -> bool {
        self.url == other.url && self.destination == other.destination && self.marker
            == other.marker
    }

    fn set_progress(&mut self, p: Progress)
        ensures
            final(self).progress() == p,
            final(self).same_unit(old(self)),
    {
        self.state = p.state;
        self.offset = p.offset;
        self.total = p.total;
    }

    /// A pending task for the resource at `url`, downloaded to `destination`, installed
    /// once `marker` exists.
    pub fn new(url: String, destination: String, marker: String) -> (r: Self)
        ensures
            r.url == url,
            r.destination == destination,
            r.marker == marker,
            r.progress() == (Progress { state: ArtifactState::Pending, offset: 0, total: None }),
    {
        ArtifactTask { url, destination, marker, offset: 0, total: None, state: ArtifactState::Pending }
    }

    /// Starts (or restarts) acquisition, given whether the marker exists and the length of
    /// any partial file at the destination.
    pub fn begin(&mut self, marker_exists: bool, existing_len: u64) -> (r: ArtifactAction)
        ensures
            (final(self).progress(), r) == begin_step(old(self).progress(), marker_exists, existing_len),
            final(self).same_unit(old(self)),
    {
        if self.state == ArtifactState::Installed || marker_exists {
            self.state = ArtifactState::Installed;
            return ArtifactAction::Done;
        }
        self.set_progress(Progress { state: ArtifactState::Downloading, offset: existing_len, total: None });
        ArtifactAction::Request {
            from: if existing_len > 0 {
                Some(existing_len)
            } else {
                None
            },
        }
    }

    /// The server answered the request; `ok` when it succeeded, `partial` when it sent
    /// partial content (the range was honoured).
    pub fn on_response(
        &mut self,
        ok: bool,
        partial: bool,
        content_length: Option<u64>,
        range_total: Option<u64>,
    ) -> (r: ArtifactAction)
        ensures
            (final(self).progress(), r) == response_step(
                old(self).progress(),
                ok,
                partial,
                content_length,
                range_total,
            ),
            final(self).same_unit(old(self)),
    {
        if ok && self.offset > 0 && !partial {
            self.offset = 0;
            self.total = content_length;
            return ArtifactAction::Write { append: false };
        }
        if ok {
            let total = match range_total {
                Some(t) => Some(t),
                None => match content_length {
                    Some(l) => self.offset.checked_add(l),
                    None => None,
                },
            };
            self.total = total;
            ArtifactAction::Write { append: self.offset > 0 }
        } else if self.offset > 0 {
            self.offset = 0;
            self.total = None;
            ArtifactAction::RequestFresh
        } else {
            self.state = ArtifactState::Failed;
            ArtifactAction::Fail
        }
    }

    /// The server answered the request made after discarding the partial file.
    pub fn on_fresh_response(&mut self, ok: bool, content_length: Option<u64>) -> (r: ArtifactAction)
        ensures
            (final(self).progress(), r) == fresh_response_step(old(self).progress(), ok, content_length),
            final(self).same_unit(old(self)),
    {
        if ok {
            self.offset = 0;
            self.total = content_length;
            ArtifactAction::Write { append: false }
        } else {
            self.state = ArtifactState::Failed;
            ArtifactAction::Fail
        }
    }

    /// `n` more bytes were written to the destination.
    pub fn on_chunk(&mut self, n: u64)
        ensures
            final(self).progress() == chunk_step(old(self).progress(), n),
            final(self).same_unit(old(self)),
    {
        match self.offset.checked_add(n) {
            Some(o) => self.offset = o,
            None => self.state = ArtifactState::Failed,
        }
    }

    /// The response body ended.
    pub fn on_download_complete(&mut self) -> (r: ArtifactAction)
        ensures
            (final(self).progress(), r) == download_complete_step(old(self).progress()),
            final(self).same_unit(old(self)),
    {
        self.state = ArtifactState::Downloaded;
        ArtifactAction::Extract
    }

    /// The unpack utility exited, successfully or not.
    pub fn on_extract_exit(&mut self, success: bool) -> (r: ArtifactAction)
        ensures
            (final(self).progress(), r) == extract_exit_step(old(self).progress(), success),
            final(self).same_unit(old(self)),
    {
        if success {
            self.state = ArtifactState::Extracting;
            ArtifactAction::RemoveArchiveAndVerify
        } else {
            self.state = ArtifactState::Failed;
            ArtifactAction::Fail
        }
    }

    /// The marker was looked for after extraction.
    pub fn on_verify(&mut self, marker_exists: bool) -> (r: ArtifactAction)
        ensures
            (final(self).progress(), r) == verify_step(old(self).progress(), marker_exists),
            final(self).same_unit(old(self)),
    {
        if marker_exists {
            self.state = ArtifactState::Installed;
            ArtifactAction::Done
        } else {
            self.state = ArtifactState::Failed;
            ArtifactAction::Fail
        }
    }

    /// The position to show on a progress bar: the offset, capped by the expected size.
    pub fn progress_position(&self) -> (r: u64)
        ensures
            r == match self.total {
                Some(t) => if self.offset <= t {
                    self.offset
                } else {
                    t
                },
                None => self.offset,
            },
    {
        match self.total {
            Some(t) => if self.offset <= t {
                self.offset
            } else {
                t
            },
            None => self.offset,
        }
    }
}

/// Acquisition is idempotent: once a task is installed, starting it again asks for no
/// network or extraction work and leaves it as it is, whatever the disk shows.
pub proof fn lemma_acquire_idempotent(p: Progress, existing_len: u64, marker_again: bool, len_again: u64)
    ensures
        begin_step(p, true, existing_len).1 == ArtifactAction::Done,
        begin_step(begin_step(p, true, existing_len).0, marker_again, len_again)
            == begin_step(p, true, existing_len),
{
}

/// A server that ignores the range and sends the whole resource with a success status
/// makes the task discard the partial file: it writes from byte 0 into an emptied file,
/// expecting the reply's length.
pub proof fn lemma_ignored_range_restarts(p: Progress, existing_len: u64, content_length: Option<u64>)
    requires
        p.state != ArtifactState::Installed,
        existing_len > 0,
    ensures
        ({
            let (started, _) = begin_step(p, false, existing_len);
            let (answered, write) = response_step(started, true, false, content_length, None);
            &&& write == ArtifactAction::Write { append: false }
            &&& answered.offset == 0
            &&& answered.total == content_length
        }),
{
}

/// Resuming from a partial file of length `len` asks the server for the bytes from `len`
/// on and appends what it sends; when the partial file is the start of the resource and
/// the server honours the range, the file ends byte-identical to a fresh download, and
/// its length is the expected total.
pub proof fn lemma_resume_matches_fresh(
    resource: Seq<u8>,
    partial: Seq<u8>,
    p: Progress,
    chunks: Seq<u64>,
    received: Seq<u8>,
)
    requires
        p.state != ArtifactState::Installed,
        0 < partial.len() <= resource.len() <= u64::MAX,
        partial == resource.subrange(0, partial.len() as int),
        received == resource.subrange(partial.len() as int, resource.len() as int),
        offset_after(0, chunks) == received.len(),
    ensures
        ({
            let (started, request) = begin_step(p, false, partial.len() as u64);
            let (answered, write) = response_step(
                started,
                true,
                true,
                Some(received.len() as u64),
                None,
            );
            &&& request == ArtifactAction::Request { from: Some(partial.len() as u64) }
            &&& write == ArtifactAction::Write { append: true }
            &&& answered.offset == partial.len()
            &&& answered.total == Some(resource.len() as u64)
            &&& partial + received == resource
            &&& answered.offset + offset_after(0, chunks) == resource.len()
        }),
{
    assert(partial + received =~= resource);
}

} // verus!

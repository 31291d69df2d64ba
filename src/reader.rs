//! The decisions of a read stream that the engine pulls host bytes through.
//!
//! The engine calls back into the host to read, seek, tell and measure. Each
//! callback consults a [`ReaderBridge`], which owns the stream's tracked
//! position, and the host performs the I/O that the bridge asks for.
use vstd::prelude::*;

use crate::status::{FILE_IO_ERROR, STATUS_OK, STREAM_EOF};

verus! {

/// The engine's code for a seek from the start of the stream.
pub const SEEK_SET: u32 = 0;

/// The engine's code for a seek from the current position.
pub const SEEK_CUR: u32 = 1;

/// The engine's code for a seek from the end of the stream.
pub const SEEK_END: u32 = 2;

/// Where a seek that the engine asks for counts from.
#[derive(Debug, Clone, Copy, PartialEq, Eq, Structural)]
pub enum Whence {
    Start,
    Current,
    End,
}

/// The origin that an engine whence code names; an unknown code counts from
/// the start.
pub open spec fn whence_of(mode: u32) -> Whence {
    if mode == SEEK_CUR {
        Whence::Current
    } else if mode == SEEK_END {
        Whence::End
    } else {
        Whence::Start
    }
}

impl Whence {
    /// Reads an engine whence code.
    pub fn from_native(mode: u32) -> (w: Whence)
        ensures
            w == whence_of(mode),
    {
        if mode == SEEK_CUR {
            Whence::Current
        } else if mode == SEEK_END {
            Whence::End
        } else {
            Whence::Start
        }
    }
}

/// A repositioning of the host's byte source, in the shape of `std::io::SeekFrom`.
#[derive(Debug, Clone, Copy, PartialEq, Eq, Structural)]
pub enum SeekTarget {
    Start(u64),
    Current(i64),
    End(i64),
}

/// The repositioning that an engine seek asks for; `None` for a negative
/// offset from the start, which names no position.
pub open spec fn seek_target_of(offset: i32, whence: Whence) -> Option<SeekTarget> {
    match whence {
        Whence::Start => if offset < 0 {
            None
        } else {
            Some(SeekTarget::Start(offset as u64))
        },
        Whence::Current => Some(SeekTarget::Current(offset as i64)),
        Whence::End => Some(SeekTarget::End(offset as i64)),
    }
}

/// Turns an engine seek into the repositioning to perform on the source.
pub fn seek_target(offset: i32, whence: Whence) -> (t: Option<SeekTarget>)
    ensures
        t == seek_target_of(offset, whence),
{
    match whence {
        Whence::Start => if offset < 0 {
            None
        } else {
            Some(SeekTarget::Start(offset as u64))
        },
        Whence::Current => Some(SeekTarget::Current(offset as i64)),
        Whence::End => Some(SeekTarget::End(offset as i64)),
    }
}

/// What one read call on the host's byte source gave: a count of bytes, where
/// zero means the source is exhausted, or a failure.
#[derive(Debug, Clone, Copy, PartialEq, Eq, Structural)]
pub enum ReadOutcome {
    Read(usize),
    Failed,
}

/// The state that a read stream keeps beside the host's byte source: the
/// logical position, which the bridge alone keeps up to date, and whether an
/// I/O operation on the source has failed. Only a status can cross back to the
/// engine; the failure is kept here so that the host can report it as its own
/// once the engine's call returns.
pub struct ReaderBridge {
    pos: u64,
    failed: bool,
}

impl View for ReaderBridge {
    type V = u64;

    /// The tracked position.
    closed spec fn view(&self) -> u64 {
        self.pos
    }
}

/// The answer to `tell` for a tracked position: the position where the
/// engine's 32-bit reply can hold it, else -1, which no position is.
pub open spec fn tell_reply(pos: u64) -> i32 {
    if pos <= i32::MAX {
        pos as i32
    } else {
        -1i32
    }
}

/// The status that the engine gets for a seek, from what the source reported.
pub open spec fn seek_status(result: Option<u64>) -> u32 {
    if result is Some {
        STATUS_OK
    } else {
        FILE_IO_ERROR
    }
}

impl ReaderBridge {
    /// Whether a read, seek or size query on the source has failed.
    pub closed spec fn has_failed(&self) -> bool {
        self.failed
    }

    /// A bridge for a source read from its start.
    pub fn new() -> (b: ReaderBridge)
        ensures
            b@ == 0,
            !b.has_failed(),
    {
        ReaderBridge { pos: 0, failed: false }
    }

    /// Whether a read, seek or size query on the source has failed.
    pub fn failed(&self) -> (f: bool)
        ensures
            f == self.has_failed(),
    {
        self.failed
    }

    /// The tracked position.
    pub fn position(&self) -> (p: u64)
        ensures
            p == self@,
    {
        self.pos
    }

    /// Answers the engine's `tell` from the tracked position, without asking
    /// the source.
    pub fn tell(&self) -> (r: i32)
        ensures
            r == tell_reply(self@),
    {
        if self.pos <= 0x7fff_ffffu64 {
            self.pos as i32
        } else {
            -1
        }
    }

    /// Takes in the result of a seek on the source: the position it reports
    /// on success, `None` on failure, or on a seek that was refused before it
    /// reached the source. A failed seek leaves the tracked position as it was
    /// and is remembered.
    pub fn record_seek(&mut self, result: Option<u64>) -> (status: u32)
        ensures
            status == seek_status(result),
            final(self)@ == match result {
                Some(p) => p,
                None => old(self)@,
            },
            final(self).has_failed() == (old(self).has_failed() || result is None),
    {
        match result {
            Some(p) => {
                self.pos = p;
                STATUS_OK
            },
            None => {
                self.failed = true;
                FILE_IO_ERROR
            },
        }
    }
}

/// How a pull has ended, if it has.
#[derive(Debug, Clone, Copy, PartialEq, Eq, Structural)]
pub enum PullEnd {
    Reading,
    EndOfStream,
    Failed,
}

/// What the engine is told when a pull is over: a status and the number of
/// bytes that stand in its buffer.
#[derive(Debug, Clone, Copy, PartialEq, Eq, Structural)]
pub struct PullReply {
    pub status: u32,
    pub size: usize,
}

/// One request of the engine to fill a buffer of `requested` bytes, of which
/// `filled` have been read so far.
#[derive(Debug, Clone, Copy, PartialEq, Eq, Structural)]
pub struct Pull {
    pub requested: usize,
    pub filled: usize,
    pub end: PullEnd,
}

impl Pull {
    pub open spec fn wf(self) -> bool {
        self.filled <= self.requested
    }

    /// The reply that the pull has reached: the buffer is full, the source
    /// ran out, or a read failed. `None` while more must be read.
    pub open spec fn reply_spec(self) -> Option<PullReply> {
        match self.end {
            PullEnd::Reading => if self.filled == self.requested {
                Some(PullReply { status: STATUS_OK, size: self.requested })
            } else {
                None
            },
            PullEnd::EndOfStream => Some(PullReply { status: STREAM_EOF, size: self.filled }),
            PullEnd::Failed => Some(PullReply { status: FILE_IO_ERROR, size: 0 }),
        }
    }

    /// Whether `outcome` can be the answer to the next read: the pull still
    /// reads, and a count does not exceed the room left in the buffer.
    pub open spec fn accepts(self, outcome: ReadOutcome) -> bool {
        &&& self.reply_spec() is None
        &&& outcome matches ReadOutcome::Read(n) ==> n <= self.requested - self.filled
    }

    /// The pull and the tracked position after a read gave `outcome`. A read
    /// of some bytes moves both on; one of no bytes ends the stream; a failed
    /// read, or one that would carry the position past what a `u64` holds,
    /// fails the pull.
    pub open spec fn after(self, pos: u64, outcome: ReadOutcome) -> (Pull, u64) {
        match outcome {
            ReadOutcome::Read(n) => if n == 0 {
                (Pull { end: PullEnd::EndOfStream, ..self }, pos)
            } else if pos + n > u64::MAX {
                (Pull { end: PullEnd::Failed, ..self }, pos)
            } else {
                (Pull { filled: (self.filled + n) as usize, ..self }, (pos + n) as u64)
            },
            ReadOutcome::Failed => (Pull { end: PullEnd::Failed, ..self }, pos),
        }
    }

    /// A pull that is to fill `requested` bytes and has read none.
    pub open spec fn started(requested: usize) -> Pull {
        Pull { requested, filled: 0, end: PullEnd::Reading }
    }

    /// A pull that is to fill `requested` bytes.
    pub fn new(requested: usize) -> (p: Pull)
        ensures
            p == Pull::started(requested),
            p.wf(),
    {
        Pull { requested, filled: 0, end: PullEnd::Reading }
    }

    /// Where in the buffer the next read is to place its bytes.
    pub fn filled(&self) -> (n: usize)
        ensures
            n == self.filled,
    {
        self.filled
    }

    /// The reply for the engine once the pull is over; `None` while the
    /// source must be read again.
    pub fn reply(&self) -> (r: Option<PullReply>)
        requires
            self.wf(),
        ensures
            r == self.reply_spec(),
    {
        match self.end {
            PullEnd::Reading => if self.filled == self.requested {
                Some(PullReply { status: STATUS_OK, size: self.requested })
            } else {
                None
            },
            PullEnd::EndOfStream => Some(PullReply { status: STREAM_EOF, size: self.filled }),
            PullEnd::Failed => Some(PullReply { status: FILE_IO_ERROR, size: 0 }),
        }
    }

    /// Takes in what the last read on the source gave, moves the bridge's
    /// tracked position by the bytes it obtained, and has the bridge remember
    /// a read that failed the pull.
    pub fn record(&mut self, bridge: &mut ReaderBridge, outcome: ReadOutcome)
        requires
            old(self).wf(),
            old(self).accepts(outcome),
        ensures
            final(self).wf(),
            (*final(self), final(bridge)@) == old(self).after(old(bridge)@, outcome),
            final(bridge).has_failed() == (old(bridge).has_failed() || final(self).end is Failed),
    {
        match outcome {
            ReadOutcome::Read(n) => {
                if n == 0 {
                    self.end = PullEnd::EndOfStream;
                } else if bridge.pos > u64::MAX - (n as u64) {
                    self.end = PullEnd::Failed;
                    bridge.failed = true;
                } else {
                    self.filled = self.filled + n;
                    bridge.pos = bridge.pos + n as u64;
                }
            },
            ReadOutcome::Failed => {
                self.end = PullEnd::Failed;
                bridge.failed = true;
            },
        }
    }
}


/// The engine's `size` query on a stream. The host seeks the source to its end
/// to measure it, then back to the position that the query saved.
#[derive(Debug, Clone, Copy, PartialEq, Eq, Structural)]
pub struct SizeQuery {
    /// The tracked position when the query began.
    pub saved: u64,
    /// What the seek to the end reported, once it has been made.
    pub measured: Option<Option<u64>>,
}

/// The size reply that means no length could be confirmed: the source could
/// not be measured, or not be put back where the query found it, or its length
/// does not fit below this value. No confirmed length is ever this value, so
/// the engine's reading of it fails instead of taking it for an empty source.
pub const SIZE_UNKNOWN: u32 = 0xffff_ffff;

/// Whether the seeks of a size query confirmed both the length and the
/// return to the saved position.
pub open spec fn size_confirmed(saved: u64, measured: Option<u64>, restored: Option<u64>) -> bool {
    measured is Some && restored == Some(saved)
}

/// The length reported to the engine: the measured length where it was
/// confirmed and lies below [`SIZE_UNKNOWN`], else [`SIZE_UNKNOWN`].
pub open spec fn size_reply(saved: u64, measured: Option<u64>, restored: Option<u64>) -> u32 {
    if size_confirmed(saved, measured, restored) && measured->0 < SIZE_UNKNOWN {
        measured->0 as u32
    } else {
        SIZE_UNKNOWN
    }
}

/// Where the source stands after a size query, as far as it reported: where
/// the seek back took it, else where the seek to the end took it, else where
/// it was.
pub open spec fn size_final_position(pos: u64, measured: Option<u64>, restored: Option<u64>) -> u64 {
    match restored {
        Some(p) => p,
        None => match measured {
            Some(m) => m,
            None => pos,
        },
    }
}

impl SizeQuery {
    /// A query that starts with the tracked position `pos`.
    pub open spec fn begun_at(pos: u64) -> SizeQuery {
        SizeQuery { saved: pos, measured: None }
    }

    /// The query once the seek to the end has reported `result`.
    pub open spec fn with_end(self, result: Option<u64>) -> SizeQuery {
        SizeQuery { measured: Some(result), ..self }
    }

    /// The seek that puts the source back where the query found it.
    pub open spec fn restore_target(self) -> SeekTarget {
        SeekTarget::Start(self.saved)
    }

    /// The seek that measures the source.
    pub fn probe(&self) -> (t: SeekTarget)
        ensures
            t == SeekTarget::End(0),
    {
        SeekTarget::End(0)
    }

    /// Takes in what the seek to the end reported, and gives the seek that
    /// restores the saved position.
    pub fn record_end(&mut self, result: Option<u64>) -> (back: SeekTarget)
        requires
            old(self).measured is None,
        ensures
            *final(self) == old(self).with_end(result),
            back == old(self).restore_target(),
    {
        self.measured = Some(result);
        SeekTarget::Start(self.saved)
    }

    /// The engine's answer, from what the seek back reported. The bridge
    /// takes in where the source now stands, and remembers a query whose
    /// seeks failed or left the source elsewhere.
    pub fn reply(&self, bridge: &mut ReaderBridge, restored: Option<u64>) -> (len: u32)
        requires
            self.measured is Some,
        ensures
            len == size_reply(self.saved, self.measured->0, restored),
            final(bridge)@ == size_final_position(old(bridge)@, self.measured->0, restored),
            final(bridge).has_failed() == (old(bridge).has_failed() || !size_confirmed(
                self.saved,
                self.measured->0,
                restored,
            )),
    {
        let measured = match self.measured {
            Some(m) => m,
            None => None,
        };
        match restored {
            Some(p) => bridge.pos = p,
            None => match measured {
                Some(m) => bridge.pos = m,
                None => {},
            },
        }
        let confirmed = match (measured, restored) {
            (Some(_), Some(p)) => p == self.saved,
            _ => false,
        };
        if !confirmed {
            bridge.failed = true;
            return SIZE_UNKNOWN;
        }
        match measured {
            Some(len) => if len < 0xffff_ffffu64 {
                len as u32
            } else {
                SIZE_UNKNOWN
            },
            None => SIZE_UNKNOWN,
        }
    }
}

impl ReaderBridge {
    /// Begins the engine's `size` query at the tracked position. The bridge is
    /// only read: its tracked position stays as it is.
    pub fn size_query(&self) -> (q: SizeQuery)
        ensures
            q == SizeQuery::begun_at(self@),
    {
        SizeQuery { saved: self.pos, measured: None }
    }
}

/// The sum of the counts in `chunks`.
pub open spec fn chunk_sum(chunks: Seq<usize>) -> int
    decreases chunks.len(),
{
    if chunks.len() == 0 {
        0
    } else {
        chunks[0] + chunk_sum(chunks.drop_first())
    }
}

/// A pull and a tracked position after reads that gave `chunks` bytes in turn.
pub open spec fn run_reads(p: Pull, pos: u64, chunks: Seq<usize>) -> (Pull, u64)
    decreases chunks.len(),
{
    if chunks.len() == 0 {
        (p, pos)
    } else {
        let (next, next_pos) = p.after(pos, ReadOutcome::Read(chunks[0]));
        run_reads(next, next_pos, chunks.drop_first())
    }
}

/// Whether every read in `chunks`, taken in turn from `p` and `pos`, is one
/// that the pull can take.
pub open spec fn reads_accepted(p: Pull, pos: u64, chunks: Seq<usize>) -> bool
    decreases chunks.len(),
{
    if chunks.len() == 0 {
        true
    } else {
        let (next, next_pos) = p.after(pos, ReadOutcome::Read(chunks[0]));
        p.accepts(ReadOutcome::Read(chunks[0])) && reads_accepted(
            next,
            next_pos,
            chunks.drop_first(),
        )
    }
}

proof fn lemma_reads_then_end(p: Pull, pos: u64, chunks: Seq<usize>)
    requires
        p.end == PullEnd::Reading,
        forall|i: int| 0 <= i < chunks.len() ==> chunks[i] > 0,
        p.filled + chunk_sum(chunks) < p.requested,
        pos + chunk_sum(chunks) <= u64::MAX,
    ensures
        reads_accepted(p, pos, chunks.push(0)),
        run_reads(p, pos, chunks.push(0)) == (
        Pull { filled: (p.filled + chunk_sum(chunks)) as usize, end: PullEnd::EndOfStream, ..p },
        (pos + chunk_sum(chunks)) as u64),
    decreases chunks.len(),
{
    let all = chunks.push(0);
    if chunks.len() == 0 {
        assert(all.drop_first() =~= Seq::<usize>::empty());
        assert(all[0] == 0);
        let (next, next_pos) = p.after(pos, ReadOutcome::Read(0));
        assert(run_reads(next, next_pos, all.drop_first()) == (next, next_pos));
        assert(reads_accepted(next, next_pos, all.drop_first()));
    } else {
        let rest = chunks.drop_first();
        assert(chunks.push(0).drop_first() =~= rest.push(0));
        assert forall|i: int| 0 <= i < rest.len() implies rest[i] > 0 by {
            assert(rest[i] == chunks[i + 1]);
        }
        assert(chunk_sum(rest) >= 0) by {
            lemma_chunk_sum_nonneg(rest);
        }
        let next = Pull { filled: (p.filled + chunks[0]) as usize, ..p };
        assert(p.after(pos, ReadOutcome::Read(all[0])) == (next, (pos + chunks[0]) as u64));
        lemma_reads_then_end(next, (pos + chunks[0]) as u64, rest);
    }
}

proof fn lemma_chunk_sum_nonneg(chunks: Seq<usize>)
    ensures
        chunk_sum(chunks) >= 0,
    decreases chunks.len(),
{
    if chunks.len() > 0 {
        lemma_chunk_sum_nonneg(chunks.drop_first());
    }
}

/// A pull from a source that holds fewer bytes than were asked for, however
/// the source splits them into reads, takes every read, then ends at the
/// source's end: it reports the end-of-stream status with exactly the bytes
/// that the source had, not a failure, and the tracked position has moved by
/// that many bytes.
pub proof fn lemma_short_source_reports_end(requested: usize, pos: u64, chunks: Seq<usize>)
    requires
        forall|i: int| 0 <= i < chunks.len() ==> chunks[i] > 0,
        chunk_sum(chunks) < requested,
        pos + chunk_sum(chunks) <= u64::MAX,
    ensures
        reads_accepted(Pull::started(requested), pos, chunks.push(0)),
        run_reads(Pull::started(requested), pos, chunks.push(0)).0.reply_spec() == Some(
            PullReply { status: STREAM_EOF, size: chunk_sum(chunks) as usize },
        ),
        run_reads(Pull::started(requested), pos, chunks.push(0)).1 == pos + chunk_sum(chunks),
{
    lemma_chunk_sum_nonneg(chunks);
    lemma_reads_then_end(Pull::started(requested), pos, chunks);
}

/// Whatever position the stream is at, a size query seeks the source back to
/// that position in the end. Its reply is a length only where the source
/// confirmed both the length and the return, and then it is exactly that
/// length; any other reply is [`SIZE_UNKNOWN`], which no such length equals.
/// Where the return is confirmed, the tracked position is the one the query
/// began at.
pub proof fn lemma_size_query_restores(pos: u64, measured: Option<u64>, restored: Option<u64>)
    ensures
        SizeQuery::begun_at(pos).with_end(measured).restore_target() == SeekTarget::Start(pos),
        size_reply(pos, measured, restored) != SIZE_UNKNOWN ==> size_confirmed(
            pos,
            measured,
            restored,
        ) && size_reply(pos, measured, restored) == measured->0,
        size_confirmed(pos, measured, restored) && measured->0 < SIZE_UNKNOWN ==> size_reply(
            pos,
            measured,
            restored,
        ) == measured->0,
        restored == Some(pos) ==> size_final_position(pos, measured, restored) == pos,
{
}

} // verus!

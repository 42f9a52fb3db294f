//! The extraction side of a track buffer: which sectors of one track have
//! been copied into its container so far, and which burst to read next.
use vstd::prelude::*;
use crate::error::CdError;
use crate::wav::{declared_len_spec, header_spec, lemma_header_round_trip, read_le32, wav_header, HEADER_LEN, MAX_DATA_LEN, SECTOR_BYTES};

verus! {

/// Sectors read from the drive in one burst.
pub const BURST_SECTORS: u32 = 52;

/// One read of consecutive sectors: `sectors` sectors from address `lsn` on.
#[derive(Clone, Copy, Debug, PartialEq, Eq, Structural)]
pub struct Burst {
    pub lsn: i32,
    pub sectors: u32,
}

/// The extraction progress of one track. `offset` counts the sectors of
/// `start_lsn..end_lsn` that are already in the container; the next pass
/// resumes there.
#[derive(Clone, Copy, Debug, PartialEq, Eq, Structural)]
pub struct Song {
    pub track_id: usize,
    pub start_lsn: i32,
    pub end_lsn: i32,
    pub offset: i32,
    pub ended: bool,
}

/// A sector range whose samples fit in one container.
pub open spec fn valid_range(start: i32, end: i32) -> bool {
    start <= end && (end - start) * (SECTOR_BYTES as int) <= MAX_DATA_LEN as int
}

impl Song {
    pub open spec fn sectors(self) -> int {
        self.end_lsn - self.start_lsn
    }

    /// Length of the sample data once every sector is in.
    pub open spec fn data_len_spec(self) -> int {
        self.sectors() * SECTOR_BYTES as int
    }

    /// Sample bytes written so far.
    pub open spec fn bytes_written_spec(self) -> int {
        self.offset * SECTOR_BYTES as int
    }

    /// Length of the container file: header and the samples written so far.
    pub open spec fn file_len(self) -> int {
        HEADER_LEN as int + self.bytes_written_spec()
    }

    pub open spec fn wf(self) -> bool {
        &&& valid_range(self.start_lsn, self.end_lsn)
        &&& 0 <= self.offset <= self.sectors()
        &&& self.ended == (self.offset == self.sectors())
    }

    /// The burst that a pass reads next: none once the track is complete
    /// or when the pass is interrupted, else up to `BURST_SECTORS` sectors
    /// from the resume point.
    pub open spec fn burst_spec(self, interrupted: bool) -> Option<Burst> {
        if self.ended || interrupted {
            None
        } else {
            Some(
                Burst {
                    lsn: (self.start_lsn + self.offset) as i32,
                    sectors: if self.sectors() - self.offset < BURST_SECTORS as int {
                        (self.sectors() - self.offset) as u32
                    } else {
                        BURST_SECTORS
                    },
                },
            )
        }
    }

    /// The progress after the sectors of `b` were written.
    pub open spec fn record_spec(self, b: Burst) -> Song {
        Song {
            offset: (self.offset + b.sectors) as i32,
            ended: self.offset + b.sectors == self.sectors(),
            ..self
        }
    }

    /// One step of a pass: the next burst, if the pass goes on, is recorded.
    pub open spec fn step_spec(self, interrupted: bool) -> Song {
        match self.burst_spec(interrupted) {
            Some(b) => self.record_spec(b),
            None => self,
        }
    }

    /// Progress after a sequence of steps, each of which saw the
    /// interruption flag given for it.
    pub open spec fn run_spec(self, flags: Seq<bool>) -> Song
        decreases flags.len(),
    {
        if flags.len() == 0 {
            self
        } else {
            self.step_spec(flags[0]).run_spec(flags.drop_first())
        }
    }

    /// A fresh buffer for track `track_id` over the sectors `start..end`,
    /// nothing extracted yet. A range that is reversed or whose samples do
    /// not fit a container is refused.
    pub fn new(track_id: usize, range: (i32, i32)) -> (r: Result<Song, CdError>)
        ensures
            r is Ok <==> valid_range(range.0, range.1),
            r is Err ==> r == Err::<Song, CdError>(CdError::InvalidRange),
            r matches Ok(s) ==> s.wf() && s.track_id == track_id && s.start_lsn == range.0
                && s.end_lsn == range.1 && s.offset == 0 && s.bytes_written_spec() == 0
                && s.file_len() == HEADER_LEN && s.ended == (range.0 == range.1),
    {
        let (start_lsn, end_lsn) = range;
        if end_lsn < start_lsn {
            return Err(CdError::InvalidRange);
        }
        let sectors: i64 = end_lsn as i64 - start_lsn as i64;
        if sectors > (MAX_DATA_LEN / SECTOR_BYTES) as i64 {
            return Err(CdError::InvalidRange);
        }
        Ok(Song { track_id, start_lsn, end_lsn, offset: 0, ended: sectors == 0 })
    }

    /// Length of the sample data of the complete track.
    pub fn data_len(&self) -> (r: u32)
        requires
            self.wf(),
        ensures
            r == self.data_len_spec(),
    {
        ((self.end_lsn - self.start_lsn) as u32) * SECTOR_BYTES
    }

    /// The container header, sized for the complete track.
    pub fn header(&self) -> (r: Vec<u8>)
        requires
            self.wf(),
        ensures
            r@ == header_spec(self.data_len_spec() as nat),
    {
        wav_header(self.data_len())
    }

    /// Sample bytes written so far.
    pub fn bytes_written(&self) -> (r: u64)
        requires
            self.wf(),
        ensures
            r == self.bytes_written_spec(),
    {
        (self.offset as u64) * (SECTOR_BYTES as u64)
    }

    /// The burst to read next; `interrupted` is the shared change flag as
    /// last seen, and stops the pass before any further read.
    pub fn next_burst(&self, interrupted: bool) -> (r: Option<Burst>)
        requires
            self.wf(),
        ensures
            r == self.burst_spec(interrupted),
            r matches Some(b) ==> 0 < b.sectors <= BURST_SECTORS && self.start_lsn <= b.lsn
                && b.lsn + b.sectors <= self.end_lsn,
    {
        if self.ended || interrupted {
            return None;
        }
        let left: i32 = self.end_lsn - self.start_lsn - self.offset;
        let sectors: u32 = if left < BURST_SECTORS as i32 {
            left as u32
        } else {
            BURST_SECTORS
        };
        Some(Burst { lsn: self.start_lsn + self.offset, sectors })
    }

    /// Records that the sectors of `b`, the burst `next_burst` gave, are in
    /// the container.
    pub fn record_burst(&mut self, b: Burst)
        requires
            old(self).wf(),
            old(self).burst_spec(false) == Some(b),
        ensures
            *final(self) == old(self).record_spec(b),
            final(self).wf(),
            final(self).offset > old(self).offset,
            !old(self).ended,
    {
        self.offset = self.offset + b.sectors as i32;
        self.ended = self.offset == self.end_lsn - self.start_lsn;
    }
}

/// Number of steps in `flags` that were not interrupted.
pub open spec fn uninterrupted(flags: Seq<bool>) -> nat
    decreases flags.len(),
{
    if flags.len() == 0 {
        0
    } else {
        (if flags[0] { 0nat } else { 1nat }) + uninterrupted(flags.drop_first())
    }
}

pub open spec fn min_int(a: int, b: int) -> int {
    if a <= b {
        a
    } else {
        b
    }
}

/// Extraction progress only grows, by one burst per uninterrupted step,
/// whatever interruptions come between: after any sequence of steps the
/// buffer holds exactly `min(sectors, offset + BURST_SECTORS * k)`
/// sectors, `k` being the number of uninterrupted steps, it stays well
/// formed and describes the same track, and a complete buffer stays
/// complete.
pub proof fn lemma_run_progress(s: Song, flags: Seq<bool>)
    requires
        s.wf(),
    ensures
        s.run_spec(flags).wf(),
        s.run_spec(flags).track_id == s.track_id,
        s.run_spec(flags).start_lsn == s.start_lsn,
        s.run_spec(flags).end_lsn == s.end_lsn,
        s.run_spec(flags).offset == min_int(
            s.sectors(),
            s.offset + BURST_SECTORS * uninterrupted(flags),
        ),
        s.run_spec(flags).offset >= s.offset,
        s.ended ==> s.run_spec(flags).ended,
    decreases flags.len(),
{
    if flags.len() > 0 {
        let s1 = s.step_spec(flags[0]);
        assert(s1.wf());
        lemma_run_progress(s1, flags.drop_first());
    }
}

/// An interrupted step reads nothing and leaves the resume point where it was.
pub proof fn lemma_interrupt_stops(s: Song)
    requires
        s.wf(),
    ensures
        s.burst_spec(true) is None,
        s.step_spec(true) == s,
{
}

/// However a track's extraction was interrupted and resumed, once it is
/// complete it holds exactly the bytes of an uninterrupted run: the
/// declared sample length, after the header.
pub proof fn lemma_resumed_run_complete(s: Song, flags: Seq<bool>)
    requires
        s.wf(),
        s.offset == 0,
        BURST_SECTORS * uninterrupted(flags) >= s.sectors(),
    ensures
        s.run_spec(flags).ended,
        s.run_spec(flags).bytes_written_spec() == s.data_len_spec(),
        s.run_spec(flags).file_len() == HEADER_LEN + s.data_len_spec(),
{
    lemma_run_progress(s, flags);
}

/// The header of a buffer over N sectors declares N * SECTOR_BYTES bytes
/// of samples, and the finished container is exactly that long after the
/// header.
pub proof fn lemma_complete_container(s: Song)
    requires
        s.wf(),
        s.ended,
    ensures
        declared_len_spec(header_spec(s.data_len_spec() as nat)) == Some(
            (s.sectors() * SECTOR_BYTES) as nat,
        ),
        s.file_len() == HEADER_LEN + read_le32(header_spec(s.data_len_spec() as nat), 40),
{
    lemma_header_round_trip(s.data_len_spec() as nat);
}

} // verus!

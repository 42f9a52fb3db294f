//! The extraction worker's decisions: the disc's track table, the two
//! cache slots (the track selected for playback and its look-ahead
//! successor) and which burst of sectors to read next.
use vstd::prelude::*;
use crate::action::Action;
use crate::error::CdError;
use crate::song::{valid_range, Burst, Song};

verus! {

/// Where the extraction worker goes after looking at the requested action.
#[derive(Debug)]
pub enum Step {
    /// The player stopped: the worker ends.
    Exit,
    /// The player is paused: the worker blocks until the action changes.
    Wait,
    /// The cache slots were brought in line with the requested track;
    /// extraction goes on.
    Extract(SlotChanges),
}

/// The buffers that a change of track dropped and created, by track
/// number. Dropped buffers are listed first so that their stores can be
/// deleted before new ones are made.
#[derive(Debug)]
pub struct SlotChanges {
    pub discarded: Vec<usize>,
    pub created: Vec<usize>,
}

/// What the extraction worker does next within a pass.
#[derive(Clone, Copy, Debug, PartialEq, Eq, Structural)]
pub enum Work {
    /// Read `burst` into the buffer of cache slot `slot`.
    Read { slot: usize, burst: Burst },
    /// Every cached track is complete: block until the action changes.
    Wait,
    /// The action changed: look at it again before reading on.
    Recheck,
}

/// The state of the extraction worker: the disc's sector range of each
/// track (index `t - 1` for track `t`), the number of tracks, and the
/// cache slots, primary first.
pub struct Reader {
    song_sectors: Vec<(i32, i32)>,
    tracks: u8,
    songs: Vec<Song>,
}

pub ghost struct ReaderView {
    pub sectors: Seq<(i32, i32)>,
    pub tracks: u8,
    pub songs: Seq<Song>,
}

impl View for Reader {
    type V = ReaderView;

    closed spec fn view(&self) -> ReaderView {
        ReaderView { sectors: self.song_sectors@, tracks: self.tracks, songs: self.songs@ }
    }
}

/// A track table of the disc: at least one track, a range for each, and
/// every range fits a container.
pub open spec fn valid_table(sectors: Seq<(i32, i32)>, tracks: u8) -> bool {
    &&& 1 <= tracks
    &&& tracks <= sectors.len()
    &&& forall|i: int| 0 <= i < sectors.len() ==> valid_range(#[trigger] sectors[i].0, sectors[i].1)
}

impl ReaderView {
    /// A buffer with nothing extracted yet for track `t`.
    pub open spec fn fresh(self, t: int) -> Song {
        Song {
            track_id: t as usize,
            start_lsn: self.sectors[t - 1].0,
            end_lsn: self.sectors[t - 1].1,
            offset: 0,
            ended: self.sectors[t - 1].0 == self.sectors[t - 1].1,
        }
    }

    /// Whether track `t` has a successor worth extracting ahead.
    pub open spec fn has_successor(self, t: int) -> bool {
        t + 1 < self.tracks
    }

    /// The slots when `primary` (track `t`) is selected: the primary, and
    /// a fresh buffer for its successor where there is one.
    pub open spec fn slots_for(self, t: int, primary: Song) -> Seq<Song> {
        if self.has_successor(t) {
            seq![primary, self.fresh(t + 1)]
        } else {
            seq![primary]
        }
    }

    pub open spec fn is_track(self, t: int) -> bool {
        1 <= t <= self.tracks
    }

    /// Track `t` is already cached in the look-ahead slot.
    pub open spec fn is_cached_next(self, t: int) -> bool {
        self.songs.len() == 2 && self.songs[1].track_id == t
    }

    /// The slots after track `t` is requested.
    pub open spec fn select_songs(self, t: int) -> Seq<Song> {
        if t == self.songs[0].track_id {
            self.songs
        } else if self.is_cached_next(t) {
            self.slots_for(t, self.songs[1])
        } else {
            self.slots_for(t, self.fresh(t))
        }
    }

    /// Tracks whose buffers are dropped when track `t` is requested.
    pub open spec fn select_discarded(self, t: int) -> Seq<usize> {
        if t == self.songs[0].track_id {
            seq![]
        } else if self.is_cached_next(t) {
            seq![self.songs[0].track_id]
        } else {
            self.songs.map_values(|s: Song| s.track_id)
        }
    }

    /// Tracks whose buffers are created when track `t` is requested.
    pub open spec fn select_created(self, t: int) -> Seq<usize> {
        let next: Seq<usize> = if self.has_successor(t) {
            seq![(t + 1) as usize]
        } else {
            seq![]
        };
        if t == self.songs[0].track_id {
            seq![]
        } else if self.is_cached_next(t) {
            next
        } else {
            seq![t as usize] + next
        }
    }

    /// The state after the requested action is taken in; other actions
    /// and unknown tracks leave it as it is.
    pub open spec fn after_action(self, a: Action) -> ReaderView {
        match a {
            Action::Play(t) => if self.is_track(t as int) {
                ReaderView { songs: self.select_songs(t as int), ..self }
            } else {
                self
            },
            _ => self,
        }
    }

    /// The work that comes next within a pass, given the change flag.
    pub open spec fn work_spec(self, changed: bool) -> Work {
        if changed {
            Work::Recheck
        } else if !self.songs[0].ended {
            Work::Read { slot: 0, burst: self.songs[0].burst_spec(false)->Some_0 }
        } else if self.songs.len() == 2 && !self.songs[1].ended {
            Work::Read { slot: 1, burst: self.songs[1].burst_spec(false)->Some_0 }
        } else {
            Work::Wait
        }
    }

    pub open spec fn wf(self) -> bool {
        &&& valid_table(self.sectors, self.tracks)
        &&& 1 <= self.songs.len() <= 2
        &&& forall|i: int|
            0 <= i < self.songs.len() ==> {
                let s = #[trigger] self.songs[i];
                &&& s.wf()
                &&& self.is_track(s.track_id as int)
                &&& s.start_lsn == self.sectors[s.track_id - 1].0
                &&& s.end_lsn == self.sectors[s.track_id - 1].1
            }
        &&& self.songs.len() == 2 ==> self.songs[1].track_id == self.songs[0].track_id + 1
    }
}

/// The track table from the drive: `lsns` holds the first sector of each
/// track from `first_track` to `last_track`, then the lead-out; track `i`
/// spans from its first sector up to the next track's. `0xFF` as first or
/// last track means the drive found no audio disc.
pub fn track_table(first_track: u8, last_track: u8, lsns: &Vec<i32>) -> (r: Result<
    Vec<(i32, i32)>,
    CdError,
>)
    ensures
        (first_track == 0xFF || last_track == 0xFF) ==> r == Err::<Vec<(i32, i32)>, CdError>(
            CdError::InvalidDisc,
        ),
        (first_track != 0xFF && last_track != 0xFF && (first_track == 0 || last_track
            < first_track || lsns@.len() != last_track - first_track + 2)) ==> r == Err::<
            Vec<(i32, i32)>,
            CdError,
        >(CdError::InvalidToc),
        (first_track != 0xFF && last_track != 0xFF && first_track != 0 && first_track
            <= last_track && lsns@.len() == last_track - first_track + 2) ==> (r matches Ok(t)
            && t@.len() == lsns@.len() - 1 && forall|i: int|
            0 <= i < t@.len() ==> #[trigger] t@[i] == (lsns@[i], lsns@[i + 1])),
{
    if first_track == 0xFF || last_track == 0xFF {
        return Err(CdError::InvalidDisc);
    }
    if first_track == 0 || last_track < first_track || lsns.len() != (last_track - first_track)
        as usize + 2 {
        return Err(CdError::InvalidToc);
    }
    let mut table: Vec<(i32, i32)> = Vec::new();
    let mut i: usize = 0;
    while i + 1 < lsns.len()
        invariant
            i < lsns@.len(),
            lsns@.len() <= 257,
            table@.len() == i,
            forall|j: int| 0 <= j < i ==> #[trigger] table@[j] == (lsns@[j], lsns@[j + 1]),
        decreases lsns@.len() - i,
    {
        table.push((lsns[i], lsns[i + 1]));
        i = i + 1;
    }
    Ok(table)
}

impl Reader {
    pub open spec fn wf(&self) -> bool {
        self@.wf()
    }

    /// Number of tracks on the disc.
    pub fn tracks(&self) -> (r: u8)
        ensures
            r == self@.tracks,
    {
        self.tracks
    }

    /// The cached buffers, primary first.
    pub fn songs(&self) -> (r: &Vec<Song>)
        ensures
            r@ == self@.songs,
    {
        &self.songs
    }

    /// A buffer with nothing extracted yet for track `t`.
    fn fresh(&self, t: usize) -> (r: Song)
        requires
            valid_table(self@.sectors, self@.tracks),
            1 <= t <= self@.tracks,
        ensures
            r == self@.fresh(t as int),
            r.wf(),
    {
        let (start_lsn, end_lsn) = self.song_sectors[t - 1];
        assert(valid_range(self@.sectors[t - 1].0, self@.sectors[t - 1].1));
        Song { track_id: t, start_lsn, end_lsn, offset: 0, ended: start_lsn == end_lsn }
    }

    /// The primary buffer for track `t` and, where there is a successor, a
    /// fresh one for it.
    fn slots_for(&self, t: usize, primary: Song) -> (r: Vec<Song>)
        requires
            valid_table(self@.sectors, self@.tracks),
            1 <= t <= self@.tracks,
        ensures
            r@ == self@.slots_for(t as int, primary),
    {
        let mut songs: Vec<Song> = Vec::new();
        songs.push(primary);
        if t + 1 < self.tracks as usize {
            songs.push(self.fresh(t + 1));
        }
        assert(songs@ =~= self@.slots_for(t as int, primary));
        songs
    }

    /// Starts a disc session over the track table `song_sectors` of a disc
    /// with `tracks` tracks: track 1 is cached, with its successor where
    /// there is one. A table shorter than the track count, or with no
    /// track, is refused with `InvalidToc`; one with a range that is
    /// reversed or too long for a container, with `InvalidRange`.
    pub fn new(song_sectors: Vec<(i32, i32)>, tracks: u8) -> (r: Result<Reader, CdError>)
        ensures
            (tracks == 0 || song_sectors@.len() < tracks) ==> r == Err::<Reader, CdError>(
                CdError::InvalidToc,
            ),
            (tracks >= 1 && song_sectors@.len() >= tracks && !valid_table(song_sectors@, tracks))
                ==> r == Err::<Reader, CdError>(CdError::InvalidRange),
            valid_table(song_sectors@, tracks) ==> (r matches Ok(rd) && rd.wf() && rd@.sectors
                == song_sectors@ && rd@.tracks == tracks && rd@.songs == rd@.slots_for(
                1,
                rd@.fresh(1),
            )),
    {
        if tracks == 0 || song_sectors.len() < tracks as usize {
            return Err(CdError::InvalidToc);
        }
        let mut i: usize = 0;
        while i < song_sectors.len()
            invariant
                i <= song_sectors@.len(),
                1 <= tracks <= song_sectors@.len(),
                forall|j: int|
                    0 <= j < i ==> valid_range(#[trigger] song_sectors@[j].0, song_sectors@[j].1),
            decreases song_sectors@.len() - i,
        {
            if Song::new(i + 1, song_sectors[i]).is_err() {
                return Err(CdError::InvalidRange);
            }
            i = i + 1;
        }
        let mut reader = Reader { song_sectors, tracks, songs: Vec::new() };
        let first = reader.fresh(1);
        reader.songs = reader.slots_for(1, first);
        Ok(reader)
    }

    /// Takes in the action that the control state requests. `Stop` ends
    /// the worker and `Pause` makes it wait. `Play(t)` keeps the cache if
    /// `t` is already the primary; promotes the look-ahead buffer, with
    /// its progress, if it holds `t`; else drops both and starts `t`
    /// afresh. In the last two cases a fresh buffer for `t`'s successor
    /// is added where there is one. A track outside the disc's table is
    /// refused with `NoSuchTrack`, and nothing changes.
    pub fn handle(&mut self, action: Action) -> (r: Result<Step, CdError>)
        requires
            old(self).wf(),
        ensures
            final(self).wf(),
            final(self)@ == old(self)@.after_action(action),
            action is Stop ==> r matches Ok(Step::Exit),
            action is Pause ==> r matches Ok(Step::Wait),
            action matches Action::Play(t) ==> {
                &&& !old(self)@.is_track(t as int) ==> r == Err::<Step, CdError>(
                    CdError::NoSuchTrack,
                )
                &&& old(self)@.is_track(t as int) ==> (r matches Ok(Step::Extract(c))
                    && c.discarded@ == old(self)@.select_discarded(t as int) && c.created@
                    == old(self)@.select_created(t as int))
            },
    {
        match action {
            Action::Stop => Ok(Step::Exit),
            Action::Pause(_) => Ok(Step::Wait),
            Action::Play(t) => {
                if t == 0 || t > self.tracks {
                    return Err(CdError::NoSuchTrack);
                }
                let t = t as usize;
                let mut discarded: Vec<usize> = Vec::new();
                let mut created: Vec<usize> = Vec::new();
                let ghost v = self@;
                if t != self.songs[0].track_id {
                    if self.songs.len() == 2 && self.songs[1].track_id == t {
                        discarded.push(self.songs[0].track_id);
                        let next = self.songs[1];
                        self.songs = self.slots_for(t, next);
                    } else {
                        discarded.push(self.songs[0].track_id);
                        if self.songs.len() == 2 {
                            discarded.push(self.songs[1].track_id);
                        }
                        created.push(t);
                        let first = self.fresh(t);
                        self.songs = self.slots_for(t, first);
                    }
                    if t + 1 < self.tracks as usize {
                        created.push(t + 1);
                    }
                }
                assert(discarded@ =~= v.select_discarded(t as int));
                assert(created@ =~= v.select_created(t as int));
                assert(self@ =~= v.after_action(action));
                Ok(Step::Extract(SlotChanges { discarded, created }))
            },
        }
    }

    /// What to do next in a pass: start over if the action changed,
    /// else read the next burst of the primary buffer and, once that is
    /// complete, of the look-ahead buffer; wait once both are complete.
    pub fn next_work(&self, changed: bool) -> (r: Work)
        requires
            self.wf(),
        ensures
            r == self@.work_spec(changed),
            r matches Work::Read { slot, burst } ==> slot < self@.songs.len() && self@.songs[slot
                as int].burst_spec(false) == Some(burst),
    {
        if changed {
            return Work::Recheck;
        }
        let primary = self.songs[0];
        if !primary.ended {
            return match primary.next_burst(false) {
                Some(burst) => Work::Read { slot: 0, burst },
                None => Work::Wait,
            };
        }
        if self.songs.len() == 2 {
            let next = self.songs[1];
            if !next.ended {
                return match next.next_burst(false) {
                    Some(burst) => Work::Read { slot: 1, burst },
                    None => Work::Wait,
                };
            }
        }
        Work::Wait
    }

    /// Records that `burst` was read into the buffer of `slot`.
    pub fn record(&mut self, slot: usize, burst: Burst)
        requires
            old(self).wf(),
            old(self)@.work_spec(false) == (Work::Read { slot, burst }),
        ensures
            final(self).wf(),
            final(self)@ == old(self)@.after_read(),
            final(self)@.songs == old(self)@.songs.update(
                slot as int,
                old(self)@.songs[slot as int].record_spec(burst),
            ),
    {
        let mut song = self.songs[slot];
        song.record_burst(burst);
        self.songs.set(slot, song);
        assert(self@.songs[slot as int] == song);
    }
}

impl ReaderView {
    /// The state after the burst that `next_work` gives is read; unchanged
    /// when every cached track is complete.
    pub open spec fn after_read(self) -> ReaderView {
        match self.work_spec(false) {
            Work::Read { slot, burst } => ReaderView {
                songs: self.songs.update(slot as int, self.songs[slot as int].record_spec(burst)),
                ..self
            },
            _ => self,
        }
    }
}

/// The extraction worker's state after each event of `events` in turn:
/// `Some(a)` takes in action `a`, `None` reads one burst.
pub open spec fn run_events(v: ReaderView, events: Seq<Option<Action>>) -> ReaderView
    decreases events.len(),
{
    if events.len() == 0 {
        v
    } else {
        let next = match events[0] {
            Some(a) => v.after_action(a),
            None => v.after_read(),
        };
        run_events(next, events.drop_first())
    }
}

/// Reading a burst keeps the extraction worker's state well formed.
pub proof fn lemma_read_keeps_wf(v: ReaderView)
    requires
        v.wf(),
    ensures
        v.after_read().wf(),
{
    if let Work::Read { slot, burst } = v.work_spec(false) {
        let s = v.songs[slot as int];
        assert(s.burst_spec(false) == Some(burst));
        assert(s.record_spec(burst).wf());
        let w = v.after_read();
        assert forall|i: int| 0 <= i < w.songs.len() implies {
            let s = #[trigger] w.songs[i];
            &&& s.wf()
            &&& w.is_track(s.track_id as int)
            &&& s.start_lsn == w.sectors[s.track_id - 1].0
            &&& s.end_lsn == w.sectors[s.track_id - 1].1
        } by {
            if i != slot {
                assert(w.songs[i] == v.songs[i]);
            }
        }
    }
}

/// Taking in any action keeps the extraction worker's state well formed.
pub proof fn lemma_action_keeps_wf(v: ReaderView, a: Action)
    requires
        v.wf(),
    ensures
        v.after_action(a).wf(),
{
    if let Action::Play(t) = a {
        if v.is_track(t as int) {
            let t = t as int;
            assert(valid_range(v.sectors[t - 1].0, v.sectors[t - 1].1));
            if v.has_successor(t) {
                assert(valid_range(v.sectors[t].0, v.sectors[t].1));
            }
        }
    }
}

/// At most two track buffers exist at any time: after any sequence of
/// `Play`, `Pause` and `Stop` actions, with any bursts read in between,
/// the worker holds one or two cached buffers, and a second one is always
/// the successor of the first.
pub proof fn lemma_at_most_two_buffers(v: ReaderView, events: Seq<Option<Action>>)
    requires
        v.wf(),
    ensures
        run_events(v, events).wf(),
        1 <= run_events(v, events).songs.len() <= 2,
    decreases events.len(),
{
    if events.len() > 0 {
        let next = match events[0] {
            Some(a) => v.after_action(a),
            None => v.after_read(),
        };
        match events[0] {
            Some(a) => lemma_action_keeps_wf(v, a),
            None => lemma_read_keeps_wf(v),
        }
        lemma_at_most_two_buffers(next, events.drop_first());
    }
}

/// Requesting the track that the look-ahead slot holds promotes that
/// buffer with all its progress: only the old primary is dropped, and no
/// buffer for the requested track is created, so none of its sectors is
/// read again.
pub proof fn lemma_promotion_keeps_progress(v: ReaderView, t: u8)
    requires
        v.wf(),
        v.is_track(t as int),
        t != v.songs[0].track_id,
        v.is_cached_next(t as int),
    ensures
        v.after_action(Action::Play(t)).songs[0] == v.songs[1],
        v.select_discarded(t as int) == seq![v.songs[0].track_id],
        !v.select_created(t as int).contains(t as usize),
        v.after_action(Action::Play(t)).wf(),
{
    lemma_action_keeps_wf(v, Action::Play(t));
    let c = v.select_created(t as int);
    if c.contains(t as usize) {
        let i = choose|i: int| 0 <= i < c.len() && c[i] == t as usize;
        assert(c[i] == (t + 1) as usize);
    }
}

} // verus!

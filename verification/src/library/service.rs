//! Keeping the index in step with the files.
use vstd::prelude::*;

use super::{find_id, find_path, ClipDirs, ClipRecord, Indexed, Job, JobResult, LibraryService, Polled};
use crate::text::{join2, list_contains, same};

verus! {

/// The list without a text.
fn remove_text(list: &mut Vec<String>, text: &str)
    ensures
        crate::text::views(final(list)@).to_set() == crate::text::views(
            old(list)@,
        ).to_set().remove(text@),
{
    let ghost before = crate::text::views(list@);
    let mut i: usize = 0;
    while i < list.len()
        invariant
            i <= list.len(),
            forall|k: int| 0 <= k < i ==> crate::text::views(list@)[k] != text@,
            forall|x: Seq<char>|
                x != text@ ==> #[trigger] crate::text::views(list@).contains(x) == before.contains(
                    x,
                ),
        decreases list.len() - i,
    {
        if same(list[i].as_str(), text) {
            let ghost now = crate::text::views(list@);
            let _ = list.remove(i);
            let ghost after = crate::text::views(list@);
            assert(after =~= now.remove(i as int));
            assert forall|x: Seq<char>| x != text@ implies #[trigger] after.contains(x)
                == before.contains(x) by {
                if now.contains(x) {
                    let k = choose|k: int| 0 <= k < now.len() && now[k] == x;
                    assert(after[if k < i {
                        k
                    } else {
                        k - 1
                    }] == x);
                }
                if after.contains(x) {
                    let k = choose|k: int| 0 <= k < after.len() && after[k] == x;
                    assert(now[if k < i {
                        k
                    } else {
                        k + 1
                    }] == x);
                }
            }
        } else {
            i = i + 1;
        }
    }
    let ghost after = crate::text::views(list@);
    assert(!after.contains(text@));
    assert(after.to_set() =~= before.to_set().remove(text@));
}

impl LibraryService {
    /// The clips that the background works on.
    pub open spec fn busy(self) -> Set<Seq<char>> {
        crate::text::views(self.in_flight@).to_set()
    }

    /// No two clips share their id.
    pub open spec fn wf(self) -> bool {
        super::ids_differ(self.clips@)
    }

    /// A service for an index that was loaded.
    pub fn new(clips: Vec<ClipRecord>, dirs: ClipDirs) -> (r: Self)
        ensures
            r.clips == clips,
            r.dirs == dirs,
            r.in_flight.len() == 0,
            r.dirty_since is None,
            super::ids_differ(clips@) ==> r.wf(),
    {
        LibraryService { clips, dirs, in_flight: Vec::new(), dirty_since: None }
    }

    /// Remembers since when the index differs from its file.
    pub(crate) fn mark_dirty(&mut self, now: u64)
        ensures
            *final(self) == (LibraryService {
                dirty_since: super::dirty_from(old(self).dirty_since, now),
                ..*old(self)
            }),
    {
        if self.dirty_since.is_none() {
            self.dirty_since = Some(now);
        }
    }

    /// Whether the index is to be written now because it changed. Called at
    /// exit.
    pub fn flush(&mut self) -> (r: bool)
        ensures
            r == (old(self).dirty_since is Some),
            *final(self) == (LibraryService { dirty_since: None, ..*old(self) }),
    {
        self.dirty_since.take().is_some()
    }

    /// Whether the index is to be written because it has been dirty for a
    /// while.
    pub fn save_if_due(&mut self, now: u64) -> (r: bool)
        ensures
            r == super::is_due(old(self).dirty_since, now),
            *final(self) == (LibraryService {
                dirty_since: if r {
                    None
                } else {
                    old(self).dirty_since
                },
                ..*old(self)
            }),
    {
        let due = match self.dirty_since {
            Some(since) => now >= since && now - since >= super::SAVE_DELAY,
            None => false,
        };
        if due {
            self.flush()
        } else {
            false
        }
    }

    /// The clip with this id.
    pub fn record(&self, id: &str) -> (r: Option<&ClipRecord>)
        ensures
            match r {
                Some(c) => super::index_of_id(self.clips@, id@) matches Some(i) && 0 <= i
                    < self.clips.len() && *c == self.clips@[i],
                None => super::index_of_id(self.clips@, id@) is None,
            },
    {
        match find_id(&self.clips, id) {
            Some(i) => Some(&self.clips[i]),
            None => None,
        }
    }

    /// Takes work for the background: clips that are not worked on yet, each
    /// with what is missing of it.
    pub fn queue(&mut self, ids: Vec<String>) -> (r: Vec<Job>)
        ensures
            r@ == super::jobs_for(
                old(self).clips@,
                crate::text::views(old(self).in_flight@),
                crate::text::views(ids@),
            ),
            *final(self) == (LibraryService { in_flight: final(self).in_flight, ..*old(self) }),
            crate::text::views(final(self).in_flight@) == crate::text::views(
                old(self).in_flight@,
            ) + r@.map_values(|j: Job| j.id@),
    {
        let ghost all = crate::text::views(ids@);
        let ghost busy = crate::text::views(self.in_flight@);
        let mut jobs: Vec<Job> = Vec::new();
        let mut i: usize = 0;
        while i < ids.len()
            invariant
                i <= ids.len(),
                all == crate::text::views(ids@),
                busy == crate::text::views(self.in_flight@),
                *self == *old(self),
                jobs@ == super::jobs_for(self.clips@, busy, all.take(i as int)),
            decreases ids.len() - i,
        {
            assert(all.take(i + 1).drop_last() =~= all.take(i as int));
            if !list_contains(&self.in_flight, ids[i].as_str()) {
                if let Some(at) = find_id(&self.clips, ids[i].as_str()) {
                    let record = &self.clips[at];
                    jobs.push(
                        Job {
                            id: record.id.clone(),
                            path: record.path.clone(),
                            probe: !record.probed,
                            thumbnail: record.thumbnail.is_none(),
                            duration_ms: record.duration_ms,
                        },
                    );
                }
            }
            i = i + 1;
        }
        assert(all.take(i as int) =~= all);
        let ghost f = |j: Job| j.id@;
        let mut k: usize = 0;
        assert(crate::text::views(self.in_flight@) =~= busy + jobs@.take(0).map_values(f));
        while k < jobs.len()
            invariant
                k <= jobs.len(),
                f == (|j: Job| j.id@),
                *self == (LibraryService { in_flight: self.in_flight, ..*old(self) }),
                crate::text::views(self.in_flight@) == busy + jobs@.take(k as int).map_values(f),
            decreases jobs.len() - k,
        {
            let ghost before = crate::text::views(self.in_flight@);
            self.in_flight.push(jobs[k].id.clone());
            assert(crate::text::views(self.in_flight@) =~= before.push(jobs@[k as int].id@));
            assert(jobs@.take(k + 1).map_values(f) =~= jobs@.take(k as int).map_values(f).push(
                jobs@[k as int].id@,
            ));
            assert(crate::text::views(self.in_flight@) =~= busy + jobs@.take(k + 1).map_values(f));
            k = k + 1;
        }
        assert(jobs@.take(k as int) =~= jobs@);
        jobs
    }

    /// Puts a file the application just wrote into the index with what is
    /// known about it (no rescan) and queues its probe and thumbnail. Its
    /// kind comes from the folder that it lives in. A
    /// file already indexed (an edit that replaced it) gets its game and
    /// track names. Says whether the gallery changed, which it does either
    /// way, and what is to be done with the file.
    pub fn index_written(&mut self, clip: ClipRecord, now: u64) -> (r: Indexed)
        ensures
            r.changed,
            old(self).wf() && (super::index_of_path(old(self).clips@, clip.path@) is None
                ==> super::index_of_id(old(self).clips@, clip.id@) is None) ==> final(self).wf(),
            final(self).dirs == old(self).dirs,
            final(self).dirty_since == super::dirty_from(old(self).dirty_since, now),
            match super::index_of_path(old(self).clips@, clip.path@) {
                None => {
                    &&& final(self).clips@ == old(self).clips@.push(
                        ClipRecord { kind: old(self).dirs.kind(clip.path@), ..clip },
                    )
                    &&& r.jobs@ == super::jobs_for(
                        final(self).clips@,
                        crate::text::views(old(self).in_flight@),
                        seq![clip.id@],
                    )
                    &&& crate::text::views(final(self).in_flight@) == crate::text::views(
                        old(self).in_flight@,
                    ) + r.jobs@.map_values(|j: Job| j.id@)
                },
                Some(i) => {
                    &&& r.jobs.len() == 0
                    &&& final(self).in_flight == old(self).in_flight
                    &&& final(self).clips@ == old(self).clips@.update(
                        i,
                        ClipRecord {
                            audio_tracks: if clip.audio_tracks.len() > 0 {
                                clip.audio_tracks
                            } else {
                                old(self).clips@[i].audio_tracks
                            },
                            game: if clip.game is Some {
                                clip.game
                            } else {
                                old(self).clips@[i].game
                            },
                            ..old(self).clips@[i]
                        },
                    )
                },
            },
    {
        self.mark_dirty(now);
        match find_path(&self.clips, clip.path.as_str()) {
            None => {
                let mut ids: Vec<String> = Vec::new();
                ids.push(clip.id.clone());
                assert(crate::text::views(ids@) =~= seq![clip.id@]);
                let kind = self.dirs.kind_for(clip.path.as_str());
                proof {
                    let added = ClipRecord { kind, ..clip };
                    if old(self).wf() && super::index_of_id(self.clips@, added.id@) is None {
                        super::a_new_id_keeps_ids_apart(self.clips@, added);
                    }
                }
                self.clips.push(ClipRecord { kind, ..clip });
                let jobs = self.queue(ids);
                Indexed { changed: true, jobs }
            },
            Some(i) => {
                let tracks = clip.audio_tracks;
                let game = clip.game;
                if tracks.len() > 0 {
                    self.clips[i].audio_tracks = tracks;
                }
                if game.is_some() {
                    self.clips[i].game = game;
                }
                Indexed { changed: true, jobs: Vec::new() }
            },
        }
    }

    /// Takes other folders over. Returns whether they are to be scanned
    /// again.
    pub fn set_dirs(&mut self, dirs: ClipDirs) -> (r: bool)
        ensures
            r == !dirs.same_as(old(self).dirs),
            *final(self) == (LibraryService {
                dirs: if r {
                    dirs
                } else {
                    old(self).dirs
                },
                ..*old(self)
            }),
    {
        if dirs.same(&self.dirs) {
            false
        } else {
            self.dirs = dirs;
            true
        }
    }

    /// Forgets thumbnails whose files are gone: `exists` says for each clip
    /// whether its thumbnail is there. Returns whether any was.
    pub fn drop_missing_thumbnails(&mut self, exists: &Vec<bool>) -> (r: bool)
        requires
            exists.len() == old(self).clips.len(),
        ensures
            *final(self) == (LibraryService { clips: final(self).clips, ..*old(self) }),
            final(self).clips.len() == old(self).clips.len(),
            forall|i: int|
                0 <= i < old(self).clips.len() ==> #[trigger] final(self).clips@[i]
                    == if old(self).clips@[i].thumbnail is Some && !exists@[i] {
                    ClipRecord { thumbnail: None, ..old(self).clips@[i] }
                } else {
                    old(self).clips@[i]
                },
            r == exists|i: int|
                0 <= i < old(self).clips.len() && (#[trigger] old(self).clips@[i]).thumbnail is Some
                    && !exists@[i],
            old(self).wf() ==> final(self).wf(),
    {
        let ghost before = self.clips@;
        let mut changed = false;
        let mut i: usize = 0;
        while i < self.clips.len()
            invariant
                exists.len() == before.len() == self.clips.len(),
                before == old(self).clips@,
                i <= before.len(),
                *self == (LibraryService { clips: self.clips, ..*old(self) }),
                forall|k: int|
                    0 <= k < i ==> #[trigger] self.clips@[k] == if before[k].thumbnail is Some
                        && !exists@[k] {
                        ClipRecord { thumbnail: None, ..before[k] }
                    } else {
                        before[k]
                    },
                forall|k: int| i <= k < before.len() ==> #[trigger] self.clips@[k] == before[k],
                changed == exists|k: int|
                    0 <= k < i && (#[trigger] before[k]).thumbnail is Some && !exists@[k],
            decreases before.len() - i,
        {
            if self.clips[i].thumbnail.is_some() && !exists[i] {
                self.clips[i].thumbnail = None;
                changed = true;
                assert(before[i as int].thumbnail is Some && !exists@[i as int]);
            }
            i = i + 1;
        }
        changed
    }

    /// Takes over the index after it was compared with the files: `changed`
    /// says whether anything differs, `pending` lists the clips with work to
    /// do. Returns that work.
    pub fn refresh(
        &mut self,
        clips: Vec<ClipRecord>,
        changed: bool,
        pending: Vec<String>,
        now: u64,
    ) -> (r: Vec<Job>)
        ensures
            final(self).clips == clips,
            super::ids_differ(clips@) ==> final(self).wf(),
            final(self).dirs == old(self).dirs,
            final(self).dirty_since == if changed {
                super::dirty_from(old(self).dirty_since, now)
            } else {
                old(self).dirty_since
            },
            r@ == super::jobs_for(
                clips@,
                crate::text::views(old(self).in_flight@),
                crate::text::views(pending@),
            ),
            crate::text::views(final(self).in_flight@) == crate::text::views(
                old(self).in_flight@,
            ) + r@.map_values(|j: Job| j.id@),
    {
        self.clips = clips;
        if changed {
            self.mark_dirty(now);
        }
        self.queue(pending)
    }

    fn apply_result(&mut self, result: JobResult) -> (r: bool)
        ensures
            r == super::changes(old(self).clips@, result),
            final(self).clips@ == super::clips_after(old(self).clips@, result),
            final(self).dirs == old(self).dirs,
            final(self).dirty_since == old(self).dirty_since,
            final(self).busy() == old(self).busy().remove(result.id@),
    {
        let mut changed = result.info.is_some() || result.thumbnail.is_some();
        remove_text(&mut self.in_flight, result.id.as_str());
        if let Some(i) = find_id(&self.clips, result.id.as_str()) {
            if !self.clips[i].probed {
                changed = true;
            }
            if let Some(info) = &result.info {
                self.clips[i].duration_ms = info.duration / 1_000_000;
                self.clips[i].width = info.width;
                self.clips[i].height = info.height;
                if self.clips[i].audio_tracks.len() == 0 {
                    self.clips[i].audio_tracks = result.track_names;
                }
            }
            self.clips[i].probed = true;
            if let Some(thumbnail) = &result.thumbnail {
                self.clips[i].thumbnail = Some(thumbnail.clone());
            }
            assert(self.clips@ =~= super::clips_after(old(self).clips@, result));
        }
        changed
    }

    /// Applies finished background work, and says whether the index is to be
    /// written because it has been dirty long enough. A file that could not
    /// be read is not tried again on every refresh. The audio tracks of a file
    /// that was read get names where they have none.
    pub fn poll(&mut self, results: Vec<JobResult>, now: u64) -> (r: Polled)
        ensures
            ({
                let (clips, changed) = super::all_after(old(self).clips@, results@);
                let since = if changed {
                    super::dirty_from(old(self).dirty_since, now)
                } else {
                    old(self).dirty_since
                };
                &&& final(self).clips@ == clips
                &&& final(self).dirs == old(self).dirs
                &&& final(self).busy() == super::still_in_flight(old(self).busy(), results@)
                &&& r.changed == changed
                &&& crate::text::views(r.thumbnails@) == super::new_thumbnails(results@)
                &&& r.save == super::is_due(since, now)
                &&& final(self).dirty_since == if r.save {
                    None
                } else {
                    since
                }
            }),
            old(self).wf() ==> final(self).wf(),
    {
        let ghost all = results@;
        let ghost mut done: int = 0;
        let mut left = results;
        let mut changed = false;
        let mut thumbnails: Vec<String> = Vec::new();
        assert(all.take(0) =~= Seq::empty());
        assert(all.skip(0) =~= all);
        assert(crate::text::views(thumbnails@) =~= super::new_thumbnails(all.take(0)));
        while left.len() > 0
            invariant
                0 <= done <= all.len(),
                left@ == all.skip(done),
                super::all_after(old(self).clips@, all.take(done)) == (self.clips@, changed),
                self.dirs == old(self).dirs,
                self.dirty_since == old(self).dirty_since,
                self.busy() == super::still_in_flight(old(self).busy(), all.take(done)),
                crate::text::views(thumbnails@) == super::new_thumbnails(all.take(done)),
            decreases left.len(),
        {
            assert(all.take(done + 1).drop_last() =~= all.take(done));
            let result = left.remove(0);
            assert(result == all[done]);
            assert(left@ =~= all.skip(done + 1));
            if let Some(thumbnail) = &result.thumbnail {
                let ghost before = crate::text::views(thumbnails@);
                thumbnails.push(thumbnail.clone());
                assert(crate::text::views(thumbnails@) =~= before.push(thumbnail@));
            }
            if self.apply_result(result) {
                changed = true;
            }
            proof {
                done = done + 1;
            }
        }
        assert(all.take(done) =~= all);
        proof {
            if old(self).wf() {
                super::findings_keep_ids_apart(old(self).clips@, all);
            }
        }
        if changed {
            self.mark_dirty(now);
        }
        let save = self.save_if_due(now);
        Polled { changed, thumbnails, save }
    }

    /// Bytes used by every indexed file.
    pub fn total_bytes(&self) -> (r: u64)
        requires
            super::byte_sum(self.clips@) <= u64::MAX,
        ensures
            r == super::byte_sum(self.clips@),
    {
        let mut total: u64 = 0;
        let mut i: usize = 0;
        while i < self.clips.len()
            invariant
                i <= self.clips.len(),
                super::byte_sum(self.clips@) <= u64::MAX,
                total == super::byte_sum(self.clips@.take(i as int)),
            decreases self.clips.len() - i,
        {
            proof {
                assert(self.clips@.take(i + 1).drop_last() =~= self.clips@.take(i as int));
                super::byte_sum_grows(self.clips@, i + 1);
            }
            total = total + self.clips[i].bytes;
            i = i + 1;
        }
        assert(self.clips@.take(i as int) =~= self.clips@);
        total
    }

    /// Records the audio track names of a freshly written file.
    pub fn tag_tracks(&mut self, path: &str, tracks: Vec<String>, now: u64)
        ensures
            match super::index_of_path(old(self).clips@, path@) {
                Some(i) if tracks.len() > 0 => {
                    &&& final(self).clips@ == old(self).clips@.update(
                        i,
                        ClipRecord { audio_tracks: tracks, ..old(self).clips@[i] },
                    )
                    &&& *final(self) == (LibraryService {
                        clips: final(self).clips,
                        dirty_since: super::dirty_from(old(self).dirty_since, now),
                        ..*old(self)
                    })
                },
                _ => *final(self) == *old(self),
            },
            old(self).wf() ==> final(self).wf(),
    {
        if tracks.len() == 0 {
            return ;
        }
        if let Some(i) = find_path(&self.clips, path) {
            self.clips[i].audio_tracks = tracks;
            self.mark_dirty(now);
        }
    }

    /// Takes over a new title. `target` is where the file of that title goes,
    /// missing for a title that is no name; `moved` is how moving the file
    /// there went, missing when it stays where it is.
    pub fn rename(
        &mut self,
        id: &str,
        title: &str,
        target: Option<String>,
        moved: Option<Result<(), String>>,
        now: u64,
    ) -> (r: Result<(), String>)
        ensures
            match target {
                None => r matches Err(text) && text@ == "The title cannot be empty."@
                    && *final(self) == *old(self),
                Some(path) => match moved {
                    Some(Err(reason)) => r matches Err(text) && text@
                        == "Could not rename the file: "@ + reason@ && *final(self) == *old(self),
                    _ => {
                        &&& r is Ok
                        &&& *final(self) == (LibraryService {
                            clips: final(self).clips,
                            dirty_since: super::dirty_from(old(self).dirty_since, now),
                            ..*old(self)
                        })
                        &&& match super::index_of_id(old(self).clips@, id@) {
                            Some(i) => {
                                &&& final(self).clips.len() == old(self).clips.len()
                                &&& final(self).clips@[i].title@ == crate::text::trimmed(title@)
                                &&& final(self).clips@ == old(self).clips@.update(
                                    i,
                                    ClipRecord {
                                        path,
                                        title: final(self).clips@[i].title,
                                        ..old(self).clips@[i]
                                    },
                                )
                            },
                            None => final(self).clips@ == old(self).clips@,
                        }
                    },
                },
            },
            old(self).wf() ==> final(self).wf(),
    {
        let path = match target {
            Some(path) => path,
            None => return Err("The title cannot be empty.".to_owned()),
        };
        if let Some(Err(reason)) = &moved {
            return Err(join2("Could not rename the file: ", reason.as_str()));
        }
        if let Some(i) = find_id(&self.clips, id) {
            self.clips[i].path = path;
            self.clips[i].title = crate::text::trim(title);
        }
        self.mark_dirty(now);
        Ok(())
    }

    /// Forgets a clip whose file went to the recycle bin. `trashed` is how
    /// moving it there went, missing when the file was gone already. Returns
    /// the thumbnail file that went with it, for caches.
    pub fn delete(&mut self, id: &str, trashed: Option<Result<(), String>>, now: u64) -> (r: Result<
        Option<String>,
        String,
    >)
        ensures
            match super::index_of_id(old(self).clips@, id@) {
                None => r matches Err(text) && text@ == "Unknown clip."@ && *final(self) == *old(
                    self,
                ),
                Some(i) => match trashed {
                    Some(Err(reason)) => r matches Err(text) && text@
                        == "Could not delete the file: "@ + reason@ && *final(self) == *old(self),
                    _ => {
                        &&& r == Ok::<Option<String>, String>(old(self).clips@[i].thumbnail)
                        &&& final(self).clips@ == old(self).clips@.remove(i)
                        &&& *final(self) == (LibraryService {
                            clips: final(self).clips,
                            dirty_since: super::dirty_from(old(self).dirty_since, now),
                            ..*old(self)
                        })
                        // The clip is gone.
                        &&& old(self).wf() ==> super::index_of_id(final(self).clips@, id@) is None
                    },
                },
            },
            old(self).wf() ==> final(self).wf(),
    {
        let i: usize = match find_id(&self.clips, id) {
            Some(i) => i,
            None => return Err("Unknown clip.".to_owned()),
        };
        if let Some(Err(reason)) = &trashed {
            return Err(join2("Could not delete the file: ", reason.as_str()));
        }
        proof {
            super::found_by_id(self.clips@, id@);
            if self.wf() {
                super::a_deleted_clip_is_gone(self.clips@, i as int);
            }
        }
        let record = self.clips.remove(i);
        self.mark_dirty(now);
        Ok(record.thumbnail)
    }
}

} // verus!

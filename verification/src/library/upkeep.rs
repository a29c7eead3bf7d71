//! How the index is kept in step with the files: what findings change, which
//! work is queued, and where files belong.
use vstd::prelude::*;

use super::{
    all_after, byte_sum, changes, clips_after, dirty_from, ids_differ, index_of_id,
    index_of_path, is_due, jobs_for, new_thumbnails, recovery_name, scans, still_in_flight,
    time_of_thumbnail, ClipDirs, ClipKind, ClipRecord, Job, JobResult,
};

verus! {

/// A clip is found under its id, and the first one where several share it.
pub proof fn a_clip_is_found_by_its_id(clips: Seq<ClipRecord>, i: int)
    requires
        0 <= i < clips.len(),
        forall|k: int| 0 <= k < i ==> (#[trigger] clips[k]).id@ != clips[i].id@,
    ensures
        index_of_id(clips, clips[i].id@) == Some(i),
    decreases clips.len(),
{
    if i > 0 {
        let rest = clips.drop_first();
        assert(forall|k: int| 0 <= k < rest.len() ==> rest[k] == clips[k + 1]);
        assert(clips[0].id@ != clips[i].id@);
        a_clip_is_found_by_its_id(rest, i - 1);
    }
}

/// A clip is found under its file, and the first one where several share it.
pub proof fn a_clip_is_found_by_its_file(clips: Seq<ClipRecord>, path: Seq<char>, i: int)
    requires
        0 <= i < clips.len(),
        crate::paths::is_same_path(clips[i].path@, path),
        forall|k: int| 0 <= k < i ==> !crate::paths::is_same_path((#[trigger] clips[k]).path@, path),
    ensures
        index_of_path(clips, path) == Some(i),
    decreases clips.len(),
{
    if i > 0 {
        let rest = clips.drop_first();
        assert(forall|k: int| 0 <= k < rest.len() ==> rest[k] == clips[k + 1]);
        assert(!crate::paths::is_same_path(clips[0].path@, path));
        a_clip_is_found_by_its_file(rest, path, i - 1);
    }
}

/// What was found out about a clip is in the index afterwards, and no other clip
/// changes. A file that could not be read counts as looked at, so it is not tried
/// again.
pub proof fn findings_reach_their_clip(clips: Seq<ClipRecord>, result: JobResult, i: int)
    requires
        ids_differ(clips),
        0 <= i < clips.len(),
    ensures
        ({
            let after = clips_after(clips, result);
            &&& after.len() == clips.len()
            &&& clips[i].id@ != result.id@ ==> after[i] == clips[i]
            &&& clips[i].id@ == result.id@ ==> {
                &&& after[i].probed
                &&& after[i].id == clips[i].id && after[i].path == clips[i].path
                &&& after[i].title == clips[i].title && after[i].game == clips[i].game
                &&& after[i].kind == clips[i].kind && after[i].created == clips[i].created
                &&& after[i].bytes == clips[i].bytes
                &&& match result.info {
                    Some(info) => after[i].duration_ms == info.duration / 1_000_000
                        && after[i].width == info.width && after[i].height == info.height,
                    None => after[i].duration_ms == clips[i].duration_ms && after[i].width
                        == clips[i].width && after[i].height == clips[i].height,
                }
                &&& after[i].thumbnail == (match result.thumbnail {
                    Some(made) => Some(made),
                    None => clips[i].thumbnail,
                })
                &&& clips[i].audio_tracks.len() > 0 ==> after[i].audio_tracks
                    == clips[i].audio_tracks
            }
        }),
{
    super::found_by_id(clips, result.id@);
    if clips[i].id@ == result.id@ {
        assert forall|k: int| 0 <= k < i implies (#[trigger] clips[k]).id@ != clips[i].id@ by {}
        a_clip_is_found_by_its_id(clips, i);
    }
}

/// Findings about several clips are applied one after the other, each once, and
/// any of them that changes something counts.
pub proof fn findings_are_applied_in_turn(
    clips: Seq<ClipRecord>,
    results: Seq<JobResult>,
    last: JobResult,
)
    ensures
        all_after(clips, Seq::<JobResult>::empty()) == (clips, false),
        ({
            let before = all_after(clips, results);
            all_after(clips, results.push(last)) == (
                clips_after(before.0, last),
                before.1 || changes(before.0, last),
            )
        }),
        last.info is Some || last.thumbnail is Some ==> all_after(clips, results.push(last)).1,
        all_after(clips, results).1 ==> all_after(clips, results.push(last)).1,
{
    assert(results.push(last).drop_last() =~= results);
}

/// A file that could not be read is a change once: after that it is known.
pub proof fn an_unreadable_file_is_a_change_once(clips: Seq<ClipRecord>, result: JobResult, i: int)
    requires
        result.info is None,
        result.thumbnail is None,
        index_of_id(clips, result.id@) == Some(i),
    ensures
        changes(clips, result) == !clips[i].probed,
        !changes(clips_after(clips, result), result),
{
    super::found_by_id(clips, result.id@);
    the_place_stays(clips, result.id@, i, clips_after(clips, result)[i]);
}

proof fn the_place_stays(clips: Seq<ClipRecord>, id: Seq<char>, i: int, c: ClipRecord)
    requires
        index_of_id(clips, id) == Some(i),
        0 <= i < clips.len(),
        c.id@ == clips[i].id@,
    ensures
        index_of_id(clips.update(i, c), id) == Some(i),
    decreases clips.len(),
{
    let rest = clips.drop_first();
    super::found_by_id(rest, id);
    if i > 0 {
        the_place_stays(rest, id, i - 1, c);
        assert(clips.update(i, c).drop_first() =~= rest.update(i - 1, c));
    }
}

/// Every thumbnail that was made is reported, and nothing else.
pub proof fn new_thumbnails_are_reported(results: Seq<JobResult>, text: Seq<char>)
    ensures
        new_thumbnails(results).contains(text) <==> exists|k: int|
            0 <= k < results.len() && crate::engine::model::text_view(
                (#[trigger] results[k]).thumbnail,
            ) == Some(text),
    decreases results.len(),
{
    if results.len() > 0 {
        let front = results.drop_last();
        new_thumbnails_are_reported(front, text);
        let before = new_thumbnails(front);
        if new_thumbnails(results).contains(text) {
            let j = choose|j: int|
                0 <= j < new_thumbnails(results).len() && new_thumbnails(results)[j] == text;
            if j < before.len() {
                assert(before[j] == text);
                let k = choose|k: int|
                    0 <= k < front.len() && crate::engine::model::text_view(
                (#[trigger] front[k]).thumbnail,
            ) == Some(text);
                assert(crate::engine::model::text_view(results[k].thumbnail) == Some(text));
            } else {
                assert(crate::engine::model::text_view(results[results.len() - 1].thumbnail) == Some(text));
            }
        }
        if exists|k: int|
            0 <= k < results.len() && crate::engine::model::text_view(
                (#[trigger] results[k]).thumbnail,
            ) == Some(text) {
            let k = choose|k: int|
                0 <= k < results.len() && crate::engine::model::text_view(
                (#[trigger] results[k]).thumbnail,
            ) == Some(text);
            if k < front.len() {
                assert(crate::engine::model::text_view(front[k].thumbnail) == Some(text));
                let j = choose|j: int| 0 <= j < before.len() && before[j] == text;
                assert(new_thumbnails(results)[j] == text);
            } else {
                assert(new_thumbnails(results)[before.len() as int] == text);
            }
        }
    }
}

/// A clip is no longer worked on once its findings are in; the others still are.
pub proof fn finished_work_is_no_longer_busy(
    busy: Set<Seq<char>>,
    results: Seq<JobResult>,
    id: Seq<char>,
)
    ensures
        still_in_flight(busy, results).contains(id) <==> busy.contains(id) && forall|k: int|
            0 <= k < results.len() ==> (#[trigger] results[k]).id@ != id,
    decreases results.len(),
{
    if results.len() > 0 {
        let front = results.drop_last();
        finished_work_is_no_longer_busy(busy, front, id);
        assert(forall|k: int| 0 <= k < front.len() ==> front[k] == results[k]);
        assert(results[results.len() - 1] == results.last());
        if still_in_flight(busy, results).contains(id) {
            assert forall|k: int| 0 <= k < results.len() implies (#[trigger] results[k]).id@
                != id by {
                if k < front.len() {
                    assert(front[k].id@ != id);
                }
            }
        } else if busy.contains(id) && forall|k: int|
            0 <= k < results.len() ==> (#[trigger] results[k]).id@ != id {
            assert forall|k: int| 0 <= k < front.len() implies (#[trigger] front[k]).id@ != id by {
                assert(results[k].id@ != id);
            }
        }
    }
}

/// A clip with something missing that nobody works on is queued: to be read
/// unless it was, and to get a picture unless it has one.
pub proof fn a_waiting_clip_is_queued(
    clips: Seq<ClipRecord>,
    busy: Seq<Seq<char>>,
    ids: Seq<Seq<char>>,
    n: int,
    i: int,
)
    requires
        0 <= n < ids.len(),
        index_of_id(clips, ids[n]) == Some(i),
        !busy.contains(ids[n]),
    ensures
        exists|k: int|
            0 <= k < jobs_for(clips, busy, ids).len() && (#[trigger] jobs_for(clips, busy, ids)[k])
                == (Job {
                id: clips[i].id,
                path: clips[i].path,
                probe: !clips[i].probed,
                thumbnail: clips[i].thumbnail is None,
                duration_ms: clips[i].duration_ms,
            }),
    decreases ids.len(),
{
    let front = ids.drop_last();
    let before = jobs_for(clips, busy, front);
    let jobs = jobs_for(clips, busy, ids);
    if n < front.len() {
        a_waiting_clip_is_queued(clips, busy, front, n, i);
        let job = Job {
            id: clips[i].id,
            path: clips[i].path,
            probe: !clips[i].probed,
            thumbnail: clips[i].thumbnail is None,
            duration_ms: clips[i].duration_ms,
        };
        let k = choose|k: int| 0 <= k < before.len() && (#[trigger] before[k]) == job;
        assert(jobs[k] == job);
    } else {
        assert(jobs[before.len() as int].id == clips[i].id);
    }
}

/// No job is queued for a clip that is worked on, that is not asked for or that
/// is not there.
pub proof fn only_waiting_clips_are_queued(
    clips: Seq<ClipRecord>,
    busy: Seq<Seq<char>>,
    ids: Seq<Seq<char>>,
    k: int,
)
    requires
        0 <= k < jobs_for(clips, busy, ids).len(),
    ensures
        exists|n: int|
            0 <= n < ids.len() && (#[trigger] ids[n]) == jobs_for(clips, busy, ids)[k].id@
                && !busy.contains(ids[n]) && index_of_id(clips, ids[n]) is Some,
    decreases ids.len(),
{
    if ids.len() > 0 {
        let front = ids.drop_last();
        let before = jobs_for(clips, busy, front);
        super::found_by_id(clips, ids.last());
        if k < before.len() {
            only_waiting_clips_are_queued(clips, busy, front, k);
            let n = choose|n: int|
                0 <= n < front.len() && (#[trigger] front[n]) == before[k].id@ && !busy.contains(
                    front[n],
                ) && index_of_id(clips, front[n]) is Some;
            assert(ids[n] == jobs_for(clips, busy, ids)[k].id@);
        } else {
            assert(ids[ids.len() - 1] == jobs_for(clips, busy, ids)[k].id@);
        }
    }
}

/// The index is written two seconds after the first change, not before, and later
/// changes do not put it off.
pub proof fn the_index_is_written_two_seconds_after_a_change(first: u64, later: u64, now: u64)
    requires
        first <= later <= now,
    ensures
        dirty_from(dirty_from(None, first), later) == Some(first),
        is_due(dirty_from(dirty_from(None, first), later), now) <==> now - first >= 2_000_000_000,
        !is_due(None, now),
{
}

/// The bytes of two parts of the index add up to those of the whole.
pub proof fn bytes_add_up(a: Seq<ClipRecord>, b: Seq<ClipRecord>)
    ensures
        byte_sum(a + b) == byte_sum(a) + byte_sum(b),
        forall|c: ClipRecord| byte_sum(#[trigger] a.push(c)) == byte_sum(a) + c.bytes,
    decreases b.len(),
{
    assert forall|c: ClipRecord| byte_sum(#[trigger] a.push(c)) == byte_sum(a) + c.bytes by {
        assert(a.push(c).drop_last() =~= a);
    }
    if b.len() == 0 {
        assert(a + b =~= a);
    } else {
        assert((a + b).drop_last() =~= a + b.drop_last());
        bytes_add_up(a, b.drop_last());
    }
}

/// A file belongs to the folder that it lies in: recordings, edits, and replays
/// everywhere else. A folder that is the clips folder itself tells nothing.
pub proof fn a_file_gets_its_kind_from_its_folder(dirs: ClipDirs, path: Seq<char>)
    ensures
        dirs.kind(path) == ClipKind::Recording <==> crate::paths::is_within(path, dirs.recordings@)
            && !crate::paths::is_same_path(dirs.recordings@, dirs.clips@),
        dirs.kind(path) == ClipKind::Edited ==> crate::paths::is_within(path, dirs.edited@)
            && !crate::paths::is_same_path(dirs.edited@, dirs.clips@),
        crate::paths::is_within(path, dirs.edited@) && !crate::paths::is_same_path(
            dirs.edited@,
            dirs.clips@,
        ) && !crate::paths::is_within(path, dirs.recordings@) ==> dirs.kind(path)
            == ClipKind::Edited,
        !crate::paths::is_within(path, dirs.edited@) && !crate::paths::is_within(
            path,
            dirs.recordings@,
        ) ==> dirs.kind(path) == ClipKind::Replay,
{
}

/// A scan of a folder passes over the folders that are scanned on their own, and
/// gives its files the kind of the folder.
pub proof fn a_scan_leaves_the_other_folders_out(dirs: ClipDirs, n: int, i: int, k: int)
    requires
        0 <= n <= 4,
        0 <= i < scans(dirs.in_order(), n).len(),
        0 <= k < 4,
    ensures
        ({
            let scan = scans(dirs.in_order(), n)[i];
            let folders = seq![dirs.clips_out@, dirs.recordings@, dirs.edited@, dirs.clips@];
            &&& scan.others.contains(folders[k]) || crate::paths::is_same_path(
                folders[k],
                scan.dir,
            )
            &&& forall|m: int|
                0 <= m < scan.others.len() ==> !crate::paths::is_same_path(
                    #[trigger] scan.others[m],
                    scan.dir,
                )
            &&& scan.kind == ClipKind::Recording ==> scan.dir == dirs.recordings@
            &&& scan.kind == ClipKind::Edited ==> scan.dir == dirs.edited@
            &&& scan.kind == ClipKind::Replay ==> scan.dir == dirs.clips_out@ || scan.dir
                == dirs.clips@
        }),
    decreases n,
{
    let plan = dirs.in_order();
    if i < scans(plan, n - 1).len() {
        a_scan_leaves_the_other_folders_out(dirs, n - 1, i, k);
    } else {
        let dir = plan[n - 1].0@;
        let p = super::is_other(dir);
        let kept = plan.filter(p);
        let others = kept.map_values(|q: (String, ClipKind)| q.0@);
        if !crate::paths::is_same_path(plan[k].0@, dir) {
            plan.lemma_filter_contains(p, k);
            let m = choose|m: int| 0 <= m < kept.len() && kept[m] == plan[k];
            assert(others[m] == plan[k].0@);
        }
        assert forall|m: int| 0 <= m < others.len() implies !crate::paths::is_same_path(
            #[trigger] others[m],
            dir,
        ) by {
            plan.lemma_filter_pred(p, m);
        }
    }
}

/// The picture of a clip is taken inside it: a tenth into it, never later than
/// five seconds, and somewhere for a clip of unknown length.
pub proof fn a_picture_is_taken_early(duration: int)
    requires
        0 <= duration,
    ensures
        0 <= time_of_thumbnail(duration) <= 5_000_000_000,
        duration > 0 ==> 10 * time_of_thumbnail(duration) <= duration,
        0 < duration < 50_000_000_000 ==> duration < 10 * time_of_thumbnail(duration) + 10,
        duration >= 50_000_000_000 ==> time_of_thumbnail(duration) == 5_000_000_000,
        duration == 0 ==> time_of_thumbnail(duration) == 1_000_000_000,
{
}

/// A recovered recording keeps its name and says what it is.
pub proof fn a_recovered_file_keeps_its_name(stem: Seq<char>, part: Seq<char>)
    requires
        part.len() == 9,
    ensures
        recovery_name(stem + part) == stem + " (recovered).mp4"@,
{
    assert((stem + part).take(stem.len() as int) =~= stem);
}

/// A partial file is abandoned once it has not changed for a minute, or when that
/// is not known; its ending counts in any case of letters.
pub proof fn a_partial_file_is_abandoned_after_a_minute(name: Seq<char>, age: u64)
    ensures
        super::is_abandoned_part(name, Some(age)) <==> ".mp4.part"@.is_suffix_of(
            crate::text::ascii_lower(name),
        ) && age >= 60,
        super::is_abandoned_part(name, None) <==> ".mp4.part"@.is_suffix_of(
            crate::text::ascii_lower(name),
        ),
{
    let lower = crate::text::ascii_lower(name);
    let end = ".mp4.part"@;
    if end.len() <= lower.len() {
        assert(lower.skip(lower.len() - end.len()) =~= lower.subrange(
            lower.len() - end.len(),
            lower.len() as int,
        ));
    }
}

} // verus!

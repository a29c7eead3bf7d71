use openclips::library::cards::{CardData, CardFilter, CardSort, FIRST_DATE, LAST_DATE};
use openclips::library::{
    format_duration, format_size, recover_partial_name, recovered_name, thumbnail_at, thumbnail_time, ClipDirs,
    ClipKind, ClipRecord, Job, JobResult, LibraryService, Moment, SAVE_DELAY,
};
use openclips::playback::MediaInfo;

fn dirs() -> ClipDirs {
    ClipDirs {
        clips: "/v".to_owned(),
        clips_out: "/v/clips".to_owned(),
        recordings: "/v/rec".to_owned(),
        edited: "/v/edit".to_owned(),
    }
}

fn clip(id: &str, created: u64) -> ClipRecord {
    ClipRecord {
        id: id.to_owned(),
        path: format!("/v/clips/{id}.mp4"),
        title: format!("Title {id}"),
        kind: ClipKind::Replay,
        game: None,
        created: Moment {
            seconds: created as i64,
            nanos: 0,
        },
        bytes: 1_048_576,
        duration_ms: 1000,
        width: 0,
        height: 0,
        probed: true,
        thumbnail: Some(format!("/t/{id}.png")),
        audio_tracks: Vec::new(),
    }
}

fn media(audio_tracks: usize) -> MediaInfo {
    MediaInfo {
        duration: 2_500_000_000,
        width: 1920,
        height: 1080,
        has_audio: audio_tracks > 0,
        audio_tracks,
    }
}

fn service(clips: Vec<ClipRecord>) -> LibraryService {
    LibraryService::new(clips, dirs())
}

fn ids(cards: &[CardData]) -> Vec<String> {
    cards.iter().map(|c| c.id.clone()).collect()
}

fn all() -> CardFilter<'static> {
    CardFilter {
        game: None,
        kind: None,
        search: "",
        sort: CardSort::default(),
    }
}

#[test]
fn sizes_switch_to_gigabytes() {
    assert_eq!(format_size(0), "0 MB");
    assert_eq!(format_size(1_048_576), "1 MB");
    assert_eq!(format_size(1_572_864), "2 MB");
    assert_eq!(format_size(2_621_440), "2 MB");
    assert_eq!(format_size(1_073_741_824), "1.0 GB");
    assert_eq!(format_size(1_610_612_736), "1.5 GB");
    for bytes in [1u64, 999_999, 5_000_000, 123_456_789, 98_765_432_109, u64::MAX] {
        let mb = bytes as f64 / (1024.0 * 1024.0);
        let expected = if mb >= 1024.0 {
            format!("{:.1} GB", mb / 1024.0)
        } else {
            format!("{mb:.0} MB")
        };
        assert_eq!(format_size(bytes), expected);
    }
}

#[test]
fn durations_show_hours_only_when_there_are_any() {
    assert_eq!(format_duration(0), "0:00");
    assert_eq!(format_duration(65), "1:05");
    assert_eq!(format_duration(3599), "59:59");
    assert_eq!(format_duration(3661), "1:01:01");
}

#[test]
fn thumbnails_are_taken_a_tenth_in() {
    assert_eq!(thumbnail_time(0), 1_000_000_000);
    assert_eq!(thumbnail_time(20_000_000_000), 2_000_000_000);
    assert_eq!(thumbnail_time(600_000_000_000), 5_000_000_000);
    let job = Job {
        id: "a".to_owned(),
        path: "/a".to_owned(),
        probe: true,
        thumbnail: true,
        duration_ms: 30_000,
    };
    assert_eq!(thumbnail_at(&job, &None), Some(3_000_000_000));
    let info = MediaInfo {
        duration: 10_000_000_000,
        width: 1,
        height: 1,
        has_audio: false,
        audio_tracks: 0,
    };
    assert_eq!(thumbnail_at(&job, &Some(info)), Some(1_000_000_000));
    let long = Job {
        duration_ms: u64::MAX,
        ..job
    };
    assert_eq!(thumbnail_at(&long, &None), Some(5_000_000_000));
    let none = Job {
        thumbnail: false,
        ..long
    };
    assert_eq!(thumbnail_at(&none, &None), None);
}

#[test]
fn abandoned_parts_are_recovered() {
    assert_eq!(
        recover_partial_name("Game.MP4.part", None).as_deref(),
        Some("Game (recovered).mp4")
    );
    assert_eq!(
        recover_partial_name("Game.mp4.part", Some(60)).as_deref(),
        Some("Game (recovered).mp4")
    );
    assert_eq!(recover_partial_name("Game.mp4.part", Some(59)), None);
    assert_eq!(recover_partial_name("Game.mp4", None), None);
    assert_eq!(recover_partial_name("part", None), None);
    let mut taken = vec!["Game.mp4.part".to_owned()];
    for expected in ["Game (recovered).mp4", "Game (recovered) (2).mp4", "Game (recovered) (3).mp4"] {
        let name = recovered_name("Game.mp4.part", Some(61), &taken).expect("name");
        assert_eq!(name, expected);
        taken.push(name);
    }
    assert_eq!(recovered_name("Game.mp4.part", Some(59), &taken), None);
}

#[test]
fn the_folder_tells_the_kind() {
    let d = dirs();
    assert_eq!(d.kind_for("/v/rec/a.mp4"), ClipKind::Recording);
    assert_eq!(d.kind_for("/v/edit/x/a.mp4"), ClipKind::Edited);
    assert_eq!(d.kind_for("/v/clips/a.mp4"), ClipKind::Replay);
    assert_eq!(d.kind_for("/v/record.mp4"), ClipKind::Replay);
    let flat = ClipDirs {
        recordings: "/v".to_owned(),
        edited: "/v".to_owned(),
        ..dirs()
    };
    assert_eq!(flat.kind_for("/v/a.mp4"), ClipKind::Replay);
}

#[test]
fn folders_that_double_are_scanned_once() {
    let d = dirs();
    assert_eq!(d.scan_order().len(), 4);
    assert_eq!(d.scan_order()[0].others.len(), 3);
    let flat = ClipDirs {
        recordings: "/v".to_owned(),
        edited: "/v".to_owned(),
        ..dirs()
    };
    let steps = flat.scan_order();
    assert_eq!(steps.len(), 2);
    assert_eq!(steps[1].dir, "/v");
    assert_eq!(steps[1].kind, ClipKind::Recording);
    assert_eq!(steps[1].others, vec!["/v/clips".to_owned()]);
}

#[test]
fn a_written_file_is_indexed_and_queued_once() {
    let mut s = service(vec![]);
    let mut new = clip("n", 5);
    new.path = "/v/rec/n.mp4".to_owned();
    new.probed = false;
    new.thumbnail = None;
    let indexed = s.index_written(new, 1);
    assert!(indexed.changed);
    let jobs = indexed.jobs;
    assert_eq!(jobs.len(), 1);
    assert!(jobs[0].probe && jobs[0].thumbnail);
    assert_eq!(s.clips[0].kind, ClipKind::Recording);
    assert_eq!(s.dirty_since, Some(1));
    assert_eq!(s.queue(vec!["n".to_owned()]).len(), 0);

    let mut again = clip("other", 6);
    again.path = "/v/rec/n.mp4".to_owned();
    again.game = Some("Doom".to_owned());
    again.audio_tracks = vec!["Desktop".to_owned()];
    let again = s.index_written(again, 9);
    assert!(again.changed && again.jobs.is_empty());
    assert_eq!(s.clips.len(), 1);
    assert_eq!(s.clips[0].id, "n");
    assert_eq!(s.clips[0].game.as_deref(), Some("Doom"));
    assert_eq!(s.clips[0].audio_tracks, vec!["Desktop".to_owned()]);
    assert_eq!(s.dirty_since, Some(1));
}

#[test]
fn results_are_applied_and_the_index_is_written_after_a_while() {
    let mut unknown = clip("a", 1);
    unknown.probed = false;
    unknown.thumbnail = None;
    let mut s = service(vec![unknown]);
    assert_eq!(s.queue(vec!["a".to_owned(), "x".to_owned()]).len(), 1);
    let polled = s.poll(
        vec![JobResult::new(
            "a".to_owned(),
            Some(media(2)),
            Some("/t/a.png".to_owned()),
            &vec!["Desktop".to_owned()],
        )],
        10,
    );
    assert!(polled.changed && !polled.save);
    assert_eq!(polled.thumbnails, vec!["/t/a.png".to_owned()]);
    assert_eq!(s.clips[0].duration_ms, 2500);
    assert!(s.clips[0].probed);
    assert_eq!(s.clips[0].audio_tracks, ["Desktop", "2"]);
    assert!(s.in_flight.is_empty());
    assert!(!s.poll(vec![], 10 + SAVE_DELAY - 1).save);
    assert!(s.poll(vec![], 10 + SAVE_DELAY).save);
    assert!(!s.flush());
}

#[test]
fn a_file_that_cannot_be_read_is_not_retried() {
    let mut broken = clip("a", 1);
    broken.probed = false;
    let mut s = service(vec![broken]);
    let result = || JobResult::new("a".to_owned(), None, None, &vec!["Desktop".to_owned()]);
    assert!(s.poll(vec![result()], 1).changed);
    assert!(s.clips[0].probed);
    assert!(s.clips[0].audio_tracks.is_empty());
    assert!(!s.poll(vec![result()], 2).changed);
}

#[test]
fn every_audio_track_gets_a_name() {
    let names = vec!["Desktop".to_owned(), "Microphone".to_owned()];
    let mut named = clip("b", 2);
    named.audio_tracks = vec!["Mic".to_owned()];
    let mut s = service(vec![clip("a", 1), named]);
    let results = vec![
        JobResult::new("a".to_owned(), Some(media(3)), None, &names),
        JobResult::new("b".to_owned(), Some(media(2)), None, &names),
        JobResult::new("gone".to_owned(), Some(media(1)), None, &names),
    ];
    assert_eq!(results[2].track_names, ["Desktop"]);
    assert!(s.poll(results, 1).changed);
    assert_eq!(s.clips[0].audio_tracks, ["Desktop", "Microphone", "3"]);
    assert_eq!(s.clips[1].audio_tracks, ["Mic"]);
    let silent = JobResult::new("a".to_owned(), Some(media(0)), None, &names);
    assert!(silent.track_names.is_empty());
}

#[test]
fn ids_stay_apart() {
    let mut s = service(vec![clip("a", 1), clip("b", 2)]);
    let mut again = clip("c", 3);
    again.path = "/v/clips/a.mp4".to_owned();
    s.index_written(again, 1);
    s.index_written(clip("d", 4), 2);
    let mut found: Vec<String> = s.clips.iter().map(|c| c.id.clone()).collect();
    found.sort();
    found.dedup();
    assert_eq!(found.len(), s.clips.len());
    assert_eq!(s.delete("d", None, 3), Ok(Some("/t/d.png".to_owned())));
    assert!(s.record("d").is_none());
    assert!(s.record("b").is_some());
}

#[test]
fn missing_thumbnails_are_forgotten() {
    let mut s = service(vec![clip("a", 1), clip("b", 2)]);
    assert!(s.drop_missing_thumbnails(&vec![true, false]));
    assert!(s.clips[0].thumbnail.is_some());
    assert!(s.clips[1].thumbnail.is_none());
    assert!(!s.drop_missing_thumbnails(&vec![true, false]));
    let again = vec![clip("c", 3)];
    assert_eq!(s.refresh(again, false, vec!["c".to_owned()], 1).len(), 1);
    assert_eq!(s.dirty_since, None);
}

#[test]
fn renaming_and_deleting_report_their_errors() {
    let mut s = service(vec![clip("a", 1)]);
    assert_eq!(
        s.rename("a", " ", None, None, 1),
        Err("The title cannot be empty.".to_owned())
    );
    assert_eq!(
        s.rename("a", "B", Some("/b".to_owned()), Some(Err("busy".to_owned())), 1),
        Err("Could not rename the file: busy".to_owned())
    );
    assert_eq!(s.dirty_since, None);
    assert_eq!(
        s.rename("a", " B ", Some("/b".to_owned()), Some(Ok(())), 1),
        Ok(())
    );
    assert_eq!(s.clips[0].title, "B");
    assert_eq!(s.clips[0].path, "/b");
    assert_eq!(s.delete("z", None, 2), Err("Unknown clip.".to_owned()));
    assert_eq!(
        s.delete("a", Some(Err("denied".to_owned())), 2),
        Err("Could not delete the file: denied".to_owned())
    );
    assert_eq!(s.delete("a", None, 2), Ok(Some("/t/a.png".to_owned())));
    assert!(s.clips.is_empty());
}

#[test]
fn totals_and_tags() {
    let mut s = service(vec![clip("a", 1), clip("b", 2)]);
    assert_eq!(s.total_bytes(), 2_097_152);
    s.tag_tracks("/v/clips/b.mp4", vec!["Mic".to_owned()], 7);
    assert_eq!(s.clips[1].audio_tracks, vec!["Mic".to_owned()]);
    assert_eq!(s.dirty_since, Some(7));
    assert_eq!(s.record("b").map(|c| c.created.seconds), Some(2));
    assert!(s.record("q").is_none());
    assert!(!s.set_dirs(dirs()));
    assert!(s.set_dirs(ClipDirs {
        edited: "/w".to_owned(),
        ..dirs()
    }));
}

#[test]
fn the_gallery_is_ordered_and_narrowed_down() {
    let mut a = clip("a", 10);
    a.duration_ms = 61_000;
    a.game = Some("Doom".to_owned());
    let mut b = clip("b", 30);
    b.bytes = 9_000_000;
    let mut c = clip("c", 20);
    c.kind = ClipKind::Edited;
    let s = service(vec![a, b, c, clip("d", 30)]);
    let dates = vec!["1".to_owned(), "2".to_owned(), "3".to_owned(), "4".to_owned()];

    let newest = s.cards_with_dates(&all(), &dates);
    assert_eq!(ids(&newest), ["b", "d", "c", "a"]);
    assert_eq!(newest[0].date, "2");
    assert_eq!(newest[3].game, "Doom");
    assert_eq!(newest[2].game, "Edited");
    assert_eq!(newest[3].duration, "1:01");
    assert_eq!(newest[3].size, "1 MB");

    let oldest = s.cards(&CardFilter {
        sort: CardSort::from_index(1),
        ..all()
    });
    let mut back = ids(&oldest);
    back.reverse();
    assert_eq!(back, ids(&newest));
    assert_eq!(oldest[0].date.len(), 16);
    assert_eq!(&oldest[0].date[4..5], "-");

    let longest = s.cards(&CardFilter {
        sort: CardSort::from_index(2),
        ..all()
    });
    assert_eq!(ids(&longest), ["a", "b", "d", "c"]);
    let largest = s.cards(&CardFilter {
        sort: CardSort::from_index(3),
        ..all()
    });
    assert_eq!(ids(&largest), ["b", "d", "c", "a"]);
    assert_eq!(CardSort::from_index(9), CardSort::Newest);

    let found = s.cards(&CardFilter {
        search: "  TITLE A ",
        ..all()
    });
    assert_eq!(ids(&found), ["a"]);
    let game = s.cards(&CardFilter {
        game: Some("Doom"),
        ..all()
    });
    assert_eq!(ids(&game), ["a"]);
    let kind = s.cards(&CardFilter {
        kind: Some(ClipKind::Edited),
        ..all()
    });
    assert_eq!(ids(&kind), ["c"]);
}

#[test]
fn the_oldest_cards_are_the_newest_reversed() {
    let mut clips = vec![clip("a", 5), clip("b", 9), clip("c", 5), clip("d", 1)];
    clips[0].duration_ms = 9_000;
    clips[1].bytes = 7;
    let s = service(clips);
    let by = |sort: CardSort| ids(&s.cards(&CardFilter { sort, ..all() }));
    let newest = by(CardSort::Newest);
    assert_eq!(newest, ["b", "a", "c", "d"]);
    let mut oldest = by(CardSort::Oldest);
    oldest.reverse();
    assert_eq!(oldest, newest);
    assert_eq!(by(CardSort::Longest), ["a", "b", "c", "d"]);
    assert_eq!(by(CardSort::Largest), ["a", "c", "d", "b"]);
    for card in s.cards(&all()) {
        assert_eq!(card.date.len(), 16);
        assert!(card.date.starts_with("19") && card.date[4..5] == *"-");
    }
}

#[test]
fn clips_of_one_second_are_told_apart() {
    let mut early = clip("early", 100);
    early.created.nanos = 1;
    let mut late = clip("late", 100);
    late.created.nanos = 999_999_999;
    let mut before = clip("before", 0);
    before.created.seconds = -1;
    let s = service(vec![early, before, late]);
    assert_eq!(ids(&s.cards(&all())), ["late", "early", "before"]);
}

#[test]
fn every_date_of_the_calendar_can_be_written() {
    for (seconds, length) in [
        (FIRST_DATE, 19),
        (-70_000_000_000, 17),
        (-1, 16),
        (1_700_000_000, 16),
        (260_000_000_000, 18),
        (LAST_DATE, 19),
    ] {
        let mut far = clip("a", 0);
        far.created.seconds = seconds;
        let date = service(vec![far]).cards(&all())[0].date.clone();
        assert_eq!(date.len(), length, "{date}");
        let tail = &date[length - 12..];
        assert_eq!(&tail[..1], "-");
        assert_eq!(&tail[6..7], " ");
        assert_eq!(&tail[9..10], ":");
    }
}

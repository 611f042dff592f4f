use rusty_tunes::player::track::{Track, TrackMetadata, TrackSource};
use rusty_tunes::service::cache_service::{
    cache_dir, cache_dir_for, cache_stem_for, cache_track, cleanup_part_files, download_failure, find_cached, find_in_dir,
    is_cacheable, probe_answer, probe_duration_text, probe_track, produced_file, sanitize, CachePlan,
};

fn track(source: TrackSource, id: &str, title: &str) -> Track {
    Track {
        id: format!("t-{id}"),
        metadata: TrackMetadata {
            id: id.to_string(),
            title: title.to_string(),
            channel: String::new(),
            track_url: "https://page".to_string(),
            play_url: None,
            duration: None,
        },
        source,
        added_by: String::new(),
    }
}

fn names(list: &[&str]) -> Vec<Option<String>> {
    list.iter().map(|s| Some(s.to_string())).collect()
}

#[test]
fn directories_follow_the_source() {
    assert_eq!(cache_dir(), "cache");
    assert_eq!(cache_dir_for(&TrackSource::YouTube).as_deref(), Some("cache/youtube"));
    assert_eq!(cache_dir_for(&TrackSource::Spotify).as_deref(), Some("cache/spotify"));
    assert_eq!(cache_dir_for(&TrackSource::Local("a".to_string())), None);
    let joined = std::path::PathBuf::from("cache").join("youtube");
    assert_eq!(joined, std::path::PathBuf::from(cache_dir_for(&TrackSource::YouTube).unwrap()));
}

#[test]
fn names_are_made_safe() {
    assert_eq!(sanitize("a/b\\c:d*e?f\"g<h>i|j\0k\nl"), "a_b_c_d_e_f_g_h_i_j_k_l");
    assert_eq!(sanitize(" ..Song.. "), "Song");
    assert_eq!(sanitize("..."), "track");
    assert_eq!(sanitize(""), "track");
    assert_eq!(sanitize("\ta\t"), "_a_");
    assert_eq!(sanitize("é — ü"), "é — ü");
    let long = "é".repeat(200);
    assert_eq!(sanitize(&long).chars().count(), 80);
    let dotted = format!("{}.b", "a".repeat(79));
    assert_eq!(sanitize(&dotted), format!("{}.", "a".repeat(79)));
}

#[test]
fn stems_name_title_and_id() {
    assert_eq!(cache_stem_for(&track(TrackSource::YouTube, "dQw4", "Never/Gonna")).as_deref(), Some("Never_Gonna_dQw4"));
    assert_eq!(cache_stem_for(&track(TrackSource::Spotify, "1", "")).as_deref(), Some("track_1"));
    assert_eq!(cache_stem_for(&track(TrackSource::Local("x".to_string()), "1", "a")), None);
}

#[test]
fn tracks_without_an_id_are_not_cached() {
    assert!(is_cacheable(&track(TrackSource::YouTube, "1", "a")));
    assert!(!is_cacheable(&track(TrackSource::YouTube, "", "a")));
    assert!(!is_cacheable(&track(TrackSource::Spotify, " .. ", "a")));
    assert!(!is_cacheable(&track(TrackSource::Local("x".to_string()), "1", "a")));
}

#[test]
fn lookup_skips_everything_but_audio() {
    let dir = names(&[
        "a_1", "a_1.", "a_1.part", "a_1.part.webm", "a_1.lufs", "a_1.gain", "a_1.tar.gz", "a_12.webm", "b_1.webm",
    ]);
    assert_eq!(find_in_dir(&dir, "a_1"), None);
    let mut dir = dir;
    dir.insert(0, None);
    dir.push(Some("a_1.m4a".to_string()));
    dir.push(Some("a_1.webm".to_string()));
    assert_eq!(find_in_dir(&dir, "a_1"), Some(10));
}

#[test]
fn own_directory_comes_before_the_root() {
    let t = track(TrackSource::YouTube, "1", "a");
    let here = names(&["a_1.webm"]);
    let none = names(&[]);
    assert_eq!(find_cached(&t, &here, &here).as_deref(), Some("cache/youtube/a_1.webm"));
    assert_eq!(find_cached(&t, &none, &here).as_deref(), Some("cache/a_1.webm"));
    assert_eq!(find_cached(&t, &none, &none), None);
    assert_eq!(find_cached(&track(TrackSource::YouTube, "", "a"), &here, &here), None);
}

#[test]
fn downloads_are_planned() {
    let mut t = track(TrackSource::Spotify, "1", "a");
    t.metadata.play_url = Some("https://audio".to_string());
    match cache_track(&t, &names(&[]), &names(&[])) {
        Ok(CachePlan::Download(d)) => {
            assert_eq!(d.stem, "a_1");
            assert_eq!(d.dir, "cache/spotify");
            assert_eq!(
                d.args,
                vec![
                    "--no-warnings",
                    "--no-playlist",
                    "-f",
                    "bestaudio/best",
                    "-o",
                    "cache/spotify/a_1.part.%(ext)s",
                    "https://audio",
                ]
            );
        }
        _ => panic!("expected a download"),
    }
    assert!(matches!(cache_track(&t, &names(&["a_1.opus"]), &names(&[])), Ok(CachePlan::Existing(ref p)) if p == "cache/spotify/a_1.opus"));
    let local = track(TrackSource::Local("x".to_string()), "1", "a");
    assert_eq!(cache_track(&local, &names(&[]), &names(&[])).err().as_deref(), Some("track is not cacheable"));
}

#[test]
fn finished_downloads_are_renamed_and_found() {
    let dir = names(&["a_1.part", "a_1.part.", "a_1.part.tar.gz", "a_1.part.webm", "a_1.part.m4a"]);
    let (i, name) = produced_file(&dir, "a_1").unwrap();
    assert_eq!((i, name.as_str()), (3, "a_1.webm"));
    assert_eq!(find_in_dir(&vec![Some(name)], "a_1"), Some(0));
    assert_eq!(
        produced_file(&names(&["a_1.webm"]), "a_1").err().as_deref(),
        Some("yt-dlp reported success but produced no output file")
    );
}

#[test]
fn lookup_gives_back_the_download() {
    let t = track(TrackSource::YouTube, "1", "a");
    let before = names(&["b_2.webm", "a_1.lufs"]);
    let root = names(&["c_3.m4a"]);
    assert!(matches!(cache_track(&t, &before, &root), Ok(CachePlan::Download(_))));
    let found = names(&["a_1.part.webm", "b_2.webm", "a_1.part.webm.tmp", "a_1.lufs"]);
    let (i, name) = produced_file(&found, "a_1").unwrap();
    let mut after = found;
    after[i] = Some(name);
    after.reverse();
    assert_eq!(find_cached(&t, &after, &root).as_deref(), Some("cache/youtube/a_1.webm"));
    assert!(matches!(cache_track(&t, &after, &root), Ok(CachePlan::Existing(ref p)) if p == "cache/youtube/a_1.webm"));
}

#[test]
fn leftovers_are_listed() {
    let mut dir = names(&["a_1.part.webm", "a_1.webm", "a_1.part.x.y", "a_1.part"]);
    dir.push(None);
    assert_eq!(cleanup_part_files(&dir, "a_1"), vec![0, 2]);
}

#[test]
fn failures_keep_the_last_lines() {
    assert_eq!(download_failure("exit status: 1", "1\n2\r\n3\n4\n5\n6\n"), "yt-dlp failed (exit status: 1): 2 | 3 | 4 | 5 | 6");
    assert_eq!(download_failure("x", "only"), "yt-dlp failed (x): only");
    assert_eq!(download_failure("x", ""), "yt-dlp failed (x): ");
}

#[test]
fn probes_are_asked_and_read() {
    let t = track(TrackSource::YouTube, "1", "a");
    assert_eq!(
        probe_track(&t).unwrap(),
        vec!["--no-warnings", "--no-playlist", "--print", "%(duration)s", "--print", "%(is_live)s", "https://page"]
    );
    assert!(probe_track(&track(TrackSource::Local("x".to_string()), "1", "a")).is_none());
    assert_eq!(probe_duration_text(" 212.0 \nFalse\n"), "212.0");
    assert_eq!(probe_duration_text(""), "");
    let p = probe_answer(true, "NA\n TRUE ", None).unwrap();
    assert!(p.is_live && p.duration.is_none());
    let p = probe_answer(true, "212\nFalse", Some(212_000_000_000)).unwrap();
    assert!(!p.is_live);
    assert_eq!(p.duration, Some(212_000_000_000));
    assert!(!probe_answer(true, "212", None).unwrap().is_live);
    assert!(probe_answer(false, "212\nTrue", Some(1)).is_none());
}

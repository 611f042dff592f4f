use rusty_tunes::bot::MusicBotError;
use rusty_tunes::commands::cmd_normalize::{normalize, NormalizeEffect};
use rusty_tunes::commands::cmd_silent::silent;
use rusty_tunes::player::next_track::{
    schedule_normalization_apply, set_idle, set_now_playing, spawn_cache_and_apply, CacheDecision, FollowUp, NextStep,
};
use rusty_tunes::player::player::{KickOff, Player};
use rusty_tunes::player::track::{PlaybackError, Playlist, Track, TrackMetadata, TrackSource};
use rusty_tunes::service::cache_service::TrackProbe;
use rusty_tunes::units::Level;

const SECOND: u128 = 1_000_000_000;
const CAP: u128 = 3600 * SECOND;

fn track(id: &str) -> Track {
    Track {
        id: id.to_string(),
        metadata: TrackMetadata {
            id: id.to_string(),
            title: format!("Title {id}"),
            channel: String::new(),
            track_url: String::new(),
            play_url: None,
            duration: Some(60 * SECOND),
        },
        source: TrackSource::YouTube,
        added_by: String::new(),
    }
}

fn with_queue(ids: &[&str]) -> Player {
    let mut p = Player::new(1, None);
    for id in ids {
        p.queue.push(track(id));
    }
    p
}

fn ids<'a>(tracks: impl IntoIterator<Item = &'a Track>) -> Vec<String> {
    tracks.into_iter().map(|t| t.id.clone()).collect()
}

fn playing(ids: &[&str]) -> Player {
    let mut p = with_queue(ids);
    p.after_play(track("now"), 7, Some("now.webm".to_string()));
    p
}

#[test]
fn new_player_is_idle() {
    let p = Player::new(5, None);
    assert!(!p.is_playing && !p.is_paused && !p.silent && !p.normalize && !p.should_normalize());
    assert_eq!(f32::from_bits(p.volume.bits), 0.5);
    assert_eq!(f32::from_bits(p.current_gain.bits), 1.0);
    let stored = Level { bits: 0.25f32.to_bits() };
    assert_eq!(Player::new(5, Some(stored)).volume, stored);
}

#[test]
fn history_is_the_last_ten() {
    let mut p = Player::new(1, None);
    for n in 0..13 {
        p.push_to_history(track(&n.to_string()));
    }
    assert_eq!(ids(&p.history), (3..13).map(|n| n.to_string()).collect::<Vec<_>>());
}

#[test]
fn queueing_decides_what_follows() {
    let mut p = Player::new(1, None);
    assert_eq!(p.add_track_to_queue(track("a"), false), KickOff::Start);
    assert!(p.inactivity_cancel);
    p.is_playing = true;
    assert_eq!(p.add_track_to_queue(track("b"), true), KickOff::Nothing);
    p.is_paused = true;
    assert_eq!(p.add_playlist_to_queue(Playlist { tracks: vec![track("c"), track("d")] }, false), KickOff::Resume);
    assert!(p.is_paused);
    assert_eq!(p.add_playlist_to_queue(Playlist { tracks: vec![track("e"), track("f")] }, true), KickOff::PlayNext);
    assert!(!p.is_paused);
    assert_eq!(ids(&p.queue), ["e", "f", "b", "a", "c", "d"]);
}

#[test]
fn forced_tracks_come_first() {
    let mut p = playing(&["a", "b"]);
    assert_eq!(p.force_play_track(track("g")), KickOff::PlayNext);
    let mut long = track("h");
    long.metadata.duration = Some(CAP + 1);
    assert_eq!(p.force_play_playlist(Playlist { tracks: vec![long, track("i"), track("j")] }), KickOff::PlayNext);
    assert_eq!(ids(&p.queue), ["h", "i", "j", "g", "a", "b"]);
    assert!(matches!(p.next_track(true, true, Ok(()), CAP), Ok(NextStep::NotifyTooLong(_))));
    assert!(p.current_track.is_none() && p.track_handle.is_none());
    assert!(matches!(p.after_notice(Ok(()), CAP), Ok(NextStep::Announce(t)) if t.id == "i"));
    assert_eq!(ids(&p.queue), ["j", "g", "a", "b"]);
}

#[test]
fn removal_undoes_insertion() {
    let mut p = with_queue(&["a", "b"]);
    p.add_track_to_queue(track("c"), true);
    assert_eq!(p.remove_from_queue(1).unwrap().id, "c");
    assert_eq!(ids(&p.queue), ["a", "b"]);
    assert!(matches!(p.remove_from_queue(0), Err(PlaybackError::InvalidQueueIndex(0))));
    assert!(matches!(p.remove_from_queue(3), Err(PlaybackError::InvalidQueueIndex(3))));
    assert_eq!(p.remove_from_queue(2).unwrap().id, "b");
    assert_eq!(p.clear_queue(), 1);
    assert!(p.queue.is_empty());
}

#[test]
fn shuffling_keeps_the_tracks_and_moves_some() {
    let all: Vec<String> = (0..50).map(|n| n.to_string()).collect();
    let mut p = with_queue(&all.iter().map(|s| s.as_str()).collect::<Vec<_>>());
    assert!(p.shuffle().is_ok());
    let mut after = ids(&p.queue);
    assert_ne!(after, all);
    after.sort_by_key(|s| s.parse::<u32>().unwrap());
    assert_eq!(after, all);
    let mut one = with_queue(&["a"]);
    assert!(one.shuffle().is_ok());
    assert_eq!(ids(&one.queue), ["a"]);
}

#[test]
fn skipping_leads_to_the_right_track() {
    let mut p = playing(&["a", "b", "c"]);
    assert_eq!(p.skip(2, Ok(())).unwrap(), 2);
    assert_eq!(ids(&p.queue), ["b", "c"]);
    assert!(p.is_playing && p.track_handle.is_none() && p.current_track.is_none());
    let mut p = playing(&["a", "b"]);
    assert_eq!(p.skip(9, Ok(())).unwrap(), 2);
    assert_eq!(ids(&p.queue), ["b"]);
    let mut p = playing(&["a"]);
    assert_eq!(p.skip(0, Ok(())).unwrap(), 0);
    assert_eq!(ids(&p.queue), ["a"]);
    let mut p = playing(&[]);
    assert_eq!(p.skip(3, Ok(())).unwrap(), 1);
    assert!(!p.is_playing);
    assert!(matches!(p.skip(1, Ok(())), Err(PlaybackError::PlaybackNotActive)));
}

#[test]
fn failed_stops_are_reported() {
    let mut p = playing(&["a", "b"]);
    match p.skip(2, Err("Finished".to_string())) {
        Err(PlaybackError::InternalError(e)) => assert_eq!(e, "Error stopping track: Finished"),
        _ => panic!("expected an internal error"),
    }
    assert_eq!(ids(&p.queue), ["b"]);
    assert_eq!(p.track_handle, Some(7));
    assert!(p.stop_playback(Err("x".to_string())).is_err());
    assert_eq!(p.stop_request(), Some(7));
    assert!(p.stop_track(Ok(())).is_ok());
    assert_eq!(p.stop_request(), None);
    assert_eq!(ids(&p.queue), ["b"]);
    assert!(p.stop_playback(Err("ignored".to_string())).is_ok());
    assert!(p.queue.is_empty());
}

#[test]
fn starting_needs_an_idle_player_and_a_track() {
    let mut p = Player::new(1, None);
    assert!(matches!(p.start_playback(), Err(PlaybackError::NoTracksInQueue)));
    p.queue.push(track("a"));
    assert!(p.start_playback().is_ok() && p.is_playing);
    assert!(matches!(p.start_playback(), Err(PlaybackError::PlaybackAlreadyActive)));
}

#[test]
fn resuming_undoes_pausing() {
    let mut p = Player::new(1, None);
    assert!(matches!(p.pause(Ok(())), Err(PlaybackError::PlaybackNotActive)));
    assert!(matches!(p.resume(Ok(())), Err(PlaybackError::PlaybackNotPaused)));
    let mut p = playing(&[]);
    assert!(matches!(p.pause(Err("e".to_string())), Err(PlaybackError::InternalError(ref e)) if e == "e"));
    assert!(matches!(p.pause_request(), Ok(Some(7))));
    assert!(p.pause(Ok(())).is_ok() && p.is_paused && p.is_playing);
    assert!(matches!(p.pause(Ok(())), Err(PlaybackError::PlaybackAlreadyPaused)));
    assert!(matches!(p.resume(Err("e".to_string())), Err(PlaybackError::InternalError(ref e)) if e == "e"));
    assert!(matches!(p.resume_request(), Ok(Some(7))));
    assert!(p.resume(Ok(())).is_ok() && !p.is_paused && p.is_playing);
}

#[test]
fn only_the_volume_is_carried_over() {
    let mut p = playing(&["a"]);
    p.silent = true;
    p.normalize = true;
    let volume = Level { bits: 0.8f32.to_bits() };
    p.set_volume(volume);
    let next = Player::new(p.guild_id, Some(p.volume));
    assert!(next.volume == volume && next.current_gain == Level::unity());
    assert!(!next.silent && !next.normalize && !next.is_playing && !next.is_paused);
    assert!(next.queue.is_empty() && next.history.is_empty());
}

#[test]
fn volume_is_kept() {
    let mut p = playing(&[]);
    let v = Level { bits: 2.0f32.to_bits() };
    assert_eq!(p.set_volume(v), Some(7));
    assert_eq!(p.volume, v);
    assert_eq!(Player::new(1, None).set_volume(v), None);
}

fn step_title(step: NextStep) -> String {
    match step {
        NextStep::Probe(t) => format!("probe {}", t.id),
        NextStep::NotifyLivestream(title) => format!("live {title}"),
        NextStep::NotifyTooLong(title) => format!("long {title}"),
        NextStep::Announce(t) => format!("announce {}", t.id),
        NextStep::Play(t) => format!("play {}", t.id),
        NextStep::Idle => "idle".to_string(),
    }
}

#[test]
fn next_track_passes_over_what_may_not_play() {
    let mut p = with_queue(&["long", "live", "unknown", "after"]);
    p.queue[0].metadata.duration = Some(CAP + 1);
    p.queue[1].metadata.duration = None;
    p.queue[2].metadata.duration = None;
    assert_eq!(step_title(p.next_track(true, true, Ok(()), CAP).unwrap()), "long Title long");
    let step = p.after_notice(Ok(()), CAP).unwrap();
    let t = match step {
        NextStep::Probe(t) => t,
        _ => panic!("expected a probe"),
    };
    let live = Some(TrackProbe { duration: None, is_live: true });
    assert_eq!(step_title(p.after_probe(t, live, CAP)), "live Title live");
    let t = match p.after_notice(Ok(()), CAP).unwrap() {
        NextStep::Probe(t) => t,
        _ => panic!("expected a probe"),
    };
    let long = Some(TrackProbe { duration: Some(2 * CAP), is_live: false });
    assert_eq!(step_title(p.after_probe(t.clone(), long, CAP)), "long Title unknown");
    assert_eq!(step_title(p.after_probe(t.clone(), None, CAP)), "announce unknown");
    let fine = Some(TrackProbe { duration: Some(CAP), is_live: false });
    match p.after_probe(t, fine, CAP) {
        NextStep::Announce(t) => {
            assert_eq!(t.metadata.duration, Some(CAP));
            assert!(matches!(p.after_announcement(t, Ok(())), Ok(NextStep::Play(ref t)) if t.id == "unknown"));
        }
        _ => panic!("expected an announcement"),
    }
    assert_eq!(ids(&p.queue), ["after"]);
}

#[test]
fn next_track_reports_what_fails() {
    let mut p = playing(&["a"]);
    for (guild, manager) in [(false, true), (true, false)] {
        match p.next_track(guild, manager, Ok(()), CAP) {
            Err(PlaybackError::InternalError(e)) => assert_eq!(e, "Could not locate voice channel. Guild ID is none"),
            _ => panic!("expected an internal error"),
        }
    }
    assert!(p.next_track(true, true, Err("x".to_string()), CAP).is_err());
    assert_eq!(ids(&p.queue), ["a"]);
    assert!(matches!(p.after_notice(Err(PlaybackError::NoTracksInQueue), CAP), Err(PlaybackError::NoTracksInQueue)));
    assert!(matches!(p.after_announcement(track("a"), Err(PlaybackError::NoTracksInQueue)), Err(PlaybackError::NoTracksInQueue)));
}

#[test]
fn silence_and_local_files_skip_steps() {
    let mut p = with_queue(&["a"]);
    p.silent = true;
    p.queue[0].metadata.duration = None;
    p.queue[0].source = TrackSource::Local("x.mp3".to_string());
    assert_eq!(step_title(p.next_track(true, true, Ok(()), CAP).unwrap()), "play a");
    assert_eq!(step_title(p.next_track(true, true, Ok(()), CAP).unwrap()), "idle");
}

#[test]
fn top_track_is_next() {
    let mut p = playing(&["a"]);
    p.add_track_to_queue(track("b"), true);
    assert_eq!(step_title(p.next_track(true, true, Ok(()), CAP).unwrap()), "announce b");
    assert_eq!(ids(&p.queue), ["a"]);
    assert!(!p.is_playing && p.track_handle.is_none());
}

#[test]
fn playing_sets_everything() {
    let mut p = Player::new(1, None);
    let follow = p.after_play(track("a"), 3, None);
    assert!(matches!(follow, FollowUp::Cache(CacheDecision::Download)));
    assert_eq!(p.track_handle, Some(3));
    assert_eq!(p.current_track.as_ref().unwrap().id, "a");
    assert_eq!(ids(&p.history), ["a"]);
    assert!(p.is_playing && p.current_source_path.is_none());
    assert!(matches!(p.after_play(track("b"), 4, Some("f".to_string())), FollowUp::Nothing));
    p.normalize = true;
    match p.after_play(track("c"), 5, Some("f".to_string())) {
        FollowUp::Measure { path, track_id } => assert_eq!((path.as_str(), track_id.as_str()), ("f", "c")),
        _ => panic!("expected a measurement"),
    }
}

#[test]
fn streamed_tracks_are_cached_or_not() {
    let mut t = track("a");
    assert_eq!(spawn_cache_and_apply(&t), CacheDecision::Download);
    t.metadata.duration = Some(600 * SECOND);
    assert_eq!(spawn_cache_and_apply(&t), CacheDecision::Download);
    t.metadata.duration = Some(600 * SECOND + 1);
    assert_eq!(spawn_cache_and_apply(&t), CacheDecision::TooLong);
    t.metadata.id = String::new();
    assert_eq!(spawn_cache_and_apply(&t), CacheDecision::NotCacheable);
}

#[test]
fn measurements_apply_to_the_current_track() {
    let gain = Level { bits: 1.5f32.to_bits() };
    let mut p = playing(&[]);
    assert!(schedule_normalization_apply(&mut p, "now", gain).is_none());
    p.normalize = true;
    assert!(schedule_normalization_apply(&mut p, "other", gain).is_none());
    let applied = schedule_normalization_apply(&mut p, "now", gain).unwrap();
    assert_eq!((applied.title.as_str(), applied.gain, applied.volume), ("Title now", gain, p.volume));
    assert_eq!(p.current_gain, gain);
    p.record_cached_path("other", "x".to_string());
    assert_eq!(p.current_source_path.as_deref(), Some("now.webm"));
    p.record_cached_path("now", "y".to_string());
    assert_eq!(p.current_source_path.as_deref(), Some("y"));
    assert!(p.is_current("now") && !p.is_current("no"));
    assert!(p.stop_track(Ok(())).is_ok());
    assert_eq!(f32::from_bits(p.current_gain.bits), 1.0);
}

#[test]
fn presence_names_the_track() {
    assert_eq!(set_now_playing(&track("a"), "YouTube"), "Playing Title a · YouTube");
    assert_eq!(set_idle(), "!help · waiting for !play");
}

#[test]
fn silent_turns_on_off_and_over() {
    let mut p = Player::new(1, None);
    assert_eq!(silent(&mut p, None).unwrap(), true);
    assert_eq!(silent(&mut p, None).unwrap(), false);
    for word in ["on", " TRUE ", "1", "Yes", "y"] {
        assert!(silent(&mut p, Some(word)).unwrap() && p.silent);
    }
    for word in ["off", "False", "0", "no", "N\n"] {
        assert!(!silent(&mut p, Some(word)).unwrap() && !p.silent);
    }
    match silent(&mut p, Some(" MayBe ")) {
        Err(MusicBotError::InternalError(e)) => assert_eq!(e, "Unknown silent state `maybe`. Use `on` or `off`."),
        _ => panic!("expected an internal error"),
    }
}

#[test]
fn normalize_takes_effect_at_once() {
    let mut p = playing(&[]);
    match normalize(&mut p, Some("on")).unwrap() {
        (true, NormalizeEffect::Measure { handle, path, track_id }) => {
            assert_eq!((handle, path.as_str(), track_id.as_str()), (7, "now.webm", "now"));
        }
        _ => panic!("expected a measurement"),
    }
    p.current_gain = Level { bits: 1.5f32.to_bits() };
    match normalize(&mut p, None).unwrap() {
        (false, NormalizeEffect::PlainVolume { handle, volume }) => assert_eq!((handle, volume), (7, p.volume)),
        _ => panic!("expected the plain volume"),
    }
    assert_eq!(f32::from_bits(p.current_gain.bits), 1.0);
    p.current_source_path = None;
    assert!(matches!(normalize(&mut p, Some("yes")), Ok((true, NormalizeEffect::Nothing))));
    let mut idle = Player::new(1, None);
    assert!(matches!(normalize(&mut idle, Some("off")), Ok((false, NormalizeEffect::Nothing))));
    match normalize(&mut p, Some("")) {
        Err(MusicBotError::InternalError(e)) => assert_eq!(e, "Unknown normalize state ``. Use `on` or `off`."),
        _ => panic!("expected an internal error"),
    }
}

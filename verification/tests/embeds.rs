use rusty_tunes::embeds::player_embed::{track_description, Embed, EmbedColor, PlayerEmbed};
use rusty_tunes::player::track::{SourceStyle, SourceStyles, Track, TrackMetadata, TrackSource};
use std::collections::VecDeque;
use rusty_tunes::embeds::player_embed::EmbedColor::{DarkBlue, DarkGold, DarkGreen, DarkGrey, DarkRed, Orange};

fn style(emoji: &str, label: &str) -> SourceStyle {
    SourceStyle { emoji: emoji.to_string(), label: label.to_string() }
}

fn styles() -> SourceStyles {
    SourceStyles { youtube: style("Y", "YouTube"), spotify: style("S", "Spotify"), local: style("L", "Local") }
}

fn track(source: TrackSource, title: &str, url: &str) -> Track {
    Track {
        id: "id".to_string(),
        metadata: TrackMetadata {
            id: "id".to_string(),
            title: title.to_string(),
            channel: String::new(),
            track_url: url.to_string(),
            play_url: None,
            duration: None,
        },
        source,
        added_by: String::new(),
    }
}

fn local() -> TrackSource {
    TrackSource::Local("a.mp3".to_string())
}

fn fields(e: &Embed) -> Vec<(&str, &str, bool)> {
    e.fields.iter().map(|f| (f.name.as_str(), f.value.as_str(), f.inline)).collect()
}

fn plain(e: PlayerEmbed) -> (EmbedColor, String, String) {
    let e = e.to_embed(&styles());
    assert!(e.fields.is_empty() && e.footer.is_none());
    (e.color, e.title, e.description.unwrap())
}

#[test]
fn tracks_are_linked_where_they_have_a_page() {
    assert_eq!(track_description(&track(TrackSource::YouTube, "T", "u")), "**[T](u)**");
    assert_eq!(track_description(&track(TrackSource::Spotify, "T", "")), "**T**");
    assert_eq!(track_description(&track(local(), "T", "file://x")), "**T**");
}

#[test]
fn now_playing_shows_author_and_source() {
    let mut t = track(TrackSource::Spotify, "T", "u");
    let e = PlayerEmbed::NowPlaying(&t).to_embed(&styles());
    assert_eq!((e.color, e.title.as_str()), (EmbedColor::DarkBlue, "🎵  Now playing:"));
    assert!(e.description.is_none() && e.footer.is_none());
    assert_eq!(fields(&e), vec![("Song", "**[T](u)**", false), ("Author", "—", true), ("Source", "S Spotify", true)]);
    t.metadata.channel = "C".to_string();
    t.added_by = "Ann".to_string();
    let e = PlayerEmbed::NowPlaying(&t).to_embed(&styles());
    assert_eq!(fields(&e)[1], ("Author", "C", true));
    assert_eq!(e.footer.as_deref(), Some("Added by Ann"));
}

#[test]
fn search_numbers_its_results() {
    let tracks = [track(TrackSource::YouTube, "A", "u"), track(TrackSource::YouTube, "B", "v")];
    let e = PlayerEmbed::Search(&tracks).to_embed(&styles());
    assert_eq!(e.title, "🔍  Search results");
    assert_eq!(e.description.as_deref(), Some("Choose a track to add to the queue:"));
    assert_eq!(fields(&e), vec![("1.  A", "u", false), ("2.  B", "v", false)]);
}

#[test]
fn history_shows_the_latest_first() {
    let history: VecDeque<Track> =
        [track(local(), "A", "file://x"), track(TrackSource::Spotify, "B", ""), track(TrackSource::YouTube, "C", "u")].into();
    let e = PlayerEmbed::History(&history).to_embed(&styles());
    assert_eq!((e.title.as_str(), e.description.as_deref()), ("📜  Recently played", Some("Pick a number to replay a track:")));
    assert_eq!(fields(&e), vec![("1. C", "u", false), ("2. B", "S Spotify", false), ("3. A", "L Local file", false)]);
}

#[test]
fn files_are_listed() {
    let files = [Some("a.mp3".to_string()), None];
    let lists = [
        (PlayerEmbed::LocalFiles(&files), "📁  Local library", "Saved tracks (use `!local play <name>`):"),
        (PlayerEmbed::LocalAmbiguous(&files), "🔎  Multiple matches", "Be more specific — these all matched:"),
        (PlayerEmbed::LocalPickToPlay(&files), "📁  Pick a track to play", "Multiple matches — choose one:"),
        (PlayerEmbed::LocalPickToRemove(&files), "🗑️  Pick a track to remove", "Multiple matches — choose one to delete:"),
    ];
    for (embed, title, description) in lists {
        let e = embed.to_embed(&styles());
        assert_eq!((e.color, e.title.as_str(), e.description.as_deref()), (EmbedColor::DarkBlue, title, Some(description)));
        assert_eq!(fields(&e), vec![("1. a.mp3", "\u{200b}", false), ("2. ?", "\u{200b}", false)]);
    }
}

#[test]
fn plain_messages() {
    let t = track(TrackSource::YouTube, "T", "u");
    let s = |x: &str| x.to_string();
    let cases = [
        (PlayerEmbed::NoSongPlaying, DarkRed, "🚫  No song playing", "No song is currently playing."),
        (PlayerEmbed::IsStopped, DarkRed, "⏹️  Playback stopped", "The playback has been stopped."),
        (PlayerEmbed::Stopped, DarkRed, "⏹️  Playback stopped", "The playback has been stopped."),
        (PlayerEmbed::Paused(&t), Orange, "⏸️  Paused", "**[T](u)**"),
        (PlayerEmbed::Resumed(&t), DarkGreen, "▶️  Resumed", "**[T](u)**"),
        (PlayerEmbed::Volume("50"), DarkBlue, "🔊  Volume", "Volume is set to 50%."),
        (PlayerEmbed::VolumeChanged("50"), DarkBlue, "🔊  Volume changed", "Volume set to 50%."),
        (
            PlayerEmbed::SilentState(true),
            DarkBlue,
            "🔕  Silent mode on",
            "Now Playing announcements are **suppressed** for this session.",
        ),
        (PlayerEmbed::SilentState(false), DarkBlue, "🔔  Silent mode off", "Now Playing announcements are back on for this session."),
        (
            PlayerEmbed::NormalizeState(true),
            DarkBlue,
            "🎚️  Normalization on",
            "Cross-track loudness normalization is **on** — every upcoming track gets its measured gain applied so songs sit at roughly the same perceived loudness.",
        ),
        (
            PlayerEmbed::NormalizeState(false),
            DarkBlue,
            "🎚️  Normalization off",
            "Cross-track loudness normalization is **off** — upcoming tracks play at their original loudness.",
        ),
        (PlayerEmbed::Skipped(12), DarkBlue, "⏭️  Skipped", "Skipped 12 track(s)."),
        (PlayerEmbed::Shuffled, DarkBlue, "🔀  Shuffle", "Queue has been shuffled."),
        (PlayerEmbed::SearchExpired, DarkRed, "🚫  Search expired", "The search has expired. Please try again."),
        (PlayerEmbed::SearchCancelled, DarkGrey, "✖  Search cancelled", "No track was added to the queue."),
        (PlayerEmbed::NoResults(s("q")), DarkGold, "🔎  No results", "No tracks found for: **q**"),
        (
            PlayerEmbed::QuotaExceeded,
            DarkGold,
            "🚧  YouTube API quota exceeded",
            "The bot has hit YouTube's daily search quota. Please try again later or ask the owner to provide a fresh API key.",
        ),
        (PlayerEmbed::PlaybackErrorEmbed(s("m")), DarkRed, "🚫  Playback error", "m"),
        (
            PlayerEmbed::InactivityLeave,
            DarkGold,
            "👋  Leaving voice channel",
            "No tracks have been queued for 5 minutes — leaving the voice channel.",
        ),
        (PlayerEmbed::HistoryEmpty, DarkRed, "📜  No history", "No tracks have been played yet."),
        (PlayerEmbed::Downloading("u"), DarkBlue, "⬇️  Downloading", "Fetching `u`…"),
        (PlayerEmbed::Downloaded("n"), DarkGreen, "✅  Downloaded", "Saved **n** to local library."),
        (PlayerEmbed::DownloadFailed(s("r")), DarkRed, "🚫  Download failed", "r"),
        (
            PlayerEmbed::LocalEmpty,
            DarkGold,
            "📁  Local library empty",
            "No downloaded tracks yet. Use `!local download <url>` to add one.",
        ),
        (PlayerEmbed::LocalNoMatch("q"), DarkGold, "🔎  No local match", "No saved track matches **q**."),
        (PlayerEmbed::LocalRemoved("n"), DarkGreen, "🗑️  Removed", "Deleted **n** from local library."),
        (PlayerEmbed::LocalRenamed { old_name: "a", new_name: "b" }, DarkGreen, "✏️  Renamed", "**a** → **b**"),
    ];
    for (embed, color, title, description) in cases {
        assert_eq!(plain(embed), (color, s(title), s(description)));
    }
}

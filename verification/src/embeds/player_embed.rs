//! The messages that the player shows.

use crate::player::track::{SourceStyles, Track, TrackSource};
use crate::text;
use std::collections::VecDeque;
use vstd::prelude::*;

verus! {

/// The color of a message's edge.
#[derive(Clone, Copy, PartialEq, Eq, Structural, Debug)]
pub enum EmbedColor {
    /// Something to know.
    DarkBlue,
    /// Something that went wrong.
    DarkRed,
    /// Something that worked.
    DarkGreen,
    /// Something to mind.
    DarkGold,
    /// Something called off.
    DarkGrey,
    /// Something on hold.
    Orange,
}

/// A field of a message.
#[derive(Debug)]
pub struct EmbedField {
    /// Its heading.
    pub name: String,
    /// Its text.
    pub value: String,
    /// Whether it stands beside the field before it.
    pub inline: bool,
}

/// What an [`EmbedField`] holds.
pub struct FieldView {
    /// Its heading.
    pub name: Seq<char>,
    /// Its text.
    pub value: Seq<char>,
    /// Whether it stands beside the field before it.
    pub inline: bool,
}

impl View for EmbedField {
    type V = FieldView;

    open spec fn view(&self) -> FieldView {
        FieldView { name: self.name@, value: self.value@, inline: self.inline }
    }
}

/// A message.
#[derive(Debug)]
pub struct Embed {
    /// The color of its edge.
    pub color: EmbedColor,
    /// Its title.
    pub title: String,
    /// Its text, where it has one.
    pub description: Option<String>,
    /// Its fields, in order.
    pub fields: Vec<EmbedField>,
    /// What stands at its foot.
    pub footer: Option<String>,
}

/// What an [`Embed`] holds.
#[verifier::ext_equal]
pub struct EmbedView {
    /// The color of its edge.
    pub color: EmbedColor,
    /// Its title.
    pub title: Seq<char>,
    /// Its text, where it has one.
    pub description: Option<Seq<char>>,
    /// Its fields, in order.
    pub fields: Seq<FieldView>,
    /// What stands at its foot.
    pub footer: Option<Seq<char>>,
}

/// What a list of fields holds.
pub open spec fn field_views(fields: Seq<EmbedField>) -> Seq<FieldView> {
    fields.map_values(|field: EmbedField| field@)
}

impl View for Embed {
    type V = EmbedView;

    open spec fn view(&self) -> EmbedView {
        EmbedView {
            color: self.color,
            title: self.title@,
            description: text::text_of(self.description),
            fields: field_views(self.fields@),
            footer: text::text_of(self.footer),
        }
    }
}

/// How a track is named in a message: its title in bold, as a link to its page
/// where it has one that is of use. A file on the host has none.
pub open spec fn description_of(track: Track) -> Seq<char> {
    if track.source is Local || track.metadata.track_url@.len() == 0 {
        "**"@ + track.metadata.title@ + "**"@
    } else {
        "**["@ + track.metadata.title@ + "]("@ + track.metadata.track_url@ + ")**"@
    }
}

/// Names a track in a message.
pub fn track_description(track: &Track) -> (r: String)
    ensures
        r@ == description_of(*track),
{
    if track.is_local() || track.metadata.track_url.as_str().is_empty() {
        surrounded("**", track.metadata.title.as_str(), "**")
    } else {
        let mut out = surrounded("**[", track.metadata.title.as_str(), "](");
        out.append(track.metadata.track_url.as_str());
        out.append(")**");
        out
    }
}

/// A message of a title and a text.
pub open spec fn plain_embed(
    color: EmbedColor,
    title: Seq<char>,
    description: Seq<char>,
) -> EmbedView {
    EmbedView { color, title, description: Some(description), fields: seq![], footer: None }
}

/// The heading of an entry of a numbered list, counted from one.
pub open spec fn numbered(index: int, gap: Seq<char>, name: Seq<char>) -> Seq<char> {
    text::decimal((index + 1) as nat) + gap + name
}

/// The field of a search result.
pub open spec fn search_field(index: int, track: Track) -> FieldView {
    FieldView {
        name: numbered(index, ".  "@, track.metadata.title@),
        value: track.metadata.track_url@,
        inline: false,
    }
}

/// The message that offers the results of a search.
pub open spec fn search_embed(tracks: Seq<Track>) -> EmbedView {
    EmbedView {
        color: EmbedColor::DarkBlue,
        title: "🔍  Search results"@,
        description: Some("Choose a track to add to the queue:"@),
        fields: tracks.map(|i: int, track: Track| search_field(i, track)),
        footer: None,
    }
}

/// Where a played track is found.
pub open spec fn location_of(track: Track, styles: SourceStyles) -> Seq<char> {
    if track.source is Local {
        styles.of(&track.source).emoji@ + " Local file"@
    } else if track.metadata.track_url@.len() == 0 {
        styles.of(&track.source).emoji@ + " "@ + styles.of(&track.source).label@
    } else {
        track.metadata.track_url@
    }
}

/// The field of a played track.
pub open spec fn history_field(index: int, track: Track, styles: SourceStyles) -> FieldView {
    FieldView {
        name: numbered(index, ". "@, track.metadata.title@),
        value: location_of(track, styles),
        inline: false,
    }
}

/// The field of a file, by its name where that is valid Unicode.
pub open spec fn file_field(index: int, file: Option<String>) -> FieldView {
    FieldView {
        name: numbered(
            index,
            ". "@,
            match file {
                Some(name) => name@,
                None => "?"@,
            },
        ),
        value: "\u{200b}"@,
        inline: false,
    }
}

/// A message that lists files.
pub open spec fn listing_embed(
    title: Seq<char>,
    description: Seq<char>,
    files: Seq<Option<String>>,
) -> EmbedView {
    EmbedView {
        color: EmbedColor::DarkBlue,
        title,
        description: Some(description),
        fields: files.map(|i: int, file: Option<String>| file_field(i, file)),
        footer: None,
    }
}

/// The messages that the player shows.
pub enum PlayerEmbed<'a> {
    /// A track begins.
    NowPlaying(&'a Track),
    /// Nothing plays.
    NoSongPlaying,
    /// Playback is stopped.
    IsStopped,
    /// Playback was stopped.
    Stopped,
    /// Playback was paused.
    Paused(&'a Track),
    /// Playback was resumed.
    Resumed(&'a Track),
    /// The volume, in percent, as it is written.
    Volume(&'a str),
    /// The volume that was set, in percent, as it is written.
    VolumeChanged(&'a str),
    /// Whether announcements are held back.
    SilentState(bool),
    /// Whether loudness is evened out.
    NormalizeState(bool),
    /// How many tracks were skipped.
    Skipped(usize),
    /// The queue was shuffled.
    Shuffled,
    /// The results of a search.
    Search(&'a [Track]),
    /// A search was left alone for too long.
    SearchExpired,
    /// A search was called off.
    SearchCancelled,
    /// A search, by what was searched for, found nothing.
    NoResults(String),
    /// No more searches are allowed today.
    QuotaExceeded,
    /// Playback failed, and why.
    PlaybackErrorEmbed(String),
    /// The bot leaves because nothing was queued.
    InactivityLeave,
    /// The tracks that were played, the latest at the end.
    History(&'a VecDeque<Track>),
    /// Nothing was played.
    HistoryEmpty,
    /// A download, by its address, begins.
    Downloading(&'a str),
    /// A download, by its name, is done.
    Downloaded(&'a str),
    /// A download failed, and why.
    DownloadFailed(String),
    /// The files of the local library, by their names.
    LocalFiles(&'a [Option<String>]),
    /// The local library is empty.
    LocalEmpty,
    /// Nothing in the local library matches.
    LocalNoMatch(&'a str),
    /// A file was removed from the local library.
    LocalRemoved(&'a str),
    /// A file of the local library was renamed.
    LocalRenamed {
        /// The name that it had.
        old_name: &'a str,
        /// The name that it has.
        new_name: &'a str,
    },
    /// Several files of the local library match.
    LocalAmbiguous(&'a [Option<String>]),
    /// Several files of the local library can be played.
    LocalPickToPlay(&'a [Option<String>]),
    /// Several files of the local library can be removed.
    LocalPickToRemove(&'a [Option<String>]),
}

impl<'a> PlayerEmbed<'a> {
    /// What the message holds, given how sources are shown.
    pub open spec fn embed(self, styles: SourceStyles) -> EmbedView {
        match self {
            PlayerEmbed::NowPlaying(track) => EmbedView {
                color: EmbedColor::DarkBlue,
                title: "🎵  Now playing:"@,
                description: None,
                fields: seq![
                    FieldView { name: "Song"@, value: description_of(*track), inline: false },
                    FieldView {
                        name: "Author"@,
                        value: if track.metadata.channel@.len() == 0 {
                            "—"@
                        } else {
                            track.metadata.channel@
                        },
                        inline: true,
                    },
                    FieldView {
                        name: "Source"@,
                        value: styles.of(&track.source).emoji@ + " "@ + styles.of(
                            &track.source,
                        ).label@,
                        inline: true,
                    },
                ],
                footer: if track.added_by@.len() == 0 {
                    None
                } else {
                    Some("Added by "@ + track.added_by@)
                },
            },
            PlayerEmbed::Paused(track) => plain_embed(
                EmbedColor::Orange,
                "⏸️  Paused"@,
                description_of(*track),
            ),
            PlayerEmbed::Resumed(track) => plain_embed(
                EmbedColor::DarkGreen,
                "▶️  Resumed"@,
                description_of(*track),
            ),
            PlayerEmbed::SilentState(on) => if on {
                plain_embed(
                    EmbedColor::DarkBlue,
                    "🔕  Silent mode on"@,
                    "Now Playing announcements are **suppressed** for this session."@,
                )
            } else {
                plain_embed(
                    EmbedColor::DarkBlue,
                    "🔔  Silent mode off"@,
                    "Now Playing announcements are back on for this session."@,
                )
            },
            PlayerEmbed::NormalizeState(on) => if on {
                plain_embed(
                    EmbedColor::DarkBlue,
                    "🎚️  Normalization on"@,
                    "Cross-track loudness normalization is **on** — every upcoming track gets its measured gain applied so songs sit at roughly the same perceived loudness."@,
                )
            } else {
                plain_embed(
                    EmbedColor::DarkBlue,
                    "🎚️  Normalization off"@,
                    "Cross-track loudness normalization is **off** — upcoming tracks play at their original loudness."@,
                )
            },
            PlayerEmbed::Skipped(amount) => plain_embed(
                EmbedColor::DarkBlue,
                "⏭️  Skipped"@,
                "Skipped "@ + text::decimal(amount as nat) + " track(s)."@,
            ),
            PlayerEmbed::Search(tracks) => search_embed(tracks@),
            PlayerEmbed::History(history) => EmbedView {
                color: EmbedColor::DarkBlue,
                title: "📜  Recently played"@,
                description: Some("Pick a number to replay a track:"@),
                fields: history@.reverse().map(
                    |i: int, track: Track| history_field(i, track, styles),
                ),
                footer: None,
            },
            PlayerEmbed::LocalRenamed { old_name, new_name } => plain_embed(
                EmbedColor::DarkGreen,
                "✏️  Renamed"@,
                "**"@ + old_name@ + "** → **"@ + new_name@ + "**"@,
            ),
            PlayerEmbed::NoSongPlaying => plain_embed(
                EmbedColor::DarkRed,
                "🚫  No song playing"@,
                "No song is currently playing."@,
            ),
            PlayerEmbed::IsStopped => plain_embed(
                EmbedColor::DarkRed,
                "⏹️  Playback stopped"@,
                "The playback has been stopped."@,
            ),
            PlayerEmbed::Stopped => plain_embed(
                EmbedColor::DarkRed,
                "⏹️  Playback stopped"@,
                "The playback has been stopped."@,
            ),
            PlayerEmbed::Shuffled => plain_embed(
                EmbedColor::DarkBlue,
                "🔀  Shuffle"@,
                "Queue has been shuffled."@,
            ),
            PlayerEmbed::SearchExpired => plain_embed(
                EmbedColor::DarkRed,
                "🚫  Search expired"@,
                "The search has expired. Please try again."@,
            ),
            PlayerEmbed::SearchCancelled => plain_embed(
                EmbedColor::DarkGrey,
                "✖  Search cancelled"@,
                "No track was added to the queue."@,
            ),
            PlayerEmbed::QuotaExceeded => plain_embed(
                EmbedColor::DarkGold,
                "🚧  YouTube API quota exceeded"@,
                "The bot has hit YouTube's daily search quota. Please try again later or ask the owner to provide a fresh API key."@,
            ),
            PlayerEmbed::InactivityLeave => plain_embed(
                EmbedColor::DarkGold,
                "👋  Leaving voice channel"@,
                "No tracks have been queued for 5 minutes — leaving the voice channel."@,
            ),
            PlayerEmbed::HistoryEmpty => plain_embed(
                EmbedColor::DarkRed,
                "📜  No history"@,
                "No tracks have been played yet."@,
            ),
            PlayerEmbed::LocalEmpty => plain_embed(
                EmbedColor::DarkGold,
                "📁  Local library empty"@,
                "No downloaded tracks yet. Use `!local download <url>` to add one."@,
            ),
            PlayerEmbed::Volume(percent) => plain_embed(
                EmbedColor::DarkBlue,
                "🔊  Volume"@,
                "Volume is set to "@ + percent@ + "%."@,
            ),
            PlayerEmbed::VolumeChanged(percent) => plain_embed(
                EmbedColor::DarkBlue,
                "🔊  Volume changed"@,
                "Volume set to "@ + percent@ + "%."@,
            ),
            PlayerEmbed::NoResults(query) => plain_embed(
                EmbedColor::DarkGold,
                "🔎  No results"@,
                "No tracks found for: **"@ + query@ + "**"@,
            ),
            PlayerEmbed::PlaybackErrorEmbed(message) => plain_embed(
                EmbedColor::DarkRed,
                "🚫  Playback error"@,
                message@,
            ),
            PlayerEmbed::Downloading(url) => plain_embed(
                EmbedColor::DarkBlue,
                "⬇️  Downloading"@,
                "Fetching `"@ + url@ + "`…"@,
            ),
            PlayerEmbed::Downloaded(name) => plain_embed(
                EmbedColor::DarkGreen,
                "✅  Downloaded"@,
                "Saved **"@ + name@ + "** to local library."@,
            ),
            PlayerEmbed::DownloadFailed(reason) => plain_embed(
                EmbedColor::DarkRed,
                "🚫  Download failed"@,
                reason@,
            ),
            PlayerEmbed::LocalNoMatch(query) => plain_embed(
                EmbedColor::DarkGold,
                "🔎  No local match"@,
                "No saved track matches **"@ + query@ + "**."@,
            ),
            PlayerEmbed::LocalRemoved(name) => plain_embed(
                EmbedColor::DarkGreen,
                "🗑️  Removed"@,
                "Deleted **"@ + name@ + "** from local library."@,
            ),
            PlayerEmbed::LocalFiles(files) => listing_embed(
                "📁  Local library"@,
                "Saved tracks (use `!local play <name>`):"@,
                files@,
            ),
            PlayerEmbed::LocalAmbiguous(files) => listing_embed(
                "🔎  Multiple matches"@,
                "Be more specific — these all matched:"@,
                files@,
            ),
            PlayerEmbed::LocalPickToPlay(files) => listing_embed(
                "📁  Pick a track to play"@,
                "Multiple matches — choose one:"@,
                files@,
            ),
            PlayerEmbed::LocalPickToRemove(files) => listing_embed(
                "🗑️  Pick a track to remove"@,
                "Multiple matches — choose one to delete:"@,
                files@,
            ),
        }
    }

    /// Draws the message, given how sources are shown.
    pub fn to_embed(&self, styles: &SourceStyles) -> (r: Embed)
        ensures
            r@ == self.embed(*styles),
    {
        match self {
            PlayerEmbed::NowPlaying(track) => now_playing(track, styles),
            PlayerEmbed::Paused(track) => plain(
                EmbedColor::Orange,
                "⏸️  Paused",
                track_description(track),
            ),
            PlayerEmbed::Resumed(track) => plain(
                EmbedColor::DarkGreen,
                "▶️  Resumed",
                track_description(track),
            ),
            PlayerEmbed::SilentState(on) => if *on {
                plain(
                    EmbedColor::DarkBlue,
                    "🔕  Silent mode on",
                    "Now Playing announcements are **suppressed** for this session.".to_string(),
                )
            } else {
                plain(
                    EmbedColor::DarkBlue,
                    "🔔  Silent mode off",
                    "Now Playing announcements are back on for this session.".to_string(),
                )
            },
            PlayerEmbed::NormalizeState(on) => if *on {
                plain(
                    EmbedColor::DarkBlue,
                    "🎚️  Normalization on",
                    "Cross-track loudness normalization is **on** — every upcoming track gets its measured gain applied so songs sit at roughly the same perceived loudness.".to_string(),
                )
            } else {
                plain(
                    EmbedColor::DarkBlue,
                    "🎚️  Normalization off",
                    "Cross-track loudness normalization is **off** — upcoming tracks play at their original loudness.".to_string(),
                )
            },
            PlayerEmbed::Skipped(amount) => plain(
                EmbedColor::DarkBlue,
                "⏭️  Skipped",
                surrounded(
                    "Skipped ",
                    text::decimal_of(*amount as u64).as_str(),
                    " track(s).",
                ),
            ),
            PlayerEmbed::Search(tracks) => search_results(tracks),
            PlayerEmbed::History(history) => recently_played(history, styles),
            PlayerEmbed::LocalRenamed { old_name, new_name } => {
                let mut out = surrounded("**", old_name, "** → **");
                out.append(new_name);
                out.append("**");
                plain(EmbedColor::DarkGreen, "✏️  Renamed", out)
            },
            PlayerEmbed::NoSongPlaying => plain(
                EmbedColor::DarkRed,
                "🚫  No song playing",
                "No song is currently playing.".to_string(),
            ),
            PlayerEmbed::IsStopped => plain(
                EmbedColor::DarkRed,
                "⏹️  Playback stopped",
                "The playback has been stopped.".to_string(),
            ),
            PlayerEmbed::Stopped => plain(
                EmbedColor::DarkRed,
                "⏹️  Playback stopped",
                "The playback has been stopped.".to_string(),
            ),
            PlayerEmbed::Shuffled => plain(
                EmbedColor::DarkBlue,
                "🔀  Shuffle",
                "Queue has been shuffled.".to_string(),
            ),
            PlayerEmbed::SearchExpired => plain(
                EmbedColor::DarkRed,
                "🚫  Search expired",
                "The search has expired. Please try again.".to_string(),
            ),
            PlayerEmbed::SearchCancelled => plain(
                EmbedColor::DarkGrey,
                "✖  Search cancelled",
                "No track was added to the queue.".to_string(),
            ),
            PlayerEmbed::QuotaExceeded => plain(
                EmbedColor::DarkGold,
                "🚧  YouTube API quota exceeded",
                "The bot has hit YouTube's daily search quota. Please try again later or ask the owner to provide a fresh API key.".to_string(),
            ),
            PlayerEmbed::InactivityLeave => plain(
                EmbedColor::DarkGold,
                "👋  Leaving voice channel",
                "No tracks have been queued for 5 minutes — leaving the voice channel.".to_string(),
            ),
            PlayerEmbed::HistoryEmpty => plain(
                EmbedColor::DarkRed,
                "📜  No history",
                "No tracks have been played yet.".to_string(),
            ),
            PlayerEmbed::LocalEmpty => plain(
                EmbedColor::DarkGold,
                "📁  Local library empty",
                "No downloaded tracks yet. Use `!local download <url>` to add one.".to_string(),
            ),
            PlayerEmbed::Volume(percent) => plain(
                EmbedColor::DarkBlue,
                "🔊  Volume",
                surrounded("Volume is set to ", percent, "%."),
            ),
            PlayerEmbed::VolumeChanged(percent) => plain(
                EmbedColor::DarkBlue,
                "🔊  Volume changed",
                surrounded("Volume set to ", percent, "%."),
            ),
            PlayerEmbed::NoResults(query) => plain(
                EmbedColor::DarkGold,
                "🔎  No results",
                surrounded("No tracks found for: **", query.as_str(), "**"),
            ),
            PlayerEmbed::PlaybackErrorEmbed(message) => plain(EmbedColor::DarkRed, "🚫  Playback error", message.clone()),
            PlayerEmbed::Downloading(url) => plain(
                EmbedColor::DarkBlue,
                "⬇️  Downloading",
                surrounded("Fetching `", url, "`…"),
            ),
            PlayerEmbed::Downloaded(name) => plain(
                EmbedColor::DarkGreen,
                "✅  Downloaded",
                surrounded("Saved **", name, "** to local library."),
            ),
            PlayerEmbed::DownloadFailed(reason) => plain(EmbedColor::DarkRed, "🚫  Download failed", reason.clone()),
            PlayerEmbed::LocalNoMatch(query) => plain(
                EmbedColor::DarkGold,
                "🔎  No local match",
                surrounded("No saved track matches **", query, "**."),
            ),
            PlayerEmbed::LocalRemoved(name) => plain(
                EmbedColor::DarkGreen,
                "🗑️  Removed",
                surrounded("Deleted **", name, "** from local library."),
            ),
            PlayerEmbed::LocalFiles(files) => local_listing_embed(
                "📁  Local library",
                "Saved tracks (use `!local play <name>`):",
                files,
            ),
            PlayerEmbed::LocalAmbiguous(files) => local_listing_embed(
                "🔎  Multiple matches",
                "Be more specific — these all matched:",
                files,
            ),
            PlayerEmbed::LocalPickToPlay(files) => local_listing_embed(
                "📁  Pick a track to play",
                "Multiple matches — choose one:",
                files,
            ),
            PlayerEmbed::LocalPickToRemove(files) => local_listing_embed(
                "🗑️  Pick a track to remove",
                "Multiple matches — choose one to delete:",
                files,
            ),
        }
    }
}

/// `middle` between two texts.
fn surrounded(before: &str, middle: &str, after: &str) -> (r: String)
    ensures
        r@ == before@ + middle@ + after@,
{
    let mut out = before.to_string();
    out.append(middle);
    out.append(after);
    out
}

/// Draws a message of a title and a text.
fn plain(color: EmbedColor, title: &str, description: String) -> (r: Embed)
    ensures
        r@ == plain_embed(color, title@, description@),
{
    let r = Embed {
        color,
        title: title.to_string(),
        description: Some(description),
        fields: Vec::new(),
        footer: None,
    };
    assert(r@.fields =~= seq![]);
    r
}

/// Writes the heading of an entry of a numbered list.
fn heading(index: usize, gap: &str, name: &str) -> (r: String)
    requires
        index < usize::MAX,
    ensures
        r@ == numbered(index as int, gap@, name@),
{
    let mut out = text::decimal_of(index as u64 + 1);
    out.append(gap);
    out.append(name);
    out
}

/// Draws the message that a track begins.
fn now_playing(track: &Track, styles: &SourceStyles) -> (r: Embed)
    ensures
        r@ == PlayerEmbed::NowPlaying(track).embed(*styles),
{
    let author = if track.metadata.channel.as_str().is_empty() {
        "—".to_string()
    } else {
        track.metadata.channel.clone()
    };
    let style = styles.of(&track.source);
    let source = surrounded(style.emoji.as_str(), " ", style.label.as_str());
    let mut fields: Vec<EmbedField> = Vec::new();
    fields.push(
        EmbedField { name: "Song".to_string(), value: track_description(track), inline: false },
    );
    fields.push(EmbedField { name: "Author".to_string(), value: author, inline: true });
    fields.push(EmbedField { name: "Source".to_string(), value: source, inline: true });
    let footer = if track.added_by.as_str().is_empty() {
        None
    } else {
        Some(surrounded("Added by ", track.added_by.as_str(), ""))
    };
    proof {
        reveal_strlit("");
        assert(("Added by "@ + track.added_by@ + ""@) =~= "Added by "@ + track.added_by@);
    }
    let r = Embed {
        color: EmbedColor::DarkBlue,
        title: "🎵  Now playing:".to_string(),
        description: None,
        fields,
        footer,
    };
    assert(r@.fields =~= PlayerEmbed::NowPlaying(track).embed(*styles).fields);
    r
}

/// Draws the results of a search.
fn search_results(tracks: &[Track]) -> (r: Embed)
    ensures
        r@ == search_embed(tracks@),
{
    let mut fields: Vec<EmbedField> = Vec::new();
    let ghost all = tracks@.map(|i: int, track: Track| search_field(i, track));
    for i in 0..tracks.len()
        invariant
            all == tracks@.map(|i: int, track: Track| search_field(i, track)),
            field_views(fields@) == all.take(i as int),
    {
        let ghost before = fields@;
        fields.push(
            EmbedField {
                name: heading(i, ".  ", tracks[i].metadata.title.as_str()),
                value: tracks[i].metadata.track_url.clone(),
                inline: false,
            },
        );
        assert(field_views(fields@) =~= field_views(before).push(fields@.last()@));
        assert(field_views(fields@) =~= all.take(i + 1));
    }
    assert(all.take(tracks@.len() as int) =~= all);
    Embed {
        color: EmbedColor::DarkBlue,
        title: "🔍  Search results".to_string(),
        description: Some("Choose a track to add to the queue:".to_string()),
        fields,
        footer: None,
    }
}

/// Says where a played track is found.
fn location(track: &Track, styles: &SourceStyles) -> (r: String)
    ensures
        r@ == location_of(*track, *styles),
{
    let style = styles.of(&track.source);
    match &track.source {
        TrackSource::Local(_) => {
            let mut out = style.emoji.clone();
            out.append(" Local file");
            out
        },
        _ => if track.metadata.track_url.as_str().is_empty() {
            surrounded(style.emoji.as_str(), " ", style.label.as_str())
        } else {
            track.metadata.track_url.clone()
        },
    }
}

/// Draws the tracks that were played, the latest first.
fn recently_played(history: &VecDeque<Track>, styles: &SourceStyles) -> (r: Embed)
    ensures
        r@ == PlayerEmbed::History(history).embed(*styles),
{
    let mut fields: Vec<EmbedField> = Vec::new();
    let count = history.len();
    let ghost all = history@.reverse().map(
        |i: int, track: Track| history_field(i, track, *styles),
    );
    for i in 0..count
        invariant
            count == history@.len(),
            all == history@.reverse().map(
                |i: int, track: Track| history_field(i, track, *styles),
            ),
            field_views(fields@) == all.take(i as int),
    {
        let ghost before = fields@;
        let track = &history[count - 1 - i];
        fields.push(
            EmbedField {
                name: heading(i, ". ", track.metadata.title.as_str()),
                value: location(track, styles),
                inline: false,
            },
        );
        assert(field_views(fields@) =~= field_views(before).push(fields@.last()@));
        assert(field_views(fields@) =~= all.take(i + 1));
    }
    assert(all.take(count as int) =~= all);
    Embed {
        color: EmbedColor::DarkBlue,
        title: "📜  Recently played".to_string(),
        description: Some("Pick a number to replay a track:".to_string()),
        fields,
        footer: None,
    }
}

/// Draws a message that lists files, by their names where those are valid
/// Unicode.
fn local_listing_embed(title: &str, description: &str, files: &[Option<String>]) -> (r: Embed)
    ensures
        r@ == listing_embed(title@, description@, files@),
{
    let mut fields: Vec<EmbedField> = Vec::new();
    let ghost all = files@.map(|i: int, file: Option<String>| file_field(i, file));
    for i in 0..files.len()
        invariant
            all == files@.map(|i: int, file: Option<String>| file_field(i, file)),
            field_views(fields@) == all.take(i as int),
    {
        let ghost before = fields@;
        let name = match &files[i] {
            Some(name) => heading(i, ". ", name.as_str()),
            None => heading(i, ". ", "?"),
        };
        fields.push(EmbedField { name, value: "\u{200b}".to_string(), inline: false });
        assert(field_views(fields@) =~= field_views(before).push(fields@.last()@));
        assert(field_views(fields@) =~= all.take(i + 1));
    }
    assert(all.take(files@.len() as int) =~= all);
    Embed {
        color: EmbedColor::DarkBlue,
        title: title.to_string(),
        description: Some(description.to_string()),
        fields,
        footer: None,
    }
}

/// A track is named by its title in bold: as a link to its page exactly where it
/// is fetched and has a page.
pub proof fn law_tracks_are_linked_to_their_page(track: Track, r: String)
    requires
        call_ensures(track_description, (&track,), r),
    ensures
        ({
            let linked = !(track.source is Local) && track.metadata.track_url@.len() > 0;
            &&& linked ==> r@ == "**["@ + track.metadata.title@ + "]("@ + track.metadata.track_url@
                + ")**"@
            &&& !linked ==> r@ == "**"@ + track.metadata.title@ + "**"@
        }),
{
}

/// Every message but the announcement of a track has a text, and only lists and
/// announcements have fields. Only an announcement has a foot.
pub proof fn law_messages_have_their_parts(embed: PlayerEmbed, styles: SourceStyles, r: Embed)
    requires
        call_ensures(PlayerEmbed::to_embed, (&embed, &styles), r),
    ensures
        r.description is None <==> embed is NowPlaying,
        r.footer is Some ==> embed is NowPlaying,
        r.fields@.len() > 0 ==> embed is NowPlaying || embed is Search || embed is History
            || embed is LocalFiles || embed is LocalAmbiguous || embed is LocalPickToPlay
            || embed is LocalPickToRemove,
{
    assert(field_views(r.fields@).len() == r.fields@.len());
}

/// An announcement names the track, who published it, and where it comes from in
/// the style of its source. Who queued it stands at the foot, if anyone is named.
pub proof fn law_announcements_name_the_track(
    track: Track,
    styles: SourceStyles,
    r: Embed,
    description: String,
    style: &crate::player::track::SourceStyle,
)
    requires
        call_ensures(PlayerEmbed::to_embed, (&PlayerEmbed::NowPlaying(&track), &styles), r),
        call_ensures(track_description, (&track,), description),
        call_ensures(SourceStyles::of, (&styles, &track.source), style),
    ensures
        r.color == EmbedColor::DarkBlue,
        r.title@ == "🎵  Now playing:"@,
        r.fields@.len() == 3,
        r.fields@[0].name@ == "Song"@ && r.fields@[0].value@ == description@ && !r.fields@[0].inline,
        r.fields@[1].name@ == "Author"@ && r.fields@[1].inline,
        track.metadata.channel@.len() > 0 ==> r.fields@[1].value@ == track.metadata.channel@,
        track.metadata.channel@.len() == 0 ==> r.fields@[1].value@ == "—"@,
        r.fields@[2].name@ == "Source"@ && r.fields@[2].inline,
        r.fields@[2].value@ == style.emoji@ + " "@ + style.label@,
        track.added_by@.len() > 0 ==> (r.footer matches Some(foot) && foot@ == "Added by "@
            + track.added_by@),
        track.added_by@.len() == 0 ==> r.footer is None,
{
    let views = field_views(r.fields@);
    assert(views.len() == r.fields@.len());
    assert(views[0] == r.fields@[0]@ && views[1] == r.fields@[1]@ && views[2] == r.fields@[2]@);
}

/// Pausing and resuming name the track.
pub proof fn law_pauses_name_the_track(
    track: Track,
    styles: SourceStyles,
    paused: Embed,
    resumed: Embed,
    description: String,
)
    requires
        call_ensures(PlayerEmbed::to_embed, (&PlayerEmbed::Paused(&track), &styles), paused),
        call_ensures(PlayerEmbed::to_embed, (&PlayerEmbed::Resumed(&track), &styles), resumed),
        call_ensures(track_description, (&track,), description),
    ensures
        paused.color == EmbedColor::Orange && paused.title@ == "⏸️  Paused"@,
        paused.description is Some && paused.description->0@ == description@,
        resumed.color == EmbedColor::DarkGreen && resumed.title@ == "▶️  Resumed"@,
        resumed.description is Some && resumed.description->0@ == description@,
{
}

/// A search lists every result, in order, under its number and title, with its
/// page.
pub proof fn law_searches_list_their_results(
    tracks: &[Track],
    styles: SourceStyles,
    r: Embed,
    i: int,
)
    requires
        call_ensures(PlayerEmbed::to_embed, (&PlayerEmbed::Search(tracks), &styles), r),
    ensures
        r.color == EmbedColor::DarkBlue && r.title@ == "🔍  Search results"@,
        r.description is Some && r.description->0@ == "Choose a track to add to the queue:"@,
        r.fields@.len() == tracks@.len(),
        0 <= i < tracks@.len() ==> {
            &&& r.fields@[i].name@ == text::decimal((i + 1) as nat) + ".  "@
                + tracks@[i].metadata.title@
            &&& r.fields@[i].value@ == tracks@[i].metadata.track_url@
            &&& !r.fields@[i].inline
        },
{
    let views = field_views(r.fields@);
    assert(views.len() == r.fields@.len());
    if 0 <= i < tracks@.len() {
        assert(views[i] == r.fields@[i]@);
    }
}

/// The history lists every track that is remembered, the latest as number one,
/// with the page of a fetched track, its source where it has no page, and a remark
/// where it is a file.
pub proof fn law_history_lists_the_latest_first(
    history: &VecDeque<Track>,
    styles: SourceStyles,
    r: Embed,
    i: int,
    style: &crate::player::track::SourceStyle,
)
    requires
        call_ensures(PlayerEmbed::to_embed, (&PlayerEmbed::History(history), &styles), r),
        0 <= i < history@.len(),
        call_ensures(
            SourceStyles::of,
            (&styles, &history@[history@.len() - 1 - i].source),
            style,
        ),
    ensures
        r.color == EmbedColor::DarkBlue && r.title@ == "📜  Recently played"@,
        r.description is Some && r.description->0@ == "Pick a number to replay a track:"@,
        r.fields@.len() == history@.len(),
        ({
            let track = history@[history@.len() - 1 - i];
            &&& r.fields@[i].name@ == text::decimal((i + 1) as nat) + ". "@ + track.metadata.title@
            &&& !r.fields@[i].inline
            &&& track.source is Local ==> r.fields@[i].value@ == style.emoji@ + " Local file"@
            &&& !(track.source is Local) && track.metadata.track_url@.len() == 0
                ==> r.fields@[i].value@ == style.emoji@ + " "@ + style.label@
            &&& !(track.source is Local) && track.metadata.track_url@.len() > 0
                ==> r.fields@[i].value@ == track.metadata.track_url@
        }),
{
    let views = field_views(r.fields@);
    assert(views.len() == r.fields@.len());
    assert(views[i] == r.fields@[i]@);
    assert(history@.reverse()[i] == history@[history@.len() - 1 - i]);
}

/// Lists of files show every file, in order, under its number and name, or a
/// question mark where the name is not known. Each is headed by what it is for.
pub proof fn law_listings_show_every_file(
    files: &[Option<String>],
    styles: SourceStyles,
    embed: PlayerEmbed,
    r: Embed,
    i: int,
)
    requires
        call_ensures(PlayerEmbed::to_embed, (&embed, &styles), r),
        embed == PlayerEmbed::LocalFiles(files) || embed == PlayerEmbed::LocalAmbiguous(files)
            || embed == PlayerEmbed::LocalPickToPlay(files) || embed
            == PlayerEmbed::LocalPickToRemove(files),
    ensures
        r.color == EmbedColor::DarkBlue,
        r.description is Some,
        embed is LocalFiles ==> r.title@ == "📁  Local library"@ && r.description->0@
            == "Saved tracks (use `!local play <name>`):"@,
        embed is LocalAmbiguous ==> r.title@ == "🔎  Multiple matches"@ && r.description->0@
            == "Be more specific — these all matched:"@,
        embed is LocalPickToPlay ==> r.title@ == "📁  Pick a track to play"@ && r.description->0@
            == "Multiple matches — choose one:"@,
        embed is LocalPickToRemove ==> r.title@ == "🗑️  Pick a track to remove"@
            && r.description->0@ == "Multiple matches — choose one to delete:"@,
        r.fields@.len() == files@.len(),
        0 <= i < files@.len() ==> {
            &&& files@[i] matches Some(name) ==> r.fields@[i].name@ == text::decimal((i + 1) as nat)
                + ". "@ + name@
            &&& files@[i] is None ==> r.fields@[i].name@ == text::decimal((i + 1) as nat) + ". "@
                + "?"@
            &&& r.fields@[i].value@ == "\u{200b}"@
            &&& !r.fields@[i].inline
        },
{
    let views = field_views(r.fields@);
    assert(views.len() == r.fields@.len());
    if 0 <= i < files@.len() {
        assert(views[i] == r.fields@[i]@);
    }
}

/// Messages that quote something quote it as it is.
pub proof fn law_quotes_are_kept(embed: PlayerEmbed, styles: SourceStyles, r: Embed)
    requires
        call_ensures(PlayerEmbed::to_embed, (&embed, &styles), r),
    ensures
        embed matches PlayerEmbed::Skipped(amount) ==> {
            &&& r.color == EmbedColor::DarkBlue
            &&& r.title@ == "⏭️  Skipped"@
            &&& r.description is Some
            &&& r.description->0@ == "Skipped "@ + text::decimal(amount as nat) + " track(s)."@
        },
        embed matches PlayerEmbed::LocalRenamed { old_name, new_name } ==> {
            &&& r.color == EmbedColor::DarkGreen
            &&& r.title@ == "✏️  Renamed"@
            &&& r.description is Some
            &&& r.description->0@ == "**"@ + old_name@ + "** → **"@ + new_name@ + "**"@
        },
        embed matches PlayerEmbed::Volume(percent) ==> {
            &&& r.color == EmbedColor::DarkBlue
            &&& r.title@ == "🔊  Volume"@
            &&& r.description is Some
            &&& r.description->0@ == "Volume is set to "@ + percent@ + "%."@
        },
        embed matches PlayerEmbed::VolumeChanged(percent) ==> {
            &&& r.color == EmbedColor::DarkBlue
            &&& r.title@ == "🔊  Volume changed"@
            &&& r.description is Some
            &&& r.description->0@ == "Volume set to "@ + percent@ + "%."@
        },
        embed matches PlayerEmbed::NoResults(query) ==> {
            &&& r.color == EmbedColor::DarkGold
            &&& r.title@ == "🔎  No results"@
            &&& r.description is Some
            &&& r.description->0@ == "No tracks found for: **"@ + query@ + "**"@
        },
        embed matches PlayerEmbed::PlaybackErrorEmbed(message) ==> {
            &&& r.color == EmbedColor::DarkRed
            &&& r.title@ == "🚫  Playback error"@
            &&& r.description is Some
            &&& r.description->0@ == message@
        },
        embed matches PlayerEmbed::Downloading(url) ==> {
            &&& r.color == EmbedColor::DarkBlue
            &&& r.title@ == "⬇️  Downloading"@
            &&& r.description is Some
            &&& r.description->0@ == "Fetching `"@ + url@ + "`…"@
        },
        embed matches PlayerEmbed::Downloaded(name) ==> {
            &&& r.color == EmbedColor::DarkGreen
            &&& r.title@ == "✅  Downloaded"@
            &&& r.description is Some
            &&& r.description->0@ == "Saved **"@ + name@ + "** to local library."@
        },
        embed matches PlayerEmbed::DownloadFailed(reason) ==> {
            &&& r.color == EmbedColor::DarkRed
            &&& r.title@ == "🚫  Download failed"@
            &&& r.description is Some
            &&& r.description->0@ == reason@
        },
        embed matches PlayerEmbed::LocalNoMatch(query) ==> {
            &&& r.color == EmbedColor::DarkGold
            &&& r.title@ == "🔎  No local match"@
            &&& r.description is Some
            &&& r.description->0@ == "No saved track matches **"@ + query@ + "**."@
        },
        embed matches PlayerEmbed::LocalRemoved(name) ==> {
            &&& r.color == EmbedColor::DarkGreen
            &&& r.title@ == "🗑️  Removed"@
            &&& r.description is Some
            &&& r.description->0@ == "Deleted **"@ + name@ + "** from local library."@
        },
{
}

/// Messages that quote nothing say what they are for.
pub proof fn law_fixed_messages_say_what_they_are_for(
    embed: PlayerEmbed,
    styles: SourceStyles,
    r: Embed,
)
    requires
        call_ensures(PlayerEmbed::to_embed, (&embed, &styles), r),
    ensures
        embed is NoSongPlaying ==> {
            &&& r.color == EmbedColor::DarkRed
            &&& r.title@ == "🚫  No song playing"@
            &&& r.description is Some
            &&& r.description->0@ == "No song is currently playing."@
        },
        embed is IsStopped ==> {
            &&& r.color == EmbedColor::DarkRed
            &&& r.title@ == "⏹️  Playback stopped"@
            &&& r.description is Some
            &&& r.description->0@ == "The playback has been stopped."@
        },
        embed is Stopped ==> {
            &&& r.color == EmbedColor::DarkRed
            &&& r.title@ == "⏹️  Playback stopped"@
            &&& r.description is Some
            &&& r.description->0@ == "The playback has been stopped."@
        },
        embed is Shuffled ==> {
            &&& r.color == EmbedColor::DarkBlue
            &&& r.title@ == "🔀  Shuffle"@
            &&& r.description is Some
            &&& r.description->0@ == "Queue has been shuffled."@
        },
        embed is SearchExpired ==> {
            &&& r.color == EmbedColor::DarkRed
            &&& r.title@ == "🚫  Search expired"@
            &&& r.description is Some
            &&& r.description->0@ == "The search has expired. Please try again."@
        },
        embed is SearchCancelled ==> {
            &&& r.color == EmbedColor::DarkGrey
            &&& r.title@ == "✖  Search cancelled"@
            &&& r.description is Some
            &&& r.description->0@ == "No track was added to the queue."@
        },
        embed is QuotaExceeded ==> {
            &&& r.color == EmbedColor::DarkGold
            &&& r.title@ == "🚧  YouTube API quota exceeded"@
            &&& r.description is Some
            &&& r.description->0@ == "The bot has hit YouTube's daily search quota. Please try again later or ask the owner to provide a fresh API key."@
        },
        embed is InactivityLeave ==> {
            &&& r.color == EmbedColor::DarkGold
            &&& r.title@ == "👋  Leaving voice channel"@
            &&& r.description is Some
            &&& r.description->0@ == "No tracks have been queued for 5 minutes — leaving the voice channel."@
        },
        embed is HistoryEmpty ==> {
            &&& r.color == EmbedColor::DarkRed
            &&& r.title@ == "📜  No history"@
            &&& r.description is Some
            &&& r.description->0@ == "No tracks have been played yet."@
        },
        embed is LocalEmpty ==> {
            &&& r.color == EmbedColor::DarkGold
            &&& r.title@ == "📁  Local library empty"@
            &&& r.description is Some
            &&& r.description->0@ == "No downloaded tracks yet. Use `!local download <url>` to add one."@
        },
        embed == PlayerEmbed::SilentState(true) ==> {
            &&& r.color == EmbedColor::DarkBlue
            &&& r.title@ == "🔕  Silent mode on"@
            &&& r.description is Some
            &&& r.description->0@ == "Now Playing announcements are **suppressed** for this session."@
        },
        embed == PlayerEmbed::SilentState(false) ==> {
            &&& r.color == EmbedColor::DarkBlue
            &&& r.title@ == "🔔  Silent mode off"@
            &&& r.description is Some
            &&& r.description->0@ == "Now Playing announcements are back on for this session."@
        },
        embed == PlayerEmbed::NormalizeState(true) ==> {
            &&& r.color == EmbedColor::DarkBlue
            &&& r.title@ == "🎚️  Normalization on"@
            &&& r.description is Some
            &&& r.description->0@ == "Cross-track loudness normalization is **on** — every upcoming track gets its measured gain applied so songs sit at roughly the same perceived loudness."@
        },
        embed == PlayerEmbed::NormalizeState(false) ==> {
            &&& r.color == EmbedColor::DarkBlue
            &&& r.title@ == "🎚️  Normalization off"@
            &&& r.description is Some
            &&& r.description->0@ == "Cross-track loudness normalization is **off** — upcoming tracks play at their original loudness."@
        },
{
}

} // verus!

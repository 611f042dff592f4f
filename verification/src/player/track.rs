//! Tracks, playlists and what can go wrong when they are played.

use crate::bot::MusicBotError;
use crate::units::Nanos;
use vstd::prelude::*;

verus! {

/// The longest track that is kept in the cache: ten minutes. Anything longer
/// is streamed each time.
pub const LONG_FORM_THRESHOLD: Nanos = 600_000_000_000;

/// Where a track comes from.
#[derive(Debug)]
pub enum TrackSource {
    /// YouTube.
    YouTube,
    /// Spotify, played through YouTube.
    Spotify,
    /// A file on the host, by its path.
    Local(String),
}

/// What is known about a track.
#[derive(Debug)]
pub struct TrackMetadata {
    /// The id at its source.
    pub id: String,
    /// The title.
    pub title: String,
    /// Who published it.
    pub channel: String,
    /// The page of the track. Empty where it has none.
    pub track_url: String,
    /// Where the audio is fetched from, if not from the page.
    pub play_url: Option<String>,
    /// How long it plays, where that is known.
    pub duration: Option<Nanos>,
}

/// A track in a queue.
#[derive(Debug)]
pub struct Track {
    /// The id of this track.
    pub id: String,
    /// What is known about it.
    pub metadata: TrackMetadata,
    /// Where it comes from.
    pub source: TrackSource,
    /// Who put it in the queue. Empty where nobody is named.
    pub added_by: String,
}

/// A list of tracks that is queued as a whole.
#[derive(Debug)]
pub struct Playlist {
    /// The tracks, in playing order.
    pub tracks: Vec<Track>,
}

/// What a playback operation reports when it fails.
#[derive(Debug)]
pub enum PlaybackError {
    /// Anything that went wrong inside the bot, with a description.
    InternalError(String),
    /// Nothing is playing.
    PlaybackNotActive,
    /// Something is playing already.
    PlaybackAlreadyActive,
    /// The queue is empty.
    NoTracksInQueue,
    /// Playback is paused already.
    PlaybackAlreadyPaused,
    /// Playback is not paused.
    PlaybackNotPaused,
    /// The queue has no track at this position.
    InvalidQueueIndex(usize),
}

impl PlaybackError {
    /// Whether this is an internal error with exactly this description.
    pub open spec fn is_internal(self, reason: Seq<char>) -> bool {
        self matches PlaybackError::InternalError(text) && text@ == reason
    }
}

impl vstd::std_specs::convert::FromSpecImpl<MusicBotError> for PlaybackError {
    open spec fn obeys_from_spec() -> bool {
        false
    }

    open spec fn from_spec(value: MusicBotError) -> PlaybackError {
        PlaybackError::PlaybackNotActive
    }
}

impl From<MusicBotError> for PlaybackError {
    /// An internal error that holds the text of the bot's error.
    fn from(value: MusicBotError) -> (r: PlaybackError)
        ensures
            r.is_internal(value.text()),
    {
        PlaybackError::InternalError(value.message())
    }
}

fn copy_of(s: &Option<String>) -> (r: Option<String>)
    ensures
        r == *s,
{
    match s {
        Some(s) => Some(s.clone()),
        None => None,
    }
}

impl Clone for TrackSource {
    fn clone(&self) -> (r: Self)
        ensures
            r == *self,
    {
        match self {
            TrackSource::YouTube => TrackSource::YouTube,
            TrackSource::Spotify => TrackSource::Spotify,
            TrackSource::Local(path) => TrackSource::Local(path.clone()),
        }
    }
}

impl Clone for TrackMetadata {
    fn clone(&self) -> (r: Self)
        ensures
            r == *self,
    {
        TrackMetadata {
            id: self.id.clone(),
            title: self.title.clone(),
            channel: self.channel.clone(),
            track_url: self.track_url.clone(),
            play_url: copy_of(&self.play_url),
            duration: self.duration,
        }
    }
}

impl Clone for Track {
    fn clone(&self) -> (r: Self)
        ensures
            r == *self,
    {
        Track {
            id: self.id.clone(),
            metadata: self.metadata.clone(),
            source: self.source.clone(),
            added_by: self.added_by.clone(),
        }
    }
}

impl Track {
    /// Whether the track is known to be longer than `cap`.
    pub open spec fn too_long(self, cap: Nanos) -> bool {
        self.metadata.duration matches Some(d) && d > cap
    }

    /// The track with another duration.
    pub open spec fn with_duration(self, duration: Option<Nanos>) -> Track {
        Track { metadata: TrackMetadata { duration, ..self.metadata }, ..self }
    }

    /// Where the audio is fetched from.
    pub open spec fn fetched_from(self) -> Seq<char> {
        match self.metadata.play_url {
            Some(url) => url@,
            None => self.metadata.track_url@,
        }
    }

    /// How long the track plays, where that is known.
    pub fn duration(&self) -> (r: Option<Nanos>)
        ensures
            r == self.metadata.duration,
    {
        self.metadata.duration
    }

    /// Whether the track is known to be longer than `cap`.
    pub fn is_known_too_long(&self, cap: Nanos) -> (r: bool)
        ensures
            r == self.too_long(cap),
    {
        match self.metadata.duration {
            Some(d) => d > cap,
            None => false,
        }
    }

    /// Whether the track is known to be too long for the cache.
    pub fn is_known_long_form(&self) -> (r: bool)
        ensures
            r == self.too_long(LONG_FORM_THRESHOLD),
    {
        self.is_known_too_long(LONG_FORM_THRESHOLD)
    }

    /// Whether the track is a file on the host.
    pub fn is_local(&self) -> (r: bool)
        ensures
            r == (self.source is Local),
    {
        match self.source {
            TrackSource::Local(_) => true,
            _ => false,
        }
    }

    /// The address that the audio is fetched from.
    pub fn input_url(&self) -> (r: String)
        ensures
            r@ == self.fetched_from(),
    {
        match &self.metadata.play_url {
            Some(url) => url.clone(),
            None => self.metadata.track_url.clone(),
        }
    }
}

/// How a source is shown to users.
pub struct SourceStyle {
    /// The emoji in front of its name.
    pub emoji: String,
    /// Its name.
    pub label: String,
}

/// How each source is shown to users.
pub struct SourceStyles {
    /// YouTube.
    pub youtube: SourceStyle,
    /// Spotify.
    pub spotify: SourceStyle,
    /// Files on the host.
    pub local: SourceStyle,
}

impl SourceStyles {
    /// How `source` is shown.
    pub open spec fn spec_of(&self, source: &TrackSource) -> &SourceStyle {
        match source {
            TrackSource::YouTube => &self.youtube,
            TrackSource::Spotify => &self.spotify,
            TrackSource::Local(_) => &self.local,
        }
    }

    /// How `source` is shown.
    #[verifier::when_used_as_spec(spec_of)]
    pub fn of(&self, source: &TrackSource) -> (r: &SourceStyle)
        ensures
            r == self.spec_of(source),
    {
        match source {
            TrackSource::YouTube => &self.youtube,
            TrackSource::Spotify => &self.spotify,
            TrackSource::Local(_) => &self.local,
        }
    }
}

/// An error of the bot becomes an internal error that says the same.
pub proof fn law_bot_errors_keep_their_text(value: MusicBotError, r: PlaybackError, message: String)
    requires
        call_ensures(<PlaybackError as From<MusicBotError>>::from, (value,), r),
        call_ensures(MusicBotError::message, (&value,), message),
    ensures
        r matches PlaybackError::InternalError(text) && text@ == message@,
{
}

/// A track is too long exactly where its duration is known and greater than the
/// cap, whatever its source, and too long for the cache exactly where it is known
/// to last more than ten minutes.
pub proof fn law_lengths_are_compared(track: Track, cap: Nanos, r: bool, long_form: bool)
    requires
        call_ensures(Track::is_known_too_long, (&track, cap), r),
        call_ensures(Track::is_known_long_form, (&track,), long_form),
    ensures
        track.metadata.duration matches Some(d) ==> (r <==> d > cap),
        track.metadata.duration matches Some(d) ==> (long_form <==> d > 600_000_000_000u128),
        track.metadata.duration is None ==> !r && !long_form,
{
}

/// The duration of a track is the one that its metadata give.
pub proof fn law_duration_is_reported(track: Track, r: Option<Nanos>)
    requires
        call_ensures(Track::duration, (&track,), r),
    ensures
        r == track.metadata.duration,
{
}

/// Only files on the host are local.
pub proof fn law_only_files_are_local(track: Track, r: bool)
    requires
        call_ensures(Track::is_local, (&track,), r),
    ensures
        r <==> track.source is Local,
        r <==> !(track.source is YouTube) && !(track.source is Spotify),
{
}

/// Audio is fetched from its own address where a track has one, and else from
/// the track's page, whatever the source.
pub proof fn law_audio_has_an_address(track: Track, r: String)
    requires
        call_ensures(Track::input_url, (&track,), r),
    ensures
        track.metadata.play_url matches Some(url) ==> r@ == url@,
        track.metadata.play_url is None ==> r@ == track.metadata.track_url@,
{
}

/// Each source is shown in its own style.
pub proof fn law_sources_have_their_style(styles: SourceStyles, source: TrackSource, r: &SourceStyle)
    requires
        call_ensures(SourceStyles::of, (&styles, &source), r),
    ensures
        source is YouTube ==> *r == styles.youtube,
        source is Spotify ==> *r == styles.spotify,
        source is Local ==> *r == styles.local,
{
}

} // verus!

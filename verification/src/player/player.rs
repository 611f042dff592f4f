//! The player of a guild: what is playing, what comes next and what was played.
//!
//! The audio itself is driven by the caller. A track that plays has a handle,
//! known here by its id, and an operation that has to control it is told how
//! the control went: it takes a [`ControlReply`]. What is to be controlled
//! can be asked for beforehand.

use crate::player::track::{PlaybackError, Playlist, Track};
use crate::text;
use crate::units::Level;
use rand::seq::SliceRandom;
use std::collections::VecDeque;
use vstd::prelude::*;

verus! {

/// How many played tracks are remembered.
pub const HISTORY_LEN: usize = 10;

/// How controlling an audio handle went, with a description of what went wrong.
/// Where there is no handle to control it counts for nothing.
pub type ControlReply = Result<(), String>;

/// The player of a guild.
pub struct Player {
    /// Whether playback is active, paused or not.
    pub is_playing: bool,
    /// Whether playback is paused.
    pub is_paused: bool,
    /// The handle of what is playing.
    pub track_handle: Option<u128>,
    /// What is playing.
    pub current_track: Option<Track>,
    /// What comes next.
    pub queue: Vec<Track>,
    /// What was played last, the latest at the end.
    pub history: VecDeque<Track>,
    /// The volume that the guild set.
    pub volume: Level,
    /// What the volume is multiplied with to even out the loudness of tracks.
    pub current_gain: Level,
    /// The file that is playing, where there is one.
    pub current_source_path: Option<String>,
    /// Whether the wait that ends in leaving the voice channel is called off.
    pub inactivity_cancel: bool,
    /// Whether announcements are held back this session.
    pub silent: bool,
    /// Whether loudness is evened out this session.
    pub normalize: bool,
    /// The guild.
    pub guild_id: u64,
}

/// What a [`Player`] holds.
#[verifier::ext_equal]
pub struct PlayerView {
    /// Whether playback is active, paused or not.
    pub is_playing: bool,
    /// Whether playback is paused.
    pub is_paused: bool,
    /// The handle of what is playing.
    pub track_handle: Option<u128>,
    /// What is playing.
    pub current_track: Option<Track>,
    /// What comes next.
    pub queue: Seq<Track>,
    /// What was played last, the latest at the end.
    pub history: Seq<Track>,
    /// The volume that the guild set.
    pub volume: Level,
    /// What the volume is multiplied with.
    pub current_gain: Level,
    /// The file that is playing, where there is one.
    pub current_source_path: Option<String>,
    /// Whether the wait that ends in leaving the voice channel is called off.
    pub inactivity_cancel: bool,
    /// Whether announcements are held back this session.
    pub silent: bool,
    /// Whether loudness is evened out this session.
    pub normalize: bool,
    /// The guild.
    pub guild_id: u64,
}

impl View for Player {
    type V = PlayerView;

    open spec fn view(&self) -> PlayerView {
        PlayerView {
            is_playing: self.is_playing,
            is_paused: self.is_paused,
            track_handle: self.track_handle,
            current_track: self.current_track,
            queue: self.queue@,
            history: self.history@,
            volume: self.volume,
            current_gain: self.current_gain,
            current_source_path: self.current_source_path,
            inactivity_cancel: self.inactivity_cancel,
            silent: self.silent,
            normalize: self.normalize,
            guild_id: self.guild_id,
        }
    }
}

/// What the history is after `track` was played.
pub open spec fn remember(history: Seq<Track>, track: Track) -> Seq<Track> {
    let all = history.push(track);
    if all.len() > HISTORY_LEN {
        all.skip(1)
    } else {
        all
    }
}

/// What to do after something was put in the queue.
#[derive(Clone, Copy, PartialEq, Eq, Structural, Debug)]
pub enum KickOff {
    /// Play the head of the queue at once.
    PlayNext,
    /// Resume what is paused.
    Resume,
    /// Start playback.
    Start,
    /// Nothing: something is playing.
    Nothing,
}

impl PlayerView {
    /// What holds of a player at all times: only active playback is paused or
    /// has a handle; there is a handle exactly while a track is playing; there
    /// is a file only while a track is playing; the gain is other than one only
    /// while a track is playing and loudness is evened out; and no more tracks
    /// are remembered than are shown.
    pub open spec fn wf(self) -> bool {
        &&& self.is_paused ==> self.is_playing
        &&& self.track_handle is Some ==> self.is_playing
        &&& self.track_handle is Some <==> self.current_track is Some
        &&& self.current_source_path is Some ==> self.current_track is Some
        &&& self.current_gain != Level::unity() ==> self.current_track is Some && self.normalize
        &&& self.history.len() <= HISTORY_LEN
    }

    /// The player of a guild at the start of a session: everything is off and
    /// empty, and the volume is the stored one, if any is known.
    pub open spec fn fresh(guild_id: u64, stored: Option<Level>) -> PlayerView {
        PlayerView {
            is_playing: false,
            is_paused: false,
            track_handle: None,
            current_track: None,
            queue: seq![],
            history: seq![],
            volume: match stored {
                Some(volume) => volume,
                None => Level::half(),
            },
            current_gain: Level::unity(),
            current_source_path: None,
            inactivity_cancel: false,
            silent: false,
            normalize: false,
            guild_id,
        }
    }

    /// The player at another volume.
    pub open spec fn at_volume(self, volume: Level) -> PlayerView {
        PlayerView { volume, ..self }
    }

    /// The player with nothing playing.
    pub open spec fn stopped(self) -> PlayerView {
        PlayerView {
            is_playing: false,
            is_paused: false,
            track_handle: None,
            current_track: None,
            current_source_path: None,
            current_gain: Level::unity(),
            ..self
        }
    }

    /// Whether stopping what is playing fails.
    pub open spec fn stop_fails(self, reply: ControlReply) -> bool {
        self.is_playing && self.track_handle is Some && reply is Err
    }

    /// What follows after something was put in the queue, at its head or not.
    pub open spec fn kick_off(self, top: bool) -> KickOff {
        if self.is_paused {
            if top {
                KickOff::PlayNext
            } else {
                KickOff::Resume
            }
        } else if !self.is_playing {
            KickOff::Start
        } else {
            KickOff::Nothing
        }
    }

    /// The player after `tracks` were put in the queue, at its head or at its
    /// end. What is paused is resumed by itself only where it is not to give
    /// way.
    pub open spec fn enqueued(self, tracks: Seq<Track>, top: bool) -> PlayerView {
        PlayerView {
            queue: if top {
                tracks + self.queue
            } else {
                self.queue + tracks
            },
            inactivity_cancel: true,
            is_paused: self.is_paused && !top,
            ..self
        }
    }

    /// The player after `tracks` were put at the head of the queue, to be played
    /// at once.
    pub open spec fn forced(self, tracks: Seq<Track>) -> PlayerView {
        PlayerView { queue: tracks + self.queue, inactivity_cancel: true, ..self }
    }

    /// How many tracks are skipped, where the queue is not empty.
    pub open spec fn skip_count(self, amount: usize) -> int {
        vstd::math::min(amount as int, self.queue.len() as int)
    }

    /// The queue after a skip: the tracks that are skipped with the current one
    /// are gone.
    pub open spec fn queue_after_skip(self, amount: usize) -> Seq<Track> {
        if self.skip_count(amount) > 1 {
            self.queue.skip(self.skip_count(amount) - 1)
        } else {
            self.queue
        }
    }

    /// The player, paused.
    pub open spec fn paused(self) -> PlayerView {
        PlayerView { is_paused: true, ..self }
    }

    /// The player, no longer paused.
    pub open spec fn resumed(self) -> PlayerView {
        PlayerView { is_paused: false, ..self }
    }

    /// Whether the track with this id is playing.
    pub open spec fn plays(self, track_id: Seq<char>) -> bool {
        self.current_track matches Some(track) && track.id@ == track_id
    }
}

/// `SliceRandom::shuffle` with the thread's random generator: puts the tracks
/// in some order. The same tracks are there afterwards, each as often as
/// before; which order comes out is left to chance.
#[verifier::external_body]
fn shuffle_tracks(tracks: &mut Vec<Track>)
    ensures
        final(tracks)@.to_multiset() == old(tracks)@.to_multiset(),
{
    let mut rng = rand::rng();
    tracks.shuffle(&mut rng);
}

impl Player {
    /// A player with an empty queue and everything off. `stored` is the volume
    /// that the guild set before, if any is known.
    pub fn new(guild_id: u64, stored: Option<Level>) -> (r: Self)
        ensures
            r@ == PlayerView::fresh(guild_id, stored),
            r@.wf(),
    {
        let volume = match stored {
            Some(volume) => volume,
            None => Level::half(),
        };
        Player {
            is_playing: false,
            is_paused: false,
            track_handle: None,
            current_track: None,
            queue: Vec::new(),
            history: VecDeque::new(),
            volume,
            current_gain: Level::unity(),
            current_source_path: None,
            inactivity_cancel: false,
            silent: false,
            normalize: false,
            guild_id,
        }
    }

    /// Whether loudness is evened out this session.
    pub fn should_normalize(&self) -> (r: bool)
        ensures
            r == self@.normalize,
    {
        self.normalize
    }

    /// Remembers that `track` was played.
    pub fn push_to_history(&mut self, track: Track)
        ensures
            final(self)@ == (PlayerView {
                history: remember(old(self)@.history, track),
                ..old(self)@
            }),
            old(self)@.wf() ==> final(self)@.wf(),
    {
        self.history.push_back(track);
        if self.history.len() > HISTORY_LEN {
            let _ = self.history.pop_front();
            assert(self.history@ =~= old(self)@.history.push(track).skip(1));
        }
    }

    /// Puts a whole playlist in the queue and says what follows.
    pub fn add_playlist_to_queue(&mut self, playlist: Playlist, top: bool) -> (r: KickOff)
        ensures
            final(self)@ == old(self)@.enqueued(playlist.tracks@, top),
            r == old(self)@.kick_off(top),
            old(self)@.wf() ==> final(self)@.wf(),
    {
        self.inactivity_cancel = true;
        let mut tracks = playlist.tracks;
        if top {
            tracks.append(&mut self.queue);
            self.queue = tracks;
        } else {
            self.queue.append(&mut tracks);
        }
        self.kick_off_playback(top)
    }

    /// Puts `track` at the head of the queue, to be played at once in place of
    /// what is playing.
    pub fn force_play_track(&mut self, track: Track) -> (r: KickOff)
        ensures
            final(self)@ == old(self)@.forced(seq![track]),
            r == KickOff::PlayNext,
            old(self)@.wf() ==> final(self)@.wf(),
    {
        self.inactivity_cancel = true;
        self.queue.insert(0, track);
        assert(self.queue@ =~= seq![track] + old(self)@.queue);
        KickOff::PlayNext
    }

    /// Puts a whole playlist at the head of the queue, to be played at once in
    /// place of what is playing.
    pub fn force_play_playlist(&mut self, playlist: Playlist) -> (r: KickOff)
        ensures
            final(self)@ == old(self)@.forced(playlist.tracks@),
            r == KickOff::PlayNext,
            old(self)@.wf() ==> final(self)@.wf(),
    {
        self.inactivity_cancel = true;
        let mut tracks = playlist.tracks;
        tracks.append(&mut self.queue);
        self.queue = tracks;
        KickOff::PlayNext
    }

    /// Puts `track` in the queue and says what follows.
    pub fn add_track_to_queue(&mut self, track: Track, top: bool) -> (r: KickOff)
        ensures
            final(self)@ == old(self)@.enqueued(seq![track], top),
            r == old(self)@.kick_off(top),
            old(self)@.wf() ==> final(self)@.wf(),
    {
        self.inactivity_cancel = true;
        if top {
            self.queue.insert(0, track);
            assert(self.queue@ =~= seq![track] + old(self)@.queue);
        } else {
            self.queue.push(track);
            assert(self.queue@ =~= old(self)@.queue + seq![track]);
        }
        self.kick_off_playback(top)
    }

    /// Decides what follows after something was put in the queue: a paused
    /// track gives way to what was put at the head and is resumed otherwise,
    /// an idle player starts, and one that is playing goes on.
    pub fn kick_off_playback(&mut self, top: bool) -> (r: KickOff)
        ensures
            final(self)@ == (PlayerView {
                is_paused: old(self)@.is_paused && !top,
                ..old(self)@
            }),
            r == old(self)@.kick_off(top),
            old(self)@.wf() ==> final(self)@.wf(),
    {
        if self.is_paused {
            if top {
                self.is_paused = false;
                KickOff::PlayNext
            } else {
                KickOff::Resume
            }
        } else if !self.is_playing {
            KickOff::Start
        } else {
            KickOff::Nothing
        }
    }

    /// The handle that has to be stopped before nothing is playing.
    pub fn stop_request(&self) -> (r: Option<u128>)
        ensures
            r == if self@.is_playing {
                self@.track_handle
            } else {
                None
            },
    {
        if self.is_playing {
            self.track_handle
        } else {
            None
        }
    }

    /// Skips the current track and, for an amount above one, tracks of the
    /// queue too, as far as it reaches. The track after them follows once the
    /// handle has stopped. Says how many were skipped.
    pub fn skip(&mut self, amount: usize, reply: ControlReply) -> (r: Result<usize, PlaybackError>)
        ensures
            ({
                let before = old(self)@;
                let rest = before.queue_after_skip(amount);
                if !before.is_playing {
                    r matches Err(PlaybackError::PlaybackNotActive) && final(self)@ == before
                } else if before.stop_fails(reply) {
                    &&& r matches Err(e)
                    &&& e.is_internal("Error stopping track: "@ + reply->Err_0@)
                    &&& final(self)@ == (PlayerView { queue: rest, ..before })
                } else if before.queue.len() == 0 {
                    &&& r == Ok::<usize, PlaybackError>(1)
                    &&& final(self)@ == before.stopped()
                } else {
                    &&& r == Ok::<usize, PlaybackError>(before.skip_count(amount) as usize)
                    &&& final(self)@ == (PlayerView {
                        queue: rest,
                        is_playing: true,
                        ..before.stopped()
                    })
                }
            }),
            old(self)@.wf() ==> final(self)@.wf(),
    {
        if !self.is_playing {
            return Err(PlaybackError::PlaybackNotActive);
        }
        let count: usize = if amount > self.queue.len() {
            self.queue.len()
        } else {
            amount
        };
        if self.queue.len() == 0 {
            match self.stop_playback(reply) {
                Ok(()) => {},
                Err(e) => {
                    return Err(e);
                },
            }
            return Ok(1);
        }
        if count > 1 {
            let rest = self.queue.split_off(count - 1);
            self.queue = rest;
            assert(self.queue@ =~= old(self)@.queue.skip(count - 1));
        }
        match self.stop_track(reply) {
            Ok(()) => {},
            Err(e) => {
                return Err(e);
            },
        }
        self.is_playing = true;
        Ok(count)
    }

    /// Makes playback active, if it is not and there is something to play. The
    /// head of the queue is to be played next.
    pub fn start_playback(&mut self) -> (r: Result<(), PlaybackError>)
        ensures
            match r {
                Ok(()) => {
                    &&& !old(self)@.is_playing
                    &&& old(self)@.queue.len() > 0
                    &&& final(self)@ == (PlayerView { is_playing: true, ..old(self)@ })
                },
                Err(e) => {
                    &&& final(self)@ == old(self)@
                    &&& e == if old(self)@.is_playing {
                        PlaybackError::PlaybackAlreadyActive
                    } else {
                        PlaybackError::NoTracksInQueue
                    }
                    &&& old(self)@.is_playing || old(self)@.queue.len() == 0
                },
            },
            old(self)@.wf() ==> final(self)@.wf(),
    {
        if self.is_playing {
            return Err(PlaybackError::PlaybackAlreadyActive);
        }
        if self.queue.len() == 0 {
            return Err(PlaybackError::NoTracksInQueue);
        }
        self.is_playing = true;
        Ok(())
    }

    /// Empties the queue and says how many tracks it held.
    pub fn clear_queue(&mut self) -> (r: usize)
        ensures
            r == old(self)@.queue.len(),
            final(self)@ == (PlayerView { queue: seq![], ..old(self)@ }),
            old(self)@.wf() ==> final(self)@.wf(),
    {
        let cleared = self.queue.len();
        self.queue.clear();
        cleared
    }

    /// Takes the track at `index`, counted from one, out of the queue.
    pub fn remove_from_queue(&mut self, index: usize) -> (r: Result<Track, PlaybackError>)
        ensures
            match r {
                Ok(track) => {
                    &&& 1 <= index <= old(self)@.queue.len()
                    &&& track == old(self)@.queue[index - 1]
                    &&& final(self)@ == (PlayerView {
                        queue: old(self)@.queue.remove(index - 1),
                        ..old(self)@
                    })
                },
                Err(e) => {
                    &&& index == 0 || index > old(self)@.queue.len()
                    &&& e == PlaybackError::InvalidQueueIndex(index)
                    &&& final(self)@ == old(self)@
                },
            },
            old(self)@.wf() ==> final(self)@.wf(),
    {
        if index == 0 || index > self.queue.len() {
            return Err(PlaybackError::InvalidQueueIndex(index));
        }
        Ok(self.queue.remove(index - 1))
    }

    /// Puts the queue in some order. Which one is left to chance.
    pub fn shuffle(&mut self) -> (r: Result<(), PlaybackError>)
        ensures
            r is Ok,
            final(self)@.queue.to_multiset() == old(self)@.queue.to_multiset(),
            final(self)@ == (PlayerView { queue: final(self)@.queue, ..old(self)@ }),
            old(self)@.queue.len() <= 1 ==> final(self)@ == old(self)@,
            old(self)@.wf() ==> final(self)@.wf(),
    {
        if self.queue.len() > 1 {
            shuffle_tracks(&mut self.queue);
        }
        Ok(())
    }

    /// Sets the volume and says which handle is to play at it, multiplied with
    /// the current gain.
    pub fn set_volume(&mut self, volume: Level) -> (r: Option<u128>)
        ensures
            final(self)@ == old(self)@.at_volume(volume),
            r == old(self)@.track_handle,
            old(self)@.wf() ==> final(self)@.wf(),
    {
        self.volume = volume;
        self.track_handle
    }

    /// The handle that has to be paused before playback is, or why it cannot
    /// be.
    pub fn pause_request(&self) -> (r: Result<Option<u128>, PlaybackError>)
        ensures
            r == if !self@.is_playing {
                Err(PlaybackError::PlaybackNotActive)
            } else if self@.is_paused {
                Err(PlaybackError::PlaybackAlreadyPaused)
            } else {
                Ok(self@.track_handle)
            },
    {
        if !self.is_playing {
            return Err(PlaybackError::PlaybackNotActive);
        }
        if self.is_paused {
            return Err(PlaybackError::PlaybackAlreadyPaused);
        }
        Ok(self.track_handle)
    }

    /// Pauses playback, once its handle has been told to.
    pub fn pause(&mut self, reply: ControlReply) -> (r: Result<(), PlaybackError>)
        ensures
            ({
                let before = old(self)@;
                if !before.is_playing {
                    r matches Err(PlaybackError::PlaybackNotActive) && final(self)@ == before
                } else if before.is_paused {
                    r matches Err(PlaybackError::PlaybackAlreadyPaused) && final(self)@ == before
                } else if before.track_handle is Some && reply is Err {
                    &&& r matches Err(e)
                    &&& e.is_internal(reply->Err_0@)
                    &&& final(self)@ == before
                } else {
                    r is Ok && final(self)@ == before.paused()
                }
            }),
            old(self)@.wf() ==> final(self)@.wf(),
    {
        match self.pause_request() {
            Err(e) => Err(e),
            Ok(Some(_)) => match reply {
                Ok(()) => {
                    self.is_paused = true;
                    Ok(())
                },
                Err(reason) => Err(PlaybackError::InternalError(reason)),
            },
            Ok(None) => {
                self.is_paused = true;
                Ok(())
            },
        }
    }

    /// The handle that has to go on playing before playback does, or why it
    /// cannot.
    pub fn resume_request(&self) -> (r: Result<Option<u128>, PlaybackError>)
        ensures
            r == if !self@.is_paused {
                Err(PlaybackError::PlaybackNotPaused)
            } else {
                Ok(self@.track_handle)
            },
    {
        if !self.is_paused {
            return Err(PlaybackError::PlaybackNotPaused);
        }
        Ok(self.track_handle)
    }

    /// Resumes playback, once its handle has been told to.
    pub fn resume(&mut self, reply: ControlReply) -> (r: Result<(), PlaybackError>)
        ensures
            ({
                let before = old(self)@;
                if !before.is_paused {
                    r matches Err(PlaybackError::PlaybackNotPaused) && final(self)@ == before
                } else if before.track_handle is Some && reply is Err {
                    &&& r matches Err(e)
                    &&& e.is_internal(reply->Err_0@)
                    &&& final(self)@ == before
                } else {
                    r is Ok && final(self)@ == before.resumed()
                }
            }),
            old(self)@.wf() ==> final(self)@.wf(),
    {
        match self.resume_request() {
            Err(e) => Err(e),
            Ok(Some(_)) => match reply {
                Ok(()) => {
                    self.is_paused = false;
                    Ok(())
                },
                Err(reason) => Err(PlaybackError::InternalError(reason)),
            },
            Ok(None) => {
                self.is_paused = false;
                Ok(())
            },
        }
    }

    /// Stops what is playing, once its handle has been told to. The queue
    /// stays.
    pub fn stop_track(&mut self, reply: ControlReply) -> (r: Result<(), PlaybackError>)
        ensures
            match r {
                Ok(()) => !old(self)@.stop_fails(reply) && final(self)@ == old(self)@.stopped(),
                Err(e) => {
                    &&& old(self)@.stop_fails(reply)
                    &&& e.is_internal("Error stopping track: "@ + reply->Err_0@)
                    &&& final(self)@ == old(self)@
                },
            },
            old(self)@.wf() ==> final(self)@.wf(),
    {
        if self.is_playing && self.track_handle.is_some() {
            match reply {
                Ok(()) => {},
                Err(reason) => {
                    let mut message = "Error stopping track: ".to_string();
                    message.append(reason.as_str());
                    return Err(PlaybackError::InternalError(message));
                },
            }
        }
        self.is_playing = false;
        self.is_paused = false;
        self.track_handle = None;
        self.current_track = None;
        self.current_source_path = None;
        self.current_gain = Level::unity();
        Ok(())
    }

    /// Stops what is playing, once its handle has been told to, and empties the
    /// queue.
    pub fn stop_playback(&mut self, reply: ControlReply) -> (r: Result<(), PlaybackError>)
        ensures
            match r {
                Ok(()) => {
                    &&& !old(self)@.stop_fails(reply)
                    &&& final(self)@ == (PlayerView { queue: seq![], ..old(self)@.stopped() })
                },
                Err(e) => {
                    &&& old(self)@.stop_fails(reply)
                    &&& e.is_internal("Error stopping track: "@ + reply->Err_0@)
                    &&& final(self)@ == old(self)@
                },
            },
            old(self)@.wf() ==> final(self)@.wf(),
    {
        match self.stop_track(reply) {
            Ok(()) => {
                self.queue.clear();
                Ok(())
            },
            Err(e) => Err(e),
        }
    }

    /// Whether the track with this id is playing.
    pub fn is_current(&self, track_id: &str) -> (r: bool)
        ensures
            r == self@.plays(track_id@),
    {
        match &self.current_track {
            Some(track) => text::same_text(track.id.as_str(), track_id),
            None => false,
        }
    }

    /// Records that the track with this id, if it is still playing, has a file.
    pub fn record_cached_path(&mut self, track_id: &str, path: String)
        ensures
            final(self)@ == if old(self)@.plays(track_id@) {
                PlayerView { current_source_path: Some(path), ..old(self)@ }
            } else {
                old(self)@
            },
            old(self)@.wf() ==> final(self)@.wf(),
    {
        if self.is_current(track_id) {
            self.current_source_path = Some(path);
        }
    }
}

/// The history after `tracks` were played, one after the other.
pub open spec fn remember_all(history: Seq<Track>, tracks: Seq<Track>) -> Seq<Track>
    decreases tracks.len(),
{
    if tracks.len() == 0 {
        history
    } else {
        remember(remember_all(history, tracks.drop_last()), tracks.last())
    }
}

/// The last tracks of `all`, as many as are remembered.
pub open spec fn latest(all: Seq<Track>) -> Seq<Track> {
    if all.len() > HISTORY_LEN {
        all.skip(all.len() - HISTORY_LEN)
    } else {
        all
    }
}

/// However many tracks are played, the history is the last ten of them, in the
/// order in which they were played.
pub proof fn law_history_is_the_last_ten(history: Seq<Track>, tracks: Seq<Track>)
    requires
        history.len() <= HISTORY_LEN,
    ensures
        remember_all(history, tracks) == latest(history + tracks),
    decreases tracks.len(),
{
    if tracks.len() == 0 {
        assert(history + tracks =~= history);
    } else {
        law_history_is_the_last_ten(history, tracks.drop_last());
        let all = history + tracks;
        assert(history + tracks.drop_last() =~= all.drop_last());
        assert(remember(latest(all.drop_last()), tracks.last()) =~= latest(all));
    }
}

/// Whatever else happened in a session, a new one that is given the volume which
/// was set last begins at that volume, and nothing else is carried over.
pub proof fn law_only_the_volume_is_carried_over(p: PlayerView, volume: Level)
    ensures
        ({
            let next = PlayerView::fresh(p.guild_id, Some(p.at_volume(volume).volume));
            &&& next.volume == volume
            &&& !next.silent
            &&& !next.normalize
            &&& next.current_gain == Level::unity()
            &&& next.queue.len() == 0
            &&& next.history.len() == 0
            &&& !next.is_playing
            &&& !next.is_paused
            &&& next.guild_id == p.guild_id
            &&& next.wf()
        }),
{
}

/// Pausing and resuming leave the player as it was.
pub proof fn law_resume_undoes_pause(p: PlayerView)
    requires
        !p.is_paused,
    ensures
        p.paused().resumed() == p,
{
}

/// A track that is put at the head of the queue is its first track, and taking
/// that one out again leaves the queue as it was.
pub proof fn law_removal_undoes_insertion(p: PlayerView, track: Track)
    ensures
        p.enqueued(seq![track], true).queue[0] == track,
        p.enqueued(seq![track], true).queue.remove(0) == p.queue,
{
    assert((seq![track] + p.queue).remove(0) =~= p.queue);
}

/// After skipping `amount` tracks, as many as the queue reaches, the head of
/// the queue is the track that stood at that position.
pub proof fn law_skip_leads_to_the_right_track(p: PlayerView, amount: usize)
    requires
        1 <= amount <= p.queue.len(),
    ensures
        p.skip_count(amount) == amount,
        p.queue_after_skip(amount) == p.queue.skip(amount - 1),
        p.queue_after_skip(amount)[0] == p.queue[amount - 1],
{
    assert(p.queue.skip(0) =~= p.queue);
}

/// Putting tracks in the queue keeps all that were there, in their order.
pub proof fn law_queueing_keeps_the_queue(p: PlayerView, tracks: Seq<Track>, top: bool)
    ensures
        top ==> p.enqueued(tracks, top).queue.skip(tracks.len() as int) == p.queue,
        !top ==> p.enqueued(tracks, top).queue.take(p.queue.len() as int) == p.queue,
{
    assert((tracks + p.queue).skip(tracks.len() as int) =~= p.queue);
    assert((p.queue + tracks).take(p.queue.len() as int) =~= p.queue);
}

/// A session begins with nothing queued, played or playing and with every switch
/// off, at the stored volume, or at one half where none is stored.
pub proof fn law_sessions_begin_empty(guild_id: u64, stored: Option<Level>, r: Player)
    requires
        call_ensures(Player::new, (guild_id, stored), r),
    ensures
        stored matches Some(volume) ==> r.volume == volume,
        stored is None ==> r.volume.bits == 0x3f00_0000u32,
        r.current_gain.bits == 0x3f80_0000u32,
        r.queue@.len() == 0 && r.history@.len() == 0,
        r.track_handle is None && r.current_track is None && r.current_source_path is None,
        !r.is_playing && !r.is_paused && !r.inactivity_cancel && !r.silent && !r.normalize,
        r.guild_id == guild_id,
{
}

/// Loudness is evened out exactly where the switch is on.
pub proof fn law_normalizing_follows_the_switch(p: Player, r: bool)
    requires
        call_ensures(Player::should_normalize, (&p,), r),
    ensures
        r == p.normalize,
{
}

/// A track that was played is the latest of the history. The tracks before it
/// stay in order, but for the oldest where ten were remembered, and nothing else
/// changes.
pub proof fn law_played_tracks_are_remembered(p: &mut Player, track: Track)
    requires
        call_ensures(Player::push_to_history, (p, track), ()),
        old(p)@.history.len() <= 10,
    ensures
        final(p)@.history.last() == track,
        old(p)@.history.len() < 10 ==> final(p)@.history.drop_last() == old(p)@.history,
        old(p)@.history.len() == 10 ==> final(p)@.history.drop_last() == old(p)@.history.skip(1),
        final(p)@ == (PlayerView { history: final(p)@.history, ..old(p)@ }),
{
    let h = old(p)@.history;
    assert(h.push(track).drop_last() =~= h);
    if h.len() == 10 {
        assert(h.push(track).skip(1).drop_last() =~= h.skip(1));
    }
}

/// Whether tracks are put at the head of the queue or at its end, a player that
/// is neither playing nor paused starts, one that plays goes on, and a paused
/// track is resumed, unless it gives way to what was put at the head.
pub proof fn law_queueing_gets_playback_going(p: &mut Player, top: bool, r: KickOff)
    requires
        call_ensures(Player::kick_off_playback, (p, top), r),
    ensures
        !old(p)@.is_playing && !old(p)@.is_paused ==> r == KickOff::Start,
        old(p)@.is_playing && !old(p)@.is_paused ==> r == KickOff::Nothing,
        old(p)@.is_paused && top ==> r == KickOff::PlayNext && !final(p)@.is_paused,
        old(p)@.is_paused && !top ==> r == KickOff::Resume && final(p)@.is_paused,
        !old(p)@.is_paused ==> !final(p)@.is_paused,
        final(p)@ == (PlayerView { is_paused: final(p)@.is_paused, ..old(p)@ }),
{
}

/// A queued track is the first of the queue, or the last, with all the others in
/// order behind or before it. It gets playback going, and calls off the wait that
/// ends in leaving.
pub proof fn law_queued_tracks_are_in_place(p: &mut Player, track: Track, top: bool, r: KickOff)
    requires
        call_ensures(Player::add_track_to_queue, (p, track, top), r),
    ensures
        top ==> final(p)@.queue[0] == track && final(p)@.queue.skip(1) == old(p)@.queue,
        !top ==> final(p)@.queue.last() == track && final(p)@.queue.drop_last() == old(p)@.queue,
        final(p)@.queue.len() == old(p)@.queue.len() + 1,
        final(p)@.inactivity_cancel,
        !old(p)@.is_playing && !old(p)@.is_paused ==> r == KickOff::Start,
        old(p)@.is_playing && !old(p)@.is_paused ==> r == KickOff::Nothing,
        old(p)@.is_paused && top ==> r == KickOff::PlayNext && !final(p)@.is_paused,
        old(p)@.is_paused && !top ==> r == KickOff::Resume && final(p)@.is_paused,
        final(p)@ == (PlayerView {
            queue: final(p)@.queue,
            inactivity_cancel: true,
            is_paused: old(p)@.is_paused && !top,
            ..old(p)@
        }),
{
    assert((seq![track] + old(p)@.queue).skip(1) =~= old(p)@.queue);
    assert((old(p)@.queue + seq![track]).drop_last() =~= old(p)@.queue);
}

/// A queued playlist stands as a whole and in its order before all that was in
/// the queue, or behind it. It gets playback going as a single track does.
pub proof fn law_queued_playlists_are_in_place(
    p: &mut Player,
    playlist: Playlist,
    top: bool,
    r: KickOff,
)
    requires
        call_ensures(Player::add_playlist_to_queue, (p, playlist, top), r),
    ensures
        top ==> final(p)@.queue == playlist.tracks@ + old(p)@.queue,
        !top ==> final(p)@.queue == old(p)@.queue + playlist.tracks@,
        !old(p)@.is_playing && !old(p)@.is_paused ==> r == KickOff::Start,
        old(p)@.is_playing && !old(p)@.is_paused ==> r == KickOff::Nothing,
        old(p)@.is_paused && top ==> r == KickOff::PlayNext && !final(p)@.is_paused,
        old(p)@.is_paused && !top ==> r == KickOff::Resume && final(p)@.is_paused,
        final(p)@ == (PlayerView {
            queue: final(p)@.queue,
            inactivity_cancel: true,
            is_paused: old(p)@.is_paused && !top,
            ..old(p)@
        }),
{
}

/// A track that is forced is the first of the queue and is played at once,
/// whatever is playing. All that was in the queue stays behind it.
pub proof fn law_forced_track_is_the_head(p: &mut Player, track: Track, r: KickOff)
    requires
        call_ensures(Player::force_play_track, (p, track), r),
    ensures
        r == KickOff::PlayNext,
        final(p)@.queue[0] == track,
        final(p)@.queue.skip(1) == old(p)@.queue,
        final(p)@.queue.len() == old(p)@.queue.len() + 1,
        final(p)@ == (PlayerView {
            queue: final(p)@.queue,
            inactivity_cancel: true,
            ..old(p)@
        }),
{
    assert((seq![track] + old(p)@.queue).skip(1) =~= old(p)@.queue);
}

/// A playlist that is forced stands in its order before all that was in the
/// queue and is played at once, whatever is playing.
pub proof fn law_forced_playlist_is_the_head(p: &mut Player, playlist: Playlist, r: KickOff)
    requires
        call_ensures(Player::force_play_playlist, (p, playlist), r),
    ensures
        r == KickOff::PlayNext,
        final(p)@.queue == playlist.tracks@ + old(p)@.queue,
        final(p)@ == (PlayerView {
            queue: final(p)@.queue,
            inactivity_cancel: true,
            ..old(p)@
        }),
{
}

/// What is to be stopped is the handle of active playback.
pub proof fn law_active_handle_is_stopped(p: Player, r: Option<u128>)
    requires
        call_ensures(Player::stop_request, (&p,), r),
    ensures
        p.is_playing ==> r == p.track_handle,
        !p.is_playing ==> r is None,
{
}

/// Skipping needs active playback. With an empty queue it ends playback and
/// counts as one track. Otherwise the first track that is left in the queue is
/// the one that stood at the position of the skipped amount, or its last track
/// where the amount reaches further, what was playing is no more, and playback
/// stays active. A handle that does not stop is reported, and goes on.
pub proof fn law_skips_count_and_lead_on(
    p: &mut Player,
    amount: usize,
    reply: ControlReply,
    r: Result<usize, PlaybackError>,
)
    requires
        call_ensures(Player::skip, (p, amount, reply), r),
    ensures
        !old(p)@.is_playing ==> r == Err::<usize, PlaybackError>(PlaybackError::PlaybackNotActive)
            && final(p)@ == old(p)@,
        old(p)@.is_playing && old(p)@.track_handle is Some && reply is Err ==> {
            &&& r matches Err(PlaybackError::InternalError(text))
            &&& text@ == "Error stopping track: "@ + reply->Err_0@
            &&& final(p)@ == (PlayerView { queue: final(p)@.queue, ..old(p)@ })
        },
        old(p)@.is_playing && (old(p)@.track_handle is None || reply is Ok) ==> {
            let before = old(p)@.queue;
            let after = final(p)@.queue;
            &&& r is Ok
            &&& before.len() == 0 ==> r->Ok_0 == 1 && after.len() == 0 && !final(p)@.is_playing
            &&& before.len() > 0 ==> final(p)@.is_playing
            &&& before.len() > 0 && amount == 0 ==> r->Ok_0 == 0 && after == before
            &&& 1 <= amount <= before.len() ==> r->Ok_0 == amount && after == before.skip(
                amount - 1,
            )
            &&& before.len() > 0 && amount > before.len() ==> r->Ok_0 == before.len() && after
                == seq![before.last()]
            &&& !final(p)@.is_paused
            &&& final(p)@.track_handle is None
            &&& final(p)@.current_track is None
            &&& final(p)@.current_source_path is None
            &&& final(p)@.current_gain.bits == 0x3f80_0000u32
            &&& final(p)@.history == old(p)@.history
            &&& final(p)@.volume == old(p)@.volume
            &&& final(p)@.silent == old(p)@.silent
            &&& final(p)@.normalize == old(p)@.normalize
            &&& final(p)@.inactivity_cancel == old(p)@.inactivity_cancel
            &&& final(p)@.guild_id == old(p)@.guild_id
        },
{
    let before = old(p)@.queue;
    assert(before.skip(0) =~= before);
    if before.len() > 0 {
        assert(before.skip(before.len() - 1) =~= seq![before.last()]);
    }
}

/// Playback starts exactly where it is not active and something is queued.
pub proof fn law_playback_starts_when_it_can(p: &mut Player, r: Result<(), PlaybackError>)
    requires
        call_ensures(Player::start_playback, (p,), r),
    ensures
        r is Ok <==> !old(p)@.is_playing && old(p)@.queue.len() > 0,
        r is Ok ==> final(p)@ == (PlayerView { is_playing: true, ..old(p)@ }),
        r is Err ==> final(p)@ == old(p)@,
        old(p)@.is_playing ==> r == Err::<(), PlaybackError>(PlaybackError::PlaybackAlreadyActive),
        !old(p)@.is_playing && old(p)@.queue.len() == 0 ==> r == Err::<(), PlaybackError>(
            PlaybackError::NoTracksInQueue,
        ),
{
}

/// Clearing leaves nothing in the queue, counts what was there, and touches
/// nothing else.
pub proof fn law_clearing_empties_the_queue(p: &mut Player, r: usize)
    requires
        call_ensures(Player::clear_queue, (p,), r),
    ensures
        r == old(p)@.queue.len(),
        final(p)@.queue.len() == 0,
        final(p)@ == (PlayerView { queue: final(p)@.queue, ..old(p)@ }),
{
}

/// A position of the queue, counted from one, can be removed exactly where there
/// is a track. Putting that track back in its place gives the queue as it was.
pub proof fn law_removed_track_was_in_place(
    p: &mut Player,
    index: usize,
    r: Result<Track, PlaybackError>,
)
    requires
        call_ensures(Player::remove_from_queue, (p, index), r),
    ensures
        r is Ok <==> 1 <= index <= old(p)@.queue.len(),
        r matches Ok(track) ==> final(p)@.queue.insert(index - 1, track) == old(p)@.queue,
        r matches Err(e) ==> e == PlaybackError::InvalidQueueIndex(index) && final(p)@.queue
            == old(p)@.queue,
        final(p)@ == (PlayerView { queue: final(p)@.queue, ..old(p)@ }),
{
    if r is Ok {
        let q = old(p)@.queue;
        assert(q.remove(index - 1).insert(index - 1, q[index - 1]) =~= q);
    }
}

/// Shuffling never fails, keeps every track as often as it was queued, and
/// touches nothing but the queue.
pub proof fn law_shuffling_keeps_the_tracks(p: &mut Player, r: Result<(), PlaybackError>)
    requires
        call_ensures(Player::shuffle, (p,), r),
    ensures
        r is Ok,
        final(p)@.queue.to_multiset() == old(p)@.queue.to_multiset(),
        final(p)@.queue.len() == old(p)@.queue.len(),
        final(p)@ == (PlayerView { queue: final(p)@.queue, ..old(p)@ }),
{
    old(p)@.queue.to_multiset_ensures();
    final(p)@.queue.to_multiset_ensures();
}

/// A volume that is set is the volume, and the handle of what is playing is to
/// play at it.
pub proof fn law_volume_is_set(p: &mut Player, volume: Level, r: Option<u128>)
    requires
        call_ensures(Player::set_volume, (p, volume), r),
    ensures
        final(p)@ == (PlayerView { volume, ..old(p)@ }),
        r == old(p)@.track_handle,
{
}

/// Active playback that is not paused can be paused, and its handle is what has
/// to be told so.
pub proof fn law_pausing_needs_active_playback(p: Player, r: Result<Option<u128>, PlaybackError>)
    requires
        call_ensures(Player::pause_request, (&p,), r),
    ensures
        !p.is_playing ==> r == Err::<Option<u128>, PlaybackError>(PlaybackError::PlaybackNotActive),
        p.is_playing && p.is_paused ==> r == Err::<Option<u128>, PlaybackError>(
            PlaybackError::PlaybackAlreadyPaused,
        ),
        p.is_playing && !p.is_paused ==> r == Ok::<Option<u128>, PlaybackError>(p.track_handle),
{
}

/// Playback that is paused can be resumed, and its handle is what has to be told
/// so.
pub proof fn law_resuming_needs_paused_playback(p: Player, r: Result<Option<u128>, PlaybackError>)
    requires
        call_ensures(Player::resume_request, (&p,), r),
    ensures
        !p.is_paused ==> r == Err::<Option<u128>, PlaybackError>(PlaybackError::PlaybackNotPaused),
        p.is_paused ==> r == Ok::<Option<u128>, PlaybackError>(p.track_handle),
{
}

/// Playback is paused exactly where it is active, is not paused, and its handle,
/// if it has one, obeyed. Nothing changes but that it is paused.
pub proof fn law_pausing_pauses(p: &mut Player, reply: ControlReply, r: Result<(), PlaybackError>)
    requires
        call_ensures(Player::pause, (p, reply), r),
    ensures
        r is Ok <==> old(p)@.is_playing && !old(p)@.is_paused && (old(p)@.track_handle is None
            || reply is Ok),
        r is Ok ==> final(p)@ == (PlayerView { is_paused: true, ..old(p)@ }),
        r is Err ==> final(p)@ == old(p)@,
        !old(p)@.is_playing ==> r == Err::<(), PlaybackError>(PlaybackError::PlaybackNotActive),
        old(p)@.is_playing && old(p)@.is_paused ==> r == Err::<(), PlaybackError>(
            PlaybackError::PlaybackAlreadyPaused,
        ),
        old(p)@.is_playing && !old(p)@.is_paused && old(p)@.track_handle is Some ==> (reply matches Err(
            reason,
        ) ==> (r matches Err(PlaybackError::InternalError(text)) && text@ == reason@)),
{
}

/// Playback is resumed exactly where it is paused and its handle, if it has one,
/// obeyed. Nothing changes but that it is not paused.
pub proof fn law_resuming_resumes(p: &mut Player, reply: ControlReply, r: Result<(), PlaybackError>)
    requires
        call_ensures(Player::resume, (p, reply), r),
    ensures
        r is Ok <==> old(p)@.is_paused && (old(p)@.track_handle is None || reply is Ok),
        r is Ok ==> final(p)@ == (PlayerView { is_paused: false, ..old(p)@ }),
        r is Err ==> final(p)@ == old(p)@,
        !old(p)@.is_paused ==> r == Err::<(), PlaybackError>(PlaybackError::PlaybackNotPaused),
        old(p)@.is_paused && old(p)@.track_handle is Some ==> (reply matches Err(reason) ==> (
        r matches Err(PlaybackError::InternalError(text)) && text@ == reason@)),
{
}

/// What is playing is stopped, unless it has a handle that does not obey. The
/// queue, the history and the settings stay.
pub proof fn law_stopping_stops_the_track(
    p: &mut Player,
    reply: ControlReply,
    r: Result<(), PlaybackError>,
)
    requires
        call_ensures(Player::stop_track, (p, reply), r),
    ensures
        r is Ok <==> !(old(p)@.is_playing && old(p)@.track_handle is Some && reply is Err),
        r matches Err(e) ==> {
            &&& e matches PlaybackError::InternalError(text)
            &&& text@ == "Error stopping track: "@ + reply->Err_0@
            &&& final(p)@ == old(p)@
        },
        r is Ok ==> {
            &&& !final(p)@.is_playing && !final(p)@.is_paused
            &&& final(p)@.track_handle is None && final(p)@.current_track is None
            &&& final(p)@.current_source_path is None
            &&& final(p)@.current_gain.bits == 0x3f80_0000u32
            &&& final(p)@.queue == old(p)@.queue
            &&& final(p)@.history == old(p)@.history
            &&& final(p)@.volume == old(p)@.volume
            &&& final(p)@.silent == old(p)@.silent
            &&& final(p)@.normalize == old(p)@.normalize
            &&& final(p)@.inactivity_cancel == old(p)@.inactivity_cancel
            &&& final(p)@.guild_id == old(p)@.guild_id
        },
{
}

/// Stopping playback stops the track in the same way, and leaves nothing in the
/// queue. Where the handle does not obey, the queue stays too.
pub proof fn law_stopping_ends_playback(
    p: &mut Player,
    reply: ControlReply,
    r: Result<(), PlaybackError>,
)
    requires
        call_ensures(Player::stop_playback, (p, reply), r),
    ensures
        r is Ok <==> !(old(p)@.is_playing && old(p)@.track_handle is Some && reply is Err),
        r matches Err(e) ==> {
            &&& e matches PlaybackError::InternalError(text)
            &&& text@ == "Error stopping track: "@ + reply->Err_0@
            &&& final(p)@ == old(p)@
        },
        r is Ok ==> {
            &&& !final(p)@.is_playing && !final(p)@.is_paused
            &&& final(p)@.track_handle is None && final(p)@.current_track is None
            &&& final(p)@.current_source_path is None
            &&& final(p)@.current_gain.bits == 0x3f80_0000u32
            &&& final(p)@.queue.len() == 0
            &&& final(p)@.history == old(p)@.history
            &&& final(p)@.volume == old(p)@.volume
            &&& final(p)@.silent == old(p)@.silent
            &&& final(p)@.normalize == old(p)@.normalize
            &&& final(p)@.inactivity_cancel == old(p)@.inactivity_cancel
            &&& final(p)@.guild_id == old(p)@.guild_id
        },
{
}

/// The current track is told by its id.
pub proof fn law_current_track_is_told_by_its_id(p: Player, track_id: &str, r: bool)
    requires
        call_ensures(Player::is_current, (&p, track_id), r),
    ensures
        p.current_track matches Some(track) ==> (r <==> track.id@ == track_id@),
        p.current_track is None ==> !r,
{
}

/// The file of a cached track is recorded exactly where that track still plays.
pub proof fn law_files_are_recorded_for_the_current_track(
    p: &mut Player,
    track_id: &str,
    path: String,
)
    requires
        call_ensures(Player::record_cached_path, (p, track_id, path), ()),
    ensures
        old(p)@.current_track matches Some(track) ==> (track.id@ == track_id@
            ==> final(p)@.current_source_path == Some(path)),
        old(p)@.current_track matches Some(track) ==> (track.id@ != track_id@ ==> final(p)@
            == old(p)@),
        old(p)@.current_track is None ==> final(p)@ == old(p)@,
        final(p)@ == (PlayerView {
            current_source_path: final(p)@.current_source_path,
            ..old(p)@
        }),
{
}

} // verus!

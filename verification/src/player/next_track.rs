//! Moving on to the next track.
//!
//! Between popping a track off the queue and hearing it the caller has to ask
//! the downloader about it, tell the channel about it and start the audio. Each
//! method here goes on from one of those to the next and returns, as a
//! [`NextStep`], what the caller is to do before it calls again.

use crate::player::player::{ControlReply, Player, PlayerView};
use crate::player::track::{PlaybackError, Track};
use crate::service::cache_service;
use crate::service::cache_service::TrackProbe;
use crate::text;
use crate::units::{Level, Nanos};
use vstd::prelude::*;

verus! {

/// What the caller is to do next.
pub enum NextStep {
    /// Ask the downloader about the track, then call [`Player::after_probe`].
    Probe(Track),
    /// Say that the track of this title is a live broadcast and is passed
    /// over, then call [`Player::after_notice`].
    NotifyLivestream(String),
    /// Say that the track of this title is longer than allowed and is passed
    /// over, then call [`Player::after_notice`].
    NotifyTooLong(String),
    /// Announce the track, then call [`Player::after_announcement`].
    Announce(Track),
    /// Start the audio of the track, then call [`Player::after_play`].
    Play(Track),
    /// Show that nothing is playing, then call [`Player::stop_playback`].
    Idle,
}

/// What a [`NextStep`] holds.
pub enum NextStepView {
    /// Ask the downloader about the track.
    Probe(Track),
    /// Say that the track of this title is a live broadcast.
    NotifyLivestream(Seq<char>),
    /// Say that the track of this title is longer than allowed.
    NotifyTooLong(Seq<char>),
    /// Announce the track.
    Announce(Track),
    /// Start the audio of the track.
    Play(Track),
    /// Show that nothing is playing.
    Idle,
}

impl View for NextStep {
    type V = NextStepView;

    open spec fn view(&self) -> NextStepView {
        match self {
            NextStep::Probe(track) => NextStepView::Probe(*track),
            NextStep::NotifyLivestream(title) => NextStepView::NotifyLivestream(title@),
            NextStep::NotifyTooLong(title) => NextStepView::NotifyTooLong(title@),
            NextStep::Announce(track) => NextStepView::Announce(*track),
            NextStep::Play(track) => NextStepView::Play(*track),
            NextStep::Idle => NextStepView::Idle,
        }
    }
}

/// What happens in the background to a track that was streamed.
#[derive(Clone, Copy, PartialEq, Eq, Structural, Debug)]
pub enum CacheDecision {
    /// Nothing: it cannot be cached.
    NotCacheable,
    /// Nothing: it is too long for the cache.
    TooLong,
    /// It is downloaded into the cache.
    Download,
}

/// What happens in the background once a track plays.
pub enum FollowUp {
    /// Nothing: its file is there and loudness is not evened out.
    Nothing,
    /// The loudness of its file is measured.
    Measure {
        /// The file.
        path: String,
        /// The id of the track.
        track_id: String,
    },
    /// It was streamed, and is cached or not.
    Cache(CacheDecision),
}

/// What happens in the background to `track` after it was streamed.
pub open spec fn cache_decision(track: Track) -> CacheDecision {
    if cache_service::cache_stem(track) is None {
        CacheDecision::NotCacheable
    } else if track.too_long(crate::player::track::LONG_FORM_THRESHOLD) {
        CacheDecision::TooLong
    } else {
        CacheDecision::Download
    }
}

/// Whether the downloader has to be asked about `track` before it is played:
/// its duration is not known, and it is no file on the host.
pub open spec fn needs_probe(track: Track) -> bool {
    track.metadata.duration is None && !(track.source is Local)
}

impl PlayerView {
    /// What follows for a track about which nothing more is to be learned.
    pub open spec fn offered(self, track: Track, cap: Nanos) -> NextStepView {
        if track.too_long(cap) {
            NextStepView::NotifyTooLong(track.metadata.title@)
        } else if self.silent {
            NextStepView::Play(track)
        } else {
            NextStepView::Announce(track)
        }
    }

    /// What follows for a track once the downloader was asked about it.
    pub open spec fn probed(
        self,
        track: Track,
        probe: Option<TrackProbe>,
        cap: Nanos,
    ) -> NextStepView {
        match probe {
            Some(answer) => if answer.is_live {
                NextStepView::NotifyLivestream(track.metadata.title@)
            } else {
                self.offered(track.with_duration(answer.duration), cap)
            },
            None => self.offered(track, cap),
        }
    }

    /// What follows for the head of the queue.
    pub open spec fn next_step(self, cap: Nanos) -> NextStepView {
        if self.queue.len() == 0 {
            NextStepView::Idle
        } else if needs_probe(self.queue[0]) {
            NextStepView::Probe(self.queue[0])
        } else {
            self.offered(self.queue[0], cap)
        }
    }

    /// The player before it moves on: what was playing is stopped.
    pub open spec fn idle(self) -> PlayerView {
        if self.is_playing {
            self.stopped()
        } else {
            self
        }
    }

    /// The player without the head of its queue.
    pub open spec fn popped(self) -> PlayerView {
        PlayerView {
            queue: if self.queue.len() == 0 {
                self.queue
            } else {
                self.queue.skip(1)
            },
            ..self
        }
    }

    /// The player once `track` plays.
    pub open spec fn playing(
        self,
        track: Track,
        handle: u128,
        source_path: Option<String>,
    ) -> PlayerView {
        PlayerView {
            is_playing: true,
            track_handle: Some(handle),
            current_track: Some(track),
            history: crate::player::player::remember(self.history, track),
            current_gain: Level::unity(),
            current_source_path: source_path,
            ..self
        }
    }
}

impl Player {
    /// What follows for a track about which nothing more is to be learned.
    fn offer(&self, track: Track, cap: Nanos) -> (r: NextStep)
        ensures
            r@ == self@.offered(track, cap),
    {
        if track.is_known_too_long(cap) {
            NextStep::NotifyTooLong(track.metadata.title)
        } else if self.silent {
            NextStep::Play(track)
        } else {
            NextStep::Announce(track)
        }
    }

    /// Pops the head of the queue and says what follows.
    fn advance(&mut self, cap: Nanos) -> (r: NextStep)
        ensures
            final(self)@ == old(self)@.popped(),
            r@ == old(self)@.next_step(cap),
            old(self)@.wf() ==> final(self)@.wf(),
    {
        if self.queue.len() == 0 {
            return NextStep::Idle;
        }
        let track = self.queue.remove(0);
        assert(self.queue@ =~= old(self)@.queue.skip(1));
        if track.duration().is_none() && !track.is_local() {
            NextStep::Probe(track)
        } else {
            self.offer(track, cap)
        }
    }

    /// Begins to move on to the next track. It fails outside a guild, where the
    /// voice connection is not there, and where what is playing does not stop.
    pub fn next_track(
        &mut self,
        guild_known: bool,
        manager_known: bool,
        reply: ControlReply,
        cap: Nanos,
    ) -> (r: Result<NextStep, PlaybackError>)
        ensures
            ({
                let before = old(self)@;
                if !guild_known || !manager_known {
                    &&& r matches Err(e)
                    &&& e.is_internal("Could not locate voice channel. Guild ID is none"@)
                    &&& final(self)@ == before
                } else if before.stop_fails(reply) {
                    &&& r matches Err(e)
                    &&& e.is_internal("Error stopping track: "@ + reply->Err_0@)
                    &&& final(self)@ == before
                } else {
                    &&& r matches Ok(step)
                    &&& step@ == before.idle().next_step(cap)
                    &&& final(self)@ == before.idle().popped()
                }
            }),
            old(self)@.wf() ==> final(self)@.wf(),
    {
        if !guild_known || !manager_known {
            return Err(
                PlaybackError::InternalError(
                    "Could not locate voice channel. Guild ID is none".to_string(),
                ),
            );
        }
        if self.is_playing {
            match self.stop_track(reply) {
                Ok(()) => {},
                Err(e) => {
                    return Err(e);
                },
            }
        }
        Ok(self.advance(cap))
    }

    /// Goes on once the downloader was asked about `track`.
    pub fn after_probe(&self, track: Track, probe: Option<TrackProbe>, cap: Nanos) -> (r: NextStep)
        ensures
            r@ == self@.probed(track, probe, cap),
    {
        match probe {
            Some(answer) => {
                if answer.is_live {
                    return NextStep::NotifyLivestream(track.metadata.title);
                }
                let mut track = track;
                track.metadata.duration = answer.duration;
                self.offer(track, cap)
            },
            None => self.offer(track, cap),
        }
    }

    /// Goes on once the channel was told that a track is passed over, or could
    /// not be told.
    pub fn after_notice(&mut self, sent: Result<(), PlaybackError>, cap: Nanos) -> (r: Result<
        NextStep,
        PlaybackError,
    >)
        ensures
            match sent {
                Ok(()) => {
                    &&& r matches Ok(step)
                    &&& step@ == old(self)@.next_step(cap)
                    &&& final(self)@ == old(self)@.popped()
                },
                Err(e) => r == Err::<NextStep, PlaybackError>(e) && final(self)@ == old(self)@,
            },
            old(self)@.wf() ==> final(self)@.wf(),
    {
        match sent {
            Ok(()) => Ok(self.advance(cap)),
            Err(e) => Err(e),
        }
    }

    /// Goes on once `track` was announced, or could not be.
    pub fn after_announcement(&self, track: Track, sent: Result<(), PlaybackError>) -> (r: Result<
        NextStep,
        PlaybackError,
    >)
        ensures
            match sent {
                Ok(()) => r == Ok::<NextStep, PlaybackError>(NextStep::Play(track)),
                Err(e) => r == Err::<NextStep, PlaybackError>(e),
            },
    {
        match sent {
            Ok(()) => Ok(NextStep::Play(track)),
            Err(e) => Err(e),
        }
    }

    /// Records that `track` plays under `handle`, from a file or as a stream,
    /// and says what happens in the background.
    pub fn after_play(&mut self, track: Track, handle: u128, source_path: Option<String>) -> (r:
        FollowUp)
        ensures
            final(self)@ == old(self)@.playing(track, handle, source_path),
            match source_path {
                Some(file) => if old(self)@.normalize {
                    &&& r matches FollowUp::Measure { path, track_id }
                    &&& path@ == file@
                    &&& track_id@ == track.id@
                } else {
                    r is Nothing
                },
                None => r == FollowUp::Cache(cache_decision(track)),
            },
            old(self)@.wf() ==> final(self)@.wf(),
    {
        self.current_gain = Level::unity();
        let follow_up = match &source_path {
            Some(path) => if self.should_normalize() {
                FollowUp::Measure { path: path.clone(), track_id: track.id.clone() }
            } else {
                FollowUp::Nothing
            },
            None => FollowUp::Cache(spawn_cache_and_apply(&track)),
        };
        self.current_source_path = source_path;
        // The handle and the track come and go together, so they are set before
        // the history is touched.
        self.current_track = Some(track.clone());
        self.track_handle = Some(handle);
        self.is_playing = true;
        self.push_to_history(track);
        follow_up
    }
}

/// Decides what happens in the background to `track` after it was streamed: it
/// is downloaded into the cache, unless it cannot be cached or is too long.
pub fn spawn_cache_and_apply(track: &Track) -> (r: CacheDecision)
    ensures
        r == cache_decision(*track),
{
    if !cache_service::is_cacheable(track) {
        return CacheDecision::NotCacheable;
    }
    if track.is_known_long_form() {
        return CacheDecision::TooLong;
    }
    CacheDecision::Download
}

/// What a measurement does to the handle that it was made for.
pub struct AppliedGain {
    /// The title of the track.
    pub title: String,
    /// The volume of the guild.
    pub volume: Level,
    /// The gain that it is to be multiplied with.
    pub gain: Level,
}

/// Takes in the loudness measurement of the track with this id: where that
/// track still plays and loudness is still evened out, `multiplier` is the gain
/// from now on.
pub fn schedule_normalization_apply(player: &mut Player, track_id: &str, multiplier: Level) -> (r:
    Option<AppliedGain>)
    ensures
        ({
            let before = old(player)@;
            if before.plays(track_id@) && before.normalize {
                &&& r matches Some(applied)
                &&& applied.title@ == before.current_track->0.metadata.title@
                &&& applied.volume == before.volume
                &&& applied.gain == multiplier
                &&& final(player)@ == (PlayerView { current_gain: multiplier, ..before })
            } else {
                r is None && final(player)@ == before
            }
        }),
        old(player)@.wf() ==> final(player)@.wf(),
{
    if !player.is_current(track_id) || !player.should_normalize() {
        return None;
    }
    let title = match &player.current_track {
        Some(track) => track.metadata.title.clone(),
        None => String::new(),
    };
    player.current_gain = multiplier;
    Some(AppliedGain { title, volume: player.volume, gain: multiplier })
}

/// Writes what the bot is shown to be doing while `track` plays. `label` names
/// the source of the track.
pub fn set_now_playing(track: &Track, label: &str) -> (r: String)
    ensures
        r@ == "Playing "@ + track.metadata.title@ + " · "@ + label@,
{
    let mut out = "Playing ".to_string();
    out.append(track.metadata.title.as_str());
    out.append(" · ");
    out.append(label);
    out
}

/// Writes what the bot is shown to be doing while nothing plays.
pub fn set_idle() -> (r: String)
    ensures
        r@ == "!help · waiting for !play"@,
{
    "!help · waiting for !play".to_string()
}

/// A track as it is played, given what the downloader answers about it.
pub open spec fn resolved(track: Track, answers: spec_fn(Track) -> Option<TrackProbe>) -> Track {
    if needs_probe(track) && answers(track) is Some {
        track.with_duration(answers(track)->0.duration)
    } else {
        track
    }
}

/// Whether a track may be played, given what the downloader answers about it:
/// it is no live broadcast, and not known to be longer than `cap`.
pub open spec fn playable(
    track: Track,
    answers: spec_fn(Track) -> Option<TrackProbe>,
    cap: Nanos,
) -> bool {
    &&& !(needs_probe(track) && answers(track) is Some && answers(track)->0.is_live)
    &&& !resolved(track, answers).too_long(cap)
}

/// The position of the first track of a queue that may be played, or the
/// queue's length.
pub open spec fn first_playable(
    queue: Seq<Track>,
    answers: spec_fn(Track) -> Option<TrackProbe>,
    cap: Nanos,
) -> int
    decreases queue.len(),
{
    if queue.len() == 0 || playable(queue[0], answers, cap) {
        0
    } else {
        1 + first_playable(queue.skip(1), answers, cap)
    }
}

/// Where moving on leads to while every notice goes out: the player at that
/// point, and the track that is then announced or started, if one is.
pub open spec fn moved_on(
    p: PlayerView,
    answers: spec_fn(Track) -> Option<TrackProbe>,
    cap: Nanos,
) -> (PlayerView, Option<Track>)
    decreases p.queue.len(),
{
    if p.queue.len() == 0 {
        (p.popped(), None)
    } else {
        let step = match p.next_step(cap) {
            NextStepView::Probe(track) => p.popped().probed(track, answers(track), cap),
            step => step,
        };
        match step {
            NextStepView::Announce(track) => (p.popped(), Some(track)),
            NextStepView::Play(track) => (p.popped(), Some(track)),
            _ => moved_on(p.popped(), answers, cap),
        }
    }
}

/// Moving on leads to the first track of the queue that may be played. The
/// tracks before it are gone from the queue, those after it stay in order, and
/// where none may be played the queue is empty.
pub proof fn law_first_playable_track_is_next(
    p: PlayerView,
    answers: spec_fn(Track) -> Option<TrackProbe>,
    cap: Nanos,
)
    ensures
        ({
            let i = first_playable(p.queue, answers, cap);
            let (after, track) = moved_on(p, answers, cap);
            &&& 0 <= i <= p.queue.len()
            &&& forall|j: int| 0 <= j < i ==> !playable(#[trigger] p.queue[j], answers, cap)
            &&& i < p.queue.len() ==> {
                &&& playable(p.queue[i], answers, cap)
                &&& track == Some(resolved(p.queue[i], answers))
                &&& after == PlayerView { queue: p.queue.skip(i + 1), ..p }
            }
            &&& i == p.queue.len() ==> {
                &&& track is None
                &&& after == PlayerView { queue: seq![], ..p }
            }
        }),
    decreases p.queue.len(),
{
    if p.queue.len() == 0 {
        assert(p.popped() =~= (PlayerView { queue: seq![], ..p }));
    } else if playable(p.queue[0], answers, cap) {
        assert(p.popped() == PlayerView { queue: p.queue.skip(1), ..p });
    } else {
        let rest = p.popped();
        law_first_playable_track_is_next(rest, answers, cap);
        let i = first_playable(rest.queue, answers, cap);
        assert forall|j: int| 0 <= j < i + 1 implies !playable(
            #[trigger] p.queue[j],
            answers,
            cap,
        ) by {
            if j > 0 {
                assert(rest.queue[j - 1] == p.queue[j]);
            }
        }
        if i < rest.queue.len() {
            assert(rest.queue.skip(i + 1) =~= p.queue.skip(i + 2));
        }
    }
}

/// No track that is known to be too long is ever announced or started.
pub proof fn law_long_tracks_never_play(
    p: PlayerView,
    answers: spec_fn(Track) -> Option<TrackProbe>,
    cap: Nanos,
)
    ensures
        moved_on(p, answers, cap).1 matches Some(track) ==> !track.too_long(cap),
{
    law_first_playable_track_is_next(p, answers, cap);
}

/// A track that is put at the head of the queue and may be played is the next
/// one, and what was in the queue stays there.
pub proof fn law_top_track_is_next(
    p: PlayerView,
    track: Track,
    answers: spec_fn(Track) -> Option<TrackProbe>,
    cap: Nanos,
)
    requires
        playable(track, answers, cap),
    ensures
        moved_on(p.enqueued(seq![track], true), answers, cap).1 == Some(resolved(track, answers)),
        moved_on(p.enqueued(seq![track], true), answers, cap).0.queue == p.queue,
{
    let q = p.enqueued(seq![track], true);
    law_first_playable_track_is_next(q, answers, cap);
    assert(q.queue[0] == track);
    assert(q.queue.skip(1) =~= p.queue);
}

/// Whatever is playing, the first track that may be played among those that are
/// to be played at once is the next one. The tracks after it come before all
/// that was in the queue, which stays there.
pub proof fn law_forced_tracks_come_first(
    p: PlayerView,
    tracks: Seq<Track>,
    answers: spec_fn(Track) -> Option<TrackProbe>,
    cap: Nanos,
)
    requires
        first_playable(tracks, answers, cap) < tracks.len(),
    ensures
        ({
            let i = first_playable(tracks, answers, cap);
            let (after, track) = moved_on(p.forced(tracks).idle(), answers, cap);
            &&& track == Some(resolved(tracks[i], answers))
            &&& after.queue == tracks.skip(i + 1) + p.queue
        }),
{
    let q = p.forced(tracks).idle();
    law_first_playable_track_is_next(q, answers, cap);
    lemma_first_playable_of_head(tracks, p.queue, answers, cap);
    let i = first_playable(tracks, answers, cap);
    assert(q.queue.skip(i + 1) =~= tracks.skip(i + 1) + p.queue);
}

proof fn lemma_first_playable_of_head(
    tracks: Seq<Track>,
    rest: Seq<Track>,
    answers: spec_fn(Track) -> Option<TrackProbe>,
    cap: Nanos,
)
    requires
        first_playable(tracks, answers, cap) < tracks.len(),
    ensures
        0 <= first_playable(tracks, answers, cap),
        first_playable(tracks + rest, answers, cap) == first_playable(tracks, answers, cap),
    decreases tracks.len(),
{
    if !playable(tracks[0], answers, cap) {
        lemma_first_playable_of_head(tracks.skip(1), rest, answers, cap);
        assert((tracks + rest).skip(1) =~= tracks.skip(1) + rest);
    }
}

/// Skipping `amount` tracks, as far as the queue reaches, leads to the track that
/// stood at that position, where it may be played. The tracks after it stay.
#[verifier::spinoff_prover]
pub proof fn law_skip_plays_the_right_track(
    p: PlayerView,
    amount: usize,
    answers: spec_fn(Track) -> Option<TrackProbe>,
    cap: Nanos,
)
    requires
        1 <= amount <= p.queue.len(),
        playable(p.queue[amount - 1], answers, cap),
    ensures
        ({
            let skipped = PlayerView {
                queue: p.queue_after_skip(amount),
                is_playing: true,
                ..p.stopped()
            };
            let (after, track) = moved_on(skipped.idle(), answers, cap);
            &&& track == Some(resolved(p.queue[amount - 1], answers))
            &&& after.queue == p.queue.skip(amount as int)
        }),
{
    crate::player::player::law_skip_leads_to_the_right_track(p, amount);
    let skipped = PlayerView {
        queue: p.queue_after_skip(amount),
        is_playing: true,
        ..p.stopped()
    };
    let q = skipped.idle();
    assert(q.queue == p.queue.skip(amount - 1));
    assert(q.queue[0] == p.queue[amount - 1]);
    assert(first_playable(q.queue, answers, cap) == 0);
    law_first_playable_track_is_next(q, answers, cap);
    assert(q.queue.skip(1) =~= p.queue.skip(amount as int));
}

/// While announcements are held back no track is announced, and otherwise none
/// is started that was not.
pub proof fn law_silence_holds_announcements_back(
    p: PlayerView,
    track: Track,
    probe: Option<TrackProbe>,
    cap: Nanos,
)
    ensures
        p.silent ==> !(p.next_step(cap) is Announce) && !(p.probed(track, probe, cap) is Announce),
        !p.silent ==> !(p.next_step(cap) is Play) && !(p.probed(track, probe, cap) is Play),
{
}

/// Moving on needs a guild and a voice connection, and fails where what is
/// playing does not stop. Otherwise nothing plays any more, and the head of the
/// queue, if there is one, is taken off: a fetched track of unknown duration is
/// asked about, one that is known to be longer than the cap is passed over, and
/// any other is announced, or started where announcements are held back.
pub proof fn law_moving_on_takes_the_head(
    p: &mut Player,
    guild_known: bool,
    manager_known: bool,
    reply: ControlReply,
    cap: Nanos,
    r: Result<NextStep, PlaybackError>,
)
    requires
        call_ensures(Player::next_track, (p, guild_known, manager_known, reply, cap), r),
    ensures
        !guild_known || !manager_known ==> {
            &&& r matches Err(PlaybackError::InternalError(text))
            &&& text@ == "Could not locate voice channel. Guild ID is none"@
            &&& final(p)@ == old(p)@
        },
        guild_known && manager_known && old(p)@.is_playing && old(p)@.track_handle is Some
            && reply is Err ==> {
            &&& r matches Err(PlaybackError::InternalError(text))
            &&& text@ == "Error stopping track: "@ + reply->Err_0@
            &&& final(p)@ == old(p)@
        },
        guild_known && manager_known && !(old(p)@.is_playing && old(p)@.track_handle is Some
            && reply is Err) ==> {
            &&& r is Ok
            &&& old(p)@.queue.len() == 0 ==> r->Ok_0 is Idle && final(p)@.queue.len() == 0
            &&& old(p)@.queue.len() > 0 ==> {
                let track = old(p)@.queue[0];
                let known = track.metadata.duration is Some || track.source is Local;
                let too_long = track.metadata.duration is Some && track.metadata.duration->0 > cap;
                &&& final(p)@.queue == old(p)@.queue.skip(1)
                &&& !known ==> r->Ok_0@ == NextStepView::Probe(track)
                &&& known && too_long ==> r->Ok_0@ == NextStepView::NotifyTooLong(
                    track.metadata.title@,
                )
                &&& known && !too_long && old(p)@.silent ==> r->Ok_0@ == NextStepView::Play(track)
                &&& known && !too_long && !old(p)@.silent ==> r->Ok_0@ == NextStepView::Announce(
                    track,
                )
            }
            &&& !final(p)@.is_playing
            &&& old(p)@.is_playing ==> {
                &&& !final(p)@.is_paused
                &&& final(p)@.track_handle is None
                &&& final(p)@.current_track is None
                &&& final(p)@.current_source_path is None
                &&& final(p)@.current_gain.bits == 0x3f80_0000u32
            }
            &&& !old(p)@.is_playing ==> final(p)@ == (PlayerView {
                queue: final(p)@.queue,
                ..old(p)@
            })
            &&& final(p)@.history == old(p)@.history
            &&& final(p)@.volume == old(p)@.volume
            &&& final(p)@.silent == old(p)@.silent
            &&& final(p)@.normalize == old(p)@.normalize
            &&& final(p)@.inactivity_cancel == old(p)@.inactivity_cancel
            &&& final(p)@.guild_id == old(p)@.guild_id
        },
{
}

/// What the downloader answers decides about the track that it was asked about:
/// a live broadcast is passed over, and so is one that turns out to be longer
/// than the cap. Any other is announced, or started where announcements are held
/// back, with the duration that the answer gave and all else as it was. Without
/// an answer the track is taken as it is.
pub proof fn law_answers_decide(
    p: Player,
    track: Track,
    probe: Option<TrackProbe>,
    cap: Nanos,
    r: NextStep,
)
    requires
        call_ensures(Player::after_probe, (&p, track, probe, cap), r),
    ensures
        ({
            let live = probe is Some && probe->0.is_live;
            let duration = if probe is Some {
                probe->0.duration
            } else {
                track.metadata.duration
            };
            let too_long = duration is Some && duration->0 > cap;
            &&& live <==> r is NotifyLivestream
            &&& live ==> r->NotifyLivestream_0@ == track.metadata.title@
            &&& !live && too_long <==> r is NotifyTooLong
            &&& !live && too_long ==> r->NotifyTooLong_0@ == track.metadata.title@
            &&& !live && !too_long && !p.silent <==> r is Announce
            &&& !live && !too_long && p.silent <==> r is Play
            &&& !live && !too_long ==> {
                let offered = if p.silent {
                    r->Play_0
                } else {
                    r->Announce_0
                };
                &&& offered.metadata.duration == duration
                &&& offered.id == track.id
                &&& offered.source == track.source
                &&& offered.added_by == track.added_by
                &&& offered.metadata.id == track.metadata.id
                &&& offered.metadata.title == track.metadata.title
                &&& offered.metadata.channel == track.metadata.channel
                &&& offered.metadata.track_url == track.metadata.track_url
                &&& offered.metadata.play_url == track.metadata.play_url
            }
        }),
{
}

/// Once the channel was told that a track is passed over, the head of the queue
/// comes next, by the same rules. Where it could not be told, that is reported and
/// nothing changes.
pub proof fn law_notices_lead_on(
    p: &mut Player,
    sent: Result<(), PlaybackError>,
    cap: Nanos,
    r: Result<NextStep, PlaybackError>,
)
    requires
        call_ensures(Player::after_notice, (p, sent, cap), r),
    ensures
        sent matches Err(e) ==> r == Err::<NextStep, PlaybackError>(e) && final(p)@ == old(p)@,
        sent is Ok ==> r is Ok,
        sent is Ok && old(p)@.queue.len() == 0 ==> r->Ok_0 is Idle && final(p)@ == old(p)@,
        sent is Ok && old(p)@.queue.len() > 0 ==> {
            let track = old(p)@.queue[0];
            let known = track.metadata.duration is Some || track.source is Local;
            let too_long = track.metadata.duration is Some && track.metadata.duration->0 > cap;
            &&& final(p)@ == (PlayerView { queue: old(p)@.queue.skip(1), ..old(p)@ })
            &&& !known ==> r->Ok_0@ == NextStepView::Probe(track)
            &&& known && too_long ==> r->Ok_0@ == NextStepView::NotifyTooLong(track.metadata.title@)
            &&& known && !too_long && old(p)@.silent ==> r->Ok_0@ == NextStepView::Play(track)
            &&& known && !too_long && !old(p)@.silent ==> r->Ok_0@ == NextStepView::Announce(track)
        },
{
}

/// A track that was announced is the one that is started. Where it could not be
/// announced, that is reported.
pub proof fn law_announced_track_is_started(
    p: Player,
    track: Track,
    sent: Result<(), PlaybackError>,
    r: Result<NextStep, PlaybackError>,
)
    requires
        call_ensures(Player::after_announcement, (&p, track, sent), r),
    ensures
        sent is Ok ==> r == Ok::<NextStep, PlaybackError>(NextStep::Play(track)),
        sent matches Err(e) ==> r == Err::<NextStep, PlaybackError>(e),
{
}

/// A track that was started is the current one under its handle, at unit gain,
/// and the latest of the history. Where it plays from a file, that file is known,
/// and measured exactly where loudness is evened out. Where it is streamed, it is
/// downloaded exactly where the cache can hold it.
pub proof fn law_started_track_is_current(
    p: &mut Player,
    track: Track,
    handle: u128,
    source_path: Option<String>,
    r: FollowUp,
)
    requires
        call_ensures(Player::after_play, (p, track, handle, source_path), r),
        old(p)@.history.len() <= 10,
    ensures
        final(p)@.is_playing,
        final(p)@.track_handle == Some(handle),
        final(p)@.current_track == Some(track),
        final(p)@.current_source_path == source_path,
        final(p)@.current_gain.bits == 0x3f80_0000u32,
        final(p)@.history.last() == track,
        old(p)@.history.len() < 10 ==> final(p)@.history.drop_last() == old(p)@.history,
        old(p)@.history.len() == 10 ==> final(p)@.history.drop_last() == old(p)@.history.skip(1),
        final(p)@.is_paused == old(p)@.is_paused,
        final(p)@.queue == old(p)@.queue,
        final(p)@.volume == old(p)@.volume,
        final(p)@.silent == old(p)@.silent,
        final(p)@.normalize == old(p)@.normalize,
        final(p)@.inactivity_cancel == old(p)@.inactivity_cancel,
        final(p)@.guild_id == old(p)@.guild_id,
        source_path is Some && !old(p)@.normalize <==> r is Nothing,
        source_path is Some && old(p)@.normalize <==> r is Measure,
        r matches FollowUp::Measure { path, track_id } ==> path@ == source_path->0@ && track_id@
            == track.id@,
        r matches FollowUp::Cache(decision) ==> {
            let long_form = track.metadata.duration is Some && track.metadata.duration->0
                > 600_000_000_000u128;
            &&& decision == CacheDecision::NotCacheable <==> cache_service::cache_stem(
                track,
            ) is None
            &&& decision == CacheDecision::Download <==> cache_service::cache_stem(track) is Some
                && !long_form
        },
{
    let h = old(p)@.history;
    assert(h.push(track).drop_last() =~= h);
    if h.len() == 10 {
        assert(h.push(track).skip(1).drop_last() =~= h.skip(1));
    }
}

/// A streamed track is downloaded exactly where the cache has a name for it and
/// it is not known to last more than ten minutes, whatever its source.
pub proof fn law_streamed_tracks_are_cached(track: Track, r: CacheDecision)
    requires
        call_ensures(spawn_cache_and_apply, (&track,), r),
    ensures
        ({
            let named = cache_service::cache_stem(track) is Some;
            let long_form = track.metadata.duration is Some && track.metadata.duration->0
                > 600_000_000_000u128;
            &&& r == CacheDecision::NotCacheable <==> !named
            &&& r == CacheDecision::TooLong <==> named && long_form
            &&& r == CacheDecision::Download <==> named && !long_form
        }),
{
}

/// A measurement counts exactly where its track still plays and loudness is still
/// evened out. Then it is the gain, and the volume of the guild is what it is
/// multiplied with.
pub proof fn law_measurements_count_for_the_current_track(
    player: &mut Player,
    track_id: &str,
    multiplier: Level,
    r: Option<AppliedGain>,
)
    requires
        call_ensures(schedule_normalization_apply, (player, track_id, multiplier), r),
    ensures
        r is Some <==> old(player)@.normalize && old(player)@.current_track is Some && old(player)@.current_track->0.id@ == track_id@,
        r matches Some(applied) ==> {
            &&& applied.title@ == old(player)@.current_track->0.metadata.title@
            &&& applied.volume == old(player)@.volume
            &&& applied.gain == multiplier
            &&& final(player)@.current_gain == multiplier
        },
        r is None ==> final(player)@.current_gain == old(player)@.current_gain,
        final(player)@ == (PlayerView {
            current_gain: final(player)@.current_gain,
            ..old(player)@
        }),
{
}

/// What the bot is shown to be doing names the track and its source, or says
/// that it waits.
pub proof fn law_presence_names_the_track(track: Track, label: &str, r: String, idle: String)
    requires
        call_ensures(set_now_playing, (&track, label), r),
        call_ensures(set_idle, (), idle),
    ensures
        r@ == "Playing "@ + track.metadata.title@ + " · "@ + label@,
        idle@ == "!help · waiting for !play"@,
{
}

} // verus!

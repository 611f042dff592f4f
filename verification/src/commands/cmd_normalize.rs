//! The command that evens out loudness, for this session.

use crate::bot::MusicBotError;
use crate::commands::toggle;
use crate::player::player::{Player, PlayerView};
use crate::text;
use crate::units::Level;
use vstd::prelude::*;

verus! {

/// What is done to the track that is playing, so that the switch takes effect
/// at once.
pub enum NormalizeEffect {
    /// Nothing.
    Nothing,
    /// Its file is measured, for the gain of this handle.
    Measure {
        /// The handle.
        handle: u128,
        /// The file.
        path: String,
        /// The id of the track.
        track_id: String,
    },
    /// Its handle plays at the volume of the guild.
    PlainVolume {
        /// The handle.
        handle: u128,
        /// The volume.
        volume: Level,
    },
}

impl PlayerView {
    /// The player once loudness is evened out or not. Where it is not, the
    /// volume is multiplied with nothing.
    pub open spec fn normalizing(self, on: bool) -> PlayerView {
        PlayerView {
            normalize: on,
            current_gain: if on {
                self.current_gain
            } else {
                Level::unity()
            },
            ..self
        }
    }

    /// Whether `effect` is what follows from the switch for the track that is
    /// playing: turned on, its file is measured where it has one; turned off,
    /// it goes back to the volume of the guild.
    pub open spec fn normalize_effect(self, on: bool, effect: NormalizeEffect) -> bool {
        if on {
            if self.track_handle is Some && self.current_source_path is Some
                && self.current_track is Some {
                &&& effect matches NormalizeEffect::Measure { handle, path, track_id }
                &&& handle == self.track_handle->0
                &&& path@ == self.current_source_path->0@
                &&& track_id@ == self.current_track->0.id@
            } else {
                effect is Nothing
            }
        } else {
            match self.track_handle {
                Some(handle) => effect == NormalizeEffect::PlainVolume {
                    handle,
                    volume: self.volume,
                },
                None => effect is Nothing,
            }
        }
    }
}

/// Evens loudness out, stops doing so, or does the one or the other in turn.
/// Returns whether it is evened out, and what is done to the track that is
/// playing.
pub fn normalize(player: &mut Player, state: Option<&str>) -> (r: Result<
    (bool, NormalizeEffect),
    MusicBotError,
>)
    ensures
        match toggle::desired(old(player)@.normalize, text::str_of(state)) {
            Ok(on) => {
                &&& r matches Ok((result, effect))
                &&& result == on
                &&& old(player)@.normalize_effect(on, effect)
                &&& final(player)@ == old(player)@.normalizing(on)
            },
            Err(word) => {
                &&& r matches Err(e)
                &&& e.is_internal(toggle::refusal("normalize"@, word))
                &&& final(player)@ == old(player)@
            },
        },
        old(player)@.wf() ==> final(player)@.wf(),
{
    let on = match toggle::decide("normalize", player.normalize, state) {
        Ok(on) => on,
        Err(e) => {
            return Err(e);
        },
    };
    player.normalize = on;
    let effect = if on {
        match (&player.track_handle, &player.current_source_path, &player.current_track) {
            (Some(handle), Some(path), Some(track)) => NormalizeEffect::Measure {
                handle: *handle,
                path: path.clone(),
                track_id: track.id.clone(),
            },
            _ => NormalizeEffect::Nothing,
        }
    } else {
        player.current_gain = Level::unity();
        match player.track_handle {
            Some(handle) => NormalizeEffect::PlainVolume { handle, volume: player.volume },
            None => NormalizeEffect::Nothing,
        }
    };
    Ok((on, effect))
}

/// The command turns the switch over, or obeys its word. Turned off, the handle
/// of what is playing goes back to the volume that the guild set, at unit gain.
/// Turned on, the file of what is playing is measured where it has one, and the
/// gain stays until then. Nothing else changes, and a word that is refused changes
/// nothing at all.
pub proof fn law_normalizing_takes_effect_at_once(
    p: &mut Player,
    state: Option<&str>,
    r: Result<(bool, NormalizeEffect), MusicBotError>,
)
    requires
        call_ensures(normalize, (p, state), r),
    ensures
        state is None ==> r is Ok && r->Ok_0.0 == !old(p)@.normalize,
        r is Err ==> final(p)@ == old(p)@,
        r matches Ok((on, effect)) ==> {
            &&& final(p)@.normalize == on
            &&& !on ==> final(p)@.current_gain.bits == 0x3f80_0000u32
            &&& on ==> final(p)@.current_gain == old(p)@.current_gain
            &&& final(p)@ == (PlayerView {
                normalize: on,
                current_gain: final(p)@.current_gain,
                ..old(p)@
            })
            &&& !on && old(p)@.track_handle is Some ==> effect == NormalizeEffect::PlainVolume {
                handle: old(p)@.track_handle->0,
                volume: old(p)@.volume,
            }
            &&& !on && old(p)@.track_handle is None ==> effect is Nothing
            &&& on && (old(p)@.track_handle is None || old(p)@.current_source_path is None || old(p)@.current_track is None) ==> effect is Nothing
            &&& on && old(p)@.track_handle is Some && old(p)@.current_source_path is Some && old(p)@.current_track is Some ==> {
                &&& effect matches NormalizeEffect::Measure { handle, path, track_id }
                &&& handle == old(p)@.track_handle->0
                &&& path@ == old(p)@.current_source_path->0@
                &&& track_id@ == old(p)@.current_track->0.id@
            }
        },
{
}

/// The command decides as every switch does.
pub proof fn law_normalize_is_a_switch(
    p: &mut Player,
    state: Option<&str>,
    r: Result<(bool, NormalizeEffect), MusicBotError>,
    decided: Result<bool, MusicBotError>,
)
    requires
        call_ensures(normalize, (p, state), r),
        call_ensures(toggle::decide, ("normalize", old(p)@.normalize, state), decided),
    ensures
        decided matches Ok(on) ==> (r matches Ok((result, _)) && result == on),
        decided matches Err(e) ==> {
            &&& e matches MusicBotError::InternalError(a)
            &&& r matches Err(MusicBotError::InternalError(b))
            &&& a@ == b@
        },
{
}

/// Whatever the volume was, turning the evening out of loudness off after a
/// volume was set has the handle play at that volume.
pub proof fn law_plain_volume_is_the_set_one(
    p: &mut Player,
    volume: Level,
    told: Option<u128>,
    q: &mut Player,
    state: Option<&str>,
    r: Result<(bool, NormalizeEffect), MusicBotError>,
)
    requires
        call_ensures(Player::set_volume, (p, volume), told),
        *old(q) == *final(p),
        call_ensures(normalize, (q, state), r),
        r is Ok && !r->Ok_0.0,
    ensures
        told matches Some(handle) ==> r->Ok_0.1 == (NormalizeEffect::PlainVolume { handle, volume }),
        told is None ==> r->Ok_0.1 is Nothing,
{
}

} // verus!

//! The command that holds announcements back, for this session.

use crate::bot::MusicBotError;
use crate::commands::toggle;
use crate::player::player::{Player, PlayerView};
use crate::text;
use vstd::prelude::*;

verus! {

/// Holds announcements back, lets them out again, or does the one or the other
/// in turn. Returns whether they are held back.
pub fn silent(player: &mut Player, state: Option<&str>) -> (r: Result<bool, MusicBotError>)
    ensures
        match toggle::desired(old(player)@.silent, text::str_of(state)) {
            Ok(on) => {
                &&& r == Ok::<bool, MusicBotError>(on)
                &&& final(player)@ == (PlayerView { silent: on, ..old(player)@ })
            },
            Err(word) => {
                &&& r matches Err(e)
                &&& e.is_internal(toggle::refusal("silent"@, word))
                &&& final(player)@ == old(player)@
            },
        },
        old(player)@.wf() ==> final(player)@.wf(),
{
    match toggle::decide("silent", player.silent, state) {
        Ok(on) => {
            player.silent = on;
            Ok(on)
        },
        Err(e) => Err(e),
    }
}

/// The command turns the switch over, or obeys its word, as every switch does,
/// and touches nothing else. A word that is refused changes nothing.
pub proof fn law_silent_is_a_switch(
    p: &mut Player,
    state: Option<&str>,
    r: Result<bool, MusicBotError>,
    decided: Result<bool, MusicBotError>,
)
    requires
        call_ensures(silent, (p, state), r),
        call_ensures(toggle::decide, ("silent", old(p)@.silent, state), decided),
    ensures
        state is None ==> r == Ok::<bool, MusicBotError>(!old(p)@.silent),
        decided matches Ok(on) ==> r == Ok::<bool, MusicBotError>(on),
        decided matches Err(e) ==> {
            &&& e matches MusicBotError::InternalError(a)
            &&& r matches Err(MusicBotError::InternalError(b))
            &&& a@ == b@
        },
        r matches Ok(on) ==> final(p)@ == (PlayerView { silent: on, ..old(p)@ }),
        r is Err ==> final(p)@ == old(p)@,
{
}

} // verus!

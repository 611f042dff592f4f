//! Who is in which voice channel of a guild.

use vstd::prelude::*;

verus! {

/// A user's place among the voice channels of a guild.
#[derive(Clone, Copy, Debug)]
pub struct VoiceState {
    /// The user.
    pub user_id: u64,
    /// The voice channel that the user is in.
    pub channel_id: Option<u64>,
}

/// The voice channel that `user` is in, by the first state of theirs.
pub open spec fn channel_of(states: Seq<VoiceState>, user: u64) -> Option<u64>
    decreases states.len(),
{
    if states.len() == 0 {
        None
    } else if states[0].user_id == user {
        states[0].channel_id
    } else {
        channel_of(states.skip(1), user)
    }
}

/// The users other than `bot` who are in `channel`, in the order of their
/// states.
pub open spec fn members_of(states: Seq<VoiceState>, channel: u64, bot: u64) -> Seq<u64>
    decreases states.len(),
{
    if states.len() == 0 {
        seq![]
    } else {
        let before = members_of(states.drop_last(), channel, bot);
        let last = states.last();
        if last.channel_id == Some(channel) && last.user_id != bot {
            before.push(last.user_id)
        } else {
            before
        }
    }
}

/// Finds the voice channel that `user` is in.
pub fn user_channel(states: &Vec<VoiceState>, user: u64) -> (r: Option<u64>)
    ensures
        r == channel_of(states@, user),
{
    assert(states@.skip(0) =~= states@);
    for i in 0..states.len()
        invariant
            channel_of(states@, user) == channel_of(states@.skip(i as int), user),
            i == states.len() ==> channel_of(states@, user) is None,
    {
        assert(states@.skip(i as int)[0] == states@[i as int]);
        assert(states@.skip(i as int).skip(1) =~= states@.skip(i + 1));
        if states[i].user_id == user {
            return states[i].channel_id;
        }
    }
    None
}

/// Lists the users other than the bot who are in a voice channel.
pub fn current_voice_members(states: &Vec<VoiceState>, voice_channel_id: u64, bot_id: u64) -> (r:
    Vec<u64>)
    ensures
        r@ == members_of(states@, voice_channel_id, bot_id),
{
    let mut out: Vec<u64> = Vec::new();
    for i in 0..states.len()
        invariant
            out@ == members_of(states@.take(i as int), voice_channel_id, bot_id),
    {
        assert(states@.take(i + 1).drop_last() =~= states@.take(i as int));
        let state = states[i];
        if let Some(channel) = state.channel_id {
            if channel == voice_channel_id && state.user_id != bot_id {
                out.push(state.user_id);
            }
        }
    }
    assert(states@.take(states.len() as int) =~= states@);
    out
}

/// Whether a user is in a voice channel.
pub fn user_in_voice(states: &Vec<VoiceState>, voice_channel_id: u64, user_id: u64) -> (r: bool)
    ensures
        r == (channel_of(states@, user_id) == Some(voice_channel_id)),
{
    match user_channel(states, user_id) {
        Some(channel) => channel == voice_channel_id,
        None => false,
    }
}

/// The members of a channel are exactly the users other than the bot with a
/// state in it.
pub proof fn law_members_are_in_the_channel(
    states: Seq<VoiceState>,
    channel: u64,
    bot: u64,
    user: u64,
)
    ensures
        members_of(states, channel, bot).contains(user) <==> user != bot && exists|i: int|
            0 <= i < states.len() && (#[trigger] states[i]).user_id == user && states[i].channel_id
                == Some(channel),
    decreases states.len(),
{
    if states.len() > 0 {
        let init = states.drop_last();
        let before = members_of(init, channel, bot);
        let all = members_of(states, channel, bot);
        law_members_are_in_the_channel(init, channel, bot, user);
        if before.contains(user) {
            let k = choose|k: int| 0 <= k < before.len() && before[k] == user;
            assert(all[k] == user);
            let i = choose|i: int|
                0 <= i < init.len() && (#[trigger] init[i]).user_id == user && init[i].channel_id
                    == Some(channel);
            assert(states[i] == init[i]);
        }
        if all.contains(user) && !before.contains(user) {
            let k = choose|k: int| 0 <= k < all.len() && all[k] == user;
            assert(k == before.len());
            assert(states[states.len() - 1].user_id == user);
        }
        if user != bot && exists|i: int|
            0 <= i < states.len() && (#[trigger] states[i]).user_id == user && states[i].channel_id
                == Some(channel) {
            let i = choose|i: int|
                0 <= i < states.len() && (#[trigger] states[i]).user_id == user
                    && states[i].channel_id == Some(channel);
            if i < init.len() {
                assert(init[i] == states[i]);
            } else {
                assert(all.last() == user);
            }
        }
    }
}

/// A user is in the channel of their state, if they have one. The first counts.
pub proof fn law_channel_is_that_of_the_state(
    states: Vec<VoiceState>,
    user: u64,
    r: Option<u64>,
    i: int,
)
    requires
        call_ensures(user_channel, (&states, user), r),
        0 <= i <= states@.len(),
        forall|j: int| 0 <= j < i ==> (#[trigger] states@[j]).user_id != user,
        i < states@.len() ==> states@[i].user_id == user,
    ensures
        i < states@.len() ==> r == states@[i].channel_id,
        i == states@.len() ==> r is None,
{
    lemma_channel_of(states@, user, i);
}

proof fn lemma_channel_of(states: Seq<VoiceState>, user: u64, i: int)
    requires
        0 <= i <= states.len(),
        forall|j: int| 0 <= j < i ==> (#[trigger] states[j]).user_id != user,
        i < states.len() ==> states[i].user_id == user,
    ensures
        channel_of(states, user) == if i < states.len() {
            states[i].channel_id
        } else {
            None
        },
    decreases states.len(),
{
    if i > 0 {
        assert(states[0].user_id != user);
        assert forall|j: int| 0 <= j < i - 1 implies (#[trigger] states.skip(1)[j]).user_id
            != user by {
            assert(states.skip(1)[j] == states[j + 1]);
        }
        lemma_channel_of(states.skip(1), user, i - 1);
    }
}

/// A user is in a voice channel exactly where it is the one that they are found
/// in.
pub proof fn law_being_in_a_channel_is_being_found_there(
    states: Vec<VoiceState>,
    channel: u64,
    user: u64,
    found: Option<u64>,
    r: bool,
)
    requires
        call_ensures(user_channel, (&states, user), found),
        call_ensures(user_in_voice, (&states, channel, user), r),
    ensures
        r <==> found == Some(channel),
{
}

/// One more state adds its user to the members at the end, where it is in the
/// channel and the user is not the bot, and else changes nothing. Without states
/// there are no members.
pub proof fn law_members_come_one_by_one(
    states: Vec<VoiceState>,
    more: Vec<VoiceState>,
    state: VoiceState,
    channel: u64,
    bot: u64,
    few: Vec<u64>,
    all: Vec<u64>,
)
    requires
        call_ensures(current_voice_members, (&states, channel, bot), few),
        call_ensures(current_voice_members, (&more, channel, bot), all),
        more@ == states@.push(state),
    ensures
        states@.len() == 0 ==> few@.len() == 0,
        state.channel_id == Some(channel) && state.user_id != bot ==> all@ == few@.push(
            state.user_id,
        ),
        state.channel_id != Some(channel) || state.user_id == bot ==> all@ == few@,
{
    assert(more@.drop_last() =~= states@);
}

} // verus!

use rusty_tunes::bot::MusicBotError;
use rusty_tunes::service::gather_service::{
    display_name, mention, mentions, start_gather, CheckIn, GatherButton, GatherState, PregatherEnd, Reply,
    GHOST_PING_INTERVAL, LOOP_POLL, MAX_GATHER_DURATION, MAX_PREGATHER_DURATION, MIN_EDIT_INTERVAL, PREGATHER_DURATION,
};
use serenity::all::{Mentionable, UserId};

const SECOND: u128 = 1_000_000_000;
const START: u128 = 1000 * SECOND;
const GRACE: u128 = 120 * SECOND;

fn refusal(reply: Reply) -> String {
    match reply {
        Reply::Refuse(text) => text,
        _ => panic!("expected a refusal"),
    }
}

fn begun(members: &[u64]) -> (CheckIn, GatherState) {
    let state = GatherState::new(9);
    (CheckIn::begin(1, &members.to_vec(), &state, START, GRACE), state)
}

fn sorted(ids: impl IntoIterator<Item = u64>) -> Vec<u64> {
    let mut v: Vec<u64> = ids.into_iter().collect();
    v.sort();
    v
}

#[test]
fn times_are_as_documented() {
    assert_eq!(PREGATHER_DURATION, 60 * SECOND);
    assert_eq!(MAX_PREGATHER_DURATION, 7200 * SECOND);
    assert_eq!(GHOST_PING_INTERVAL, 30 * SECOND);
    assert_eq!(MAX_GATHER_DURATION, 1800 * SECOND);
    assert_eq!(MIN_EDIT_INTERVAL, 5 * SECOND);
    assert_eq!(LOOP_POLL, 800_000_000);
}

#[test]
fn opening_needs_somebody() {
    match start_gather(&vec![], 1) {
        Err(MusicBotError::InternalError(e)) => assert_eq!(e, "No one is in the voice channel."),
        _ => panic!("expected an internal error"),
    }
    let opening = start_gather(&vec![3, 20], PREGATHER_DURATION).ok().unwrap();
    assert_eq!(opening.mentions, "<@3> <@20>");
    assert!(opening.countdown);
    let opening = start_gather(&vec![3], 0).ok().unwrap();
    assert!(!opening.countdown);
    assert_eq!(opening.placeholder, "Gathering starting…");
}

#[test]
fn mentions_agree_with_the_client_library() {
    for id in [1u64, 42, 123456789012345678] {
        assert_eq!(mention(id), UserId::new(id).mention().to_string());
    }
    assert_eq!(mentions(&vec![]), "");
}

#[test]
fn countdown_waits_and_ends() {
    let mut state = GatherState::new(9);
    state.open_pregather(START, -5, 60 * SECOND);
    assert_eq!(state.pregather.unwrap().original_duration, 60 * SECOND);
    assert_eq!(state.pregather_wait(START, 60 * SECOND, START), Some(5 * SECOND));
    assert_eq!(state.pregather_wait(START, 60 * SECOND, START + 58 * SECOND), Some(2 * SECOND));
    assert_eq!(state.pregather_wait(START, 60 * SECOND, START + 60 * SECOND), None);
    state.pregather_extension = 30 * SECOND;
    assert_eq!(state.pregather_wait(START, 60 * SECOND, START + 60 * SECOND), Some(5 * SECOND));
    assert_eq!(state.pregather_end(START, -5, 60 * SECOND), (START + 90 * SECOND, 90 * SECOND as i128 - 5));
    state.close_pregather();
    assert!(state.pregather.is_none());
}

#[test]
fn countdown_clicks() {
    let mut state = GatherState::new(9);
    let (reply, end) = state.pregather_click(GatherButton::Cancel, 2, 1);
    assert_eq!(refusal(reply), "Only the person who started the gathering can cancel it.");
    assert!(end.is_none());
    let (reply, end) = state.pregather_click(GatherButton::ForceStart, 2, 1);
    assert_eq!(refusal(reply), "Only the person who started the gathering can skip the countdown.");
    assert!(end.is_none());
    let (reply, end) = state.pregather_click(GatherButton::Cancel, 1, 1);
    assert!(matches!(reply, Reply::Acknowledge) && end == Some(PregatherEnd::Cancelled));
    assert_eq!(end.unwrap().footer().as_deref(), Some("Cancelled."));
    let (reply, end) = state.pregather_click(GatherButton::ForceStart, 1, 1);
    assert!(matches!(reply, Reply::Acknowledge) && end == Some(PregatherEnd::Started));
    assert_eq!(end.unwrap().footer(), None);
    let (reply, end) = state.pregather_click(GatherButton::Here, 2, 1);
    assert!(matches!(reply, Reply::Acknowledge) && end.is_none());
}

#[test]
fn last_countdown_click_counts() {
    let mut state = GatherState::new(9);
    let (reply, _) = state.pregather_click(GatherButton::Join, 5, 1);
    assert!(matches!(reply, Reply::Refresh));
    assert!(state.extra_expected.contains(&5) && !state.forgotten.contains(&5));
    state.pregather_click(GatherButton::Leave, 5, 1);
    assert!(!state.extra_expected.contains(&5) && state.forgotten.contains(&5));
    state.pregather_click(GatherButton::Join, 5, 1);
    assert!(state.extra_expected.contains(&5) && !state.forgotten.contains(&5));
}

#[test]
fn check_in_expects_members_author_and_added() {
    let mut state = GatherState::new(9);
    state.extra_expected.insert(7);
    let check_in = CheckIn::begin(1, &vec![2, 3, 2], &state, START, GRACE);
    assert_eq!(sorted(check_in.expected.iter().copied()), [1, 2, 3, 7]);
    assert_eq!(check_in.grace_ends_at, START + GRACE);
    assert!(check_in.arrivals.is_empty() && check_in.opted_out.is_empty());
}

#[test]
fn arrivals_are_on_time_or_late() {
    let (mut c, mut g) = begun(&[1, 2, 3]);
    let reply = c.handle_interaction(&mut g, GatherButton::Here, 2, false, START);
    assert_eq!(refusal(reply), "You need to be in the voice channel to check in.");
    assert!(matches!(c.handle_interaction(&mut g, GatherButton::Here, 2, true, START + GRACE), Reply::Refresh));
    assert_eq!(c.arrivals[&2], 0);
    let late = START + GRACE + 1;
    c.handle_interaction(&mut g, GatherButton::Here, 3, true, late);
    assert_eq!(c.arrivals[&3], GRACE + 1);
    let reply = c.handle_interaction(&mut g, GatherButton::Here, 3, true, late);
    assert_eq!(refusal(reply), "You're already checked in.");
    assert!(!c.is_complete());
    c.handle_interaction(&mut g, GatherButton::Here, 1, true, late);
    assert!(c.is_complete());
    assert_eq!(c.grace_ends_at, late);
    assert_eq!(c.poll(late), None);
    assert_eq!(c.footer(late), "All checked in. Gathering complete.");
}

#[test]
fn uninvited_arrivals_count() {
    let (mut c, mut g) = begun(&[]);
    c.handle_interaction(&mut g, GatherButton::Here, 8, true, START);
    assert!(c.expected.contains(&8) && !c.is_complete());
}

#[test]
fn opting_out() {
    let (mut c, mut g) = begun(&[2, 3]);
    c.handle_interaction(&mut g, GatherButton::Here, 1, true, START);
    c.handle_interaction(&mut g, GatherButton::Here, 2, true, START);
    let reply = c.handle_interaction(&mut g, GatherButton::NotComing, 2, true, START);
    assert_eq!(refusal(reply), "You've already checked in — you can't opt out now.");
    assert!(matches!(c.handle_interaction(&mut g, GatherButton::NotComing, 3, true, START + SECOND), Reply::Refresh));
    assert!(!c.expected.contains(&3) && c.opted_out.contains(&3) && c.is_complete());
    assert_eq!(c.grace_ends_at, START + SECOND);
    let reply = c.handle_interaction(&mut g, GatherButton::NotComing, 3, true, START);
    assert_eq!(refusal(reply), "You've already marked yourself as not coming.");
}

#[test]
fn only_the_author_controls() {
    let (mut c, mut g) = begun(&[2]);
    let reply = c.handle_interaction(&mut g, GatherButton::Cancel, 2, true, START);
    assert_eq!(refusal(reply), "Only the person who started the gathering can cancel it.");
    let reply = c.handle_interaction(&mut g, GatherButton::ToggleSilent, 2, true, START);
    assert_eq!(refusal(reply), "Only the person who started the gathering can mute pings.");
    assert!(!c.cancelled && !g.silent);
    assert!(matches!(c.handle_interaction(&mut g, GatherButton::ToggleSilent, 1, true, START), Reply::Refresh));
    assert!(g.silent);
    assert!(matches!(c.handle_interaction(&mut g, GatherButton::Other, 2, true, START), Reply::Acknowledge));
    assert!(matches!(c.handle_interaction(&mut g, GatherButton::Cancel, 1, true, START), Reply::Acknowledge));
    assert!(c.cancelled);
    assert_eq!(c.poll(START), None);
    assert_eq!(c.footer(START + 2 * MAX_GATHER_DURATION), "Cancelled by initiator.");
}

#[test]
fn polling_waits_for_what_is_next() {
    let (mut c, _) = begun(&[2]);
    assert_eq!(c.poll(START), Some(LOOP_POLL));
    assert_eq!(c.poll(START + GRACE - 5), Some(5));
    assert_eq!(c.poll(START + GRACE), Some(0));
    c.last_ghost_ping = START + GRACE;
    assert_eq!(c.poll(START + GRACE + GHOST_PING_INTERVAL - 7), Some(7));
    c.last_ghost_ping = START + MAX_GATHER_DURATION - SECOND;
    assert_eq!(c.poll(START + MAX_GATHER_DURATION - 3), Some(3));
    assert_eq!(c.poll(START + MAX_GATHER_DURATION), None);
    assert_eq!(c.footer(START + MAX_GATHER_DURATION), "Gathering timed out.");
}

#[test]
fn rounds_take_over_the_shared_state() {
    let (mut c, mut g) = begun(&[2, 3, 4]);
    c.handle_interaction(&mut g, GatherButton::Here, 2, true, START);
    g.extra_expected.insert(5);
    g.forgotten.insert(2);
    g.forgotten.insert(3);
    g.auto_arrived.insert(4);
    g.auto_arrived.insert(99);
    c.edited(START + SECOND);
    assert!(c.tick(&mut g, START + 2 * SECOND).is_empty());
    assert_eq!(sorted(c.expected.iter().copied()), [1, 2, 4, 5]);
    assert_eq!(sorted(c.arrivals.keys().copied()), [2, 4]);
    assert!(g.forgotten.is_empty() && g.auto_arrived.is_empty() && g.extra_expected.contains(&5));
    assert_eq!(c.last_edit, START);
}

#[test]
fn joining_the_channel_can_complete_the_gathering() {
    let (mut c, mut g) = begun(&[]);
    g.auto_arrived.insert(1);
    c.tick(&mut g, START + SECOND);
    assert!(c.is_complete());
    assert_eq!(c.grace_ends_at, START + SECOND);
    let (mut c, mut g) = begun(&[]);
    g.auto_arrived.insert(1);
    c.tick(&mut g, START + GRACE + SECOND);
    assert_eq!(c.arrivals[&1], GRACE + SECOND);
    assert_eq!(c.grace_ends_at, START + GRACE);
}

#[test]
fn reminders_follow_the_rules() {
    let (mut c, mut g) = begun(&[2, 3]);
    c.handle_interaction(&mut g, GatherButton::Here, 3, true, START);
    assert!(c.tick(&mut g, START + GRACE - 1).is_empty());
    assert_eq!(sorted(c.tick(&mut g, START + GRACE)), [1, 2]);
    assert!(c.tick(&mut g, START + GRACE + GHOST_PING_INTERVAL - 1).is_empty());
    g.silent = true;
    assert!(c.tick(&mut g, START + GRACE + GHOST_PING_INTERVAL).is_empty());
    g.silent = false;
    assert_eq!(c.tick(&mut g, START + GRACE + GHOST_PING_INTERVAL).len(), 2);
}

#[test]
fn edits_keep_their_distance() {
    let (mut c, _) = begun(&[2]);
    assert!(!c.edit_due(START + MIN_EDIT_INTERVAL - 1));
    assert!(c.edit_due(START + MIN_EDIT_INTERVAL));
    c.edited(START + MIN_EDIT_INTERVAL);
    assert!(!c.edit_due(START + MIN_EDIT_INTERVAL));
}

#[test]
fn rows_show_everyone() {
    let (mut c, mut g) = begun(&[2, 3]);
    c.handle_interaction(&mut g, GatherButton::Here, 2, true, START);
    c.handle_interaction(&mut g, GatherButton::NotComing, 3, true, START);
    let rows = c.rows();
    assert_eq!(rows.len(), 3);
    assert_eq!(rows[2].user_id, 3);
    assert!(rows[2].opted_out && rows[2].arrived.is_none());
    assert_eq!(sorted(rows[..2].iter().map(|r| r.user_id)), [1, 2]);
    for row in &rows[..2] {
        assert!(!row.opted_out);
        assert_eq!(row.arrived, if row.user_id == 2 { Some(0) } else { None });
    }
}

#[test]
fn unknown_users_are_called_by_their_id() {
    assert_eq!(display_name(Some("Ann"), 5), "Ann");
    assert_eq!(display_name(None, 5), "User 5");
}

#[test]
fn arrivals_stay_whatever_is_clicked() {
    let (mut c, mut g) = begun(&[2, 3]);
    let late = START + GRACE + SECOND;
    c.handle_interaction(&mut g, GatherButton::Here, 2, true, late);
    let buttons = [
        GatherButton::Cancel,
        GatherButton::ForceStart,
        GatherButton::Join,
        GatherButton::Leave,
        GatherButton::NotComing,
        GatherButton::ToggleSilent,
        GatherButton::Here,
        GatherButton::Other,
    ];
    for button in buttons {
        c.handle_interaction(&mut g, button, 2, true, late + SECOND);
        assert_eq!(c.arrivals[&2], GRACE + SECOND);
        assert!(c.expected.contains(&2) && !c.opted_out.contains(&2) && !c.cancelled && !g.silent);
    }
}

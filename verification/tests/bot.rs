use rusty_tunes::bot::{migration_plan, on_voice_update, DatabaseStage, MigrationStep, MusicBotError, VoiceAction};
use rusty_tunes::player::player::Player;
use rusty_tunes::player::track::PlaybackError;
use rusty_tunes::voice::{current_voice_members, user_channel, user_in_voice, VoiceState};
use rusty_tunes::bot::MigrationStep::{CopyRows, CreateNew, DropOld, RenameNew};

fn at(user_id: u64, channel_id: Option<u64>) -> VoiceState {
    VoiceState { user_id, channel_id }
}

#[test]
fn errors_are_told() {
    assert_eq!(MusicBotError::InternalError("x".to_string()).message(), "Whoops, an internal error occurred: x");
    assert_eq!(MusicBotError::NoGuildIdError.message(), "No guild ID found");
    assert_eq!(MusicBotError::UserNotInVoiceChannelError.message(), "User not in voice channel");
    assert_eq!(MusicBotError::BotNotInVoiceChannelError.message(), "Bot not in voice channel");
    assert_eq!(MusicBotError::UnableToJoinVoiceChannelError.message(), "Unable to join voice channel");
    match PlaybackError::from(MusicBotError::NoGuildIdError) {
        PlaybackError::InternalError(e) => assert_eq!(e, "No guild ID found"),
        _ => panic!("expected an internal error"),
    }
}

#[test]
fn members_exclude_the_bot() {
    let states = vec![at(1, Some(9)), at(2, Some(9)), at(3, Some(8)), at(4, None), at(5, Some(9))];
    assert_eq!(current_voice_members(&states, 9, 1), vec![2, 5]);
    assert_eq!(current_voice_members(&states, 7, 1), Vec::<u64>::new());
    assert_eq!(user_channel(&states, 3), Some(8));
    assert_eq!(user_channel(&states, 6), None);
    assert!(user_in_voice(&states, 9, 2) && !user_in_voice(&states, 8, 2) && !user_in_voice(&states, 8, 4));
}

#[test]
fn bot_leaves_when_alone() {
    let player = Player::new(1, None);
    let alone = vec![at(1, Some(9)), at(2, Some(8))];
    assert_eq!(on_voice_update(true, &alone, 1, &player), VoiceAction::Leave);
    assert_eq!(on_voice_update(false, &alone, 1, &player), VoiceAction::Ignore);
    let company = vec![at(1, Some(9)), at(2, Some(9))];
    assert_eq!(on_voice_update(true, &company, 1, &player), VoiceAction::Ignore);
}

#[test]
fn bot_cleans_up_once() {
    let mut player = Player::new(1, None);
    let gone = vec![at(1, None), at(2, Some(9))];
    assert_eq!(on_voice_update(true, &gone, 1, &player), VoiceAction::Ignore);
    assert_eq!(on_voice_update(true, &vec![], 1, &player), VoiceAction::Ignore);
    player.is_playing = true;
    player.is_paused = true;
    assert_eq!(on_voice_update(true, &gone, 1, &player), VoiceAction::CleanUp);
    assert!(player.stop_playback(Ok(())).is_ok());
    assert_eq!(on_voice_update(true, &gone, 1, &player), VoiceAction::Ignore);
}

#[test]
fn migrations_are_planned() {
    assert_eq!(migration_plan(false, true, Some(1)), vec![CreateNew, CopyRows, DropOld, RenameNew]);
    assert_eq!(migration_plan(false, true, Some(0)), vec![]);
    assert_eq!(migration_plan(false, true, None), vec![]);
    assert_eq!(migration_plan(false, false, Some(1)), vec![]);
    assert_eq!(migration_plan(true, true, Some(1)), vec![DropOld, RenameNew]);
    assert_eq!(migration_plan(true, false, None), vec![RenameNew]);
}

#[test]
fn statements_are_as_documented() {
    assert_eq!(MigrationStep::DropOld.sql(), "DROP TABLE notify_me");
    assert_eq!(MigrationStep::RenameNew.sql(), "ALTER TABLE notify_me_new RENAME TO notify_me");
    assert_eq!(
        MigrationStep::CreateNew.sql(),
        "CREATE TABLE notify_me_new (\
            id INTEGER PRIMARY KEY AUTOINCREMENT,\
            guild_id INTEGER NOT NULL,\
            channel_id INTEGER NOT NULL,\
            user_id INTEGER NOT NULL,\
            message_id INTEGER,\
            created_at DATETIME DEFAULT CURRENT_TIMESTAMP,\
            notify_at DATETIME,\
            note TEXT DEFAULT NULL\
        )"
    );
    assert_eq!(
        MigrationStep::CopyRows.sql(),
        "INSERT INTO notify_me_new (id, guild_id, channel_id, user_id, message_id, created_at, notify_at, note) \
            SELECT id, guild_id, channel_id, user_id, message_id, created_at, notify_at, note FROM notify_me"
    );
}

#[test]
fn database_failures_name_their_stage() {
    let told = |stage: DatabaseStage| match stage.failed("e") {
        MusicBotError::InternalError(text) => text,
        _ => panic!("expected an internal error"),
    };
    assert_eq!(told(DatabaseStage::CatalogProbe), "Catalog probe failed: e");
    assert_eq!(told(DatabaseStage::SchemaProbe), "Schema probe failed: e");
    assert_eq!(told(DatabaseStage::Begin), "Begin migration tx failed: e");
    assert_eq!(told(DatabaseStage::Step(MigrationStep::CreateNew)), "CREATE notify_me_new failed: e");
    assert_eq!(told(DatabaseStage::Step(MigrationStep::CopyRows)), "Copy into notify_me_new failed: e");
    assert_eq!(told(DatabaseStage::Step(MigrationStep::DropOld)), "DROP notify_me failed: e");
    assert_eq!(told(DatabaseStage::Step(MigrationStep::RenameNew)), "RENAME notify_me_new failed: e");
    assert_eq!(told(DatabaseStage::Commit), "Commit migration tx failed: e");
}

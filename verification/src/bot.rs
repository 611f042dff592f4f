//! The bot as a whole: its errors, what it does when people come and go in
//! voice channels, and how it brings its database up to date.

use crate::player::player::{Player, PlayerView};
use crate::voice;
use crate::voice::VoiceState;
use vstd::prelude::*;

verus! {

/// What a command reports when it fails.
#[derive(Debug)]
pub enum MusicBotError {
    /// Anything that went wrong inside the bot, with a description.
    InternalError(String),
    /// The command was used outside a guild.
    NoGuildIdError,
    /// The user is in no voice channel.
    UserNotInVoiceChannelError,
    /// The bot is in no voice channel.
    BotNotInVoiceChannelError,
    /// The voice channel could not be joined.
    UnableToJoinVoiceChannelError,
}

impl MusicBotError {
    /// The text that a user sees.
    pub open spec fn text(self) -> Seq<char> {
        match self {
            MusicBotError::InternalError(reason) => "Whoops, an internal error occurred: "@
                + reason@,
            MusicBotError::NoGuildIdError => "No guild ID found"@,
            MusicBotError::UserNotInVoiceChannelError => "User not in voice channel"@,
            MusicBotError::BotNotInVoiceChannelError => "Bot not in voice channel"@,
            MusicBotError::UnableToJoinVoiceChannelError => "Unable to join voice channel"@,
        }
    }

    /// Whether this is an internal error with exactly this description.
    pub open spec fn is_internal(self, reason: Seq<char>) -> bool {
        self matches MusicBotError::InternalError(text) && text@ == reason
    }

    /// Writes the text that a user sees.
    pub fn message(&self) -> (r: String)
        ensures
            r@ == self.text(),
    {
        match self {
            MusicBotError::InternalError(reason) => {
                let mut out = "Whoops, an internal error occurred: ".to_string();
                out.append(reason.as_str());
                out
            },
            MusicBotError::NoGuildIdError => "No guild ID found".to_string(),
            MusicBotError::UserNotInVoiceChannelError => "User not in voice channel".to_string(),
            MusicBotError::BotNotInVoiceChannelError => "Bot not in voice channel".to_string(),
            MusicBotError::UnableToJoinVoiceChannelError => "Unable to join voice channel".to_string(),
        }
    }
}

/// What the bot does when someone comes or goes in a voice channel.
#[derive(Clone, Copy, PartialEq, Eq, Structural, Debug)]
pub enum VoiceAction {
    /// Nothing.
    Ignore,
    /// It has lost its voice channel: playback is stopped and the connection
    /// is dropped.
    CleanUp,
    /// It is left alone in its voice channel: playback is stopped and the
    /// connection is dropped.
    Leave,
}

/// Whether losing the voice channel leaves something to clean up: active or
/// paused playback, or tracks in the queue.
pub open spec fn needs_cleanup(player: PlayerView) -> bool {
    player.is_playing || player.is_paused || player.queue.len() > 0
}

/// What the bot does when someone comes or goes, given everyone's place
/// afterwards.
pub open spec fn voice_action(
    in_guild: bool,
    states: Seq<VoiceState>,
    bot: u64,
    player: PlayerView,
) -> VoiceAction {
    if !in_guild {
        VoiceAction::Ignore
    } else {
        match voice::channel_of(states, bot) {
            None => if needs_cleanup(player) {
                VoiceAction::CleanUp
            } else {
                VoiceAction::Ignore
            },
            Some(channel) => if voice::members_of(states, channel, bot).len() == 0 {
                VoiceAction::Leave
            } else {
                VoiceAction::Ignore
            },
        }
    }
}

/// Decides what the bot does when someone comes or goes.
pub fn on_voice_update(in_guild: bool, states: &Vec<VoiceState>, bot: u64, player: &Player) -> (r:
    VoiceAction)
    ensures
        r == voice_action(in_guild, states@, bot, player@),
{
    if !in_guild {
        return VoiceAction::Ignore;
    }
    match voice::user_channel(states, bot) {
        None => {
            if player.is_playing || player.is_paused || player.queue.len() > 0 {
                VoiceAction::CleanUp
            } else {
                VoiceAction::Ignore
            }
        },
        Some(channel) => {
            if voice::current_voice_members(states, channel, bot).len() == 0 {
                VoiceAction::Leave
            } else {
                VoiceAction::Ignore
            }
        },
    }
}

/// The bot leaves exactly when it is in a voice channel and nobody else is in
/// it.
pub proof fn law_bot_leaves_when_alone(states: Seq<VoiceState>, bot: u64, player: PlayerView)
    ensures
        voice_action(true, states, bot, player) == VoiceAction::Leave <==> {
            &&& voice::channel_of(states, bot) is Some
            &&& forall|i: int|
                0 <= i < states.len() && (#[trigger] states[i]).channel_id == voice::channel_of(
                    states,
                    bot,
                ) ==> states[i].user_id == bot
        },
{
    if voice::channel_of(states, bot) is Some {
        let channel = voice::channel_of(states, bot)->0;
        let members = voice::members_of(states, channel, bot);
        if members.len() > 0 {
            voice::law_members_are_in_the_channel(states, channel, bot, members[0]);
            assert(members.contains(members[0]));
        }
        assert forall|i: int| 0 <= i < states.len() && (#[trigger] states[i]).channel_id == Some(
            channel,
        ) && members.len() == 0 implies states[i].user_id == bot by {
            voice::law_members_are_in_the_channel(states, channel, bot, states[i].user_id);
        }
    }
}

/// Once playback has been stopped and the queue emptied, there is nothing left
/// to clean up, so losing the voice channel is dealt with once.
pub proof fn law_cleanup_happens_once(states: Seq<VoiceState>, bot: u64, player: PlayerView)
    requires
        voice::channel_of(states, bot) is None,
    ensures
        voice_action(true, states, bot, PlayerView { queue: seq![], ..player.stopped() })
            == VoiceAction::Ignore,
{
}

/// A step that brings the table of reminders up to date.
#[derive(Clone, Copy, PartialEq, Eq, Structural, Debug)]
pub enum MigrationStep {
    /// Create the new table, in which a reminder need not belong to a message.
    CreateNew,
    /// Copy the reminders into the new table.
    CopyRows,
    /// Drop the table that is in use.
    DropOld,
    /// Put the new table in its place.
    RenameNew,
}

/// The steps that bring the table of reminders up to date, given whether an
/// unfinished attempt left the new table behind, whether the table is there,
/// and what the database says of whether its column for the message must be
/// filled. What is left behind is put in place; a column that must be filled
/// has the table rebuilt.
pub open spec fn migration_steps(
    new_present: bool,
    old_present: bool,
    message_id_notnull: Option<i64>,
) -> Seq<MigrationStep> {
    if new_present {
        if old_present {
            seq![MigrationStep::DropOld, MigrationStep::RenameNew]
        } else {
            seq![MigrationStep::RenameNew]
        }
    } else if old_present && message_id_notnull == Some(1i64) {
        seq![
            MigrationStep::CreateNew,
            MigrationStep::CopyRows,
            MigrationStep::DropOld,
            MigrationStep::RenameNew,
        ]
    } else {
        seq![]
    }
}

/// Plans how the table of reminders is brought up to date. The steps belong in
/// one transaction.
pub fn migration_plan(new_present: bool, old_present: bool, message_id_notnull: Option<i64>) -> (r:
    Vec<MigrationStep>)
    ensures
        r@ == migration_steps(new_present, old_present, message_id_notnull),
{
    let mut steps: Vec<MigrationStep> = Vec::new();
    let required = match message_id_notnull {
        Some(flag) => old_present && flag == 1,
        None => false,
    };
    if new_present {
        if old_present {
            steps.push(MigrationStep::DropOld);
        }
        steps.push(MigrationStep::RenameNew);
    } else if required {
        steps.push(MigrationStep::CreateNew);
        steps.push(MigrationStep::CopyRows);
        steps.push(MigrationStep::DropOld);
        steps.push(MigrationStep::RenameNew);
    }
    assert(steps@ =~= migration_steps(new_present, old_present, message_id_notnull));
    steps
}

impl MigrationStep {
    /// The statement that does the step.
    pub open spec fn statement(self) -> Seq<char> {
        match self {
            MigrationStep::CreateNew => "CREATE TABLE notify_me_new (id INTEGER PRIMARY KEY AUTOINCREMENT,guild_id INTEGER NOT NULL,channel_id INTEGER NOT NULL,user_id INTEGER NOT NULL,message_id INTEGER,created_at DATETIME DEFAULT CURRENT_TIMESTAMP,notify_at DATETIME,note TEXT DEFAULT NULL)"@,
            MigrationStep::CopyRows => "INSERT INTO notify_me_new (id, guild_id, channel_id, user_id, message_id, created_at, notify_at, note) SELECT id, guild_id, channel_id, user_id, message_id, created_at, notify_at, note FROM notify_me"@,
            MigrationStep::DropOld => "DROP TABLE notify_me"@,
            MigrationStep::RenameNew => "ALTER TABLE notify_me_new RENAME TO notify_me"@,
        }
    }

    /// Writes the statement that does the step.
    pub fn sql(self) -> (r: String)
        ensures
            r@ == self.statement(),
    {
        match self {
            MigrationStep::CreateNew => "CREATE TABLE notify_me_new (id INTEGER PRIMARY KEY AUTOINCREMENT,guild_id INTEGER NOT NULL,channel_id INTEGER NOT NULL,user_id INTEGER NOT NULL,message_id INTEGER,created_at DATETIME DEFAULT CURRENT_TIMESTAMP,notify_at DATETIME,note TEXT DEFAULT NULL)".to_string(),
            MigrationStep::CopyRows => "INSERT INTO notify_me_new (id, guild_id, channel_id, user_id, message_id, created_at, notify_at, note) SELECT id, guild_id, channel_id, user_id, message_id, created_at, notify_at, note FROM notify_me".to_string(),
            MigrationStep::DropOld => "DROP TABLE notify_me".to_string(),
            MigrationStep::RenameNew => "ALTER TABLE notify_me_new RENAME TO notify_me".to_string(),
        }
    }
}

/// What the bot does with its database when it starts.
#[derive(Clone, Copy, PartialEq, Eq, Structural, Debug)]
pub enum DatabaseStage {
    /// Asking which tables there are.
    CatalogProbe,
    /// Asking about a column.
    SchemaProbe,
    /// Beginning the transaction.
    Begin,
    /// A step of the plan.
    Step(MigrationStep),
    /// Ending the transaction.
    Commit,
}

impl DatabaseStage {
    /// What a failure of the stage is reported as.
    pub open spec fn failure(self) -> Seq<char> {
        match self {
            DatabaseStage::CatalogProbe => "Catalog probe failed: "@,
            DatabaseStage::SchemaProbe => "Schema probe failed: "@,
            DatabaseStage::Begin => "Begin migration tx failed: "@,
            DatabaseStage::Step(MigrationStep::CreateNew) => "CREATE notify_me_new failed: "@,
            DatabaseStage::Step(MigrationStep::CopyRows) => "Copy into notify_me_new failed: "@,
            DatabaseStage::Step(MigrationStep::DropOld) => "DROP notify_me failed: "@,
            DatabaseStage::Step(MigrationStep::RenameNew) => "RENAME notify_me_new failed: "@,
            DatabaseStage::Commit => "Commit migration tx failed: "@,
        }
    }

    /// Reports that the stage failed, with what the database said.
    pub fn failed(self, reason: &str) -> (r: MusicBotError)
        ensures
            r.is_internal(self.failure() + reason@),
    {
        let mut out = match self {
            DatabaseStage::CatalogProbe => "Catalog probe failed: ".to_string(),
            DatabaseStage::SchemaProbe => "Schema probe failed: ".to_string(),
            DatabaseStage::Begin => "Begin migration tx failed: ".to_string(),
            DatabaseStage::Step(step) => match step {
                MigrationStep::CreateNew => "CREATE notify_me_new failed: ".to_string(),
                MigrationStep::CopyRows => "Copy into notify_me_new failed: ".to_string(),
                MigrationStep::DropOld => "DROP notify_me failed: ".to_string(),
                MigrationStep::RenameNew => "RENAME notify_me_new failed: ".to_string(),
            },
            DatabaseStage::Commit => "Commit migration tx failed: ".to_string(),
        };
        out.append(reason);
        MusicBotError::InternalError(out)
    }
}

/// A table of reminders, as far as the steps change it.
pub struct Table {
    /// Whether the column for the message must be filled.
    pub message_required: bool,
    /// The reminders.
    pub rows: Seq<int>,
}

/// The tables that the steps are about.
pub struct Schema {
    /// The table that is in use, if it is there.
    pub notify_me: Option<Table>,
    /// The new table, if it is there.
    pub notify_me_new: Option<Table>,
}

impl Schema {
    /// The steps that are planned for these tables.
    pub open spec fn plan(self) -> Seq<MigrationStep> {
        migration_steps(
            self.notify_me_new is Some,
            self.notify_me is Some,
            match self.notify_me {
                Some(table) => Some(
                    if table.message_required {
                        1i64
                    } else {
                        0i64
                    },
                ),
                None => None,
            },
        )
    }

    /// Whether the database carries a step out.
    pub open spec fn allows(self, step: MigrationStep) -> bool {
        match step {
            MigrationStep::CreateNew => self.notify_me_new is None,
            MigrationStep::CopyRows => self.notify_me is Some && self.notify_me_new is Some,
            MigrationStep::DropOld => self.notify_me is Some,
            MigrationStep::RenameNew => self.notify_me is None && self.notify_me_new is Some,
        }
    }

    /// The tables after a step.
    pub open spec fn after(self, step: MigrationStep) -> Schema {
        match step {
            MigrationStep::CreateNew => Schema {
                notify_me_new: Some(Table { message_required: false, rows: seq![] }),
                ..self
            },
            MigrationStep::CopyRows => Schema {
                notify_me_new: Some(
                    Table {
                        rows: self.notify_me_new->0.rows + self.notify_me->0.rows,
                        ..self.notify_me_new->0
                    },
                ),
                ..self
            },
            MigrationStep::DropOld => Schema { notify_me: None, ..self },
            MigrationStep::RenameNew => Schema {
                notify_me: self.notify_me_new,
                notify_me_new: None,
            },
        }
    }

    /// Whether the database carries the steps out, one after the other.
    pub open spec fn allows_all(self, steps: Seq<MigrationStep>) -> bool
        decreases steps.len(),
    {
        steps.len() == 0 || (self.allows(steps[0]) && self.after(steps[0]).allows_all(
            steps.skip(1),
        ))
    }

    /// The tables after the steps, one after the other.
    pub open spec fn after_all(self, steps: Seq<MigrationStep>) -> Schema
        decreases steps.len(),
    {
        if steps.len() == 0 {
            self
        } else {
            self.after(steps[0]).after_all(steps.skip(1))
        }
    }
}

/// Whatever tables an earlier start left behind, the planned steps can be
/// carried out. Afterwards the new table is gone, nothing is left to do, and a
/// table that was rebuilt has all its reminders and need not have its column
/// filled. Where the new table had been left behind, it is the one in use.
pub proof fn law_migration_completes(s: Schema)
    requires
        s.notify_me_new matches Some(table) ==> !table.message_required,
    ensures
        ({
            let after = s.after_all(s.plan());
            &&& s.allows_all(s.plan())
            &&& after.notify_me_new is None
            &&& after.plan().len() == 0
            &&& after.notify_me is Some <==> s.notify_me is Some || s.notify_me_new is Some
            &&& s.notify_me_new is Some ==> after.notify_me == s.notify_me_new
            &&& s.notify_me_new is None && s.notify_me is Some ==> after.notify_me == Some(
                Table { message_required: false, rows: s.notify_me->0.rows },
            )
        }),
{
    reveal_with_fuel(Schema::allows_all, 5);
    reveal_with_fuel(Schema::after_all, 5);
    let steps = s.plan();
    if s.notify_me_new is Some {
        if s.notify_me is Some {
            assert(steps.skip(1) =~= seq![MigrationStep::RenameNew]);
            assert(steps.skip(1).skip(1) =~= seq![]);
        } else {
            assert(steps.skip(1) =~= seq![]);
        }
    } else if s.notify_me is Some && s.notify_me->0.message_required {
        assert(steps.skip(1) =~= seq![
            MigrationStep::CopyRows,
            MigrationStep::DropOld,
            MigrationStep::RenameNew,
        ]);
        assert(steps.skip(1).skip(1) =~= seq![MigrationStep::DropOld, MigrationStep::RenameNew]);
        assert(steps.skip(1).skip(1).skip(1) =~= seq![MigrationStep::RenameNew]);
        assert(steps.skip(1).skip(1).skip(1).skip(1) =~= seq![]);
        assert(seq![] + s.notify_me->0.rows =~= s.notify_me->0.rows);
    }
}

/// Every error has its text, and an internal one says what went wrong.
pub proof fn law_errors_have_their_text(e: MusicBotError, r: String)
    requires
        call_ensures(MusicBotError::message, (&e,), r),
    ensures
        e matches MusicBotError::InternalError(reason) ==> r@
            == "Whoops, an internal error occurred: "@ + reason@,
        e is NoGuildIdError ==> r@ == "No guild ID found"@,
        e is UserNotInVoiceChannelError ==> r@ == "User not in voice channel"@,
        e is BotNotInVoiceChannelError ==> r@ == "Bot not in voice channel"@,
        e is UnableToJoinVoiceChannelError ==> r@ == "Unable to join voice channel"@,
{
}

/// In a guild, a bot that is in no voice channel cleans up exactly where its
/// player is active or paused or has tracks in its queue. A bot that is in one
/// leaves exactly where nobody else is in it, whatever its player does. In all
/// other events it does nothing.
pub proof fn law_bot_minds_its_voice_channel(
    in_guild: bool,
    states: Vec<VoiceState>,
    bot: u64,
    player: Player,
    r: VoiceAction,
    channel: Option<u64>,
)
    requires
        call_ensures(on_voice_update, (in_guild, &states, bot, &player), r),
        call_ensures(voice::user_channel, (&states, bot), channel),
    ensures
        !in_guild ==> r == VoiceAction::Ignore,
        in_guild && channel is None ==> {
            let busy = player.is_playing || player.is_paused || player.queue@.len() > 0;
            &&& busy ==> r == VoiceAction::CleanUp
            &&& !busy ==> r == VoiceAction::Ignore
        },
        in_guild && channel is Some ==> {
            let alone = forall|i: int|
                0 <= i < states@.len() && (#[trigger] states@[i]).channel_id == channel
                    ==> states@[i].user_id == bot;
            &&& alone ==> r == VoiceAction::Leave
            &&& !alone ==> r == VoiceAction::Ignore
        },
{
    law_bot_leaves_when_alone(states@, bot, player@);
}

/// The table of reminders is left alone exactly where no new table was left
/// behind and the column of the table that is there, if one is, need not be
/// filled. Otherwise the new table ends up in place, after the old one, if there
/// is one, was dropped; and a new table is made, and filled from the old one, only
/// where none was left behind.
pub proof fn law_migrations_do_what_is_needed(
    new_present: bool,
    old_present: bool,
    message_id_notnull: Option<i64>,
    r: Vec<MigrationStep>,
)
    requires
        call_ensures(migration_plan, (new_present, old_present, message_id_notnull), r),
    ensures
        ({
            let required = old_present && message_id_notnull == Some(1i64);
            let n = r@.len();
            &&& n == 0 <==> !new_present && !required
            &&& n > 0 ==> r@[n - 1] == MigrationStep::RenameNew
            &&& n > 0 && old_present ==> n >= 2 && r@[n - 2] == MigrationStep::DropOld
            &&& new_present && old_present ==> n == 2
            &&& new_present && !old_present ==> n == 1
            &&& !new_present && required ==> n == 4 && r@[0] == MigrationStep::CreateNew && r@[1]
                == MigrationStep::CopyRows
        }),
{
}

/// The statements work on the table that is in use and on the new one, and the
/// rows are copied column by column.
pub proof fn law_steps_have_their_statement(step: MigrationStep, r: String)
    requires
        call_ensures(MigrationStep::sql, (step,), r),
    ensures
        step == MigrationStep::DropOld ==> r@ == "DROP TABLE notify_me"@,
        step == MigrationStep::RenameNew ==> r@
            == "ALTER TABLE notify_me_new RENAME TO notify_me"@,
        step == MigrationStep::CreateNew ==> r@
            == "CREATE TABLE notify_me_new (id INTEGER PRIMARY KEY AUTOINCREMENT,guild_id INTEGER NOT NULL,channel_id INTEGER NOT NULL,user_id INTEGER NOT NULL,message_id INTEGER,created_at DATETIME DEFAULT CURRENT_TIMESTAMP,notify_at DATETIME,note TEXT DEFAULT NULL)"@,
        step == MigrationStep::CopyRows ==> r@
            == "INSERT INTO notify_me_new (id, guild_id, channel_id, user_id, message_id, created_at, notify_at, note) SELECT id, guild_id, channel_id, user_id, message_id, created_at, notify_at, note FROM notify_me"@,
{
}

/// A stage that fails is named, with what the database said of it.
pub proof fn law_failed_stages_are_named(stage: DatabaseStage, reason: &str, r: MusicBotError)
    requires
        call_ensures(DatabaseStage::failed, (stage, reason), r),
    ensures
        r is InternalError,
        stage == DatabaseStage::CatalogProbe ==> r->InternalError_0@ == "Catalog probe failed: "@
            + reason@,
        stage == DatabaseStage::SchemaProbe ==> r->InternalError_0@ == "Schema probe failed: "@
            + reason@,
        stage == DatabaseStage::Begin ==> r->InternalError_0@ == "Begin migration tx failed: "@
            + reason@,
        stage == DatabaseStage::Step(MigrationStep::CreateNew) ==> r->InternalError_0@
            == "CREATE notify_me_new failed: "@ + reason@,
        stage == DatabaseStage::Step(MigrationStep::CopyRows) ==> r->InternalError_0@
            == "Copy into notify_me_new failed: "@ + reason@,
        stage == DatabaseStage::Step(MigrationStep::DropOld) ==> r->InternalError_0@
            == "DROP notify_me failed: "@ + reason@,
        stage == DatabaseStage::Step(MigrationStep::RenameNew) ==> r->InternalError_0@
            == "RENAME notify_me_new failed: "@ + reason@,
        stage == DatabaseStage::Commit ==> r->InternalError_0@ == "Commit migration tx failed: "@
            + reason@,
{
}

} // verus!
